//! The buffered terminal: drawing commands are queued in order and handed out
//! as one batch by `execute`, so that a whole frame reaches the screen at once.

use vstd::prelude::*;
use vstd::string::StringExecFns;
use crate::geometry::{Position, origin};

verus! {

/// One terminal command.
#[derive(Clone, Debug, PartialEq, Eq)]
pub enum Command {
    /// Switch the input to raw mode (no line buffering, no echo).
    EnableRawMode,
    /// Restore the cooperative input mode.
    DisableRawMode,
    /// Erase the full screen.
    ClearScreen,
    /// Erase the line the caret is on.
    ClearLine,
    /// Move the caret to a cell.
    MoveCaretTo(Position),
    HideCaret,
    ShowCaret,
    /// Write text at the caret; line breaks must be written as `\r\n`.
    Print(String),
}

/// What a command is, with text as a sequence of characters.
pub enum CommandModel {
    EnableRawMode,
    DisableRawMode,
    ClearScreen,
    ClearLine,
    MoveCaretTo(Position),
    HideCaret,
    ShowCaret,
    Print(Seq<char>),
}

impl View for Command {
    type V = CommandModel;

    open spec fn view(&self) -> CommandModel {
        match self {
            Command::EnableRawMode => CommandModel::EnableRawMode,
            Command::DisableRawMode => CommandModel::DisableRawMode,
            Command::ClearScreen => CommandModel::ClearScreen,
            Command::ClearLine => CommandModel::ClearLine,
            Command::MoveCaretTo(p) => CommandModel::MoveCaretTo(*p),
            Command::HideCaret => CommandModel::HideCaret,
            Command::ShowCaret => CommandModel::ShowCaret,
            Command::Print(s) => CommandModel::Print(s@),
        }
    }
}

/// The models of a sequence of commands.
pub open spec fn commands_view(v: Seq<Command>) -> Seq<CommandModel> {
    v.map_values(|c: Command| c@)
}

/// What `initialize` queues: raw mode on, a clear screen, the caret home.
pub open spec fn initialize_commands() -> Seq<CommandModel> {
    seq![
        CommandModel::EnableRawMode,
        CommandModel::ClearScreen,
        CommandModel::MoveCaretTo(origin()),
    ]
}

/// What `terminate` queues, after whatever is still pending: raw mode off and a clear screen.
pub open spec fn terminate_commands() -> Seq<CommandModel> {
    seq![CommandModel::DisableRawMode, CommandModel::ClearScreen]
}

/// A queue of terminal commands not yet committed.
pub struct Terminal {
    queue: Vec<Command>,
}

impl View for Terminal {
    type V = Seq<CommandModel>;

    closed spec fn view(&self) -> Seq<CommandModel> {
        commands_view(self.queue@)
    }
}

impl Terminal {
    /// A terminal with nothing queued.
    pub fn default() -> (r: Self)
        ensures
            r@ == Seq::<CommandModel>::empty(),
    {
        let r = Terminal { queue: Vec::new() };
        assert(r@ =~= Seq::<CommandModel>::empty());
        r
    }

    pub fn queue_command(&mut self, command: Command)
        ensures
            final(self)@ == old(self)@.push(command@),
    {
        self.queue.push(command);
        assert(final(self)@ =~= old(self)@.push(command@));
    }

    /// Queues the start of a session: raw mode on, the screen cleared, the caret home.
    pub fn initialize(&mut self)
        ensures
            final(self)@ == old(self)@ + initialize_commands(),
    {
        self.queue_command(Command::EnableRawMode);
        self.queue_command(Command::ClearScreen);
        self.queue_command(Command::MoveCaretTo(Position { col: 0, row: 0 }));
        assert(final(self)@ =~= old(self)@ + initialize_commands());
    }

    /// Queues the end of a session, after all that is pending: raw mode off and the
    /// screen cleared.
    pub fn terminate(&mut self)
        ensures
            final(self)@ == old(self)@ + terminate_commands(),
    {
        self.queue_command(Command::DisableRawMode);
        self.queue_command(Command::ClearScreen);
        assert(final(self)@ =~= old(self)@ + terminate_commands());
    }

    pub fn clear_screen(&mut self)
        ensures
            final(self)@ == old(self)@.push(CommandModel::ClearScreen),
    {
        self.queue_command(Command::ClearScreen);
    }

    pub fn clear_line(&mut self)
        ensures
            final(self)@ == old(self)@.push(CommandModel::ClearLine),
    {
        self.queue_command(Command::ClearLine);
    }

    pub fn move_caret_to(&mut self, position: Position)
        ensures
            final(self)@ == old(self)@.push(CommandModel::MoveCaretTo(position)),
    {
        self.queue_command(Command::MoveCaretTo(position));
    }

    pub fn hide_caret(&mut self)
        ensures
            final(self)@ == old(self)@.push(CommandModel::HideCaret),
    {
        self.queue_command(Command::HideCaret);
    }

    pub fn show_caret(&mut self)
        ensures
            final(self)@ == old(self)@.push(CommandModel::ShowCaret),
    {
        self.queue_command(Command::ShowCaret);
    }

    pub fn print(&mut self, text: &str)
        ensures
            final(self)@ == old(self)@.push(CommandModel::Print(text@)),
    {
        self.queue_command(Command::Print(String::from_str(text)));
    }

    /// Hands out every queued command, in the order queued, and empties the queue.
    pub fn execute(&mut self) -> (batch: Vec<Command>)
        ensures
            commands_view(batch@) == old(self)@,
            final(self)@ == Seq::<CommandModel>::empty(),
    {
        let mut batch: Vec<Command> = Vec::new();
        std::mem::swap(&mut batch, &mut self.queue);
        assert(final(self)@ =~= Seq::<CommandModel>::empty());
        batch
    }
}

} // verus!
