//! The editor: caret navigation over a toroidal viewport, event evaluation,
//! the frame drawn on each pass, and the session that brackets them.

use vstd::prelude::*;
use vstd::string::StrSliceExecFns;
use crate::geometry::{Position, TerminalSize, origin};
use crate::input::{ALT, InputEvent, KeyCode, KeyKind, is_quit, pressed_key};
use crate::terminal::{CommandModel, Terminal, initialize_commands, terminate_commands};

verus! {

/// The startup banner: the editor's name and version.
pub const BANNER: &'static str = "hecto: v0.1.0";

/// The line printed when the session ends.
pub const FAREWELL: &'static str = "Exiting.\r\n";

/// The glyph drawn at the start of each viewport row.
pub const ROW_GLYPH: &'static str = "~";

/// The line break that raw mode requires between rows.
pub const LINE_BREAK: &'static str = "\r\n";

/// Where a session stands between two steps.
#[derive(Copy, Clone, Debug, PartialEq, Eq, Structural)]
pub enum Phase {
    /// Nothing done yet.
    Fresh,
    /// The initialize batch is out.
    Starting,
    /// Raw mode is held and an input event is awaited.
    Reading,
    /// Raw mode is held and a frame is out.
    Drawing,
    /// The terminate batch is out.
    Stopping,
    /// The session is over.
    Closed,
}

/// How the action last handed out went.
#[derive(Copy, Clone, Debug, PartialEq, Eq, Structural)]
pub enum Outcome {
    /// The queued batch was written and flushed.
    Done,
    /// An input event was read, and the viewport measured after it.
    Input(InputEvent, TerminalSize),
    /// The action failed with an I/O error.
    Failed,
}

/// What the session asks its driver to do next.
#[derive(Copy, Clone, Debug, PartialEq, Eq, Structural)]
pub enum Action {
    /// Take the terminal's queued batch, perform it in order and flush.
    Flush,
    /// Block for one input event, then measure the viewport.
    Read,
    /// The session ended cleanly and the terminal is restored.
    Exit,
    /// The session ended on an I/O failure; the error is fatal.
    Abort,
}

/// The editor's session state.
#[derive(Copy, Clone, Debug, PartialEq, Eq, Structural)]
pub struct Editor {
    pub should_quit: bool,
    pub caret: Position,
    pub phase: Phase,
    /// Whether an I/O failure has ended, or is ending, the session.
    pub failed: bool,
}

/// The last index of an axis of `bound` cells; 0 for an empty axis.
pub open spec fn last_index(bound: usize) -> usize {
    if bound == 0 {
        0
    } else {
        (bound - 1) as usize
    }
}

/// One step back along an axis, wrapping from 0 to the last index.
pub open spec fn wrap_back(v: usize, bound: usize) -> usize {
    if v == 0 {
        last_index(bound)
    } else {
        (v - 1) as usize
    }
}

/// One step forward along an axis, wrapping to 0 where the bound is reached.
pub open spec fn wrap_forward(v: usize, bound: usize) -> usize {
    if v + 1 >= bound {
        0
    } else {
        (v + 1) as usize
    }
}

/// Where a navigation key takes the caret in a viewport of the given size.
pub open spec fn moved(c: Position, key: KeyCode, size: TerminalSize) -> Position {
    match key {
        KeyCode::Up => Position { col: c.col, row: wrap_back(c.row, size.height) },
        KeyCode::Down => Position { col: c.col, row: wrap_forward(c.row, size.height) },
        KeyCode::Left => Position { col: wrap_back(c.col, size.width), row: c.row },
        KeyCode::Right => Position { col: wrap_forward(c.col, size.width), row: c.row },
        KeyCode::Home => Position { col: 0, row: c.row },
        KeyCode::End => Position { col: last_index(size.width), row: c.row },
        KeyCode::PageUp => Position { col: c.col, row: 0 },
        KeyCode::PageDown => Position { col: c.col, row: last_index(size.height) },
        _ => c,
    }
}

/// The editor after an input event, with the viewport of the given size.
pub open spec fn evaluated(e: Editor, ev: InputEvent, size: TerminalSize) -> Editor {
    if is_quit(ev) {
        Editor { should_quit: true, ..e }
    } else if let Some(key) = pressed_key(ev) {
        Editor { caret: moved(e.caret, key, size), ..e }
    } else {
        e
    }
}

/// The banner cut to the viewport width.
pub open spec fn banner_text(width: usize) -> Seq<char> {
    if width < BANNER@.len() {
        BANNER@.subrange(0, width as int)
    } else {
        BANNER@
    }
}

/// The banner's cell: two thirds down, centered, flush left when it does not fit.
pub open spec fn banner_position(size: TerminalSize) -> Position {
    let half_text = banner_text(size.width).len() / 2;
    let half_width = size.width / 2;
    Position {
        col: if half_width >= half_text { (half_width - half_text) as usize } else { 0 },
        row: (size.height * 2 / 3) as usize,
    }
}

/// The commands that draw the banner and return the caret home.
pub open spec fn banner_commands(size: TerminalSize) -> Seq<CommandModel> {
    seq![
        CommandModel::MoveCaretTo(banner_position(size)),
        CommandModel::Print(banner_text(size.width)),
        CommandModel::MoveCaretTo(origin()),
    ]
}

/// The commands for row `r` of `height` rows: a fresh line with the glyph, and a
/// line break unless it is the last row.
pub open spec fn row_commands(r: int, height: int) -> Seq<CommandModel> {
    if r + 1 < height {
        seq![
            CommandModel::ClearLine,
            CommandModel::Print(ROW_GLYPH@),
            CommandModel::Print(LINE_BREAK@),
        ]
    } else {
        seq![CommandModel::ClearLine, CommandModel::Print(ROW_GLYPH@)]
    }
}

/// The commands for the first `k` of `height` rows.
pub open spec fn rows_commands(k: int, height: int) -> Seq<CommandModel>
    decreases k,
{
    if k <= 0 {
        Seq::empty()
    } else {
        rows_commands(k - 1, height) + row_commands(k - 1, height)
    }
}

/// The frame of one render pass.
pub open spec fn frame(e: Editor, size: TerminalSize) -> Seq<CommandModel> {
    if e.should_quit {
        seq![
            CommandModel::HideCaret,
            CommandModel::MoveCaretTo(origin()),
            CommandModel::ClearScreen,
            CommandModel::Print(FAREWELL@),
            CommandModel::ShowCaret,
        ]
    } else {
        seq![CommandModel::HideCaret, CommandModel::MoveCaretTo(origin())]
            + rows_commands(size.height as int, size.height as int)
            + banner_commands(size)
            + seq![CommandModel::MoveCaretTo(e.caret), CommandModel::ShowCaret]
    }
}

/// After a batch went through with raw mode held: stop if quitting, else read on.
pub open spec fn carry_on(e: Editor) -> (Editor, Action) {
    if e.should_quit {
        (Editor { phase: Phase::Stopping, ..e }, Action::Flush)
    } else {
        (Editor { phase: Phase::Reading, ..e }, Action::Read)
    }
}

/// After a failure with raw mode held: release it before anything else.
pub open spec fn fail(e: Editor) -> (Editor, Action) {
    (Editor { phase: Phase::Stopping, failed: true, ..e }, Action::Flush)
}

/// The action that ends a session, by whether it failed.
pub open spec fn closing_action(failed: bool) -> Action {
    if failed {
        Action::Abort
    } else {
        Action::Exit
    }
}

/// The session's next state and action, given how the last action went.
pub open spec fn step(e: Editor, o: Outcome) -> (Editor, Action) {
    match e.phase {
        Phase::Fresh => (Editor { phase: Phase::Starting, ..e }, Action::Flush),
        Phase::Starting => if o is Done {
            carry_on(e)
        } else {
            (Editor { phase: Phase::Closed, failed: true, ..e }, Action::Abort)
        },
        Phase::Reading => if let Outcome::Input(ev, size) = o {
            (Editor { phase: Phase::Drawing, ..evaluated(e, ev, size) }, Action::Flush)
        } else {
            fail(e)
        },
        Phase::Drawing => if o is Done {
            carry_on(e)
        } else {
            fail(e)
        },
        Phase::Stopping => if o is Done {
            (Editor { phase: Phase::Closed, ..e }, closing_action(e.failed))
        } else {
            (Editor { phase: Phase::Closed, failed: true, ..e }, Action::Abort)
        },
        Phase::Closed => (e, closing_action(e.failed)),
    }
}

/// The commands queued on a step: the initialize batch on the first, the frame
/// after each event, and the terminate batch on entering `Stopping`.
pub open spec fn queued(e: Editor, o: Outcome) -> Seq<CommandModel> {
    if e.phase == Phase::Fresh {
        initialize_commands()
    } else if e.phase == Phase::Reading && o is Input {
        frame(evaluated(e, o->Input_0, o->Input_1), o->Input_1)
    } else if releases(e, o) {
        terminate_commands()
    } else {
        Seq::empty()
    }
}

/// Whether a step hands out the terminate batch: it enters `Stopping` from elsewhere.
pub open spec fn releases(e: Editor, o: Outcome) -> bool {
    e.phase != Phase::Stopping && step(e, o).0.phase == Phase::Stopping
}

impl Default for Editor {
    fn default() -> (r: Self)
        ensures
            r == (Editor {
                should_quit: false,
                caret: origin(),
                phase: Phase::Fresh,
                failed: false,
            }),
    {
        Editor {
            should_quit: false,
            caret: Position { col: 0, row: 0 },
            phase: Phase::Fresh,
            failed: false,
        }
    }
}

impl Editor {
    /// Moves the caret for a navigation key; other keys leave it where it is.
    pub fn move_point(&mut self, key: KeyCode, size: TerminalSize)
        ensures
            *final(self) == (Editor { caret: moved(old(self).caret, key, size), ..*old(self) }),
    {
        let mut x: usize = self.caret.col;
        let mut y: usize = self.caret.row;
        let width: usize = size.width;
        let height: usize = size.height;
        match key {
            KeyCode::Up => {
                y = if y == 0 { height.saturating_sub(1) } else { y - 1 };
            },
            KeyCode::Down => {
                y = if height == 0 || y >= height - 1 { 0 } else { y + 1 };
            },
            KeyCode::Left => {
                x = if x == 0 { width.saturating_sub(1) } else { x - 1 };
            },
            KeyCode::Right => {
                x = if width == 0 || x >= width - 1 { 0 } else { x + 1 };
            },
            KeyCode::PageUp => {
                y = 0;
            },
            KeyCode::PageDown => {
                y = height.saturating_sub(1);
            },
            KeyCode::Home => {
                x = 0;
            },
            KeyCode::End => {
                x = width.saturating_sub(1);
            },
            _ => {},
        }
        self.caret = Position { col: x, row: y };
    }

    /// Applies one input event: the quit combination ends the session, a navigation
    /// key moves the caret, and anything else, including every event that is not a
    /// key press, changes nothing.
    pub fn evaluate_event(&mut self, event: &InputEvent, size: TerminalSize)
        ensures
            *final(self) == evaluated(*old(self), *event, size),
            !is_quit(*event) ==> final(self).should_quit == old(self).should_quit,
    {
        if let InputEvent::Key(key) = event {
            if key.kind == KeyKind::Press {
                match key.code {
                    KeyCode::Char(c) => {
                        if c == 'q' && key.modifiers == ALT {
                            self.should_quit = true;
                        }
                    },
                    KeyCode::Up | KeyCode::Down | KeyCode::Left | KeyCode::Right
                    | KeyCode::PageUp | KeyCode::PageDown | KeyCode::Home | KeyCode::End => {
                        self.move_point(key.code, size);
                    },
                    KeyCode::Other => {},
                }
            }
        }
    }

    /// Advances the session by one step, given how the last action went, and
    /// says what to do next; batches to flush are queued on `terminal`.
    ///
    /// The terminal is initialized first; once that has gone through, each event
    /// read is evaluated and answered with a frame, until the quit combination
    /// or a failure. From then on the terminate batch is queued exactly once, and
    /// the session closes with `Exit`, or `Abort` if anything failed. A failed
    /// initialize aborts at once: raw mode was never taken. The first step takes
    /// any outcome; later, one that does not fit the last action counts as failed.
    pub fn run(&mut self, terminal: &mut Terminal, outcome: Outcome) -> (r: Action)
        ensures
            (*final(self), r) == step(*old(self), outcome),
            final(terminal)@ == old(terminal)@ + queued(*old(self), outcome),
    {
        match self.phase {
            Phase::Fresh => {
                terminal.initialize();
                self.phase = Phase::Starting;
                Action::Flush
            },
            Phase::Starting => {
                if let Outcome::Done = outcome {
                    self.carry_on(terminal)
                } else {
                    self.phase = Phase::Closed;
                    self.failed = true;
                    proof {
                        assert(terminal@ =~= old(terminal)@ + queued(*old(self), outcome));
                    }
                    Action::Abort
                }
            },
            Phase::Reading => {
                if let Outcome::Input(event, size) = outcome {
                    self.evaluate_event(&event, size);
                    self.refresh_screen(terminal, size);
                    self.phase = Phase::Drawing;
                    Action::Flush
                } else {
                    self.fail(terminal)
                }
            },
            Phase::Drawing => {
                if let Outcome::Done = outcome {
                    self.carry_on(terminal)
                } else {
                    self.fail(terminal)
                }
            },
            Phase::Stopping => {
                self.phase = Phase::Closed;
                if let Outcome::Done = outcome {
                } else {
                    self.failed = true;
                }
                proof {
                    assert(terminal@ =~= old(terminal)@ + queued(*old(self), outcome));
                }
                if self.failed { Action::Abort } else { Action::Exit }
            },
            Phase::Closed => {
                proof {
                    assert(terminal@ =~= old(terminal)@ + queued(*old(self), outcome));
                }
                if self.failed { Action::Abort } else { Action::Exit }
            },
        }
    }

    fn carry_on(&mut self, terminal: &mut Terminal) -> (r: Action)
        requires
            old(self).phase == Phase::Starting || old(self).phase == Phase::Drawing,
        ensures
            (*final(self), r) == carry_on(*old(self)),
            final(terminal)@ == old(terminal)@ + (if old(self).should_quit {
                terminate_commands()
            } else {
                Seq::empty()
            }),
    {
        if self.should_quit {
            terminal.terminate();
            self.phase = Phase::Stopping;
            Action::Flush
        } else {
            self.phase = Phase::Reading;
            assert(terminal@ =~= old(terminal)@ + Seq::<CommandModel>::empty());
            Action::Read
        }
    }

    fn fail(&mut self, terminal: &mut Terminal) -> (r: Action)
        ensures
            (*final(self), r) == fail(*old(self)),
            final(terminal)@ == old(terminal)@ + terminate_commands(),
    {
        terminal.terminate();
        self.phase = Phase::Stopping;
        self.failed = true;
        Action::Flush
    }

    fn draw_empty_row(terminal: &mut Terminal)
        ensures
            final(terminal)@ == old(terminal)@ + seq![
                CommandModel::ClearLine,
                CommandModel::Print(ROW_GLYPH@),
            ],
    {
        terminal.clear_line();
        terminal.print(ROW_GLYPH);
        assert(final(terminal)@ =~= old(terminal)@ + seq![
            CommandModel::ClearLine,
            CommandModel::Print(ROW_GLYPH@),
        ]);
    }

    /// Queues one glyph row per viewport row, each on a freshly cleared line.
    pub fn draw_rows(terminal: &mut Terminal, size: TerminalSize)
        ensures
            final(terminal)@ == old(terminal)@ + rows_commands(
                size.height as int,
                size.height as int,
            ),
    {
        let height: usize = size.height;
        let mut current_row: usize = 0;
        while current_row < height
            invariant
                current_row <= height,
                terminal@ == old(terminal)@ + rows_commands(current_row as int, height as int),
            decreases height - current_row,
        {
            Self::draw_empty_row(terminal);
            if current_row + 1 < height {
                terminal.print(LINE_BREAK);
            }
            assert(terminal@ =~= old(terminal)@ + rows_commands(
                current_row + 1,
                height as int,
            ));
            current_row = current_row + 1;
        }
    }

    /// Queues the banner, cut to the viewport width and centered on the row two
    /// thirds down, then returns the caret home.
    pub fn draw_welcome_message(terminal: &mut Terminal, size: TerminalSize)
        ensures
            final(terminal)@ == old(terminal)@ + banner_commands(size),
    {
        let width: usize = size.width;
        let height: usize = size.height;
        let full: usize = BANNER.unicode_len();
        let len: usize = if width < full { width } else { full };
        let message: &str = BANNER.substring_char(0, len);
        assert(message@ == banner_text(width));
        let row: usize = height / 3 * 2 + (height % 3) * 2 / 3;
        assert(row == height * 2 / 3) by (nonlinear_arith)
            requires
                row == height / 3 * 2 + (height % 3) * 2 / 3,
                height == 3 * (height / 3) + height % 3,
                0 <= height % 3 < 3,
        {}
        let col: usize = (width / 2).saturating_sub(len / 2);
        terminal.move_caret_to(Position { col, row });
        terminal.print(message);
        terminal.move_caret_to(Position { col: 0, row: 0 });
        assert(final(terminal)@ =~= old(terminal)@ + banner_commands(size));
    }

    /// Queues the frame of one render pass: the farewell line once quitting, else
    /// the rows, the banner and the caret at its place, all drawn with the caret hidden.
    pub fn refresh_screen(&self, terminal: &mut Terminal, size: TerminalSize)
        ensures
            final(terminal)@ == old(terminal)@ + frame(*self, size),
    {
        terminal.hide_caret();
        terminal.move_caret_to(Position { col: 0, row: 0 });
        if self.should_quit {
            terminal.clear_screen();
            terminal.print(FAREWELL);
        } else {
            Self::draw_rows(terminal, size);
            Self::draw_welcome_message(terminal, size);
            terminal.move_caret_to(self.caret);
        }
        terminal.show_caret();
        assert(final(terminal)@ =~= old(terminal)@ + frame(*self, size));
    }
}

} // verus!
