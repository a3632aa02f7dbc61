use hecto::editor::{Action, Editor, Outcome, Phase};
use hecto::geometry::{Position, TerminalSize};
use hecto::input::{InputEvent, KeyCode, KeyInput, KeyKind, ALT, CONTROL, SHIFT};
use hecto::terminal::{Command, Terminal};

fn size(width: usize, height: usize) -> TerminalSize {
    TerminalSize { width, height }
}

fn press(code: KeyCode) -> InputEvent {
    InputEvent::Key(KeyInput { code, modifiers: 0, kind: KeyKind::Press })
}

fn key(code: KeyCode, modifiers: u8, kind: KeyKind) -> InputEvent {
    InputEvent::Key(KeyInput { code, modifiers, kind })
}

fn at(col: usize, row: usize) -> Editor {
    Editor { caret: Position { col, row }, ..Editor::default() }
}

fn after(mut editor: Editor, events: &[InputEvent], viewport: TerminalSize) -> Editor {
    for event in events {
        editor.evaluate_event(event, viewport);
    }
    editor
}

fn caret(editor: &Editor) -> (usize, usize) {
    (editor.caret.col, editor.caret.row)
}

fn print(text: &str) -> Command {
    Command::Print(text.to_string())
}

#[test]
fn right_right_down_home_lands_on_second_row_start() {
    let events = [
        press(KeyCode::Right),
        press(KeyCode::Right),
        press(KeyCode::Down),
        press(KeyCode::Home),
    ];
    let editor = after(at(0, 0), &events, size(80, 24));
    assert_eq!(caret(&editor), (0, 1));
}

#[test]
fn up_from_top_wraps_to_bottom_row() {
    let editor = after(at(0, 0), &[press(KeyCode::Up)], size(80, 24));
    assert_eq!(caret(&editor), (0, 23));
}

#[test]
fn right_from_last_column_wraps_to_first() {
    let editor = after(at(79, 5), &[press(KeyCode::Right)], size(80, 24));
    assert_eq!(caret(&editor), (0, 5));
}

#[test]
fn left_from_first_column_wraps_to_last() {
    let editor = after(at(0, 7), &[press(KeyCode::Left)], size(80, 24));
    assert_eq!(caret(&editor), (79, 7));
}

#[test]
fn down_from_bottom_row_wraps_to_top() {
    let editor = after(at(12, 23), &[press(KeyCode::Down)], size(80, 24));
    assert_eq!(caret(&editor), (12, 0));
}

#[test]
fn plain_steps_move_by_one() {
    let viewport = size(80, 24);
    assert_eq!(caret(&after(at(10, 10), &[press(KeyCode::Left)], viewport)), (9, 10));
    assert_eq!(caret(&after(at(10, 10), &[press(KeyCode::Right)], viewport)), (11, 10));
    assert_eq!(caret(&after(at(10, 10), &[press(KeyCode::Up)], viewport)), (10, 9));
    assert_eq!(caret(&after(at(10, 10), &[press(KeyCode::Down)], viewport)), (10, 11));
}

#[test]
fn jumps_ignore_the_starting_place() {
    let viewport = size(80, 24);
    for (col, row) in [(0, 0), (5, 9), (79, 23)] {
        assert_eq!(caret(&after(at(col, row), &[press(KeyCode::Home)], viewport)), (0, row));
        assert_eq!(caret(&after(at(col, row), &[press(KeyCode::End)], viewport)), (79, row));
        assert_eq!(caret(&after(at(col, row), &[press(KeyCode::PageUp)], viewport)), (col, 0));
        assert_eq!(caret(&after(at(col, row), &[press(KeyCode::PageDown)], viewport)), (col, 23));
    }
}

#[test]
fn jumps_twice_equal_jumps_once() {
    let viewport = size(80, 24);
    for code in [KeyCode::Home, KeyCode::End, KeyCode::PageUp, KeyCode::PageDown] {
        let once = after(at(33, 11), &[press(code)], viewport);
        let twice = after(at(33, 11), &[press(code), press(code)], viewport);
        assert_eq!(caret(&once), caret(&twice));
    }
}

#[test]
fn empty_viewport_keeps_caret_at_zero() {
    let viewport = size(0, 0);
    assert_eq!(caret(&after(at(0, 0), &[press(KeyCode::Left)], viewport)), (0, 0));
    assert_eq!(caret(&after(at(0, 0), &[press(KeyCode::Up)], viewport)), (0, 0));
    assert_eq!(caret(&after(at(0, 0), &[press(KeyCode::Right)], viewport)), (0, 0));
    assert_eq!(caret(&after(at(0, 0), &[press(KeyCode::End)], viewport)), (0, 0));
}

#[test]
fn largest_coordinates_wrap_without_overflow() {
    let viewport = size(usize::MAX, usize::MAX);
    let editor = after(at(usize::MAX - 1, usize::MAX - 1), &[press(KeyCode::Right), press(KeyCode::Down)], viewport);
    assert_eq!(caret(&editor), (0, 0));
}

#[test]
fn other_keys_and_events_change_nothing() {
    let viewport = size(80, 24);
    let start = at(4, 4);
    for event in [
        press(KeyCode::Char('x')),
        press(KeyCode::Other),
        key(KeyCode::Right, 0, KeyKind::Release),
        key(KeyCode::Right, 0, KeyKind::Repeat),
        InputEvent::Other,
    ] {
        assert_eq!(after(start, &[event], viewport), start);
    }
}

#[test]
fn alt_q_press_quits() {
    let editor = after(Editor::default(), &[key(KeyCode::Char('q'), ALT, KeyKind::Press)], size(80, 24));
    assert!(editor.should_quit);
    assert_eq!(caret(&editor), (0, 0));
}

#[test]
fn only_alt_q_quits() {
    let viewport = size(80, 24);
    for event in [
        press(KeyCode::Char('q')),
        key(KeyCode::Char('q'), CONTROL, KeyKind::Press),
        key(KeyCode::Char('q'), ALT | SHIFT, KeyKind::Press),
        key(KeyCode::Char('Q'), ALT, KeyKind::Press),
        key(KeyCode::Char('q'), ALT, KeyKind::Release),
        key(KeyCode::Char('w'), ALT, KeyKind::Press),
        press(KeyCode::Home),
        InputEvent::Other,
    ] {
        assert!(!after(Editor::default(), &[event], viewport).should_quit);
    }
}

fn frame_of(editor: &Editor, viewport: TerminalSize) -> Vec<Command> {
    let mut terminal = Terminal::default();
    editor.refresh_screen(&mut terminal, viewport);
    terminal.execute()
}

fn count(frame: &[Command], wanted: &Command) -> usize {
    frame.iter().filter(|c| *c == wanted).count()
}

#[test]
fn running_frame_draws_one_glyph_per_row_and_the_banner() {
    let frame = frame_of(&at(3, 2), size(80, 24));
    assert_eq!(count(&frame, &print("~")), 24);
    assert_eq!(count(&frame, &print("\r\n")), 23);
    assert_eq!(count(&frame, &print("hecto: v0.1.0")), 1);
    assert_eq!(count(&frame, &Command::ClearLine), 24);
    assert_eq!(frame[0], Command::HideCaret);
    assert_eq!(frame[1], Command::MoveCaretTo(Position { col: 0, row: 0 }));
    let banner = frame.iter().position(|c| *c == print("hecto: v0.1.0")).unwrap();
    assert_eq!(frame[banner - 1], Command::MoveCaretTo(Position { col: 34, row: 16 }));
    assert_eq!(frame[banner + 1], Command::MoveCaretTo(Position { col: 0, row: 0 }));
    let n = frame.len();
    assert_eq!(frame[n - 2], Command::MoveCaretTo(Position { col: 3, row: 2 }));
    assert_eq!(frame[n - 1], Command::ShowCaret);
    assert_eq!(n, 2 + 24 * 3 - 1 + 3 + 2);
}

#[test]
fn banner_is_cut_to_a_narrow_viewport() {
    let frame = frame_of(&Editor::default(), size(5, 3));
    assert_eq!(count(&frame, &print("hecto")), 1);
    assert_eq!(count(&frame, &print("~")), 3);
    let banner = frame.iter().position(|c| *c == print("hecto")).unwrap();
    assert_eq!(frame[banner - 1], Command::MoveCaretTo(Position { col: 0, row: 2 }));
}

#[test]
fn quitting_frame_only_says_farewell() {
    let editor = Editor { should_quit: true, ..at(3, 2) };
    let frame = frame_of(&editor, size(80, 24));
    assert_eq!(
        frame,
        vec![
            Command::HideCaret,
            Command::MoveCaretTo(Position { col: 0, row: 0 }),
            Command::ClearScreen,
            print("Exiting.\r\n"),
            Command::ShowCaret,
        ]
    );
}

#[test]
fn cell_address_saturates() {
    assert_eq!(Position { col: 70000, row: 5 }.to_cell(), (65535, 5));
    assert_eq!(Position { col: 65535, row: 65536 }.to_cell(), (65535, 65535));
    assert_eq!(Position { col: 0, row: 0 }.to_cell(), (0, 0));
}

#[test]
fn execute_hands_out_the_queue_in_order_and_empties_it() {
    let mut terminal = Terminal::default();
    terminal.hide_caret();
    terminal.print("ab");
    terminal.move_caret_to(Position { col: 1, row: 2 });
    terminal.clear_line();
    terminal.clear_screen();
    terminal.show_caret();
    assert_eq!(
        terminal.execute(),
        vec![
            Command::HideCaret,
            print("ab"),
            Command::MoveCaretTo(Position { col: 1, row: 2 }),
            Command::ClearLine,
            Command::ClearScreen,
            Command::ShowCaret,
        ]
    );
    assert_eq!(terminal.execute(), Vec::<Command>::new());
}

fn has_terminate(batch: &[Command]) -> bool {
    batch.iter().filter(|c| **c == Command::DisableRawMode).count() == 1
}

#[test]
fn failing_read_still_terminates() {
    let mut editor = Editor::default();
    let mut terminal = Terminal::default();
    assert_eq!(editor.run(&mut terminal, Outcome::Done), Action::Flush);
    assert_eq!(
        terminal.execute(),
        vec![
            Command::EnableRawMode,
            Command::ClearScreen,
            Command::MoveCaretTo(Position { col: 0, row: 0 }),
        ]
    );
    assert_eq!(editor.run(&mut terminal, Outcome::Done), Action::Read);
    assert_eq!(editor.run(&mut terminal, Outcome::Failed), Action::Flush);
    assert_eq!(terminal.execute(), vec![Command::DisableRawMode, Command::ClearScreen]);
    assert_eq!(editor.phase, Phase::Stopping);
    assert_eq!(editor.run(&mut terminal, Outcome::Done), Action::Abort);
    assert_eq!(editor.phase, Phase::Closed);
    assert_eq!(editor.run(&mut terminal, Outcome::Done), Action::Abort);
    assert!(terminal.execute().is_empty());
}

#[test]
fn failing_draw_still_terminates() {
    let mut editor = Editor::default();
    let mut terminal = Terminal::default();
    editor.run(&mut terminal, Outcome::Done);
    editor.run(&mut terminal, Outcome::Done);
    terminal.execute();
    assert_eq!(
        editor.run(&mut terminal, Outcome::Input(press(KeyCode::Down), size(10, 4))),
        Action::Flush
    );
    assert_eq!(caret(&editor), (0, 1));
    assert_eq!(count(&terminal.execute(), &print("~")), 4);
    assert_eq!(editor.run(&mut terminal, Outcome::Failed), Action::Flush);
    assert!(has_terminate(&terminal.execute()));
    assert_eq!(editor.run(&mut terminal, Outcome::Failed), Action::Abort);
    assert!(editor.failed);
}

#[test]
fn quit_session_terminates_once_and_exits() {
    let mut editor = Editor::default();
    let mut terminal = Terminal::default();
    let mut releases = 0;
    let quit = key(KeyCode::Char('q'), ALT, KeyKind::Press);
    let outcomes = [
        Outcome::Done,
        Outcome::Done,
        Outcome::Input(press(KeyCode::Right), size(80, 24)),
        Outcome::Done,
        Outcome::Input(quit, size(80, 24)),
        Outcome::Done,
        Outcome::Done,
    ];
    let mut actions = Vec::new();
    for outcome in outcomes {
        actions.push(editor.run(&mut terminal, outcome));
        if has_terminate(&terminal.execute()) {
            releases += 1;
        }
    }
    assert_eq!(
        actions,
        vec![
            Action::Flush,
            Action::Read,
            Action::Flush,
            Action::Read,
            Action::Flush,
            Action::Flush,
            Action::Exit,
        ]
    );
    assert_eq!(releases, 1);
    assert_eq!(caret(&editor), (1, 0));
    assert!(!editor.failed);
}

#[test]
fn failed_initialize_aborts_without_terminate() {
    let mut editor = Editor::default();
    let mut terminal = Terminal::default();
    editor.run(&mut terminal, Outcome::Done);
    terminal.execute();
    assert_eq!(editor.run(&mut terminal, Outcome::Failed), Action::Abort);
    assert!(terminal.execute().is_empty());
    assert_eq!(editor.phase, Phase::Closed);
}

#[test]
fn read_without_event_counts_as_failure() {
    let mut editor = Editor::default();
    let mut terminal = Terminal::default();
    editor.run(&mut terminal, Outcome::Done);
    editor.run(&mut terminal, Outcome::Done);
    terminal.execute();
    assert_eq!(editor.run(&mut terminal, Outcome::Done), Action::Flush);
    assert!(has_terminate(&terminal.execute()));
    assert!(editor.failed);
}
