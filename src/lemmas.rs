//! Laws of navigation, evaluation, rendering and the session, stated over the
//! same models that the editor's contracts use.

use vstd::prelude::*;
use crate::editor::{
    BANNER, Editor, FAREWELL, LINE_BREAK, Outcome, Phase, ROW_GLYPH, banner_text, evaluated,
    frame, last_index, moved, queued, releases, row_commands, rows_commands, step,
};
use crate::geometry::{Position, TerminalSize};
use crate::input::{InputEvent, KeyCode, is_quit};
use crate::terminal::{CommandModel, terminate_commands};

verus! {

/// How many commands of `s` satisfy `p`.
pub open spec fn count_where(s: Seq<CommandModel>, p: spec_fn(CommandModel) -> bool) -> nat
    decreases s.len(),
{
    if s.len() == 0 {
        0
    } else {
        (if p(s[0]) { 1nat } else { 0nat }) + count_where(s.drop_first(), p)
    }
}

/// A command that draws a row's glyph.
pub open spec fn is_row_glyph(c: CommandModel) -> bool {
    c == CommandModel::Print(ROW_GLYPH@)
}

/// A command that prints the banner, or a part of it cut to the viewport.
pub open spec fn is_banner_print(c: CommandModel) -> bool {
    c is Print && c->Print_0.is_prefix_of(BANNER@)
}

/// The session after each outcome of `os` in turn.
pub open spec fn run_trace(e: Editor, os: Seq<Outcome>) -> Editor
    decreases os.len(),
{
    if os.len() == 0 {
        e
    } else {
        run_trace(step(e, os[0]).0, os.drop_first())
    }
}

/// How many times the terminate batch is handed out over the outcomes `os`.
pub open spec fn release_count(e: Editor, os: Seq<Outcome>) -> nat
    decreases os.len(),
{
    if os.len() == 0 {
        0
    } else {
        (if releases(e, os[0]) { 1nat } else { 0nat }) + release_count(
            step(e, os[0]).0,
            os.drop_first(),
        )
    }
}

/// Raw mode is held: the initialize batch went through and no terminate is out.
pub open spec fn holds_raw_mode(e: Editor) -> bool {
    e.phase == Phase::Reading || e.phase == Phase::Drawing
}

/// Counting distributes over concatenation.
pub proof fn lemma_count_concat(
    a: Seq<CommandModel>,
    b: Seq<CommandModel>,
    p: spec_fn(CommandModel) -> bool,
)
    ensures
        count_where(a + b, p) == count_where(a, p) + count_where(b, p),
    decreases a.len(),
{
    if a.len() == 0 {
        assert(a + b =~= b);
    } else {
        assert((a + b).drop_first() =~= a.drop_first() + b);
        lemma_count_concat(a.drop_first(), b, p);
    }
}

/// Wraparound is toroidal: stepping back from the first cell of an axis lands on
/// its last cell, and stepping forward from the last lands on the first, with the
/// other coordinate kept.
pub proof fn lemma_wraparound(size: TerminalSize, x: usize, y: usize)
    ensures
        size.width > 0 ==> moved(Position { col: 0, row: y }, KeyCode::Left, size) == (Position {
            col: (size.width - 1) as usize,
            row: y,
        }),
        size.width > 0 ==> moved(
            Position { col: (size.width - 1) as usize, row: y },
            KeyCode::Right,
            size,
        ) == (Position { col: 0, row: y }),
        size.height > 0 ==> moved(Position { col: x, row: 0 }, KeyCode::Up, size) == (Position {
            col: x,
            row: (size.height - 1) as usize,
        }),
        size.height > 0 ==> moved(
            Position { col: x, row: (size.height - 1) as usize },
            KeyCode::Down,
            size,
        ) == (Position { col: x, row: 0 }),
{
}

/// Home, End, PageUp and PageDown jump to a place that does not depend on where the
/// caret was, and doing one twice is doing it once.
pub proof fn lemma_jumps(a: Position, b: Position, size: TerminalSize)
    ensures
        moved(a, KeyCode::Home, size).col == 0,
        moved(a, KeyCode::End, size).col == last_index(size.width),
        moved(a, KeyCode::PageUp, size).row == 0,
        moved(a, KeyCode::PageDown, size).row == last_index(size.height),
        moved(a, KeyCode::Home, size).col == moved(b, KeyCode::Home, size).col,
        moved(a, KeyCode::End, size).col == moved(b, KeyCode::End, size).col,
        moved(a, KeyCode::PageUp, size).row == moved(b, KeyCode::PageUp, size).row,
        moved(a, KeyCode::PageDown, size).row == moved(b, KeyCode::PageDown, size).row,
        moved(moved(a, KeyCode::Home, size), KeyCode::Home, size) == moved(a, KeyCode::Home, size),
        moved(moved(a, KeyCode::End, size), KeyCode::End, size) == moved(a, KeyCode::End, size),
        moved(moved(a, KeyCode::PageUp, size), KeyCode::PageUp, size) == moved(
            a,
            KeyCode::PageUp,
            size,
        ),
        moved(moved(a, KeyCode::PageDown, size), KeyCode::PageDown, size) == moved(
            a,
            KeyCode::PageDown,
            size,
        ),
{
}

/// Only the quit combination sets the quit flag: every other event leaves it as it was.
pub proof fn lemma_quit_only_on_combination(e: Editor, ev: InputEvent, size: TerminalSize)
    ensures
        evaluated(e, ev, size).should_quit == (e.should_quit || is_quit(ev)),
        !is_quit(ev) ==> evaluated(e, ev, size).should_quit == e.should_quit,
{
}

proof fn lemma_not_banner_prefix(s: Seq<char>)
    requires
        s.len() > 0,
        s[0] != 'h',
    ensures
        !s.is_prefix_of(BANNER@),
{
    reveal_strlit("hecto: v0.1.0");
    if s.is_prefix_of(BANNER@) {
        assert(s[0] == BANNER@.subrange(0, s.len() as int)[0]);
    }
}

proof fn lemma_rows_count(k: int, height: int)
    requires
        0 <= k,
    ensures
        count_where(rows_commands(k, height), |c: CommandModel| is_row_glyph(c)) == k,
        count_where(rows_commands(k, height), |c: CommandModel| is_banner_print(c)) == 0,
    decreases k,
{
    reveal_strlit("~");
    reveal_strlit("\r\n");
    reveal_strlit("hecto: v0.1.0");
    let glyph = |c: CommandModel| is_row_glyph(c);
    let banner = |c: CommandModel| is_banner_print(c);
    if k > 0 {
        lemma_rows_count(k - 1, height);
        lemma_count_concat(rows_commands(k - 1, height), row_commands(k - 1, height), glyph);
        lemma_count_concat(rows_commands(k - 1, height), row_commands(k - 1, height), banner);
        lemma_not_banner_prefix(ROW_GLYPH@);
        lemma_not_banner_prefix(LINE_BREAK@);
        assert("\r\n"@ != "~"@);
        reveal_with_fuel(count_where, 4);
    } else {
        assert(rows_commands(k, height) =~= Seq::<CommandModel>::empty());
    }
}

/// A frame drawn while quitting holds no row glyph and no banner; one drawn while
/// running holds exactly one row glyph per viewport row and at most one banner.
pub proof fn lemma_frame_shape(e: Editor, size: TerminalSize)
    ensures
        e.should_quit ==> count_where(frame(e, size), |c: CommandModel| is_row_glyph(c)) == 0,
        e.should_quit ==> count_where(frame(e, size), |c: CommandModel| is_banner_print(c)) == 0,
        !e.should_quit ==> count_where(frame(e, size), |c: CommandModel| is_row_glyph(c))
            == size.height,
        !e.should_quit ==> count_where(frame(e, size), |c: CommandModel| is_banner_print(c))
            <= 1,
{
    reveal_strlit("~");
    reveal_strlit("Exiting.\r\n");
    reveal_strlit("hecto: v0.1.0");
    let glyph = |c: CommandModel| is_row_glyph(c);
    let banner = |c: CommandModel| is_banner_print(c);
    reveal_with_fuel(count_where, 6);
    if e.should_quit {
        lemma_not_banner_prefix(FAREWELL@);
        assert(FAREWELL@ != ROW_GLYPH@);
    } else {
        let h = size.height as int;
        let head = seq![CommandModel::HideCaret, CommandModel::MoveCaretTo(
            crate::geometry::origin(),
        )];
        let rows = rows_commands(h, h);
        let text = banner_text(size.width);
        let banner_part = crate::editor::banner_commands(size);
        let tail = seq![CommandModel::MoveCaretTo(e.caret), CommandModel::ShowCaret];
        lemma_rows_count(h, h);
        assert(text.is_prefix_of(BANNER@));
        lemma_not_banner_prefix(ROW_GLYPH@);
        assert(text != ROW_GLYPH@);
        lemma_count_concat(head, rows, glyph);
        lemma_count_concat(head, rows, banner);
        lemma_count_concat(head + rows, banner_part, glyph);
        lemma_count_concat(head + rows, banner_part, banner);
        lemma_count_concat(head + rows + banner_part, tail, glyph);
        lemma_count_concat(head + rows + banner_part, tail, banner);
    }
}

proof fn lemma_release_bookkeeping(e: Editor, os: Seq<Outcome>)
    ensures
        e.phase == Phase::Stopping || e.phase == Phase::Closed ==> release_count(e, os) == 0 && (
        run_trace(e, os).phase == Phase::Stopping || run_trace(e, os).phase == Phase::Closed),
        e.phase == Phase::Closed ==> run_trace(e, os).phase == Phase::Closed,
        holds_raw_mode(e) ==> release_count(e, os) <= 1 && (run_trace(e, os).phase
            == Phase::Closed ==> release_count(e, os) == 1),
    decreases os.len(),
{
    if os.len() > 0 {
        lemma_release_bookkeeping(step(e, os[0]).0, os.drop_first());
    }
}

/// Raw-mode pairing: once the initialize batch has gone through, the terminate
/// batch is handed out at most once, whatever the later outcomes, failures
/// included, and exactly once by the time the session has closed.
pub proof fn lemma_release_paired(e: Editor, os: Seq<Outcome>)
    requires
        e.phase == Phase::Starting,
        os.len() > 0,
        os[0] == Outcome::Done,
    ensures
        release_count(e, os) <= 1,
        run_trace(e, os).phase == Phase::Closed ==> release_count(e, os) == 1,
{
    lemma_release_bookkeeping(step(e, os[0]).0, os.drop_first());
}

/// A session whose initialize batch failed never hands out the terminate batch.
pub proof fn lemma_no_release_without_start(e: Editor, os: Seq<Outcome>)
    requires
        e.phase == Phase::Starting,
        os.len() > 0,
        os[0] != Outcome::Done,
    ensures
        release_count(e, os) == 0,
        run_trace(e, os).phase == Phase::Closed,
{
    lemma_release_bookkeeping(step(e, os[0]).0, os.drop_first());
}

/// The terminate batch is queued on exactly the steps that release raw mode.
pub proof fn lemma_terminate_queued_on_release(e: Editor, o: Outcome)
    ensures
        (queued(e, o) == terminate_commands()) == releases(e, o),
{
    if e.phase == Phase::Fresh {
        assert(queued(e, o)[0] != terminate_commands()[0]);
    } else if e.phase == Phase::Reading && o is Input {
        let next = evaluated(e, o->Input_0, o->Input_1);
        let f = frame(next, o->Input_1);
        if next.should_quit {
            assert(f[0] != terminate_commands()[0]);
        } else {
            assert(f[0] == CommandModel::HideCaret);
        }
    } else if !releases(e, o) {
        assert(queued(e, o).len() != terminate_commands().len());
    }
}

} // verus!
