use vstd::prelude::*;

use crate::app::{grown_to, BufferState};
use crate::message::{applied, Message};

verus! {

/// The state after `n` moves to the right.
pub open spec fn moved_right_times(s: BufferState, n: nat) -> BufferState
    decreases n,
{
    if n == 0 {
        s
    } else {
        moved_right_times(s, (n - 1) as nat).moved_right()
    }
}

/// `n` moves to the right from column `c` reach column `c + n`, or stop at the
/// largest column; nothing else changes.
pub proof fn lemma_move_right_times(s: BufferState, n: nat)
    requires
        s.cursor_x <= usize::MAX,
    ensures
        moved_right_times(s, n) == s.with_cursor(
            if s.cursor_x + n <= usize::MAX { s.cursor_x + n } else { usize::MAX as nat },
            s.cursor_y,
        ),
    decreases n,
{
    if n > 0 {
        lemma_move_right_times(s, (n - 1) as nat);
    }
}

/// A move to the left in the first column changes nothing, however often it
/// is made.
pub proof fn lemma_move_left_at_start(s: BufferState)
    requires
        s.cursor_x == 0,
    ensures
        s.moved_left() == s,
        s.moved_left().moved_left() == s.moved_left(),
{
}

/// Typing a character at the end of a row and then a backspace give back the
/// row and the cursor; where the row existed, the whole state comes back.
pub proof fn lemma_type_then_backspace(s: BufferState, k: char)
    requires
        s.cursor_y < usize::MAX,
        s.cursor_x < usize::MAX,
        s.cursor_x == grown_to(s.lines, s.cursor_y)[s.cursor_y as int].len(),
    ensures
        s.with_char(k).backspaced().lines[s.cursor_y as int] == grown_to(s.lines, s.cursor_y)[s.cursor_y as int],
        s.with_char(k).backspaced().cursor_x == s.cursor_x,
        s.with_char(k).backspaced().cursor_y == s.cursor_y,
        s.cursor_y < s.lines.len() ==> s.with_char(k).backspaced() == s,
{
    let y = s.cursor_y as int;
    let lines = grown_to(s.lines, s.cursor_y);
    let row = lines[y];
    assert(row.insert(row.len() as int, k).remove(row.len() as int) =~= row);
    let typed = lines.update(y, row.insert(row.len() as int, k));
    assert(typed.update(y, typed[y].remove(row.len() as int)) =~= lines.update(y, row));
    if s.cursor_y < s.lines.len() {
        assert(lines.update(y, row) =~= s.lines);
    }
}

/// After typing, the cursor's row reaches past the old column and the cursor
/// stands within that row.
pub proof fn lemma_typing_keeps_cursor_in_row(s: BufferState, k: char)
    requires
        s.cursor_x < usize::MAX,
        s.cursor_y < usize::MAX,
    ensures
        s.with_char(k).lines[s.cursor_y as int].len() >= s.cursor_x + 1,
        s.with_char(k).cursor_x <= s.with_char(k).lines[s.cursor_y as int].len(),
{
}

/// Enter, then a backspace at the start of the new row, give back the state:
/// joining undoes splitting.
pub proof fn lemma_split_then_backspace(s: BufferState)
    requires
        s.lines.len() <= usize::MAX,
        s.cursor_y < s.lines.len(),
        s.cursor_x <= s.lines[s.cursor_y as int].len(),
        s.cursor_x < s.lines[s.cursor_y as int].len() || s.cursor_y + 1 == s.lines.len(),
    ensures
        s.line_split().backspaced() == s,
{
    let y = s.cursor_y as int;
    let row = s.lines[y];
    if s.cursor_x >= row.len() {
        let lines = s.lines.push(Seq::<char>::empty());
        assert(lines.update(y, row + lines[y + 1]).remove(y + 1) =~= s.lines);
    } else {
        let x = s.cursor_x as int;
        let lines = s.lines.update(y, row.take(x)).insert(y + 1, row.skip(x));
        assert(row.take(x) + row.skip(x) =~= row);
        assert(lines.update(y, row.take(x) + row.skip(x)).remove(y + 1) =~= s.lines);
    }
}

/// A backspace at the very start of the text changes nothing.
pub proof fn lemma_backspace_at_origin(s: BufferState)
    requires
        s.cursor_x == 0,
        s.cursor_y == 0,
    ensures
        s.backspaced() == s,
{
}

/// Every request leaves at least one row, where it can be carried out.
pub proof fn lemma_requests_keep_a_row(s: BufferState, m: Message)
    requires
        s.well_formed(),
        m is NewLine ==> s.cursor_y < s.lines.len(),
    ensures
        applied(s, m).well_formed(),
{
}

} // verus!
