use vstd::prelude::*;

verus! {

/// A selection cursor is a zero-based index into the currently visible list.
/// It is clamped to `[0, len - 1]`; when the list is empty or absent it sits
/// at 0 and cannot move.
pub open spec fn cursor_in_bounds(sel: int, len: int) -> bool {
    if len > 0 {
        0 <= sel < len
    } else {
        sel == 0
    }
}

/// Where a downward move lands: one step down, saturating at `len - 1`.
pub open spec fn cursor_down_spec(sel: int, len: int) -> int {
    if len > 0 && sel + 1 < len {
        sel + 1
    } else if len > 0 {
        len - 1
    } else {
        sel
    }
}

/// Where an upward move lands: one step up, saturating at 0.
pub open spec fn cursor_up_spec(sel: int) -> int {
    if sel > 0 {
        sel - 1
    } else {
        0
    }
}

/// The cursor after a whole sequence of moves (`true` = down, `false` = up)
/// against a list of fixed length.
pub open spec fn cursor_after_moves(sel: int, len: int, moves: Seq<bool>) -> int
    decreases moves.len(),
{
    if moves.len() == 0 {
        sel
    } else {
        let next = if moves[0] {
            cursor_down_spec(sel, len)
        } else {
            cursor_up_spec(sel)
        };
        cursor_after_moves(next, len, moves.drop_first())
    }
}

/// Saturation law: however many up and down moves are applied, a cursor that
/// starts inside `[0, len - 1]` never leaves it; with nothing to select it
/// stays at 0.
pub proof fn lemma_cursor_saturation(sel: int, len: int, moves: Seq<bool>)
    requires
        cursor_in_bounds(sel, len),
    ensures
        cursor_in_bounds(cursor_after_moves(sel, len, moves), len),
    decreases moves.len(),
{
    if moves.len() > 0 {
        let next = if moves[0] {
            cursor_down_spec(sel, len)
        } else {
            cursor_up_spec(sel)
        };
        lemma_cursor_saturation(next, len, moves.drop_first());
    }
}

/// One step down of an in-bounds cursor, saturating at the end of the list.
pub fn cursor_down(sel: usize, len: usize) -> (r: usize)
    requires
        cursor_in_bounds(sel as int, len as int),
    ensures
        r == cursor_down_spec(sel as int, len as int),
        cursor_in_bounds(r as int, len as int),
{
    if len > 0 && sel + 1 < len {
        sel + 1
    } else if len > 0 {
        len - 1
    } else {
        sel
    }
}

/// One step up of an in-bounds cursor, saturating at 0.
pub fn cursor_up(sel: usize) -> (r: usize)
    ensures
        r == cursor_up_spec(sel as int),
{
    if sel > 0 {
        sel - 1
    } else {
        0
    }
}

} // verus!
