//! The selection controller: one index into the current filtered view.

use vstd::prelude::*;

verus! {

/// The selection brought back into a view of `view_len` entries. With an
/// empty view there is nothing to select and the index stays as it is.
pub open spec fn clamped(selected: usize, view_len: nat) -> usize {
    if view_len == 0 || selected < view_len {
        selected
    } else {
        (view_len - 1) as usize
    }
}

/// One entry up, stopping at the first.
pub open spec fn moved_up(selected: usize) -> usize {
    if selected == 0 {
        0
    } else {
        (selected - 1) as usize
    }
}

/// One entry down, stopping at the last. With an empty view the index stays
/// as it is.
pub open spec fn moved_down(selected: usize, view_len: nat) -> usize {
    if view_len == 0 {
        selected
    } else if selected + 1 < view_len {
        (selected + 1) as usize
    } else {
        (view_len - 1) as usize
    }
}

/// The selection is a position of the view, or the view is empty.
pub open spec fn in_view(selected: usize, view_len: nat) -> bool {
    view_len > 0 ==> selected < view_len
}

/// Brings a selection back into a view of `view_len` entries: the least of
/// the selection and the last position.
pub fn clamp(selected: usize, view_len: usize) -> (next: usize)
    ensures
        next == clamped(selected, view_len as nat),
        in_view(next, view_len as nat),
        view_len > 0 ==> next == vstd::math::min(selected as int, view_len - 1),
{
    if view_len == 0 || selected < view_len {
        selected
    } else {
        view_len - 1
    }
}

/// Moves the selection one entry up.
pub fn move_up(selected: usize) -> (next: usize)
    ensures
        next == moved_up(selected),
        next == vstd::math::max(selected - 1, 0),
{
    if selected == 0 {
        0
    } else {
        selected - 1
    }
}

/// Moves the selection one entry down in a view of `view_len` entries.
pub fn move_down(selected: usize, view_len: usize) -> (next: usize)
    ensures
        next == moved_down(selected, view_len as nat),
        in_view(next, view_len as nat),
        view_len > 0 ==> next == vstd::math::min(selected + 1, view_len - 1),
{
    if view_len == 0 {
        selected
    } else if selected < view_len - 1 {
        selected + 1
    } else {
        view_len - 1
    }
}

/// Moving within a view never leaves it.
pub proof fn lemma_moves_stay_in_view(selected: usize, view_len: nat)
    requires
        in_view(selected, view_len),
    ensures
        in_view(moved_up(selected), view_len),
        in_view(moved_down(selected, view_len), view_len),
        in_view(clamped(selected, view_len), view_len),
        clamped(selected, view_len) == selected,
{
}

} // verus!
