//! Cyclic selection over a list: the shared behavior of every list
//! screen's up and down keys.

use vstd::prelude::*;

verus! {

/// The selection after a downward step: wraps from the last row to the
/// first, lands on the first row when nothing was selected, and stays
/// put over an empty list.
pub open spec fn spec_select_next(len: int, sel: Option<int>) -> Option<int> {
    if len == 0 {
        sel
    } else {
        match sel {
            Some(i) => if i >= len - 1 {
                Some(0int)
            } else {
                Some(i + 1)
            },
            None => Some(0int),
        }
    }
}

/// The selection after an upward step: wraps from the first row to the
/// last, lands on the first row when nothing was selected, and stays put
/// over an empty list.
pub open spec fn spec_select_previous(len: int, sel: Option<int>) -> Option<int> {
    if len == 0 {
        sel
    } else {
        match sel {
            Some(i) => if i == 0 {
                Some(len - 1)
            } else {
                Some(i - 1)
            },
            None => Some(0int),
        }
    }
}

/// The view of an optional index.
pub open spec fn spec_sel(sel: Option<usize>) -> Option<int> {
    match sel {
        Some(i) => Some(i as int),
        None => None,
    }
}

/// Executable twin of [`spec_select_next`].
pub fn select_next(len: usize, sel: Option<usize>) -> (r: Option<usize>)
    ensures
        spec_sel(r) == spec_select_next(len as int, spec_sel(sel)),
{
    if len == 0 {
        return sel;
    }
    match sel {
        Some(i) => if i >= len - 1 {
            Some(0)
        } else {
            Some(i + 1)
        },
        None => Some(0),
    }
}

/// Executable twin of [`spec_select_previous`].
pub fn select_previous(len: usize, sel: Option<usize>) -> (r: Option<usize>)
    ensures
        spec_sel(r) == spec_select_previous(len as int, spec_sel(sel)),
{
    if len == 0 {
        return sel;
    }
    match sel {
        Some(i) => if i == 0 {
            Some(len - 1)
        } else {
            Some(i - 1)
        },
        None => Some(0),
    }
}

} // verus!
