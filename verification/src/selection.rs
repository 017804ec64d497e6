//! The selection model: which snapshot entry, if any, is highlighted, and the
//! five navigation operations over it.
//!
//! The operations saturate at the ends of the list: moving past the first or
//! last entry holds at the boundary rather than wrapping.

use vstd::prelude::*;

verus! {

/// The five navigation operations a key press can ask for.
#[derive(Clone, Copy, Debug, PartialEq, Eq)]
pub enum NavCommand {
    Clear,
    Next,
    Previous,
    First,
    Last,
}

/// A selection is valid for a snapshot of `n` entries when it is either
/// nothing or an index into the snapshot.
pub open spec fn sel_wf(s: Option<usize>, n: usize) -> bool {
    s matches Some(i) ==> i < n
}

/// What clearing does: always deselects.
pub open spec fn nav_clear(s: Option<usize>) -> Option<usize> {
    None
}

/// What moving down does on a snapshot of `n` entries: from nothing it selects
/// the first entry; otherwise it advances by one, saturating at the last.
/// On an empty snapshot it does nothing.
pub open spec fn nav_next(s: Option<usize>, n: usize) -> Option<usize> {
    if n == 0 {
        s
    } else {
        match s {
            None => Some(0usize),
            Some(i) => if i + 1 < n {
                Some((i + 1) as usize)
            } else {
                Some((n - 1) as usize)
            },
        }
    }
}

/// What moving up does: from nothing it selects the first entry; otherwise it
/// moves back by one, saturating at the first. On an empty snapshot it does
/// nothing.
pub open spec fn nav_previous(s: Option<usize>, n: usize) -> Option<usize> {
    if n == 0 {
        s
    } else {
        match s {
            None => Some(0usize),
            Some(i) => if i == 0 {
                Some(0usize)
            } else {
                Some((i - 1) as usize)
            },
        }
    }
}

/// What jumping to the top does: selects the first entry unless the snapshot
/// is empty.
pub open spec fn nav_first(s: Option<usize>, n: usize) -> Option<usize> {
    if n == 0 {
        s
    } else {
        Some(0usize)
    }
}

/// What jumping to the bottom does: selects the last entry unless the
/// snapshot is empty.
pub open spec fn nav_last(s: Option<usize>, n: usize) -> Option<usize> {
    if n == 0 {
        s
    } else {
        Some((n - 1) as usize)
    }
}

/// One navigation step.
pub open spec fn nav_apply(c: NavCommand, s: Option<usize>, n: usize) -> Option<usize> {
    match c {
        NavCommand::Clear => nav_clear(s),
        NavCommand::Next => nav_next(s, n),
        NavCommand::Previous => nav_previous(s, n),
        NavCommand::First => nav_first(s, n),
        NavCommand::Last => nav_last(s, n),
    }
}

/// A whole sequence of navigation steps, applied front to back.
pub open spec fn nav_apply_all(cs: Seq<NavCommand>, s: Option<usize>, n: usize) -> Option<usize>
    decreases cs.len(),
{
    if cs.len() == 0 {
        s
    } else {
        nav_apply_all(cs.drop_first(), nav_apply(cs[0], s, n), n)
    }
}

/// Tracks which snapshot entry, if any, is currently highlighted.
#[derive(Clone, Copy, Debug, PartialEq, Eq)]
pub struct SelectionState {
    pub selected: Option<usize>,
}

impl SelectionState {
    /// A fresh selection: nothing highlighted.
    pub fn new() -> (s: SelectionState)
        ensures
            s.selected is None,
    {
        SelectionState { selected: None }
    }

    /// The selection is valid for a snapshot of `n` entries.
    pub open spec fn wf(self, n: usize) -> bool {
        sel_wf(self.selected, n)
    }

    /// Deselects.
    pub fn clear(&mut self)
        ensures
            final(self).selected == nav_clear(old(self).selected),
    {
        self.selected = None;
    }

    /// Moves the selection down one entry, saturating at the last of `n`.
    pub fn next(&mut self, n: usize)
        ensures
            final(self).selected == nav_next(old(self).selected, n),
    {
        if n > 0 {
            self.selected = match self.selected {
                None => Some(0),
                Some(i) => if i < n - 1 {
                    Some(i + 1)
                } else {
                    Some(n - 1)
                },
            };
        }
    }

    /// Moves the selection up one entry, saturating at the first.
    pub fn previous(&mut self, n: usize)
        ensures
            final(self).selected == nav_previous(old(self).selected, n),
    {
        if n > 0 {
            self.selected = match self.selected {
                None => Some(0),
                Some(i) => if i == 0 {
                    Some(0)
                } else {
                    Some(i - 1)
                },
            };
        }
    }

    /// Jumps to the first of `n` entries.
    pub fn first(&mut self, n: usize)
        ensures
            final(self).selected == nav_first(old(self).selected, n),
    {
        if n > 0 {
            self.selected = Some(0);
        }
    }

    /// Jumps to the last of `n` entries.
    pub fn last(&mut self, n: usize)
        ensures
            final(self).selected == nav_last(old(self).selected, n),
    {
        if n > 0 {
            self.selected = Some(n - 1);
        }
    }
}

} // verus!
