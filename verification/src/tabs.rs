//! A selected-index tracker for a fixed list of entries, as the
//! experience timeline uses: exactly one entry is selected at a time,
//! and the selection can never leave the list.

use vstd::prelude::*;

verus! {

/// A selection among `count` entries. The first entry is selected to
/// begin with, and the selection always stays in range.
#[derive(Clone, Copy, PartialEq, Eq, Debug, Structural)]
pub struct TabSelector {
    pub count: usize,
    pub selected: usize,
}

impl TabSelector {
    /// Well-formedness: a nonempty list with the selection in range.
    pub open spec fn wf(self) -> bool {
        self.count >= 1 && self.selected < self.count
    }

    /// A selector over `count` entries, starting on the first.
    pub fn new(count: usize) -> (t: TabSelector)
        requires
            count >= 1,
        ensures
            t.wf(),
            t.count == count,
            t.selected == 0,
    {
        TabSelector { count, selected: 0 }
    }

    /// Selects entry `index`; a request outside the list is ignored,
    /// so the selection stays in range whatever is clicked.
    pub fn select(&mut self, index: usize)
        requires
            old(self).wf(),
        ensures
            final(self).wf(),
            final(self).count == old(self).count,
            index < old(self).count ==> final(self).selected == index,
            index >= old(self).count ==> final(self).selected == old(self).selected,
    {
        if index < self.count {
            self.selected = index;
        }
    }

    /// Whether entry `index` is the selected one.
    pub fn is_selected(&self, index: usize) -> (b: bool)
        ensures
            b == (index == self.selected),
    {
        index == self.selected
    }
}

/// Exactly one entry is selected: any two selected indices are equal,
/// and the selected index is always a valid position.
pub proof fn lemma_selection_unique(t: TabSelector, a: int, b: int)
    requires
        t.wf(),
        a == t.selected,
        b == t.selected,
    ensures
        a == b,
        0 <= t.selected < t.count,
{
}

} // verus!
