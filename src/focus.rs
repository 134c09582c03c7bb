use vstd::prelude::*;

verus! {

/// A screen region that can receive key events, in its fixed cyclic order.
#[derive(Debug, Clone, Copy, PartialEq, Eq, Structural)]
pub enum Selected {
    Sidebar,
    Tabs,
    MethodBar,
    Urlbar,
    RequestTab,
    Requestbar,
    Responsebar,
}

/// Number of regions in the focus cycle.
pub const REGION_COUNT: u64 = 7;

/// Position of a region in the focus cycle.
pub open spec fn region_index(s: Selected) -> int {
    match s {
        Selected::Sidebar => 0,
        Selected::Tabs => 1,
        Selected::MethodBar => 2,
        Selected::Urlbar => 3,
        Selected::RequestTab => 4,
        Selected::Requestbar => 5,
        Selected::Responsebar => 6,
    }
}

/// The region that follows `s` in the cycle, wrapping from the last to the first.
pub open spec fn next_region(s: Selected) -> Selected {
    match s {
        Selected::Sidebar => Selected::Tabs,
        Selected::Tabs => Selected::MethodBar,
        Selected::MethodBar => Selected::Urlbar,
        Selected::Urlbar => Selected::RequestTab,
        Selected::RequestTab => Selected::Requestbar,
        Selected::Requestbar => Selected::Responsebar,
        Selected::Responsebar => Selected::Sidebar,
    }
}

/// The region that precedes `s` in the cycle, wrapping from the first to the last.
pub open spec fn prev_region(s: Selected) -> Selected {
    match s {
        Selected::Sidebar => Selected::Responsebar,
        Selected::Tabs => Selected::Sidebar,
        Selected::MethodBar => Selected::Tabs,
        Selected::Urlbar => Selected::MethodBar,
        Selected::RequestTab => Selected::Urlbar,
        Selected::Requestbar => Selected::RequestTab,
        Selected::Responsebar => Selected::Requestbar,
    }
}

impl Selected {
    /// The next region in the focus cycle.
    pub fn advance(self) -> (r: Selected)
        ensures
            r == next_region(self),
            region_index(r) == (region_index(self) + 1) % (REGION_COUNT as int),
    {
        match self {
            Selected::Sidebar => Selected::Tabs,
            Selected::Tabs => Selected::MethodBar,
            Selected::MethodBar => Selected::Urlbar,
            Selected::Urlbar => Selected::RequestTab,
            Selected::RequestTab => Selected::Requestbar,
            Selected::Requestbar => Selected::Responsebar,
            Selected::Responsebar => Selected::Sidebar,
        }
    }

    /// The previous region in the focus cycle.
    pub fn retreat(self) -> (r: Selected)
        ensures
            r == prev_region(self),
            region_index(r) == (region_index(self) + REGION_COUNT - 1) % (REGION_COUNT as int),
    {
        match self {
            Selected::Sidebar => Selected::Responsebar,
            Selected::Tabs => Selected::Sidebar,
            Selected::MethodBar => Selected::Tabs,
            Selected::Urlbar => Selected::MethodBar,
            Selected::RequestTab => Selected::Urlbar,
            Selected::Requestbar => Selected::RequestTab,
            Selected::Responsebar => Selected::Requestbar,
        }
    }
}

/// Advancing and then retreating returns to the region one started from, and so
/// does the opposite order.
pub proof fn lemma_advance_retreat_inverse(s: Selected)
    ensures
        prev_region(next_region(s)) == s,
        next_region(prev_region(s)) == s,
{
}

} // verus!
