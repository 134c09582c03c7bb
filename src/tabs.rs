use vstd::prelude::*;

verus! {

/// An open tab: a copy of a saved item's display name.
#[derive(Debug)]
pub struct Tab {
    pub name: String,
}

/// The display names of a sequence of tabs.
pub open spec fn tab_names(tabs: Seq<Tab>) -> Seq<Seq<char>> {
    tabs.map_values(|t: Tab| t.name@)
}

/// No two tabs share a display name.
pub open spec fn names_distinct(names: Seq<Seq<char>>) -> bool {
    forall|i: int, j: int| 0 <= i < j < names.len() ==> names[i] != names[j]
}

/// The tab names and selection after opening `x`: an existing tab of that name
/// is selected, or else a new one is appended and selected.
pub open spec fn added(names: Seq<Seq<char>>, selected: int, x: Seq<char>) -> (Seq<Seq<char>>, int) {
    if names.contains(x) {
        (names, choose|i: int| 0 <= i < names.len() && names[i] == x)
    } else {
        (names.push(x), names.len() as int)
    }
}

/// An ordered strip of open tabs with one selected.
#[derive(Debug)]
pub struct TabBar {
    pub selected: usize,
    pub tabs: Vec<Tab>,
}

impl TabBar {
    /// The selection is a valid index (0 when there are no tabs), and names are distinct.
    pub open spec fn wf(&self) -> bool {
        &&& (self.tabs@.len() > 0 ==> self.selected < self.tabs@.len())
        &&& (self.tabs@.len() == 0 ==> self.selected == 0)
        &&& names_distinct(tab_names(self.tabs@))
    }

    pub open spec fn names(&self) -> Seq<Seq<char>> {
        tab_names(self.tabs@)
    }

    /// An empty strip.
    pub fn new() -> (r: TabBar)
        ensures
            r.wf(),
            r.tabs@.len() == 0,
    {
        TabBar { selected: 0, tabs: Vec::new() }
    }

    /// Opens a tab for `name`: selects the first tab with that display name, or
    /// appends a copy of the name as a new tab and selects it.
    pub fn add(&mut self, name: &String)
        requires
            old(self).wf(),
        ensures
            final(self).wf(),
            (final(self).names(), final(self).selected as int)
                == added(old(self).names(), old(self).selected as int, name@),
            final(self).tabs@.len() == final(self).names().len(),
            old(self).tabs@.len() == old(self).names().len(),
    {
        let ghost names = self.names();
        let mut i: usize = 0;
        while i < self.tabs.len()
            invariant
                self.wf(),
                names == self.names(),
                *self == *old(self),
                i <= self.tabs@.len(),
                forall|k: int| 0 <= k < i ==> names[k] != name@,
            decreases self.tabs@.len() - i,
        {
            if self.tabs[i].name == *name {
                assert(names[i as int] == name@);
                let ghost w = choose|k: int| 0 <= k < names.len() && names[k] == name@;
                assert(w == i);
                self.selected = i;
                return;
            }
            i += 1;
        }
        assert(!names.contains(name@));
        let len = self.tabs.len();
        self.tabs.push(Tab { name: name.clone() });
        assert(self.names() =~= names.push(name@));
        self.selected = len;
    }

    /// Selects the previous tab; no move at the first.
    pub fn left(&mut self)
        requires
            old(self).wf(),
        ensures
            final(self).wf(),
            final(self).tabs@ == old(self).tabs@,
            final(self).selected == if old(self).selected > 0 {
                (old(self).selected - 1) as usize
            } else {
                0usize
            },
    {
        if self.selected > 0 {
            self.selected -= 1;
        }
    }

    /// Selects the next tab; no move at the last.
    pub fn right(&mut self)
        requires
            old(self).wf(),
        ensures
            final(self).wf(),
            final(self).tabs@ == old(self).tabs@,
            final(self).selected as int == if old(self).selected + 1 < old(self).tabs@.len() {
                old(self).selected + 1
            } else {
                old(self).selected as int
            },
    {
        let n = self.tabs.len();
        if n > 0 && self.selected < n - 1 {
            self.selected += 1;
        }
    }

    /// Selects the first tab.
    pub fn first(&mut self)
        requires
            old(self).wf(),
        ensures
            final(self).wf(),
            final(self).tabs@ == old(self).tabs@,
            final(self).selected == 0,
    {
        self.selected = 0;
    }

    /// Selects the last tab; nothing changes when there are none.
    pub fn last(&mut self)
        requires
            old(self).wf(),
        ensures
            final(self).wf(),
            final(self).tabs@ == old(self).tabs@,
            final(self).selected as int == if old(self).tabs@.len() > 0 {
                old(self).tabs@.len() - 1
            } else {
                0
            },
    {
        if self.tabs.len() > 0 {
            self.selected = self.tabs.len() - 1;
        }
    }
}

/// Opening the same display name twice leaves exactly one tab of that name, the
/// second opening adds nothing, and both leave that tab selected.
pub proof fn lemma_add_twice_one_tab(names: Seq<Seq<char>>, selected: int, x: Seq<char>)
    requires
        names_distinct(names),
    ensures
        ({
            let (n1, s1) = added(names, selected, x);
            let (n2, s2) = added(n1, s1, x);
            &&& n2 == n1
            &&& s2 == s1
            &&& 0 <= s2 < n2.len()
            &&& n2[s2] == x
            &&& forall|i: int| 0 <= i < n2.len() && n2[i] == x ==> i == s2
        }),
{
    let (n1, s1) = added(names, selected, x);
    if names.contains(x) {
        let w = choose|i: int| 0 <= i < names.len() && names[i] == x;
        assert(names[w] == x);
    } else {
        assert(n1[names.len() as int] == x);
        assert(n1.contains(x));
        assert forall|i: int| 0 <= i < n1.len() && n1[i] == x implies i == s1 by {
            if i < names.len() {
                assert(names[i] == x);
            }
        }
    }
    let w = choose|i: int| 0 <= i < n1.len() && n1[i] == x;
    assert(n1[w] == x);
}

} // verus!
