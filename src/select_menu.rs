use vstd::prelude::*;

verus! {

/// One choice of a menu: what it shows and what choosing it yields.
#[derive(Debug)]
pub struct MenuOption<T> {
    pub label: String,
    pub value: T,
}

/// What a menu reports to its owner.
#[derive(Debug, PartialEq, Eq)]
pub enum MenuEvent<T> {
    Selected(T),
}

/// A picker over a fixed, non-empty list of options. Moving the highlight stops
/// at the first and last option, as everywhere else in this library. A choice
/// is reported through a queue of events that the owner drains.
#[derive(Debug)]
pub struct SelectMenu<T> {
    pub options: Vec<MenuOption<T>>,
    pub highlighted: usize,
    pub committed: usize,
    pub open: bool,
    pub pending: Vec<MenuEvent<T>>,
}

impl<T: Copy> SelectMenu<T> {
    /// There is at least one option, and both the highlighted and the last
    /// committed option are among them.
    pub open spec fn wf(&self) -> bool {
        &&& self.options@.len() > 0
        &&& self.highlighted < self.options@.len()
        &&& self.committed < self.options@.len()
    }

    /// The menu, without the pending events and the open flag, is unchanged.
    pub open spec fn same_choices(&self, other: &SelectMenu<T>) -> bool {
        &&& self.options@ == other.options@
        &&& self.committed == other.committed
    }

    /// A closed menu over `options` with the first one highlighted and committed.
    pub fn new(options: Vec<MenuOption<T>>) -> (r: SelectMenu<T>)
        requires
            options@.len() > 0,
        ensures
            r.wf(),
            r.options@ == options@,
            r.highlighted == 0,
            r.committed == 0,
            !r.open,
            r.pending@.len() == 0,
    {
        SelectMenu { options, highlighted: 0, committed: 0, open: false, pending: Vec::new() }
    }

    /// Highlights the previous option; no move at the first.
    pub fn left(&mut self)
        requires
            old(self).wf(),
        ensures
            final(self).wf(),
            final(self).same_choices(old(self)),
            final(self).open == old(self).open,
            final(self).pending@ == old(self).pending@,
            final(self).highlighted == if old(self).highlighted > 0 {
                (old(self).highlighted - 1) as usize
            } else {
                0usize
            },
    {
        if self.highlighted > 0 {
            self.highlighted -= 1;
        }
    }

    /// Highlights the next option; no move at the last.
    pub fn right(&mut self)
        requires
            old(self).wf(),
        ensures
            final(self).wf(),
            final(self).same_choices(old(self)),
            final(self).open == old(self).open,
            final(self).pending@ == old(self).pending@,
            final(self).highlighted as int == if old(self).highlighted + 1 < old(self).options@.len() {
                old(self).highlighted + 1
            } else {
                old(self).highlighted as int
            },
    {
        if self.highlighted < self.options.len() - 1 {
            self.highlighted += 1;
        }
    }

    /// Same as `left`.
    pub fn up(&mut self)
        requires
            old(self).wf(),
        ensures
            final(self).wf(),
            final(self).same_choices(old(self)),
            final(self).open == old(self).open,
            final(self).pending@ == old(self).pending@,
            final(self).highlighted == if old(self).highlighted > 0 {
                (old(self).highlighted - 1) as usize
            } else {
                0usize
            },
    {
        self.left();
    }

    /// Same as `right`.
    pub fn down(&mut self)
        requires
            old(self).wf(),
        ensures
            final(self).wf(),
            final(self).same_choices(old(self)),
            final(self).open == old(self).open,
            final(self).pending@ == old(self).pending@,
            final(self).highlighted as int == if old(self).highlighted + 1 < old(self).options@.len() {
                old(self).highlighted + 1
            } else {
                old(self).highlighted as int
            },
    {
        self.right();
    }

    /// Shows the options; the highlight stays.
    pub fn open(&mut self)
        requires
            old(self).wf(),
        ensures
            final(self).wf(),
            final(self).same_choices(old(self)),
            final(self).highlighted == old(self).highlighted,
            final(self).pending@ == old(self).pending@,
            final(self).open,
    {
        self.open = true;
    }

    /// Hides the options; the highlight stays.
    pub fn close(&mut self)
        requires
            old(self).wf(),
        ensures
            final(self).wf(),
            final(self).same_choices(old(self)),
            final(self).highlighted == old(self).highlighted,
            final(self).pending@ == old(self).pending@,
            !final(self).open,
    {
        self.open = false;
    }

    /// Shows the options if hidden, hides them if shown; the highlight stays.
    pub fn toggle(&mut self)
        requires
            old(self).wf(),
        ensures
            final(self).wf(),
            final(self).same_choices(old(self)),
            final(self).highlighted == old(self).highlighted,
            final(self).pending@ == old(self).pending@,
            final(self).open == !old(self).open,
    {
        self.open = !self.open;
    }

    /// Whether the options are shown.
    pub fn is_open(&self) -> (r: bool)
        ensures
            r == self.open,
    {
        self.open
    }

    /// Commits the highlighted option: queues one event carrying its value and
    /// closes the menu.
    pub fn select(&mut self)
        requires
            old(self).wf(),
        ensures
            final(self).wf(),
            final(self).options@ == old(self).options@,
            final(self).highlighted == old(self).highlighted,
            final(self).committed == old(self).highlighted,
            final(self).pending@ == old(self).pending@.push(
                MenuEvent::Selected(old(self).options@[old(self).highlighted as int].value),
            ),
            !final(self).open,
    {
        let v = self.options[self.highlighted].value;
        self.pending.push(MenuEvent::Selected(v));
        self.committed = self.highlighted;
        self.open = false;
    }

    /// Closes the menu without committing: the highlight returns to the last
    /// committed option.
    pub fn reset(&mut self)
        requires
            old(self).wf(),
        ensures
            final(self).wf(),
            final(self).same_choices(old(self)),
            final(self).highlighted == old(self).committed,
            final(self).pending@ == old(self).pending@,
            !final(self).open,
    {
        self.highlighted = self.committed;
        self.open = false;
    }

    /// Hands out the queued events, oldest first, and empties the queue.
    pub fn drain_events(&mut self) -> (r: Vec<MenuEvent<T>>)
        requires
            old(self).wf(),
        ensures
            final(self).wf(),
            final(self).same_choices(old(self)),
            final(self).highlighted == old(self).highlighted,
            final(self).open == old(self).open,
            r@ == old(self).pending@,
            final(self).pending@.len() == 0,
    {
        let mut r: Vec<MenuEvent<T>> = Vec::new();
        std::mem::swap(&mut r, &mut self.pending);
        r
    }

    /// The value of the last committed option.
    pub fn committed_value(&self) -> (r: T)
        requires
            self.wf(),
        ensures
            r == self.options@[self.committed as int].value,
    {
        self.options[self.committed].value
    }
}

} // verus!
