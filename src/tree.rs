use vstd::prelude::*;

verus! {

/// One node of a forest, listed in depth-first order, parents before their
/// children. `depth` is 0 for a root, and one more than its parent's otherwise.
#[derive(Debug)]
pub struct TreeNode {
    pub label: String,
    pub depth: usize,
}

impl TreeNode {
    pub fn new(label: String, depth: usize) -> (r: TreeNode)
        ensures
            r.label@ == label@,
            r.depth == depth,
    {
        TreeNode { label, depth }
    }
}

/// The list describes a forest in depth-first order: it starts at a root, and
/// each node is at most one level deeper than the node before it.
pub open spec fn well_shaped(nodes: Seq<TreeNode>) -> bool {
    &&& nodes.len() > 0 ==> nodes[0].depth == 0
    &&& forall|i: int| 0 < i < nodes.len() ==> #[trigger] nodes[i].depth <= nodes[i - 1].depth + 1
}

/// Node `j` is an ancestor of node `i`: it comes before `i`, and every node from
/// just after `j` up to `i` lies deeper than `j`.
pub open spec fn is_ancestor(nodes: Seq<TreeNode>, j: int, i: int) -> bool {
    &&& 0 <= j < i < nodes.len()
    &&& forall|k: int| j < k <= i ==> nodes[j].depth < #[trigger] nodes[k].depth
}

/// Node `j` is the parent of node `i`: its nearest ancestor.
pub open spec fn is_parent(nodes: Seq<TreeNode>, j: int, i: int) -> bool {
    &&& is_ancestor(nodes, j, i)
    &&& forall|k: int| j < k < i ==> !is_ancestor(nodes, k, i)
}

/// Node `i` has at least one child: the next node lies deeper.
pub open spec fn has_children(nodes: Seq<TreeNode>, i: int) -> bool {
    &&& 0 <= i
    &&& i + 1 < nodes.len()
    &&& nodes[i].depth < nodes[i + 1].depth
}

/// Node `i` is shown: every one of its ancestors is expanded.
pub open spec fn is_visible(nodes: Seq<TreeNode>, expanded: Seq<bool>, i: int) -> bool {
    &&& 0 <= i < nodes.len()
    &&& forall|j: int| is_ancestor(nodes, j, i) ==> #[trigger] expanded[j]
}

/// No node strictly between `lo` and `hi` is shown.
pub open spec fn none_visible_between(nodes: Seq<TreeNode>, expanded: Seq<bool>, lo: int, hi: int) -> bool {
    forall|k: int| lo < k < hi ==> !#[trigger] is_visible(nodes, expanded, k)
}

/// Number of shown nodes among the first `i` nodes: the row of node `i` in the
/// visible view when node `i` is shown.
pub open spec fn visible_before(nodes: Seq<TreeNode>, expanded: Seq<bool>, i: int) -> nat
    decreases i,
{
    if i <= 0 {
        0
    } else {
        visible_before(nodes, expanded, i - 1) + if is_visible(nodes, expanded, i - 1) {
            1nat
        } else {
            0nat
        }
    }
}

/// Number of rows in the visible view.
pub open spec fn visible_count(nodes: Seq<TreeNode>, expanded: Seq<bool>) -> nat {
    visible_before(nodes, expanded, nodes.len() as int)
}

/// The expansion after toggling the node under `cursor`: flipped where that
/// node has children, unchanged otherwise.
pub open spec fn toggled_expansion(nodes: Seq<TreeNode>, expanded: Seq<bool>, cursor: Option<usize>) -> Seq<bool> {
    match cursor {
        Some(c) => if has_children(nodes, c as int) {
            expanded.update(c as int, !expanded[c as int])
        } else {
            expanded
        },
        None => expanded,
    }
}

/// A forest of labelled nodes with per-node expansion and a cursor on a shown node.
#[derive(Debug)]
pub struct NavigableTree {
    pub nodes: Vec<TreeNode>,
    pub expanded: Vec<bool>,
    pub cursor: Option<usize>,
}

impl NavigableTree {
    /// The tree is well shaped, only nodes with children are expanded, and the
    /// cursor is on a shown node, or absent exactly when the tree is empty.
    pub open spec fn wf(&self) -> bool {
        &&& well_shaped(self.nodes@)
        &&& self.expanded@.len() == self.nodes@.len()
        &&& forall|i: int| 0 <= i < self.nodes@.len() && #[trigger] self.expanded@[i]
            ==> has_children(self.nodes@, i)
        &&& match self.cursor {
            None => self.nodes@.len() == 0,
            Some(c) => is_visible(self.nodes@, self.expanded@, c as int),
        }
    }

    /// The cursor moved down from `c` to `d`: to the next shown node, or nowhere
    /// when none follows.
    pub open spec fn moved_down(&self, c: int, d: int) -> bool {
        ||| (c < d && is_visible(self.nodes@, self.expanded@, d)
            && none_visible_between(self.nodes@, self.expanded@, c, d))
        ||| (d == c && none_visible_between(self.nodes@, self.expanded@, c, self.nodes@.len() as int))
    }

    /// The cursor moved up from `c` to `d`: to the previous shown node, or nowhere
    /// when none precedes.
    pub open spec fn moved_up(&self, c: int, d: int) -> bool {
        ||| (d < c && is_visible(self.nodes@, self.expanded@, d)
            && none_visible_between(self.nodes@, self.expanded@, d, c))
        ||| (d == c && none_visible_between(self.nodes@, self.expanded@, -1, c))
    }

    /// `after` is where `down` leaves a cursor that was at `self.cursor`.
    pub open spec fn cursor_moved_down(&self, after: Option<usize>) -> bool {
        match self.cursor {
            None => after is None,
            Some(c) => match after {
                Some(d) => self.moved_down(c as int, d as int),
                None => false,
            },
        }
    }

    /// `after` is where `up` leaves a cursor that was at `self.cursor`.
    pub open spec fn cursor_moved_up(&self, after: Option<usize>) -> bool {
        match self.cursor {
            None => after is None,
            Some(c) => match after {
                Some(d) => self.moved_up(c as int, d as int),
                None => false,
            },
        }
    }

    /// `next` is the tree after `first`: the cursor on the first node, if any.
    pub open spec fn first_step(&self, next: &NavigableTree) -> bool {
        &&& next.wf()
        &&& next.nodes@ == self.nodes@
        &&& next.expanded@ == self.expanded@
        &&& next.cursor == (if self.nodes@.len() == 0 { None } else { Some(0usize) })
    }

    /// `next` is the tree after `last`: the cursor on the last shown node.
    pub open spec fn last_step(&self, next: &NavigableTree) -> bool {
        &&& next.wf()
        &&& next.nodes@ == self.nodes@
        &&& next.expanded@ == self.expanded@
        &&& match next.cursor {
            None => self.nodes@.len() == 0,
            Some(d) => none_visible_between(self.nodes@, self.expanded@, d as int, self.nodes@.len() as int),
        }
    }

    /// `next` is the tree after `down`.
    pub open spec fn down_step(&self, next: &NavigableTree) -> bool {
        &&& next.wf()
        &&& next.nodes@ == self.nodes@
        &&& next.expanded@ == self.expanded@
        &&& self.cursor_moved_down(next.cursor)
    }

    /// `next` is the tree after `up`.
    pub open spec fn up_step(&self, next: &NavigableTree) -> bool {
        &&& next.wf()
        &&& next.nodes@ == self.nodes@
        &&& next.expanded@ == self.expanded@
        &&& self.cursor_moved_up(next.cursor)
    }

    /// `next` is the tree after `toggle`.
    pub open spec fn toggle_step(&self, next: &NavigableTree) -> bool {
        &&& next.wf()
        &&& next.nodes@ == self.nodes@
        &&& next.cursor == self.cursor
        &&& next.expanded@ == toggled_expansion(self.nodes@, self.expanded@, self.cursor)
    }

    /// `next` is the tree after `left`.
    pub open spec fn left_step(&self, next: &NavigableTree) -> bool {
        &&& next.wf()
        &&& next.nodes@ == self.nodes@
        &&& match self.cursor {
            None => next.cursor is None && next.expanded@ == self.expanded@,
            Some(c) => if self.expanded@[c as int] {
                next.cursor == Some(c)
                    && next.expanded@ == self.expanded@.update(c as int, false)
            } else {
                &&& next.expanded@ == self.expanded@
                &&& match next.cursor {
                    Some(d) => is_parent(self.nodes@, d as int, c as int) || (d == c
                        && forall|j: int| !#[trigger] is_ancestor(self.nodes@, j, c as int)),
                    None => false,
                }
            },
        }
    }

    /// `next` is the tree after `right`.
    pub open spec fn right_step(&self, next: &NavigableTree) -> bool {
        &&& next.wf()
        &&& next.nodes@ == self.nodes@
        &&& match self.cursor {
            None => next.cursor is None && next.expanded@ == self.expanded@,
            Some(c) => if !has_children(self.nodes@, c as int) {
                next.cursor == Some(c) && next.expanded@ == self.expanded@
            } else if !self.expanded@[c as int] {
                next.cursor == Some(c)
                    && next.expanded@ == self.expanded@.update(c as int, true)
            } else {
                next.cursor == Some((c + 1) as usize)
                    && next.expanded@ == self.expanded@
            },
        }
    }

    /// Whether the nodes describe a forest that `with_items` accepts.
    pub fn is_well_shaped(nodes: &Vec<TreeNode>) -> (r: bool)
        ensures
            r == well_shaped(nodes@),
    {
        if nodes.len() == 0 {
            return true;
        }
        if nodes[0].depth != 0 {
            return false;
        }
        let mut i: usize = 1;
        while i < nodes.len()
            invariant
                1 <= i <= nodes@.len(),
                nodes@[0].depth == 0,
                forall|k: int| 0 < k < i ==> #[trigger] nodes@[k].depth <= nodes@[k - 1].depth + 1,
            decreases nodes@.len() - i,
        {
            if nodes[i].depth > nodes[i - 1].depth && nodes[i].depth - nodes[i - 1].depth > 1 {
                return false;
            }
            i += 1;
        }
        true
    }

    /// A tree over the given forest with every node collapsed and the cursor on
    /// the first node.
    pub fn with_items(nodes: Vec<TreeNode>) -> (r: NavigableTree)
        requires
            well_shaped(nodes@),
        ensures
            r.wf(),
            r.nodes@ == nodes@,
            forall|i: int| 0 <= i < nodes@.len() ==> !#[trigger] r.expanded@[i],
            r.cursor == (if nodes@.len() == 0 { None } else { Some(0usize) }),
    {
        let mut expanded: Vec<bool> = Vec::new();
        let mut i: usize = 0;
        while i < nodes.len()
            invariant
                i <= nodes@.len(),
                expanded@.len() == i,
                forall|k: int| 0 <= k < i ==> !#[trigger] expanded@[k],
            decreases nodes@.len() - i,
        {
            expanded.push(false);
            i += 1;
        }
        let cursor = if nodes.len() == 0 { None } else { Some(0usize) };
        NavigableTree { nodes, expanded, cursor }
    }

    /// Whether node `i` has children.
    pub fn has_children_at(&self, i: usize) -> (r: bool)
        requires
            i < self.nodes@.len(),
        ensures
            r == has_children(self.nodes@, i as int),
    {
        let n = self.nodes.len();
        i + 1 < n && self.nodes[i].depth < self.nodes[i + 1].depth
    }

    /// Whether node `i` is shown.
    pub fn is_visible_at(&self, i: usize) -> (r: bool)
        requires
            self.wf(),
            i < self.nodes@.len(),
        ensures
            r == is_visible(self.nodes@, self.expanded@, i as int),
    {
        let ghost nodes = self.nodes@;
        let mut j: usize = i;
        let mut m: usize = self.nodes[i].depth;
        let ghost mut mk: int = i as int;
        while j > 0
            invariant
                self.wf(),
                nodes == self.nodes@,
                j <= i < nodes.len(),
                j <= mk <= i,
                nodes[mk].depth == m,
                forall|k: int| j <= k <= i ==> m <= #[trigger] nodes[k].depth,
                forall|a: int| j <= a < i && is_ancestor(nodes, a, i as int) ==> #[trigger] self.expanded@[a],
            decreases j,
        {
            j -= 1;
            if self.nodes[j].depth < m {
                assert(is_ancestor(nodes, j as int, i as int));
                if !self.expanded[j] {
                    return false;
                }
                m = self.nodes[j].depth;
                proof {
                    mk = j as int;
                }
            } else {
                assert(!is_ancestor(nodes, j as int, i as int)) by {
                    assert(nodes[j as int].depth >= nodes[mk].depth);
                }
            }
        }
        true
    }

    /// The node under the cursor, if the tree is not empty.
    pub fn selected(&self) -> (r: Option<usize>)
        ensures
            r == self.cursor,
    {
        self.cursor
    }

    /// Moves the cursor to the first node.
    pub fn first(&mut self)
        requires
            old(self).wf(),
        ensures
            old(self).first_step(final(self)),
    {
        if self.nodes.len() > 0 {
            self.cursor = Some(0);
        }
    }

    /// Moves the cursor to the last shown node.
    pub fn last(&mut self)
        requires
            old(self).wf(),
        ensures
            old(self).last_step(final(self)),
    {
        if self.nodes.len() == 0 {
            return;
        }
        let mut k: usize = self.nodes.len() - 1;
        while !self.is_visible_at(k)
            invariant
                self.wf(),
                self.nodes@ == old(self).nodes@,
                self.expanded@ == old(self).expanded@,
                k < self.nodes@.len(),
                none_visible_between(self.nodes@, self.expanded@, k as int, self.nodes@.len() as int),
            decreases k,
        {
            // node 0 is a root, hence always shown
            assert(k > 0) by {
                if k == 0 {
                    assert(is_visible(self.nodes@, self.expanded@, 0));
                }
            }
            k -= 1;
        }
        self.cursor = Some(k);
    }

    /// Moves the cursor to the next shown node; no move at the last one.
    pub fn down(&mut self)
        requires
            old(self).wf(),
        ensures
            old(self).down_step(final(self)),
    {
        let n = self.nodes.len();
        if let Some(c) = self.cursor {
            let mut k: usize = c + 1;
            while k < n
                invariant
                    self.wf(),
                    self.nodes@ == old(self).nodes@,
                    self.expanded@ == old(self).expanded@,
                    self.cursor == Some(c),
                    old(self).cursor == Some(c),
                    c < k <= n,
                    n == self.nodes@.len(),
                    none_visible_between(self.nodes@, self.expanded@, c as int, k as int),
                decreases self.nodes@.len() - k,
            {
                if self.is_visible_at(k) {
                    self.cursor = Some(k);
                    return;
                }
                k += 1;
            }
        }
    }

    /// Moves the cursor to the previous shown node; no move at the first one.
    pub fn up(&mut self)
        requires
            old(self).wf(),
        ensures
            old(self).up_step(final(self)),
    {
        if let Some(c) = self.cursor {
            let mut k: usize = c;
            while k > 0
                invariant
                    self.wf(),
                    self.nodes@ == old(self).nodes@,
                    self.expanded@ == old(self).expanded@,
                    self.cursor == Some(c),
                    old(self).cursor == Some(c),
                    k <= c < self.nodes@.len(),
                    none_visible_between(self.nodes@, self.expanded@, k - 1, c as int),
                decreases k,
            {
                k -= 1;
                if self.is_visible_at(k) {
                    self.cursor = Some(k);
                    return;
                }
            }
        }
    }

    /// Flips the expansion of the node under the cursor, if it has children.
    pub fn toggle(&mut self)
        requires
            old(self).wf(),
        ensures
            old(self).toggle_step(final(self)),
    {
        if let Some(c) = self.cursor {
            if self.has_children_at(c) {
                let e = self.expanded[c];
                self.expanded.set(c, !e);
                assert(is_visible(self.nodes@, self.expanded@, c as int));
            }
        }
    }

    /// Collapses the node under the cursor if it is expanded; otherwise moves
    /// the cursor to its parent, and stays at a root.
    pub fn left(&mut self)
        requires
            old(self).wf(),
        ensures
            old(self).left_step(final(self)),
    {
        if let Some(c) = self.cursor {
            if self.expanded[c] {
                self.expanded.set(c, false);
                assert(is_visible(self.nodes@, self.expanded@, c as int));
                return;
            }
            let ghost nodes = self.nodes@;
            let dc = self.nodes[c].depth;
            let mut j: usize = c;
            while j > 0
                invariant
                    self.wf(),
                    nodes == self.nodes@,
                    self.nodes@ == old(self).nodes@,
                    self.expanded@ == old(self).expanded@,
                    self.cursor == Some(c),
                    old(self).cursor == Some(c),
                    !old(self).expanded@[c as int],
                    j <= c < nodes.len(),
                    dc == nodes[c as int].depth,
                    forall|k: int| j <= k <= c ==> dc <= #[trigger] nodes[k].depth,
                decreases j,
            {
                j -= 1;
                if self.nodes[j].depth < dc {
                    let ghost e = self.expanded@;
                    assert(is_ancestor(nodes, j as int, c as int));
                    assert forall|k: int| j < k < c implies !is_ancestor(nodes, k, c as int) by {
                        assert(nodes[k].depth >= nodes[c as int].depth);
                    }
                    assert forall|a: int| is_ancestor(nodes, a, j as int) implies #[trigger] e[a] by {
                        assert forall|k: int| a < k <= c implies nodes[a].depth < #[trigger] nodes[k].depth by {
                            if k > j {
                                assert(nodes[j as int].depth < nodes[k].depth);
                            }
                        }
                        assert(is_ancestor(nodes, a, c as int));
                    }
                    self.cursor = Some(j);
                    return;
                }
            }
            assert forall|a: int| !#[trigger] is_ancestor(nodes, a, c as int) by {
                if is_ancestor(nodes, a, c as int) {
                    assert(nodes[a].depth < nodes[c as int].depth);
                }
            }
        }
    }

    /// Expands the node under the cursor if it has children and is collapsed;
    /// moves to its first child if it is expanded; does nothing on a leaf.
    pub fn right(&mut self)
        requires
            old(self).wf(),
        ensures
            old(self).right_step(final(self)),
    {
        if let Some(c) = self.cursor {
            if !self.has_children_at(c) {
                return;
            }
            if !self.expanded[c] {
                self.expanded.set(c, true);
                assert(is_visible(self.nodes@, self.expanded@, c as int));
                return;
            }
            let n = self.nodes.len();
            assert(c + 1 < n);
            let ghost nodes = self.nodes@;
            let ghost e = self.expanded@;
            assert forall|a: int| is_ancestor(nodes, a, c + 1) implies #[trigger] e[a] by {
                if a < c {
                    assert(is_ancestor(nodes, a, c as int));
                }
            }
            self.cursor = Some(c + 1);
        }
    }
}

/// Toggling the node under the cursor twice restores every node's expansion.
pub proof fn lemma_toggle_twice_restores(t: NavigableTree)
    requires
        t.wf(),
    ensures
        toggled_expansion(t.nodes@, toggled_expansion(t.nodes@, t.expanded@, t.cursor), t.cursor)
            == t.expanded@,
{
    if let Some(c) = t.cursor {
        if has_children(t.nodes@, c as int) {
            assert(t.expanded@.update(c as int, !t.expanded@[c as int]).update(c as int, t.expanded@[c as int])
                =~= t.expanded@);
        }
    }
}

/// Counting shown nodes over a longer prefix never gives fewer.
pub proof fn lemma_visible_before_monotone(nodes: Seq<TreeNode>, expanded: Seq<bool>, i: int, k: int)
    requires
        0 <= i <= k,
    ensures
        visible_before(nodes, expanded, i) <= visible_before(nodes, expanded, k),
    decreases k - i,
{
    if i < k {
        lemma_visible_before_monotone(nodes, expanded, i, k - 1);
    }
}

/// In a well-formed tree the cursor's row lies in `[0, visible_count)`, and an
/// empty tree has no cursor and no rows. Every navigation method keeps the tree
/// well formed, so this holds after any sequence of them.
pub proof fn lemma_cursor_row_in_view(t: NavigableTree)
    requires
        t.wf(),
    ensures
        match t.cursor {
            None => visible_count(t.nodes@, t.expanded@) == 0,
            Some(c) => visible_before(t.nodes@, t.expanded@, c as int) < visible_count(t.nodes@, t.expanded@),
        },
{
    if let Some(c) = t.cursor {
        lemma_visible_before_monotone(t.nodes@, t.expanded@, c + 1, t.nodes@.len() as int);
    }
}

} // verus!
