//! In-memory model of a parsed syntax tree: a preorder arena of nodes, each
//! carrying its kind, its text, the field name it sits under, and its parent.
//! All tree navigation the extractor needs is verified against this model.

use vstd::prelude::*;

verus! {

/// One node of a flattened syntax tree.
pub struct SynNode {
    /// The grammar kind of the node.
    pub kind: String,
    /// The node's own text, a slice of the source.
    pub text: String,
    /// The field name under which the node sits in its parent, if any.
    pub field: Option<String>,
    /// Index of the parent node; the root has none.
    pub parent: Option<usize>,
}

/// Mathematical view of a `SynNode`.
pub struct SynNodeV {
    pub kind: Seq<char>,
    pub text: Seq<char>,
    pub field: Option<Seq<char>>,
    pub parent: Option<int>,
}

/// A flattened syntax tree in preorder: every parent stands before its
/// children, so ancestor walks terminate.
pub struct SynTree {
    pub nodes: Vec<SynNode>,
}

impl View for SynNode {
    type V = SynNodeV;

    open spec fn view(&self) -> SynNodeV {
        SynNodeV {
            kind: self.kind@,
            text: self.text@,
            field: match self.field {
                Some(f) => Some(f@),
                None => None,
            },
            parent: match self.parent {
                Some(p) => Some(p as int),
                None => None,
            },
        }
    }
}

impl View for SynTree {
    type V = Seq<SynNodeV>;

    open spec fn view(&self) -> Seq<SynNodeV> {
        self.nodes@.map_values(|n: SynNode| n@)
    }
}

/// Well-formedness: every node's parent stands strictly before it.
pub open spec fn wf_tree(t: Seq<SynNodeV>) -> bool {
    forall|j: int|
        0 <= j < t.len() ==> ((#[trigger] t[j]).parent is Some ==> 0 <= t[j].parent->Some_0 < j)
}

/// Every node text is at most `n` characters long; the flattener guarantees
/// this with `n` the length of the source, since each text is a slice of it.
pub open spec fn texts_bounded(t: Seq<SynNodeV>, n: int) -> bool {
    forall|j: int| 0 <= j < t.len() ==> (#[trigger] t[j]).text.len() <= n
}

pub open spec fn opt_ix(o: Option<usize>) -> Option<int> {
    match o {
        Some(j) => Some(j as int),
        None => None,
    }
}

/// First child of `i` at or after position `j` whose field name is `f`.
pub open spec fn scan_child_field(t: Seq<SynNodeV>, i: int, j: int, f: Seq<char>) -> Option<int>
    decreases t.len() - j,
{
    if j < 0 || j >= t.len() {
        None
    } else if t[j].parent == Some(i) && t[j].field == Some(f) {
        Some(j)
    } else {
        scan_child_field(t, i, j + 1, f)
    }
}

/// The child of `i` under field `f`, if any.
pub open spec fn spec_child_by_field(t: Seq<SynNodeV>, i: int, f: Seq<char>) -> Option<int> {
    scan_child_field(t, i, i + 1, f)
}

/// First child of `i` at or after position `j` whose kind is `k`.
pub open spec fn scan_child_kind(t: Seq<SynNodeV>, i: int, j: int, k: Seq<char>) -> Option<int>
    decreases t.len() - j,
{
    if j < 0 || j >= t.len() {
        None
    } else if t[j].parent == Some(i) && t[j].kind == k {
        Some(j)
    } else {
        scan_child_kind(t, i, j + 1, k)
    }
}

/// The first child of `i` whose kind is `k`, if any.
pub open spec fn spec_child_by_kind(t: Seq<SynNodeV>, i: int, k: Seq<char>) -> Option<int> {
    scan_child_kind(t, i, i + 1, k)
}

/// Whether `j` lies in the subtree rooted at `i` (including `i` itself).
pub open spec fn in_subtree(t: Seq<SynNodeV>, j: int, i: int) -> bool
    decreases j,
{
    if j == i {
        true
    } else if j <= i || j < 0 || j >= t.len() {
        false
    } else {
        match t[j].parent {
            Some(p) => if 0 <= p < j {
                in_subtree(t, p, i)
            } else {
                false
            },
            None => false,
        }
    }
}

/// First node at or after position `j` inside the subtree of `i` whose kind
/// is `k`: the preorder descendant search.
pub open spec fn scan_descendant_kind(t: Seq<SynNodeV>, i: int, j: int, k: Seq<char>) -> Option<
    int,
>
    decreases t.len() - j,
{
    if j < 0 || j >= t.len() {
        None
    } else if in_subtree(t, j, i) && t[j].kind == k {
        Some(j)
    } else {
        scan_descendant_kind(t, i, j + 1, k)
    }
}

/// The first descendant of `i` (itself included) whose kind is `k`.
pub open spec fn spec_descendant_by_kind(t: Seq<SynNodeV>, i: int, k: Seq<char>) -> Option<int> {
    scan_descendant_kind(t, i, i, k)
}

/// The nearest ancestor of `j` whose kind is `k`, if any.
pub open spec fn spec_ancestor_by_kind(t: Seq<SynNodeV>, j: int, k: Seq<char>) -> Option<int>
    decreases j,
{
    if j < 0 || j >= t.len() {
        None
    } else {
        match t[j].parent {
            Some(p) => if 0 <= p < j {
                if t[p].kind == k {
                    Some(p)
                } else {
                    spec_ancestor_by_kind(t, p, k)
                }
            } else {
                None
            },
            None => None,
        }
    }
}

/// The text of the name field of the nearest ancestor that has one, or the
/// empty sequence if no ancestor does.
pub open spec fn spec_closest_ancestor_name(t: Seq<SynNodeV>, j: int) -> Seq<char>
    decreases j,
{
    if j < 0 || j >= t.len() {
        Seq::empty()
    } else {
        match t[j].parent {
            Some(p) => if 0 <= p < j {
                match spec_child_by_field(t, p, "name"@) {
                    Some(c) => if 0 <= c < t.len() {
                        t[c].text
                    } else {
                        Seq::empty()
                    },
                    None => spec_closest_ancestor_name(t, p),
                }
            } else {
                Seq::empty()
            },
            None => Seq::empty(),
        }
    }
}

impl SynTree {
    /// Number of nodes.
    pub fn len(&self) -> (r: usize)
        ensures
            r == self@.len(),
    {
        self.nodes.len()
    }

    /// Borrow node `i`.
    pub fn node(&self, i: usize) -> (r: &SynNode)
        requires
            i < self@.len(),
        ensures
            r@ == self@[i as int],
    {
        &self.nodes[i]
    }

    /// The child of node `i` that sits under field `f`, if any.
    pub fn child_by_field(&self, i: usize, f: &str) -> (r: Option<usize>)
        requires
            i < self@.len(),
        ensures
            opt_ix(r) == spec_child_by_field(self@, i as int, f@),
            r is Some ==> r->Some_0 < self@.len(),
    {
        let n = self.nodes.len();
        let mut j: usize = i + 1;
        while j < n
            invariant
                i < j <= n,
                n == self@.len(),
                scan_child_field(self@, i as int, i + 1, f@) == scan_child_field(
                    self@,
                    i as int,
                    j as int,
                    f@,
                ),
            decreases n - j,
        {
            let node = &self.nodes[j];
            let matches_field = match &node.field {
                Some(g) => crate::util::str_eq(g.as_str(), f),
                None => false,
            };
            let matches_parent = match node.parent {
                Some(p) => p == i,
                None => false,
            };
            if matches_parent && matches_field {
                return Some(j);
            }
            j = j + 1;
        }
        None
    }

    /// The first child of node `i` whose kind is `k`, if any.
    pub fn child_by_kind(&self, i: usize, k: &str) -> (r: Option<usize>)
        requires
            i < self@.len(),
        ensures
            opt_ix(r) == spec_child_by_kind(self@, i as int, k@),
            r is Some ==> r->Some_0 < self@.len(),
    {
        let n = self.nodes.len();
        let mut j: usize = i + 1;
        while j < n
            invariant
                i < j <= n,
                n == self@.len(),
                scan_child_kind(self@, i as int, i + 1, k@) == scan_child_kind(
                    self@,
                    i as int,
                    j as int,
                    k@,
                ),
            decreases n - j,
        {
            let node = &self.nodes[j];
            let matches_parent = match node.parent {
                Some(p) => p == i,
                None => false,
            };
            if matches_parent && crate::util::str_eq(node.kind.as_str(), k) {
                return Some(j);
            }
            j = j + 1;
        }
        None
    }

    /// Whether node `j` lies in the subtree rooted at node `i`.
    pub fn is_in_subtree(&self, j: usize, i: usize) -> (r: bool)
        requires
            wf_tree(self@),
            j < self@.len(),
            i < self@.len(),
        ensures
            r == in_subtree(self@, j as int, i as int),
    {
        let mut cur: usize = j;
        loop
            invariant
                wf_tree(self@),
                cur < self@.len(),
                i < self@.len(),
                in_subtree(self@, j as int, i as int) == in_subtree(self@, cur as int, i as int),
            decreases cur,
        {
            if cur == i {
                return true;
            }
            if cur < i {
                return false;
            }
            match self.nodes[cur].parent {
                Some(p) => {
                    cur = p;
                },
                None => {
                    return false;
                },
            }
        }
    }

    /// The first descendant of node `i` (itself included) whose kind is `k`.
    pub fn descendant_by_kind(&self, i: usize, k: &str) -> (r: Option<usize>)
        requires
            wf_tree(self@),
            i < self@.len(),
        ensures
            opt_ix(r) == spec_descendant_by_kind(self@, i as int, k@),
            r is Some ==> r->Some_0 < self@.len(),
    {
        let n = self.nodes.len();
        let mut j: usize = i;
        while j < n
            invariant
                wf_tree(self@),
                i <= j <= n,
                i < n,
                n == self@.len(),
                scan_descendant_kind(self@, i as int, i as int, k@) == scan_descendant_kind(
                    self@,
                    i as int,
                    j as int,
                    k@,
                ),
            decreases n - j,
        {
            if self.is_in_subtree(j, i) && crate::util::str_eq(
                self.nodes[j].kind.as_str(),
                k,
            ) {
                return Some(j);
            }
            j = j + 1;
        }
        None
    }

    /// The nearest ancestor of node `j` whose kind is `k`, if any.
    pub fn ancestor_by_kind(&self, j: usize, k: &str) -> (r: Option<usize>)
        requires
            wf_tree(self@),
            j < self@.len(),
        ensures
            opt_ix(r) == spec_ancestor_by_kind(self@, j as int, k@),
            r is Some ==> r->Some_0 < self@.len(),
    {
        let mut cur: usize = j;
        loop
            invariant
                wf_tree(self@),
                cur < self@.len(),
                spec_ancestor_by_kind(self@, j as int, k@) == spec_ancestor_by_kind(
                    self@,
                    cur as int,
                    k@,
                ),
            decreases cur,
        {
            match self.nodes[cur].parent {
                Some(p) => {
                    if crate::util::str_eq(self.nodes[p].kind.as_str(), k) {
                        return Some(p);
                    }
                    cur = p;
                },
                None => {
                    return None;
                },
            }
        }
    }

    /// The name-field text of the nearest ancestor that has a name field,
    /// or the empty string.
    pub fn closest_ancestor_name(&self, j: usize) -> (r: String)
        requires
            wf_tree(self@),
            j < self@.len(),
        ensures
            r@ == spec_closest_ancestor_name(self@, j as int),
    {
        let mut cur: usize = j;
        loop
            invariant
                wf_tree(self@),
                cur < self@.len(),
                spec_closest_ancestor_name(self@, j as int) == spec_closest_ancestor_name(
                    self@,
                    cur as int,
                ),
            decreases cur,
        {
            match self.nodes[cur].parent {
                Some(p) => {
                    match self.child_by_field(p, "name") {
                        Some(c) => {
                            return self.nodes[c].text.clone();
                        },
                        None => {
                            cur = p;
                        },
                    }
                },
                None => {
                    let empty = String::new();
                    return empty;
                },
            }
        }
    }

    /// The text of node `i`.
    pub fn text_of(&self, i: usize) -> (r: String)
        requires
            i < self@.len(),
        ensures
            r@ == self@[i as int].text,
    {
        self.nodes[i].text.clone()
    }
}

} // verus!
