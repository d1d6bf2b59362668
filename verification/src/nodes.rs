use vstd::prelude::*;

use crate::host::Host;
use crate::text::{dec_str, usize_to_string};
use crate::types::{entry_views_of, lemma_entry_views_of, Action, ActionData, Entry, EntryData};

verus! {

/// Unique identifier for a leaf node within a [`Nodes`] container.
///
/// Created during container construction. Use with [`Nodes::get`] to
/// retrieve the associated value. Identifiers from different containers are
/// independent index spaces and must not be interchanged.
#[derive(Debug, Copy, Clone, Eq, PartialEq, Hash, Structural)]
pub struct NodeId(usize);

impl View for NodeId {
    type V = int;

    closed spec fn view(&self) -> int {
        self.0 as int
    }
}

impl NodeId {
    /// Creates a `NodeId` from an index.
    pub fn from_index(index: usize) -> (r: Self)
        ensures
            r@ == index,
    {
        NodeId(index)
    }

    /// Returns the underlying index.
    pub fn index(&self) -> (r: usize)
        ensures
            r == self@,
    {
        self.0
    }

    /// The identifier written as menu-item text: `node_{index}`.
    pub fn label(&self) -> (r: String)
        ensures
            r@ == "node_"@ + dec_str(self@ as nat),
    {
        let mut s = String::from_str("node_");
        let digits = usize_to_string(self.0);
        s.append(digits.as_str());
        s
    }
}

/// A node in the indexed tree: a leaf carrying a value and its id, or a
/// named group of nested nodes.
#[derive(Debug)]
pub enum Node<T> {
    /// A leaf node with its value and assigned id.
    Leaf {
        /// Unique identifier for this leaf.
        id: NodeId,
        /// The leaf value.
        value: T,
    },
    /// A named group containing nested nodes.
    Group {
        /// Display name for the submenu.
        name: String,
        /// Child nodes.
        children: Vec<Node<T>>,
    },
}

impl<T> Node<T> {
    /// Returns the id if this is a leaf, `None` for a group.
    pub fn id(&self) -> (r: Option<NodeId>)
        ensures
            match r {
                Some(id) => self matches Node::Leaf { id: nid, .. } && nid == id,
                None => self is Group,
            },
    {
        match self {
            Node::Leaf { id, .. } => Some(*id),
            Node::Group { .. } => None,
        }
    }

    /// Returns `true` if this is a leaf.
    pub fn is_leaf(&self) -> (r: bool)
        ensures
            r == (self is Leaf),
    {
        matches!(self, Node::Leaf { .. })
    }

    /// Returns `true` if this is a group.
    pub fn is_group(&self) -> (r: bool)
        ensures
            r == (self is Group),
    {
        matches!(self, Node::Group { .. })
    }
}

/// The leaf values of one node, in depth-first left-to-right order.
pub open spec fn leaves_of_node<T>(n: Node<T>) -> Seq<T>
    decreases n, 0int,
{
    match n {
        Node::Leaf { id, value } => seq![value],
        Node::Group { name, children } => leaves_of_nodes(children@),
    }
}

/// The leaf values of a forest, in depth-first left-to-right order.
pub open spec fn leaves_of_nodes<T>(nodes: Seq<Node<T>>) -> Seq<T>
    decreases nodes, 1int,
{
    if nodes.len() == 0 {
        Seq::empty()
    } else {
        leaves_of_node(nodes[0]) + leaves_of_nodes(nodes.drop_first())
    }
}

/// The leaf identifiers of one node, in depth-first order.
pub open spec fn ids_of_node<T>(n: Node<T>) -> Seq<int>
    decreases n, 0int,
{
    match n {
        Node::Leaf { id, value } => seq![id@],
        Node::Group { name, children } => ids_of_nodes(children@),
    }
}

/// The leaf identifiers of a forest, in depth-first order.
pub open spec fn ids_of_nodes<T>(nodes: Seq<Node<T>>) -> Seq<int>
    decreases nodes, 1int,
{
    if nodes.len() == 0 {
        Seq::empty()
    } else {
        ids_of_node(nodes[0]) + ids_of_nodes(nodes.drop_first())
    }
}

proof fn lemma_node_counts<T>(n: Node<T>)
    ensures
        ids_of_node(n).len() == leaves_of_node(n).len(),
    decreases n, 0int,
{
    match n {
        Node::Leaf { id, value } => {},
        Node::Group { name, children } => {
            lemma_nodes_counts(children@);
        },
    }
}

proof fn lemma_nodes_counts<T>(nodes: Seq<Node<T>>)
    ensures
        ids_of_nodes(nodes).len() == leaves_of_nodes(nodes).len(),
    decreases nodes, 1int,
{
    if nodes.len() > 0 {
        lemma_node_counts(nodes[0]);
        lemma_nodes_counts(nodes.drop_first());
    }
}

/// Generic container providing O(1) lookup by [`NodeId`].
///
/// Owns two parallel representations built in one pass: a tree with the
/// shape of the input, and a flat table of the leaf values in depth-first
/// order, indexed by id.
#[derive(Debug)]
pub struct Nodes<T> {
    /// Tree structure for menu building.
    tree: Vec<Node<T>>,
    /// Flat table of leaves for O(1) lookup by id.
    leaves: Vec<T>,
}

impl<T> Nodes<T> {
    /// The flat table of leaf values, in id order.
    pub closed spec fn spec_leaves(self) -> Seq<T> {
        self.leaves@
    }

    /// The tree of nodes.
    pub closed spec fn spec_tree(self) -> Seq<Node<T>> {
        self.tree@
    }

    /// The container's invariant: the flat table holds exactly the leaf
    /// values of the tree in depth-first order, and the leaf identifiers,
    /// read off in the same order, are exactly the table's positions.
    pub open spec fn inv(self) -> bool {
        &&& self.spec_leaves() == leaves_of_nodes(self.spec_tree())
        &&& ids_of_nodes(self.spec_tree()) == Seq::new(self.spec_leaves().len(), |i: int| i)
    }

    #[verifier::type_invariant]
    closed spec fn wf(self) -> bool {
        self.inv()
    }
}

/// What `get` returns: the value at the identifier's position in the flat
/// table, nothing for a position past its end.
pub open spec fn spec_get<T>(n: Nodes<T>, id: int) -> Option<T> {
    if 0 <= id < n.spec_leaves().len() {
        Some(n.spec_leaves()[id])
    } else {
        None
    }
}

/// What `iter` yields: each position paired with the value stored there,
/// in ascending id order.
pub open spec fn spec_iter<T>(n: Nodes<T>) -> Seq<(int, T)> {
    Seq::new(n.spec_leaves().len(), |i: int| (i, n.spec_leaves()[i]))
}

impl<T> Nodes<T> {
    /// O(1) lookup by id: `Some` exactly for ids below `len()`, and never a
    /// panic for ids outside that range.
    pub fn get(&self, id: NodeId) -> (r: Option<&T>)
        ensures
            match r {
                Some(v) => spec_get(*self, id@) == Some(*v),
                None => spec_get(*self, id@) is None,
            },
    {
        let i = id.index();
        if i < self.leaves.len() {
            Some(&self.leaves[i])
        } else {
            None
        }
    }

    /// All leaf values with their ids, in ascending id order. The result is
    /// a function of the container alone: repeated calls yield the same
    /// sequence.
    pub fn iter<'a>(&'a self) -> (r: Vec<(NodeId, &'a T)>)
        ensures
            r@.len() == spec_iter(*self).len(),
            forall|i: int|
                0 <= i < r@.len() ==> ((#[trigger] r@[i]).0@, *r@[i].1) == spec_iter(*self)[i],
    {
        let mut r: Vec<(NodeId, &'a T)> = Vec::new();
        let mut i: usize = 0;
        while i < self.leaves.len()
            invariant
                i <= self.leaves@.len(),
                r@.len() == i,
                forall|k: int|
                    0 <= k < i ==> ((#[trigger] r@[k]).0@, *r@[k].1) == (k, self.leaves@[k]),
            decreases self.leaves@.len() - i,
        {
            r.push((NodeId::from_index(i), &self.leaves[i]));
            i = i + 1;
        }
        r
    }

    /// Access to the tree structure for menu building.
    pub fn nodes(&self) -> (r: &[Node<T>])
        ensures
            r@ == self.spec_tree(),
    {
        self.tree.as_slice()
    }

    /// The number of leaf values: exactly the number of leaves reachable by
    /// depth-first traversal of the tree, however many groups stand between.
    pub fn len(&self) -> (r: usize)
        ensures
            r == self.spec_leaves().len(),
            r == leaves_of_nodes(self.spec_tree()).len(),
    {
        proof {
            use_type_invariant(self);
        }
        self.leaves.len()
    }

    /// Whether the container has no leaf values.
    pub fn is_empty(&self) -> (r: bool)
        ensures
            r == (self.spec_leaves().len() == 0),
            r == (leaves_of_nodes(self.spec_tree()).len() == 0),
    {
        proof {
            use_type_invariant(self);
        }
        self.leaves.is_empty()
    }
}

/// Every id yielded by `iter` looks up, through `get`, to exactly the value
/// that `iter` paired it with.
pub proof fn lemma_iter_get_agree<T>(n: Nodes<T>, i: int)
    requires
        0 <= i < spec_iter(n).len(),
    ensures
        spec_get(n, spec_iter(n)[i].0) == Some(spec_iter(n)[i].1),
{
}

/// Iteration is a function of the container alone: any two results of
/// `iter` on the same container are the same sequence.
pub proof fn lemma_iter_stable<T>(n: Nodes<T>, r1: Seq<(int, T)>, r2: Seq<(int, T)>)
    requires
        r1 == spec_iter(n),
        r2 == spec_iter(n),
    ensures
        r1 == r2,
{
}

/// Identifier spaces of different containers are independent: in every
/// container the ids are the positions 0, 1, 2, ... regardless of the other
/// container's contents.
pub proof fn lemma_independent_id_spaces<A, B>(a: Nodes<A>, b: Nodes<B>)
    ensures
        forall|i: int| 0 <= i < spec_iter(a).len() ==> (#[trigger] spec_iter(a)[i]).0 == i,
        forall|i: int| 0 <= i < spec_iter(b).len() ==> (#[trigger] spec_iter(b)[i]).0 == i,
{
}

// ---------------------------------------------------------------------------
// Construction from config entries and from hostnames.
// ---------------------------------------------------------------------------

/// How the flattened actions of a sequence of entries read, depth first.
pub open spec fn actions_of_entry(e: EntryData) -> Seq<ActionData>
    decreases e, 0int,
{
    match e {
        EntryData::Action(a) => seq![a],
        EntryData::Group(g) => actions_of_entries(g.entries),
    }
}

/// The actions of a sequence of entries, depth first, left to right.
pub open spec fn actions_of_entries(es: Seq<EntryData>) -> Seq<ActionData>
    decreases es, 1int,
{
    if es.len() == 0 {
        Seq::empty()
    } else {
        actions_of_entry(es[0]) + actions_of_entries(es.drop_first())
    }
}

/// Whether a node mirrors an entry: a leaf holding the action's value, or a
/// group of the same name whose children mirror the group's entries in
/// order.
pub open spec fn node_matches_entry(n: Node<Action>, e: EntryData) -> bool
    decreases e, 0int,
{
    match e {
        EntryData::Action(a) => match n {
            Node::Leaf { id, value } => value@ == a,
            Node::Group { .. } => false,
        },
        EntryData::Group(g) => match n {
            Node::Group { name, children } => name@ == g.name && forest_matches_entries(
                children@,
                g.entries,
            ),
            Node::Leaf { .. } => false,
        },
    }
}

/// Whether a forest mirrors a sequence of entries, element by element.
pub open spec fn forest_matches_entries(nodes: Seq<Node<Action>>, es: Seq<EntryData>) -> bool
    decreases es, 1int,
{
    &&& nodes.len() == es.len()
    &&& (es.len() == 0 || (node_matches_entry(nodes[0], es[0]) && forest_matches_entries(
        nodes.drop_first(),
        es.drop_first(),
    )))
}

/// A node that mirrors an entry holds exactly the entry's actions as its
/// leaves, in depth-first order.
pub proof fn lemma_match_leaves(n: Node<Action>, e: EntryData)
    requires
        node_matches_entry(n, e),
    ensures
        leaves_of_node(n).len() == actions_of_entry(e).len(),
        forall|k: int|
            0 <= k < leaves_of_node(n).len() ==> (#[trigger] leaves_of_node(n)[k])@
                == actions_of_entry(e)[k],
    decreases e, 0int,
{
    match e {
        EntryData::Action(a) => {},
        EntryData::Group(g) => {
            match n {
                Node::Group { name, children } => {
                    lemma_forest_match_leaves(children@, g.entries);
                },
                Node::Leaf { .. } => {},
            }
        },
    }
}

/// A forest that mirrors a sequence of entries holds exactly their actions
/// as its leaves, in depth-first order.
pub proof fn lemma_forest_match_leaves(nodes: Seq<Node<Action>>, es: Seq<EntryData>)
    requires
        forest_matches_entries(nodes, es),
    ensures
        leaves_of_nodes(nodes).len() == actions_of_entries(es).len(),
        forall|k: int|
            0 <= k < leaves_of_nodes(nodes).len() ==> (#[trigger] leaves_of_nodes(nodes)[k])@
                == actions_of_entries(es)[k],
    decreases es, 1int,
{
    if es.len() > 0 {
        lemma_match_leaves(nodes[0], es[0]);
        lemma_forest_match_leaves(nodes.drop_first(), es.drop_first());
    }
}

fn build_node(e: &Entry, leaves: &mut Vec<Action>) -> (n: Node<Action>)
    ensures
        final(leaves)@ == old(leaves)@ + leaves_of_node(n),
        ids_of_node(n) == Seq::new(leaves_of_node(n).len(), |k: int| old(leaves)@.len() + k),
        node_matches_entry(n, e@),
    decreases e, 0int,
{
    match e {
        Entry::Action(a) => {
            let id = NodeId::from_index(leaves.len());
            let stored = Action { name: a.name.clone(), cmd: a.cmd.clone() };
            let value = Action { name: a.name.clone(), cmd: a.cmd.clone() };
            proof {
                assert(stored == value);
            }
            leaves.push(stored);
            let n = Node::Leaf { id, value };
            proof {
                assert(leaves@ =~= old(leaves)@ + leaves_of_node(n));
                assert(ids_of_node(n) =~= Seq::new(1, |k: int| old(leaves)@.len() + k));
            }
            n
        },
        Entry::Group(g) => {
            let children = build_forest(&g.entries, 0, leaves);
            let n = Node::Group { name: g.name.clone(), children };
            proof {
                lemma_entry_views_of(g.entries@);
                assert(entry_views_of(g.entries@).skip(0) =~= entry_views_of(g.entries@));
                assert(leaves_of_node(n) == leaves_of_nodes(n->Group_children@));
            }
            n
        },
    }
}

fn build_forest(es: &Vec<Entry>, i: usize, leaves: &mut Vec<Action>) -> (ns: Vec<Node<Action>>)
    requires
        i <= es@.len(),
    ensures
        final(leaves)@ == old(leaves)@ + leaves_of_nodes(ns@),
        ids_of_nodes(ns@) == Seq::new(
            leaves_of_nodes(ns@).len(),
            |k: int| old(leaves)@.len() + k,
        ),
        forest_matches_entries(ns@, entry_views_of(es@).skip(i as int)),
    decreases es, es@.len() - i,
{
    proof {
        lemma_entry_views_of(es@);
    }
    let ghost evs = entry_views_of(es@);
    if i >= es.len() {
        let ns: Vec<Node<Action>> = Vec::new();
        proof {
            assert(leaves_of_nodes(ns@) =~= Seq::<Action>::empty());
            assert(leaves@ =~= old(leaves)@ + leaves_of_nodes(ns@));
            assert(ids_of_nodes(ns@) =~= Seq::new(0, |k: int| old(leaves)@.len() + k));
            assert(evs.skip(i as int) =~= Seq::<EntryData>::empty());
        }
        return ns;
    }
    let first = build_node(&es[i], leaves);
    let ghost len1 = leaves@.len();
    let mut rest = build_forest(es, i + 1, leaves);
    let ghost rest0 = rest@;
    let mut ns: Vec<Node<Action>> = Vec::new();
    ns.push(first);
    ns.append(&mut rest);
    proof {
        assert(ns@ =~= seq![first] + rest0);
        assert(ns@.drop_first() =~= rest0);
        assert(leaves_of_nodes(ns@) == leaves_of_node(first) + leaves_of_nodes(rest0));
        assert(leaves@ =~= old(leaves)@ + leaves_of_nodes(ns@));
        lemma_node_counts(first);
        lemma_nodes_counts(rest0);
        assert(ids_of_nodes(ns@) == ids_of_node(first) + ids_of_nodes(rest0));
        assert(ids_of_nodes(ns@) =~= Seq::new(
            leaves_of_nodes(ns@).len(),
            |k: int| old(leaves)@.len() + k,
        ));
        assert(evs.skip(i as int)[0] == evs[i as int]);
        assert(evs.skip(i as int).drop_first() =~= evs.skip(i + 1 as int));
    }
    ns
}

impl Nodes<Action> {
    /// Builds the container from config entries: one depth-first pass over
    /// the tree assigns each action the next id, starting at 0, and the
    /// output tree mirrors the input's shape, empty groups included.
    pub fn from_entries(entries: Vec<Entry>) -> (r: Nodes<Action>)
        ensures
            r.inv(),
            forest_matches_entries(r.spec_tree(), entry_views_of(entries@)),
            r.spec_leaves().len() == actions_of_entries(entry_views_of(entries@)).len(),
            forall|k: int|
                0 <= k < r.spec_leaves().len() ==> (#[trigger] r.spec_leaves()[k])@
                    == actions_of_entries(entry_views_of(entries@))[k],
    {
        let mut leaves: Vec<Action> = Vec::new();
        let tree = build_forest(&entries, 0, &mut leaves);
        proof {
            lemma_entry_views_of(entries@);
            assert(entry_views_of(entries@).skip(0) =~= entry_views_of(entries@));
            assert(leaves@ =~= leaves_of_nodes(tree@));
            assert(ids_of_nodes(tree@) =~= Seq::new(leaves@.len(), |i: int| i));
            lemma_forest_match_leaves(tree@, entry_views_of(entries@));
        }
        Nodes { tree, leaves }
    }
}

impl Nodes<Host> {
    /// Builds the container from hostnames: every element becomes a
    /// top-level leaf, id equal to its position.
    pub fn from_hostnames(hostnames: Vec<String>) -> (r: Nodes<Host>)
        ensures
            r.inv(),
            r.spec_leaves().len() == hostnames@.len(),
            forall|i: int|
                0 <= i < hostnames@.len() ==> (#[trigger] r.spec_leaves()[i])@
                    == hostnames@[i]@,
            r.spec_tree().len() == hostnames@.len(),
            forall|i: int|
                0 <= i < hostnames@.len() ==> ((#[trigger] r.spec_tree()[i]) matches Node::Leaf {
                    id,
                    value,
                } && id@ == i && value@ == hostnames@[i]@),
    {
        let mut leaves: Vec<Host> = Vec::new();
        let mut tree: Vec<Node<Host>> = Vec::new();
        let mut i: usize = 0;
        while i < hostnames.len()
            invariant
                i <= hostnames@.len(),
                leaves@.len() == i,
                tree@.len() == i,
                forall|k: int|
                    0 <= k < i ==> (#[trigger] leaves@[k])@ == hostnames@[k]@,
                forall|k: int|
                    0 <= k < i ==> ((#[trigger] tree@[k]) matches Node::Leaf { id, value } && id@
                        == k && value@ == hostnames@[k]@ && value == leaves@[k]),
            decreases hostnames@.len() - i,
        {
            let host = Host { hostname: hostnames[i].clone() };
            let value = Host { hostname: hostnames[i].clone() };
            leaves.push(host);
            tree.push(Node::Leaf { id: NodeId::from_index(i), value });
            i = i + 1;
        }
        proof {
            lemma_flat_leaves(tree@, leaves@, 0);
            assert(ids_of_nodes(tree@) =~= Seq::new(leaves@.len(), |i: int| i));
        }
        Nodes { tree, leaves }
    }
}

/// In a forest of bare leaves whose values and ids line up with a table,
/// the depth-first reads are exactly the table and its positions, counted
/// from `off`.
proof fn lemma_flat_leaves<T>(nodes: Seq<Node<T>>, table: Seq<T>, off: int)
    requires
        nodes.len() == table.len(),
        forall|k: int|
            0 <= k < nodes.len() ==> ((#[trigger] nodes[k]) matches Node::Leaf { id, value } && id@
                == off + k && value == table[k]),
    ensures
        leaves_of_nodes(nodes) == table,
        ids_of_nodes(nodes) == Seq::new(table.len(), |i: int| off + i),
    decreases nodes,
{
    if nodes.len() > 0 {
        assert(nodes[0] matches Node::Leaf { id, value } && id@ == off && value == table[0]);
        assert forall|k: int| 0 <= k < nodes.drop_first().len() implies ((#[trigger] nodes
            .drop_first()[k]) matches Node::Leaf { id, value } && id@ == off + 1 + k && value
            == table.drop_first()[k]) by {
            assert(nodes.drop_first()[k] == nodes[k + 1]);
            assert(table.drop_first()[k] == table[k + 1]);
        }
        lemma_flat_leaves(nodes.drop_first(), table.drop_first(), off + 1);
        assert(leaves_of_nodes(nodes) == leaves_of_node(nodes[0]) + leaves_of_nodes(
            nodes.drop_first(),
        ));
        assert(leaves_of_node(nodes[0]) == seq![table[0]]);
        assert(ids_of_nodes(nodes) == ids_of_node(nodes[0]) + ids_of_nodes(nodes.drop_first()));
        assert(ids_of_node(nodes[0]) == seq![off]);
        assert(leaves_of_nodes(nodes) =~= table);
        assert(ids_of_nodes(nodes) =~= Seq::new(table.len(), |i: int| off + i));
    }
}

} // verus!
