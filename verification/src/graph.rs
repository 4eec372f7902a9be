//! The graph: an append-only sequence of nodes and one of edges, with the
//! rules that every state of it obeys, and the primitives that find nodes and
//! attach new ones.

use vstd::prelude::*;
use crate::model::{
    Edge, EdgeKind, Entity, EntityView, Node, NodeData, NodeDataView, NodeKind, NodeView, User,
    UserView,
};

verus! {

/// The mathematical state of a graph.
pub struct GraphView {
    pub nodes: Seq<NodeView>,
    pub edges: Seq<Edge>,
}

/// The views of a sequence of nodes.
pub open spec fn views(nodes: Seq<Node>) -> Seq<NodeView> {
    nodes.map_values(|n: Node| n@)
}

/// The entity that a node holds (arbitrary for a node of another kind).
pub open spec fn entity_of(n: NodeView) -> EntityView {
    n.data->Entity_0
}

/// Two sibling ranges that do not overlap and whose sequence indices order
/// them as their positions do.
pub open spec fn apart(a: EntityView, b: EntityView) -> bool {
    (a.order < b.order && a.end_byte <= b.start_byte) || (b.order < a.order && b.end_byte
        <= a.start_byte)
}

/// A range that lies within `extent`, with a sequence index from 0 up.
pub open spec fn within(extent: (int, int), e: EntityView) -> bool {
    extent.0 <= e.start_byte <= e.end_byte <= extent.1 && 0 <= e.order
}

/// Two range-carrying edges of one kind from one parent.
pub open spec fn siblings(a: Edge, b: Edge) -> bool {
    a.kind == b.kind && a.from == b.from && a.kind.carries_ranges()
}

/// How a node is looked for.
pub enum Locator {
    /// The node of this kind with this identifier.
    Id { kind: NodeKind, id: u128 },
    /// Every node of this kind.
    Kind(NodeKind),
    /// The users with this username.
    Username(String),
    /// The repositories with this owner and name.
    OwnerAndName { owner: String, name: String },
}

pub enum LocatorView {
    Id { kind: NodeKind, id: u128 },
    Kind(NodeKind),
    Username(Seq<char>),
    OwnerAndName { owner: Seq<char>, name: Seq<char> },
}

impl View for Locator {
    type V = LocatorView;

    open spec fn view(&self) -> LocatorView {
        match self {
            Locator::Id { kind, id } => LocatorView::Id { kind: *kind, id: *id },
            Locator::Kind(k) => LocatorView::Kind(*k),
            Locator::Username(u) => LocatorView::Username(u@),
            Locator::OwnerAndName { owner, name } => LocatorView::OwnerAndName {
                owner: owner@,
                name: name@,
            },
        }
    }
}

impl LocatorView {
    /// The kind of the nodes that the locator can pick.
    pub open spec fn kind(self) -> NodeKind {
        match self {
            LocatorView::Id { kind, id } => kind,
            LocatorView::Kind(k) => k,
            LocatorView::Username(_) => NodeKind::User,
            LocatorView::OwnerAndName { owner, name } => NodeKind::Repository,
        }
    }

    /// Whether the locator picks the node `n`.
    pub open spec fn selects(self, n: NodeView) -> bool {
        match self {
            LocatorView::Id { kind, id } => n.id == id && n.data.kind() == kind,
            LocatorView::Kind(k) => n.data.kind() == k,
            LocatorView::Username(u) => n.data is User && n.data->User_0.username == u,
            LocatorView::OwnerAndName { owner, name } => n.data is Repository
                && n.data->Repository_0.owner == owner && n.data->Repository_0.name == name,
        }
    }
}

impl Locator {
    /// The kind of the nodes that the locator can pick.
    pub fn kind(&self) -> (k: NodeKind)
        ensures
            k == self@.kind(),
    {
        match self {
            Locator::Id { kind, id } => *kind,
            Locator::Kind(k) => *k,
            Locator::Username(_) => NodeKind::User,
            Locator::OwnerAndName { owner, name } => NodeKind::Repository,
        }
    }

    /// Whether the locator picks the node `n`.
    pub fn selects(&self, n: &Node) -> (b: bool)
        ensures
            b == self@.selects(n@),
    {
        match self {
            Locator::Id { kind, id } => n.id == *id && n.data.kind() == *kind,
            Locator::Kind(k) => n.data.kind() == *k,
            Locator::Username(u) => match &n.data {
                NodeData::User(user) => user.username == *u,
                _ => false,
            },
            Locator::OwnerAndName { owner, name } => match &n.data {
                NodeData::Repository(repo) => repo.owner == *owner && repo.name == *name,
                _ => false,
            },
        }
    }
}

/// The nodes that a locator picks, in the order of their creation.
pub open spec fn hits(nodes: Seq<NodeView>, loc: LocatorView) -> Seq<NodeView> {
    nodes.filter(|n: NodeView| loc.selects(n))
}

/// The nodes that a sequence of edges reaches, edge by edge.
pub open spec fn targets(nodes: Seq<NodeView>, edges: Seq<Edge>) -> Seq<NodeView> {
    edges.map_values(|e: Edge| nodes[e.to as int])
}

/// The edges of one kind that leave one node, in the order of their creation.
pub open spec fn out_edges(edges: Seq<Edge>, from: u128, kind: EdgeKind) -> Seq<Edge> {
    edges.filter(|e: Edge| e.kind == kind && e.from == from)
}

impl GraphView {
    /// Every node's identifier is its position.
    pub open spec fn ids_ok(self) -> bool {
        forall|i: int| 0 <= i < self.nodes.len() ==> (#[trigger] self.nodes[i]).id == i
    }

    /// The edge joins two nodes of the graph whose kinds are those of the
    /// edge's kind, the parent is older than the child, and a range-carrying
    /// edge reaches a range within its parent's extent.
    pub open spec fn edge_ok(self, e: Edge) -> bool {
        &&& e.from < e.to
        &&& e.to < self.nodes.len()
        &&& self.nodes[e.from as int].data.kind() == e.kind.source()
        &&& self.nodes[e.to as int].data.kind() == e.kind.target()
        &&& e.kind.carries_ranges() ==> within(
            self.nodes[e.from as int].data.extent(),
            entity_of(self.nodes[e.to as int]),
        )
    }

    pub open spec fn edges_ok(self) -> bool {
        forall|k: int| 0 <= k < self.edges.len() ==> self.edge_ok(#[trigger] self.edges[k])
    }

    /// The ranges of any two children of one file, or of one entity, are
    /// apart.
    pub open spec fn spans_ok(self) -> bool {
        forall|i: int, j: int|
            0 <= i < j < self.edges.len() && siblings(
                #[trigger] self.edges[i],
                #[trigger] self.edges[j],
            ) ==> apart(
                entity_of(self.nodes[self.edges[i].to as int]),
                entity_of(self.nodes[self.edges[j].to as int]),
            )
    }

    /// No node has two parents.
    pub open spec fn parents_ok(self) -> bool {
        forall|i: int, j: int|
            0 <= i < j < self.edges.len() ==> (#[trigger] self.edges[i]).to
                != (#[trigger] self.edges[j]).to
    }

    /// The users, in the order of their creation.
    pub open spec fn users(self) -> Seq<NodeView> {
        hits(self.nodes, LocatorView::Kind(NodeKind::User))
    }

    /// There is one edge for each node that is not a user: the edge that
    /// was created with it.
    pub open spec fn counts_ok(self) -> bool {
        self.nodes.len() == self.edges.len() + self.users().len()
    }

    /// The rules that every state of a graph obeys.
    pub open spec fn wf(self) -> bool {
        self.ids_ok() && self.edges_ok() && self.spans_ok() && self.parents_ok()
            && self.counts_ok()
    }

    /// One more node can be given an identifier.
    pub open spec fn has_room(self) -> bool {
        self.nodes.len() <= u128::MAX
    }

    /// The nodes that a locator picks.
    pub open spec fn hits(self, loc: LocatorView) -> Seq<NodeView> {
        hits(self.nodes, loc)
    }

    /// The nodes reached from `from` along edges of `kind`, in the order in
    /// which the edges were created.
    pub open spec fn children(self, from: u128, kind: EdgeKind) -> Seq<NodeView> {
        targets(self.nodes, out_edges(self.edges, from, kind))
    }

    /// The nodes reached along edges of `kind` from each of `parents` in
    /// turn.
    pub open spec fn children_of_all(self, parents: Seq<NodeView>, kind: EdgeKind) -> Seq<
        NodeView,
    >
        decreases parents.len(),
    {
        if parents.len() == 0 {
            Seq::empty()
        } else {
            self.children_of_all(parents.drop_last(), kind) + self.children(
                parents.last().id,
                kind,
            )
        }
    }

    /// No child of `parent` along `kind` stands in the way of `e`.
    pub open spec fn clear_of_siblings(self, parent: u128, kind: EdgeKind, e: EntityView) -> bool {
        forall|k: int|
            0 <= k < self.edges.len() && (#[trigger] self.edges[k]).kind == kind
                && self.edges[k].from == parent ==> apart(
                entity_of(self.nodes[self.edges[k].to as int]),
                e,
            )
    }

    /// A new node holding `data` may be attached under `parent` by an edge of
    /// `kind`: the parent exists, the kinds fit, and a range lies within the
    /// parent's extent and apart from the parent's other children.
    pub open spec fn admits(self, parent: u128, data: NodeDataView, kind: EdgeKind) -> bool {
        &&& parent < self.nodes.len()
        &&& self.nodes[parent as int].data.kind() == kind.source()
        &&& data.kind() == kind.target()
        &&& kind.carries_ranges() ==> within(
            self.nodes[parent as int].data.extent(),
            data->Entity_0,
        ) && self.clear_of_siblings(parent, kind, data->Entity_0)
    }

    /// The state after a user was added.
    pub open spec fn with_user(self, user: UserView) -> GraphView {
        GraphView {
            nodes: self.nodes.push(
                NodeView { id: self.nodes.len() as u128, data: NodeDataView::User(user) },
            ),
            edges: self.edges,
        }
    }

    /// The state after a node holding `data` was added together with the edge
    /// of `kind` that joins `parent` to it.
    pub open spec fn with_child(self, parent: u128, data: NodeDataView, kind: EdgeKind) -> GraphView {
        GraphView {
            nodes: self.nodes.push(NodeView { id: self.nodes.len() as u128, data }),
            edges: self.edges.push(Edge { kind, from: parent, to: self.nodes.len() as u128 }),
        }
    }
}

/// A node that a locator picks is a node of the graph, found at its
/// identifier, and the locator selects it.
pub proof fn lemma_hit_is_node(g: GraphView, loc: LocatorView, k: int)
    requires
        g.ids_ok(),
        0 <= k < g.hits(loc).len(),
    ensures
        g.hits(loc)[k].id < g.nodes.len(),
        g.nodes[g.hits(loc)[k].id as int] == g.hits(loc)[k],
        loc.selects(g.hits(loc)[k]),
        g.hits(loc)[k].data.kind() == loc.kind(),
{
    let pred = |n: NodeView| loc.selects(n);
    g.nodes.lemma_filter_pred(pred, k);
    let hit = g.nodes.filter(pred)[k];
    assert(g.nodes.filter(pred).contains(hit));
    g.nodes.lemma_filter_contains_rev(pred, hit);
    let i = choose|i: int| 0 <= i < g.nodes.len() && g.nodes[i] == hit;
    assert(g.nodes[i].id == i);
}

/// A graph that obeys the rules still does after a node was attached that it
/// admits.
pub proof fn lemma_child_keeps_rules(g: GraphView, parent: u128, data: NodeDataView, kind: EdgeKind)
    requires
        g.wf(),
        g.has_room(),
        g.admits(parent, data, kind),
    ensures
        g.with_child(parent, data, kind).wf(),
{
    let new_g = g.with_child(parent, data, kind);
    let added = NodeView { id: g.nodes.len() as u128, data };
    g.nodes.lemma_filter_push(added, |n: NodeView| LocatorView::Kind(NodeKind::User).selects(n));
    assert forall|k: int| 0 <= k < new_g.edges.len() implies new_g.edge_ok(
        #[trigger] new_g.edges[k],
    ) by {
        if k < g.edges.len() {
            assert(g.edge_ok(g.edges[k]));
        }
    }
    assert forall|i: int, j: int| 0 <= i < j < new_g.edges.len() implies (
    #[trigger] new_g.edges[i]).to != (#[trigger] new_g.edges[j]).to by {
        assert(g.edge_ok(g.edges[i]));
    }
    assert forall|i: int, j: int|
        0 <= i < j < new_g.edges.len() && siblings(
            #[trigger] new_g.edges[i],
            #[trigger] new_g.edges[j],
        ) implies apart(
        entity_of(new_g.nodes[new_g.edges[i].to as int]),
        entity_of(new_g.nodes[new_g.edges[j].to as int]),
    ) by {
        assert(g.edge_ok(g.edges[i]));
        if j < g.edges.len() {
            assert(g.edge_ok(g.edges[j]));
            assert(siblings(g.edges[i], g.edges[j]));
        }
    }
}

/// A graph that obeys the rules still does after a user was added.
pub proof fn lemma_user_keeps_rules(g: GraphView, user: UserView)
    requires
        g.wf(),
        g.has_room(),
    ensures
        g.with_user(user).wf(),
{
    let new_g = g.with_user(user);
    let added = NodeView { id: g.nodes.len() as u128, data: NodeDataView::User(user) };
    g.nodes.lemma_filter_push(added, |n: NodeView| LocatorView::Kind(NodeKind::User).selects(n));
    assert forall|k: int| 0 <= k < new_g.edges.len() implies new_g.edge_ok(
        #[trigger] new_g.edges[k],
    ) by {
        assert(g.edge_ok(g.edges[k]));
    }
}

/// A graph of nodes and edges. Nothing in it is ever changed or removed.
pub struct Graph {
    nodes: Vec<Node>,
    edges: Vec<Edge>,
}

impl View for Graph {
    type V = GraphView;

    closed spec fn view(&self) -> GraphView {
        GraphView { nodes: views(self.nodes@), edges: self.edges@ }
    }
}

impl Clone for Graph {
    /// A copy in the same state: what is done to the copy can be kept by
    /// putting the copy in the place of the graph, or dropped with it.
    fn clone(&self) -> (r: Self)
        ensures
            r@ == self@,
    {
        let mut nodes: Vec<Node> = Vec::new();
        let mut i: usize = 0;
        while i < self.nodes.len()
            invariant
                i <= self.nodes.len(),
                views(nodes@) == views(self.nodes@).take(i as int),
            decreases self.nodes.len() - i,
        {
            let ghost before = nodes@;
            let copy = self.nodes[i].clone();
            nodes.push(copy);
            proof {
                views(self.nodes@).lemma_take_succ_push(i as int);
                assert(views(nodes@) =~= views(before).push(copy@));
            }
            i += 1;
        }
        let mut edges: Vec<Edge> = Vec::new();
        let mut k: usize = 0;
        while k < self.edges.len()
            invariant
                k <= self.edges.len(),
                edges@ == self.edges@.take(k as int),
            decreases self.edges.len() - k,
        {
            proof {
                self.edges@.lemma_take_succ_push(k as int);
            }
            edges.push(self.edges[k]);
            k += 1;
        }
        proof {
            views(self.nodes@).lemma_take_len();
            self.edges@.lemma_take_len();
        }
        Graph { nodes, edges }
    }
}

impl Graph {
    /// The rules that every state of a graph obeys.
    pub open spec fn wf(&self) -> bool {
        self@.wf()
    }

    /// The graph without nodes or edges.
    pub fn new() -> (g: Graph)
        ensures
            g.wf(),
            g@.nodes.len() == 0,
            g@.edges.len() == 0,
    {
        let g = Graph { nodes: Vec::new(), edges: Vec::new() };
        proof {
            g@.nodes.lemma_filter_len(|n: NodeView| LocatorView::Kind(NodeKind::User).selects(n));
        }
        g
    }

    pub fn node_count(&self) -> (n: usize)
        ensures
            n == self@.nodes.len(),
    {
        self.nodes.len()
    }

    pub fn edge_count(&self) -> (n: usize)
        ensures
            n == self@.edges.len(),
    {
        self.edges.len()
    }

    /// The node with the identifier `id`, if there is one.
    pub fn node(&self, id: u128) -> (r: Option<Node>)
        ensures
            match r {
                Some(n) => id < self@.nodes.len() && n@ == self@.nodes[id as int],
                None => id >= self@.nodes.len(),
            },
    {
        if id < self.nodes.len() as u128 {
            Some(self.nodes[id as usize].clone())
        } else {
            None
        }
    }

    /// The `i`-th edge in the order of creation, if there is one.
    pub fn edge(&self, i: usize) -> (r: Option<Edge>)
        ensures
            match r {
                Some(e) => i < self@.edges.len() && e == self@.edges[i as int],
                None => i >= self@.edges.len(),
            },
    {
        if i < self.edges.len() {
            Some(self.edges[i])
        } else {
            None
        }
    }

    /// The nodes that `loc` picks, in the order of their creation.
    pub fn select(&self, loc: &Locator) -> (found: Vec<Node>)
        ensures
            views(found@) == self@.hits(loc@),
    {
        let mut found: Vec<Node> = Vec::new();
        let mut i: usize = 0;
        let ghost all = views(self.nodes@);
        while i < self.nodes.len()
            invariant
                i <= self.nodes.len(),
                all == views(self.nodes@),
                views(found@) == hits(all.take(i as int), loc@),
            decreases self.nodes.len() - i,
        {
            proof {
                all.lemma_take_succ_push(i as int);
                all.take(i as int).lemma_filter_push(all[i as int], |n: NodeView| loc@.selects(n));
            }
            if loc.selects(&self.nodes[i]) {
                let ghost before = found@;
                let copy = self.nodes[i].clone();
                found.push(copy);
                assert(views(found@) =~= views(before).push(copy@));
            }
            i += 1;
        }
        proof {
            all.lemma_take_len();
        }
        found
    }

    /// The nodes reached from `from` along edges of `kind`, in the order in
    /// which the edges were created.
    pub fn children(&self, from: u128, kind: EdgeKind) -> (found: Vec<Node>)
        requires
            self.wf(),
        ensures
            views(found@) == self@.children(from, kind),
    {
        let mut found: Vec<Node> = Vec::new();
        let mut i: usize = 0;
        let ghost g = self@;
        while i < self.edges.len()
            invariant
                i <= self.edges.len(),
                g == self@,
                g.wf(),
                views(found@) == targets(g.nodes, out_edges(g.edges.take(i as int), from, kind)),
            decreases self.edges.len() - i,
        {
            let e = self.edges[i];
            proof {
                g.edges.lemma_take_succ_push(i as int);
                g.edges.take(i as int).lemma_filter_push(
                    e,
                    |e: Edge| e.kind == kind && e.from == from,
                );
                assert(g.edge_ok(g.edges[i as int]));
                assert(g.nodes[e.to as int] == self.nodes@[e.to as int]@);
            }
            if e.kind == kind && e.from == from {
                let ghost before = found@;
                let ghost kept = out_edges(g.edges.take(i as int), from, kind);
                assert(self.nodes@.len() == self.nodes.len());
                let at: usize = e.to as usize;
                let copy = self.nodes[at].clone();
                found.push(copy);
                assert(views(found@) =~= views(before).push(copy@));
                assert(targets(g.nodes, kept.push(e)) =~= targets(g.nodes, kept).push(
                    g.nodes[e.to as int],
                ));
            }
            i += 1;
        }
        proof {
            g.edges.lemma_take_len();
        }
        found
    }

    /// Whether no child of `parent` along `kind` stands in the way of `e`.
    pub fn clear_of_siblings(&self, parent: u128, kind: EdgeKind, e: &Entity) -> (b: bool)
        requires
            self.wf(),
            kind.carries_ranges(),
        ensures
            b == self@.clear_of_siblings(parent, kind, e@),
    {
        let mut i: usize = 0;
        let ghost g = self@;
        while i < self.edges.len()
            invariant
                i <= self.edges.len(),
                g == self@,
                g.wf(),
                kind.carries_ranges(),
                forall|k: int|
                    0 <= k < i && (#[trigger] g.edges[k]).kind == kind && g.edges[k].from
                        == parent ==> apart(entity_of(g.nodes[g.edges[k].to as int]), e@),
            decreases self.edges.len() - i,
        {
            let edge = self.edges[i];
            if edge.kind == kind && edge.from == parent {
                proof {
                    assert(g.edge_ok(g.edges[i as int]));
                    assert(g.nodes[edge.to as int] == self.nodes@[edge.to as int]@);
                }
                assert(self.nodes@.len() == self.nodes.len());
                let at: usize = edge.to as usize;
                let node = &self.nodes[at];
                assert(node@ == g.nodes[edge.to as int]);
                let fits = match &node.data {
                    NodeData::Entity(s) => (s.order < e.order && s.end_byte <= e.start_byte) || (
                    e.order < s.order && e.end_byte <= s.start_byte),
                    _ => false,
                };
                if !fits {
                    return false;
                }
            }
            i += 1;
        }
        true
    }

    /// Adds a user. A user is the one kind of node that has no parent.
    pub fn add_user(&mut self, user: User) -> (id: u128)
        requires
            old(self).wf(),
        ensures
            final(self).wf(),
            final(self)@ == old(self)@.with_user(user@),
            id == old(self)@.nodes.len(),
    {
        let id = self.nodes.len() as u128;
        let ghost before = self.nodes@;
        self.nodes.push(Node { id, data: NodeData::User(user) });
        proof {
            assert(views(self.nodes@) =~= views(before).push(
                NodeView { id, data: NodeDataView::User(user@) },
            ));
            lemma_user_keeps_rules(old(self)@, user@);
        }
        id
    }

    /// Adds a node that holds `data`, together with the edge of `kind` that
    /// joins `parent` to it. Both are added, in one step.
    pub fn add_child(&mut self, parent: u128, data: NodeData, kind: EdgeKind) -> (id: u128)
        requires
            old(self).wf(),
            old(self)@.admits(parent, data@, kind),
        ensures
            final(self).wf(),
            final(self)@ == old(self)@.with_child(parent, data@, kind),
            id == old(self)@.nodes.len(),
    {
        let id = self.nodes.len() as u128;
        let ghost before = self.nodes@;
        self.nodes.push(Node { id, data });
        self.edges.push(Edge { kind, from: parent, to: id });
        proof {
            assert(views(self.nodes@) =~= views(before).push(NodeView { id, data: data@ }));
            lemma_child_keeps_rules(old(self)@, parent, data@, kind);
        }
        id
    }
}

} // verus!
