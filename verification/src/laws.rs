//! What holds of the catalogue's operations taken together.

use vstd::prelude::*;
use crate::decomposer::{in_order, numbered, Piece, Segment};
use crate::graph::{
    apart, entity_of, hits, lemma_child_keeps_rules, lemma_hit_is_node, siblings, within,
    GraphView, LocatorView,
};
use crate::model::{
    Edge, EdgeKind, EmbeddedCodeView, FolderView, NodeDataView, NodeKind, NodeView,
    RepositoryView, UserView,
};
use crate::queries::{attached, link_target, linked, sole, QueryError};

verus! {

/// In a graph whose identifiers are positions, the locator of an identifier
/// picks the node at that position if it has the kind asked for, and nothing
/// else.
pub proof fn lemma_hits_by_id(nodes: Seq<NodeView>, kind: NodeKind, id: u128)
    requires
        forall|i: int| 0 <= i < nodes.len() ==> (#[trigger] nodes[i]).id == i,
    ensures
        hits(nodes, LocatorView::Id { kind, id }) == if id < nodes.len() && nodes[id as int].data.kind()
            == kind {
            seq![nodes[id as int]]
        } else {
            Seq::<NodeView>::empty()
        },
    decreases nodes.len(),
{
    let loc = LocatorView::Id { kind, id };
    let pred = |n: NodeView| loc.selects(n);
    if nodes.len() == 0 {
        nodes.lemma_filter_len(pred);
        assert(nodes.filter(pred) =~= Seq::<NodeView>::empty());
    } else {
        let init = nodes.drop_last();
        let last = nodes.last();
        assert forall|i: int| 0 <= i < init.len() implies (#[trigger] init[i]).id == i by {
            assert(init[i] == nodes[i]);
        }
        lemma_hits_by_id(init, kind, id);
        assert(nodes =~= init.push(last));
        init.lemma_filter_push(last, pred);
        assert(last.id == nodes.len() - 1);
        if id < init.len() {
            assert(init[id as int] == nodes[id as int]);
        }
        if id < nodes.len() && nodes[id as int].data.kind() == kind {
            if id == nodes.len() - 1 {
                assert(Seq::<NodeView>::empty().push(last) =~= seq![nodes[id as int]]);
            }
        }
    }
}

/// The node that a lookup by username gives is a user of the graph with that
/// username.
pub proof fn law_found_user_has_username(g: GraphView, username: Seq<char>, found: NodeView)
    requires
        g.wf(),
        sole(g.hits(LocatorView::Username(username))) == Ok::<NodeView, QueryError>(found),
    ensures
        found.id < g.nodes.len(),
        g.nodes[found.id as int] == found,
        found.data is User,
        found.data->User_0.username == username,
{
    lemma_hit_is_node(g, LocatorView::Username(username), 0);
}

/// The node that a lookup by owner and name gives is a repository of the
/// graph with that owner and name.
pub proof fn law_found_repository_has_owner_and_name(
    g: GraphView,
    owner: Seq<char>,
    name: Seq<char>,
    found: NodeView,
)
    requires
        g.wf(),
        sole(g.hits(LocatorView::OwnerAndName { owner, name })) == Ok::<NodeView, QueryError>(
            found,
        ),
    ensures
        found.id < g.nodes.len(),
        g.nodes[found.id as int] == found,
        found.data is Repository,
        found.data->Repository_0.owner == owner,
        found.data->Repository_0.name == name,
{
    lemma_hit_is_node(g, LocatorView::OwnerAndName { owner, name }, 0);
}

/// A user created under a username that no user had is the one user that the
/// username then finds, with the display name it was given.
pub proof fn law_created_user_is_found(g: GraphView, user: UserView)
    requires
        g.hits(LocatorView::Username(user.username)).len() == 0,
    ensures
        sole(g.with_user(user).hits(LocatorView::Username(user.username)))
            == Ok::<NodeView, QueryError>(
            NodeView { id: g.nodes.len() as u128, data: NodeDataView::User(user) },
        ),
{
    let loc = LocatorView::Username(user.username);
    let node = NodeView { id: g.nodes.len() as u128, data: NodeDataView::User(user) };
    g.nodes.lemma_filter_push(node, |n: NodeView| loc.selects(n));
    assert(g.hits(loc) =~= Seq::<NodeView>::empty());
}

/// Creating a repository for a username that no user has fails with
/// `ParentNotFound` and leaves the graph as it was, so that every lookup
/// finds what it found before.
pub proof fn law_repository_needs_user(
    g: GraphView,
    username: Seq<char>,
    repo: RepositoryView,
    after: GraphView,
    r: Result<NodeView, QueryError>,
    lookup: LocatorView,
)
    requires
        g.hits(LocatorView::Username(username)).len() == 0,
        linked(
            g,
            LocatorView::Username(username),
            NodeDataView::Repository(repo),
            EdgeKind::UserToRepository,
            after,
            r,
        ),
    ensures
        r == Err::<NodeView, QueryError>(QueryError::ParentNotFound),
        after == g,
        sole(after.hits(lookup)) == sole(g.hits(lookup)),
{
}

/// Creating a folder under an owner and name that exactly one repository has
/// adds one node, the folder, and one edge, from that repository to the
/// folder.
pub proof fn law_folder_under_sole_repository(
    g: GraphView,
    owner: Seq<char>,
    name: Seq<char>,
    folder: FolderView,
    after: GraphView,
    r: Result<NodeView, QueryError>,
)
    requires
        g.wf(),
        g.has_room(),
        g.hits(LocatorView::OwnerAndName { owner, name }).len() == 1,
        linked(
            g,
            LocatorView::OwnerAndName { owner, name },
            NodeDataView::Folder(folder),
            EdgeKind::RepositoryToFolder,
            after,
            r,
        ),
    ensures
        r == Ok::<NodeView, QueryError>(
            NodeView { id: g.nodes.len() as u128, data: NodeDataView::Folder(folder) },
        ),
        after.nodes == g.nodes.push(r->Ok_0),
        after.edges == g.edges.push(
            Edge {
                kind: EdgeKind::RepositoryToFolder,
                from: g.hits(LocatorView::OwnerAndName { owner, name })[0].id,
                to: g.nodes.len() as u128,
            },
        ),
        g.hits(LocatorView::OwnerAndName { owner, name })[0].id < g.nodes.len(),
        g.nodes[g.hits(LocatorView::OwnerAndName { owner, name })[0].id as int].data is Repository,
        after.wf(),
{
    let loc = LocatorView::OwnerAndName { owner, name };
    lemma_hit_is_node(g, loc, 0);
    law_writes_only_append(g, loc, NodeDataView::Folder(folder), EdgeKind::RepositoryToFolder, after, r);
}

/// Creating a node under a located parent keeps the rules of the graph, and
/// keeps every node and edge that was there, in its place: nothing is ever
/// changed or removed.
pub proof fn law_writes_only_append(
    g: GraphView,
    loc: LocatorView,
    data: NodeDataView,
    kind: EdgeKind,
    after: GraphView,
    r: Result<NodeView, QueryError>,
)
    requires
        g.wf(),
        g.has_room(),
        data.kind() == kind.target(),
        linked(g, loc, data, kind, after, r) || attached(g, loc, data, kind, after, r),
    ensures
        after.wf(),
        g.nodes.len() <= after.nodes.len(),
        g.edges.len() <= after.edges.len(),
        after.nodes.take(g.nodes.len() as int) == g.nodes,
        after.edges.take(g.edges.len() as int) == g.edges,
{
    match link_target(g, loc, data, kind) {
        Ok(parent) => {
            lemma_hit_is_node(g, loc, 0);
            assert(after == g.with_child(parent, data, kind));
            assert(after.nodes.take(g.nodes.len() as int) =~= g.nodes);
            assert(after.edges.take(g.edges.len() as int) =~= g.edges);
            assert(g.admits(parent, data, kind));
            lemma_child_keeps_rules(g, parent, data, kind);
        },
        Err(_) => {
            assert(after == g);
            assert(after.nodes.take(g.nodes.len() as int) =~= g.nodes);
            assert(after.edges.take(g.edges.len() as int) =~= g.edges);
        },
    }
}

/// The pieces of an accepted segmentation fit under one parent: each lies
/// within the segmented range, and any two are apart, whatever their texts
/// and times of extraction.
pub proof fn law_pieces_fit_together(
    pieces: Seq<Piece>,
    segments: Seq<Segment>,
    lo: int,
    hi: int,
    i: int,
    j: int,
    texts: (Seq<char>, Seq<char>),
    times: (Seq<char>, Seq<char>),
)
    requires
        in_order(segments, lo, hi),
        numbered(pieces, segments),
        0 <= i < j < pieces.len(),
    ensures
        within((lo, hi), pieces[i].as_entity(texts.0, times.0)),
        within((lo, hi), pieces[j].as_entity(texts.1, times.1)),
        apart(pieces[i].as_entity(texts.0, times.0), pieces[j].as_entity(texts.1, times.1)),
{
    assert(lo <= segments[i].start_byte <= segments[i].end_byte <= hi);
    assert(lo <= segments[j].start_byte <= segments[j].end_byte <= hi);
    assert(segments[i].end_byte <= segments[j].start_byte);
    assert(pieces[i].order == i);
    assert(pieces[j].order == j);
}

/// The graph is a forest under its users: every edge runs from an older node
/// to a younger one that is no user, no node has two parents, and there is
/// one edge for each node that is not a user.
pub proof fn law_forest(g: GraphView, i: int, j: int)
    requires
        g.wf(),
        0 <= i < g.edges.len(),
        0 <= j < g.edges.len(),
        i != j,
    ensures
        g.edges[i].from < g.edges[i].to < g.nodes.len(),
        !(g.nodes[g.edges[i].to as int].data is User),
        g.edges[i].to != g.edges[j].to,
        g.nodes.len() - g.users().len() == g.edges.len(),
{
    assert(g.edge_ok(g.edges[i]));
    if i < j {
        assert(g.edges[i].to != g.edges[j].to);
    } else {
        assert(g.edges[j].to != g.edges[i].to);
    }
}

/// Of two children of one file, or of one entity, the one with the lower
/// sequence index ends before the other starts, and starts no later; no two
/// share a sequence index; and each lies within its parent's extent.
pub proof fn law_sibling_ranges(g: GraphView, i: int, j: int)
    requires
        g.wf(),
        0 <= i < g.edges.len(),
        0 <= j < g.edges.len(),
        i != j,
        siblings(g.edges[i], g.edges[j]),
    ensures
        ({
            let a = entity_of(g.nodes[g.edges[i].to as int]);
            let b = entity_of(g.nodes[g.edges[j].to as int]);
            &&& apart(a, b)
            &&& a.order != b.order
            &&& a.order < b.order ==> a.start_byte <= b.start_byte && a.end_byte <= b.start_byte
            &&& within(g.nodes[g.edges[i].from as int].data.extent(), a)
            &&& within(g.nodes[g.edges[i].from as int].data.extent(), b)
        }),
{
    assert(g.edge_ok(g.edges[i]));
    assert(g.edge_ok(g.edges[j]));
    if i < j {
        assert(siblings(g.edges[i], g.edges[j]));
    } else {
        assert(siblings(g.edges[j], g.edges[i]));
    }
}

/// Embedding an entity that exists adds one node with the vector and one
/// edge from the entity to it, and changes no node or edge that was there:
/// an earlier embedding of the entity stays as it was.
pub proof fn law_embedding_adds_and_keeps(
    g: GraphView,
    entity_id: u128,
    code: EmbeddedCodeView,
    after: GraphView,
    r: Result<NodeView, QueryError>,
)
    requires
        g.wf(),
        entity_id < g.nodes.len(),
        g.nodes[entity_id as int].data is Entity,
        attached(
            g,
            LocatorView::Id { kind: NodeKind::Entity, id: entity_id },
            NodeDataView::EmbeddedCode(code),
            EdgeKind::EntityToEmbeddedCode,
            after,
            r,
        ),
    ensures
        r == Ok::<NodeView, QueryError>(
            NodeView { id: g.nodes.len() as u128, data: NodeDataView::EmbeddedCode(code) },
        ),
        after.nodes == g.nodes.push(r->Ok_0),
        after.edges == g.edges.push(
            Edge {
                kind: EdgeKind::EntityToEmbeddedCode,
                from: entity_id,
                to: g.nodes.len() as u128,
            },
        ),
        forall|i: int| 0 <= i < g.nodes.len() ==> after.nodes[i] == g.nodes[i],
        forall|k: int| 0 <= k < g.edges.len() ==> after.edges[k] == g.edges[k],
{
    lemma_hits_by_id(g.nodes, NodeKind::Entity, entity_id);
}

/// Creating a repository succeeds whenever exactly one user has the username,
/// whether or not a repository of that owner and name exists: afterwards one
/// more repository has them.
pub proof fn law_duplicate_repositories_allowed(
    g: GraphView,
    repo: RepositoryView,
    after: GraphView,
    r: Result<NodeView, QueryError>,
)
    requires
        g.hits(LocatorView::Username(repo.owner)).len() == 1,
        linked(
            g,
            LocatorView::Username(repo.owner),
            NodeDataView::Repository(repo),
            EdgeKind::UserToRepository,
            after,
            r,
        ),
    ensures
        r is Ok,
        after.hits(LocatorView::OwnerAndName { owner: repo.owner, name: repo.name }).len()
            == g.hits(LocatorView::OwnerAndName { owner: repo.owner, name: repo.name }).len() + 1,
{
    let loc = LocatorView::OwnerAndName { owner: repo.owner, name: repo.name };
    let node = NodeView { id: g.nodes.len() as u128, data: NodeDataView::Repository(repo) };
    g.nodes.lemma_filter_push(node, |n: NodeView| loc.selects(n));
}

} // verus!
