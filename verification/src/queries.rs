//! The query catalogue: the named operations on the graph, each one step
//! that either takes effect whole or leaves the graph as it was.

use vstd::prelude::*;
use crate::graph::{lemma_hit_is_node, views, within, Graph, GraphView, Locator, LocatorView};
use crate::model::{
    EdgeKind, EmbeddedCode, EmbeddedCodeView, Entity, EntityView, File, FileView, Folder,
    FolderView, Node, NodeData, NodeDataView, NodeKind, NodeView, Repository, RepositoryView,
    User, UserView,
};

verus! {

/// Why an operation of the catalogue gave no result.
#[derive(Clone, Copy, Debug, PartialEq, Eq, Structural)]
pub enum QueryError {
    /// No node matches where exactly one is required.
    NotFound,
    /// No node matches the locator of the parent.
    ParentNotFound,
    /// Several nodes match where exactly one is required.
    MultipleMatches,
    /// Several nodes match the locator of the parent.
    AmbiguousParent,
    /// The byte range lies outside its parent, overlaps a sibling, or is out
    /// of order among its siblings.
    RangeViolation,
    /// The storage engine could not commit the transaction.
    WriteConflict,
    /// The storage engine refused the dimension of the vector.
    DimensionMismatch,
}

/// What the storage engine said of a transaction.
#[derive(Clone, Copy, Debug, PartialEq, Eq, Structural)]
pub enum EngineVerdict {
    Committed,
    Conflict,
    DimensionRejected,
}

/// The result of an operation, with the node taken by its view.
pub open spec fn outcome(r: Result<Node, QueryError>) -> Result<NodeView, QueryError> {
    match r {
        Ok(n) => Ok(n@),
        Err(e) => Err(e),
    }
}

/// The one node found, where exactly one is required.
pub open spec fn sole(found: Seq<NodeView>) -> Result<NodeView, QueryError> {
    if found.len() == 0 {
        Err(QueryError::NotFound)
    } else if found.len() > 1 {
        Err(QueryError::MultipleMatches)
    } else {
        Ok(found[0])
    }
}

/// The parent under which a new node holding `data` goes: the one node that
/// `loc` picks among the nodes that an edge of `kind` can leave, provided that
/// a range fits under it.
pub open spec fn link_target(
    g: GraphView,
    loc: LocatorView,
    data: NodeDataView,
    kind: EdgeKind,
) -> Result<u128, QueryError> {
    let found = g.hits(loc);
    if loc.kind() != kind.source() || found.len() == 0 {
        Err(QueryError::ParentNotFound)
    } else if found.len() > 1 {
        Err(QueryError::AmbiguousParent)
    } else if kind.carries_ranges() && !(within(found[0].data.extent(), data->Entity_0)
        && g.clear_of_siblings(found[0].id, kind, data->Entity_0)) {
        Err(QueryError::RangeViolation)
    } else {
        Ok(found[0].id)
    }
}

/// What it means to create a node under a located parent: where the parent is
/// found, the graph gains the node and the edge to it and the node is the
/// result; where it is not, the graph stays as it was and the result says why.
pub open spec fn linked(
    before: GraphView,
    loc: LocatorView,
    data: NodeDataView,
    kind: EdgeKind,
    after: GraphView,
    r: Result<NodeView, QueryError>,
) -> bool {
    match link_target(before, loc, data, kind) {
        Ok(parent) => after == before.with_child(parent, data, kind) && r == Ok::<
            NodeView,
            QueryError,
        >(NodeView { id: before.nodes.len() as u128, data }),
        Err(e) => after == before && r == Err::<NodeView, QueryError>(e),
    }
}

/// As `linked`, for an operation that reports a missing parent as `NotFound`.
pub open spec fn attached(
    before: GraphView,
    loc: LocatorView,
    data: NodeDataView,
    kind: EdgeKind,
    after: GraphView,
    r: Result<NodeView, QueryError>,
) -> bool {
    match link_target(before, loc, data, kind) {
        Err(QueryError::ParentNotFound) => after == before && r == Err::<NodeView, QueryError>(
            QueryError::NotFound,
        ),
        _ => linked(before, loc, data, kind, after, r),
    }
}

/// The current time as RFC 3339 text, from `chrono::Utc::now` and
/// `DateTime::to_rfc3339`. Nothing is claimed of the text.
#[verifier::external_body]
fn now_rfc3339() -> (now: String) {
    chrono::Utc::now().to_rfc3339()
}

/// Whether the range of `e` lies within the extent of `parent`, with a
/// sequence index from 0 up.
fn fits_within(parent: &NodeData, e: &Entity) -> (b: bool)
    ensures
        b == within(parent@.extent(), e@),
{
    if e.order < 0 || e.start_byte > e.end_byte {
        return false;
    }
    match parent {
        NodeData::File(f) => {
            let bytes = f.text.as_str().as_bytes();
            e.start_byte >= 0 && e.end_byte as u64 <= bytes.len() as u64
        },
        NodeData::Entity(p) => p.start_byte <= e.start_byte && e.end_byte <= p.end_byte,
        _ => 0 <= e.start_byte && e.end_byte <= 0,
    }
}

/// Creates a node holding `data` under the one node that `parent` picks, and
/// the edge of `kind` between them, in one step. Fails with `ParentNotFound`
/// where no node is picked that such an edge can leave, with `AmbiguousParent` where several are, and with
/// `RangeViolation` where a range does not fit under the parent; the graph is
/// then unchanged.
pub fn create_linked(graph: &mut Graph, parent: &Locator, data: NodeData, kind: EdgeKind) -> (r:
    Result<Node, QueryError>)
    requires
        old(graph).wf(),
        data@.kind() == kind.target(),
    ensures
        final(graph).wf(),
        linked(old(graph)@, parent@, data@, kind, final(graph)@, outcome(r)),
{
    if parent.kind() != kind.source_kind() {
        return Err(QueryError::ParentNotFound);
    }
    let found = graph.select(parent);
    if found.len() == 0 {
        return Err(QueryError::ParentNotFound);
    }
    if found.len() > 1 {
        return Err(QueryError::AmbiguousParent);
    }
    let at = found[0].id;
    proof {
        lemma_hit_is_node(graph@, parent@, 0);
        assert(views(found@)[0] == found@[0]@);
    }
    if kind == EdgeKind::FileToEntity || kind == EdgeKind::EntityToEntity {
        match &data {
            NodeData::Entity(e) => {
                if !fits_within(&found[0].data, e) || !graph.clear_of_siblings(at, kind, e) {
                    return Err(QueryError::RangeViolation);
                }
            },
            _ => {},
        }
    }
    let copy = data.clone();
    let id = graph.add_child(at, data, kind);
    Ok(Node { id, data: copy })
}

/// Turns the staged result of a write into its final one, given what the
/// storage engine said: a staged failure stays, a commit keeps the staged
/// value, a conflict is a `WriteConflict` and a refused dimension a
/// `DimensionMismatch`.
pub fn conclude<T>(staged: Result<T, QueryError>, verdict: EngineVerdict) -> (r: Result<
    T,
    QueryError,
>)
    ensures
        r == match staged {
            Err(e) => Err::<T, QueryError>(e),
            Ok(v) => match verdict {
                EngineVerdict::Committed => Ok::<T, QueryError>(v),
                EngineVerdict::Conflict => Err::<T, QueryError>(QueryError::WriteConflict),
                EngineVerdict::DimensionRejected => Err::<T, QueryError>(
                    QueryError::DimensionMismatch,
                ),
            },
        },
{
    match staged {
        Err(e) => Err(e),
        Ok(v) => match verdict {
            EngineVerdict::Committed => Ok(v),
            EngineVerdict::Conflict => Err(QueryError::WriteConflict),
            EngineVerdict::DimensionRejected => Err(QueryError::DimensionMismatch),
        },
    }
}

/// The one node among `found`, where exactly one is required.
fn only(found: Vec<Node>) -> (r: Result<Node, QueryError>)
    ensures
        outcome(r) == sole(views(found@)),
{
    if found.len() == 0 {
        Err(QueryError::NotFound)
    } else if found.len() > 1 {
        Err(QueryError::MultipleMatches)
    } else {
        let node = found[0].clone();
        proof {
            assert(views(found@)[0] == found@[0]@);
        }
        Ok(node)
    }
}

pub struct createUserInput {
    pub username: String,
    pub display_name: String,
}

impl createUserInput {
    pub open spec fn record(&self, now: Seq<char>) -> UserView {
        UserView { username: self.username@, display_name: self.display_name@, created_at: now }
    }
}

/// Creates a user with the creation time `now`. Always succeeds: a username
/// already in use is no obstacle.
pub fn create_user_at(graph: &mut Graph, input: &createUserInput, now: String) -> (user: Node)
    requires
        old(graph).wf(),
    ensures
        final(graph).wf(),
        final(graph)@ == old(graph)@.with_user(input.record(now@)),
        user@ == (NodeView {
            id: old(graph)@.nodes.len() as u128,
            data: NodeDataView::User(input.record(now@)),
        }),
{
    let data = User {
        username: input.username.clone(),
        display_name: input.display_name.clone(),
        created_at: now,
    };
    let copy = data.clone();
    let id = graph.add_user(data);
    Node { id, data: NodeData::User(copy) }
}

/// Creates a user, created now.
pub fn createUser(graph: &mut Graph, input: &createUserInput) -> (user: Node)
    requires
        old(graph).wf(),
    ensures
        final(graph).wf(),
        exists|now: Seq<char>|
            final(graph)@ == old(graph)@.with_user(#[trigger] input.record(now)) && user@ == (
            NodeView {
                id: old(graph)@.nodes.len() as u128,
                data: NodeDataView::User(input.record(now)),
            }),
{
    let now = now_rfc3339();
    let ghost t = now@;
    let user = create_user_at(graph, input, now);
    assert(final(graph)@ == old(graph)@.with_user(input.record(t)));
    user
}

pub struct getUserInput {
    pub username: String,
}

/// The one user with the given username: `NotFound` where there is none,
/// `MultipleMatches` where there are several.
pub fn getUser(graph: &Graph, input: &getUserInput) -> (r: Result<Node, QueryError>)
    ensures
        outcome(r) == sole(graph@.hits(LocatorView::Username(input.username@))),
{
    only(graph.select(&Locator::Username(input.username.clone())))
}

pub struct getAllUsersInput {}

/// Every user, in the order of creation.
pub fn getAllUsers(graph: &Graph, input: &getAllUsersInput) -> (users: Vec<Node>)
    ensures
        views(users@) == graph@.hits(LocatorView::Kind(NodeKind::User)),
{
    graph.select(&Locator::Kind(NodeKind::User))
}

pub struct createRepositoryInput {
    pub username: String,
    pub repo_name: String,
    pub full_name: String,
    pub description: String,
}

impl createRepositoryInput {
    pub open spec fn parent(&self) -> LocatorView {
        LocatorView::Username(self.username@)
    }

    pub open spec fn record(&self, created_at: Seq<char>, extracted_at: Seq<char>) -> NodeDataView {
        NodeDataView::Repository(
            RepositoryView {
                owner: self.username@,
                name: self.repo_name@,
                full_name: self.full_name@,
                description: self.description@,
                created_at,
                extracted_at,
            },
        )
    }
}

/// Creates a repository owned by the one user with the given username, with
/// the given times. A repository of the same owner and name is no obstacle.
pub fn create_repository_at(
    graph: &mut Graph,
    input: &createRepositoryInput,
    created_at: String,
    extracted_at: String,
) -> (r: Result<Node, QueryError>)
    requires
        old(graph).wf(),
    ensures
        final(graph).wf(),
        linked(
            old(graph)@,
            input.parent(),
            input.record(created_at@, extracted_at@),
            EdgeKind::UserToRepository,
            final(graph)@,
            outcome(r),
        ),
{
    let parent = Locator::Username(input.username.clone());
    let data = NodeData::Repository(
        Repository {
            owner: input.username.clone(),
            name: input.repo_name.clone(),
            full_name: input.full_name.clone(),
            description: input.description.clone(),
            created_at,
            extracted_at,
        },
    );
    create_linked(graph, &parent, data, EdgeKind::UserToRepository)
}

/// Creates a repository owned by the one user with the given username,
/// created and extracted now.
pub fn createRepository(graph: &mut Graph, input: &createRepositoryInput) -> (r: Result<
    Node,
    QueryError,
>)
    requires
        old(graph).wf(),
    ensures
        final(graph).wf(),
        exists|created_at: Seq<char>, extracted_at: Seq<char>|
            linked(
                old(graph)@,
                input.parent(),
                #[trigger] input.record(created_at, extracted_at),
                EdgeKind::UserToRepository,
                final(graph)@,
                outcome(r),
            ),
{
    let created_at = now_rfc3339();
    let extracted_at = now_rfc3339();
    let ghost c = created_at@;
    let ghost x = extracted_at@;
    let r = create_repository_at(graph, input, created_at, extracted_at);
    assert(linked(
        old(graph)@,
        input.parent(),
        input.record(c, x),
        EdgeKind::UserToRepository,
        final(graph)@,
        outcome(r),
    ));
    r
}

pub struct getRepositoryInput {
    pub owner: String,
    pub repo_name: String,
}

impl getRepositoryInput {
    pub open spec fn locator(&self) -> LocatorView {
        LocatorView::OwnerAndName { owner: self.owner@, name: self.repo_name@ }
    }
}

/// The one repository with the given owner and name: `NotFound` where there
/// is none, `MultipleMatches` where there are several.
pub fn getRepository(graph: &Graph, input: &getRepositoryInput) -> (r: Result<Node, QueryError>)
    ensures
        outcome(r) == sole(graph@.hits(input.locator())),
{
    only(
        graph.select(
            &Locator::OwnerAndName { owner: input.owner.clone(), name: input.repo_name.clone() },
        ),
    )
}

pub struct getRepositoryByIdInput {
    pub repo_id: u128,
}

/// The repository with the given identifier: `NotFound` where no repository
/// has it.
pub fn getRepositoryById(graph: &Graph, input: &getRepositoryByIdInput) -> (r: Result<
    Node,
    QueryError,
>)
    ensures
        outcome(r) == sole(
            graph@.hits(LocatorView::Id { kind: NodeKind::Repository, id: input.repo_id }),
        ),
{
    only(graph.select(&Locator::Id { kind: NodeKind::Repository, id: input.repo_id }))
}

pub struct getUserRepositoriesInput {
    pub username: String,
}

/// The repositories of every user with the given username: user by user in
/// the order of creation, and for each user in the order in which the
/// repositories were created.
pub fn getUserRepositories(graph: &Graph, input: &getUserRepositoriesInput) -> (repos: Vec<Node>)
    requires
        graph.wf(),
    ensures
        views(repos@) == graph@.children_of_all(
            graph@.hits(LocatorView::Username(input.username@)),
            EdgeKind::UserToRepository,
        ),
{
    let users = graph.select(&Locator::Username(input.username.clone()));
    let mut repos: Vec<Node> = Vec::new();
    let mut i: usize = 0;
    let ghost owners = views(users@);
    while i < users.len()
        invariant
            i <= users.len(),
            graph.wf(),
            owners == views(users@),
            views(repos@) == graph@.children_of_all(
                owners.take(i as int),
                EdgeKind::UserToRepository,
            ),
        decreases users.len() - i,
    {
        let ghost before = repos@;
        let mut more = graph.children(users[i].id, EdgeKind::UserToRepository);
        let ghost added = more@;
        repos.append(&mut more);
        proof {
            assert(owners.take(i + 1).drop_last() == owners.take(i as int));
            assert(owners.take(i + 1).last() == users@[i as int]@);
            assert(views(repos@) =~= views(before) + views(added));
        }
        i += 1;
    }
    proof {
        owners.lemma_take_len();
    }
    repos
}

pub struct createSuperFolderInput {
    pub owner: String,
    pub repo_name: String,
    pub folder_name: String,
}

impl createSuperFolderInput {
    pub open spec fn parent(&self) -> LocatorView {
        LocatorView::OwnerAndName { owner: self.owner@, name: self.repo_name@ }
    }

    pub open spec fn record(&self, now: Seq<char>) -> NodeDataView {
        NodeDataView::Folder(FolderView { name: self.folder_name@, extracted_at: now })
    }
}

/// Creates a folder at the top of the one repository with the given owner and
/// name, extracted at `now`.
pub fn create_super_folder_at(graph: &mut Graph, input: &createSuperFolderInput, now: String) -> (r:
    Result<Node, QueryError>)
    requires
        old(graph).wf(),
    ensures
        final(graph).wf(),
        linked(
            old(graph)@,
            input.parent(),
            input.record(now@),
            EdgeKind::RepositoryToFolder,
            final(graph)@,
            outcome(r),
        ),
{
    let parent = Locator::OwnerAndName {
        owner: input.owner.clone(),
        name: input.repo_name.clone(),
    };
    let data = NodeData::Folder(Folder { name: input.folder_name.clone(), extracted_at: now });
    create_linked(graph, &parent, data, EdgeKind::RepositoryToFolder)
}

/// Creates a folder at the top of the one repository with the given owner and
/// name, extracted now.
pub fn createSuperFolder(graph: &mut Graph, input: &createSuperFolderInput) -> (r: Result<
    Node,
    QueryError,
>)
    requires
        old(graph).wf(),
    ensures
        final(graph).wf(),
        exists|now: Seq<char>|
            linked(
                old(graph)@,
                input.parent(),
                #[trigger] input.record(now),
                EdgeKind::RepositoryToFolder,
                final(graph)@,
                outcome(r),
            ),
{
    let now = now_rfc3339();
    let ghost t = now@;
    let r = create_super_folder_at(graph, input, now);
    assert(linked(
        old(graph)@,
        input.parent(),
        input.record(t),
        EdgeKind::RepositoryToFolder,
        final(graph)@,
        outcome(r),
    ));
    r
}

pub struct createSubFolderInput {
    pub folder_id: u128,
    pub name: String,
}

impl createSubFolderInput {
    pub open spec fn parent(&self) -> LocatorView {
        LocatorView::Id { kind: NodeKind::Folder, id: self.folder_id }
    }

    pub open spec fn record(&self, now: Seq<char>) -> NodeDataView {
        NodeDataView::Folder(FolderView { name: self.name@, extracted_at: now })
    }
}

/// Creates a folder inside the folder with the given identifier, extracted at
/// `now`.
pub fn create_sub_folder_at(graph: &mut Graph, input: &createSubFolderInput, now: String) -> (r:
    Result<Node, QueryError>)
    requires
        old(graph).wf(),
    ensures
        final(graph).wf(),
        linked(
            old(graph)@,
            input.parent(),
            input.record(now@),
            EdgeKind::FolderToFolder,
            final(graph)@,
            outcome(r),
        ),
{
    let parent = Locator::Id { kind: NodeKind::Folder, id: input.folder_id };
    let data = NodeData::Folder(Folder { name: input.name.clone(), extracted_at: now });
    create_linked(graph, &parent, data, EdgeKind::FolderToFolder)
}

/// Creates a folder inside the folder with the given identifier, extracted
/// now.
pub fn createSubFolder(graph: &mut Graph, input: &createSubFolderInput) -> (r: Result<
    Node,
    QueryError,
>)
    requires
        old(graph).wf(),
    ensures
        final(graph).wf(),
        exists|now: Seq<char>|
            linked(
                old(graph)@,
                input.parent(),
                #[trigger] input.record(now),
                EdgeKind::FolderToFolder,
                final(graph)@,
                outcome(r),
            ),
{
    let now = now_rfc3339();
    let ghost t = now@;
    let r = create_sub_folder_at(graph, input, now);
    assert(linked(
        old(graph)@,
        input.parent(),
        input.record(t),
        EdgeKind::FolderToFolder,
        final(graph)@,
        outcome(r),
    ));
    r
}

pub struct createSuperFileInput {
    pub owner: String,
    pub repo_name: String,
    pub file_name: String,
    pub extension: String,
    pub text: String,
}

impl createSuperFileInput {
    pub open spec fn parent(&self) -> LocatorView {
        LocatorView::OwnerAndName { owner: self.owner@, name: self.repo_name@ }
    }

    pub open spec fn record(&self, now: Seq<char>) -> NodeDataView {
        NodeDataView::File(
            FileView {
                name: self.file_name@,
                extension: self.extension@,
                text: self.text@,
                extracted_at: now,
            },
        )
    }
}

/// Creates a file at the top of the one repository with the given owner and
/// name, extracted at `now`.
pub fn create_super_file_at(graph: &mut Graph, input: &createSuperFileInput, now: String) -> (r:
    Result<Node, QueryError>)
    requires
        old(graph).wf(),
    ensures
        final(graph).wf(),
        linked(
            old(graph)@,
            input.parent(),
            input.record(now@),
            EdgeKind::RepositoryToFile,
            final(graph)@,
            outcome(r),
        ),
{
    let parent = Locator::OwnerAndName {
        owner: input.owner.clone(),
        name: input.repo_name.clone(),
    };
    let data = NodeData::File(
        File {
            name: input.file_name.clone(),
            extension: input.extension.clone(),
            text: input.text.clone(),
            extracted_at: now,
        },
    );
    create_linked(graph, &parent, data, EdgeKind::RepositoryToFile)
}

/// Creates a file at the top of the one repository with the given owner and
/// name, extracted now.
pub fn createSuperFile(graph: &mut Graph, input: &createSuperFileInput) -> (r: Result<
    Node,
    QueryError,
>)
    requires
        old(graph).wf(),
    ensures
        final(graph).wf(),
        exists|now: Seq<char>|
            linked(
                old(graph)@,
                input.parent(),
                #[trigger] input.record(now),
                EdgeKind::RepositoryToFile,
                final(graph)@,
                outcome(r),
            ),
{
    let now = now_rfc3339();
    let ghost t = now@;
    let r = create_super_file_at(graph, input, now);
    assert(linked(
        old(graph)@,
        input.parent(),
        input.record(t),
        EdgeKind::RepositoryToFile,
        final(graph)@,
        outcome(r),
    ));
    r
}

pub struct createFileInput {
    pub folder_id: u128,
    pub name: String,
    pub extension: String,
    pub text: String,
}

impl createFileInput {
    pub open spec fn parent(&self) -> LocatorView {
        LocatorView::Id { kind: NodeKind::Folder, id: self.folder_id }
    }

    pub open spec fn record(&self, now: Seq<char>) -> NodeDataView {
        NodeDataView::File(
            FileView {
                name: self.name@,
                extension: self.extension@,
                text: self.text@,
                extracted_at: now,
            },
        )
    }
}

/// Creates a file inside the folder with the given identifier, extracted at
/// `now`.
pub fn create_file_at(graph: &mut Graph, input: &createFileInput, now: String) -> (r: Result<
    Node,
    QueryError,
>)
    requires
        old(graph).wf(),
    ensures
        final(graph).wf(),
        linked(
            old(graph)@,
            input.parent(),
            input.record(now@),
            EdgeKind::FolderToFile,
            final(graph)@,
            outcome(r),
        ),
{
    let parent = Locator::Id { kind: NodeKind::Folder, id: input.folder_id };
    let data = NodeData::File(
        File {
            name: input.name.clone(),
            extension: input.extension.clone(),
            text: input.text.clone(),
            extracted_at: now,
        },
    );
    create_linked(graph, &parent, data, EdgeKind::FolderToFile)
}

/// Creates a file inside the folder with the given identifier, extracted now.
pub fn createFile(graph: &mut Graph, input: &createFileInput) -> (r: Result<Node, QueryError>)
    requires
        old(graph).wf(),
    ensures
        final(graph).wf(),
        exists|now: Seq<char>|
            linked(
                old(graph)@,
                input.parent(),
                #[trigger] input.record(now),
                EdgeKind::FolderToFile,
                final(graph)@,
                outcome(r),
            ),
{
    let now = now_rfc3339();
    let ghost t = now@;
    let r = create_file_at(graph, input, now);
    assert(linked(
        old(graph)@,
        input.parent(),
        input.record(t),
        EdgeKind::FolderToFile,
        final(graph)@,
        outcome(r),
    ));
    r
}

pub struct createSuperEntityInput {
    pub file_id: u128,
    pub entity_type: String,
    pub start_byte: i64,
    pub end_byte: i64,
    pub order: i64,
    pub text: String,
}

impl createSuperEntityInput {
    pub open spec fn parent(&self) -> LocatorView {
        LocatorView::Id { kind: NodeKind::File, id: self.file_id }
    }

    pub open spec fn record(&self, now: Seq<char>) -> NodeDataView {
        NodeDataView::Entity(
            EntityView {
                entity_type: self.entity_type@,
                start_byte: self.start_byte as int,
                end_byte: self.end_byte as int,
                order: self.order as int,
                text: self.text@,
                extracted_at: now,
            },
        )
    }
}

/// Creates an entity at the top of the file with the given identifier,
/// extracted at `now`. Its range must lie within the file's text and apart
/// from the file's other top entities, or the result is `RangeViolation`.
pub fn create_super_entity_at(graph: &mut Graph, input: &createSuperEntityInput, now: String) -> (r:
    Result<Node, QueryError>)
    requires
        old(graph).wf(),
    ensures
        final(graph).wf(),
        linked(
            old(graph)@,
            input.parent(),
            input.record(now@),
            EdgeKind::FileToEntity,
            final(graph)@,
            outcome(r),
        ),
{
    let parent = Locator::Id { kind: NodeKind::File, id: input.file_id };
    let data = NodeData::Entity(
        Entity {
            entity_type: input.entity_type.clone(),
            start_byte: input.start_byte,
            end_byte: input.end_byte,
            order: input.order,
            text: input.text.clone(),
            extracted_at: now,
        },
    );
    create_linked(graph, &parent, data, EdgeKind::FileToEntity)
}

/// Creates an entity at the top of the file with the given identifier,
/// extracted now.
pub fn createSuperEntity(graph: &mut Graph, input: &createSuperEntityInput) -> (r: Result<
    Node,
    QueryError,
>)
    requires
        old(graph).wf(),
    ensures
        final(graph).wf(),
        exists|now: Seq<char>|
            linked(
                old(graph)@,
                input.parent(),
                #[trigger] input.record(now),
                EdgeKind::FileToEntity,
                final(graph)@,
                outcome(r),
            ),
{
    let now = now_rfc3339();
    let ghost t = now@;
    let r = create_super_entity_at(graph, input, now);
    assert(linked(
        old(graph)@,
        input.parent(),
        input.record(t),
        EdgeKind::FileToEntity,
        final(graph)@,
        outcome(r),
    ));
    r
}

pub struct createSubEntityInput {
    pub entity_id: u128,
    pub entity_type: String,
    pub start_byte: i64,
    pub end_byte: i64,
    pub order: i64,
    pub text: String,
}

impl createSubEntityInput {
    pub open spec fn parent(&self) -> LocatorView {
        LocatorView::Id { kind: NodeKind::Entity, id: self.entity_id }
    }

    pub open spec fn record(&self, now: Seq<char>) -> NodeDataView {
        NodeDataView::Entity(
            EntityView {
                entity_type: self.entity_type@,
                start_byte: self.start_byte as int,
                end_byte: self.end_byte as int,
                order: self.order as int,
                text: self.text@,
                extracted_at: now,
            },
        )
    }
}

/// Creates an entity inside the entity with the given identifier, extracted
/// at `now`. Its range must lie within the parent's range and apart from the
/// parent's other children, or the result is `RangeViolation`.
pub fn create_sub_entity_at(graph: &mut Graph, input: &createSubEntityInput, now: String) -> (r:
    Result<Node, QueryError>)
    requires
        old(graph).wf(),
    ensures
        final(graph).wf(),
        linked(
            old(graph)@,
            input.parent(),
            input.record(now@),
            EdgeKind::EntityToEntity,
            final(graph)@,
            outcome(r),
        ),
{
    let parent = Locator::Id { kind: NodeKind::Entity, id: input.entity_id };
    let data = NodeData::Entity(
        Entity {
            entity_type: input.entity_type.clone(),
            start_byte: input.start_byte,
            end_byte: input.end_byte,
            order: input.order,
            text: input.text.clone(),
            extracted_at: now,
        },
    );
    create_linked(graph, &parent, data, EdgeKind::EntityToEntity)
}

/// Creates an entity inside the entity with the given identifier, extracted
/// now.
pub fn createSubEntity(graph: &mut Graph, input: &createSubEntityInput) -> (r: Result<
    Node,
    QueryError,
>)
    requires
        old(graph).wf(),
    ensures
        final(graph).wf(),
        exists|now: Seq<char>|
            linked(
                old(graph)@,
                input.parent(),
                #[trigger] input.record(now),
                EdgeKind::EntityToEntity,
                final(graph)@,
                outcome(r),
            ),
{
    let now = now_rfc3339();
    let ghost t = now@;
    let r = create_sub_entity_at(graph, input, now);
    assert(linked(
        old(graph)@,
        input.parent(),
        input.record(t),
        EdgeKind::EntityToEntity,
        final(graph)@,
        outcome(r),
    ));
    r
}

pub struct embedSuperEntityInput {
    pub entity_id: u128,
    /// The components, each as the bit pattern of its value.
    pub vector: Vec<u64>,
}

impl embedSuperEntityInput {
    pub open spec fn parent(&self) -> LocatorView {
        LocatorView::Id { kind: NodeKind::Entity, id: self.entity_id }
    }

    pub open spec fn record(&self) -> NodeDataView {
        NodeDataView::EmbeddedCode(EmbeddedCodeView { vector: self.vector@ })
    }
}

/// Attaches an embedding to the entity with the given identifier: a new
/// node with the vector, and the edge from the entity to it. Fails with
/// `NotFound` where no entity has the identifier. Earlier embeddings of the
/// entity stay as they are. The dimension of the vector is not examined.
pub fn embedSuperEntity(graph: &mut Graph, input: &embedSuperEntityInput) -> (r: Result<
    Node,
    QueryError,
>)
    requires
        old(graph).wf(),
    ensures
        final(graph).wf(),
        attached(
            old(graph)@,
            input.parent(),
            input.record(),
            EdgeKind::EntityToEmbeddedCode,
            final(graph)@,
            outcome(r),
        ),
{
    let parent = Locator::Id { kind: NodeKind::Entity, id: input.entity_id };
    let mut code = EmbeddedCode { vector: Vec::new() };
    let mut i: usize = 0;
    while i < input.vector.len()
        invariant
            i <= input.vector.len(),
            code.vector@ == input.vector@.take(i as int),
        decreases input.vector.len() - i,
    {
        proof {
            input.vector@.lemma_take_succ_push(i as int);
        }
        code.vector.push(input.vector[i]);
        i += 1;
    }
    proof {
        input.vector@.lemma_take_len();
    }
    match create_linked(graph, &parent, NodeData::EmbeddedCode(code), EdgeKind::EntityToEmbeddedCode) {
        Err(QueryError::ParentNotFound) => Err(QueryError::NotFound),
        other => other,
    }
}

} // verus!
