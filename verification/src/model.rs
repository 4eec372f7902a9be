//! The records of the graph and their mathematical views.
//!
//! A timestamp is held as its RFC 3339 text. The components of an embedding
//! are held as the bit patterns of their IEEE 754 double-precision values.

use vstd::prelude::*;
use vstd::utf8::*;

verus! {

pub struct User {
    pub username: String,
    pub display_name: String,
    pub created_at: String,
}

pub struct Repository {
    pub owner: String,
    pub name: String,
    pub full_name: String,
    pub description: String,
    pub created_at: String,
    pub extracted_at: String,
}

pub struct Folder {
    pub name: String,
    pub extracted_at: String,
}

pub struct File {
    pub name: String,
    pub extension: String,
    pub text: String,
    pub extracted_at: String,
}

pub struct Entity {
    pub entity_type: String,
    pub start_byte: i64,
    pub end_byte: i64,
    pub order: i64,
    pub text: String,
    pub extracted_at: String,
}

pub struct EmbeddedCode {
    pub vector: Vec<u64>,
}

pub struct UserView {
    pub username: Seq<char>,
    pub display_name: Seq<char>,
    pub created_at: Seq<char>,
}

pub struct RepositoryView {
    pub owner: Seq<char>,
    pub name: Seq<char>,
    pub full_name: Seq<char>,
    pub description: Seq<char>,
    pub created_at: Seq<char>,
    pub extracted_at: Seq<char>,
}

pub struct FolderView {
    pub name: Seq<char>,
    pub extracted_at: Seq<char>,
}

pub struct FileView {
    pub name: Seq<char>,
    pub extension: Seq<char>,
    pub text: Seq<char>,
    pub extracted_at: Seq<char>,
}

pub struct EntityView {
    pub entity_type: Seq<char>,
    pub start_byte: int,
    pub end_byte: int,
    pub order: int,
    pub text: Seq<char>,
    pub extracted_at: Seq<char>,
}

pub struct EmbeddedCodeView {
    pub vector: Seq<u64>,
}

impl View for User {
    type V = UserView;

    open spec fn view(&self) -> UserView {
        UserView {
            username: self.username@,
            display_name: self.display_name@,
            created_at: self.created_at@,
        }
    }
}

impl View for Repository {
    type V = RepositoryView;

    open spec fn view(&self) -> RepositoryView {
        RepositoryView {
            owner: self.owner@,
            name: self.name@,
            full_name: self.full_name@,
            description: self.description@,
            created_at: self.created_at@,
            extracted_at: self.extracted_at@,
        }
    }
}

impl View for Folder {
    type V = FolderView;

    open spec fn view(&self) -> FolderView {
        FolderView { name: self.name@, extracted_at: self.extracted_at@ }
    }
}

impl View for File {
    type V = FileView;

    open spec fn view(&self) -> FileView {
        FileView {
            name: self.name@,
            extension: self.extension@,
            text: self.text@,
            extracted_at: self.extracted_at@,
        }
    }
}

impl View for Entity {
    type V = EntityView;

    open spec fn view(&self) -> EntityView {
        EntityView {
            entity_type: self.entity_type@,
            start_byte: self.start_byte as int,
            end_byte: self.end_byte as int,
            order: self.order as int,
            text: self.text@,
            extracted_at: self.extracted_at@,
        }
    }
}

impl View for EmbeddedCode {
    type V = EmbeddedCodeView;

    open spec fn view(&self) -> EmbeddedCodeView {
        EmbeddedCodeView { vector: self.vector@ }
    }
}

impl Clone for User {
    fn clone(&self) -> (r: Self)
        ensures
            r@ == self@,
    {
        User {
            username: self.username.clone(),
            display_name: self.display_name.clone(),
            created_at: self.created_at.clone(),
        }
    }
}

impl Clone for Repository {
    fn clone(&self) -> (r: Self)
        ensures
            r@ == self@,
    {
        Repository {
            owner: self.owner.clone(),
            name: self.name.clone(),
            full_name: self.full_name.clone(),
            description: self.description.clone(),
            created_at: self.created_at.clone(),
            extracted_at: self.extracted_at.clone(),
        }
    }
}

impl Clone for Folder {
    fn clone(&self) -> (r: Self)
        ensures
            r@ == self@,
    {
        Folder { name: self.name.clone(), extracted_at: self.extracted_at.clone() }
    }
}

impl Clone for File {
    fn clone(&self) -> (r: Self)
        ensures
            r@ == self@,
    {
        File {
            name: self.name.clone(),
            extension: self.extension.clone(),
            text: self.text.clone(),
            extracted_at: self.extracted_at.clone(),
        }
    }
}

impl Clone for Entity {
    fn clone(&self) -> (r: Self)
        ensures
            r@ == self@,
    {
        Entity {
            entity_type: self.entity_type.clone(),
            start_byte: self.start_byte,
            end_byte: self.end_byte,
            order: self.order,
            text: self.text.clone(),
            extracted_at: self.extracted_at.clone(),
        }
    }
}

impl Clone for EmbeddedCode {
    fn clone(&self) -> (r: Self)
        ensures
            r@ == self@,
    {
        let mut vector: Vec<u64> = Vec::new();
        let mut i: usize = 0;
        while i < self.vector.len()
            invariant
                i <= self.vector.len(),
                vector@ == self.vector@.take(i as int),
            decreases self.vector.len() - i,
        {
            proof {
                self.vector@.lemma_take_succ_push(i as int);
            }
            vector.push(self.vector[i]);
            i += 1;
        }
        proof {
            self.vector@.lemma_take_len();
        }
        EmbeddedCode { vector }
    }
}

/// The kinds of node.
#[derive(Clone, Copy, Debug, PartialEq, Eq, Structural)]
pub enum NodeKind {
    User,
    Repository,
    Folder,
    File,
    Entity,
    EmbeddedCode,
}

/// What a node holds: the record of its kind.
pub enum NodeData {
    User(User),
    Repository(Repository),
    Folder(Folder),
    File(File),
    Entity(Entity),
    EmbeddedCode(EmbeddedCode),
}

pub enum NodeDataView {
    User(UserView),
    Repository(RepositoryView),
    Folder(FolderView),
    File(FileView),
    Entity(EntityView),
    EmbeddedCode(EmbeddedCodeView),
}

impl NodeDataView {
    pub open spec fn kind(self) -> NodeKind {
        match self {
            NodeDataView::User(_) => NodeKind::User,
            NodeDataView::Repository(_) => NodeKind::Repository,
            NodeDataView::Folder(_) => NodeKind::Folder,
            NodeDataView::File(_) => NodeKind::File,
            NodeDataView::Entity(_) => NodeKind::Entity,
            NodeDataView::EmbeddedCode(_) => NodeKind::EmbeddedCode,
        }
    }

    /// The half-open byte range within which the children of this node must
    /// lie: the whole text of a file, the covered range of an entity, and
    /// nothing for any other node.
    pub open spec fn extent(self) -> (int, int) {
        match self {
            NodeDataView::File(f) => (0, encode_utf8(f.text).len() as int),
            NodeDataView::Entity(e) => (e.start_byte, e.end_byte),
            _ => (0, 0),
        }
    }
}

impl View for NodeData {
    type V = NodeDataView;

    open spec fn view(&self) -> NodeDataView {
        match self {
            NodeData::User(u) => NodeDataView::User(u@),
            NodeData::Repository(r) => NodeDataView::Repository(r@),
            NodeData::Folder(f) => NodeDataView::Folder(f@),
            NodeData::File(f) => NodeDataView::File(f@),
            NodeData::Entity(e) => NodeDataView::Entity(e@),
            NodeData::EmbeddedCode(c) => NodeDataView::EmbeddedCode(c@),
        }
    }
}

impl NodeData {
    pub fn kind(&self) -> (k: NodeKind)
        ensures
            k == self@.kind(),
    {
        match self {
            NodeData::User(_) => NodeKind::User,
            NodeData::Repository(_) => NodeKind::Repository,
            NodeData::Folder(_) => NodeKind::Folder,
            NodeData::File(_) => NodeKind::File,
            NodeData::Entity(_) => NodeKind::Entity,
            NodeData::EmbeddedCode(_) => NodeKind::EmbeddedCode,
        }
    }
}

impl Clone for NodeData {
    fn clone(&self) -> (r: Self)
        ensures
            r@ == self@,
    {
        match self {
            NodeData::User(u) => NodeData::User(u.clone()),
            NodeData::Repository(r) => NodeData::Repository(r.clone()),
            NodeData::Folder(f) => NodeData::Folder(f.clone()),
            NodeData::File(f) => NodeData::File(f.clone()),
            NodeData::Entity(e) => NodeData::Entity(e.clone()),
            NodeData::EmbeddedCode(c) => NodeData::EmbeddedCode(c.clone()),
        }
    }
}

/// A node of the graph: its identifier and its record.
pub struct Node {
    pub id: u128,
    pub data: NodeData,
}

pub struct NodeView {
    pub id: u128,
    pub data: NodeDataView,
}

impl View for Node {
    type V = NodeView;

    open spec fn view(&self) -> NodeView {
        NodeView { id: self.id, data: self.data@ }
    }
}

impl Clone for Node {
    fn clone(&self) -> (r: Self)
        ensures
            r@ == self@,
    {
        Node { id: self.id, data: self.data.clone() }
    }
}

/// The kinds of edge. Each joins a parent of one kind to a child of one kind.
#[derive(Clone, Copy, Debug, PartialEq, Eq, Structural)]
pub enum EdgeKind {
    UserToRepository,
    RepositoryToFolder,
    RepositoryToFile,
    FolderToFolder,
    FolderToFile,
    FileToEntity,
    EntityToEntity,
    EntityToEmbeddedCode,
}

impl EdgeKind {
    /// The kind of node that an edge of this kind leaves.
    pub open spec fn source(self) -> NodeKind {
        match self {
            EdgeKind::UserToRepository => NodeKind::User,
            EdgeKind::RepositoryToFolder => NodeKind::Repository,
            EdgeKind::RepositoryToFile => NodeKind::Repository,
            EdgeKind::FolderToFolder => NodeKind::Folder,
            EdgeKind::FolderToFile => NodeKind::Folder,
            EdgeKind::FileToEntity => NodeKind::File,
            EdgeKind::EntityToEntity => NodeKind::Entity,
            EdgeKind::EntityToEmbeddedCode => NodeKind::Entity,
        }
    }

    /// The kind of node that an edge of this kind reaches.
    pub open spec fn target(self) -> NodeKind {
        match self {
            EdgeKind::UserToRepository => NodeKind::Repository,
            EdgeKind::RepositoryToFolder => NodeKind::Folder,
            EdgeKind::RepositoryToFile => NodeKind::File,
            EdgeKind::FolderToFolder => NodeKind::Folder,
            EdgeKind::FolderToFile => NodeKind::File,
            EdgeKind::FileToEntity => NodeKind::Entity,
            EdgeKind::EntityToEntity => NodeKind::Entity,
            EdgeKind::EntityToEmbeddedCode => NodeKind::EmbeddedCode,
        }
    }

    /// Whether the children along edges of this kind are ranges of their
    /// parent's text.
    pub open spec fn carries_ranges(self) -> bool {
        self == EdgeKind::FileToEntity || self == EdgeKind::EntityToEntity
    }

    pub fn source_kind(self) -> (k: NodeKind)
        ensures
            k == self.source(),
    {
        match self {
            EdgeKind::UserToRepository => NodeKind::User,
            EdgeKind::RepositoryToFolder => NodeKind::Repository,
            EdgeKind::RepositoryToFile => NodeKind::Repository,
            EdgeKind::FolderToFolder => NodeKind::Folder,
            EdgeKind::FolderToFile => NodeKind::Folder,
            EdgeKind::FileToEntity => NodeKind::File,
            EdgeKind::EntityToEntity => NodeKind::Entity,
            EdgeKind::EntityToEmbeddedCode => NodeKind::Entity,
        }
    }

    pub fn target_kind(self) -> (k: NodeKind)
        ensures
            k == self.target(),
    {
        match self {
            EdgeKind::UserToRepository => NodeKind::Repository,
            EdgeKind::RepositoryToFolder => NodeKind::Folder,
            EdgeKind::RepositoryToFile => NodeKind::File,
            EdgeKind::FolderToFolder => NodeKind::Folder,
            EdgeKind::FolderToFile => NodeKind::File,
            EdgeKind::FileToEntity => NodeKind::Entity,
            EdgeKind::EntityToEntity => NodeKind::Entity,
            EdgeKind::EntityToEmbeddedCode => NodeKind::EmbeddedCode,
        }
    }
}

/// A directed edge between two nodes, named by their identifiers.
#[derive(Clone, Copy, Debug, PartialEq, Eq, Structural)]
pub struct Edge {
    pub kind: EdgeKind,
    pub from: u128,
    pub to: u128,
}

/// An edge from a user to a repository, with both records.
pub struct User_to_Repository {
    pub from: User,
    pub to: Repository,
    pub access_type: String,
}

pub struct Repository_to_Folder {
    pub from: Repository,
    pub to: Folder,
}

pub struct Repository_to_File {
    pub from: Repository,
    pub to: File,
}

pub struct Folder_to_Folder {
    pub from: Folder,
    pub to: Folder,
}

pub struct Folder_to_File {
    pub from: Folder,
    pub to: File,
}

pub struct File_to_Entity {
    pub from: File,
    pub to: Entity,
}

pub struct Entity_to_Entity {
    pub from: Entity,
    pub to: Entity,
}

pub struct Entity_to_EmbeddedCode {
    pub from: Entity,
    pub to: EmbeddedCode,
}

} // verus!
