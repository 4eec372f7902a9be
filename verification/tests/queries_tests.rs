use codegraph::graph::{Graph, Locator};
use codegraph::model::{Edge, EdgeKind, Folder, Node, NodeData, NodeKind};
use codegraph::queries::{
    conclude, createFile, createFileInput, createRepository, createRepositoryInput,
    createSubEntity, createSubEntityInput, createSubFolder, createSubFolderInput,
    createSuperEntity, createSuperEntityInput, createSuperFile, createSuperFileInput,
    createSuperFolder, createSuperFolderInput, createUser, createUserInput, create_linked,
    create_repository_at, create_user_at, embedSuperEntity, embedSuperEntityInput, getAllUsers,
    getAllUsersInput, getRepository, getRepositoryById, getRepositoryByIdInput,
    getRepositoryInput, getUser, getUserInput, getUserRepositories, getUserRepositoriesInput,
    EngineVerdict, QueryError,
};

fn user(g: &mut Graph, username: &str, display_name: &str) -> Node {
    createUser(
        g,
        &createUserInput { username: username.to_string(), display_name: display_name.to_string() },
    )
}

fn repo(g: &mut Graph, username: &str, name: &str) -> Result<Node, QueryError> {
    createRepository(
        g,
        &createRepositoryInput {
            username: username.to_string(),
            repo_name: name.to_string(),
            full_name: format!("{}/{}", username, name),
            description: "a repository".to_string(),
        },
    )
}

fn find_repo(g: &Graph, owner: &str, name: &str) -> Result<Node, QueryError> {
    getRepository(g, &getRepositoryInput { owner: owner.to_string(), repo_name: name.to_string() })
}

fn file(g: &mut Graph, owner: &str, name: &str, text: &str) -> Node {
    createSuperFile(
        g,
        &createSuperFileInput {
            owner: owner.to_string(),
            repo_name: name.to_string(),
            file_name: "main".to_string(),
            extension: "rs".to_string(),
            text: text.to_string(),
        },
    )
    .unwrap()
}

fn top(g: &mut Graph, file_id: u128, start: i64, end: i64, order: i64) -> Result<Node, QueryError> {
    createSuperEntity(
        g,
        &createSuperEntityInput {
            file_id,
            entity_type: "function".to_string(),
            start_byte: start,
            end_byte: end,
            order,
            text: String::new(),
        },
    )
}

fn sub(g: &mut Graph, entity_id: u128, start: i64, end: i64, order: i64) -> Result<Node, QueryError> {
    createSubEntity(
        g,
        &createSubEntityInput {
            entity_id,
            entity_type: "block".to_string(),
            start_byte: start,
            end_byte: end,
            order,
            text: String::new(),
        },
    )
}

fn seeded() -> Graph {
    let mut g = Graph::new();
    user(&mut g, "alice", "Alice A");
    repo(&mut g, "alice", "tool").unwrap();
    g
}

#[test]
fn create_user_then_get_user() {
    let mut g = Graph::new();
    let created = user(&mut g, "alice", "Alice A");
    let found =
        getUser(&g, &getUserInput { username: "alice".to_string() }).expect("one user");
    assert_eq!(found.id, created.id);
    match found.data {
        NodeData::User(u) => {
            assert_eq!(u.username, "alice");
            assert_eq!(u.display_name, "Alice A");
            assert!(chrono::DateTime::parse_from_rfc3339(&u.created_at).is_ok());
        },
        _ => panic!("not a user"),
    }
    assert_eq!(g.node_count(), 1);
    assert_eq!(g.edge_count(), 0);
}

#[test]
fn get_user_that_is_missing_or_double() {
    let mut g = Graph::new();
    let missing = getUser(&g, &getUserInput { username: "bob".to_string() });
    assert!(matches!(missing, Err(QueryError::NotFound)));
    user(&mut g, "bob", "Bob");
    user(&mut g, "bob", "Robert");
    let double = getUser(&g, &getUserInput { username: "bob".to_string() });
    assert!(matches!(double, Err(QueryError::MultipleMatches)));
}

#[test]
fn get_all_users_in_order_of_creation() {
    let mut g = seeded();
    user(&mut g, "bob", "Bob");
    let users = getAllUsers(&g, &getAllUsersInput {});
    let names: Vec<String> = users
        .iter()
        .map(|n| match &n.data {
            NodeData::User(u) => u.username.clone(),
            _ => panic!("not a user"),
        })
        .collect();
    assert_eq!(names, vec!["alice".to_string(), "bob".to_string()]);
    assert_eq!(users[0].id, 0);
    assert_eq!(users[1].id, 2);
}

#[test]
fn create_repository_without_user_fails_and_creates_nothing() {
    let mut g = Graph::new();
    user(&mut g, "alice", "Alice A");
    let r = repo(&mut g, "nobody", "tool");
    assert!(matches!(r, Err(QueryError::ParentNotFound)));
    assert_eq!(g.node_count(), 1);
    assert_eq!(g.edge_count(), 0);
    assert!(matches!(find_repo(&g, "nobody", "tool"), Err(QueryError::NotFound)));
}

#[test]
fn create_repository_links_it_to_its_user() {
    let mut g = Graph::new();
    let alice = user(&mut g, "alice", "Alice A");
    let created = repo(&mut g, "alice", "tool").unwrap();
    assert_eq!(created.id, 1);
    assert_eq!(
        g.edge(0),
        Some(Edge { kind: EdgeKind::UserToRepository, from: alice.id, to: created.id })
    );
    match find_repo(&g, "alice", "tool").unwrap().data {
        NodeData::Repository(r) => {
            assert_eq!(r.owner, "alice");
            assert_eq!(r.name, "tool");
            assert_eq!(r.full_name, "alice/tool");
            assert_eq!(r.description, "a repository");
        },
        _ => panic!("not a repository"),
    }
}

#[test]
fn create_repository_with_given_times() {
    let mut g = Graph::new();
    create_user_at(
        &mut g,
        &createUserInput { username: "alice".to_string(), display_name: "A".to_string() },
        "2024-01-01T00:00:00+00:00".to_string(),
    );
    let created = create_repository_at(
        &mut g,
        &createRepositoryInput {
            username: "alice".to_string(),
            repo_name: "tool".to_string(),
            full_name: "alice/tool".to_string(),
            description: String::new(),
        },
        "2024-02-02T00:00:00+00:00".to_string(),
        "2024-03-03T00:00:00+00:00".to_string(),
    )
    .unwrap();
    match created.data {
        NodeData::Repository(r) => {
            assert_eq!(r.created_at, "2024-02-02T00:00:00+00:00");
            assert_eq!(r.extracted_at, "2024-03-03T00:00:00+00:00");
        },
        _ => panic!("not a repository"),
    }
    match g.node(0).unwrap().data {
        NodeData::User(u) => assert_eq!(u.created_at, "2024-01-01T00:00:00+00:00"),
        _ => panic!("not a user"),
    }
}

#[test]
fn create_repository_under_a_double_user_is_ambiguous() {
    let mut g = Graph::new();
    user(&mut g, "alice", "one");
    user(&mut g, "alice", "two");
    assert!(matches!(repo(&mut g, "alice", "tool"), Err(QueryError::AmbiguousParent)));
    assert_eq!(g.node_count(), 2);
}

#[test]
fn duplicate_repositories_are_both_created() {
    let mut g = Graph::new();
    user(&mut g, "alice", "Alice A");
    let first = repo(&mut g, "alice", "tool").unwrap();
    let second = repo(&mut g, "alice", "tool").unwrap();
    assert_ne!(first.id, second.id);
    assert_eq!(g.node_count(), 3);
    assert_eq!(g.edge_count(), 2);
    assert!(matches!(find_repo(&g, "alice", "tool"), Err(QueryError::MultipleMatches)));
    let folder = createSuperFolder(
        &mut g,
        &createSuperFolderInput {
            owner: "alice".to_string(),
            repo_name: "tool".to_string(),
            folder_name: "src".to_string(),
        },
    );
    assert!(matches!(folder, Err(QueryError::AmbiguousParent)));
    let repos = getUserRepositories(&g, &getUserRepositoriesInput { username: "alice".to_string() });
    let ids: Vec<u128> = repos.iter().map(|n| n.id).collect();
    assert_eq!(ids, vec![first.id, second.id]);
}

#[test]
fn get_repository_by_id() {
    let g = seeded();
    let found = getRepositoryById(&g, &getRepositoryByIdInput { repo_id: 1 }).unwrap();
    assert_eq!(found.id, 1);
    assert!(matches!(found.data, NodeData::Repository(_)));
    // 0 is a user, 7 is no node.
    assert!(matches!(
        getRepositoryById(&g, &getRepositoryByIdInput { repo_id: 0 }),
        Err(QueryError::NotFound)
    ));
    assert!(matches!(
        getRepositoryById(&g, &getRepositoryByIdInput { repo_id: 7 }),
        Err(QueryError::NotFound)
    ));
}

#[test]
fn get_user_repositories() {
    let mut g = seeded();
    user(&mut g, "bob", "Bob");
    repo(&mut g, "bob", "other").unwrap();
    repo(&mut g, "alice", "second").unwrap();
    let repos = getUserRepositories(&g, &getUserRepositoriesInput { username: "alice".to_string() });
    let names: Vec<String> = repos
        .iter()
        .map(|n| match &n.data {
            NodeData::Repository(r) => r.name.clone(),
            _ => panic!("not a repository"),
        })
        .collect();
    assert_eq!(names, vec!["tool".to_string(), "second".to_string()]);
    let none = getUserRepositories(&g, &getUserRepositoriesInput { username: "carol".to_string() });
    assert!(none.is_empty());
}

#[test]
fn create_super_folder_adds_one_node_and_one_edge() {
    let mut g = seeded();
    let folder = createSuperFolder(
        &mut g,
        &createSuperFolderInput {
            owner: "alice".to_string(),
            repo_name: "tool".to_string(),
            folder_name: "src".to_string(),
        },
    )
    .unwrap();
    assert_eq!(g.node_count(), 3);
    assert_eq!(g.edge_count(), 2);
    assert_eq!(folder.id, 2);
    match &folder.data {
        NodeData::Folder(f) => assert_eq!(f.name, "src"),
        _ => panic!("not a folder"),
    }
    assert_eq!(g.edge(1), Some(Edge { kind: EdgeKind::RepositoryToFolder, from: 1, to: 2 }));
    assert_eq!(g.edge(2), None);
}

#[test]
fn create_super_folder_without_repository() {
    let mut g = seeded();
    let r = createSuperFolder(
        &mut g,
        &createSuperFolderInput {
            owner: "alice".to_string(),
            repo_name: "absent".to_string(),
            folder_name: "src".to_string(),
        },
    );
    assert!(matches!(r, Err(QueryError::ParentNotFound)));
    assert_eq!(g.node_count(), 2);
    assert_eq!(g.edge_count(), 1);
}

#[test]
fn create_sub_folder_and_file() {
    let mut g = seeded();
    let src = createSuperFolder(
        &mut g,
        &createSuperFolderInput {
            owner: "alice".to_string(),
            repo_name: "tool".to_string(),
            folder_name: "src".to_string(),
        },
    )
    .unwrap();
    let inner = createSubFolder(
        &mut g,
        &createSubFolderInput { folder_id: src.id, name: "inner".to_string() },
    )
    .unwrap();
    assert_eq!(g.edge(2), Some(Edge { kind: EdgeKind::FolderToFolder, from: src.id, to: inner.id }));
    let f = createFile(
        &mut g,
        &createFileInput {
            folder_id: inner.id,
            name: "lib".to_string(),
            extension: "rs".to_string(),
            text: "pub fn f() {}".to_string(),
        },
    )
    .unwrap();
    assert_eq!(g.edge(3), Some(Edge { kind: EdgeKind::FolderToFile, from: inner.id, to: f.id }));
    match f.data {
        NodeData::File(file) => {
            assert_eq!(file.name, "lib");
            assert_eq!(file.extension, "rs");
            assert_eq!(file.text, "pub fn f() {}");
        },
        _ => panic!("not a file"),
    }
    // A repository is no folder, and 99 is no node.
    let wrong = createSubFolder(&mut g, &createSubFolderInput { folder_id: 1, name: "x".to_string() });
    assert!(matches!(wrong, Err(QueryError::ParentNotFound)));
    let absent = createFile(
        &mut g,
        &createFileInput {
            folder_id: 99,
            name: "x".to_string(),
            extension: "rs".to_string(),
            text: String::new(),
        },
    );
    assert!(matches!(absent, Err(QueryError::ParentNotFound)));
    assert_eq!(g.node_count(), 5);
}

#[test]
fn create_super_file_links_to_repository() {
    let mut g = seeded();
    let f = file(&mut g, "alice", "tool", "fn main() {}");
    assert_eq!(g.edge(1), Some(Edge { kind: EdgeKind::RepositoryToFile, from: 1, to: f.id }));
}

#[test]
fn top_entities_must_fit_the_file_and_each_other() {
    let mut g = seeded();
    // 20 bytes of text.
    let f = file(&mut g, "alice", "tool", "0123456789abcdefghij");
    let first = top(&mut g, f.id, 0, 8, 0).unwrap();
    assert_eq!(g.edge(2), Some(Edge { kind: EdgeKind::FileToEntity, from: f.id, to: first.id }));
    top(&mut g, f.id, 12, 20, 2).unwrap();
    // Between the two, by range and by order.
    top(&mut g, f.id, 8, 12, 1).unwrap();
    let nodes = g.node_count();
    // Overlaps the first.
    assert!(matches!(top(&mut g, f.id, 7, 9, 3), Err(QueryError::RangeViolation)));
    // Past the end of the text.
    assert!(matches!(top(&mut g, f.id, 20, 21, 3), Err(QueryError::RangeViolation)));
    // Before the start.
    assert!(matches!(top(&mut g, f.id, -1, 0, 3), Err(QueryError::RangeViolation)));
    // Reversed.
    assert!(matches!(top(&mut g, f.id, 20, 19, 3), Err(QueryError::RangeViolation)));
    // An order already taken.
    assert!(matches!(top(&mut g, f.id, 20, 20, 2), Err(QueryError::RangeViolation)));
    // A negative order.
    assert!(matches!(top(&mut g, f.id, 0, 0, -1), Err(QueryError::RangeViolation)));
    // No such file; an entity is no file.
    assert!(matches!(top(&mut g, 99, 0, 1, 0), Err(QueryError::ParentNotFound)));
    assert!(matches!(top(&mut g, first.id, 0, 1, 0), Err(QueryError::ParentNotFound)));
    assert_eq!(g.node_count(), nodes);
    // An empty range at the very end, after all others.
    top(&mut g, f.id, 20, 20, 3).unwrap();
}

#[test]
fn text_extent_is_counted_in_bytes() {
    let mut g = seeded();
    // Three characters, six bytes.
    let f = file(&mut g, "alice", "tool", "\u{e9}\u{e9}\u{e9}");
    top(&mut g, f.id, 0, 6, 0).unwrap();
    assert!(matches!(top(&mut g, f.id, 6, 7, 1), Err(QueryError::RangeViolation)));
}

#[test]
fn sub_entities_must_nest_and_stay_apart() {
    let mut g = seeded();
    let f = file(&mut g, "alice", "tool", "0123456789abcdefghij");
    let outer = top(&mut g, f.id, 4, 16, 0).unwrap();
    let inner = sub(&mut g, outer.id, 4, 10, 0).unwrap();
    assert_eq!(
        g.edge(3),
        Some(Edge { kind: EdgeKind::EntityToEntity, from: outer.id, to: inner.id })
    );
    match &inner.data {
        NodeData::Entity(e) => {
            assert_eq!(e.entity_type, "block");
            assert_eq!((e.start_byte, e.end_byte, e.order), (4, 10, 0));
        },
        _ => panic!("not an entity"),
    }
    sub(&mut g, outer.id, 10, 16, 1).unwrap();
    assert!(matches!(sub(&mut g, outer.id, 3, 4, 2), Err(QueryError::RangeViolation)));
    assert!(matches!(sub(&mut g, outer.id, 16, 17, 2), Err(QueryError::RangeViolation)));
    assert!(matches!(sub(&mut g, outer.id, 9, 11, 2), Err(QueryError::RangeViolation)));
    assert!(matches!(sub(&mut g, f.id, 4, 5, 0), Err(QueryError::ParentNotFound)));
    // Children of another parent are no siblings.
    sub(&mut g, inner.id, 4, 10, 0).unwrap();
}

#[test]
fn embedding_adds_one_node_and_one_edge_and_keeps_earlier_ones() {
    let mut g = seeded();
    let f = file(&mut g, "alice", "tool", "0123456789");
    let e = top(&mut g, f.id, 0, 10, 0).unwrap();
    let nodes = g.node_count();
    let edges = g.edge_count();
    let first_vector: Vec<u64> = vec![0.1f64.to_bits(), 0.2f64.to_bits(), 0.3f64.to_bits()];
    let first = embedSuperEntity(
        &mut g,
        &embedSuperEntityInput { entity_id: e.id, vector: first_vector.clone() },
    )
    .unwrap();
    assert_eq!(g.node_count(), nodes + 1);
    assert_eq!(g.edge_count(), edges + 1);
    assert_eq!(
        g.edge(edges),
        Some(Edge { kind: EdgeKind::EntityToEmbeddedCode, from: e.id, to: first.id })
    );
    let second_vector: Vec<u64> = vec![0.9f64.to_bits(), 0.8f64.to_bits()];
    let second = embedSuperEntity(
        &mut g,
        &embedSuperEntityInput { entity_id: e.id, vector: second_vector.clone() },
    )
    .unwrap();
    assert_ne!(first.id, second.id);
    match g.node(first.id).unwrap().data {
        NodeData::EmbeddedCode(c) => {
            assert_eq!(c.vector, first_vector);
            let back: Vec<f64> = c.vector.iter().map(|b| f64::from_bits(*b)).collect();
            assert_eq!(back, vec![0.1, 0.2, 0.3]);
        },
        _ => panic!("not an embedding"),
    }
    match g.node(second.id).unwrap().data {
        NodeData::EmbeddedCode(c) => assert_eq!(c.vector, second_vector),
        _ => panic!("not an embedding"),
    }
    assert_eq!(g.node_count(), nodes + 2);
}

#[test]
fn embedding_a_missing_entity_is_not_found() {
    let mut g = seeded();
    let r = embedSuperEntity(&mut g, &embedSuperEntityInput { entity_id: 42, vector: vec![0] });
    assert!(matches!(r, Err(QueryError::NotFound)));
    // A repository is no entity.
    let r = embedSuperEntity(&mut g, &embedSuperEntityInput { entity_id: 1, vector: vec![0] });
    assert!(matches!(r, Err(QueryError::NotFound)));
    assert_eq!(g.node_count(), 2);
    assert_eq!(g.edge_count(), 1);
}

#[test]
fn create_linked_by_locator() {
    let mut g = seeded();
    let r = create_linked(
        &mut g,
        &Locator::Id { kind: NodeKind::Repository, id: 1 },
        NodeData::Folder(Folder { name: "docs".to_string(), extracted_at: "t".to_string() }),
        EdgeKind::RepositoryToFolder,
    )
    .unwrap();
    assert_eq!(r.id, 2);
    assert_eq!(g.edge(1), Some(Edge { kind: EdgeKind::RepositoryToFolder, from: 1, to: 2 }));
    let children = g.children(1, EdgeKind::RepositoryToFolder);
    assert_eq!(children.len(), 1);
    assert_eq!(children[0].id, 2);
    assert!(g.children(1, EdgeKind::RepositoryToFile).is_empty());
    assert!(g.node(3).is_none());
}

#[test]
fn conclude_maps_the_engine_verdict() {
    let ok: Result<u8, QueryError> = Ok(7);
    assert_eq!(conclude(ok, EngineVerdict::Committed), Ok(7));
    assert_eq!(conclude(ok, EngineVerdict::Conflict), Err(QueryError::WriteConflict));
    assert_eq!(conclude(ok, EngineVerdict::DimensionRejected), Err(QueryError::DimensionMismatch));
    let failed: Result<u8, QueryError> = Err(QueryError::NotFound);
    assert_eq!(conclude(failed, EngineVerdict::Committed), Err(QueryError::NotFound));
    assert_eq!(conclude(failed, EngineVerdict::Conflict), Err(QueryError::NotFound));
}

#[test]
fn a_copy_of_the_graph_is_independent() {
    let mut g = seeded();
    let mut staged = g.clone();
    assert_eq!(staged.node_count(), 2);
    assert_eq!(staged.edge_count(), 1);
    user(&mut staged, "bob", "Bob");
    assert_eq!(staged.node_count(), 3);
    assert_eq!(g.node_count(), 2);
    assert!(matches!(
        getUser(&g, &getUserInput { username: "bob".to_string() }),
        Err(QueryError::NotFound)
    ));
    assert!(getUser(&staged, &getUserInput { username: "bob".to_string() }).is_ok());
    g = staged;
    assert_eq!(g.node_count(), 3);
}

#[test]
fn locators_select_by_kind_and_key() {
    let g = seeded();
    let alice = g.node(0).unwrap();
    let tool = g.node(1).unwrap();
    assert!(Locator::Username("alice".to_string()).selects(&alice));
    assert!(!Locator::Username("alice".to_string()).selects(&tool));
    assert!(!Locator::Username("Alice".to_string()).selects(&alice));
    let by_name = Locator::OwnerAndName { owner: "alice".to_string(), name: "tool".to_string() };
    assert!(by_name.selects(&tool));
    assert!(!by_name.selects(&alice));
    let other = Locator::OwnerAndName { owner: "alice".to_string(), name: "too".to_string() };
    assert!(!other.selects(&tool));
    assert!(Locator::Id { kind: NodeKind::Repository, id: 1 }.selects(&tool));
    assert!(!Locator::Id { kind: NodeKind::User, id: 1 }.selects(&tool));
    assert!(!Locator::Id { kind: NodeKind::Repository, id: 0 }.selects(&tool));
    assert!(Locator::Kind(NodeKind::User).selects(&alice));
    assert_eq!(g.select(&Locator::Kind(NodeKind::Repository)).len(), 1);
    assert_eq!(Locator::Username(String::new()).kind(), NodeKind::User);
    assert_eq!(EdgeKind::FileToEntity.source_kind(), NodeKind::File);
    assert_eq!(EdgeKind::FileToEntity.target_kind(), NodeKind::Entity);
}

#[test]
fn a_parent_of_the_wrong_kind_is_not_found() {
    let mut g = seeded();
    let r = create_linked(
        &mut g,
        &Locator::Username("alice".to_string()),
        NodeData::Folder(Folder { name: "docs".to_string(), extracted_at: "t".to_string() }),
        EdgeKind::RepositoryToFolder,
    );
    assert!(matches!(r, Err(QueryError::ParentNotFound)));
    assert_eq!(g.node_count(), 2);
}

#[test]
fn created_nodes_carry_the_time_of_creation() {
    let mut g = seeded();
    let f = file(&mut g, "alice", "tool", "0123456789");
    let e = top(&mut g, f.id, 0, 4, 0).unwrap();
    for id in [1u128, f.id, e.id] {
        let stamp = match g.node(id).unwrap().data {
            NodeData::Repository(r) => r.extracted_at,
            NodeData::File(f) => f.extracted_at,
            NodeData::Entity(e) => e.extracted_at,
            _ => panic!("no time of extraction"),
        };
        assert!(chrono::DateTime::parse_from_rfc3339(&stamp).is_ok());
    }
}
