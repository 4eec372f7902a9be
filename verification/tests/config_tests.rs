use codegraph::config::{config, SCHEMA};

#[test]
fn config_has_the_engine_parameters() {
    let c = config().expect("a configuration");
    let v = c.vector_config.expect("a vector configuration");
    assert_eq!(v.m, Some(16));
    assert_eq!(v.ef_construction, Some(128));
    assert_eq!(v.ef_search, Some(768));
    let g = c.graph_config.expect("a graph configuration");
    assert_eq!(g.secondary_indices, Some(Vec::new()));
    assert_eq!(c.db_max_size_gb, Some(10));
    assert_eq!(c.mcp, Some(true));
    assert_eq!(c.bm25, Some(true));
    assert_eq!(c.embedding_model.as_deref(), Some("text-embedding-ada-002"));
    assert_eq!(c.graphvis_node_label.as_deref(), Some(""));
    assert_eq!(c.schema.as_deref(), Some(SCHEMA));
}

#[test]
fn schema_names_every_query() {
    let names = [
        "embedSuperEntity",
        "createSubEntity",
        "getRepositoryById",
        "createSuperFolder",
        "createSuperFile",
        "createRepository",
        "getRepository",
        "createUser",
        "getUser",
        "getAllUsers",
        "createSubFolder",
        "createFile",
        "getUserRepositories",
        "createSuperEntity",
    ];
    for name in names {
        assert!(SCHEMA.contains(&format!("\"name\": \"{}\"", name)));
    }
    assert!(SCHEMA.starts_with("{"));
    assert!(SCHEMA.ends_with("}"));
}
