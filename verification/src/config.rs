//! The configuration that the graph engine is started with.

use vstd::prelude::*;
use vstd::string::*;

verus! {

/// The parameters of the vector index.
pub struct VectorConfig {
    pub m: Option<usize>,
    pub ef_construction: Option<usize>,
    pub ef_search: Option<usize>,
}

/// The parameters of the graph store.
pub struct GraphConfig {
    pub secondary_indices: Option<Vec<String>>,
}

/// The configuration of an engine.
pub struct Config {
    pub vector_config: Option<VectorConfig>,
    pub graph_config: Option<GraphConfig>,
    pub db_max_size_gb: Option<usize>,
    pub mcp: Option<bool>,
    pub bm25: Option<bool>,
    pub schema: Option<String>,
    pub embedding_model: Option<String>,
    pub graphvis_node_label: Option<String>,
}

/// The schema of the graph and the catalogue of its queries, as the engine
/// reads them.
pub const SCHEMA: &'static str = r#"{
  "schema": {
    "nodes": [
      {
        "name": "User",
        "properties": {
          "username": "String",
          "created_at": "Date",
          "id": "ID",
          "display_name": "String"
        }
      },
      {
        "name": "Repository",
        "properties": {
          "full_name": "String",
          "created_at": "Date",
          "extracted_at": "Date",
          "owner": "String",
          "name": "String",
          "id": "ID",
          "description": "String"
        }
      },
      {
        "name": "Folder",
        "properties": {
          "id": "ID",
          "name": "String",
          "extracted_at": "Date"
        }
      },
      {
        "name": "Entity",
        "properties": {
          "order": "I64",
          "end_byte": "I64",
          "text": "String",
          "id": "ID",
          "start_byte": "I64",
          "extracted_at": "Date",
          "entity_type": "String"
        }
      },
      {
        "name": "File",
        "properties": {
          "extracted_at": "Date",
          "name": "String",
          "extension": "String",
          "text": "String",
          "id": "ID"
        }
      }
    ],
    "vectors": [
      {
        "name": "EmbeddedCode",
        "properties": {
          "id": "ID",
          "vector": "Array(F64)"
        }
      }
    ],
    "edges": [
      {
        "name": "Repository_to_File",
        "from": "Repository",
        "to": "File",
        "properties": {}
      },
      {
        "name": "Entity_to_Entity",
        "from": "Entity",
        "to": "Entity",
        "properties": {}
      },
      {
        "name": "Repository_to_Folder",
        "from": "Repository",
        "to": "Folder",
        "properties": {}
      },
      {
        "name": "Folder_to_Folder",
        "from": "Folder",
        "to": "Folder",
        "properties": {}
      },
      {
        "name": "Entity_to_EmbeddedCode",
        "from": "Entity",
        "to": "EmbeddedCode",
        "properties": {}
      },
      {
        "name": "User_to_Repository",
        "from": "User",
        "to": "Repository",
        "properties": {
          "access_type": "String"
        }
      },
      {
        "name": "Folder_to_File",
        "from": "Folder",
        "to": "File",
        "properties": {}
      },
      {
        "name": "File_to_Entity",
        "from": "File",
        "to": "Entity",
        "properties": {}
      }
    ]
  },
  "queries": [
    {
      "name": "embedSuperEntity",
      "parameters": {
        "entity_id": "ID",
        "vector": "Array(F64)"
      },
      "returns": [
        "embedded_code"
      ]
    },
    {
      "name": "createSubEntity",
      "parameters": {
        "entity_id": "ID",
        "entity_type": "String",
        "order": "I64",
        "text": "String",
        "start_byte": "I64",
        "end_byte": "I64"
      },
      "returns": [
        "entity"
      ]
    },
    {
      "name": "getRepositoryById",
      "parameters": {
        "repo_id": "ID"
      },
      "returns": [
        "repo"
      ]
    },
    {
      "name": "createSuperFolder",
      "parameters": {
        "repo_name": "String",
        "owner": "String",
        "folder_name": "String"
      },
      "returns": [
        "folder"
      ]
    },
    {
      "name": "createSuperFile",
      "parameters": {
        "owner": "String",
        "repo_name": "String",
        "file_name": "String",
        "extension": "String",
        "text": "String"
      },
      "returns": [
        "file"
      ]
    },
    {
      "name": "createRepository",
      "parameters": {
        "username": "String",
        "full_name": "String",
        "repo_name": "String",
        "description": "String"
      },
      "returns": [
        "repo"
      ]
    },
    {
      "name": "getRepository",
      "parameters": {
        "repo_name": "String",
        "owner": "String"
      },
      "returns": [
        "repo"
      ]
    },
    {
      "name": "createUser",
      "parameters": {
        "display_name": "String",
        "username": "String"
      },
      "returns": [
        "user"
      ]
    },
    {
      "name": "getUser",
      "parameters": {
        "username": "String"
      },
      "returns": [
        "user"
      ]
    },
    {
      "name": "getAllUsers",
      "parameters": {},
      "returns": [
        "users"
      ]
    },
    {
      "name": "createSubFolder",
      "parameters": {
        "name": "String",
        "folder_id": "ID"
      },
      "returns": [
        "subfolder"
      ]
    },
    {
      "name": "createFile",
      "parameters": {
        "text": "String",
        "name": "String",
        "extension": "String",
        "folder_id": "ID"
      },
      "returns": [
        "file"
      ]
    },
    {
      "name": "getUserRepositories",
      "parameters": {
        "username": "String"
      },
      "returns": [
        "repos"
      ]
    },
    {
      "name": "createSuperEntity",
      "parameters": {
        "file_id": "ID",
        "order": "I64",
        "text": "String",
        "start_byte": "I64",
        "end_byte": "I64",
        "entity_type": "String"
      },
      "returns": [
        "entity"
      ]
    }
  ]
}"#;

/// The configuration of the engine behind this catalogue: a vector index with
/// 16 links per node and search widths of 128 at construction and 768 at
/// search, no secondary indices, at most 10 GB, with the tool protocol and
/// text search switched on.
pub fn config() -> (r: Option<Config>)
    ensures
        r matches Some(c) && {
            &&& c.vector_config matches Some(v) && v.m == Some(16usize) && v.ef_construction
                == Some(128usize) && v.ef_search == Some(768usize)
            &&& c.graph_config matches Some(g) && g.secondary_indices matches Some(s) && s@.len()
                == 0
            &&& c.db_max_size_gb == Some(10usize)
            &&& c.mcp == Some(true)
            &&& c.bm25 == Some(true)
            &&& c.schema matches Some(s) && s@ == SCHEMA@
            &&& c.embedding_model matches Some(m) && m@ == "text-embedding-ada-002"@
            &&& c.graphvis_node_label matches Some(l) && l@ == ""@
        },
{
    Some(
        Config {
            vector_config: Some(
                VectorConfig { m: Some(16), ef_construction: Some(128), ef_search: Some(768) },
            ),
            graph_config: Some(GraphConfig { secondary_indices: Some(Vec::new()) }),
            db_max_size_gb: Some(10),
            mcp: Some(true),
            bm25: Some(true),
            schema: Some(String::from_str(SCHEMA)),
            embedding_model: Some(String::from_str("text-embedding-ada-002")),
            graphvis_node_label: Some(String::from_str("")),
        },
    )
}

} // verus!
