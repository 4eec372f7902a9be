//! A source-code repository as a graph: users own repositories, repositories
//! hold folders and files, files decompose into entities, and entities may
//! carry embeddings. The crate states and proves how listings are filtered,
//! how file content is decoded, how a file is cut into entities, and what each
//! operation of the query catalogue does to the graph.
#![allow(non_camel_case_types)]
#![allow(non_snake_case)]

pub mod config;
pub mod decomposer;
pub mod fetcher;
pub mod graph;
pub mod laws;
pub mod model;
pub mod queries;
