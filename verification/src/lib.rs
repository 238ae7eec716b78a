pub mod bi_store;
pub mod checking_store;
pub mod data;
pub mod text;
pub mod uuid_text;
pub mod ingest;
pub mod trace;
pub mod c_api;
pub mod engine;
pub mod cypher_store;
pub mod neo4j_glue;
pub mod batch;
pub mod query;
