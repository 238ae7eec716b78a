//! Reading the graph back from the database.
pub mod low;
