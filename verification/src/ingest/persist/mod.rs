//! Handing the provenance graph to views: the records that describe changes to it.
pub mod cypher_file_view;
pub mod cypher_view;
pub mod neo4j_view;

use vstd::prelude::*;

use crate::data::node_types::EnumNode;
use crate::data::nodeid::NodeID;
use crate::data::value::Value;

verus! {

/// A change to the provenance graph.
pub enum DBTr {
    /// A node was created.
    CreateNode(EnumNode),
    /// A relationship of type `ty` was created from `src` to `dst`.
    CreateRel { src: NodeID, dst: NodeID, ty: &'static str, props: Vec<(String, Value)> },
    /// A node's properties changed.
    UpdateNode(EnumNode),
}

} // verus!
