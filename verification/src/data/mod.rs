pub mod id;
pub mod nodeid;
pub mod value;
pub mod traits;
pub mod node_types;
pub mod gen_node;
pub mod edge;
pub mod process_node;
pub mod pvm_types;
pub mod literal;
