pub mod pvm;
pub mod pvm_cache;
pub mod db_loop;
pub mod lines;
pub mod parse;
pub mod audit_ops;
pub mod persist;
