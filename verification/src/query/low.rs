//! Simple lookups in the database: the queries to run and what their rows mean.
use vstd::prelude::*;

use crate::batch::{run_plain, run_with, run_with_param, DbOp, DbOpV};
use crate::data::gen_node::gen_node_panics;
use crate::data::node_types::{enum_node_error, enum_node_from, EnumNode};
use crate::data::value::{Value, ValueV};
use crate::uuid_text::{hyphenated_text, uuid_to_string};

verus! {

/// The query for the nodes with a UUID, given as `$uuid`.
pub const NODES_BY_UUID: &'static str = "MATCH (n {uuid: {uuid}})\n              RETURN n";

/// The query that counts the process nodes.
pub const COUNT_PROCESSES: &'static str = "MATCH (n:Process)\n              RETURN count(n)";

/// The call that looks up the nodes with UUID `uuid`.
pub fn nodes_by_uuid_query(uuid: u128) -> (r: DbOp)
    ensures
        r@ == run_with(NODES_BY_UUID@, "uuid"@, ValueV::Str(hyphenated_text(uuid))),
{
    run_with_param(NODES_BY_UUID, "uuid", Value::String(uuid_to_string(uuid)))
}

/// The nodes that the lookup's rows hold, in order. Each row must read as
/// one of the known nodes.
pub fn nodes_by_uuid(rows: Vec<Value>) -> (r: Vec<EnumNode>)
    requires
        forall|i: int| 0 <= i < rows@.len() ==> !gen_node_panics(#[trigger] rows@[i]) && enum_node_error(rows@[i]) is None,
    ensures
        r@.len() == rows@.len(),
        forall|i: int| 0 <= i < rows@.len() ==> enum_node_from(rows@[i], #[trigger] r@[i]),
{
    let ghost orig = rows@;
    let mut rows = rows;
    let mut out: Vec<EnumNode> = Vec::new();
    let mut i: usize = 0;
    while i < rows.len()
        invariant
            0 <= i <= rows.len(),
            rows@.len() == orig.len(),
            forall|j: int| i <= j < orig.len() ==> rows@[j] == orig[j],
            forall|j: int| 0 <= j < orig.len() ==> !gen_node_panics(#[trigger] orig[j]) && enum_node_error(orig[j]) is None,
            out@.len() == i,
            forall|j: int| 0 <= j < i ==> enum_node_from(orig[j], #[trigger] out@[j]),
        decreases rows.len() - i,
    {
        let mut v = Value::Null;
        rows.set_and_swap(i, &mut v);
        assert(v == orig[i as int]);
        match EnumNode::from_db(v) {
            Ok(n) => out.push(n),
            Err(_) => {
                proof {
                    assert(false);
                }
            },
        }
        i = i + 1;
    }
    out
}

/// The call that counts the process nodes.
pub fn count_processes_query() -> (r: DbOp)
    ensures
        r@ == (DbOpV::Run { query: COUNT_PROCESSES@, params: Seq::empty() }),
{
    run_plain(COUNT_PROCESSES)
}

/// The count that the counting query's first row holds. The first row must
/// hold an integer.
pub fn count_processes(rows: &Vec<Value>) -> (r: i64)
    requires
        rows@.len() > 0,
        rows@[0] is Integer,
    ensures
        r == rows@[0]->Integer_0,
{
    match &rows[0] {
        Value::Integer(i) => *i,
        _ => {
            proof {
                assert(false);
            }
            0
        },
    }
}

} // verus!
