//! Process nodes read back from the database, with their own node interface.
use vstd::prelude::*;

use super::gen_node::{gen_node_error, gen_node_panics, GenNode};
use super::node_types::process::{process_from, process_props_error};
use super::node_types::{has_text, node_parts, Process};
use super::nodeid::NodeID;
use super::value::{lemma_dict_view, lemma_list_view, props_view, Value, ValueV};
use crate::text::{same_text, to_owned};
use crate::uuid_text::{hyphenated_text, uuid_to_string};

verus! {

/// A node that can write itself to the database.
pub trait Node {
    /// The node as a property map.
    fn to_db(&self) -> Value;

    /// The node's labels as a list value.
    fn get_labels(&self) -> Value;

    /// The node's identifier.
    fn get_db_id(&self) -> NodeID;
}

/// A process as stored in the database.
pub struct ProcessNode {
    pub db_id: NodeID,
    pub uuid: u128,
    pub pid: i32,
    pub cmdline: String,
    pub thin: bool,
}

/// Any of the node kinds this reader knows.
pub enum MultiNode {
    Proc(ProcessNode),
}

/// The process with the same fields as `n`.
pub open spec fn as_process(n: ProcessNode) -> Process {
    Process { db_id: n.db_id, uuid: n.uuid, pid: n.pid, cmdline: n.cmdline, thin: n.thin }
}

impl ProcessNode {
    /// Reads a process node from its database properties.
    pub fn from_props(props: Vec<(String, Value)>) -> (r: Result<Self, &'static str>)
        ensures
            match r {
                Ok(n) => process_from(props@, as_process(n)),
                Err(e) => process_props_error(props@) == Some(e@),
            },
    {
        match Process::from_props(props) {
            Ok(p) => Ok(ProcessNode {
                db_id: p.db_id,
                uuid: p.uuid,
                pid: p.pid,
                cmdline: p.cmdline,
                thin: p.thin,
            }),
            Err(e) => Err(e),
        }
    }
}

/// Why a value is not a process node, if it is not.
pub open spec fn multi_node_error(val: Value) -> Option<Seq<char>> {
    if gen_node_error(val) is Some {
        gen_node_error(val)
    } else if has_text(node_parts(val).0, "Process"@) {
        process_props_error(node_parts(val).1)
    } else {
        Some("Node doesn't match any known type."@)
    }
}

fn has_process_label(labs: &Vec<String>) -> (r: bool)
    ensures
        r == has_text(labs@.map_values(|s: String| s@), "Process"@),
{
    let ghost texts = labs@.map_values(|s: String| s@);
    let mut i: usize = 0;
    while i < labs.len()
        invariant
            0 <= i <= labs.len(),
            texts == labs@.map_values(|s: String| s@),
            forall|j: int| 0 <= j < i ==> texts[j] != "Process"@,
        decreases labs.len() - i,
    {
        if same_text(labs[i].as_str(), "Process") {
            assert(texts[i as int] == "Process"@);
            return true;
        }
        i = i + 1;
    }
    false
}

impl MultiNode {
    /// Reads a process node from a database value.
    pub fn from_db(val: Value) -> (r: Result<MultiNode, &'static str>)
        requires
            !gen_node_panics(val),
        ensures
            match r {
                Ok(MultiNode::Proc(n)) => multi_node_error(val) is None && process_from(
                    node_parts(val).1,
                    as_process(n),
                ),
                Err(e) => multi_node_error(val) == Some(e@),
            },
    {
        let ghost v = val;
        let (_id, labels, props) = match GenNode::from_db(val) {
            Ok(g) => g.decompose(),
            Err(e) => return Err(e),
        };
        assert(labels@.map_values(|s: String| s@) == node_parts(v).0);
        if has_process_label(&labels) {
            match ProcessNode::from_props(props) {
                Ok(p) => Ok(MultiNode::Proc(p)),
                Err(e) => Err(e),
            }
        } else {
            Err("Node doesn't match any known type.")
        }
    }
}

impl Node for ProcessNode {
    /// The properties `db_id`, `uuid`, `cmdline`, `pid` and `thin`.
    fn to_db(&self) -> (r: Value)
        ensures
            r@ == ValueV::Dict(
                seq![
                    ("db_id"@, ValueV::Integer(self.db_id.0 as int)),
                    ("uuid"@, ValueV::Str(hyphenated_text(self.uuid))),
                    ("cmdline"@, ValueV::Str(self.cmdline@)),
                    ("pid"@, ValueV::Integer(self.pid as int)),
                    ("thin"@, ValueV::Boolean(self.thin)),
                ],
            ),
    {
        let mut props: Vec<(String, Value)> = Vec::new();
        props.push((to_owned("db_id"), Value::Integer(self.db_id.0)));
        props.push((to_owned("uuid"), Value::String(uuid_to_string(self.uuid))));
        props.push((to_owned("cmdline"), Value::String(self.cmdline.clone())));
        props.push((to_owned("pid"), Value::Integer(self.pid as i64)));
        props.push((to_owned("thin"), Value::Boolean(self.thin)));
        proof {
            lemma_dict_view(props);
            assert(props_view(props@) =~= seq![
                ("db_id"@, ValueV::Integer(self.db_id.0 as int)),
                ("uuid"@, ValueV::Str(hyphenated_text(self.uuid))),
                ("cmdline"@, ValueV::Str(self.cmdline@)),
                ("pid"@, ValueV::Integer(self.pid as int)),
                ("thin"@, ValueV::Boolean(self.thin)),
            ]);
        }
        Value::Dict(props)
    }

    /// The labels `Node` and `Process`.
    fn get_labels(&self) -> (r: Value)
        ensures
            r@ == ValueV::List(seq![ValueV::Str("Node"@), ValueV::Str("Process"@)]),
    {
        let mut l: Vec<Value> = Vec::new();
        l.push(Value::String(to_owned("Node")));
        l.push(Value::String(to_owned("Process")));
        proof {
            lemma_list_view(l);
            assert(l@.map_values(|v: Value| v@) =~= seq![ValueV::Str("Node"@), ValueV::Str("Process"@)]);
        }
        let r = Value::List(l);
        r
    }

    fn get_db_id(&self) -> (r: NodeID)
        ensures
            r == self.db_id,
    {
        self.db_id
    }
}

} // verus!
