//! The provenance graph as the graph database stores it: node and
//! relationship records, and the views that write them.
pub mod csv_export;
pub mod csv_rows;
pub mod csv_view;
pub mod cypher_view;
pub mod graph;
pub mod neo4j_view;

use vstd::prelude::*;

use crate::batch::{find_id, lemma_find_id, lemma_find_id_prefix};
use crate::data::id::ID;
use crate::data::pvm_types::{pvm_op_name, PVMDataType, PVMOps};
use crate::data::value::{labels_view, lemma_dict_view, lemma_list_view, props_view, Value, ValueV};
use crate::text::{lemma_map_push, lemma_prefix_push, same_text, to_owned};
use crate::uuid_text::{hyphenated_text, parse_uuid, parsed_uuid, uuid_to_string};

verus! {

/// A map of properties with `k` set to `v`: the first entry for `k` takes
/// the new value, or the entry is appended when there is none.
pub open spec fn dict_set(s: Seq<(Seq<char>, ValueV)>, k: Seq<char>, v: ValueV) -> Seq<(Seq<char>, ValueV)> {
    match find_id(s, k) {
        Some(i) => s.update(i, (k, v)),
        None => s.push((k, v)),
    }
}

/// Setting a property twice leaves the second value, in the place of the
/// first: the same as setting the second alone.
pub proof fn lemma_dict_set_twice(s: Seq<(Seq<char>, ValueV)>, k: Seq<char>, v1: ValueV, v2: ValueV)
    ensures
        dict_set(dict_set(s, k, v1), k, v2) == dict_set(s, k, v2),
{
    lemma_find_id(s, k);
    crate::batch::lemma_find_id_after_put(s, k, v1);
    match find_id(s, k) {
        Some(i) => {
            assert(s.update(i, (k, v1)).update(i, (k, v2)) =~= s.update(i, (k, v2)));
        },
        None => {
            assert(s.push((k, v1)).update(s.len() as int, (k, v2)) =~= s.push((k, v2)));
        },
    }
}

/// Sets property `key` to `v`, replacing its value when it is present.
pub fn dict_insert(props: &mut Vec<(String, Value)>, key: String, v: Value)
    ensures
        props_view(final(props)@) == dict_set(props_view(old(props)@), key@, v@),
{
    let ghost pv = props_view(props@);
    let ghost kv = key@;
    let mut i: usize = 0;
    let mut found = false;
    while i < props.len()
        invariant_except_break
            !found,
        invariant
            0 <= i <= props.len(),
            pv == props_view(props@),
            forall|j: int| 0 <= j < i ==> pv[j].0 != key@,
        ensures
            !found ==> i == props.len(),
            0 <= i <= props.len(),
            forall|j: int| 0 <= j < i ==> pv[j].0 != key@,
            found ==> i < props.len() && pv[i as int].0 == key@,
        decreases props.len() - i,
    {
        if same_text(props[i].0.as_str(), key.as_str()) {
            assert(pv[i as int].0 == props@[i as int].0@);
            found = true;
            break;
        }
        i = i + 1;
    }
    proof {
        lemma_find_id_prefix(pv, kv, i as int);
    }
    if found {
        props.set(i, (key, v));
        assert(props_view(props@) =~= pv.update(i as int, (kv, v@)));
    } else {
        props.push((key, v));
        assert(props_view(props@) =~= pv.push((kv, v@)));
    }
}

/// A value turned into a database value.
pub trait IntoVal {
    /// The database value, in specifications.
    spec fn spec_into_val(&self) -> ValueV;

    /// The database value.
    fn into_val(self) -> (r: Value)
        ensures
            r@ == self.spec_into_val(),
    ;
}

/// The name a provenance role is stored under.
pub open spec fn data_type_name(t: PVMDataType) -> Seq<char> {
    match t {
        PVMDataType::Actor => "Actor"@,
        PVMDataType::Store => "Store"@,
        PVMDataType::StoreCont => "StoreCont"@,
        PVMDataType::EditSession => "EditSession"@,
        PVMDataType::Conduit => "Conduit"@,
        PVMDataType::Object => "Object"@,
    }
}

/// The name a provenance role is stored under.
pub fn data_type_str(t: PVMDataType) -> (r: &'static str)
    ensures
        r@ == data_type_name(t),
{
    match t {
        PVMDataType::Actor => "Actor",
        PVMDataType::Store => "Store",
        PVMDataType::StoreCont => "StoreCont",
        PVMDataType::EditSession => "EditSession",
        PVMDataType::Conduit => "Conduit",
        PVMDataType::Object => "Object",
    }
}

/// The name an operation is stored under.
pub open spec fn op_name(op: PVMOps) -> Seq<char> {
    match op {
        PVMOps::Sink => "Sink"@,
        PVMOps::Source => "Source"@,
        PVMOps::Connect => "Connect"@,
        PVMOps::Version => "Version"@,
        PVMOps::Unknown => "Unknown"@,
    }
}

/// A UUID is stored as its hyphenated text.
impl IntoVal for u128 {
    open spec fn spec_into_val(&self) -> ValueV {
        ValueV::Str(hyphenated_text(*self))
    }

    fn into_val(self) -> (r: Value) {
        Value::String(uuid_to_string(self))
    }
}

/// An identifier is stored as its integer.
impl IntoVal for ID {
    open spec fn spec_into_val(&self) -> ValueV {
        ValueV::Integer(self.0 as int)
    }

    fn into_val(self) -> (r: Value) {
        Value::Integer(self.0)
    }
}

/// An operation is stored as its name.
impl IntoVal for PVMOps {
    open spec fn spec_into_val(&self) -> ValueV {
        ValueV::Str(op_name(*self))
    }

    fn into_val(self) -> (r: Value) {
        Value::String(to_owned(pvm_op_name(self)))
    }
}

/// A provenance role is stored as its name.
impl IntoVal for PVMDataType {
    open spec fn spec_into_val(&self) -> ValueV {
        ValueV::Str(data_type_name(*self))
    }

    fn into_val(self) -> (r: Value) {
        Value::String(to_owned(data_type_str(self)))
    }
}

/// Reading an identifier back from a database value.
pub trait IntoID {
    /// The identifier, if the value holds one, in specifications.
    spec fn spec_into_id(&self) -> Option<ID>;

    /// The identifier, if the value holds one.
    fn into_id(self) -> (r: Option<ID>)
        ensures
            r == self.spec_into_id(),
    ;
}

/// An integer value holds an identifier; nothing else does.
impl IntoID for Value {
    open spec fn spec_into_id(&self) -> Option<ID> {
        match self {
            Value::Integer(i) => Some(ID(*i)),
            _ => None,
        }
    }

    fn into_id(self) -> (r: Option<ID>) {
        match self {
            Value::Integer(i) => Some(ID::new(i)),
            _ => None,
        }
    }
}

/// Reading a UUID back from a database value.
pub trait Val2UUID {
    /// The UUID, if the value holds one, in specifications.
    spec fn spec_into_uuid(&self) -> Option<u128>;

    /// The UUID, if the value holds one.
    fn into_uuid(self) -> (r: Option<u128>)
        ensures
            r == self.spec_into_uuid(),
    ;
}

/// A string value holds a UUID when it parses as one; nothing else does.
impl Val2UUID for Value {
    open spec fn spec_into_uuid(&self) -> Option<u128> {
        match self {
            Value::String(s) => parsed_uuid(s@),
            _ => None,
        }
    }

    fn into_uuid(self) -> (r: Option<u128>) {
        match self {
            Value::String(s) => parse_uuid(s.as_str()),
            _ => None,
        }
    }
}

} // verus!
