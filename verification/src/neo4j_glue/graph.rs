//! Nodes and relationships of the provenance graph, and the records the
//! database stores for them.
use vstd::prelude::*;

use super::{data_type_name, dict_insert, dict_set, op_name, IntoVal};
use crate::data::id::ID;
use crate::data::pvm_types::{PVMDataType, PVMOps};
use crate::data::value::{
    labels_view, lemma_dict_view, lemma_list_view, entry_value, lemma_record_keys_differ, map_field, props_view, Value, ValueV,
};
use crate::text::{lemma_map_push, lemma_prefix_push, to_owned};
use crate::uuid_text::hyphenated_text;

verus! {

/// A node of the provenance graph, with what its records are made of.
pub enum GraphNode {
    /// A data node: its role, its type's name and property names, its UUID,
    /// its context, its latest metadata entries, the current value of each
    /// of the type's properties, and its full metadata history as JSON.
    Data {
        id: ID,
        pvm_ty: PVMDataType,
        ty_name: String,
        ty_props: Vec<String>,
        uuid: u128,
        ctx: ID,
        latest: Vec<(String, String)>,
        current: Vec<Option<String>>,
        meta_hist: String,
    },
    /// A context node: its type's name and property names, and its contents.
    Ctx { id: ID, ty_name: String, ty_props: Vec<String>, cont: Vec<(String, String)> },
    /// A path name.
    NamePath { id: ID, path: String },
    /// A network name.
    NameNet { id: ID, addr: String, port: u16 },
    /// The schema of a data type: its name, role and property names.
    SchemaData { id: ID, name: String, base: PVMDataType, props: Vec<String> },
    /// The schema of a context type: its name and property names.
    SchemaCtx { id: ID, name: String, props: Vec<String> },
}

/// A relationship of the provenance graph.
#[derive(Clone, Copy, Debug, PartialEq, Eq, Structural)]
pub enum GraphRel {
    /// An information flow, with its operation, context and byte count.
    Inf { id: ID, src: ID, dst: ID, pvm_op: PVMOps, ctx: ID, byte_count: i64 },
    /// A naming, valid from `start` to `end`.
    Named { id: ID, src: ID, dst: ID, start: ID, end: ID },
}

/// Pairs of texts as a property map; a later pair for a key replaces an
/// earlier one.
pub open spec fn pairs_dict(s: Seq<(String, String)>) -> Seq<(Seq<char>, ValueV)>
    decreases s.len(),
{
    if s.len() == 0 {
        Seq::empty()
    } else {
        dict_set(pairs_dict(s.drop_last()), s.last().0@, ValueV::Str(s.last().1@))
    }
}

/// Pairs of texts as a property map; a later pair for a key replaces an
/// earlier one.
pub fn pairs_props(pairs: &Vec<(String, String)>) -> (r: Vec<(String, Value)>)
    ensures
        props_view(r@) == pairs_dict(pairs@),
{
    let mut out: Vec<(String, Value)> = Vec::new();
    let mut i: usize = 0;
    assert(pairs@.subrange(0, 0) =~= Seq::<(String, String)>::empty());
    assert(props_view(out@) =~= Seq::<(Seq<char>, ValueV)>::empty());
    while i < pairs.len()
        invariant
            0 <= i <= pairs.len(),
            props_view(out@) == pairs_dict(pairs@.subrange(0, i as int)),
        decreases pairs.len() - i,
    {
        let k = pairs[i].0.clone();
        let v = pairs[i].1.clone();
        dict_insert(&mut out, k, Value::String(v));
        assert(pairs@.subrange(0, i + 1).drop_last() =~= pairs@.subrange(0, i as int));
        i = i + 1;
    }
    assert(pairs@.subrange(0, i as int) =~= pairs@);
    out
}

/// Texts as a list value of strings.
pub open spec fn str_list(s: Seq<String>) -> ValueV {
    ValueV::List(s.map_values(|t: String| ValueV::Str(t@)))
}

/// Texts as a list value of strings.
pub fn str_list_value(items: &Vec<String>) -> (r: Value)
    ensures
        r@ == str_list(items@),
{
    let mut l: Vec<Value> = Vec::new();
    let mut i: usize = 0;
    while i < items.len()
        invariant
            0 <= i <= items.len(),
            l@.map_values(|v: Value| v@) == items@.subrange(0, i as int).map_values(|t: String| ValueV::Str(t@)),
        decreases items.len() - i,
    {
        let v = Value::String(items[i].clone());
        let ghost prev = l@;
        l.push(v);
        proof {
            lemma_map_push(prev, v, |v: Value| v@);
            lemma_prefix_push(items@, i as int);
            lemma_map_push(items@.subrange(0, i as int), items@[i as int], |t: String| ValueV::Str(t@));
            assert(l@ == prev.push(v));
        }
        i = i + 1;
    }
    assert(items@.subrange(0, i as int) =~= items@);
    proof {
        lemma_list_view(l);
    }
    Value::List(l)
}

impl GraphNode {
    /// The node's identifier, in specifications.
    pub open spec fn spec_id(&self) -> ID {
        match self {
            GraphNode::Data { id, .. } => *id,
            GraphNode::Ctx { id, .. } => *id,
            GraphNode::NamePath { id, .. } => *id,
            GraphNode::NameNet { id, .. } => *id,
            GraphNode::SchemaData { id, .. } => *id,
            GraphNode::SchemaCtx { id, .. } => *id,
        }
    }

    /// The node's identifier.
    pub fn get_db_id(&self) -> (r: ID)
        ensures
            r == self.spec_id(),
    {
        match self {
            GraphNode::Data { id, .. } => *id,
            GraphNode::Ctx { id, .. } => *id,
            GraphNode::NamePath { id, .. } => *id,
            GraphNode::NameNet { id, .. } => *id,
            GraphNode::SchemaData { id, .. } => *id,
            GraphNode::SchemaCtx { id, .. } => *id,
        }
    }

    /// The node's labels, in specifications.
    pub open spec fn spec_labels(&self) -> Seq<Seq<char>> {
        match self {
            GraphNode::Data { pvm_ty, .. } => seq!["Node"@, data_type_name(*pvm_ty)],
            GraphNode::Ctx { .. } => seq!["Node"@, "Context"@],
            GraphNode::NamePath { .. } => seq!["Node"@, "Name"@, "Path"@],
            GraphNode::NameNet { .. } => seq!["Node"@, "Name"@, "Net"@],
            GraphNode::SchemaData { .. } => seq!["Node"@, "Schema"@],
            GraphNode::SchemaCtx { .. } => seq!["Node"@, "Schema"@],
        }
    }

    /// The node's properties, without `db_id`, in specifications.
    pub open spec fn spec_props(&self) -> Seq<(Seq<char>, ValueV)> {
        match self {
            GraphNode::Data { ty_name, uuid, ctx, latest, meta_hist, .. } => dict_set(
                dict_set(
                    dict_set(
                        dict_set(pairs_dict(latest@), "meta_hist"@, ValueV::Str(meta_hist@)),
                        "uuid"@,
                        ValueV::Str(hyphenated_text(*uuid)),
                    ),
                    "type"@,
                    ValueV::Str(ty_name@),
                ),
                "ctx"@,
                ValueV::Integer(ctx.0 as int),
            ),
            GraphNode::Ctx { ty_name, cont, .. } => dict_set(pairs_dict(cont@), "type"@, ValueV::Str(ty_name@)),
            GraphNode::NamePath { path, .. } => seq![("path"@, ValueV::Str(path@))],
            GraphNode::NameNet { addr, port, .. } => seq![
                ("addr"@, ValueV::Str(addr@)),
                ("port"@, ValueV::Integer(*port as int)),
            ],
            GraphNode::SchemaData { name, base, props, .. } => seq![
                ("name"@, ValueV::Str(name@)),
                ("base"@, ValueV::Str(data_type_name(*base))),
                ("props"@, str_list(props@)),
            ],
            GraphNode::SchemaCtx { name, props, .. } => seq![
                ("name"@, ValueV::Str(name@)),
                ("base"@, ValueV::Str("Context"@)),
                ("props"@, str_list(props@)),
            ],
        }
    }
}

/// Writing a node as a database record.
pub trait ToDBNode {
    /// The identifier, in specifications.
    spec fn spec_db_id(&self) -> ID;

    /// The labels, in specifications.
    spec fn spec_db_labels(&self) -> Seq<Seq<char>>;

    /// The properties without `db_id`, in specifications.
    spec fn spec_db_props(&self) -> Seq<(Seq<char>, ValueV)>;

    /// The labels.
    fn get_labels(&self) -> (r: Vec<&'static str>)
        ensures
            labels_view(r@) == self.spec_db_labels(),
    ;

    /// The properties, without `db_id`.
    fn get_props(&self) -> (r: Vec<(String, Value)>)
        ensures
            props_view(r@) == self.spec_db_props(),
    ;

    /// The identifier, the labels, and the properties with `db_id` set.
    fn to_db(&self) -> (r: (ID, Vec<&'static str>, Vec<(String, Value)>))
        ensures
            r.0 == self.spec_db_id(),
            labels_view(r.1@) == self.spec_db_labels(),
            props_view(r.2@) == dict_set(self.spec_db_props(), "db_id"@, ValueV::Integer(self.spec_db_id().0 as int)),
    ;
}

impl ToDBNode for GraphNode {
    open spec fn spec_db_id(&self) -> ID {
        self.spec_id()
    }

    open spec fn spec_db_labels(&self) -> Seq<Seq<char>> {
        self.spec_labels()
    }

    open spec fn spec_db_props(&self) -> Seq<(Seq<char>, ValueV)> {
        self.spec_props()
    }

    fn get_labels(&self) -> (r: Vec<&'static str>) {
        let r = match self {
            GraphNode::Data { pvm_ty, .. } => vec!["Node", super::data_type_str(*pvm_ty)],
            GraphNode::Ctx { .. } => vec!["Node", "Context"],
            GraphNode::NamePath { .. } => vec!["Node", "Name", "Path"],
            GraphNode::NameNet { .. } => vec!["Node", "Name", "Net"],
            GraphNode::SchemaData { .. } => vec!["Node", "Schema"],
            GraphNode::SchemaCtx { .. } => vec!["Node", "Schema"],
        };
        assert(labels_view(r@) =~= self.spec_labels());
        r
    }

    fn get_props(&self) -> (r: Vec<(String, Value)>) {
        match self {
            GraphNode::Data { ty_name, uuid, ctx, latest, meta_hist, .. } => {
                let mut p = pairs_props(latest);
                dict_insert(&mut p, to_owned("meta_hist"), Value::String(meta_hist.clone()));
                dict_insert(&mut p, to_owned("uuid"), uuid.into_val());
                dict_insert(&mut p, to_owned("type"), Value::String(ty_name.clone()));
                dict_insert(&mut p, to_owned("ctx"), ctx.into_val());
                p
            },
            GraphNode::Ctx { ty_name, cont, .. } => {
                let mut p = pairs_props(cont);
                dict_insert(&mut p, to_owned("type"), Value::String(ty_name.clone()));
                p
            },
            GraphNode::NamePath { path, .. } => {
                let mut p: Vec<(String, Value)> = Vec::new();
                p.push((to_owned("path"), Value::String(path.clone())));
                assert(props_view(p@) =~= self.spec_props());
                p
            },
            GraphNode::NameNet { addr, port, .. } => {
                let mut p: Vec<(String, Value)> = Vec::new();
                p.push((to_owned("addr"), Value::String(addr.clone())));
                p.push((to_owned("port"), Value::Integer(*port as i64)));
                assert(props_view(p@) =~= self.spec_props());
                p
            },
            GraphNode::SchemaData { name, base, props, .. } => {
                let mut p: Vec<(String, Value)> = Vec::new();
                p.push((to_owned("name"), Value::String(name.clone())));
                p.push((to_owned("base"), base.into_val()));
                p.push((to_owned("props"), str_list_value(props)));
                assert(props_view(p@) =~= self.spec_props());
                p
            },
            GraphNode::SchemaCtx { name, props, .. } => {
                let mut p: Vec<(String, Value)> = Vec::new();
                p.push((to_owned("name"), Value::String(name.clone())));
                p.push((to_owned("base"), Value::String(to_owned("Context"))));
                p.push((to_owned("props"), str_list_value(props)));
                assert(props_view(p@) =~= self.spec_props());
                p
            },
        }
    }

    fn to_db(&self) -> (r: (ID, Vec<&'static str>, Vec<(String, Value)>)) {
        let mut props = self.get_props();
        let id = self.get_db_id();
        dict_insert(&mut props, to_owned("db_id"), id.into_val());
        (id, self.get_labels(), props)
    }
}

/// The record of a relationship: `{src, dst, type, props}`.
pub open spec fn rel_record(src: ID, dst: ID, ty: Seq<char>, props: Seq<(Seq<char>, ValueV)>) -> ValueV {
    ValueV::Dict(seq![
        ("src"@, ValueV::Integer(src.0 as int)),
        ("dst"@, ValueV::Integer(dst.0 as int)),
        ("type"@, ValueV::Str(ty)),
        ("props"@, ValueV::Dict(props)),
    ])
}

/// Writing a relationship as a database record.
pub trait ToDBRel {
    /// The identifier and the record, in specifications.
    spec fn spec_to_db(&self) -> (ID, ValueV);

    /// The identifier and the record.
    fn to_db(&self) -> (r: (ID, Value))
        ensures
            r.0 == self.spec_to_db().0,
            r.1@ == self.spec_to_db().1,
    ;
}

impl GraphRel {
    /// The identifier and the record of the relationship.
    pub open spec fn spec_record(&self) -> (ID, ValueV) {
        match self {
            GraphRel::Inf { id, src, dst, pvm_op, ctx, byte_count } => (
                *id,
                rel_record(*src, *dst, "INF"@, seq![
                    ("db_id"@, ValueV::Integer(id.0 as int)),
                    ("pvm_op"@, ValueV::Str(op_name(*pvm_op))),
                    ("ctx"@, ValueV::Integer(ctx.0 as int)),
                    ("byte_count"@, ValueV::Integer(*byte_count as int)),
                ]),
            ),
            GraphRel::Named { id, src, dst, start, end } => (
                *id,
                rel_record(*src, *dst, "NAMED"@, seq![
                    ("db_id"@, ValueV::Integer(id.0 as int)),
                    ("start"@, ValueV::Integer(start.0 as int)),
                    ("end"@, ValueV::Integer(end.0 as int)),
                ]),
            ),
        }
    }
}

impl GraphRel {
    /// The relationship's identifier.
    pub fn get_db_id(&self) -> (r: ID)
        ensures
            r == self.spec_record().0,
    {
        match self {
            GraphRel::Inf { id, .. } => *id,
            GraphRel::Named { id, .. } => *id,
        }
    }
}

impl ToDBRel for GraphRel {
    open spec fn spec_to_db(&self) -> (ID, ValueV) {
        self.spec_record()
    }

    fn to_db(&self) -> (r: (ID, Value)) {
        match self {
            GraphRel::Inf { id, src, dst, pvm_op, ctx, byte_count } => {
                let mut p: Vec<(String, Value)> = Vec::new();
                p.push((to_owned("db_id"), id.into_val()));
                p.push((to_owned("pvm_op"), pvm_op.into_val()));
                p.push((to_owned("ctx"), ctx.into_val()));
                p.push((to_owned("byte_count"), Value::Integer(*byte_count)));
                assert(props_view(p@) =~= seq![
                    ("db_id"@, ValueV::Integer(id.0 as int)),
                    ("pvm_op"@, ValueV::Str(op_name(*pvm_op))),
                    ("ctx"@, ValueV::Integer(ctx.0 as int)),
                    ("byte_count"@, ValueV::Integer(*byte_count as int)),
                ]);
                (*id, rel_value(*src, *dst, "INF", p))
            },
            GraphRel::Named { id, src, dst, start, end } => {
                let mut p: Vec<(String, Value)> = Vec::new();
                p.push((to_owned("db_id"), id.into_val()));
                p.push((to_owned("start"), start.into_val()));
                p.push((to_owned("end"), end.into_val()));
                assert(props_view(p@) =~= seq![
                    ("db_id"@, ValueV::Integer(id.0 as int)),
                    ("start"@, ValueV::Integer(start.0 as int)),
                    ("end"@, ValueV::Integer(end.0 as int)),
                ]);
                (*id, rel_value(*src, *dst, "NAMED", p))
            },
        }
    }
}

/// The record of a relationship: `{src, dst, type, props}`.
pub fn rel_value(src: ID, dst: ID, ty: &str, props: Vec<(String, Value)>) -> (r: Value)
    ensures
        r@ == rel_record(src, dst, ty@, props_view(props@)),
{
    proof {
        lemma_dict_view(props);
    }
    let mut rec: Vec<(String, Value)> = Vec::new();
    rec.push((to_owned("src"), src.into_val()));
    rec.push((to_owned("dst"), dst.into_val()));
    rec.push((to_owned("type"), Value::String(to_owned(ty))));
    rec.push((to_owned("props"), Value::Dict(props)));
    proof {
        lemma_dict_view(rec);
        assert(props_view(rec@) =~= seq![
            ("src"@, ValueV::Integer(src.0 as int)),
            ("dst"@, ValueV::Integer(dst.0 as int)),
            ("type"@, ValueV::Str(ty@)),
            ("props"@, ValueV::Dict(props_view(props@))),
        ]);
    }
    Value::Dict(rec)
}


/// The source of a relationship.
pub open spec fn rel_src(r: GraphRel) -> ID {
    match r {
        GraphRel::Inf { src, .. } => src,
        GraphRel::Named { src, .. } => src,
    }
}

/// The destination of a relationship.
pub open spec fn rel_dst(r: GraphRel) -> ID {
    match r {
        GraphRel::Inf { dst, .. } => dst,
        GraphRel::Named { dst, .. } => dst,
    }
}

/// A relationship record made from two endpoints has `src` the first and
/// `dst` the second.
pub proof fn lemma_rel_value_endpoints(src: ID, dst: ID, ty: Seq<char>, props: Seq<(Seq<char>, ValueV)>, v: Value)
    requires
        v@ == rel_record(src, dst, ty, props),
    ensures
        map_field(v@, "src"@) == Some(ValueV::Integer(src.0 as int)),
        map_field(v@, "dst"@) == Some(ValueV::Integer(dst.0 as int)),
{
    lemma_record_keys_differ();
    let d = v@->Dict_0;
    assert(d.drop_first()[0].0 == "dst"@);
    assert(d[0].0 == "src"@);
    assert(entry_value(d, "dst"@) == entry_value(d.drop_first(), "dst"@));
}

/// Every relationship is written with its own endpoints, in order: the
/// record that `to_db` gives has `src` the relationship's source and `dst`
/// its destination.
pub proof fn lemma_rel_to_db_endpoints(r: GraphRel, res: (ID, Value))
    requires
        res.1@ == r.spec_to_db().1,
    ensures
        map_field(res.1@, "src"@) == Some(ValueV::Integer(rel_src(r).0 as int)),
        map_field(res.1@, "dst"@) == Some(ValueV::Integer(rel_dst(r).0 as int)),
{
    lemma_record_keys_differ();
    let d = res.1@->Dict_0;
    assert(d.drop_first()[0].0 == "dst"@);
    assert(d[0].0 == "src"@);
    assert(entry_value(d, "dst"@) == entry_value(d.drop_first(), "dst"@));
}

} // verus!
