//! The provenance model: it turns what was observed (actors reading and
//! writing stores, names, connections) into nodes and relationships of the
//! provenance graph, versioning stores as they are written.
//!
//! The model decides which nodes and relationships exist and records each
//! change as a [`PvmOp`], in order. The metadata of a data node (the history
//! of its properties) is kept by whoever applies the operations: the model
//! records when metadata is set, copied or merged, and with which context.
use std::collections::{HashMap, HashSet};

use vstd::prelude::*;

use crate::data::id::ID;
use crate::data::pvm_types::{PVMDataType, PVMOps};
use crate::neo4j_glue::graph::GraphRel;
use crate::text::{push_str, empty_string};

verus! {

broadcast use vstd::std_specs::hash::group_hash_axioms;

/// Why a trace record could not be turned into provenance.
pub enum PVMError {
    /// The record lacks a field that its event needs.
    MissingField { evt: String, field: &'static str },
    /// The record names an object that was not declared.
    UnknownNode { uuid: u128 },
    /// The record has an object that is not an actor read or write.
    NotAnActor { uuid: u128 },
    /// The record has an actor write to itself.
    SelfFlow { uuid: u128 },
    /// The record sets a property that the object's type does not have.
    UnknownProperty { key: &'static str },
}

impl PVMError {
    /// The message for the error.
    pub open spec fn spec_message(&self) -> Seq<char> {
        match self {
            PVMError::MissingField { evt, field } => "Event "@ + evt@ + " missing needed field "@
                + field@,
            PVMError::UnknownNode { .. } => "Object was never declared"@,
            PVMError::NotAnActor { .. } => "Object is not an actor"@,
            PVMError::SelfFlow { .. } => "Actor writes to itself"@,
            PVMError::UnknownProperty { key } => "Setting unknown property "@ + key@,
        }
    }

    /// The message for the error, as [`spec_message`](Self::spec_message) gives it.
    pub fn to_string(&self) -> (s: String)
        ensures
            s@ == self.spec_message(),
    {
        let mut s = empty_string();
        match self {
            PVMError::MissingField { evt, field } => {
                push_str(&mut s, "Event ");
                push_str(&mut s, evt.as_str());
                push_str(&mut s, " missing needed field ");
                push_str(&mut s, field);
            },
            PVMError::UnknownNode { .. } => push_str(&mut s, "Object was never declared"),
            PVMError::NotAnActor { .. } => push_str(&mut s, "Object is not an actor"),
            PVMError::SelfFlow { .. } => push_str(&mut s, "Actor writes to itself"),
            PVMError::UnknownProperty { key } => {
                push_str(&mut s, "Setting unknown property ");
                push_str(&mut s, key);
            },
        }
        assert(s@ =~= self.spec_message());
        s
    }
}

/// Hands out fresh identifiers, counting up from a starting value.
#[derive(Debug)]
pub struct IDCounter {
    store: usize,
}

impl IDCounter {
    /// The next value the counter hands out.
    pub closed spec fn spec_next(&self) -> usize {
        self.store
    }

    /// A counter whose first identifier is `init`.
    pub fn new(init: usize) -> (r: Self)
        ensures
            r.spec_next() == init,
    {
        IDCounter { store: init }
    }

    /// The next identifier; the counter then moves on by one, wrapping at the
    /// top of its range.
    pub fn get(&mut self) -> (r: ID)
        ensures
            r.0 == old(self).spec_next() as i64,
            final(self).spec_next() == counter_step(old(self).spec_next()),
    {
        let v = self.store;
        self.store = if v == usize::MAX {
            0
        } else {
            v + 1
        };
        ID::new(v as i64)
    }
}

/// What a counter that hands out `v` next hands out after that: the next
/// value, wrapping at the top of the range.
pub open spec fn counter_step(v: usize) -> usize {
    if v == usize::MAX {
        0
    } else {
        (v + 1) as usize
    }
}

/// What a counter started at `init` hands out at its `k`-th call of
/// [`IDCounter::get`] (counting from 0).
pub open spec fn counter_after(init: usize, k: nat) -> usize
    decreases k,
{
    if k == 0 {
        init
    } else {
        counter_step(counter_after(init, (k - 1) as nat))
    }
}

/// A counter hands out each identifier once: as long as it does not wrap,
/// its calls hand out `init`, `init + 1`, ... in order, all different.
pub proof fn lemma_counter_hands_out_each_once(init: usize, n: nat)
    requires
        init + n <= usize::MAX + 1,
    ensures
        forall|k: nat| k < n ==> #[trigger] counter_after(init, k) == init + k,
        forall|j: nat, k: nat| j < k < n ==> #[trigger] counter_after(init, j) < #[trigger] counter_after(init, k),
    decreases n,
{
    if n > 0 {
        lemma_counter_hands_out_each_once(init, (n - 1) as nat);
        if n >= 2 {
            assert(counter_after(init, (n - 2) as nat) == init + n - 2);
            assert(counter_after(init, (n - 1) as nat) == counter_step(counter_after(init, (n - 2) as nat)));
        }
        assert(counter_after(init, (n - 1) as nat) == init + n - 1);
    }
}

/// Whether a connection carries information one way or both ways.
#[derive(Clone, Copy, Debug, PartialEq, Eq, Structural)]
pub enum ConnectDir {
    Mono,
    BiDirectional,
}


/// A concrete type of data node: its role, its name, and its properties,
/// each with whether a new version of a node inherits it.
#[derive(Debug)]
pub struct ConcreteType {
    pub pvm_ty: PVMDataType,
    pub name: String,
    pub props: Vec<(String, bool)>,
}

/// A concrete type of context node: its name and the names of its properties.
#[derive(Debug)]
pub struct ContextType {
    pub name: String,
    pub props: Vec<String>,
}

/// What the model keeps of a data node: its role, the index of its concrete
/// type among the registered ones, and its UUID.
#[derive(Clone, Copy, Debug, PartialEq, Eq, Structural)]
pub struct DataRec {
    pub pvm_ty: PVMDataType,
    pub ty: usize,
    pub uuid: u128,
}

/// A name of an object: a path, or a network address and port.
#[derive(Debug)]
pub enum Name {
    Path(String),
    Net(String, u16),
}

/// The abstract form of a name.
pub enum NameV {
    Path(Seq<char>),
    Net(Seq<char>, u16),
}

impl View for Name {
    type V = NameV;

    open spec fn view(&self) -> NameV {
        match self {
            Name::Path(p) => NameV::Path(p@),
            Name::Net(a, p) => NameV::Net(a@, *p),
        }
    }
}

impl Name {
    /// Whether two names are the same.
    pub fn same(&self, other: &Name) -> (r: bool)
        ensures
            r == (self@ == other@),
    {
        match (self, other) {
            (Name::Path(a), Name::Path(b)) => *a == *b,
            (Name::Net(a, p), Name::Net(b, q)) => *p == *q && *a == *b,
            _ => false,
        }
    }

    /// A copy of the name.
    pub fn copy(&self) -> (r: Name)
        ensures
            r == *self,
    {
        match self {
            Name::Path(p) => Name::Path(p.clone()),
            Name::Net(a, p) => Name::Net(a.clone(), *p),
        }
    }
}

/// The metadata a new data node starts with.
#[derive(Debug)]
pub enum MetaInit {
    /// None.
    Empty,
    /// The given properties, set in the node's context.
    Props(Vec<(String, String)>),
    /// A snapshot of the metadata of the given node, taken in the new node's
    /// context.
    Snapshot(ID),
}

/// One change to the provenance graph, in the order the model made it.
#[derive(Debug)]
pub enum PvmOp {
    /// The schema node of the registered data type `ty`.
    DataSchema { id: ID, ty: usize },
    /// The schema node of the registered context type `ty`.
    CtxSchema { id: ID, ty: usize },
    /// A context node of context type `ty` with the given contents.
    Ctx { id: ID, ty: usize, cont: Vec<(String, String)> },
    /// A data node.
    Data { id: ID, pvm_ty: PVMDataType, ty: usize, uuid: u128, ctx: ID, init: MetaInit },
    /// The node `dst` takes in a snapshot of the metadata of `src`, taken in
    /// context `ctx`, and is stored again.
    Merge { dst: ID, src: ID, ctx: ID },
    /// The property `key` of `node` is set to `val` in context `ctx`
    /// (inherited by later versions when `heritable`), and the node is stored
    /// again.
    Meta { node: ID, key: &'static str, val: String, ctx: ID, heritable: bool },
    /// A name node.
    Name { id: ID, name: Name },
    /// A relationship.
    CreateRel(GraphRel),
    /// A relationship changed.
    UpdateRel(GraphRel),
}

/// The current context: a context node, or one to make when it is first needed.
#[derive(Debug)]
pub enum CtxStore {
    Node(ID),
    Lazy(usize, Vec<(String, String)>),
}

/// What a new version of a node is: the node of another UUID, or a new node
/// of the same UUID with the given role.
#[derive(Clone, Copy, Debug, PartialEq, Eq, Structural)]
pub enum VersionTo {
    Uuid(u128),
    Role(PVMDataType),
}

/// The state of the model.
pub struct PvmState {
    /// The next identifier to hand out.
    pub next: int,
    /// The registered data types and context types.
    pub types: Seq<ConcreteType>,
    pub ctx_types: Seq<ContextType>,
    /// The current node of each known UUID.
    pub uuids: Map<u128, i64>,
    /// The data nodes the model still works with.
    pub nodes: Map<i64, DataRec>,
    /// The information flows, by source and destination.
    pub infs: Map<i64, Map<i64, i64>>,
    /// The namings, by named node and name node.
    pub nameds: Map<i64, Map<i64, i64>>,
    /// The relationships, by identifier.
    pub rels: Map<i64, GraphRel>,
    /// For each store being written, the actors writing it.
    pub open: Map<u128, Set<u128>>,
    /// The name nodes, by name.
    pub names: Seq<(NameV, i64)>,
    /// The container node of each store's UUID.
    pub conts: Map<u128, i64>,
    /// The current context.
    pub ctx: CtxStore,
    /// The changes made so far.
    pub ops: Seq<PvmOp>,
    /// The names of the events that the model did not know, each once.
    pub unparsed: Seq<Seq<char>>,
}

/// Whether an index by two identifiers has an entry for `a` and `b`.
pub open spec fn has2(m: Map<i64, Map<i64, i64>>, a: i64, b: i64) -> bool {
    m.contains_key(a) && m[a].contains_key(b)
}

/// An index by two identifiers with `v` under `a` and `b`.
pub open spec fn put2(m: Map<i64, Map<i64, i64>>, a: i64, b: i64, v: i64) -> Map<i64, Map<i64, i64>> {
    m.insert(a, (if m.contains_key(a) { m[a] } else { Map::empty() }).insert(b, v))
}

/// The identifier of the name node for `n`, if there is one.
pub open spec fn name_id(names: Seq<(NameV, i64)>, n: NameV) -> Option<i64> {
    if exists|i: int| 0 <= i < names.len() && (#[trigger] names[i]).0 == n {
        Some(names[choose|i: int| 0 <= i < names.len() && (#[trigger] names[i]).0 == n].1)
    } else {
        None
    }
}

/// The relationship `rel` is an information flow from `src` to `dst` under
/// identifier `id`.
pub open spec fn is_inf(rel: GraphRel, id: i64, src: i64, dst: i64) -> bool {
    rel matches GraphRel::Inf { id: i, src: s, dst: d, .. } && i.0 == id && s.0 == src && d.0 == dst
}

/// The relationship `rel` is a naming of `src` by `dst` under identifier `id`.
pub open spec fn is_named(rel: GraphRel, id: i64, src: i64, dst: i64) -> bool {
    rel matches GraphRel::Named { id: i, src: s, dst: d, .. } && i.0 == id && s.0 == src && d.0 == dst
}

/// The state is consistent: identifiers below `next` were handed out, each
/// UUID's node is a node of that UUID, each indexed relationship is the one
/// its index says, and no name has two nodes.
pub open spec fn consistent(s: PvmState) -> bool {
    &&& 1 <= s.next <= i64::MAX
    &&& forall|k: i64| #[trigger] s.nodes.contains_key(k) ==> 1 <= k < s.next && s.nodes[k].ty < s.types.len()
    &&& forall|u: u128| #[trigger] s.uuids.contains_key(u) ==> s.nodes.contains_key(s.uuids[u]) && s.nodes[s.uuids[u]].uuid == u
    &&& forall|k: i64| #[trigger] s.rels.contains_key(k) ==> 1 <= k < s.next
    &&& forall|a: i64, b: i64| #[trigger] has2(s.infs, a, b) ==> s.rels.contains_key(s.infs[a][b]) && is_inf(s.rels[s.infs[a][b]], s.infs[a][b], a, b)
    &&& forall|a: i64, b: i64| #[trigger] has2(s.nameds, a, b) ==> s.rels.contains_key(s.nameds[a][b]) && is_named(s.rels[s.nameds[a][b]], s.nameds[a][b], a, b)
    &&& forall|i: int, j: int| 0 <= i < j < s.names.len() ==> (#[trigger] s.names[i]).0 != (#[trigger] s.names[j]).0
    &&& forall|i: int| 0 <= i < s.names.len() ==> 1 <= (#[trigger] s.names[i]).1 < s.next
    &&& (s.ctx matches CtxStore::Lazy(ty, _) ==> ty < s.ctx_types.len())
}

/// The relationship indexes of a consistent state still hold in a state with
/// the same indexes and relationships.
proof fn lemma_indexes_kept(s0: PvmState, s1: PvmState)
    requires
        consistent(s0),
        s1.infs == s0.infs,
        s1.nameds == s0.nameds,
        s1.rels == s0.rels,
    ensures
        forall|a: i64, b: i64| #[trigger] has2(s1.infs, a, b) ==> s1.rels.contains_key(s1.infs[a][b]) && is_inf(s1.rels[s1.infs[a][b]], s1.infs[a][b], a, b),
        forall|a: i64, b: i64| #[trigger] has2(s1.nameds, a, b) ==> s1.rels.contains_key(s1.nameds[a][b]) && is_named(s1.rels[s1.nameds[a][b]], s1.nameds[a][b], a, b),
{
    assert forall|a: i64, b: i64| #[trigger] has2(s1.infs, a, b) implies s1.rels.contains_key(s1.infs[a][b]) && is_inf(s1.rels[s1.infs[a][b]], s1.infs[a][b], a, b) by {
        assert(has2(s0.infs, a, b));
    }
    assert forall|a: i64, b: i64| #[trigger] has2(s1.nameds, a, b) implies s1.rels.contains_key(s1.nameds[a][b]) && is_named(s1.rels[s1.nameds[a][b]], s1.nameds[a][b], a, b) by {
        assert(has2(s0.nameds, a, b));
    }
}

/// Consistency survives handing out identifiers, registering types, changing
/// the context and recording changes.
proof fn lemma_consistent_grow(s0: PvmState, s1: PvmState)
    requires
        consistent(s0),
        s1.uuids == s0.uuids,
        s1.nodes == s0.nodes,
        s1.infs == s0.infs,
        s1.nameds == s0.nameds,
        s1.rels == s0.rels,
        s1.names == s0.names,
        s0.next <= s1.next <= i64::MAX,
        s0.types.len() <= s1.types.len(),
        s1.ctx matches CtxStore::Lazy(ty, _) ==> ty < s1.ctx_types.len(),
    ensures
        consistent(s1),
{
    lemma_indexes_kept(s0, s1);
}

/// The current context node, made first if it is still to be made.
pub open spec fn ctx_spec(s: PvmState) -> (PvmState, i64) {
    match s.ctx {
        CtxStore::Node(i) => (s, i.0),
        CtxStore::Lazy(ty, cont) => (
            PvmState {
                next: s.next + 1,
                ctx: CtxStore::Node(ID(s.next as i64)),
                ops: s.ops.push(PvmOp::Ctx { id: ID(s.next as i64), ty, cont }),
                ..s
            },
            s.next as i64,
        ),
    }
}

/// A new data node of role `pvm_ty` and type `ty` for `uuid`, under the next
/// identifier and in the current context; it becomes the node of `uuid`, and
/// the previous node of `uuid` is dropped.
pub open spec fn add_spec(s: PvmState, pvm_ty: PVMDataType, ty: usize, uuid: u128, init: MetaInit) -> (PvmState, i64) {
    let id = s.next as i64;
    let (s2, c) = ctx_spec(PvmState { next: s.next + 1, ..s });
    let nodes = if s2.uuids.contains_key(uuid) { s2.nodes.remove(s2.uuids[uuid]) } else { s2.nodes };
    (
        PvmState {
            uuids: s2.uuids.insert(uuid, id),
            nodes: nodes.insert(id, DataRec { pvm_ty, ty, uuid }),
            ops: s2.ops.push(PvmOp::Data { id: ID(id), pvm_ty, ty, uuid, ctx: ID(c), init }),
            ..s2
        },
        id,
    )
}

/// The node of `uuid`: the known one, or a new one of type `ty` (with the
/// given properties, set in the current context).
pub open spec fn declare_spec(s: PvmState, ty: usize, uuid: u128, init: Option<Vec<(String, String)>>) -> (PvmState, i64) {
    if s.uuids.contains_key(uuid) {
        (s, s.uuids[uuid])
    } else {
        match init {
            Some(v) => add_spec(ctx_spec(s).0, s.types[ty as int].pvm_ty, ty, uuid, MetaInit::Props(v)),
            None => add_spec(s, s.types[ty as int].pvm_ty, ty, uuid, MetaInit::Empty),
        }
    }
}

/// The state with the node of `uuid` forgotten.
pub open spec fn release_spec(s: PvmState, uuid: u128) -> PvmState {
    if s.uuids.contains_key(uuid) {
        PvmState { uuids: s.uuids.remove(uuid), nodes: s.nodes.remove(s.uuids[uuid]), ..s }
    } else {
        s
    }
}

/// An information flow from `src` to `dst`: the known one, or a new one with
/// operation `op`, in the current context, with no bytes counted.
pub open spec fn inf_spec(s: PvmState, src: i64, dst: i64, op: PVMOps) -> (PvmState, i64) {
    if has2(s.infs, src, dst) {
        (s, s.infs[src][dst])
    } else {
        let id = s.next as i64;
        let (s2, c) = ctx_spec(PvmState { next: s.next + 1, ..s });
        let rel = GraphRel::Inf { id: ID(id), src: ID(src), dst: ID(dst), pvm_op: op, ctx: ID(c), byte_count: 0 };
        (
            PvmState {
                infs: put2(s2.infs, src, dst, id),
                rels: s2.rels.insert(id, rel),
                ops: s2.ops.push(PvmOp::CreateRel(rel)),
                ..s2
            },
            id,
        )
    }
}

/// A naming of `src` by the name node `dst`: the known one, or a new one
/// that starts in the current context and has not ended.
pub open spec fn named_spec(s: PvmState, src: i64, dst: i64) -> (PvmState, i64) {
    if has2(s.nameds, src, dst) {
        (s, s.nameds[src][dst])
    } else {
        let id = s.next as i64;
        let (s2, c) = ctx_spec(PvmState { next: s.next + 1, ..s });
        let rel = GraphRel::Named { id: ID(id), src: ID(src), dst: ID(dst), start: ID(c), end: ID(0) };
        (
            PvmState {
                nameds: put2(s2.nameds, src, dst, id),
                rels: s2.rels.insert(id, rel),
                ops: s2.ops.push(PvmOp::CreateRel(rel)),
                ..s2
            },
            id,
        )
    }
}

/// A new version of the node `src`: the node of another UUID, which takes in
/// a snapshot of the metadata of `src`, or a new node of the same UUID and
/// type with the given role, which starts from such a snapshot; either way
/// linked from `src` by a version flow.
pub open spec fn version_spec(s: PvmState, src: i64, to: VersionTo) -> (PvmState, i64) {
    let rec = s.nodes[src];
    let (s1, c) = ctx_spec(s);
    let (s2, d) = match to {
        VersionTo::Uuid(u) => {
            let (t, d) = declare_spec(s1, rec.ty, u, None);
            (PvmState { ops: t.ops.push(PvmOp::Merge { dst: ID(d), src: ID(src), ctx: ID(c) }), ..t }, d)
        },
        VersionTo::Role(p) => add_spec(s1, p, rec.ty, rec.uuid, MetaInit::Snapshot(ID(src))),
    };
    (inf_spec(s2, src, d, PVMOps::Version).0, d)
}

/// A version may be made of `src`: it is a node, and a version for another
/// UUID is not `src` itself.
pub open spec fn can_version(s: PvmState, src: i64, to: VersionTo) -> bool {
    &&& s.nodes.contains_key(src)
    &&& (to matches VersionTo::Uuid(u) ==> !(s.uuids.contains_key(u) && s.uuids[u] == src))
}

/// `act` is an actor node and `ent` another node.
pub open spec fn acts_on(s: PvmState, act: i64, ent: i64) -> bool {
    &&& s.nodes.contains_key(act)
    &&& s.nodes.contains_key(ent)
    &&& act != ent
    &&& s.nodes[act].pvm_ty == PVMDataType::Actor
}

/// The relationship with `n` more bytes counted, if it is an information flow.
pub open spec fn add_bytes(r: GraphRel, n: i64) -> GraphRel {
    match r {
        GraphRel::Inf { id, src, dst, pvm_op, ctx, byte_count } => GraphRel::Inf {
            id,
            src,
            dst,
            pvm_op,
            ctx,
            byte_count: (byte_count + n) as i64,
        },
        GraphRel::Named { .. } => r,
    }
}

/// Counting `n` more bytes on the relationship stays in range.
pub open spec fn bytes_fit(r: GraphRel, n: i64) -> bool {
    r matches GraphRel::Inf { byte_count, .. } ==> i64::MIN <= byte_count + n <= i64::MAX
}

/// The relationship `id` with `n` more bytes counted, and the change recorded.
pub open spec fn count_spec(s: PvmState, id: i64, n: i64) -> PvmState {
    let r = add_bytes(s.rels[id], n);
    PvmState { rels: s.rels.insert(id, r), ops: s.ops.push(PvmOp::UpdateRel(r)), ..s }
}

/// The actor `act` reads `ent`: a flow from `ent` to `act`.
pub open spec fn source_spec(s: PvmState, act: i64, ent: i64) -> (PvmState, i64) {
    inf_spec(s, ent, act, PVMOps::Source)
}

/// The actor `act` writes `ent`: a store is versioned first and the new
/// version is written; other nodes are written as they are.
pub open spec fn sink_spec(s: PvmState, act: i64, ent: i64) -> (PvmState, i64) {
    if s.nodes[ent].pvm_ty == PVMDataType::Store {
        let (s1, f) = version_spec(s, ent, VersionTo::Role(PVMDataType::Store));
        inf_spec(s1, act, f, PVMOps::Sink)
    } else {
        inf_spec(s, act, ent, PVMOps::Sink)
    }
}

/// The actor `act` starts writing `ent`: a store gets an edit session as its
/// new version, with `act` its only writer; an edit session gains `act` as a
/// writer; either way, and for other nodes, a write flow from `act`.
pub open spec fn sinkstart_spec(s: PvmState, act: i64, ent: i64) -> (PvmState, i64) {
    let a = s.nodes[act];
    let e = s.nodes[ent];
    if e.pvm_ty == PVMDataType::Store {
        let (s1, es) = version_spec(s, ent, VersionTo::Role(PVMDataType::EditSession));
        inf_spec(PvmState { open: s1.open.insert(e.uuid, set![a.uuid]), ..s1 }, act, es, PVMOps::Sink)
    } else if e.pvm_ty == PVMDataType::EditSession {
        inf_spec(PvmState { open: s.open.insert(e.uuid, s.open[e.uuid].insert(a.uuid)), ..s }, act, ent, PVMOps::Sink)
    } else {
        inf_spec(s, act, ent, PVMOps::Sink)
    }
}

/// The actor `act` stops writing `ent`: when `ent` is an edit session, `act`
/// is no longer among its writers, and when none is left the session becomes
/// a store again, as a new version.
pub open spec fn sinkend_spec(s: PvmState, act: i64, ent: i64) -> PvmState {
    let a = s.nodes[act];
    let e = s.nodes[ent];
    if e.pvm_ty == PVMDataType::EditSession {
        let w = s.open[e.uuid].remove(a.uuid);
        let s1 = PvmState { open: s.open.insert(e.uuid, w), ..s };
        if w.is_empty() {
            version_spec(s1, ent, VersionTo::Role(PVMDataType::Store)).0
        } else {
            s1
        }
    } else {
        s
    }
}

/// Writing into an edit session needs its writers to be known.
pub open spec fn sessions_known(s: PvmState, ent: i64) -> bool {
    s.nodes[ent].pvm_ty == PVMDataType::EditSession ==> s.open.contains_key(s.nodes[ent].uuid)
}

/// The name node for `name`: the known one, or a new one under the next
/// identifier.
pub open spec fn decl_name_spec(s: PvmState, name: Name) -> (PvmState, i64) {
    match name_id(s.names, name@) {
        Some(i) => (s, i),
        None => {
            let id = s.next as i64;
            (
                PvmState {
                    next: s.next + 1,
                    names: s.names.push((name@, id)),
                    ops: s.ops.push(PvmOp::Name { id: ID(id), name }),
                    ..s
                },
                id,
            )
        },
    }
}

/// The container node of the UUID of node `ent`: the known one, or a new one
/// of the same type, in the root context.
pub open spec fn decl_fcont_spec(s: PvmState, ent: i64) -> (PvmState, i64) {
    let e = s.nodes[ent];
    if s.conts.contains_key(e.uuid) {
        (s, s.conts[e.uuid])
    } else {
        let id = s.next as i64;
        (
            PvmState {
                next: s.next + 1,
                conts: s.conts.insert(e.uuid, id),
                ops: s.ops.push(PvmOp::Data { id: ID(id), pvm_ty: PVMDataType::StoreCont, ty: e.ty, uuid: e.uuid, ctx: ID(0), init: MetaInit::Empty }),
                nodes: s.nodes.insert(id, DataRec { pvm_ty: PVMDataType::StoreCont, ty: e.ty, uuid: e.uuid }),
                ..s
            },
            id,
        )
    }
}

/// Node `obj` is named `name`: a store or edit session through the container
/// node of its UUID, any other node directly.
pub open spec fn name_spec(s: PvmState, obj: i64, name: Name) -> (PvmState, i64) {
    let (s1, n) = decl_name_spec(s, name);
    let t = s.nodes[obj].pvm_ty;
    if t == PVMDataType::Store || t == PVMDataType::EditSession {
        let (s2, c) = decl_fcont_spec(s1, obj);
        named_spec(s2, c, n)
    } else {
        named_spec(s1, obj, n)
    }
}

/// Node `obj` is no longer named `name`: the naming ends in the current context.
pub open spec fn unname_spec(s: PvmState, obj: i64, name: Name) -> (PvmState, i64) {
    let (s1, id) = name_spec(s, obj, name);
    match s1.rels[id] {
        GraphRel::Named { id: i, src, dst, start, .. } => {
            let (s2, c) = ctx_spec(s1);
            let r = GraphRel::Named { id: i, src, dst, start, end: ID(c) };
            (PvmState { rels: s2.rels.insert(id, r), ops: s2.ops.push(PvmOp::UpdateRel(r)), ..s2 }, id)
        },
        _ => (s1, id),
    }
}

/// Whether a property `key` is inherited by new versions, if the properties
/// name it (the first entry for it counts).
pub open spec fn prop_flag(props: Seq<(String, bool)>, key: Seq<char>) -> Option<bool>
    decreases props.len(),
{
    if props.len() == 0 {
        None
    } else if props[0].0@ == key {
        Some(props[0].1)
    } else {
        prop_flag(props.drop_first(), key)
    }
}

/// Node `ent` has a property `key` by its type.
pub open spec fn has_prop(s: PvmState, ent: i64, key: Seq<char>) -> bool {
    prop_flag(s.types[s.nodes[ent].ty as int].props@, key) is Some
}

/// The property `key` of node `ent` is set to `val` in the current context.
pub open spec fn meta_spec(s: PvmState, ent: i64, key: &'static str, val: String) -> PvmState {
    let flag = prop_flag(s.types[s.nodes[ent].ty as int].props@, key@)->Some_0;
    let (s1, c) = ctx_spec(s);
    PvmState { ops: s1.ops.push(PvmOp::Meta { node: ID(ent), key, val, ctx: ID(c), heritable: flag }), ..s1 }
}

/// Conduits `first` and `second` are connected: a flow from the first to the
/// second, and back when the connection goes both ways.
pub open spec fn connect_spec(s: PvmState, first: i64, second: i64, dir: ConnectDir) -> PvmState {
    let s1 = inf_spec(s, first, second, PVMOps::Connect).0;
    if dir == ConnectDir::BiDirectional {
        inf_spec(s1, second, first, PVMOps::Connect).0
    } else {
        s1
    }
}

/// Where `name` stands among `names`, if it does.
fn find_name(names: &Vec<(Name, i64)>, name: &Name) -> (r: Option<usize>)
    ensures
        match r {
            Some(i) => i < names@.len() && names@[i as int].0@ == name@,
            None => forall|j: int| 0 <= j < names@.len() ==> (#[trigger] names@[j]).0@ != name@,
        },
{
    let mut i: usize = 0;
    while i < names.len()
        invariant
            i <= names@.len(),
            forall|j: int| 0 <= j < i ==> (#[trigger] names@[j]).0@ != name@,
        decreases names@.len() - i,
    {
        if names[i].0.same(name) {
            return Some(i);
        }
        i = i + 1;
    }
    None
}

/// Whether the property `key` is inherited, as [`prop_flag`] says.
fn find_prop(props: &Vec<(String, bool)>, key: &str) -> (r: Option<bool>)
    ensures
        r == prop_flag(props@, key@),
{
    let mut i: usize = 0;
    assert(props@.subrange(0, props@.len() as int) =~= props@);
    while i < props.len()
        invariant
            i <= props@.len(),
            prop_flag(props@, key@) == prop_flag(props@.subrange(i as int, props@.len() as int), key@),
        decreases props@.len() - i,
    {
        assert(props@.subrange(i as int, props@.len() as int).drop_first() =~= props@.subrange(i + 1, props@.len() as int));
        if crate::text::same_text(props[i].0.as_str(), key) {
            return Some(props[i].1);
        }
        i = i + 1;
    }
    None
}

/// The view of an index by two identifiers.
pub open spec fn view2(m: Map<i64, HashMap<i64, i64>>) -> Map<i64, Map<i64, i64>> {
    m.map_values(|x: HashMap<i64, i64>| x@)
}

/// Looks up `a` and `b` in an index by two identifiers.
fn find2(m: &HashMap<i64, HashMap<i64, i64>>, a: i64, b: i64) -> (r: Option<i64>)
    ensures
        r == (if has2(view2(m@), a, b) { Some(view2(m@)[a][b]) } else { None::<i64> }),
{
    match m.get(&a) {
        Some(inner) => match inner.get(&b) {
            Some(v) => Some(*v),
            None => None,
        },
        None => None,
    }
}

/// Puts `v` under `a` and `b` in an index by two identifiers.
fn put2_exec(m: &mut HashMap<i64, HashMap<i64, i64>>, a: i64, b: i64, v: i64)
    ensures
        view2(final(m)@) == put2(view2(old(m)@), a, b, v),
{
    let mut inner = match m.remove(&a) {
        Some(x) => x,
        None => HashMap::new(),
    };
    inner.insert(b, v);
    m.insert(a, inner);
    assert(view2(m@) =~= put2(view2(old(m)@), a, b, v));
}

/// The provenance model.
pub struct PVM {
    types: Vec<ConcreteType>,
    ctx_types: Vec<ContextType>,
    uuid_cache: HashMap<u128, i64>,
    node_cache: HashMap<i64, DataRec>,
    inf_cache: HashMap<i64, HashMap<i64, i64>>,
    named_cache: HashMap<i64, HashMap<i64, i64>>,
    rel_cache: HashMap<i64, GraphRel>,
    next_id: i64,
    open_cache: HashMap<u128, HashSet<u128>>,
    name_cache: Vec<(Name, i64)>,
    cont_cache: HashMap<u128, i64>,
    cur_ctx: CtxStore,
    ops: Vec<PvmOp>,
    unparsed: Vec<String>,
}

impl PVM {
    /// The state of the model.
    pub closed spec fn state(&self) -> PvmState {
        PvmState {
            next: self.next_id as int,
            types: self.types@,
            ctx_types: self.ctx_types@,
            uuids: self.uuid_cache@,
            nodes: self.node_cache@,
            infs: view2(self.inf_cache@),
            nameds: view2(self.named_cache@),
            rels: self.rel_cache@,
            open: self.open_cache@.map_values(|x: HashSet<u128>| x@),
            names: self.name_cache@.map_values(|p: (Name, i64)| (p.0@, p.1)),
            conts: self.cont_cache@,
            ctx: self.cur_ctx,
            ops: self.ops@,
            unparsed: self.unparsed@.map_values(|e: String| e@),
        }
    }

    /// The model is consistent.
    pub open spec fn wf(&self) -> bool {
        consistent(self.state())
    }

    /// There are identifiers left for any one operation of the model.
    pub open spec fn room(&self) -> bool {
        self.state().next + 16 <= i64::MAX
    }

    /// A model with nothing in it; identifiers start at 1, and the context is
    /// the root context, 0.
    pub fn new() -> (r: PVM)
        ensures
            r.wf(),
            r.state() == (PvmState {
                next: 1,
                types: Seq::empty(),
                ctx_types: Seq::empty(),
                uuids: Map::empty(),
                nodes: Map::empty(),
                infs: Map::empty(),
                nameds: Map::empty(),
                rels: Map::empty(),
                open: Map::empty(),
                names: Seq::empty(),
                conts: Map::empty(),
                ctx: CtxStore::Node(ID(0)),
                ops: Seq::empty(),
                unparsed: Seq::empty(),
            }),
    {
        let r = PVM {
            types: Vec::new(),
            ctx_types: Vec::new(),
            uuid_cache: HashMap::new(),
            node_cache: HashMap::new(),
            inf_cache: HashMap::new(),
            named_cache: HashMap::new(),
            rel_cache: HashMap::new(),
            next_id: 1,
            open_cache: HashMap::new(),
            name_cache: Vec::new(),
            cont_cache: HashMap::new(),
            cur_ctx: CtxStore::Node(ID::new(0)),
            ops: Vec::new(),
            unparsed: Vec::new(),
        };
        assert(r.state().unparsed =~= Seq::empty());
        assert(r.state().infs =~= Map::empty());
        assert(r.state().nameds =~= Map::empty());
        assert(r.state().open =~= Map::empty());
        assert(r.state().names =~= Seq::empty());
        r
    }

    /// The changes made since the last call, in order; they are handed over.
    pub fn take_ops(&mut self) -> (r: Vec<PvmOp>)
        requires
            old(self).wf(),
        ensures
            final(self).wf(),
            r@ == old(self).state().ops,
            final(self).state() == (PvmState { ops: Seq::empty(), ..old(self).state() }),
    {
        let mut r = Vec::new();
        std::mem::swap(&mut r, &mut self.ops);
        assert(self.state() =~= (PvmState { ops: Seq::empty(), ..old(self).state() }));
        r
    }

    /// Makes `ty` a registered data type, under the returned index, and adds
    /// its schema node.
    pub fn register_data_type(&mut self, ty: ConcreteType) -> (r: usize)
        requires
            old(self).wf(),
            old(self).room(),
        ensures
            final(self).wf(),
            r == old(self).state().types.len(),
            final(self).state() == (PvmState {
                next: old(self).state().next + 1,
                types: old(self).state().types.push(ty),
                ops: old(self).state().ops.push(PvmOp::DataSchema { id: ID(old(self).state().next as i64), ty: r }),
                ..old(self).state()
            }),
    {
        let r = self.types.len();
        self.types.push(ty);
        let id = self.next_id;
        self.next_id = id + 1;
        self.ops.push(PvmOp::DataSchema { id: ID::new(id), ty: r });
        r
    }

    /// Makes `ty` a registered context type, under the returned index, and
    /// adds its schema node.
    pub fn register_ctx_type(&mut self, ty: ContextType) -> (r: usize)
        requires
            old(self).wf(),
            old(self).room(),
        ensures
            final(self).wf(),
            r == old(self).state().ctx_types.len(),
            final(self).state() == (PvmState {
                next: old(self).state().next + 1,
                ctx_types: old(self).state().ctx_types.push(ty),
                ops: old(self).state().ops.push(PvmOp::CtxSchema { id: ID(old(self).state().next as i64), ty: r }),
                ..old(self).state()
            }),
    {
        let r = self.ctx_types.len();
        self.ctx_types.push(ty);
        let id = self.next_id;
        self.next_id = id + 1;
        self.ops.push(PvmOp::CtxSchema { id: ID::new(id), ty: r });
        r
    }

    /// Starts a new context of the registered context type `ty`; its node is
    /// made when it is first needed.
    pub fn new_ctx(&mut self, ty: usize, cont: Vec<(String, String)>)
        requires
            old(self).wf(),
            ty < old(self).state().ctx_types.len(),
        ensures
            final(self).wf(),
            final(self).state() == (PvmState { ctx: CtxStore::Lazy(ty, cont), ..old(self).state() }),
    {
        self.cur_ctx = CtxStore::Lazy(ty, cont);
    }

    /// The current context node, made first if it is still to be made.
    pub fn ctx(&mut self) -> (r: ID)
        requires
            old(self).wf(),
            old(self).state().next + 1 <= i64::MAX,
        ensures
            final(self).wf(),
            (final(self).state(), r.0) == ctx_spec(old(self).state()),
    {
        if let CtxStore::Node(i) = &self.cur_ctx {
            return *i;
        }
        let id = self.next_id;
        self.next_id = id + 1;
        let mut cur = CtxStore::Node(ID::new(id));
        std::mem::swap(&mut cur, &mut self.cur_ctx);
        match cur {
            CtxStore::Lazy(ty, cont) => {
                self.ops.push(PvmOp::Ctx { id: ID::new(id), ty, cont });
            },
            CtxStore::Node(_) => {},
        }
        proof {
            lemma_consistent_grow(old(self).state(), self.state());
        }
        ID::new(id)
    }

    /// Adds a data node for `uuid` (see [`add_spec`]).
    fn add_node(&mut self, pvm_ty: PVMDataType, ty: usize, uuid: u128, init: MetaInit) -> (r: ID)
        requires
            old(self).wf(),
            ty < old(self).state().types.len(),
            old(self).state().next + 2 <= i64::MAX,
        ensures
            final(self).wf(),
            (final(self).state(), r.0) == add_spec(old(self).state(), pvm_ty, ty, uuid, init),
            old(self).state().next < final(self).state().next <= old(self).state().next + 2,
    {
        let id = self.next_id;
        self.next_id = id + 1;
        proof {
            lemma_consistent_grow(old(self).state(), self.state());
        }
        let c = self.ctx();
        let ghost s2 = self.state();
        match self.uuid_cache.insert(uuid, id) {
            Some(nid) => {
                self.node_cache.remove(&nid);
            },
            None => {},
        }
        self.ops.push(PvmOp::Data { id: ID::new(id), pvm_ty, ty, uuid, ctx: c, init });
        self.node_cache.insert(id, DataRec { pvm_ty, ty, uuid });
        proof {
            let s = self.state();
            lemma_indexes_kept(s2, s);
            assert forall|u: u128| #[trigger] s.uuids.contains_key(u) implies s.nodes.contains_key(s.uuids[u]) && s.nodes[s.uuids[u]].uuid == u by {
                if u != uuid {
                    assert(s2.uuids.contains_key(u));
                    assert(s2.nodes[s2.uuids[u]].uuid == u);
                }
            }
        }
        ID::new(id)
    }

    /// Adds a data node of role `pvm_ty` and registered type `ty` for `uuid`,
    /// in the current context; it becomes the node of `uuid`.
    pub fn add(&mut self, pvm_ty: PVMDataType, ty: usize, uuid: u128, init: MetaInit) -> (r: ID)
        requires
            old(self).wf(),
            old(self).room(),
            ty < old(self).state().types.len(),
        ensures
            final(self).wf(),
            (final(self).state(), r.0) == add_spec(old(self).state(), pvm_ty, ty, uuid, init),
    {
        self.add_node(pvm_ty, ty, uuid, init)
    }

    /// The node of `uuid`, declared as a node of the registered type `ty` if
    /// the UUID is new (with the given properties, if any).
    fn declare_node(&mut self, ty: usize, uuid: u128, init: Option<Vec<(String, String)>>) -> (r: ID)
        requires
            old(self).wf(),
            ty < old(self).state().types.len(),
            old(self).state().next + 3 <= i64::MAX,
        ensures
            final(self).wf(),
            (final(self).state(), r.0) == declare_spec(old(self).state(), ty, uuid, init),
            old(self).state().next <= final(self).state().next <= old(self).state().next + 3,
    {
        match self.uuid_cache.get(&uuid) {
            Some(id) => ID::new(*id),
            None => {
                let pvm_ty = self.types[ty].pvm_ty;
                match init {
                    Some(v) => {
                        self.ctx();
                        self.add_node(pvm_ty, ty, uuid, MetaInit::Props(v))
                    },
                    None => self.add_node(pvm_ty, ty, uuid, MetaInit::Empty),
                }
            },
        }
    }

    /// The node of `uuid`, declared as a node of the registered type `ty` if
    /// the UUID is new (with the given properties, if any).
    pub fn declare(&mut self, ty: usize, uuid: u128, init: Option<Vec<(String, String)>>) -> (r: ID)
        requires
            old(self).wf(),
            old(self).room(),
            ty < old(self).state().types.len(),
        ensures
            final(self).wf(),
            old(self).state().next <= final(self).state().next <= old(self).state().next + 16,
            (final(self).state(), r.0) == declare_spec(old(self).state(), ty, uuid, init),
    {
        self.declare_node(ty, uuid, init)
    }

    /// What the model keeps of node `id`.
    fn node(&self, id: i64) -> (r: DataRec)
        requires
            self.state().nodes.contains_key(id),
        ensures
            r == self.state().nodes[id],
    {
        match self.node_cache.get(&id) {
            Some(r) => *r,
            None => {
                proof {
                    assert(false);
                }
                vstd::pervasive::unreached()
            },
        }
    }

    /// The information flow from `src` to `dst` (see [`inf_spec`]).
    fn inf_rel(&mut self, src: i64, dst: i64, op: PVMOps) -> (r: ID)
        requires
            old(self).wf(),
            old(self).state().next + 2 <= i64::MAX,
        ensures
            final(self).wf(),
            (final(self).state(), r.0) == inf_spec(old(self).state(), src, dst, op),
            old(self).state().next <= final(self).state().next <= old(self).state().next + 2,
    {
        match find2(&self.inf_cache, src, dst) {
            Some(id) => ID::new(id),
            None => {
                let id = self.next_id;
                self.next_id = id + 1;
                proof {
                    lemma_consistent_grow(old(self).state(), self.state());
                }
                let c = self.ctx();
                let ghost s2 = self.state();
                let rel = GraphRel::Inf { id: ID::new(id), src: ID::new(src), dst: ID::new(dst), pvm_op: op, ctx: c, byte_count: 0 };
                self.ops.push(PvmOp::CreateRel(rel));
                put2_exec(&mut self.inf_cache, src, dst, id);
                self.rel_cache.insert(id, rel);
                proof {
                    let s = self.state();
                    assert(!s2.rels.contains_key(id)) by {
                        if s2.rels.contains_key(id) {
                            assert(old(self).state().rels.contains_key(id));
                        }
                    }
                    assert forall|a: i64, b: i64| #[trigger] has2(s.infs, a, b) implies s.rels.contains_key(s.infs[a][b]) && is_inf(s.rels[s.infs[a][b]], s.infs[a][b], a, b) by {
                        if !(a == src && b == dst) {
                            assert(has2(s2.infs, a, b));
                        }
                    }
                    assert forall|a: i64, b: i64| #[trigger] has2(s.nameds, a, b) implies s.rels.contains_key(s.nameds[a][b]) && is_named(s.rels[s.nameds[a][b]], s.nameds[a][b], a, b) by {
                        assert(has2(s2.nameds, a, b));
                    }
                }
                ID::new(id)
            },
        }
    }

    /// The naming of `src` by the name node `dst` (see [`named_spec`]).
    fn named_rel(&mut self, src: i64, dst: i64) -> (r: ID)
        requires
            old(self).wf(),
            old(self).state().next + 2 <= i64::MAX,
        ensures
            final(self).wf(),
            (final(self).state(), r.0) == named_spec(old(self).state(), src, dst),
            old(self).state().next <= final(self).state().next <= old(self).state().next + 2,
    {
        match find2(&self.named_cache, src, dst) {
            Some(id) => ID::new(id),
            None => {
                let id = self.next_id;
                self.next_id = id + 1;
                proof {
                    lemma_consistent_grow(old(self).state(), self.state());
                }
                let c = self.ctx();
                let ghost s2 = self.state();
                let rel = GraphRel::Named { id: ID::new(id), src: ID::new(src), dst: ID::new(dst), start: c, end: ID::new(0) };
                self.ops.push(PvmOp::CreateRel(rel));
                put2_exec(&mut self.named_cache, src, dst, id);
                self.rel_cache.insert(id, rel);
                proof {
                    let s = self.state();
                    assert(!s2.rels.contains_key(id)) by {
                        if s2.rels.contains_key(id) {
                            assert(old(self).state().rels.contains_key(id));
                        }
                    }
                    assert forall|a: i64, b: i64| #[trigger] has2(s.nameds, a, b) implies s.rels.contains_key(s.nameds[a][b]) && is_named(s.rels[s.nameds[a][b]], s.nameds[a][b], a, b) by {
                        if !(a == src && b == dst) {
                            assert(has2(s2.nameds, a, b));
                        }
                    }
                    assert forall|a: i64, b: i64| #[trigger] has2(s.infs, a, b) implies s.rels.contains_key(s.infs[a][b]) && is_inf(s.rels[s.infs[a][b]], s.infs[a][b], a, b) by {
                        assert(has2(s2.infs, a, b));
                    }
                }
                ID::new(id)
            },
        }
    }

    /// A new version of the node `src` (see [`version_spec`]).
    fn version(&mut self, src: i64, to: VersionTo) -> (r: ID)
        requires
            old(self).wf(),
            can_version(old(self).state(), src, to),
            old(self).state().next + 6 <= i64::MAX,
        ensures
            final(self).wf(),
            (final(self).state(), r.0) == version_spec(old(self).state(), src, to),
            old(self).state().next <= final(self).state().next <= old(self).state().next + 6,
    {
        let rec = self.node(src);
        let c = self.ctx();
        let d = match to {
            VersionTo::Uuid(u) => {
                let d = self.declare_node(rec.ty, u, None);
                let ghost t = self.state();
                self.ops.push(PvmOp::Merge { dst: d, src: ID::new(src), ctx: c });
                proof {
                    lemma_consistent_grow(t, self.state());
                }
                d
            },
            VersionTo::Role(p) => self.add_node(p, rec.ty, rec.uuid, MetaInit::Snapshot(ID::new(src))),
        };
        self.inf_rel(src, d.0, PVMOps::Version);
        d
    }

    /// A new version of the node `src`: the node of `dst`, declared with the
    /// type of `src` if it is new, which takes in a snapshot of the metadata
    /// of `src`.
    pub fn derive(&mut self, src: ID, dst: u128) -> (r: ID)
        requires
            old(self).wf(),
            old(self).room(),
            can_version(old(self).state(), src.0, VersionTo::Uuid(dst)),
        ensures
            final(self).wf(),
            (final(self).state(), r.0) == version_spec(old(self).state(), src.0, VersionTo::Uuid(dst)),
    {
        self.version(src.0, VersionTo::Uuid(dst))
    }

    /// The actor `act` reads `ent` (see [`source_spec`]).
    pub fn source(&mut self, act: ID, ent: ID) -> (r: ID)
        requires
            old(self).wf(),
            old(self).room(),
            old(self).state().nodes.contains_key(act.0),
            old(self).state().nodes[act.0].pvm_ty == PVMDataType::Actor,
        ensures
            final(self).wf(),
            old(self).state().next <= final(self).state().next <= old(self).state().next + 16,
            (final(self).state(), r.0) == source_spec(old(self).state(), act.0, ent.0),
    {
        self.inf_rel(ent.0, act.0, PVMOps::Source)
    }

    /// Counts `n` more bytes on the information flow `id` and records the change.
    fn count_bytes(&mut self, id: i64, n: i64)
        requires
            old(self).wf(),
            old(self).state().rels.contains_key(id),
            old(self).state().rels[id] is Inf,
            bytes_fit(old(self).state().rels[id], n),
        ensures
            final(self).wf(),
            final(self).state() == count_spec(old(self).state(), id, n),
    {
        let r = match self.rel_cache.get(&id) {
            Some(GraphRel::Inf { id: i, src, dst, pvm_op, ctx, byte_count }) => GraphRel::Inf {
                id: *i,
                src: *src,
                dst: *dst,
                pvm_op: *pvm_op,
                ctx: *ctx,
                byte_count: *byte_count + n,
            },
            _ => {
                proof {
                    assert(false);
                }
                vstd::pervasive::unreached()
            },
        };
        let ghost s0 = self.state();
        self.rel_cache.insert(id, r);
        self.ops.push(PvmOp::UpdateRel(r));
        proof {
            let s = self.state();
            assert forall|a: i64, b: i64| #[trigger] has2(s.infs, a, b) implies s.rels.contains_key(s.infs[a][b]) && is_inf(s.rels[s.infs[a][b]], s.infs[a][b], a, b) by {
                assert(has2(s0.infs, a, b));
            }
            assert forall|a: i64, b: i64| #[trigger] has2(s.nameds, a, b) implies s.rels.contains_key(s.nameds[a][b]) && is_named(s.rels[s.nameds[a][b]], s.nameds[a][b], a, b) by {
                assert(has2(s0.nameds, a, b));
            }
        }
    }

    /// The actor `act` reads `bytes` bytes of `ent`: the read flow, with the
    /// bytes counted on it.
    pub fn source_nbytes(&mut self, act: ID, ent: ID, bytes: i64) -> (r: ID)
        requires
            old(self).wf(),
            old(self).room(),
            old(self).state().nodes.contains_key(act.0),
            old(self).state().nodes[act.0].pvm_ty == PVMDataType::Actor,
            ({
                let (t, id) = source_spec(old(self).state(), act.0, ent.0);
                bytes_fit(t.rels[id], bytes)
            }),
        ensures
            final(self).wf(),
            ({
                let (t, id) = source_spec(old(self).state(), act.0, ent.0);
                r.0 == id && final(self).state() == count_spec(t, id, bytes)
            }),
    {
        let id = self.source(act, ent);
        self.count_bytes(id.0, bytes);
        id
    }

    /// The actor `act` writes `ent` (see [`sink_spec`]).
    pub fn sink(&mut self, act: ID, ent: ID) -> (r: ID)
        requires
            old(self).wf(),
            old(self).room(),
            acts_on(old(self).state(), act.0, ent.0),
        ensures
            final(self).wf(),
            old(self).state().next <= final(self).state().next <= old(self).state().next + 16,
            (final(self).state(), r.0) == sink_spec(old(self).state(), act.0, ent.0),
    {
        let e = self.node(ent.0);
        match e.pvm_ty {
            PVMDataType::Store => {
                let f = self.version(ent.0, VersionTo::Role(PVMDataType::Store));
                self.inf_rel(act.0, f.0, PVMOps::Sink)
            },
            _ => self.inf_rel(act.0, ent.0, PVMOps::Sink),
        }
    }

    /// The actor `act` starts writing `ent` (see [`sinkstart_spec`]).
    pub fn sinkstart(&mut self, act: ID, ent: ID) -> (r: ID)
        requires
            old(self).wf(),
            old(self).room(),
            acts_on(old(self).state(), act.0, ent.0),
            sessions_known(old(self).state(), ent.0),
        ensures
            final(self).wf(),
            (final(self).state(), r.0) == sinkstart_spec(old(self).state(), act.0, ent.0),
    {
        let a = self.node(act.0);
        let e = self.node(ent.0);
        match e.pvm_ty {
            PVMDataType::Store => {
                let es = self.version(ent.0, VersionTo::Role(PVMDataType::EditSession));
                let mut w = HashSet::new();
                w.insert(a.uuid);
                let ghost s1 = self.state();
                self.open_cache.insert(e.uuid, w);
                proof {
                    assert(w@ =~= set![a.uuid]);
                    assert(self.state().open =~= s1.open.insert(e.uuid, set![a.uuid]));
                    lemma_consistent_grow(s1, self.state());
                }
                self.inf_rel(act.0, es.0, PVMOps::Sink)
            },
            PVMDataType::EditSession => {
                let ghost s0 = self.state();
                let mut w = match self.open_cache.remove(&e.uuid) {
                    Some(w) => w,
                    None => {
                        proof {
                            assert(false);
                        }
                        vstd::pervasive::unreached()
                    },
                };
                w.insert(a.uuid);
                self.open_cache.insert(e.uuid, w);
                proof {
                    assert(self.state().open =~= s0.open.insert(e.uuid, s0.open[e.uuid].insert(a.uuid)));
                    lemma_consistent_grow(s0, self.state());
                }
                self.inf_rel(act.0, ent.0, PVMOps::Sink)
            },
            _ => self.inf_rel(act.0, ent.0, PVMOps::Sink),
        }
    }

    /// The actor `act` starts writing `bytes` bytes into `ent`: the write
    /// flow, with the bytes counted on it.
    pub fn sinkstart_nbytes(&mut self, act: ID, ent: ID, bytes: i64) -> (r: ID)
        requires
            old(self).wf(),
            old(self).room(),
            acts_on(old(self).state(), act.0, ent.0),
            sessions_known(old(self).state(), ent.0),
            ({
                let (t, id) = sinkstart_spec(old(self).state(), act.0, ent.0);
                bytes_fit(t.rels[id], bytes)
            }),
        ensures
            final(self).wf(),
            ({
                let (t, id) = sinkstart_spec(old(self).state(), act.0, ent.0);
                r.0 == id && final(self).state() == count_spec(t, id, bytes)
            }),
    {
        let id = self.sinkstart(act, ent);
        self.count_bytes(id.0, bytes);
        id
    }

    /// The actor `act` stops writing `ent` (see [`sinkend_spec`]).
    pub fn sinkend(&mut self, act: ID, ent: ID)
        requires
            old(self).wf(),
            old(self).room(),
            acts_on(old(self).state(), act.0, ent.0),
            sessions_known(old(self).state(), ent.0),
        ensures
            final(self).wf(),
            final(self).state() == sinkend_spec(old(self).state(), act.0, ent.0),
    {
        let a = self.node(act.0);
        let e = self.node(ent.0);
        if let PVMDataType::EditSession = e.pvm_ty {
            let ghost s0 = self.state();
            let mut w = match self.open_cache.remove(&e.uuid) {
                Some(w) => w,
                None => {
                    proof {
                        assert(false);
                    }
                    vstd::pervasive::unreached()
                },
            };
            w.remove(&a.uuid);
            let empty = w.is_empty();
            self.open_cache.insert(e.uuid, w);
            proof {
                assert(self.state().open =~= s0.open.insert(e.uuid, s0.open[e.uuid].remove(a.uuid)));
                lemma_consistent_grow(s0, self.state());
            }
            if empty {
                self.version(ent.0, VersionTo::Role(PVMDataType::Store));
            }
        }
    }

    /// The name node for `name` (see [`decl_name_spec`]).
    fn decl_name(&mut self, name: Name) -> (r: ID)
        requires
            old(self).wf(),
            old(self).state().next + 1 <= i64::MAX,
        ensures
            final(self).wf(),
            (final(self).state(), r.0) == decl_name_spec(old(self).state(), name),
            old(self).state().next <= final(self).state().next <= old(self).state().next + 1,
    {
        let ghost s0 = self.state();
        match find_name(&self.name_cache, &name) {
            Some(i) => {
                let id = self.name_cache[i].1;
                proof {
                    assert(s0.names[i as int].0 == name@);
                    let j = choose|j: int| 0 <= j < s0.names.len() && (#[trigger] s0.names[j]).0 == name@;
                    if j != i as int {
                        if j < i as int {
                            assert(s0.names[j].0 != s0.names[i as int].0);
                        } else {
                            assert(s0.names[i as int].0 != s0.names[j].0);
                        }
                    }
                }
                ID::new(id)
            },
            None => {
                proof {
                    assert(!(exists|j: int| 0 <= j < s0.names.len() && (#[trigger] s0.names[j]).0 == name@));
                }
                let id = self.next_id;
                self.next_id = id + 1;
                let copy = name.copy();
                self.ops.push(PvmOp::Name { id: ID::new(id), name });
                self.name_cache.push((copy, id));
                proof {
                    let s = self.state();
                    assert(s.names =~= s0.names.push((name@, id)));
                    lemma_indexes_kept(s0, s);
                }
                ID::new(id)
            },
        }
    }

    /// The container node of the UUID of `ent` (see [`decl_fcont_spec`]).
    fn decl_fcont(&mut self, ent: i64) -> (r: ID)
        requires
            old(self).wf(),
            old(self).state().nodes.contains_key(ent),
            old(self).state().next + 1 <= i64::MAX,
        ensures
            final(self).wf(),
            (final(self).state(), r.0) == decl_fcont_spec(old(self).state(), ent),
            old(self).state().next <= final(self).state().next <= old(self).state().next + 1,
    {
        let e = self.node(ent);
        match self.cont_cache.get(&e.uuid) {
            Some(id) => ID::new(*id),
            None => {
                let ghost s0 = self.state();
                let id = self.next_id;
                self.next_id = id + 1;
                self.cont_cache.insert(e.uuid, id);
                self.ops.push(PvmOp::Data { id: ID::new(id), pvm_ty: PVMDataType::StoreCont, ty: e.ty, uuid: e.uuid, ctx: ID::new(0), init: MetaInit::Empty });
                self.node_cache.insert(id, DataRec { pvm_ty: PVMDataType::StoreCont, ty: e.ty, uuid: e.uuid });
                proof {
                    let s = self.state();
                    lemma_indexes_kept(s0, s);
                    assert(!s0.nodes.contains_key(id));
                    assert(s.names == s0.names);
                    assert(s.rels == s0.rels);
                    assert forall|i: int| 0 <= i < s.names.len() implies 1 <= (#[trigger] s.names[i]).1 < s.next by {
                        assert(s0.names[i] == s.names[i]);
                    }
                    assert forall|i: int, j: int| 0 <= i < j < s.names.len() implies (#[trigger] s.names[i]).0 != (#[trigger] s.names[j]).0 by {
                        assert(s0.names[i].0 != s0.names[j].0);
                    }
                    assert forall|u: u128| #[trigger] s.uuids.contains_key(u) implies s.nodes.contains_key(s.uuids[u]) && s.nodes[s.uuids[u]].uuid == u by {
                        assert(s0.nodes.contains_key(s0.uuids[u]));
                    }
                }
                ID::new(id)
            },
        }
    }

    /// Node `obj` is named `name` (see [`name_spec`]).
    pub fn name(&mut self, obj: ID, name: Name) -> (r: ID)
        requires
            old(self).wf(),
            old(self).room(),
            old(self).state().nodes.contains_key(obj.0),
        ensures
            final(self).wf(),
            (final(self).state(), r.0) == name_spec(old(self).state(), obj.0, name),
            old(self).state().next <= final(self).state().next <= old(self).state().next + 4,
    {
        let o = self.node(obj.0);
        let n = self.decl_name(name);
        match o.pvm_ty {
            PVMDataType::Store | PVMDataType::EditSession => {
                let c = self.decl_fcont(obj.0);
                self.named_rel(c.0, n.0)
            },
            _ => self.named_rel(obj.0, n.0),
        }
    }

    /// Node `obj` is no longer named `name` (see [`unname_spec`]).
    pub fn unname(&mut self, obj: ID, name: Name) -> (r: ID)
        requires
            old(self).wf(),
            old(self).room(),
            old(self).state().nodes.contains_key(obj.0),
        ensures
            final(self).wf(),
            (final(self).state(), r.0) == unname_spec(old(self).state(), obj.0, name),
    {
        let id = self.name(obj, name);
        let ghost s1 = self.state();
        let cur = match self.rel_cache.get(&id.0) {
            Some(r) => *r,
            None => {
                proof {
                    assert(false);
                }
                vstd::pervasive::unreached()
            },
        };
        if let GraphRel::Named { id: i, src, dst, start, .. } = cur {
            let c = self.ctx();
            let ghost s2 = self.state();
            let r = GraphRel::Named { id: i, src, dst, start, end: c };
            self.rel_cache.insert(id.0, r);
            self.ops.push(PvmOp::UpdateRel(r));
            proof {
                let s = self.state();
                assert forall|a: i64, b: i64| #[trigger] has2(s.infs, a, b) implies s.rels.contains_key(s.infs[a][b]) && is_inf(s.rels[s.infs[a][b]], s.infs[a][b], a, b) by {
                    assert(has2(s2.infs, a, b));
                }
                assert forall|a: i64, b: i64| #[trigger] has2(s.nameds, a, b) implies s.rels.contains_key(s.nameds[a][b]) && is_named(s.rels[s.nameds[a][b]], s.nameds[a][b], a, b) by {
                    assert(has2(s2.nameds, a, b));
                }
            }
        }
        id
    }

    /// The property `key` of node `ent` is set to `val` (see [`meta_spec`]).
    pub fn meta(&mut self, ent: ID, key: &'static str, val: String)
        requires
            old(self).wf(),
            old(self).room(),
            old(self).state().nodes.contains_key(ent.0),
            has_prop(old(self).state(), ent.0, key@),
        ensures
            final(self).wf(),
            old(self).state().next <= final(self).state().next <= old(self).state().next + 16,
            final(self).state() == meta_spec(old(self).state(), ent.0, key, val),
    {
        let e = self.node(ent.0);
        let flag = match find_prop(&self.types[e.ty].props, key) {
            Some(f) => f,
            None => {
                proof {
                    assert(false);
                }
                vstd::pervasive::unreached()
            },
        };
        let c = self.ctx();
        let ghost s1 = self.state();
        self.ops.push(PvmOp::Meta { node: ent, key, val, ctx: c, heritable: flag });
        proof {
            lemma_consistent_grow(s1, self.state());
        }
    }

    /// Conduits `first` and `second` are connected (see [`connect_spec`]).
    pub fn connect(&mut self, first: ID, second: ID, dir: ConnectDir)
        requires
            old(self).wf(),
            old(self).room(),
            old(self).state().nodes.contains_key(first.0),
            old(self).state().nodes.contains_key(second.0),
            old(self).state().nodes[first.0].pvm_ty == PVMDataType::Conduit,
            old(self).state().nodes[second.0].pvm_ty == PVMDataType::Conduit,
        ensures
            final(self).wf(),
            final(self).state() == connect_spec(old(self).state(), first.0, second.0, dir),
    {
        self.inf_rel(first.0, second.0, PVMOps::Connect);
        if let ConnectDir::BiDirectional = dir {
            self.inf_rel(second.0, first.0, PVMOps::Connect);
        }
    }

    /// Ends the model.
    pub fn shutdown(self) {
    }

    /// Notes that the model does not know the event `event` (each name is
    /// kept once).
    pub fn note_unparsed(&mut self, event: String)
        requires
            old(self).wf(),
        ensures
            final(self).wf(),
            final(self).state() == (if old(self).state().unparsed.contains(event@) {
                old(self).state()
            } else {
                PvmState { unparsed: old(self).state().unparsed.push(event@), ..old(self).state() }
            }),
    {
        let ghost u = self.state().unparsed;
        let mut i: usize = 0;
        while i < self.unparsed.len()
            invariant
                self.wf(),
                self.state() == old(self).state(),
                i <= self.unparsed@.len(),
                u == self.unparsed@.map_values(|e: String| e@),
                forall|j: int| 0 <= j < i ==> u[j] != event@,
            decreases self.unparsed@.len() - i,
        {
            if self.unparsed[i] == event {
                assert(u[i as int] == event@);
                return;
            }
            i = i + 1;
        }
        assert(!u.contains(event@));
        let ghost s0 = self.state();
        self.unparsed.push(event);
        proof {
            assert(self.state().unparsed =~= u.push(event@));
            lemma_consistent_grow(s0, self.state());
        }
    }

    /// The names of the events that the model did not know, each once, in
    /// the order they were first noted; they are handed over.
    pub fn take_unparsed(&mut self) -> (r: Vec<String>)
        requires
            old(self).wf(),
        ensures
            final(self).wf(),
            r@.map_values(|e: String| e@) == old(self).state().unparsed,
            final(self).state() == (PvmState { unparsed: Seq::empty(), ..old(self).state() }),
    {
        let mut r = Vec::new();
        std::mem::swap(&mut r, &mut self.unparsed);
        proof {
            assert(self.state().unparsed =~= Seq::<Seq<char>>::empty());
            assert(self.state() == (PvmState { unparsed: Seq::empty(), ..old(self).state() }));
            lemma_consistent_grow(old(self).state(), self.state());
        }
        r
    }

    /// The next identifier the model hands out.
    pub fn next_id(&self) -> (r: i64)
        ensures
            r == self.state().next,
    {
        self.next_id
    }

    /// How many data types are registered.
    pub fn type_count(&self) -> (r: usize)
        ensures
            r == self.state().types.len(),
    {
        self.types.len()
    }

    /// The current node of `uuid`, if it has one.
    pub fn node_of(&self, uuid: u128) -> (r: Option<ID>)
        ensures
            r == (if self.state().uuids.contains_key(uuid) {
                Some(ID(self.state().uuids[uuid]))
            } else {
                None::<ID>
            }),
    {
        match self.uuid_cache.get(&uuid) {
            Some(id) => Some(ID::new(*id)),
            None => None,
        }
    }

    /// The role of node `id`.
    pub fn role_of(&self, id: ID) -> (r: PVMDataType)
        requires
            self.state().nodes.contains_key(id.0),
        ensures
            r == self.state().nodes[id.0].pvm_ty,
    {
        self.node(id.0).pvm_ty
    }

    /// Whether node `id` has a property `key` by its type.
    pub fn has_property(&self, id: ID, key: &str) -> (r: bool)
        requires
            self.wf(),
            self.state().nodes.contains_key(id.0),
        ensures
            r == has_prop(self.state(), id.0, key@),
    {
        let e = self.node(id.0);
        find_prop(&self.types[e.ty].props, key).is_some()
    }

    /// Forgets the node of `uuid`.
    pub fn release(&mut self, uuid: u128)
        requires
            old(self).wf(),
        ensures
            final(self).wf(),
            final(self).state() == release_spec(old(self).state(), uuid),
    {
        match self.uuid_cache.remove(&uuid) {
            Some(nid) => {
                self.node_cache.remove(&nid);
                proof {
                    let s = self.state();
                    let s0 = old(self).state();
                    lemma_indexes_kept(s0, s);
                    assert forall|u: u128| #[trigger] s.uuids.contains_key(u) implies s.nodes.contains_key(s.uuids[u]) && s.nodes[s.uuids[u]].uuid == u by {
                        assert(s0.uuids.contains_key(u));
                    }
                }
            },
            None => {
                assert(self.uuid_cache@ =~= old(self).uuid_cache@);
            },
        }
    }
}


/// Declaring a UUID a second time gives the node of the first declaration and
/// changes nothing.
pub proof fn lemma_declare_twice(
    s: PvmState,
    ty: usize,
    uuid: u128,
    init: Option<Vec<(String, String)>>,
    ty2: usize,
    init2: Option<Vec<(String, String)>>,
)
    requires
        consistent(s),
        ty < s.types.len(),
    ensures
        ({
            let (s1, i1) = declare_spec(s, ty, uuid, init);
            declare_spec(s1, ty2, uuid, init2) == (s1, i1)
        }),
{
}

/// An information flow is made once for each source and destination: asking
/// for it again gives the same relationship and changes nothing.
pub proof fn lemma_inf_once(s: PvmState, src: i64, dst: i64, op: PVMOps, op2: PVMOps)
    ensures
        ({
            let (s1, r1) = inf_spec(s, src, dst, op);
            inf_spec(s1, src, dst, op2) == (s1, r1)
        }),
{
}

/// A naming is made once for each node and name node.
pub proof fn lemma_named_once(s: PvmState, src: i64, dst: i64)
    ensures
        ({
            let (s1, r1) = named_spec(s, src, dst);
            named_spec(s1, src, dst) == (s1, r1)
        }),
{
}

/// The context node is made at most once: asking for it again gives the same
/// node and changes nothing.
pub proof fn lemma_ctx_once(s: PvmState)
    ensures
        ({
            let (s1, c1) = ctx_spec(s);
            ctx_spec(s1) == (s1, c1)
        }),
{
}

/// A name has one name node: declaring it again gives the same node and
/// changes nothing.
pub proof fn lemma_name_once(s: PvmState, name: Name, other: Name)
    requires
        consistent(s),
        name@ == other@,
    ensures
        ({
            let (s1, n1) = decl_name_spec(s, name);
            decl_name_spec(s1, other) == (s1, n1)
        }),
{
    let (s1, n1) = decl_name_spec(s, name);
    if name_id(s.names, name@) is None {
        let k = s.names.len() as int;
        assert(s1.names[k].0 == other@);
        let j = choose|j: int| 0 <= j < s1.names.len() && (#[trigger] s1.names[j]).0 == other@;
        if j < k {
            assert(s.names[j] == s1.names[j]);
        }
    }
}

/// After a UUID is released, declaring it again makes a new node, under an
/// identifier no node had.
pub proof fn lemma_release_then_declare(s: PvmState, uuid: u128, ty: usize)
    requires
        consistent(s),
        s.next + 16 <= i64::MAX,
        ty < s.types.len(),
        s.uuids.contains_key(uuid),
    ensures
        ({
            let (s2, id) = declare_spec(release_spec(s, uuid), ty, uuid, None);
            &&& id != s.uuids[uuid]
            &&& !s.nodes.contains_key(id)
            &&& s2.uuids[uuid] == id
            &&& s2.nodes[id].uuid == uuid
        }),
{
    let old_id = s.uuids[uuid];
    assert(s.nodes.contains_key(old_id));
    let s1 = release_spec(s, uuid);
    assert(!s1.uuids.contains_key(uuid));
    let (s2, id) = declare_spec(s1, ty, uuid, None);
    assert(id == s.next);
    if s.nodes.contains_key(id) {
        assert(id < s.next);
    }
}

/// Writing a store makes a new version of it: the UUID's node is then a new
/// store, with a version flow from the old node and a write flow from the actor.
pub proof fn lemma_sink_versions_store(s: PvmState, act: i64, ent: i64)
    requires
        consistent(s),
        s.next + 16 <= i64::MAX,
        acts_on(s, act, ent),
        s.nodes[ent].pvm_ty == PVMDataType::Store,
        s.uuids.contains_key(s.nodes[ent].uuid),
        s.uuids[s.nodes[ent].uuid] == ent,
    ensures
        ({
            let u = s.nodes[ent].uuid;
            let (s1, r) = sink_spec(s, act, ent);
            let f = s1.uuids[u];
            &&& f != ent
            &&& !s.nodes.contains_key(f)
            &&& s1.nodes[f].pvm_ty == PVMDataType::Store
            &&& !s1.nodes.contains_key(ent)
            &&& has2(s1.infs, ent, f)
            &&& has2(s1.infs, act, f)
            &&& s1.infs[act][f] == r
        }),
{
    let u = s.nodes[ent].uuid;
    let (v, f) = version_spec(s, ent, VersionTo::Role(PVMDataType::Store));
    let (s0, c) = ctx_spec(s);
    let (t, d) = add_spec(s0, PVMDataType::Store, s.nodes[ent].ty, u, MetaInit::Snapshot(ID(ent)));
    assert(d == f);
    assert(s0.next <= d < t.next);
    assert(s0.uuids == s.uuids);
    assert(s0.nodes == s.nodes);
    assert(t.uuids[u] == d);
    assert(t.nodes[d].pvm_ty == PVMDataType::Store);
    assert(!t.nodes.contains_key(ent));
    if s.nodes.contains_key(f) {
        assert(f < s.next);
    }
    let (v2, i2) = inf_spec(t, ent, d, PVMOps::Version);
    assert(v2 == v);
    assert(v.uuids == t.uuids);
    assert(v.nodes == t.nodes);
    assert(has2(v.infs, ent, d));
    assert(v.next > d);
    let (s1, r) = inf_spec(v, act, f, PVMOps::Sink);
    assert(s1.uuids == v.uuids);
    assert(s1.nodes == v.nodes);
    assert(has2(s1.infs, act, f));
    assert(has2(s1.infs, ent, f));
}

/// An edit session round trip: an actor starts writing a store, which gets an
/// edit session as its new version with that actor its only writer; when the
/// actor stops writing the session, no writer is left and the UUID gets a new
/// store as the next version, linked from the session.
pub proof fn lemma_edit_session_round_trip(s: PvmState, act: i64, ent: i64)
    requires
        consistent(s),
        s.next + 16 <= i64::MAX,
        acts_on(s, act, ent),
        s.nodes[ent].pvm_ty == PVMDataType::Store,
        s.uuids.contains_key(s.nodes[ent].uuid),
        s.uuids[s.nodes[ent].uuid] == ent,
    ensures
        ({
            let u = s.nodes[ent].uuid;
            let a = s.nodes[act].uuid;
            let s1 = sinkstart_spec(s, act, ent).0;
            let es = s1.uuids[u];
            let s2 = sinkend_spec(s1, act, es);
            let st = s2.uuids[u];
            &&& es != ent
            &&& s1.nodes[es].pvm_ty == PVMDataType::EditSession
            &&& s1.open[u] == set![a]
            &&& has2(s1.infs, ent, es)
            &&& has2(s1.infs, act, es)
            &&& acts_on(s1, act, es)
            &&& st != ent
            &&& st != es
            &&& s2.nodes[st].pvm_ty == PVMDataType::Store
            &&& has2(s2.infs, es, st)
            &&& s2.open[u].is_empty()
        }),
{
}

} // verus!
