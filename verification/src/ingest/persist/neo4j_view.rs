//! Writing the provenance graph to a live neo4j database in batched queries.
//!
//! The view decides; the caller talks to the database. Each call here takes
//! one change of the graph and answers with the database calls to make.
use vstd::prelude::*;

use super::DBTr;
use crate::batch::{
    node_record, nodes_add, nodes_update, ops_view, push_op, run_plain, run_with, run_with_param,
    DbOp, DbOpV, PendingNodes, PendingValues,
};
use crate::data::node_types::EnumNode;
use crate::data::nodeid::NodeID;
use crate::data::traits::{HasID, HasUUID, ToDB};
use crate::data::value::{labels_view, lemma_dict_view, entry_value, lemma_record_keys_differ, map_field, props_view, Value, ValueV};
use crate::text::to_owned;
use crate::uuid_text::hyphenated_text;

verus! {

/// After how many updates the pending writes are sent as one batch.
pub const BATCH_SIZE: usize = 1000;

/// After how many updates the transaction is committed and a new one opened.
pub const TR_SIZE: usize = 100_000;

/// The first setup query: the index on node identifiers.
pub const INDEX_NODE: &'static str = "CREATE INDEX ON :Node(db_id)";

/// The second setup query: the index on process identifiers.
pub const INDEX_PROCESS: &'static str = "CREATE INDEX ON :Process(uuid)";

/// The third setup query: the index on file identifiers.
pub const INDEX_FILE: &'static str = "CREATE INDEX ON :File(uuid)";

/// The fourth setup query: the index on edit session identifiers.
pub const INDEX_EDIT_SESSION: &'static str = "CREATE INDEX ON :EditSession(uuid)";

/// The last setup query: the schema version.
pub const DB_INFO: &'static str = "MERGE (:DBInfo {pvm_version: 2})";

/// The query that creates the pending nodes, given as `$nodes`.
pub const CREATE_NODES: &'static str = "UNWIND $nodes AS n\n             CALL apoc.create.node(n.labels, n.props) YIELD node\n             RETURN 0";

/// The query that creates the pending relationships, given as `$rels`.
pub const CREATE_RELS: &'static str = "UNWIND $rels AS r\n             MATCH (s:Node {db_id: r.src}),\n                   (d:Node {db_id: r.dst})\n             CALL apoc.create.relationship(s, r.type, r.props, d) YIELD rel\n             RETURN 0";

/// The query that applies the pending property updates, given as `$upds`.
pub const UPDATE_NODES: &'static str = "UNWIND $upds AS props\n             MATCH (p:Node {db_id: props.db_id})\n             SET p += props";

/// The setup calls, in order: four indexes, then the schema version.
pub open spec fn setup_spec() -> Seq<DbOpV> {
    seq![
        DbOpV::Run { query: INDEX_NODE@, params: Seq::empty() },
        DbOpV::Run { query: INDEX_PROCESS@, params: Seq::empty() },
        DbOpV::Run { query: INDEX_FILE@, params: Seq::empty() },
        DbOpV::Run { query: INDEX_EDIT_SESSION@, params: Seq::empty() },
        DbOpV::Run { query: DB_INFO@, params: Seq::empty() },
    ]
}

/// The calls that prepare the database before the first change.
pub fn setup_ops() -> (r: Vec<DbOp>)
    ensures
        ops_view(r@) == setup_spec(),
{
    let mut r: Vec<DbOp> = Vec::new();
    push_op(&mut r, run_plain(INDEX_NODE));
    push_op(&mut r, run_plain(INDEX_PROCESS));
    push_op(&mut r, run_plain(INDEX_FILE));
    push_op(&mut r, run_plain(INDEX_EDIT_SESSION));
    push_op(&mut r, run_plain(DB_INFO));
    assert(ops_view(r@) =~= setup_spec());
    r
}

/// Labels as a list value of strings.
pub open spec fn labels_list(labs: Seq<Seq<char>>) -> ValueV {
    ValueV::List(labs.map_values(|l: Seq<char>| ValueV::Str(l)))
}

/// The properties a node is written with: its own, then `db_id` and `uuid`.
pub open spec fn db_props(n: EnumNode) -> Seq<(Seq<char>, ValueV)> {
    n.spec_props() + seq![
        ("db_id"@, ValueV::Integer(n.spec_db_id().0 as int)),
        ("uuid"@, ValueV::Str(hyphenated_text(n.spec_uuid()))),
    ]
}

/// A relationship as the creating query takes it: `{src, dst, type, props}`.
pub open spec fn rel_record(src: NodeID, dst: NodeID, ty: Seq<char>, props: Seq<(Seq<char>, ValueV)>) -> ValueV {
    ValueV::Dict(seq![
        ("src"@, ValueV::Integer(src.0 as int)),
        ("dst"@, ValueV::Integer(dst.0 as int)),
        ("type"@, ValueV::Str(ty)),
        ("props"@, ValueV::Dict(props)),
    ])
}

/// The state of the view: the pending writes and the counters of updates,
/// batches sent and transactions committed.
pub struct Neo4JState {
    pub nodes: Seq<(i64, (ValueV, ValueV))>,
    pub edges: Seq<ValueV>,
    pub updates: Seq<ValueV>,
    pub ups: nat,
    pub btc: nat,
    pub trs: nat,
}

/// The state after taking in one change, before anything is sent.
pub open spec fn absorb_spec(s: Neo4JState, evt: DBTr) -> Neo4JState {
    match evt {
        DBTr::CreateNode(n) => Neo4JState {
            nodes: nodes_add(s.nodes, n.spec_db_id().0, labels_list(n.spec_labels()), ValueV::Dict(db_props(n))),
            edges: s.edges,
            updates: s.updates,
            ups: s.ups + 1,
            btc: s.btc,
            trs: s.trs,
        },
        DBTr::CreateRel { src, dst, ty, props } => Neo4JState {
            nodes: s.nodes,
            edges: s.edges.push(rel_record(src, dst, ty@, props_view(props@))),
            updates: s.updates,
            ups: s.ups + 1,
            btc: s.btc,
            trs: s.trs,
        },
        DBTr::UpdateNode(n) => match nodes_update(s.nodes, n.spec_db_id().0, ValueV::Dict(db_props(n))) {
            Some(ns) => Neo4JState {
                nodes: ns,
                edges: s.edges,
                updates: s.updates,
                ups: s.ups,
                btc: s.btc,
                trs: s.trs,
            },
            None => Neo4JState {
                nodes: s.nodes,
                edges: s.edges,
                updates: s.updates.push(ValueV::Dict(db_props(n))),
                ups: s.ups + 1,
                btc: s.btc,
                trs: s.trs,
            },
        },
    }
}

/// The three batch calls that send everything pending.
pub open spec fn flush_spec(s: Neo4JState) -> Seq<DbOpV> {
    seq![
        run_with(CREATE_NODES@, "nodes"@, ValueV::List(s.nodes.map_values(|e: (i64, (ValueV, ValueV))| node_record(e.1.0, e.1.1)))),
        run_with(CREATE_RELS@, "rels"@, ValueV::List(s.edges)),
        run_with(UPDATE_NODES@, "upds"@, ValueV::List(s.updates)),
    ]
}

/// The state after sending everything pending, with `btc` batches counted.
pub open spec fn flushed(s: Neo4JState, btc: nat) -> Neo4JState {
    Neo4JState {
        nodes: Seq::empty(),
        edges: Seq::empty(),
        updates: Seq::empty(),
        ups: s.ups,
        btc,
        trs: s.trs,
    }
}

/// The state with `trs` transactions counted.
pub open spec fn committed(s: Neo4JState, trs: nat) -> Neo4JState {
    Neo4JState { nodes: s.nodes, edges: s.edges, updates: s.updates, ups: s.ups, btc: s.btc, trs }
}

/// One change taken in: the next state and the calls to make, in order.
/// A batch goes out once the updates pass the next multiple of
/// [`BATCH_SIZE`]; the transaction is renewed once they pass the next
/// multiple of [`TR_SIZE`].
pub open spec fn step_spec(s: Neo4JState, evt: DBTr) -> (Neo4JState, Seq<DbOpV>) {
    let a = absorb_spec(s, evt);
    let (b, o1) = if a.ups > (a.btc + 1) * BATCH_SIZE {
        (flushed(a, a.btc + 1), flush_spec(a))
    } else {
        (a, Seq::<DbOpV>::empty())
    };
    if b.ups > (b.trs + 1) * TR_SIZE {
        (committed(b, b.trs + 1), o1.push(DbOpV::CommitAndRefresh))
    } else {
        (b, o1)
    }
}

/// The decisions of the view that writes the graph to neo4j.
pub struct Neo4JView {
    nodes: PendingNodes,
    edges: PendingValues,
    updates: PendingValues,
    ups: usize,
    btc: usize,
    trs: usize,
}

impl Neo4JView {
    /// The state of the view.
    pub closed spec fn state(&self) -> Neo4JState {
        Neo4JState {
            nodes: self.nodes.view(),
            edges: self.edges.view(),
            updates: self.updates.view(),
            ups: self.ups as nat,
            btc: self.btc as nat,
            trs: self.trs as nat,
        }
    }

    /// The counters agree: no more batches or transactions were counted than
    /// the updates call for.
    pub closed spec fn wf(&self) -> bool {
        &&& self.btc * BATCH_SIZE <= self.ups
        &&& self.trs * TR_SIZE <= self.ups
    }

    /// A view with nothing pending and nothing counted.
    pub fn new() -> (r: Self)
        ensures
            r.wf(),
            r.state() == (Neo4JState {
                nodes: Seq::empty(),
                edges: Seq::empty(),
                updates: Seq::empty(),
                ups: 0,
                btc: 0,
                trs: 0,
            }),
    {
        Neo4JView {
            nodes: PendingNodes::new(),
            edges: PendingValues::new(),
            updates: PendingValues::new(),
            ups: 0,
            btc: 0,
            trs: 0,
        }
    }

    /// The number of updates taken in.
    pub fn ups(&self) -> (r: usize)
        ensures
            r == self.state().ups,
    {
        self.ups
    }

    fn absorb(&mut self, evt: DBTr)
        requires
            old(self).ups < usize::MAX,
        ensures
            final(self).state() == absorb_spec(old(self).state(), evt),
    {
        match evt {
            DBTr::CreateNode(n) => {
                let (id, labs, props) = n.to_db();
                let labels = crate::batch::labels_value(&labs);
                proof {
                    lemma_dict_view(props);
                }
                self.nodes.add(id.0, labels, Value::Dict(props));
                self.ups = self.ups + 1;
            },
            DBTr::CreateRel { src, dst, ty, props } => {
                proof {
                    lemma_dict_view(props);
                }
                let mut rec: Vec<(String, Value)> = Vec::new();
                rec.push((to_owned("src"), Value::Integer(src.0)));
                rec.push((to_owned("dst"), Value::Integer(dst.0)));
                rec.push((to_owned("type"), Value::String(to_owned(ty))));
                rec.push((to_owned("props"), Value::Dict(props)));
                proof {
                    lemma_dict_view(rec);
                    assert(props_view(rec@) =~= seq![
                        ("src"@, ValueV::Integer(src.0 as int)),
                        ("dst"@, ValueV::Integer(dst.0 as int)),
                        ("type"@, ValueV::Str(ty@)),
                        ("props"@, ValueV::Dict(props_view(props@))),
                    ]);
                }
                self.edges.add(Value::Dict(rec));
                self.ups = self.ups + 1;
            },
            DBTr::UpdateNode(n) => {
                let (id, _labs, props) = n.to_db();
                proof {
                    lemma_dict_view(props);
                }
                match self.nodes.update(id.0, Value::Dict(props)) {
                    Some(p) => {
                        self.updates.add(p);
                        self.ups = self.ups + 1;
                    },
                    None => {},
                }
            },
        }
    }

    fn flush(&mut self, ops: &mut Vec<DbOp>)
        ensures
            final(self).state().nodes == Seq::<(i64, (ValueV, ValueV))>::empty(),
            final(self).state().edges == Seq::<ValueV>::empty(),
            final(self).state().updates == Seq::<ValueV>::empty(),
            final(self).ups == old(self).ups,
            final(self).btc == old(self).btc,
            final(self).trs == old(self).trs,
            ops_view(final(ops)@) == ops_view(old(ops)@) + flush_spec(old(self).state()),
    {
        let nodes = self.nodes.execute();
        push_op(ops, run_with_param(CREATE_NODES, "nodes", nodes));
        let rels = self.edges.execute();
        push_op(ops, run_with_param(CREATE_RELS, "rels", rels));
        let upds = self.updates.execute();
        push_op(ops, run_with_param(UPDATE_NODES, "upds", upds));
        assert(ops_view(ops@) =~= ops_view(old(ops)@) + flush_spec(old(self).state()));
    }

    /// Takes in one change of the graph and answers with the calls to make
    /// on the database, in order.
    pub fn step(&mut self, evt: DBTr) -> (r: Vec<DbOp>)
        requires
            old(self).wf(),
            old(self).state().ups + TR_SIZE < usize::MAX,
        ensures
            final(self).wf(),
            (final(self).state(), ops_view(r@)) == step_spec(old(self).state(), evt),
    {
        let mut ops: Vec<DbOp> = Vec::new();
        self.absorb(evt);
        let ghost a = self.state();
        assert(self.btc * BATCH_SIZE <= self.ups);
        if self.ups > (self.btc + 1) * BATCH_SIZE {
            self.flush(&mut ops);
            self.btc = self.btc + 1;
            assert(self.state() == flushed(a, a.btc + 1));
        }
        let ghost b = self.state();
        if self.ups > (self.trs + 1) * TR_SIZE {
            push_op(&mut ops, DbOp::CommitAndRefresh);
            self.trs = self.trs + 1;
            assert(self.state() == committed(b, b.trs + 1));
        }
        ops
    }

    /// Ends the run: the calls to make (the last batch, then the commit),
    /// and the numbers of updates taken in, batch queries sent (three per
    /// batch) and transactions committed.
    pub fn finish(self) -> (r: (Vec<DbOp>, usize, usize, usize))
        requires
            self.wf(),
            self.state().ups + TR_SIZE < usize::MAX,
        ensures
            ops_view(r.0@) == flush_spec(self.state()).push(DbOpV::Commit),
            r.1 == self.state().ups,
            r.2 == self.state().btc * 3,
            r.3 == self.state().trs + 1,
    {
        let mut v = self;
        let mut ops: Vec<DbOp> = Vec::new();
        v.flush(&mut ops);
        push_op(&mut ops, DbOp::Commit);
        assert(v.btc * 3 <= v.ups);
        (ops, v.ups, v.btc * 3, v.trs + 1)
    }
}


/// A relationship is written with its own endpoints, in order: the record
/// that creating it adds to the pending relationships has `src` the
/// relationship's source and `dst` its destination, and the earlier pending
/// relationships stay as they were.
pub proof fn lemma_created_rel_endpoints(s: Neo4JState, evt: DBTr)
    requires
        evt is CreateRel,
    ensures
        ({
            let a = absorb_spec(s, evt);
            &&& a.edges.len() == s.edges.len() + 1
            &&& a.edges.subrange(0, s.edges.len() as int) == s.edges
            &&& map_field(a.edges.last(), "src"@) == Some(ValueV::Integer(evt->CreateRel_src.0 as int))
            &&& map_field(a.edges.last(), "dst"@) == Some(ValueV::Integer(evt->CreateRel_dst.0 as int))
        }),
{
    lemma_record_keys_differ();
    let a = absorb_spec(s, evt);
    assert(a.edges.subrange(0, s.edges.len() as int) =~= s.edges);
    let d = a.edges.last()->Dict_0;
    assert(d.drop_first()[0].0 == "dst"@);
    assert(d[0].0 == "src"@);
    assert(entry_value(d, "dst"@) == entry_value(d.drop_first(), "dst"@));
}

} // verus!
