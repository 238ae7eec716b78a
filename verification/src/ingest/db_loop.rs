//! The batching loop that writes graph changes, given as ready database
//! values, to neo4j.
//!
//! The loop decides; the caller talks to the database. Each call here takes
//! one change and answers with the database calls to make.
use vstd::prelude::*;

use crate::batch::{
    node_record, nodes_add, nodes_update, ops_view, push_op, run_with, run_with_param, DbOp, DbOpV,
    PendingNodes, PendingValues,
};
use crate::data::nodeid::NodeID;
use crate::data::value::{Value, ValueV};

verus! {

/// After how many updates the pending writes are sent as one batch.
pub const BATCH_SIZE: usize = 1000;

/// After how many updates the transaction is committed and a new one opened.
pub const TR_SIZE: usize = 100_000;

/// The query that creates the pending nodes, given as `$nodes`.
pub const CREATE_NODES: &'static str = "UNWIND $nodes AS props\n                 CALL apoc.create.node(props.labels, props.props) YIELD node\n                 RETURN 0";

/// The query that creates the pending relationships, given as `$rels`.
pub const CREATE_RELS: &'static str = "UNWIND $rels AS props\n                 MATCH (s:Node {db_id: props.src}),\n                       (d:Node {db_id: props.dst})\n                 CALL apoc.create.relationship(s, props.type, {class: props.class}, d) YIELD rel\n                 RETURN 0";

/// The query that applies the pending property updates, given as `$upds`.
pub const UPDATE_NODES: &'static str = "UNWIND $upds AS props\n                 MATCH (p:Node {db_id: props.db_id})\n                 SET p += props";

/// A change to the graph, as database values.
pub enum DBTr {
    /// A node with its identifier, labels and properties.
    CreateNode(NodeID, Value, Value),
    /// A relationship, as the record the creating query takes.
    CreateRel(Value),
    /// New properties of a node.
    UpdateNode(NodeID, Value),
}

/// The state of the loop: the pending writes and the counters of updates,
/// batches sent and transactions committed.
pub struct LoopState {
    pub nodes: Seq<(i64, (ValueV, ValueV))>,
    pub edges: Seq<ValueV>,
    pub updates: Seq<ValueV>,
    pub ups: nat,
    pub qrs: nat,
    pub trs: nat,
}

/// The state after taking in one change, before anything is sent.
pub open spec fn loop_absorb(s: LoopState, evt: DBTr) -> LoopState {
    match evt {
        DBTr::CreateNode(id, labs, props) => LoopState {
            nodes: nodes_add(s.nodes, id.0, labs@, props@),
            edges: s.edges,
            updates: s.updates,
            ups: s.ups + 1,
            qrs: s.qrs,
            trs: s.trs,
        },
        DBTr::CreateRel(props) => LoopState {
            nodes: s.nodes,
            edges: s.edges.push(props@),
            updates: s.updates,
            ups: s.ups + 1,
            qrs: s.qrs,
            trs: s.trs,
        },
        DBTr::UpdateNode(id, props) => match nodes_update(s.nodes, id.0, props@) {
            Some(ns) => LoopState {
                nodes: ns,
                edges: s.edges,
                updates: s.updates,
                ups: s.ups,
                qrs: s.qrs,
                trs: s.trs,
            },
            None => LoopState {
                nodes: s.nodes,
                edges: s.edges,
                updates: s.updates.push(props@),
                ups: s.ups + 1,
                qrs: s.qrs,
                trs: s.trs,
            },
        },
    }
}

/// The three batch calls that send everything pending.
pub open spec fn loop_flush_ops(s: LoopState) -> Seq<DbOpV> {
    seq![
        run_with(CREATE_NODES@, "nodes"@, ValueV::List(s.nodes.map_values(|e: (i64, (ValueV, ValueV))| node_record(e.1.0, e.1.1)))),
        run_with(CREATE_RELS@, "rels"@, ValueV::List(s.edges)),
        run_with(UPDATE_NODES@, "upds"@, ValueV::List(s.updates)),
    ]
}

/// The state after sending everything pending, with `qrs` batches counted.
pub open spec fn loop_flushed(s: LoopState, qrs: nat) -> LoopState {
    LoopState {
        nodes: Seq::empty(),
        edges: Seq::empty(),
        updates: Seq::empty(),
        ups: s.ups,
        qrs,
        trs: s.trs,
    }
}

/// The state with `trs` transactions counted.
pub open spec fn loop_committed(s: LoopState, trs: nat) -> LoopState {
    LoopState { nodes: s.nodes, edges: s.edges, updates: s.updates, ups: s.ups, qrs: s.qrs, trs }
}

/// One change taken in: the next state and the calls to make, in order.
/// A batch goes out whenever the updates have reached `qrs` times
/// [`BATCH_SIZE`]; the transaction is renewed whenever they exceed `trs`
/// times [`TR_SIZE`]. (Both counters start at zero, so the first change
/// sends a batch, and the first counted update renews the transaction.)
pub open spec fn loop_step(s: LoopState, evt: DBTr) -> (LoopState, Seq<DbOpV>) {
    let a = loop_absorb(s, evt);
    let (b, o1) = if a.ups >= a.qrs * BATCH_SIZE {
        (loop_flushed(a, a.qrs + 1), loop_flush_ops(a))
    } else {
        (a, Seq::<DbOpV>::empty())
    };
    if b.ups > b.trs * TR_SIZE {
        (loop_committed(b, b.trs + 1), o1.push(DbOpV::CommitAndRefresh))
    } else {
        (b, o1)
    }
}

/// The decisions of the batching loop.
pub struct ExecuteLoop {
    nodes: PendingNodes,
    edges: PendingValues,
    updates: PendingValues,
    ups: usize,
    qrs: usize,
    trs: usize,
}

impl ExecuteLoop {
    /// The state of the loop.
    pub closed spec fn state(&self) -> LoopState {
        LoopState {
            nodes: self.nodes.view(),
            edges: self.edges.view(),
            updates: self.updates.view(),
            ups: self.ups as nat,
            qrs: self.qrs as nat,
            trs: self.trs as nat,
        }
    }

    /// The counters agree with the thresholds: the next batch is due at
    /// `qrs` times [`BATCH_SIZE`], the next renewal past `trs` times [`TR_SIZE`].
    pub closed spec fn wf(&self) -> bool {
        &&& self.ups < self.qrs * BATCH_SIZE || (self.qrs == 0 && self.ups == 0)
        &&& self.qrs * BATCH_SIZE <= self.ups + BATCH_SIZE
        &&& self.ups <= self.trs * TR_SIZE
        &&& self.trs * TR_SIZE <= self.ups + TR_SIZE
    }

    /// A loop with nothing pending and nothing counted.
    pub fn new() -> (r: Self)
        ensures
            r.wf(),
            r.state() == (LoopState {
                nodes: Seq::empty(),
                edges: Seq::empty(),
                updates: Seq::empty(),
                ups: 0,
                qrs: 0,
                trs: 0,
            }),
    {
        ExecuteLoop {
            nodes: PendingNodes::new(),
            edges: PendingValues::new(),
            updates: PendingValues::new(),
            ups: 0,
            qrs: 0,
            trs: 0,
        }
    }

    /// The number of updates taken in.
    pub fn ups(&self) -> (r: usize)
        ensures
            r == self.state().ups,
    {
        self.ups
    }

    fn absorb(&mut self, evt: DBTr)
        requires
            old(self).ups < usize::MAX,
        ensures
            final(self).state() == loop_absorb(old(self).state(), evt),
    {
        match evt {
            DBTr::CreateNode(id, labs, props) => {
                self.nodes.add(id.0, labs, props);
                self.ups = self.ups + 1;
            },
            DBTr::CreateRel(props) => {
                self.edges.add(props);
                self.ups = self.ups + 1;
            },
            DBTr::UpdateNode(id, props) => {
                match self.nodes.update(id.0, props) {
                    Some(p) => {
                        self.updates.add(p);
                        self.ups = self.ups + 1;
                    },
                    None => {},
                }
            },
        }
    }

    fn flush(&mut self, ops: &mut Vec<DbOp>)
        ensures
            final(self).state() == loop_flushed(old(self).state(), old(self).state().qrs),
            final(self).ups == old(self).ups,
            final(self).qrs == old(self).qrs,
            final(self).trs == old(self).trs,
            ops_view(final(ops)@) == ops_view(old(ops)@) + loop_flush_ops(old(self).state()),
    {
        let nodes = self.nodes.execute();
        push_op(ops, run_with_param(CREATE_NODES, "nodes", nodes));
        let rels = self.edges.execute();
        push_op(ops, run_with_param(CREATE_RELS, "rels", rels));
        let upds = self.updates.execute();
        push_op(ops, run_with_param(UPDATE_NODES, "upds", upds));
        assert(ops_view(ops@) =~= ops_view(old(ops)@) + loop_flush_ops(old(self).state()));
    }

    /// Takes in one change and answers with the calls to make on the
    /// database, in order.
    pub fn step(&mut self, evt: DBTr) -> (r: Vec<DbOp>)
        requires
            old(self).wf(),
            old(self).state().ups + TR_SIZE < usize::MAX,
        ensures
            final(self).wf(),
            (final(self).state(), ops_view(r@)) == loop_step(old(self).state(), evt),
    {
        let mut ops: Vec<DbOp> = Vec::new();
        self.absorb(evt);
        let ghost a = self.state();
        if self.ups >= self.qrs * BATCH_SIZE {
            self.flush(&mut ops);
            self.qrs = self.qrs + 1;
            assert(self.state() == loop_flushed(a, a.qrs + 1));
        }
        let ghost b = self.state();
        if self.ups > self.trs * TR_SIZE {
            push_op(&mut ops, DbOp::CommitAndRefresh);
            self.trs = self.trs + 1;
            assert(self.state() == loop_committed(b, b.trs + 1));
        }
        ops
    }

    /// Ends the run: the calls to make (the last batch, then the commit),
    /// and the numbers of updates taken in, queries sent (three per batch,
    /// the last one counted) and transactions committed (the last one counted).
    pub fn finish(self) -> (r: (Vec<DbOp>, usize, usize, usize))
        requires
            self.wf(),
            self.state().ups + TR_SIZE < usize::MAX,
        ensures
            ops_view(r.0@) == loop_flush_ops(self.state()).push(DbOpV::Commit),
            r.1 == self.state().ups,
            r.2 == (self.state().qrs + 1) * 3,
            r.3 == self.state().trs + 1,
    {
        let mut v = self;
        let mut ops: Vec<DbOp> = Vec::new();
        v.flush(&mut ops);
        push_op(&mut ops, DbOp::Commit);
        assert((v.qrs + 1) * 3 <= v.ups + 3 * BATCH_SIZE);
        (ops, v.ups, (v.qrs + 1) * 3, v.trs + 1)
    }
}

} // verus!
