//! Streaming the provenance graph to a live neo4j database in batched queries.
use vstd::prelude::*;

use super::graph::{GraphNode, GraphRel, ToDBNode, ToDBRel};
use super::dict_set;
use crate::batch::{
    find_id, keyed_add, keyed_update, labels_value, node_record, nodes_add, nodes_update, ops_view,
    push_op, run_plain, run_with, run_with_param, DbOp, DbOpV, PendingKeyed, PendingNodes,
};
use crate::data::value::{lemma_dict_view, Value, ValueV};
use crate::batch::lemma_find_id_prefix;
use crate::engine::EngineConfig;
use crate::text::{push_str, same_text, to_owned};

verus! {

/// After how many updates the pending writes are sent as one batch.
pub const BATCH_SIZE: usize = 1000;

/// After how many updates the transaction is committed and a new one opened.
pub const TR_SIZE: usize = 100_000;

/// The query that records the schema version and the writer, given as `$src`.
pub const DB_INFO: &'static str = "MERGE (:DBInfo {pvm_version: 2, source: $src})";

/// The query that creates the pending nodes, given as `$nodes`.
pub const CREATE_NODES: &'static str = "UNWIND $nodes AS n\n             CALL apoc.create.node(n.labels, n.props) YIELD node\n             RETURN 0";

/// The query that creates the pending relationships, given as `$rels`.
pub const CREATE_RELS: &'static str = "UNWIND $rels AS r\n             MATCH (s:Node {db_id: r.src}),\n                   (d:Node {db_id: r.dst})\n             CALL apoc.create.relationship(s, r.type, r.props, d) YIELD rel\n             RETURN 0";

/// The query that applies the pending node updates, given as `$upds`.
pub const UPDATE_NODES: &'static str = "UNWIND $upds AS props\n             MATCH (p:Node {db_id: props.db_id})\n             SET p += props";

/// The query that applies the pending relationship updates, given as `$upds`.
pub const UPDATE_RELS: &'static str = "UNWIND $upds AS up\n             MATCH (s:Node {db_id: up.src})-[r {db_id: up.id}]->()\n             SET r += up.props";

/// A change to the provenance graph.
pub enum DBTr {
    /// A node was created.
    CreateNode(GraphNode),
    /// A relationship was created.
    CreateRel(GraphRel),
    /// A node changed.
    UpdateNode(GraphNode),
    /// A relationship changed.
    UpdateRel(GraphRel),
}

/// The index queries run before anything else, in order.
pub open spec fn index_queries() -> Seq<Seq<char>> {
    seq![
        "CREATE INDEX ON :Node(db_id)"@,
        "CREATE INDEX ON :Actor(uuid)"@,
        "CREATE INDEX ON :Object(uuid)"@,
        "CREATE INDEX ON :Store(uuid)"@,
        "CREATE INDEX ON :EditSession(uuid)"@,
        "CREATE INDEX ON :Conduit(uuid)"@,
        "CREATE INDEX ON :StoreCont(uuid)"@,
        "CREATE INDEX ON :Path(path)"@,
        "CREATE INDEX ON :Net(addr)"@,
    ]
}

/// The setup calls: the indexes, a commit, the schema record naming the
/// writer `libPVM-<version>`, and another commit.
pub open spec fn glue_setup_spec(version: Seq<char>) -> Seq<DbOpV> {
    index_queries().map_values(|q: Seq<char>| DbOpV::Run { query: q, params: Seq::empty() })
        .push(DbOpV::CommitAndRefresh)
        .push(run_with(DB_INFO@, "src"@, ValueV::Str("libPVM-"@ + version)))
        .push(DbOpV::CommitAndRefresh)
}

/// The calls that prepare the database before the first change, for a
/// writer of version `version`.
pub fn glue_setup_ops(version: &str) -> (r: Vec<DbOp>)
    ensures
        ops_view(r@) == glue_setup_spec(version@),
{
    let mut r: Vec<DbOp> = Vec::new();
    push_op(&mut r, run_plain("CREATE INDEX ON :Node(db_id)"));
    push_op(&mut r, run_plain("CREATE INDEX ON :Actor(uuid)"));
    push_op(&mut r, run_plain("CREATE INDEX ON :Object(uuid)"));
    push_op(&mut r, run_plain("CREATE INDEX ON :Store(uuid)"));
    push_op(&mut r, run_plain("CREATE INDEX ON :EditSession(uuid)"));
    push_op(&mut r, run_plain("CREATE INDEX ON :Conduit(uuid)"));
    push_op(&mut r, run_plain("CREATE INDEX ON :StoreCont(uuid)"));
    push_op(&mut r, run_plain("CREATE INDEX ON :Path(path)"));
    push_op(&mut r, run_plain("CREATE INDEX ON :Net(addr)"));
    push_op(&mut r, DbOp::CommitAndRefresh);
    let mut src = to_owned("libPVM-");
    push_str(&mut src, version);
    push_op(&mut r, run_with_param(DB_INFO, "src", Value::String(src)));
    push_op(&mut r, DbOp::CommitAndRefresh);
    assert(ops_view(r@) =~= glue_setup_spec(version@));
    r
}

/// Labels as a list value of strings.
pub open spec fn labels_list(labs: Seq<Seq<char>>) -> ValueV {
    ValueV::List(labs.map_values(|l: Seq<char>| ValueV::Str(l)))
}

/// The properties a node is written with, `db_id` included.
pub open spec fn node_db_props(n: GraphNode) -> ValueV {
    ValueV::Dict(dict_set(n.spec_props(), "db_id"@, ValueV::Integer(n.spec_id().0 as int)))
}

/// The state of the view: the pending writes and the counters of updates,
/// batches, transactions, and of relationship updates received, absorbed
/// into pending creations, and kept for sending.
pub struct GlueState {
    pub nodes: Seq<(i64, (ValueV, ValueV))>,
    pub edges: Seq<(i64, ValueV)>,
    pub up_node: Seq<(i64, ValueV)>,
    pub up_rel: Seq<(i64, ValueV)>,
    pub ups: nat,
    pub btc: nat,
    pub trs: nat,
    pub rel_up_base: nat,
    pub rel_up_node: nat,
    pub rel_up_rel: nat,
}

/// The state after taking in one change, before anything is sent.
pub open spec fn glue_absorb(s: GlueState, evt: DBTr) -> GlueState {
    match evt {
        DBTr::CreateNode(n) => GlueState {
            nodes: nodes_add(s.nodes, n.spec_id().0, labels_list(n.spec_labels()), node_db_props(n)),
            ups: s.ups + 1,
            ..s
        },
        DBTr::CreateRel(r) => GlueState {
            edges: keyed_add(s.edges, r.spec_record().0.0, r.spec_record().1),
            ups: s.ups + 1,
            ..s
        },
        DBTr::UpdateNode(n) => match nodes_update(s.nodes, n.spec_id().0, node_db_props(n)) {
            Some(ns) => GlueState { nodes: ns, ..s },
            None => GlueState {
                up_node: keyed_add(s.up_node, n.spec_id().0, node_db_props(n)),
                ups: if find_id(s.up_node, n.spec_id().0) is None { s.ups + 1 } else { s.ups },
                ..s
            },
        },
        DBTr::UpdateRel(r) => match keyed_update(s.edges, r.spec_record().0.0, r.spec_record().1) {
            Some(es) => GlueState { edges: es, rel_up_base: s.rel_up_base + 1, ..s },
            None => {
                let fresh = find_id(s.up_rel, r.spec_record().0.0) is None;
                GlueState {
                    up_rel: keyed_add(s.up_rel, r.spec_record().0.0, r.spec_record().1),
                    ups: if fresh { s.ups + 1 } else { s.ups },
                    rel_up_base: s.rel_up_base + 1,
                    rel_up_node: s.rel_up_node + 1,
                    rel_up_rel: if fresh { s.rel_up_rel + 1 } else { s.rel_up_rel },
                    ..s
                }
            },
        },
    }
}

/// The four batch calls that send everything pending.
pub open spec fn glue_flush_spec(s: GlueState) -> Seq<DbOpV> {
    seq![
        run_with(CREATE_NODES@, "nodes"@, ValueV::List(s.nodes.map_values(|e: (i64, (ValueV, ValueV))| node_record(e.1.0, e.1.1)))),
        run_with(CREATE_RELS@, "rels"@, ValueV::List(s.edges.map_values(|e: (i64, ValueV)| e.1))),
        run_with(UPDATE_NODES@, "upds"@, ValueV::List(s.up_node.map_values(|e: (i64, ValueV)| e.1))),
        run_with(UPDATE_RELS@, "upds"@, ValueV::List(s.up_rel.map_values(|e: (i64, ValueV)| e.1))),
    ]
}

/// One change taken in: the next state and the calls to make, in order.
/// A batch goes out once the updates pass the next multiple of
/// [`BATCH_SIZE`]; the transaction is renewed once they pass the next
/// multiple of [`TR_SIZE`].
pub open spec fn glue_step(s: GlueState, evt: DBTr) -> (GlueState, Seq<DbOpV>) {
    let a = glue_absorb(s, evt);
    let (b, o1) = if a.ups > (a.btc + 1) * BATCH_SIZE {
        (
            GlueState {
                nodes: Seq::empty(),
                edges: Seq::empty(),
                up_node: Seq::empty(),
                up_rel: Seq::empty(),
                btc: a.btc + 1,
                ..a
            },
            glue_flush_spec(a),
        )
    } else {
        (a, Seq::<DbOpV>::empty())
    };
    if b.ups > (b.trs + 1) * TR_SIZE {
        (GlueState { trs: b.trs + 1, ..b }, o1.push(DbOpV::CommitAndRefresh))
    } else {
        (b, o1)
    }
}

/// What a run reports at its end: the updates taken in, the batch queries
/// sent (four per batch), the transactions committed, and of the
/// relationship updates received, how many were absorbed into pending
/// creations, absorbed into pending updates, and finally sent.
pub struct GlueStats {
    pub updates: usize,
    pub batches: usize,
    pub transactions: usize,
    pub rel_updates: usize,
    pub absorbed_into_nodes: usize,
    pub absorbed_into_updates: usize,
    pub executed: usize,
}

/// The decisions of a running neo4j view.
pub struct Neo4JRun {
    nodes: PendingNodes,
    edges: PendingKeyed,
    up_node: PendingKeyed,
    up_rel: PendingKeyed,
    ups: usize,
    btc: usize,
    trs: usize,
    rel_up_base: usize,
    rel_up_node: usize,
    rel_up_rel: usize,
}

impl Neo4JRun {
    /// The state of the run.
    pub closed spec fn state(&self) -> GlueState {
        GlueState {
            nodes: self.nodes.view(),
            edges: self.edges.view(),
            up_node: self.up_node.view(),
            up_rel: self.up_rel.view(),
            ups: self.ups as nat,
            btc: self.btc as nat,
            trs: self.trs as nat,
            rel_up_base: self.rel_up_base as nat,
            rel_up_node: self.rel_up_node as nat,
            rel_up_rel: self.rel_up_rel as nat,
        }
    }

    /// The counters agree: no more batches or transactions than the updates
    /// call for, and no more relationship updates absorbed or sent than received.
    pub closed spec fn wf(&self) -> bool {
        &&& self.btc * BATCH_SIZE <= self.ups
        &&& self.trs * TR_SIZE <= self.ups
        &&& self.rel_up_rel <= self.rel_up_node <= self.rel_up_base
    }

    /// A run with nothing pending and nothing counted.
    pub fn new() -> (r: Self)
        ensures
            r.wf(),
            r.state() == (GlueState {
                nodes: Seq::empty(),
                edges: Seq::empty(),
                up_node: Seq::empty(),
                up_rel: Seq::empty(),
                ups: 0,
                btc: 0,
                trs: 0,
                rel_up_base: 0,
                rel_up_node: 0,
                rel_up_rel: 0,
            }),
    {
        Neo4JRun {
            nodes: PendingNodes::new(),
            edges: PendingKeyed::new(),
            up_node: PendingKeyed::new(),
            up_rel: PendingKeyed::new(),
            ups: 0,
            btc: 0,
            trs: 0,
            rel_up_base: 0,
            rel_up_node: 0,
            rel_up_rel: 0,
        }
    }

    /// The number of updates taken in.
    pub fn ups(&self) -> (r: usize)
        ensures
            r == self.state().ups,
    {
        self.ups
    }

    /// The number of relationship updates received.
    pub fn rel_updates(&self) -> (r: usize)
        ensures
            r == self.state().rel_up_base,
    {
        self.rel_up_base
    }

    fn absorb(&mut self, evt: DBTr)
        requires
            old(self).ups < usize::MAX,
            old(self).rel_up_base < usize::MAX,
            old(self).rel_up_rel <= old(self).rel_up_node <= old(self).rel_up_base,
        ensures
            final(self).state() == glue_absorb(old(self).state(), evt),
            final(self).rel_up_rel <= final(self).rel_up_node <= final(self).rel_up_base,
    {
        match evt {
            DBTr::CreateNode(n) => {
                let (id, labs, props) = n.to_db();
                let labels = labels_value(&labs);
                proof {
                    lemma_dict_view(props);
                }
                self.nodes.add(id.0, labels, Value::Dict(props));
                self.ups = self.ups + 1;
            },
            DBTr::CreateRel(r) => {
                let (id, data) = r.to_db();
                self.edges.add(id.0, data);
                self.ups = self.ups + 1;
            },
            DBTr::UpdateNode(n) => {
                let (id, _labs, props) = n.to_db();
                proof {
                    lemma_dict_view(props);
                }
                match self.nodes.update(id.0, Value::Dict(props)) {
                    Some(p) => {
                        if self.up_node.add(id.0, p) {
                            self.ups = self.ups + 1;
                        }
                    },
                    None => {},
                }
            },
            DBTr::UpdateRel(r) => {
                self.rel_up_base = self.rel_up_base + 1;
                let (id, data) = r.to_db();
                match self.edges.update(id.0, data) {
                    Some(d) => {
                        self.rel_up_node = self.rel_up_node + 1;
                        if self.up_rel.add(id.0, d) {
                            self.ups = self.ups + 1;
                            self.rel_up_rel = self.rel_up_rel + 1;
                        }
                    },
                    None => {},
                }
            },
        }
    }

    fn flush(&mut self, ops: &mut Vec<DbOp>)
        ensures
            final(self).state() == (GlueState {
                nodes: Seq::empty(),
                edges: Seq::empty(),
                up_node: Seq::empty(),
                up_rel: Seq::empty(),
                ..old(self).state()
            }),
            final(self).ups == old(self).ups,
            final(self).btc == old(self).btc,
            final(self).trs == old(self).trs,
            final(self).rel_up_base == old(self).rel_up_base,
            final(self).rel_up_node == old(self).rel_up_node,
            final(self).rel_up_rel == old(self).rel_up_rel,
            ops_view(final(ops)@) == ops_view(old(ops)@) + glue_flush_spec(old(self).state()),
    {
        let nodes = self.nodes.execute();
        push_op(ops, run_with_param(CREATE_NODES, "nodes", nodes));
        let rels = self.edges.execute();
        push_op(ops, run_with_param(CREATE_RELS, "rels", rels));
        let upn = self.up_node.execute();
        push_op(ops, run_with_param(UPDATE_NODES, "upds", upn));
        let upr = self.up_rel.execute();
        push_op(ops, run_with_param(UPDATE_RELS, "upds", upr));
        assert(ops_view(ops@) =~= ops_view(old(ops)@) + glue_flush_spec(old(self).state()));
    }

    /// Takes in one change of the graph and answers with the calls to make
    /// on the database, in order.
    pub fn step(&mut self, evt: DBTr) -> (r: Vec<DbOp>)
        requires
            old(self).wf(),
            old(self).state().ups + TR_SIZE < usize::MAX,
            old(self).state().rel_up_base < usize::MAX,
        ensures
            final(self).wf(),
            (final(self).state(), ops_view(r@)) == glue_step(old(self).state(), evt),
    {
        let mut ops: Vec<DbOp> = Vec::new();
        self.absorb(evt);
        let ghost a = self.state();
        if self.ups > (self.btc + 1) * BATCH_SIZE {
            self.flush(&mut ops);
            self.btc = self.btc + 1;
        }
        let ghost b = self.state();
        if self.ups > (self.trs + 1) * TR_SIZE {
            push_op(&mut ops, DbOp::CommitAndRefresh);
            self.trs = self.trs + 1;
            assert(self.state() == (GlueState { trs: b.trs + 1, ..b }));
        }
        ops
    }

    /// Ends the run: the calls to make (the last batch, then the commit),
    /// and what the run reports.
    pub fn finish(self) -> (r: (Vec<DbOp>, GlueStats))
        requires
            self.wf(),
            self.state().ups + TR_SIZE < usize::MAX,
        ensures
            ops_view(r.0@) == glue_flush_spec(self.state()).push(DbOpV::Commit),
            r.1.updates == self.state().ups,
            r.1.batches == self.state().btc * 4,
            r.1.transactions == self.state().trs + 1,
            r.1.rel_updates == self.state().rel_up_base,
            r.1.absorbed_into_nodes == self.state().rel_up_base - self.state().rel_up_node,
            r.1.absorbed_into_updates == self.state().rel_up_node - self.state().rel_up_rel,
            r.1.executed == self.state().rel_up_rel,
    {
        let mut v = self;
        let mut ops: Vec<DbOp> = Vec::new();
        v.flush(&mut ops);
        push_op(&mut ops, DbOp::Commit);
        assert(v.btc * 4 <= v.ups);
        let stats = GlueStats {
            updates: v.ups,
            batches: v.btc * 4,
            transactions: v.trs + 1,
            rel_updates: v.rel_up_base,
            absorbed_into_nodes: v.rel_up_base - v.rel_up_node,
            absorbed_into_updates: v.rel_up_node - v.rel_up_rel,
            executed: v.rel_up_rel,
        };
        (ops, stats)
    }
}

/// The parameters of a view as pairs of texts.
pub open spec fn params_view(params: Seq<(String, String)>) -> Seq<(Seq<char>, Seq<char>)> {
    params.map_values(|p: (String, String)| (p.0@, p.1@))
}

/// The value given for `key`, or `default` when none is.
pub open spec fn param_or_spec(params: Seq<(String, String)>, key: Seq<char>, default: Seq<char>) -> Seq<char> {
    match find_id(params_view(params), key) {
        Some(i) => params_view(params)[i].1,
        None => default,
    }
}

/// The value given for `key` (the first one, should there be several), or
/// `default` when none is.
pub fn param_or(params: &Vec<(String, String)>, key: &str, default: &String) -> (r: String)
    ensures
        r@ == param_or_spec(params@, key@, default@),
{
    let ghost pv = params_view(params@);
    let mut i: usize = 0;
    while i < params.len()
        invariant
            0 <= i <= params.len(),
            pv == params_view(params@),
            forall|j: int| 0 <= j < i ==> pv[j].0 != key@,
        decreases params.len() - i,
    {
        if same_text(params[i].0.as_str(), key) {
            assert(pv[i as int].0 == params@[i as int].0@);
            proof {
                lemma_find_id_prefix(pv, key@, i as int);
            }
            return params[i].1.clone();
        }
        i = i + 1;
    }
    proof {
        lemma_find_id_prefix(pv, key@, i as int);
    }
    default.clone()
}

/// Where to connect and how to authenticate: the view's `addr`, `user` and
/// `pass` parameters, each defaulting to the engine's configuration.
pub fn connect_params(params: &Vec<(String, String)>, cfg: &EngineConfig) -> (r: (String, String, String))
    ensures
        r.0@ == param_or_spec(params@, "addr"@, cfg.db_server@),
        r.1@ == param_or_spec(params@, "user"@, cfg.db_user@),
        r.2@ == param_or_spec(params@, "pass"@, cfg.db_password@),
{
    (
        param_or(params, "addr", &cfg.db_server),
        param_or(params, "user", &cfg.db_user),
        param_or(params, "pass", &cfg.db_password),
    )
}

/// A view type that streams the graph to a neo4j database.
#[derive(Debug)]
pub struct Neo4JView {
    id: usize,
}

impl Neo4JView {
    /// The identifier of the view type, in specifications.
    pub closed spec fn spec_id(&self) -> usize {
        self.id
    }

    /// A view type registered under `id`.
    pub fn new(id: usize) -> (r: Neo4JView)
        ensures
            r.spec_id() == id,
    {
        Neo4JView { id }
    }

    /// The identifier of the view type.
    pub fn id(&self) -> (r: usize)
        ensures
            r == self.spec_id(),
    {
        self.id
    }

    /// The name of the view type.
    pub fn name(&self) -> (r: &'static str)
        ensures
            r@ == "Neo4jView"@,
    {
        "Neo4jView"
    }

    /// What the view type does.
    pub fn desc(&self) -> (r: &'static str)
        ensures
            r@ == "View for streaming data to a Neo4j database instance."@,
    {
        "View for streaming data to a Neo4j database instance."
    }

    /// The parameters a view of this type takes, with their descriptions.
    pub fn params(&self) -> (r: Vec<(&'static str, &'static str)>)
        ensures
            r@.len() == 3,
            r@[0].0@ == "addr"@,
            r@[0].1@ == "The Neo4j server address to connect to. Defaults to main cfg value."@,
            r@[1].0@ == "user"@,
            r@[1].1@ == "The username to auth with. Defaults to main cfg value."@,
            r@[2].0@ == "pass"@,
            r@[2].1@ == "The password to auth with. Defaults to main cfg value."@,
    {
        vec![
            ("addr", "The Neo4j server address to connect to. Defaults to main cfg value."),
            ("user", "The username to auth with. Defaults to main cfg value."),
            ("pass", "The password to auth with. Defaults to main cfg value."),
        ]
    }
}

} // verus!
