use opus_pvm::batch::DbOp;
use opus_pvm::data::node_types::editsession::EditSession;
use opus_pvm::data::node_types::file::File;
use opus_pvm::data::node_types::process::Process;
use opus_pvm::data::node_types::EnumNode;
use opus_pvm::data::nodeid::NodeID;
use opus_pvm::data::value::Value;
use opus_pvm::ingest::db_loop::{self, ExecuteLoop};
use opus_pvm::ingest::persist::cypher_view::CypherView;
use opus_pvm::ingest::persist::neo4j_view::{self, setup_ops, Neo4JView};
use opus_pvm::ingest::persist::DBTr;

fn file(id: i64, uuid: u128, name: &str) -> EnumNode {
    EnumNode::File(File { db_id: NodeID(id), uuid, name: name.to_string() })
}

fn query_of(op: &DbOp) -> &'static str {
    match op {
        DbOp::Run { query, .. } => query,
        DbOp::CommitAndRefresh => "<commit and refresh>",
        DbOp::Commit => "<commit>",
    }
}

fn list_len(op: &DbOp) -> usize {
    match op {
        DbOp::Run { params, .. } => match &params[0].1 {
            Value::List(l) => l.len(),
            _ => panic!("parameter is not a list"),
        },
        _ => panic!("not a query"),
    }
}

#[test]
fn setup_runs_indexes_then_schema_version() {
    let ops = setup_ops();
    let qs: Vec<&str> = ops.iter().map(query_of).collect();
    assert_eq!(
        qs,
        vec![
            "CREATE INDEX ON :Node(db_id)",
            "CREATE INDEX ON :Process(uuid)",
            "CREATE INDEX ON :File(uuid)",
            "CREATE INDEX ON :EditSession(uuid)",
            "MERGE (:DBInfo {pvm_version: 2})",
        ]
    );
}

#[test]
fn neo4j_view_batches_after_batch_size() {
    let mut v = Neo4JView::new();
    for i in 0..1000 {
        let ops = v.step(DBTr::CreateNode(file(i, i as u128, "f")));
        assert!(ops.is_empty());
    }
    assert_eq!(v.ups(), 1000);
    let ops = v.step(DBTr::CreateNode(file(1000, 1000, "f")));
    assert_eq!(ops.len(), 3);
    assert_eq!(query_of(&ops[0]), neo4j_view::CREATE_NODES);
    assert_eq!(query_of(&ops[1]), neo4j_view::CREATE_RELS);
    assert_eq!(query_of(&ops[2]), neo4j_view::UPDATE_NODES);
    assert_eq!(list_len(&ops[0]), 1001);
    assert_eq!(list_len(&ops[1]), 0);
    let (fin, ups, batches, trs) = v.finish();
    assert_eq!(fin.len(), 4);
    assert_eq!(list_len(&fin[0]), 0);
    assert!(matches!(fin[3], DbOp::Commit));
    assert_eq!(ups, 1001);
    assert_eq!(batches, 3);
    assert_eq!(trs, 1);
}

#[test]
fn neo4j_view_update_folds_into_pending_creation() {
    let mut v = Neo4JView::new();
    v.step(DBTr::CreateNode(file(5, 55, "old")));
    v.step(DBTr::UpdateNode(file(5, 55, "new")));
    assert_eq!(v.ups(), 1);
    v.step(DBTr::UpdateNode(file(6, 66, "other")));
    assert_eq!(v.ups(), 2);
    v.step(DBTr::CreateRel { src: NodeID(5), dst: NodeID(6), ty: "INF", props: vec![] });
    assert_eq!(v.ups(), 3);
    let (fin, ups, _, _) = v.finish();
    assert_eq!(ups, 3);
    assert_eq!(list_len(&fin[0]), 1);
    assert_eq!(list_len(&fin[1]), 1);
    assert_eq!(list_len(&fin[2]), 1);
    match &fin[0] {
        DbOp::Run { params, .. } => {
            assert_eq!(params[0].0, "nodes");
            match &params[0].1 {
                Value::List(l) => match &l[0] {
                    Value::Dict(rec) => {
                        assert_eq!(rec[0].0, "labels");
                        assert_eq!(rec[1].0, "props");
                        match &rec[1].1 {
                            Value::Dict(p) => {
                                assert_eq!(p[0].0, "name");
                                assert!(matches!(&p[0].1, Value::String(s) if s == "new"));
                                assert_eq!(p[1].0, "db_id");
                                assert!(matches!(p[1].1, Value::Integer(5)));
                                assert_eq!(p[2].0, "uuid");
                                assert!(matches!(&p[2].1, Value::String(s) if s == "00000000-0000-0000-0000-000000000037"));
                            }
                            _ => panic!("props is not a map"),
                        }
                    }
                    _ => panic!("record is not a map"),
                },
                _ => panic!("nodes is not a list"),
            }
        }
        _ => panic!("not a query"),
    }
}

#[test]
fn neo4j_view_renews_transaction_past_tr_size() {
    let mut v = Neo4JView::new();
    let mut renewals = 0;
    let mut batches = 0;
    for i in 0..100_001i64 {
        let ops = v.step(DBTr::CreateRel { src: NodeID(i), dst: NodeID(i + 1), ty: "INF", props: vec![] });
        for op in &ops {
            match op {
                DbOp::CommitAndRefresh => renewals += 1,
                DbOp::Run { .. } => batches += 1,
                DbOp::Commit => panic!("commit before the end"),
            }
        }
    }
    assert_eq!(renewals, 1);
    assert_eq!(batches, 100 * 3);
}

#[test]
fn execute_loop_flushes_and_renews_on_first_update() {
    let mut l = ExecuteLoop::new();
    let ops = l.step(db_loop::DBTr::CreateNode(NodeID(1), Value::List(vec![]), Value::Dict(vec![])));
    assert_eq!(ops.len(), 4);
    assert_eq!(query_of(&ops[0]), db_loop::CREATE_NODES);
    assert_eq!(list_len(&ops[0]), 1);
    assert!(matches!(ops[3], DbOp::CommitAndRefresh));
    let ops = l.step(db_loop::DBTr::CreateRel(Value::Dict(vec![])));
    assert!(ops.is_empty());
    let ops = l.step(db_loop::DBTr::UpdateNode(NodeID(9), Value::Dict(vec![])));
    assert!(ops.is_empty());
    let (fin, ups, queries, trs) = l.finish();
    assert_eq!(fin.len(), 4);
    assert_eq!(list_len(&fin[1]), 1);
    assert_eq!(list_len(&fin[2]), 1);
    assert!(matches!(fin[3], DbOp::Commit));
    assert_eq!(ups, 3);
    assert_eq!(queries, 6);
    assert_eq!(trs, 2);
}

#[test]
fn execute_loop_update_of_pending_node_counts_nothing() {
    let mut l = ExecuteLoop::new();
    l.step(db_loop::DBTr::CreateNode(NodeID(1), Value::List(vec![]), Value::Dict(vec![])));
    l.step(db_loop::DBTr::CreateNode(NodeID(2), Value::List(vec![]), Value::Dict(vec![])));
    l.step(db_loop::DBTr::UpdateNode(NodeID(2), Value::Dict(vec![])));
    assert_eq!(l.ups(), 2);
}

#[test]
fn cypher_view_script_layout() {
    let mut v = CypherView::new();
    v.create_node(NodeID(1), &vec!["Node", "File"], &vec![("name".to_string(), "\"a\"".to_string())]);
    v.create_node(NodeID(2), &vec!["Node", "Process"], &vec![]);
    v.update_node(NodeID(1), &vec![("name".to_string(), "\"b\"".to_string())]);
    v.create_rel(NodeID(1), NodeID(2), "INF", &vec![("class".to_string(), "\"x\"".to_string())]);
    let s = v.script();
    assert_eq!(s.len(), 3);
    assert!(s[0].starts_with(":begin\n                 UNWIND ["));
    assert!(s[0].contains("{labels: [\"Node\", \"File\"], props: {name: \"b\"}}, {labels: [\"Node\", \"Process\"], props: {}}"));
    assert!(s[1].starts_with("CREATE INDEX ON :Node(db_id);"));
    assert!(s[2].contains("{src: 1, dst: 2, type: \"INF\", props: {class: \"x\"}}"));
}

#[test]
fn process_and_session_nodes_write_their_fields() {
    let p = EnumNode::Proc(Process { db_id: NodeID(3), uuid: 1, pid: 42, cmdline: "ls".to_string(), thin: true });
    let (id, labs, props) = p.to_db();
    assert_eq!(id, NodeID(3));
    assert_eq!(labs, vec!["Node", "Process"]);
    let keys: Vec<&str> = props.iter().map(|p| p.0.as_str()).collect();
    assert_eq!(keys, vec!["cmdline", "pid", "thin", "db_id", "uuid"]);
    let e = EnumNode::EditSession(EditSession { db_id: NodeID(4), uuid: 2, name: "e".to_string() });
    let (_, labs, _) = e.to_db();
    assert_eq!(labs, vec!["Node", "EditSession"]);
}
