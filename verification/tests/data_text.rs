use opus_pvm::batch::{labels_value, run_plain, DbOp, PendingKeyed, PendingNodes, PendingValues};
use opus_pvm::c_api::{resolve_view_name, ret, OpusErr};
use opus_pvm::data::edge::Edge;
use opus_pvm::data::gen_node::{node_read_gives_up, GenNode};
use opus_pvm::data::id::ID;
use opus_pvm::data::node_types::file::{File, FileInit};
use opus_pvm::data::node_types::pipe::Pipe;
use opus_pvm::data::node_types::process::Process;
use opus_pvm::data::node_types::socket::{int_to_sock_class, Socket, SocketClass, SocketInit};
use opus_pvm::data::node_types::EnumNode;
use opus_pvm::data::nodeid::NodeID;
use opus_pvm::data::traits::Generable;
use opus_pvm::data::value::{get_prop, prop_int, prop_int_in, prop_uuid, take_prop, Value};
use opus_pvm::engine::{config_with_defaults, Engine};
use opus_pvm::neo4j_glue::{IntoVal, Val2UUID};
use opus_pvm::neo4j_glue::csv_view::{format_id, format_u64, import_line, write_str, CSVView};
use opus_pvm::neo4j_glue::cypher_view::{render_labs, CypherScript};
use opus_pvm::query::low::{count_processes, count_processes_query, nodes_by_uuid, nodes_by_uuid_query};
use opus_pvm::text::{chunked_join, fmt_i64, fmt_u64, join_range, same_text};
use opus_pvm::uuid_text::mkuuid;

fn s(x: &str) -> String {
    x.to_string()
}

fn node_value(internal: i64, labels: Vec<&str>, props: Vec<(String, Value)>) -> Value {
    Value::Structure {
        signature: 0x4E,
        fields: vec![
            Value::Integer(internal),
            Value::List(labels.into_iter().map(|l| Value::String(s(l))).collect()),
            Value::Dict(props),
        ],
    }
}

fn file_props(id: i64, uuid: &str, name: &str) -> Vec<(String, Value)> {
    vec![
        (s("db_id"), Value::Integer(id)),
        (s("uuid"), Value::String(s(uuid))),
        (s("name"), Value::String(s(name))),
    ]
}

#[test]
fn decimal_text() {
    assert_eq!(fmt_i64(0), "0");
    assert_eq!(fmt_i64(-120), "-120");
    assert_eq!(fmt_i64(i64::MIN), "-9223372036854775808");
    assert_eq!(fmt_u64(u64::MAX), "18446744073709551615");
    assert!(same_text("ab", "ab"));
    assert!(!same_text("ab", "abc"));
    assert_eq!(ID(7).to_string(), "7");
    assert_eq!(NodeID(-3).to_string(), "-3");
}

#[test]
fn joins_and_chunks() {
    let items = vec![s("a"), s("b"), s("c")];
    assert_eq!(join_range(&items, 0, 3, ", "), "a, b, c");
    assert_eq!(join_range(&items, 1, 2, ", "), "b");
    assert_eq!(join_range(&items, 1, 1, ", "), "");
    assert_eq!(chunked_join(&items, 2, "+", "<", ">"), vec![s("<a+b>"), s("<c>")]);
}

#[test]
fn uuid_text_round_trip() {
    let u = 0x0123456789abcdef0011223344556677u128;
    match u.into_val() {
        Value::String(t) => assert_eq!(t, "01234567-89ab-cdef-0011-223344556677"),
        _ => panic!("a UUID is stored as a string"),
    }
    assert_eq!(u.into_val().into_uuid(), Some(u));
    assert_eq!(Value::String(s("zz")).into_uuid(), None);
    assert_eq!(Value::Integer(3).into_uuid(), None);
    assert_eq!(mkuuid(5), 5u128);
}

#[test]
fn property_lookup() {
    let mut p = vec![(s("a"), Value::Integer(300)), (s("b"), Value::String(s("x"))), (s("a"), Value::Integer(1))];
    assert_eq!(prop_int(&p, "a"), Some(300));
    assert_eq!(prop_int_in(&p, "a", 0, 255), None);
    assert_eq!(prop_int(&p, "b"), None);
    assert!(get_prop(&p, "zz").is_none());
    assert!(matches!(take_prop(&mut p, "a"), Some(Value::Integer(300))));
    assert_eq!(prop_int(&p, "a"), Some(1));
    assert_eq!(prop_uuid(&vec![(s("u"), Value::String(s("00000000-0000-0000-0000-000000000001")))], "u"), Some(1));
}

#[test]
fn value_casts() {
    assert_eq!(Value::Integer(70000).into_u16(), None);
    assert_eq!(Value::Integer(7).into_u16(), Some(7));
    assert_eq!(Value::Integer(-1).into_u64(), None);
    assert_eq!(Value::Boolean(true).into_bool(), Some(true));
    assert_eq!(Value::Null.into_string(), None);
    assert_eq!(Value::String(s("00000000-0000-0000-0000-00000000000a")).into_uuid5(), Some(10));
}

#[test]
fn nodes_read_back() {
    let v = node_value(5, vec!["Node", "File"], file_props(3, "00000000-0000-0000-0000-000000000009", "f"));
    assert!(!node_read_gives_up(&v));
    match EnumNode::from_db(v) {
        Ok(EnumNode::File(f)) => {
            assert_eq!(f.db_id, NodeID(3));
            assert_eq!(f.uuid, 9);
            assert_eq!(f.name, "f");
        }
        _ => panic!("expected a file"),
    }
    let bad_sig = Value::Structure { signature: 1, fields: vec![] };
    assert!(matches!(EnumNode::from_db(bad_sig), Err("Structure has incorrect signature")));
    let unknown = node_value(5, vec!["Node"], vec![]);
    assert!(matches!(EnumNode::from_db(unknown), Err("Node doesn't match any known type.")));
    let no_uuid = node_value(5, vec!["File"], vec![(s("db_id"), Value::Integer(3))]);
    assert!(EnumNode::from_db(no_uuid).is_err());
    let gives_up = node_value(5, vec![], vec![]);
    let gives_up = match gives_up {
        Value::Structure { signature, mut fields } => {
            fields[1] = Value::List(vec![Value::Integer(1)]);
            Value::Structure { signature, fields }
        }
        v => v,
    };
    assert!(node_read_gives_up(&gives_up));
    let g = GenNode::from_db(node_value(2, vec!["X"], vec![])).ok().unwrap();
    let (id, labs, props) = g.decompose();
    assert_eq!((id, labs, props.len()), (2, vec![s("X")], 0));
}

#[test]
fn socket_classes_and_defaults() {
    assert_eq!(int_to_sock_class(2), Some(SocketClass::AfUnix));
    assert_eq!(int_to_sock_class(3), None);
    assert_eq!(SocketClass::AfInet.code(), 1);
    let sk = Socket::new(NodeID(1), 2, None);
    assert_eq!(sk.class, SocketClass::Unknown);
    assert_eq!(sk.port, 0);
    let sk = Socket::new(NodeID(1), 2, Some(SocketInit { class: SocketClass::AfInet, path: s(""), ip: s("1.1.1.1"), port: 9 }));
    assert_eq!(sk.ip, "1.1.1.1");
    let f = File::new(NodeID(1), 3, Some(FileInit { name: s("n") }));
    assert_eq!(f.name, "n");
}

#[test]
fn edges_to_and_from_db() {
    match Edge::Child(NodeID(4)).to_db() {
        Value::Dict(d) => {
            assert_eq!(d[0].0, "id");
            assert!(matches!(d[0].1, Value::Integer(4)));
            assert!(matches!(&d[1].1, Value::String(c) if c == "child"));
        }
        _ => panic!("not a map"),
    }
    let rel = Value::Structure {
        signature: 0x52,
        fields: vec![
            Value::Integer(1),
            Value::Integer(2),
            Value::Integer(8),
            Value::String(s("R")),
            Value::Dict(vec![(s("class"), Value::String(s("next")))]),
        ],
    };
    assert_eq!(Edge::from_db(rel).ok(), Some(Edge::Next(NodeID(8))));
}

#[test]
fn pending_batches() {
    let mut n = PendingNodes::new();
    n.add(1, Value::Null, Value::Integer(1));
    n.add(2, Value::Null, Value::Integer(2));
    assert!(n.update(1, Value::Integer(3)).is_none());
    assert!(matches!(n.update(9, Value::Integer(4)), Some(Value::Integer(4))));
    match n.execute() {
        Value::List(l) => assert_eq!(l.len(), 2),
        _ => panic!("not a list"),
    }
    match n.execute() {
        Value::List(l) => assert!(l.is_empty()),
        _ => panic!("not a list"),
    }
    let mut k = PendingKeyed::new();
    assert!(k.add(1, Value::Integer(1)));
    assert!(!k.add(1, Value::Integer(2)));
    assert!(k.update(2, Value::Integer(5)).is_some());
    match k.execute() {
        Value::List(l) => {
            assert_eq!(l.len(), 1);
            assert!(matches!(l[0], Value::Integer(2)));
        }
        _ => panic!("not a list"),
    }
    let mut v = PendingValues::new();
    v.add(Value::Integer(1));
    match v.execute() {
        Value::List(l) => assert_eq!(l.len(), 1),
        _ => panic!("not a list"),
    }
    match labels_value(&vec!["A", "B"]) {
        Value::List(l) => assert!(matches!(&l[1], Value::String(x) if x == "B")),
        _ => panic!("not a list"),
    }
    assert!(matches!(run_plain("Q"), DbOp::Run { query: "Q", .. }));
}

#[test]
fn c_api_decisions() {
    assert_eq!(ret(OpusErr::EUNKNOWN), -1);
    assert_eq!(ret(OpusErr::EINVALIDARG), -4);
    let views = vec![(0usize, s("Neo4jView")), (1, s("CSVView")), (2, s("CSVView"))];
    assert_eq!(resolve_view_name(&views, "Neo4jView"), Ok(0));
    assert_eq!(resolve_view_name(&views, "CSVView"), Err(OpusErr::EAMBIGUOUSVIEWNAME));
    assert_eq!(resolve_view_name(&views, "Nope"), Err(OpusErr::ENOVIEWWITHNAME));
}

#[test]
fn engine_pipeline_lifecycle() {
    let cfg = config_with_defaults(None, None, None, true);
    assert_eq!(cfg.db_server, "localhost:7687");
    assert_eq!(cfg.db_user, "neo4j");
    assert_eq!(cfg.db_password, "opus");
    let mut e: Engine<u32> = Engine::new(cfg);
    assert!(!e.is_running());
    assert_eq!(e.shutdown_pipeline(), Err("Pipeline not running"));
    assert_eq!(e.init_pipeline(7), Ok(()));
    assert_eq!(e.init_pipeline(8), Err("Pipeline already running"));
    assert_eq!(e.pipeline(), Ok(&7));
    assert_eq!(e.shutdown_pipeline(), Ok(7));
    assert!(!e.is_running());
}

#[test]
fn csv_and_cypher_text() {
    let mut out = s("x");
    write_str(&mut out, "a\"b");
    assert_eq!(out, "x,\"a\"\"b\"");
    assert_eq!(format_id(ID(-2)), -2);
    assert_eq!(format_u64(u64::MAX), -1);
    assert_eq!(
        import_line(&vec![s("n.csv")], &vec![s("r.csv")]),
        "neo4j-admin import --id-type=INTEGER --multiline-fields=true --nodes dbinfo.csv --nodes n.csv --relationships r.csv"
    );
    assert_eq!(CSVView::new(3).id(), 3);
    assert_eq!(render_labs(&vec!["Node", "File"]), "Node:File");
    let mut c = CypherScript::new();
    c.create_node(ID(1), &vec!["Node", "File"], &vec![(s("name"), s("\"a\""))]);
    c.create_rel(ID(1), ID(1), "SELF", &vec![]);
    let sc = c.script();
    assert_eq!(sc.len(), 3);
    assert!(sc[0].contains("CREATE (n:Node:File {name: \"a\"});"));
    assert!(sc[2].contains("MATCH (s:Node {db_id: 1}), (d:Node {db_id: 1}) CREATE (s)-[:SELF {}]->(d);"));
}

#[test]
fn lookups_in_the_database() {
    match nodes_by_uuid_query(1) {
        DbOp::Run { query, params } => {
            assert_eq!(query, "MATCH (n {uuid: {uuid}})\n              RETURN n");
            assert!(matches!(&params[0].1, Value::String(u) if u == "00000000-0000-0000-0000-000000000001"));
        }
        _ => panic!("not a query"),
    }
    assert!(matches!(count_processes_query(), DbOp::Run { .. }));
    assert_eq!(count_processes(&vec![Value::Integer(12)]), 12);
    let rows = vec![node_value(1, vec!["File"], file_props(4, "00000000-0000-0000-0000-000000000002", "g"))];
    let nodes = nodes_by_uuid(rows);
    assert_eq!(nodes.len(), 1);
    assert!(matches!(&nodes[0], EnumNode::File(f) if f.name == "g"));
}

#[test]
fn written_nodes_read_back() {
    let nodes = vec![
        EnumNode::Proc(Process { db_id: NodeID(1), uuid: 11, pid: -4, cmdline: s("a b"), thin: false }),
        EnumNode::File(File { db_id: NodeID(2), uuid: 12, name: s("/x") }),
        EnumNode::Pipe(Pipe { db_id: NodeID(3), uuid: 13, fd: 7 }),
        EnumNode::Socket(Socket { db_id: NodeID(4), uuid: 14, class: SocketClass::AfInet, path: s(""), ip: s("1.2.3.4"), port: 443 }),
    ];
    for n in nodes {
        let (_, labs, props) = n.to_db();
        let v = node_value(99, labs, props);
        assert!(!node_read_gives_up(&v));
        let back = EnumNode::from_db(v).ok().unwrap();
        match (&n, &back) {
            (EnumNode::Proc(a), EnumNode::Proc(b)) => {
                assert_eq!((a.db_id, a.uuid, a.pid, &a.cmdline, a.thin), (b.db_id, b.uuid, b.pid, &b.cmdline, b.thin))
            }
            (EnumNode::File(a), EnumNode::File(b)) => assert_eq!((a.db_id, a.uuid, &a.name), (b.db_id, b.uuid, &b.name)),
            (EnumNode::Pipe(a), EnumNode::Pipe(b)) => assert_eq!((a.db_id, a.uuid, a.fd), (b.db_id, b.uuid, b.fd)),
            (EnumNode::Socket(a), EnumNode::Socket(b)) => {
                assert_eq!((a.db_id, a.uuid, a.class, &a.ip, a.port), (b.db_id, b.uuid, b.class, &b.ip, b.port))
            }
            _ => panic!("read back as another kind of node"),
        }
    }
}
