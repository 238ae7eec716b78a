use opus_pvm::batch::DbOp;
use opus_pvm::data::id::ID;
use opus_pvm::data::pvm_types::{PVMDataType, PVMOps};
use opus_pvm::data::value::Value;
use opus_pvm::engine::config_with_defaults;
use opus_pvm::neo4j_glue::csv_export::CsvExport;
use opus_pvm::neo4j_glue::graph::{GraphNode, GraphRel, ToDBNode, ToDBRel};
use opus_pvm::neo4j_glue::neo4j_view::{connect_params, glue_setup_ops, param_or, Neo4JRun, DBTr};
use opus_pvm::neo4j_glue::{dict_insert, IntoID, IntoVal, Val2UUID};

fn s(x: &str) -> String {
    x.to_string()
}

fn data_node(id: i64) -> GraphNode {
    GraphNode::Data {
        id: ID(id),
        pvm_ty: PVMDataType::Store,
        ty_name: s("file"),
        ty_props: vec![s("size"), s("mode")],
        uuid: 0x10,
        ctx: ID(7),
        latest: vec![(s("size"), s("10")), (s("type"), s("shadowed"))],
        current: vec![Some(s("10")), None],
        meta_hist: s("{\"h\":1}"),
    }
}

fn key_vals(v: &Vec<(String, Value)>) -> Vec<(String, String)> {
    v.iter()
        .map(|(k, v)| {
            let t = match v {
                Value::String(x) => x.clone(),
                Value::Integer(i) => i.to_string(),
                Value::Boolean(b) => b.to_string(),
                Value::List(l) => format!("list{}", l.len()),
                _ => s("?"),
            };
            (k.clone(), t)
        })
        .collect()
}

#[test]
fn dict_insert_replaces_or_appends() {
    let mut p: Vec<(String, Value)> = vec![(s("a"), Value::Integer(1))];
    dict_insert(&mut p, s("b"), Value::Integer(2));
    dict_insert(&mut p, s("a"), Value::Integer(3));
    assert_eq!(key_vals(&p), vec![(s("a"), s("3")), (s("b"), s("2"))]);
}

#[test]
fn into_val_and_back() {
    assert!(matches!(ID(-5).into_val(), Value::Integer(-5)));
    assert!(matches!(PVMOps::Version.into_val(), Value::String(x) if x == "Version"));
    assert!(matches!(PVMDataType::StoreCont.into_val(), Value::String(x) if x == "StoreCont"));
    assert!(matches!(0xabu128.into_val(), Value::String(x) if x == "00000000-0000-0000-0000-0000000000ab"));
    assert_eq!(Value::Integer(9).into_id(), Some(ID(9)));
    assert_eq!(Value::Boolean(true).into_id(), None);
    assert_eq!(Value::String(s("00000000-0000-0000-0000-0000000000ab")).into_uuid(), Some(0xab));
    assert_eq!(Value::String(s("not a uuid")).into_uuid(), None);
    assert_eq!(Value::Integer(1).into_uuid(), None);
}

#[test]
fn data_node_record() {
    let n = data_node(3);
    assert_eq!(n.get_labels(), vec!["Node", "Store"]);
    let (id, labs, props) = n.to_db();
    assert_eq!(id, ID(3));
    assert_eq!(labs, vec!["Node", "Store"]);
    assert_eq!(
        key_vals(&props),
        vec![
            (s("size"), s("10")),
            (s("type"), s("file")),
            (s("meta_hist"), s("{\"h\":1}")),
            (s("uuid"), s("00000000-0000-0000-0000-000000000010")),
            (s("ctx"), s("7")),
            (s("db_id"), s("3")),
        ]
    );
}

#[test]
fn name_and_schema_records() {
    let n = GraphNode::NameNet { id: ID(1), addr: s("10.0.0.1"), port: 80 };
    assert_eq!(n.get_labels(), vec!["Node", "Name", "Net"]);
    assert_eq!(key_vals(&n.get_props()), vec![(s("addr"), s("10.0.0.1")), (s("port"), s("80"))]);
    let c = GraphNode::SchemaCtx { id: ID(2), name: s("ctx"), props: vec![s("a"), s("b")] };
    assert_eq!(
        key_vals(&c.get_props()),
        vec![(s("name"), s("ctx")), (s("base"), s("Context")), (s("props"), s("list2"))]
    );
    let ctx = GraphNode::Ctx { id: ID(4), ty_name: s("t"), ty_props: vec![], cont: vec![(s("k"), s("v")), (s("k"), s("w"))] };
    assert_eq!(key_vals(&ctx.get_props()), vec![(s("k"), s("w")), (s("type"), s("t"))]);
}

#[test]
fn relationship_records() {
    let r = GraphRel::Inf { id: ID(9), src: ID(1), dst: ID(2), pvm_op: PVMOps::Sink, ctx: ID(3), byte_count: 12 };
    let (id, v) = r.to_db();
    assert_eq!(id, ID(9));
    match v {
        Value::Dict(d) => {
            let keys: Vec<&str> = d.iter().map(|e| e.0.as_str()).collect();
            assert_eq!(keys, vec!["src", "dst", "type", "props"]);
            assert!(matches!(&d[2].1, Value::String(t) if t == "INF"));
            match &d[3].1 {
                Value::Dict(p) => assert_eq!(
                    key_vals(p),
                    vec![(s("db_id"), s("9")), (s("pvm_op"), s("Sink")), (s("ctx"), s("3")), (s("byte_count"), s("12"))]
                ),
                _ => panic!("props is not a map"),
            }
        }
        _ => panic!("record is not a map"),
    }
}

#[test]
fn csv_rows_and_headers() {
    let n = data_node(3);
    let mut h = String::new();
    n.push_header(&mut h);
    assert_eq!(h, "db_id:ID,:LABEL,uuid,ty,meta_hist,size,mode\n");
    assert_eq!(n.row(), "3,Node;Store,00000000-0000-0000-0000-000000000010,file,\"{\"\"h\"\":1}\",\"10\",\n");
    assert_eq!(n.fname(), "store_file.csv");
    let c = GraphNode::Ctx { id: ID(4), ty_name: s("t"), ty_props: vec![s("k")], cont: vec![(s("k"), s("v"))] };
    assert!(c.is_complete());
    assert_eq!(c.row(), "4,Node;Context,t,v\n\n");
    let bad = GraphNode::Ctx { id: ID(4), ty_name: s("t"), ty_props: vec![s("x")], cont: vec![] };
    assert!(!bad.is_complete());
    let p = GraphNode::NamePath { id: ID(5), path: s("/a\"b") };
    assert_eq!(p.row(), "5,Node;Name;Path,\"/a\"\"b\"\n");
    let r = GraphRel::Named { id: ID(8), src: ID(1), dst: ID(2), start: ID(3), end: ID(0) };
    assert_eq!(r.header(), "db_id,:START_ID,:END_ID,:TYPE,start:long,end:long\n");
    assert_eq!(r.row(), "8,1,2,NAMED,3,\"0\"\n");
    let i = GraphRel::Inf { id: ID(9), src: ID(1), dst: ID(2), pvm_op: PVMOps::Source, ctx: ID(3), byte_count: 12 };
    assert_eq!(i.row(), "9,1,2,INF,Source,\"3\",12\n");
    let sd = GraphNode::SchemaData { id: ID(6), name: s("file"), base: PVMDataType::Store, props: vec![s("a"), s("b")] };
    assert_eq!(sd.row(), "6,Node;Schema,\"file\",Store,a;b\n");
}

#[test]
fn csv_export_files() {
    let mut e = CsvExport::new();
    e.absorb(DBTr::CreateNode(GraphNode::NamePath { id: ID(1), path: s("/x") }));
    e.absorb(DBTr::UpdateNode(GraphNode::NamePath { id: ID(1), path: s("/y") }));
    e.absorb(DBTr::CreateRel(GraphRel::Named { id: ID(2), src: ID(3), dst: ID(1), start: ID(0), end: ID(0) }));
    assert!(e.is_complete());
    let files = e.files("1.0");
    let names: Vec<&str> = files.iter().map(|f| f.name.as_str()).collect();
    assert_eq!(names, vec!["db/dbinfo.csv", "db/hydrate.sh", "db/named.csv", "db/paths.csv"]);
    assert_eq!(files[0].text, ":LABEL,pvm_version:int,source\nDBInfo,2,libPVM-1.0\n");
    assert!(files[1].executable);
    assert!(files[1].text.contains(
        "neo4j-admin import --id-type=INTEGER --multiline-fields=true --nodes dbinfo.csv --nodes paths.csv --relationships named.csv\n"
    ));
    assert!(files[1].text.starts_with("#! /bin/bash\n"));
    assert!(files[1].text.ends_with("echo \"Database hydrated\"\n"));
    assert_eq!(files[2].text, "db_id,:START_ID,:END_ID,:TYPE,start:long,end:long\n2,3,1,NAMED,0,\"0\"\n");
    assert_eq!(files[3].text, "db_id:ID,:LABEL,path\n1,Node;Name;Path,\"/y\"\n");
}

#[test]
fn glue_setup_and_batches() {
    let ops = glue_setup_ops("2.1");
    assert_eq!(ops.len(), 12);
    assert!(matches!(ops[9], DbOp::CommitAndRefresh));
    match &ops[10] {
        DbOp::Run { query, params } => {
            assert_eq!(*query, "MERGE (:DBInfo {pvm_version: 2, source: $src})");
            assert_eq!(params[0].0, "src");
            assert!(matches!(&params[0].1, Value::String(v) if v == "libPVM-2.1"));
        }
        _ => panic!("not a query"),
    }
    let mut run = Neo4JRun::new();
    run.step(DBTr::CreateRel(GraphRel::Named { id: ID(2), src: ID(3), dst: ID(1), start: ID(0), end: ID(0) }));
    run.step(DBTr::UpdateRel(GraphRel::Named { id: ID(2), src: ID(3), dst: ID(1), start: ID(0), end: ID(5) }));
    run.step(DBTr::UpdateRel(GraphRel::Named { id: ID(4), src: ID(3), dst: ID(1), start: ID(0), end: ID(5) }));
    run.step(DBTr::UpdateRel(GraphRel::Named { id: ID(4), src: ID(3), dst: ID(1), start: ID(0), end: ID(6) }));
    assert_eq!(run.rel_updates(), 3);
    assert_eq!(run.ups(), 2);
    let (ops, stats) = run.finish();
    assert_eq!(ops.len(), 5);
    assert!(matches!(ops[4], DbOp::Commit));
    assert_eq!(stats.updates, 2);
    assert_eq!(stats.batches, 0);
    assert_eq!(stats.transactions, 1);
    assert_eq!(stats.rel_updates, 3);
    assert_eq!(stats.absorbed_into_nodes, 1);
    assert_eq!(stats.absorbed_into_updates, 1);
    assert_eq!(stats.executed, 1);
}

#[test]
fn view_parameters_default_to_config() {
    let cfg = config_with_defaults(None, Some(s("admin")), None, false);
    let params = vec![(s("addr"), s("db:1")), (s("pass"), s("pw")), (s("addr"), s("later"))];
    let (a, u, p) = connect_params(&params, &cfg);
    assert_eq!(a, "db:1");
    assert_eq!(u, "admin");
    assert_eq!(p, "pw");
    assert_eq!(param_or(&vec![], "x", &s("d")), "d");
}
