use opus_pvm::checking_store::CheckingStore;
use opus_pvm::data::literal::render_value;
use opus_pvm::data::node_types::socket::{Socket, SocketClass};
use opus_pvm::data::node_types::EnumNode;
use opus_pvm::data::nodeid::NodeID;
use opus_pvm::data::pvm_types::PVMDataType;
use opus_pvm::data::traits::ToDB;
use opus_pvm::data::value::Value;
use opus_pvm::ingest::pvm::{PVMError, PvmOp, PVM};
use opus_pvm::trace::clearscope::{
    apply_prov, init_prov, parse_prov, prov_types_ok, ConcreteKind, DefineProvType, ProvMessage, ProvName, ProvOp,
    ProvTypeObject,
};

fn s(x: &str) -> String {
    x.to_string()
}

fn model() -> (PVM, opus_pvm::trace::clearscope::ProvTypes) {
    let mut pvm = PVM::new();
    let t = init_prov(&mut pvm);
    assert!(prov_types_ok(&pvm, &t));
    let schema = pvm.take_ops();
    assert_eq!(schema.len(), 6);
    (pvm, t)
}

#[test]
fn record_types_are_registered_in_order() {
    let (_, t) = model();
    assert_eq!((t.program, t.file, t.netflow, t.object, t.binder, t.pipe), (0, 1, 2, 3, 4, 5));
}

#[test]
fn file_definition_is_applied() {
    let (mut pvm, t) = model();
    let m = ProvMessage::DefineProvType(DefineProvType {
        id: 7,
        prog_id: 1,
        object: ProvTypeObject::File { path: s("/etc/hosts"), permissions: 420, file_type: s("FILE"), size_in_bytes: Some(12) },
    });
    assert!(parse_prov(&m, &mut pvm, &t).is_ok());
    let ops = pvm.take_ops();
    // The file, its name node, its container, the naming, and three properties.
    assert_eq!(ops.len(), 7);
    assert!(matches!(&ops[0], PvmOp::Data { pvm_ty: PVMDataType::Store, uuid: 7, .. }));
    assert!(matches!(&ops[4], PvmOp::Meta { key: "permissions", val, .. } if val == "420"));
    assert!(matches!(&ops[5], PvmOp::Meta { key: "file_type", val, .. } if val == "FILE"));
    assert!(matches!(&ops[6], PvmOp::Meta { key: "size_in_bytes", val, .. } if val == "12"));
}

#[test]
fn unknown_property_ends_the_record() {
    let (mut pvm, t) = model();
    let ops = vec![
        ProvOp::Declare { ty: ConcreteKind::File, uuid: 5 },
        ProvOp::Name { ent: 5, name: ProvName::Path(s("/a")) },
        ProvOp::Meta { ent: 5, key: "permissions", val: s("644") },
        ProvOp::Meta { ent: 5, key: "owner", val: s("root") },
        ProvOp::Meta { ent: 5, key: "file_type", val: s("FILE") },
    ];
    let r = apply_prov(&mut pvm, &t, &ops);
    assert!(matches!(r, Err(PVMError::UnknownProperty { key: "owner" })));
    let out = pvm.take_ops();
    assert_eq!(out.len(), 5);
    assert!(matches!(&out[4], PvmOp::Meta { key: "permissions", .. }));
}

#[test]
fn flows_need_a_declared_actor() {
    let (mut pvm, t) = model();
    let ops = vec![ProvOp::Declare { ty: ConcreteKind::File, uuid: 5 }, ProvOp::Source { act: 5, ent: 6 }];
    assert!(matches!(apply_prov(&mut pvm, &t, &ops), Err(PVMError::UnknownNode { uuid: 6 })));
    let ops = vec![ProvOp::Declare { ty: ConcreteKind::File, uuid: 6 }, ProvOp::Source { act: 5, ent: 6 }];
    assert!(matches!(apply_prov(&mut pvm, &t, &ops), Err(PVMError::NotAnActor { uuid: 5 })));
    let ops = vec![ProvOp::Declare { ty: ConcreteKind::Program, uuid: 1 }, ProvOp::Sink { act: 1, ent: 1 }];
    assert!(matches!(apply_prov(&mut pvm, &t, &ops), Err(PVMError::SelfFlow { uuid: 1 })));
}

#[test]
fn a_program_writing_a_file_versions_it() {
    let (mut pvm, t) = model();
    let ops = vec![
        ProvOp::Declare { ty: ConcreteKind::Program, uuid: 1 },
        ProvOp::Declare { ty: ConcreteKind::File, uuid: 2 },
        ProvOp::Sink { act: 1, ent: 2 },
    ];
    assert!(apply_prov(&mut pvm, &t, &ops).is_ok());
    let out = pvm.take_ops();
    // Two declarations, the new version, the version flow, the write.
    assert_eq!(out.len(), 5);
    assert!(matches!(&out[2], PvmOp::Data { pvm_ty: PVMDataType::Store, uuid: 2, .. }));
}

#[test]
fn unknown_events_are_noted_once() {
    let mut pvm = PVM::new();
    pvm.note_unparsed(s("audit:event:aue_x:"));
    pvm.note_unparsed(s("audit:event:aue_y:"));
    pvm.note_unparsed(s("audit:event:aue_x:"));
    assert_eq!(pvm.take_unparsed(), vec![s("audit:event:aue_x:"), s("audit:event:aue_y:")]);
    assert!(pvm.take_unparsed().is_empty());
}

#[test]
fn values_as_literals() {
    assert_eq!(render_value(&Value::Null), "null");
    assert_eq!(render_value(&Value::Boolean(true)), "true");
    assert_eq!(render_value(&Value::Integer(-12)), "-12");
    assert_eq!(render_value(&Value::String(s("a\"b\\c"))), "\"a\\\"b\\\\c\"");
    assert_eq!(render_value(&Value::List(vec![Value::Integer(1), Value::String(s("x"))])), "[1, \"x\"]");
    assert_eq!(render_value(&Value::List(vec![])), "[]");
    assert_eq!(
        render_value(&Value::Dict(vec![(s("a"), Value::Integer(1)), (s("b"), Value::List(vec![Value::Null]))])),
        "{a: 1, b: [null]}"
    );
    assert_eq!(
        render_value(&Value::Structure { signature: 78, fields: vec![Value::Integer(3)] }),
        "Structure(78, [3])"
    );
}

#[test]
fn socket_properties_read_back() {
    let sock = Socket { db_id: NodeID(4), uuid: 14, class: SocketClass::AfUnix, path: s("/run/x"), ip: s(""), port: 0 };
    let (_, _, props) = EnumNode::Socket(sock.clone()).to_db();
    let back = Socket::from_props(props).ok().unwrap();
    assert_eq!(
        (back.db_id, back.uuid, back.class, &back.path, &back.ip, back.port),
        (sock.db_id, sock.uuid, sock.class, &sock.path, &sock.ip, sock.port)
    );
}

#[test]
fn store_closes_once_all_checkouts_are_back() {
    let mut st: CheckingStore<i64, i64> = CheckingStore::new();
    st.insert(1, 10);
    st.insert(2, 20);
    let g = st.checkout(1).unwrap();
    let h = st.checkout(2).unwrap();
    assert_eq!(st.outstanding(), 2);
    st.checkin(g);
    st.checkin(h);
    assert_eq!(st.outstanding(), 0);
    st.close();
}
