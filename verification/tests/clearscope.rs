use opus_pvm::trace::clearscope::{
    concrete_name, concrete_props, concrete_role, init_types, ConcreteKind, DefineProgram, DefineProv,
    DefineProvType, Event, EventFlow, ProvFlow, ProvKind, ProvMessage, ProvName, ProvOp, ProvRole, ProvTypeObject,
    User, ValueType,
};

fn s(x: &str) -> String {
    x.to_string()
}

fn show(ops: &Vec<ProvOp>) -> Vec<String> {
    ops.iter()
        .map(|o| match o {
            ProvOp::Declare { ty, uuid } => format!("declare {:?} {}", ty, uuid),
            ProvOp::Source { act, ent } => format!("source {} {}", act, ent),
            ProvOp::Sink { act, ent } => format!("sink {} {}", act, ent),
            ProvOp::Name { ent, name } => match name {
                ProvName::Path(p) => format!("name {} path {}", ent, p),
                ProvName::Net(a, port) => format!("name {} net {}:{}", ent, a, port),
            },
            ProvOp::Meta { ent, key, val } => format!("meta {} {}={}", ent, key, val),
        })
        .collect()
}

fn event(flow: EventFlow, p1: Option<u32>, p2: Option<u32>) -> Event {
    Event { flow, prog_id: 1, app_ppt: 0, sys_call: 0, tid: 0, time: 0, predicate1_id: p1, predicate2_id: p2 }
}

#[test]
fn event_objects_declared_once() {
    let ops = event(EventFlow::Src, Some(2), Some(3)).parse();
    assert_eq!(show(&ops), vec!["declare Program 1", "declare Object 2", "declare Object 3", "source 1 2", "source 1 3"]);
    let ops = event(EventFlow::Sink, Some(2), Some(2)).parse();
    assert_eq!(show(&ops), vec!["declare Program 1", "declare Object 2", "sink 1 2"]);
    let ops = event(EventFlow::Sink, Some(1), Some(4)).parse();
    assert_eq!(show(&ops), vec!["declare Program 1", "declare Object 4", "sink 1 4"]);
    let ops = event(EventFlow::Event, Some(2), None).parse();
    assert_eq!(show(&ops), vec!["declare Program 1", "declare Object 2"]);
}

#[test]
fn program_definition_sets_properties() {
    let p = DefineProgram { id: 7, host_id: 255, pname: s("app"), pid: 12, ppid: -1, uid: 1000, start_time: 99 };
    assert_eq!(
        show(&p.parse()),
        vec![
            "declare Program 7",
            "meta 7 host_uuid=00000000-0000-0000-0000-0000000000ff",
            "meta 7 pname=app",
            "meta 7 pid=12",
            "meta 7 ppid=-1",
            "meta 7 uid=1000",
            "meta 7 start_time=99",
        ]
    );
}

#[test]
fn flow_definition() {
    let d = DefineProv {
        flow: ProvFlow::Sink,
        id: 1,
        prog_id: 2,
        prov_type: -1,
        app_ppt: 0,
        sys_call: 0,
        prev_id: 0,
        prev_device_id: None,
    };
    assert_eq!(show(&d.parse()), vec!["declare Program 2", "declare File 4294967295", "sink 2 4294967295"]);
}

#[test]
fn object_definitions() {
    let f = DefineProvType {
        id: 3,
        prog_id: 1,
        object: ProvTypeObject::File { path: s("/a"), permissions: 420, file_type: s("reg"), size_in_bytes: Some(10) },
    };
    assert_eq!(
        show(&f.parse()),
        vec!["declare File 3", "name 3 path /a", "meta 3 permissions=420", "meta 3 file_type=reg", "meta 3 size_in_bytes=10"]
    );
    let n = DefineProvType {
        id: 4,
        prog_id: 1,
        object: ProvTypeObject::Network {
            local_address: s("1.1.1.1"),
            local_port: 70000,
            remote_address: None,
            remote_port: None,
            protocol: 6,
        },
    };
    assert_eq!(show(&n.parse()), vec!["declare Netflow 4", "name 4 net 1.1.1.1:4464", "meta 4 protocol=6"]);
    let b = DefineProvType { id: 5, prog_id: 1, object: ProvTypeObject::Binder { kind: ProvKind::WakeLock, properties: vec![] } };
    assert_eq!(show(&b.parse()), vec!["declare Binder 5", "meta 5 kind=WakeLock"]);
    let g = DefineProvType { id: 6, prog_id: 1, object: ProvTypeObject::General { obj_type: s("x"), properties: vec![] } };
    assert!(g.parse().is_empty());
    let m = ProvMessage::DefineProvType(DefineProvType { id: 8, prog_id: 1, object: ProvTypeObject::Pipe { unique_id: s("p") } });
    assert_eq!(show(&m.parse()), vec!["declare Pipe 8", "meta 8 unique_id=p"]);
    let u = ProvMessage::User(User { user_id: 1, name: s("u"), groups: vec![] });
    assert!(u.parse().is_empty());
}

#[test]
fn kinds_codes_and_names() {
    assert_eq!(ProvKind::AccessibilityService.code(), 0);
    assert_eq!(ProvKind::TimeEvent.code(), 72);
    assert_eq!(ProvKind::Widgets.code(), 87);
    assert_eq!(ProvKind::SmsMms.name(), "SmsMms");
    assert_eq!(ValueType::Ret.code(), 3);
    assert_eq!(EventFlow::Sink.code(), 2);
    assert_eq!(ProvFlow::Sink.code(), 1);
}

#[test]
fn concrete_types() {
    assert_eq!(init_types(), vec![
        ConcreteKind::Program,
        ConcreteKind::File,
        ConcreteKind::Netflow,
        ConcreteKind::Object,
        ConcreteKind::Binder,
        ConcreteKind::Pipe,
    ]);
    assert_eq!(concrete_name(ConcreteKind::Netflow), "netflow");
    assert_eq!(concrete_role(ConcreteKind::Program), ProvRole::Actor);
    assert_eq!(concrete_props(ConcreteKind::Program)[2], ("pid", false));
    assert_eq!(concrete_props(ConcreteKind::File).len(), 3);
}
