use opus_pvm::data::id::ID;
use opus_pvm::data::pvm_types::{PVMDataType, PVMOps};
use opus_pvm::ingest::pvm::{ConcreteType, ConnectDir, ContextType, MetaInit, Name, PvmOp, PVM};
use opus_pvm::neo4j_glue::graph::GraphRel;

fn s(x: &str) -> String {
    x.to_string()
}

fn file_type() -> ConcreteType {
    ConcreteType {
        pvm_ty: PVMDataType::Store,
        name: s("file"),
        props: vec![(s("permissions"), true), (s("size_in_bytes"), false)],
    }
}

fn program_type() -> ConcreteType {
    ConcreteType {
        pvm_ty: PVMDataType::Actor,
        name: s("program"),
        props: vec![(s("pid"), false), (s("pname"), true)],
    }
}

fn pipe_type() -> ConcreteType {
    ConcreteType { pvm_ty: PVMDataType::Conduit, name: s("pipe"), props: vec![(s("unique_id"), true)] }
}

/// A model with the three data types registered (as 0, 1 and 2) and the
/// schema operations taken out.
fn model() -> PVM {
    let mut pvm = PVM::new();
    assert_eq!(pvm.register_data_type(file_type()), 0);
    assert_eq!(pvm.register_data_type(program_type()), 1);
    assert_eq!(pvm.register_data_type(pipe_type()), 2);
    let ops = pvm.take_ops();
    assert_eq!(ops.len(), 3);
    match &ops[0] {
        PvmOp::DataSchema { id, ty } => {
            assert_eq!(*id, ID(1));
            assert_eq!(*ty, 0);
        },
        other => panic!("unexpected {:?}", other),
    }
    pvm
}

fn inf(op: &PvmOp) -> (i64, i64, i64, PVMOps, i64) {
    match op {
        PvmOp::CreateRel(GraphRel::Inf { id, src, dst, pvm_op, byte_count, .. }) => {
            (id.0, src.0, dst.0, *pvm_op, *byte_count)
        },
        other => panic!("not a flow: {:?}", other),
    }
}

#[test]
fn ids_start_at_one_and_root_context_is_zero() {
    let mut pvm = PVM::new();
    assert_eq!(pvm.ctx(), ID(0));
    assert_eq!(pvm.register_data_type(file_type()), 0);
    let f = pvm.declare(0, 7, None);
    assert_eq!(f, ID(2));
    let ops = pvm.take_ops();
    assert_eq!(ops.len(), 2);
    match &ops[1] {
        PvmOp::Data { id, pvm_ty, ty, uuid, ctx, init } => {
            assert_eq!(*id, ID(2));
            assert_eq!(*pvm_ty, PVMDataType::Store);
            assert_eq!(*ty, 0);
            assert_eq!(*uuid, 7);
            assert_eq!(*ctx, ID(0));
            assert!(matches!(init, MetaInit::Empty));
        },
        other => panic!("unexpected {:?}", other),
    }
}

#[test]
fn declare_twice_gives_the_same_node() {
    let mut pvm = model();
    let a = pvm.declare(0, 42, None);
    let b = pvm.declare(1, 42, Some(vec![(s("pid"), s("3"))]));
    assert_eq!(a, b);
    assert_eq!(pvm.take_ops().len(), 1);
}

#[test]
fn lazy_context_is_made_once() {
    let mut pvm = model();
    assert_eq!(pvm.register_ctx_type(ContextType { name: s("event"), props: vec![s("time")] }), 0);
    pvm.take_ops();
    pvm.new_ctx(0, vec![(s("time"), s("12"))]);
    let c = pvm.ctx();
    assert_eq!(c, ID(5));
    assert_eq!(pvm.ctx(), c);
    let ops = pvm.take_ops();
    assert_eq!(ops.len(), 1);
    match &ops[0] {
        PvmOp::Ctx { id, ty, cont } => {
            assert_eq!(*id, ID(5));
            assert_eq!(*ty, 0);
            assert_eq!(cont, &vec![(s("time"), s("12"))]);
        },
        other => panic!("unexpected {:?}", other),
    }
}

#[test]
fn declare_with_properties_sets_them_in_the_new_context() {
    let mut pvm = model();
    pvm.register_ctx_type(ContextType { name: s("event"), props: vec![] });
    pvm.take_ops();
    pvm.new_ctx(0, vec![]);
    let p = pvm.declare(1, 9, Some(vec![(s("pid"), s("3"))]));
    // The context comes first, then the node.
    assert_eq!(p, ID(6));
    let ops = pvm.take_ops();
    assert_eq!(ops.len(), 2);
    assert!(matches!(&ops[0], PvmOp::Ctx { id, .. } if *id == ID(5)));
    match &ops[1] {
        PvmOp::Data { id, ctx, init: MetaInit::Props(v), .. } => {
            assert_eq!(*id, ID(6));
            assert_eq!(*ctx, ID(5));
            assert_eq!(v, &vec![(s("pid"), s("3"))]);
        },
        other => panic!("unexpected {:?}", other),
    }
}

#[test]
fn read_flows_from_entity_to_actor_once() {
    let mut pvm = model();
    let p = pvm.declare(1, 1, None);
    let f = pvm.declare(0, 2, None);
    pvm.take_ops();
    let r = pvm.source(p, f);
    assert_eq!(pvm.source(p, f), r);
    let ops = pvm.take_ops();
    assert_eq!(ops.len(), 1);
    assert_eq!(inf(&ops[0]), (r.0, f.0, p.0, PVMOps::Source, 0));
}

#[test]
fn bytes_add_up_on_a_read() {
    let mut pvm = model();
    let p = pvm.declare(1, 1, None);
    let f = pvm.declare(0, 2, None);
    pvm.take_ops();
    let r = pvm.source_nbytes(p, f, 100);
    assert_eq!(pvm.source_nbytes(p, f, 20), r);
    let ops = pvm.take_ops();
    assert_eq!(ops.len(), 3);
    match &ops[2] {
        PvmOp::UpdateRel(GraphRel::Inf { id, byte_count, .. }) => {
            assert_eq!(*id, r);
            assert_eq!(*byte_count, 120);
        },
        other => panic!("unexpected {:?}", other),
    }
}

#[test]
fn writing_a_store_versions_it() {
    let mut pvm = model();
    let p = pvm.declare(1, 1, None);
    let f = pvm.declare(0, 2, None);
    pvm.take_ops();
    let w = pvm.sink(p, f);
    let ops = pvm.take_ops();
    assert_eq!(ops.len(), 3);
    let v = match &ops[0] {
        PvmOp::Data { id, pvm_ty, uuid, init: MetaInit::Snapshot(from), .. } => {
            assert_eq!(*pvm_ty, PVMDataType::Store);
            assert_eq!(*uuid, 2);
            assert_eq!(*from, f);
            *id
        },
        other => panic!("unexpected {:?}", other),
    };
    assert_ne!(v, f);
    assert_eq!(inf(&ops[1]).1, f.0);
    assert_eq!(inf(&ops[1]).2, v.0);
    assert_eq!(inf(&ops[1]).3, PVMOps::Version);
    assert_eq!(inf(&ops[2]), (w.0, p.0, v.0, PVMOps::Sink, 0));
    // The UUID now stands for the new version.
    assert_eq!(pvm.declare(0, 2, None), v);
}

#[test]
fn writing_a_conduit_does_not_version_it() {
    let mut pvm = model();
    let p = pvm.declare(1, 1, None);
    let c = pvm.declare(2, 3, None);
    pvm.take_ops();
    let w = pvm.sink(p, c);
    let ops = pvm.take_ops();
    assert_eq!(ops.len(), 1);
    assert_eq!(inf(&ops[0]), (w.0, p.0, c.0, PVMOps::Sink, 0));
}

#[test]
fn edit_session_round_trip() {
    let mut pvm = model();
    let p = pvm.declare(1, 1, None);
    let f = pvm.declare(0, 2, None);
    pvm.take_ops();
    pvm.sinkstart(p, f);
    let es = pvm.declare(0, 2, None);
    assert_ne!(es, f);
    let ops = pvm.take_ops();
    assert!(matches!(&ops[0], PvmOp::Data { pvm_ty: PVMDataType::EditSession, .. }));
    pvm.sinkend(p, es);
    let st = pvm.declare(0, 2, None);
    assert_ne!(st, es);
    assert_ne!(st, f);
    let ops = pvm.take_ops();
    assert_eq!(ops.len(), 2);
    assert!(matches!(&ops[0], PvmOp::Data { pvm_ty: PVMDataType::Store, uuid: 2, .. }));
    assert_eq!(inf(&ops[1]).1, es.0);
    assert_eq!(inf(&ops[1]).2, st.0);
    assert_eq!(inf(&ops[1]).3, PVMOps::Version);
}

#[test]
fn edit_session_stays_open_while_a_writer_is_left() {
    let mut pvm = model();
    let p = pvm.declare(1, 1, None);
    let q = pvm.declare(1, 5, None);
    let f = pvm.declare(0, 2, None);
    pvm.sinkstart(p, f);
    let es = pvm.declare(0, 2, None);
    pvm.sinkstart(q, es);
    pvm.take_ops();
    pvm.sinkend(p, es);
    assert!(pvm.take_ops().is_empty());
    assert_eq!(pvm.declare(0, 2, None), es);
    pvm.sinkend(q, es);
    assert_ne!(pvm.declare(0, 2, None), es);
}

#[test]
fn release_then_declare_makes_a_new_node() {
    let mut pvm = model();
    let a = pvm.declare(0, 8, None);
    pvm.release(8);
    let b = pvm.declare(0, 8, None);
    assert_ne!(a, b);
}

#[test]
fn naming_a_store_goes_through_its_container() {
    let mut pvm = model();
    let f = pvm.declare(0, 2, None);
    pvm.take_ops();
    let r = pvm.name(f, Name::Path(s("/etc/passwd")));
    let ops = pvm.take_ops();
    assert_eq!(ops.len(), 3);
    let n = match &ops[0] {
        PvmOp::Name { id, name: Name::Path(p) } => {
            assert_eq!(p, "/etc/passwd");
            *id
        },
        other => panic!("unexpected {:?}", other),
    };
    let c = match &ops[1] {
        PvmOp::Data { id, pvm_ty: PVMDataType::StoreCont, uuid: 2, ctx, .. } => {
            assert_eq!(*ctx, ID(0));
            *id
        },
        other => panic!("unexpected {:?}", other),
    };
    match &ops[2] {
        PvmOp::CreateRel(GraphRel::Named { id, src, dst, end, .. }) => {
            assert_eq!(*id, r);
            assert_eq!(*src, c);
            assert_eq!(*dst, n);
            assert_eq!(*end, ID(0));
        },
        other => panic!("unexpected {:?}", other),
    }
    // The same name again: same name node, same naming.
    assert_eq!(pvm.name(f, Name::Path(s("/etc/passwd"))), r);
    assert!(pvm.take_ops().is_empty());
}

#[test]
fn naming_an_actor_is_direct_and_unnaming_ends_it() {
    let mut pvm = model();
    let p = pvm.declare(1, 1, None);
    pvm.register_ctx_type(ContextType { name: s("event"), props: vec![] });
    pvm.take_ops();
    let r = pvm.name(p, Name::Net(s("10.0.0.1"), 80));
    pvm.new_ctx(0, vec![]);
    assert_eq!(pvm.unname(p, Name::Net(s("10.0.0.1"), 80)), r);
    let ops = pvm.take_ops();
    let last = ops.last().unwrap();
    match last {
        PvmOp::UpdateRel(GraphRel::Named { id, src, end, .. }) => {
            assert_eq!(*id, r);
            assert_eq!(*src, p);
            assert_ne!(*end, ID(0));
        },
        other => panic!("unexpected {:?}", other),
    }
}

#[test]
fn meta_records_whether_a_property_is_inherited() {
    let mut pvm = model();
    let p = pvm.declare(1, 1, None);
    pvm.take_ops();
    pvm.meta(p, "pname", s("sh"));
    pvm.meta(p, "pid", s("12"));
    let ops = pvm.take_ops();
    assert_eq!(ops.len(), 2);
    match (&ops[0], &ops[1]) {
        (
            PvmOp::Meta { node: n1, key: k1, val: v1, heritable: h1, .. },
            PvmOp::Meta { node: n2, key: k2, heritable: h2, .. },
        ) => {
            assert_eq!(*n1, p);
            assert_eq!(*k1, "pname");
            assert_eq!(v1, "sh");
            assert!(*h1);
            assert_eq!(*n2, p);
            assert_eq!(*k2, "pid");
            assert!(!*h2);
        },
        other => panic!("unexpected {:?}", other),
    }
}

#[test]
fn connect_both_ways_makes_two_flows() {
    let mut pvm = model();
    let a = pvm.declare(2, 1, None);
    let b = pvm.declare(2, 2, None);
    pvm.take_ops();
    pvm.connect(a, b, ConnectDir::BiDirectional);
    let ops = pvm.take_ops();
    assert_eq!(ops.len(), 2);
    assert_eq!(inf(&ops[0]).1, a.0);
    assert_eq!(inf(&ops[0]).2, b.0);
    assert_eq!(inf(&ops[1]).1, b.0);
    assert_eq!(inf(&ops[1]).2, a.0);
    pvm.connect(a, b, ConnectDir::Mono);
    assert!(pvm.take_ops().is_empty());
}

#[test]
fn derive_merges_into_the_other_uuid() {
    let mut pvm = model();
    let f = pvm.declare(0, 2, None);
    pvm.take_ops();
    let d = pvm.derive(f, 99);
    let ops = pvm.take_ops();
    assert_eq!(ops.len(), 3);
    assert!(matches!(&ops[0], PvmOp::Data { uuid: 99, .. }));
    match &ops[1] {
        PvmOp::Merge { dst, src, ctx } => {
            assert_eq!(*dst, d);
            assert_eq!(*src, f);
            assert_eq!(*ctx, ID(0));
        },
        other => panic!("unexpected {:?}", other),
    }
    assert_eq!(inf(&ops[2]).3, PVMOps::Version);
}
