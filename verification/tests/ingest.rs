use opus_pvm::data::node_types::process::Process;
use opus_pvm::data::node_types::socket::{Socket, SocketClass};
use opus_pvm::data::node_types::EnumNode;
use opus_pvm::data::nodeid::NodeID;
use opus_pvm::ingest::lines::{clean_batch, clean_line};
use opus_pvm::ingest::parse::{
    audit_kind_of, audit_plan, contains_flag, exec_in_place, fork_child, process_decl, socket_addr, AuditAction,
    AuditKind,
};
use opus_pvm::ingest::audit_ops::{audit_ops, AuditOp, NodeKind, NodeRef};
use opus_pvm::ingest::pvm::{IDCounter, PVMError};
use opus_pvm::ingest::pvm_cache::PVMCache;
use opus_pvm::trace::{AuditEvent, FBTEvent, TraceEvent};

fn s(x: &str) -> String {
    x.to_string()
}

fn event(name: &str) -> AuditEvent {
    AuditEvent {
        event: s(name),
        host: None,
        time: 0,
        pid: 10,
        ppid: 1,
        tid: 10,
        uid: 0,
        cpu_id: None,
        exe: s("/bin/sh"),
        cmdline: None,
        upath1: None,
        upath2: None,
        fd: None,
        flags: None,
        fdpath: None,
        subjprocuuid: 0x100,
        subjthruuid: 0x101,
        arg_objuuid1: None,
        arg_objuuid2: None,
        ret_objuuid1: None,
        ret_objuuid2: None,
        retval: 0,
        ret_fd1: None,
        ret_fd2: None,
        arg_mem_flags: None,
        arg_sharing_flags: None,
        address: None,
        port: None,
    }
}

fn missing_field(r: Result<AuditAction, PVMError>) -> String {
    match r {
        Err(PVMError::MissingField { evt: _, field }) => s(field),
        Err(_) => s("<other error>"),
        Ok(_) => s("<ok>"),
    }
}

fn socket(class: SocketClass) -> EnumNode {
    EnumNode::Socket(Socket { db_id: NodeID(1), uuid: 2, class, path: s(""), ip: s(""), port: 0 })
}

#[test]
fn event_names_map_to_kinds() {
    assert_eq!(audit_kind_of("audit:event:aue_pread:"), AuditKind::Read);
    assert_eq!(audit_kind_of("audit:event:aue_writev:"), AuditKind::Write);
    assert_eq!(audit_kind_of("audit:event:aue_vfork:"), AuditKind::Fork);
    assert_eq!(audit_kind_of("audit:event:aue_fchown:"), AuditKind::FSink);
    assert_eq!(audit_kind_of("audit:event:aue_chown:"), AuditKind::Chmod);
    assert_eq!(audit_kind_of("audit:event:aue_dup2:"), AuditKind::Ignored);
    assert_eq!(audit_kind_of("audit:event:aue_nothing:"), AuditKind::Other);
}

#[test]
fn every_record_declares_its_process() {
    let (u, init) = process_decl(&event("audit:event:aue_read:"));
    assert_eq!(u, 0x100);
    assert_eq!(init.pid, 10);
    assert_eq!(init.cmdline, "/bin/sh");
    assert!(init.thin);
}

#[test]
fn exec_needs_its_fields_in_order() {
    let mut tr = event("audit:event:aue_execve:");
    assert_eq!(missing_field(audit_plan(&tr, true)), "cmdline");
    tr.cmdline = Some(s("ls -l"));
    assert_eq!(missing_field(audit_plan(&tr, true)), "arg_objuuid1");
    tr.arg_objuuid1 = Some(1);
    assert_eq!(missing_field(audit_plan(&tr, true)), "upath1");
    tr.upath1 = Some(s("/bin/ls"));
    tr.arg_objuuid2 = Some(2);
    assert_eq!(missing_field(audit_plan(&tr, true)), "upath2");
    tr.upath2 = Some(s("/lib/ld.so"));
    match audit_plan(&tr, true) {
        Ok(AuditAction::ExecThin { cmdline, bin, binname, ld, ldname }) => {
            assert_eq!(cmdline, "ls -l");
            assert_eq!((bin, ld), (1, 2));
            assert_eq!((binname.as_str(), ldname.as_str()), ("/bin/ls", "/lib/ld.so"));
        }
        _ => panic!("expected an exec of a thin process"),
    }
    match audit_plan(&tr, false) {
        Ok(AuditAction::ExecNew { init, .. }) => {
            assert_eq!(init.pid, 10);
            assert_eq!(init.cmdline, "ls -l");
            assert!(!init.thin);
        }
        _ => panic!("expected an exec of a complete process"),
    }
}

#[test]
fn missing_field_message() {
    let e = PVMError::MissingField { evt: s("audit:event:aue_read:"), field: "arg_objuuid1" };
    assert_eq!(e.to_string(), "Event audit:event:aue_read: missing needed field arg_objuuid1");
}

#[test]
fn accept_peer_address() {
    let mut tr = event("audit:event:aue_accept:");
    tr.arg_objuuid1 = Some(5);
    tr.ret_objuuid1 = Some(6);
    match audit_plan(&tr, true) {
        Ok(AuditAction::Accept { listen: 5, remote: 6, init: None }) => {}
        _ => panic!("expected an accept without address"),
    }
    tr.port = Some(8080);
    assert_eq!(missing_field(audit_plan(&tr, true)), "address");
    tr.address = Some(s("1.2.3.4"));
    match audit_plan(&tr, true) {
        Ok(AuditAction::Accept { init: Some(i), .. }) => {
            assert_eq!(i.class, SocketClass::AfInet);
            assert_eq!(i.port, 8080);
            assert_eq!(i.ip, "1.2.3.4");
            assert_eq!(i.path, "");
        }
        _ => panic!("expected an internet peer"),
    }
    tr.upath1 = Some(s("/tmp/sock"));
    match audit_plan(&tr, true) {
        Ok(AuditAction::Accept { init: Some(i), .. }) => {
            assert_eq!(i.class, SocketClass::AfUnix);
            assert_eq!(i.path, "/tmp/sock");
            assert_eq!(i.port, 0);
        }
        _ => panic!("expected a unix peer"),
    }
}

#[test]
fn mmap_protection_decides_flows() {
    let mut tr = event("audit:event:aue_mmap:");
    tr.arg_objuuid1 = Some(3);
    tr.arg_mem_flags = Some(vec![s("PROT_READ"), s("PROT_WRITE")]);
    tr.arg_sharing_flags = Some(vec![s("MAP_PRIVATE")]);
    match audit_plan(&tr, true) {
        Ok(AuditAction::Mmap { sinkstart, source, .. }) => assert_eq!((sinkstart, source), (false, true)),
        _ => panic!("expected a mapping"),
    }
    tr.arg_sharing_flags = None;
    match audit_plan(&tr, true) {
        Ok(AuditAction::Mmap { sinkstart, source, .. }) => assert_eq!((sinkstart, source), (true, true)),
        _ => panic!("expected a mapping"),
    }
    tr.arg_mem_flags = None;
    match audit_plan(&tr, true) {
        Ok(AuditAction::Mmap { sinkstart, source, .. }) => assert_eq!((sinkstart, source), (false, false)),
        _ => panic!("expected a mapping"),
    }
    assert!(contains_flag(&vec![s("a"), s("b")], "b"));
    assert!(!contains_flag(&vec![], "b"));
}

#[test]
fn read_write_paths_and_bytes() {
    let mut tr = event("audit:event:aue_read:");
    tr.arg_objuuid1 = Some(9);
    tr.fdpath = Some(s("<unknown>"));
    tr.retval = -1;
    match audit_plan(&tr, true) {
        Ok(AuditAction::Read { file: 9, path: None, bytes }) => assert_eq!(bytes, u64::MAX),
        _ => panic!("expected a read"),
    }
    let mut tw = event("audit:event:aue_write:");
    tw.arg_objuuid1 = Some(9);
    tw.fdpath = Some(s("/etc/passwd"));
    tw.retval = 12;
    match audit_plan(&tw, true) {
        Ok(AuditAction::Write { path: Some(p), bytes: 12, .. }) => assert_eq!(p, "/etc/passwd"),
        _ => panic!("expected a write"),
    }
}

#[test]
fn other_records() {
    let mut tp = event("audit:event:aue_pipe:");
    tp.ret_objuuid1 = Some(1);
    tp.ret_fd1 = Some(3);
    assert_eq!(missing_field(audit_plan(&tp, true)), "ret_objuuid2");
    tp.ret_objuuid2 = Some(2);
    assert_eq!(missing_field(audit_plan(&tp, true)), "ret_fd2");
    tp.ret_fd2 = Some(4);
    assert!(matches!(audit_plan(&tp, true), Ok(AuditAction::Pipe { p1: 1, fd1: 3, p2: 2, fd2: 4 })));
    let to = event("audit:event:aue_open_rwtc:");
    assert!(matches!(audit_plan(&to, true), Ok(AuditAction::Open(None))));
    assert!(matches!(audit_plan(&event("audit:event:aue_exit:"), true), Ok(AuditAction::Exit(0x100))));
    assert!(matches!(audit_plan(&event("audit:event:aue_dup2:"), true), Ok(AuditAction::Ignore)));
    match audit_plan(&event("audit:event:aue_other:"), true) {
        Ok(AuditAction::Unparsed(n)) => assert_eq!(n, "audit:event:aue_other:"),
        _ => panic!("expected an unparsed event"),
    }
    assert!(matches!(audit_plan(&event("audit:event:aue_close:"), true), Ok(AuditAction::Close(None))));
    let mut tf = event("audit:event:aue_fork:");
    tf.ret_objuuid1 = Some(7);
    tf.retval = 77;
    assert!(matches!(audit_plan(&tf, true), Ok(AuditAction::Fork { child: 7, pid: 77 })));
}

#[test]
fn socket_address_from_record() {
    let mut tr = event("audit:event:aue_bind:");
    let mut n = socket(SocketClass::AfInet);
    assert!(matches!(socket_addr(&tr, &mut n), Ok(false)));
    let mut n = socket(SocketClass::Unknown);
    assert!(matches!(socket_addr(&tr, &mut n), Ok(false)));
    tr.port = Some(22);
    assert!(matches!(socket_addr(&tr, &mut n), Err(PVMError::MissingField { field: "address", .. })));
    match &n {
        EnumNode::Socket(sk) => assert_eq!(sk.class, SocketClass::Unknown),
        _ => panic!("not a socket"),
    }
    tr.address = Some(s("10.1.1.1"));
    assert!(matches!(socket_addr(&tr, &mut n), Ok(true)));
    match &n {
        EnumNode::Socket(sk) => {
            assert_eq!(sk.class, SocketClass::AfInet);
            assert_eq!(sk.port, 22);
            assert_eq!(sk.ip, "10.1.1.1");
        }
        _ => panic!("not a socket"),
    }
    let mut u = socket(SocketClass::Unknown);
    tr.upath1 = Some(s("/run/s"));
    assert!(matches!(socket_addr(&tr, &mut u), Ok(true)));
    match &u {
        EnumNode::Socket(sk) => {
            assert_eq!(sk.class, SocketClass::AfUnix);
            assert_eq!(sk.path, "/run/s");
        }
        _ => panic!("not a socket"),
    }
}

#[test]
fn exec_and_fork_update_processes() {
    let mut p = Process { db_id: NodeID(1), uuid: 5, pid: 3, cmdline: s("sh"), thin: true };
    exec_in_place(&mut p, s("ls"));
    assert_eq!(p.cmdline, "ls");
    assert!(!p.thin);
    let mut c = Process { db_id: NodeID(2), uuid: 6, pid: 0, cmdline: s(""), thin: false };
    fork_child(&mut c, &p, 99);
    assert_eq!(c.pid, 99);
    assert_eq!(c.cmdline, "ls");
    assert!(c.thin);
    assert_eq!(c.db_id, NodeID(2));
}

#[test]
fn process_cache_check_release() {
    let mut c = PVMCache::new();
    let (made, g) = c.check(0xaa, 4, "init");
    assert!(made);
    assert_eq!(g.key(), 0);
    assert_eq!(g.value().pid, 4);
    assert_eq!(g.value().cmdline, "init");
    assert!(g.value().thin);
    c.checkin(g);
    let (made, g) = c.check(0xaa, 5, "other");
    assert!(!made);
    assert_eq!(g.key(), 0);
    assert_eq!(g.value().pid, 4);
    c.checkin(g);
    c.release(0xaa);
    let (made, g) = c.check(0xaa, 6, "again");
    assert!(made);
    assert_eq!(g.key(), 1);
    c.checkin(g);
    let g = c.add(0xbb, 1, "x", false);
    assert_eq!(g.key(), 2);
    assert!(!g.value().thin);
    c.checkin(g);
}

#[test]
fn id_counter_counts_from_start() {
    let mut c = IDCounter::new(5);
    assert_eq!(c.get().inner(), 5);
    assert_eq!(c.get().inner(), 6);
}

#[test]
fn trace_lines_cleaned() {
    assert_eq!(clean_line(""), None);
    assert_eq!(clean_line("["), None);
    assert_eq!(clean_line("]"), None);
    assert_eq!(clean_line(", {\"a\":1}"), Some(s("{\"a\":1}")));
    assert_eq!(clean_line("{\"a\":1}"), Some(s("{\"a\":1}")));
    let b = clean_batch(&vec![(0, s("[")), (1, s("{}")), (2, s(", {}")), (3, s("]"))]);
    assert_eq!(b, vec![(1, s("{}")), (2, s("{}"))]);
}

#[test]
fn read_record_calls() {
    let mut tr = event("audit:event:aue_read:");
    tr.arg_objuuid1 = Some(7);
    tr.fdpath = Some(s("/tmp/a"));
    tr.retval = 42;
    let ops = audit_ops(&TraceEvent::Audit(Box::new(tr)), false).ok().unwrap();
    assert_eq!(ops.len(), 3);
    assert!(matches!(&ops[0], AuditOp::Declare { kind: NodeKind::File, uuid: 7, init: None }));
    assert!(matches!(&ops[1], AuditOp::Name { node: 7, name } if name == "/tmp/a"));
    assert!(matches!(&ops[2], AuditOp::Source { act: NodeRef::Proc, ent: NodeRef::Uuid(7), tag, bytes: Some(42) }
        if tag == "audit:event:aue_read:"));
}

#[test]
fn exec_of_a_complete_process_adds_one() {
    let mut tr = event("audit:event:aue_execve:");
    tr.cmdline = Some(s("ls -l"));
    tr.arg_objuuid1 = Some(1);
    tr.upath1 = Some(s("/bin/ls"));
    tr.arg_objuuid2 = Some(2);
    tr.upath2 = Some(s("/lib/ld.so"));
    let ops = audit_ops(&TraceEvent::Audit(Box::new(tr)), false).ok().unwrap();
    assert_eq!(ops.len(), 8);
    assert!(matches!(&ops[4], AuditOp::AddProcess { uuid: 0x100, init } if init.cmdline == "ls -l" && !init.thin));
    assert!(matches!(&ops[5], AuditOp::Source { act: NodeRef::New, ent: NodeRef::Proc, .. }));
    assert!(matches!(&ops[6], AuditOp::Source { act: NodeRef::New, ent: NodeRef::Uuid(1), tag, .. } if tag == "binary"));
    assert!(matches!(&ops[7], AuditOp::Source { act: NodeRef::New, ent: NodeRef::Uuid(2), tag, .. } if tag == "linker"));
}

#[test]
fn fork_record_calls() {
    let mut tr = event("audit:event:aue_fork:");
    tr.ret_objuuid1 = Some(9);
    tr.retval = 33;
    let ops = audit_ops(&TraceEvent::Audit(Box::new(tr)), false).ok().unwrap();
    assert_eq!(ops.len(), 3);
    assert!(matches!(&ops[0], AuditOp::Declare { kind: NodeKind::Process, uuid: 9, init: None }));
    assert!(matches!(&ops[1], AuditOp::ForkChild { child: 9, pid: 33 }));
    assert!(matches!(&ops[2], AuditOp::Source { act: NodeRef::Uuid(9), ent: NodeRef::Proc, .. }));
}

#[test]
fn missing_field_gives_no_calls() {
    let tr = event("audit:event:aue_read:");
    match audit_ops(&TraceEvent::Audit(Box::new(tr)), false) {
        Err(PVMError::MissingField { field, .. }) => assert_eq!(field, "arg_objuuid1"),
        _ => panic!("expected a missing field"),
    }
}

#[test]
fn kernel_records_make_no_calls() {
    let fbt = FBTEvent {
        event: s("fbt:kernel:cc_conn_init:"),
        host: 1,
        time: 0,
        so_uuid: 2,
        lport: 1,
        fport: 2,
        laddr: s("a"),
        faddr: s("b"),
    };
    assert!(audit_ops(&TraceEvent::FBT(fbt), true).ok().unwrap().is_empty());
}

#[test]
fn counter_hands_out_consecutive_ids() {
    let mut c = IDCounter::new(100);
    let ids: Vec<i64> = (0..5).map(|_| c.get().0).collect();
    assert_eq!(ids, vec![100, 101, 102, 103, 104]);
}
