//! The calls an audit record makes on the provenance model, as a list.
//!
//! After the record's process is declared (see [`process_decl`]) and it is
//! known whether that process is still thin, [`audit_ops`] gives the calls
//! to make, in order; the one that can still fail is giving a socket the
//! record's address (see [`socket_addr`]).
//!
//! [`process_decl`]: super::parse::process_decl
//! [`socket_addr`]: super::parse::socket_addr
use vstd::prelude::*;

use super::parse::{audit_kind, audit_plan, is_missing, plan_spec, AuditAction, AuditActionV, AuditKind, SocketInitV};
use super::pvm::PVMError;
use crate::data::node_types::pipe::PipeInit;
use crate::data::node_types::process::ProcessInit;
use crate::data::node_types::socket::SocketInit;
use crate::trace::TraceEvent;

verus! {

/// The node types audit records declare.
#[derive(Clone, Copy, Debug, PartialEq, Eq, Structural)]
pub enum NodeKind {
    Process,
    File,
    Socket,
    Pipe,
    Ptty,
}

/// The initial data of a declared node.
pub enum NodeInit {
    Process(ProcessInit),
    Socket(SocketInit),
    Pipe(PipeInit),
}

/// The abstract form of a node's initial data.
pub enum NodeInitV {
    Process { pid: i32, cmdline: Seq<char>, thin: bool },
    Socket(SocketInitV),
    Pipe(i32),
}

/// A node a call is about: the record's process, the process the record
/// adds, or the node of a UUID.
#[derive(Clone, Copy, Debug, PartialEq, Eq, Structural)]
pub enum NodeRef {
    Proc,
    New,
    Uuid(u128),
}

/// One call of an audit record on the model.
pub enum AuditOp {
    /// The node of `uuid`, made with `init` when there is none.
    Declare { kind: NodeKind, uuid: u128, init: Option<NodeInit> },
    /// A new process node for `uuid`, which becomes the node of `uuid`.
    AddProcess { uuid: u128, init: ProcessInit },
    /// The node of `node` has the name.
    Name { node: u128, name: String },
    /// `act` read from `ent`, with the bytes counted on the flow if given.
    Source { act: NodeRef, ent: NodeRef, tag: String, bytes: Option<u64> },
    /// `act` wrote to `ent`.
    Sink { act: NodeRef, ent: NodeRef, tag: String },
    /// `act` started writing to `ent`, with the bytes counted on the flow if given.
    SinkStart { act: NodeRef, ent: NodeRef, tag: String, bytes: Option<u64> },
    /// `act` stopped writing to `ent`.
    SinkEnd { act: NodeRef, ent: NodeRef, tag: String },
    /// The two conduits are connected both ways.
    Connect { a: u128, b: u128, tag: String },
    /// The node of the UUID is forgotten.
    Release(u128),
    /// The record's process loaded a new program in place: it takes the
    /// command line, is no longer thin, and is stored again.
    ExecInPlace { cmdline: String },
    /// The node of `child` takes the returned pid and the command line of
    /// the record's process, is thin, and is stored again.
    ForkChild { child: u128, pid: i32 },
    /// The socket of the UUID is given the record's address (when its class
    /// is still unknown), and is stored again when it changed.
    GiveAddress(u128),
    /// The event is not one the model knows; it is noted by name.
    Unparsed(String),
}

/// The abstract form of an [`AuditOp`]: texts as character sequences.
pub enum AuditOpV {
    Declare { kind: NodeKind, uuid: u128, init: Option<NodeInitV> },
    AddProcess { uuid: u128, pid: i32, cmdline: Seq<char>, thin: bool },
    Name { node: u128, name: Seq<char> },
    Source { act: NodeRef, ent: NodeRef, tag: Seq<char>, bytes: Option<u64> },
    Sink { act: NodeRef, ent: NodeRef, tag: Seq<char> },
    SinkStart { act: NodeRef, ent: NodeRef, tag: Seq<char>, bytes: Option<u64> },
    SinkEnd { act: NodeRef, ent: NodeRef, tag: Seq<char> },
    Connect { a: u128, b: u128, tag: Seq<char> },
    Release(u128),
    ExecInPlace { cmdline: Seq<char> },
    ForkChild { child: u128, pid: i32 },
    GiveAddress(u128),
    Unparsed(Seq<char>),
}

/// The abstract form of initial data.
pub open spec fn init_view(i: Option<NodeInit>) -> Option<NodeInitV> {
    match i {
        Some(NodeInit::Process(p)) => Some(NodeInitV::Process { pid: p.pid, cmdline: p.cmdline@, thin: p.thin }),
        Some(NodeInit::Socket(s)) => Some(NodeInitV::Socket(SocketInitV { class: s.class, path: s.path@, ip: s.ip@, port: s.port })),
        Some(NodeInit::Pipe(p)) => Some(NodeInitV::Pipe(p.fd)),
        None => None,
    }
}

impl View for AuditOp {
    type V = AuditOpV;

    open spec fn view(&self) -> AuditOpV {
        match self {
            AuditOp::Declare { kind, uuid, init } => AuditOpV::Declare { kind: *kind, uuid: *uuid, init: init_view(*init) },
            AuditOp::AddProcess { uuid, init } => AuditOpV::AddProcess {
                uuid: *uuid,
                pid: init.pid,
                cmdline: init.cmdline@,
                thin: init.thin,
            },
            AuditOp::Name { node, name } => AuditOpV::Name { node: *node, name: name@ },
            AuditOp::Source { act, ent, tag, bytes } => AuditOpV::Source { act: *act, ent: *ent, tag: tag@, bytes: *bytes },
            AuditOp::Sink { act, ent, tag } => AuditOpV::Sink { act: *act, ent: *ent, tag: tag@ },
            AuditOp::SinkStart { act, ent, tag, bytes } => AuditOpV::SinkStart {
                act: *act,
                ent: *ent,
                tag: tag@,
                bytes: *bytes,
            },
            AuditOp::SinkEnd { act, ent, tag } => AuditOpV::SinkEnd { act: *act, ent: *ent, tag: tag@ },
            AuditOp::Connect { a, b, tag } => AuditOpV::Connect { a: *a, b: *b, tag: tag@ },
            AuditOp::Release(u) => AuditOpV::Release(*u),
            AuditOp::ExecInPlace { cmdline } => AuditOpV::ExecInPlace { cmdline: cmdline@ },
            AuditOp::ForkChild { child, pid } => AuditOpV::ForkChild { child: *child, pid: *pid },
            AuditOp::GiveAddress(u) => AuditOpV::GiveAddress(*u),
            AuditOp::Unparsed(e) => AuditOpV::Unparsed(e@),
        }
    }
}

/// The abstract form of a list of calls.
pub open spec fn audit_ops_view(ops: Seq<AuditOp>) -> Seq<AuditOpV> {
    ops.map_values(|o: AuditOp| o@)
}

/// Declaring the node of `u` as a `kind` with no initial data.
pub open spec fn decl(kind: NodeKind, u: u128) -> AuditOpV {
    AuditOpV::Declare { kind, uuid: u, init: None }
}

/// Naming the node of `u`, when there is a name.
pub open spec fn opt_name(u: u128, p: Option<Seq<char>>) -> Seq<AuditOpV> {
    match p {
        Some(p) => seq![AuditOpV::Name { node: u, name: p }],
        None => Seq::empty(),
    }
}

/// The calls for what a record asks (`ev` is the record's event name and
/// `subj` its process's UUID).
pub open spec fn action_ops(a: AuditActionV, ev: Seq<char>, subj: u128) -> Seq<AuditOpV> {
    let me = NodeRef::Proc;
    match a {
        AuditActionV::Accept { listen, remote, init } => seq![
            decl(NodeKind::Socket, listen),
            AuditOpV::Declare {
                kind: NodeKind::Socket,
                uuid: remote,
                init: match init {
                    Some(i) => Some(NodeInitV::Socket(i)),
                    None => None,
                },
            },
        ],
        AuditActionV::Bind(u) => seq![decl(NodeKind::Socket, u), AuditOpV::GiveAddress(u)],
        AuditActionV::Connect(u) => seq![decl(NodeKind::Socket, u), AuditOpV::GiveAddress(u)],
        AuditActionV::Chdir { dir, path } => seq![decl(NodeKind::File, dir)] + opt_name(dir, path),
        AuditActionV::ChSink { file, path } => seq![
            decl(NodeKind::File, file),
            AuditOpV::Name { node: file, name: path },
            AuditOpV::Sink { act: me, ent: NodeRef::Uuid(file), tag: ev },
        ],
        AuditActionV::Close(f) => match f {
            Some(u) => seq![decl(NodeKind::File, u), AuditOpV::SinkEnd { act: me, ent: NodeRef::Uuid(u), tag: ev }],
            None => Seq::empty(),
        },
        AuditActionV::ExecThin { cmdline, bin, binname, ld, ldname } => seq![
            decl(NodeKind::File, bin),
            AuditOpV::Name { node: bin, name: binname },
            decl(NodeKind::File, ld),
            AuditOpV::Name { node: ld, name: ldname },
            AuditOpV::ExecInPlace { cmdline },
            AuditOpV::Source { act: me, ent: NodeRef::Uuid(bin), tag: "binary"@, bytes: None },
            AuditOpV::Source { act: me, ent: NodeRef::Uuid(ld), tag: "linker"@, bytes: None },
        ],
        AuditActionV::ExecNew { pid, cmdline, thin, bin, binname, ld, ldname } => seq![
            decl(NodeKind::File, bin),
            AuditOpV::Name { node: bin, name: binname },
            decl(NodeKind::File, ld),
            AuditOpV::Name { node: ld, name: ldname },
            AuditOpV::AddProcess { uuid: subj, pid, cmdline, thin },
            AuditOpV::Source { act: NodeRef::New, ent: me, tag: ev, bytes: None },
            AuditOpV::Source { act: NodeRef::New, ent: NodeRef::Uuid(bin), tag: "binary"@, bytes: None },
            AuditOpV::Source { act: NodeRef::New, ent: NodeRef::Uuid(ld), tag: "linker"@, bytes: None },
        ],
        AuditActionV::Exit(u) => seq![AuditOpV::Release(u)],
        AuditActionV::Fork { child, pid } => seq![
            decl(NodeKind::Process, child),
            AuditOpV::ForkChild { child, pid },
            AuditOpV::Source { act: NodeRef::Uuid(child), ent: me, tag: ev, bytes: None },
        ],
        AuditActionV::FSink(u) => seq![
            decl(NodeKind::File, u),
            AuditOpV::SinkStart { act: me, ent: NodeRef::Uuid(u), tag: ev, bytes: None },
        ],
        AuditActionV::Listen(u) => seq![decl(NodeKind::Socket, u)],
        AuditActionV::Socket(u) => seq![decl(NodeKind::Socket, u)],
        AuditActionV::Mmap { file, path, sinkstart, source } => seq![decl(NodeKind::File, file)] + opt_name(file, path)
            + (if sinkstart {
            seq![AuditOpV::SinkStart { act: me, ent: NodeRef::Uuid(file), tag: ev, bytes: None }]
        } else {
            Seq::empty()
        }) + (if source {
            seq![AuditOpV::Source { act: me, ent: NodeRef::Uuid(file), tag: ev, bytes: None }]
        } else {
            Seq::empty()
        }),
        AuditActionV::Open(o) => match o {
            Some((u, p)) => seq![decl(NodeKind::File, u), AuditOpV::Name { node: u, name: p }],
            None => Seq::empty(),
        },
        AuditActionV::Pipe { p1, fd1, p2, fd2 } => seq![
            AuditOpV::Declare { kind: NodeKind::Pipe, uuid: p1, init: Some(NodeInitV::Pipe(fd1)) },
            AuditOpV::Declare { kind: NodeKind::Pipe, uuid: p2, init: Some(NodeInitV::Pipe(fd2)) },
            AuditOpV::Connect { a: p1, b: p2, tag: ev },
        ],
        AuditActionV::Openpt(u) => seq![decl(NodeKind::Ptty, u)],
        AuditActionV::Read { file, path, bytes } => seq![decl(NodeKind::File, file)] + opt_name(file, path) + seq![
            AuditOpV::Source { act: me, ent: NodeRef::Uuid(file), tag: ev, bytes: Some(bytes) },
        ],
        AuditActionV::Write { file, path, bytes } => seq![decl(NodeKind::File, file)] + opt_name(file, path) + seq![
            AuditOpV::SinkStart { act: me, ent: NodeRef::Uuid(file), tag: ev, bytes: Some(bytes) },
        ],
        AuditActionV::Recv(u) => seq![
            decl(NodeKind::Socket, u),
            AuditOpV::GiveAddress(u),
            AuditOpV::Source { act: me, ent: NodeRef::Uuid(u), tag: ev, bytes: None },
        ],
        AuditActionV::Send(u) => seq![
            decl(NodeKind::Socket, u),
            AuditOpV::GiveAddress(u),
            AuditOpV::SinkStart { act: me, ent: NodeRef::Uuid(u), tag: ev, bytes: None },
        ],
        AuditActionV::SocketPair(a, b) => seq![
            decl(NodeKind::Socket, a),
            decl(NodeKind::Socket, b),
            AuditOpV::Connect { a, b, tag: ev },
        ],
        AuditActionV::Ignore => Seq::empty(),
        AuditActionV::Unparsed(e) => seq![AuditOpV::Unparsed(e)],
    }
}

fn push_op(ops: &mut Vec<AuditOp>, op: AuditOp)
    ensures
        audit_ops_view(final(ops)@) == audit_ops_view(old(ops)@).push(op@),
{
    ops.push(op);
    proof {
        crate::text::lemma_map_push(old(ops)@, op, |o: AuditOp| o@);
    }
}

fn push_decl(ops: &mut Vec<AuditOp>, kind: NodeKind, u: u128)
    ensures
        audit_ops_view(final(ops)@) == audit_ops_view(old(ops)@).push(decl(kind, u)),
{
    push_op(ops, AuditOp::Declare { kind, uuid: u, init: None });
}

fn push_opt_name(ops: &mut Vec<AuditOp>, u: u128, p: Option<String>)
    ensures
        audit_ops_view(final(ops)@) == audit_ops_view(old(ops)@) + opt_name(u, super::parse::opt_view(p)),
{
    match p {
        Some(p) => push_op(ops, AuditOp::Name { node: u, name: p }),
        None => {},
    }
    assert(audit_ops_view(ops@) =~= audit_ops_view(old(ops)@) + opt_name(u, super::parse::opt_view(p)));
}

/// The calls for what a record asks, in order (see [`action_ops`]).
pub fn action_calls(a: AuditAction, ev: &String, subj: u128) -> (r: Vec<AuditOp>)
    ensures
        audit_ops_view(r@) == action_ops(a@, ev@, subj),
{
    let me = NodeRef::Proc;
    let ghost av = a@;
    let mut ops: Vec<AuditOp> = Vec::new();
    match a {
        AuditAction::Accept { listen, remote, init } => {
            push_decl(&mut ops, NodeKind::Socket, listen);
            let init = match init {
                Some(i) => Some(NodeInit::Socket(i)),
                None => None,
            };
            push_op(&mut ops, AuditOp::Declare { kind: NodeKind::Socket, uuid: remote, init });
        },
        AuditAction::Bind(u) | AuditAction::Connect(u) => {
            push_decl(&mut ops, NodeKind::Socket, u);
            push_op(&mut ops, AuditOp::GiveAddress(u));
        },
        AuditAction::Chdir { dir, path } => {
            push_decl(&mut ops, NodeKind::File, dir);
            push_opt_name(&mut ops, dir, path);
        },
        AuditAction::ChSink { file, path } => {
            push_decl(&mut ops, NodeKind::File, file);
            push_op(&mut ops, AuditOp::Name { node: file, name: path });
            push_op(&mut ops, AuditOp::Sink { act: me, ent: NodeRef::Uuid(file), tag: ev.clone() });
        },
        AuditAction::Close(f) => match f {
            Some(u) => {
                push_decl(&mut ops, NodeKind::File, u);
                push_op(&mut ops, AuditOp::SinkEnd { act: me, ent: NodeRef::Uuid(u), tag: ev.clone() });
            },
            None => {},
        },
        AuditAction::ExecThin { cmdline, bin, binname, ld, ldname } => {
            push_decl(&mut ops, NodeKind::File, bin);
            push_op(&mut ops, AuditOp::Name { node: bin, name: binname });
            push_decl(&mut ops, NodeKind::File, ld);
            push_op(&mut ops, AuditOp::Name { node: ld, name: ldname });
            push_op(&mut ops, AuditOp::ExecInPlace { cmdline });
            push_op(&mut ops, AuditOp::Source { act: me, ent: NodeRef::Uuid(bin), tag: String::from_str("binary"), bytes: None });
            push_op(&mut ops, AuditOp::Source { act: me, ent: NodeRef::Uuid(ld), tag: String::from_str("linker"), bytes: None });
        },
        AuditAction::ExecNew { init, bin, binname, ld, ldname } => {
            push_decl(&mut ops, NodeKind::File, bin);
            push_op(&mut ops, AuditOp::Name { node: bin, name: binname });
            push_decl(&mut ops, NodeKind::File, ld);
            push_op(&mut ops, AuditOp::Name { node: ld, name: ldname });
            push_op(&mut ops, AuditOp::AddProcess { uuid: subj, init });
            push_op(&mut ops, AuditOp::Source { act: NodeRef::New, ent: me, tag: ev.clone(), bytes: None });
            push_op(&mut ops, AuditOp::Source { act: NodeRef::New, ent: NodeRef::Uuid(bin), tag: String::from_str("binary"), bytes: None });
            push_op(&mut ops, AuditOp::Source { act: NodeRef::New, ent: NodeRef::Uuid(ld), tag: String::from_str("linker"), bytes: None });
        },
        AuditAction::Exit(u) => push_op(&mut ops, AuditOp::Release(u)),
        AuditAction::Fork { child, pid } => {
            push_decl(&mut ops, NodeKind::Process, child);
            push_op(&mut ops, AuditOp::ForkChild { child, pid });
            push_op(&mut ops, AuditOp::Source { act: NodeRef::Uuid(child), ent: me, tag: ev.clone(), bytes: None });
        },
        AuditAction::FSink(u) => {
            push_decl(&mut ops, NodeKind::File, u);
            push_op(&mut ops, AuditOp::SinkStart { act: me, ent: NodeRef::Uuid(u), tag: ev.clone(), bytes: None });
        },
        AuditAction::Listen(u) | AuditAction::Socket(u) => push_decl(&mut ops, NodeKind::Socket, u),
        AuditAction::Mmap { file, path, sinkstart, source } => {
            push_decl(&mut ops, NodeKind::File, file);
            push_opt_name(&mut ops, file, path);
            let ghost mid = audit_ops_view(ops@);
            if sinkstart {
                push_op(&mut ops, AuditOp::SinkStart { act: me, ent: NodeRef::Uuid(file), tag: ev.clone(), bytes: None });
            }
            let ghost mid2 = audit_ops_view(ops@);
            assert(mid2 =~= mid + (if sinkstart {
                seq![AuditOpV::SinkStart { act: me, ent: NodeRef::Uuid(file), tag: ev@, bytes: None }]
            } else {
                Seq::empty()
            }));
            if source {
                push_op(&mut ops, AuditOp::Source { act: me, ent: NodeRef::Uuid(file), tag: ev.clone(), bytes: None });
            }
            assert(audit_ops_view(ops@) =~= mid2 + (if source {
                seq![AuditOpV::Source { act: me, ent: NodeRef::Uuid(file), tag: ev@, bytes: None }]
            } else {
                Seq::empty()
            }));
        },
        AuditAction::Open(o) => match o {
            Some((u, p)) => {
                push_decl(&mut ops, NodeKind::File, u);
                push_op(&mut ops, AuditOp::Name { node: u, name: p });
            },
            None => {},
        },
        AuditAction::Pipe { p1, fd1, p2, fd2 } => {
            push_op(&mut ops, AuditOp::Declare { kind: NodeKind::Pipe, uuid: p1, init: Some(NodeInit::Pipe(PipeInit { fd: fd1 })) });
            push_op(&mut ops, AuditOp::Declare { kind: NodeKind::Pipe, uuid: p2, init: Some(NodeInit::Pipe(PipeInit { fd: fd2 })) });
            push_op(&mut ops, AuditOp::Connect { a: p1, b: p2, tag: ev.clone() });
        },
        AuditAction::Openpt(u) => push_decl(&mut ops, NodeKind::Ptty, u),
        AuditAction::Read { file, path, bytes } => {
            push_decl(&mut ops, NodeKind::File, file);
            push_opt_name(&mut ops, file, path);
            push_op(&mut ops, AuditOp::Source { act: me, ent: NodeRef::Uuid(file), tag: ev.clone(), bytes: Some(bytes) });
        },
        AuditAction::Write { file, path, bytes } => {
            push_decl(&mut ops, NodeKind::File, file);
            push_opt_name(&mut ops, file, path);
            push_op(&mut ops, AuditOp::SinkStart { act: me, ent: NodeRef::Uuid(file), tag: ev.clone(), bytes: Some(bytes) });
        },
        AuditAction::Recv(u) => {
            push_decl(&mut ops, NodeKind::Socket, u);
            push_op(&mut ops, AuditOp::GiveAddress(u));
            push_op(&mut ops, AuditOp::Source { act: me, ent: NodeRef::Uuid(u), tag: ev.clone(), bytes: None });
        },
        AuditAction::Send(u) => {
            push_decl(&mut ops, NodeKind::Socket, u);
            push_op(&mut ops, AuditOp::GiveAddress(u));
            push_op(&mut ops, AuditOp::SinkStart { act: me, ent: NodeRef::Uuid(u), tag: ev.clone(), bytes: None });
        },
        AuditAction::SocketPair(a, b) => {
            push_decl(&mut ops, NodeKind::Socket, a);
            push_decl(&mut ops, NodeKind::Socket, b);
            push_op(&mut ops, AuditOp::Connect { a, b, tag: ev.clone() });
        },
        AuditAction::Ignore => {},
        AuditAction::Unparsed(e) => push_op(&mut ops, AuditOp::Unparsed(e)),
    }
    proof {
        reveal_strlit("binary");
        reveal_strlit("linker");
    }
    assert(audit_ops_view(ops@) =~= action_ops(av, ev@, subj));
    ops
}

/// Whether a calls result agrees with what the record asks.
pub open spec fn ops_agree(r: Result<Vec<AuditOp>, PVMError>, tr: TraceEvent, thin: bool) -> bool {
    match tr {
        TraceEvent::FBT(_) => r matches Ok(ops) && ops@.len() == 0,
        TraceEvent::Audit(a) => match (r, plan_spec(*a, thin)) {
            (Ok(ops), Ok(v)) => audit_ops_view(ops@) == action_ops(v, a.event@, a.subjprocuuid),
            (Err(e), Err(f)) => is_missing(e, *a, f),
            _ => false,
        },
    }
}

/// The calls a trace record makes on the model after its process is
/// declared, given whether that process is still thin; or the first field
/// the record lacks. Kernel trace records make none.
pub fn audit_ops(tr: &TraceEvent, thin: bool) -> (r: Result<Vec<AuditOp>, PVMError>)
    ensures
        ops_agree(r, *tr, thin),
{
    match tr {
        TraceEvent::FBT(_) => Ok(Vec::new()),
        TraceEvent::Audit(a) => match audit_plan(a, thin) {
            Ok(action) => Ok(action_calls(action, &a.event, a.subjprocuuid)),
            Err(e) => Err(e),
        },
    }
}


/// The receive events are read as receives.
proof fn lemma_receive_events_known()
    ensures
        audit_kind("audit:event:aue_recvmsg:"@) == AuditKind::Recv,
        audit_kind("audit:event:aue_recvfrom:"@) == AuditKind::Recv,
{
    reveal_strlit("audit:event:aue_accept:");
    assert("audit:event:aue_accept:"@.len() == 23);
    reveal_strlit("audit:event:aue_bind:");
    assert("audit:event:aue_bind:"@.len() == 21);
    reveal_strlit("audit:event:aue_chdir:");
    assert("audit:event:aue_chdir:"@.len() == 22);
    reveal_strlit("audit:event:aue_fchdir:");
    assert("audit:event:aue_fchdir:"@.len() == 23);
    reveal_strlit("audit:event:aue_chmod:");
    assert("audit:event:aue_chmod:"@.len() == 22);
    reveal_strlit("audit:event:aue_fchmodat:");
    assert("audit:event:aue_fchmodat:"@.len() == 25);
    reveal_strlit("audit:event:aue_chown:");
    assert("audit:event:aue_chown:"@.len() == 22);
    reveal_strlit("audit:event:aue_close:");
    assert("audit:event:aue_close:"@.len() == 22);
    reveal_strlit("audit:event:aue_connect:");
    assert("audit:event:aue_connect:"@.len() == 24);
    reveal_strlit("audit:event:aue_execve:");
    assert("audit:event:aue_execve:"@.len() == 23);
    reveal_strlit("audit:event:aue_exit:");
    assert("audit:event:aue_exit:"@.len() == 21);
    reveal_strlit("audit:event:aue_fork:");
    assert("audit:event:aue_fork:"@.len() == 21);
    reveal_strlit("audit:event:aue_pdfork:");
    assert("audit:event:aue_pdfork:"@.len() == 23);
    reveal_strlit("audit:event:aue_vfork:");
    assert("audit:event:aue_vfork:"@.len() == 22);
    reveal_strlit("audit:event:aue_fchmod:");
    assert("audit:event:aue_fchmod:"@.len() == 23);
    reveal_strlit("audit:event:aue_fchown:");
    assert("audit:event:aue_fchown:"@.len() == 23);
    reveal_strlit("audit:event:aue_listen:");
    assert("audit:event:aue_listen:"@.len() == 23);
    reveal_strlit("audit:event:aue_mmap:");
    assert("audit:event:aue_mmap:"@.len() == 21);
    reveal_strlit("audit:event:aue_open_rwtc:");
    assert("audit:event:aue_open_rwtc:"@.len() == 26);
    reveal_strlit("audit:event:aue_openat_rwtc:");
    assert("audit:event:aue_openat_rwtc:"@.len() == 28);
    reveal_strlit("audit:event:aue_pipe:");
    assert("audit:event:aue_pipe:"@.len() == 21);
    reveal_strlit("audit:event:aue_posix_openpt:");
    assert("audit:event:aue_posix_openpt:"@.len() == 29);
    reveal_strlit("audit:event:aue_read:");
    assert("audit:event:aue_read:"@.len() == 21);
    reveal_strlit("audit:event:aue_pread:");
    assert("audit:event:aue_pread:"@.len() == 22);
    reveal_strlit("audit:event:aue_recvmsg:");
    assert("audit:event:aue_recvmsg:"@.len() == 24);
    reveal_strlit("audit:event:aue_recvfrom:");
    assert("audit:event:aue_recvfrom:"@.len() == 25);
    assert("audit:event:aue_recvmsg:"@[16] == 'r' && "audit:event:aue_connect:"@[16] == 'c');
    assert("audit:event:aue_recvfrom:"@[16] == 'r' && "audit:event:aue_fchmodat:"@[16] == 'f');
}

/// A receive record (`aue_recvmsg` or `aue_recvfrom`) whose socket is in
/// `arg_objuuid1` makes its process read from that socket: the socket is
/// declared, given the record's address, and a read flow goes from the
/// socket into the process. No write is recorded.
pub proof fn lemma_receive_reads_socket(rec: TraceEvent, thin: bool, r: Result<Vec<AuditOp>, PVMError>, u: u128)
    requires
        rec is Audit,
        rec->Audit_0.event@ == "audit:event:aue_recvmsg:"@ || rec->Audit_0.event@ == "audit:event:aue_recvfrom:"@,
        rec->Audit_0.arg_objuuid1 == Some(u),
        ops_agree(r, rec, thin),
    ensures
        r is Ok,
        audit_ops_view(r->Ok_0@) == seq![
            AuditOpV::Declare { kind: NodeKind::Socket, uuid: u, init: None },
            AuditOpV::GiveAddress(u),
            AuditOpV::Source { act: NodeRef::Proc, ent: NodeRef::Uuid(u), tag: rec->Audit_0.event@, bytes: None },
        ],
        forall|i: int|
            0 <= i < r->Ok_0@.len() ==> !(#[trigger] audit_ops_view(r->Ok_0@)[i] is SinkStart) && !(audit_ops_view(
                r->Ok_0@,
            )[i] is Sink),
{
    lemma_receive_events_known();
    let ops = audit_ops_view(r->Ok_0@);
    assert(ops.len() == 3);
}


/// The read, send and write events are read as such.
proof fn lemma_flow_events_known()
    ensures
        audit_kind("audit:event:aue_read:"@) == AuditKind::Read,
        audit_kind("audit:event:aue_pread:"@) == AuditKind::Read,
        audit_kind("audit:event:aue_sendmsg:"@) == AuditKind::Send,
        audit_kind("audit:event:aue_sendto:"@) == AuditKind::Send,
        audit_kind("audit:event:aue_write:"@) == AuditKind::Write,
        audit_kind("audit:event:aue_pwrite:"@) == AuditKind::Write,
        audit_kind("audit:event:aue_writev:"@) == AuditKind::Write,
{
    reveal_strlit("audit:event:aue_accept:");
    assert("audit:event:aue_accept:"@.len() == 23);
    reveal_strlit("audit:event:aue_bind:");
    assert("audit:event:aue_bind:"@.len() == 21);
    reveal_strlit("audit:event:aue_chdir:");
    assert("audit:event:aue_chdir:"@.len() == 22);
    reveal_strlit("audit:event:aue_fchdir:");
    assert("audit:event:aue_fchdir:"@.len() == 23);
    reveal_strlit("audit:event:aue_chmod:");
    assert("audit:event:aue_chmod:"@.len() == 22);
    reveal_strlit("audit:event:aue_fchmodat:");
    assert("audit:event:aue_fchmodat:"@.len() == 25);
    reveal_strlit("audit:event:aue_chown:");
    assert("audit:event:aue_chown:"@.len() == 22);
    reveal_strlit("audit:event:aue_close:");
    assert("audit:event:aue_close:"@.len() == 22);
    reveal_strlit("audit:event:aue_connect:");
    assert("audit:event:aue_connect:"@.len() == 24);
    reveal_strlit("audit:event:aue_execve:");
    assert("audit:event:aue_execve:"@.len() == 23);
    reveal_strlit("audit:event:aue_exit:");
    assert("audit:event:aue_exit:"@.len() == 21);
    reveal_strlit("audit:event:aue_fork:");
    assert("audit:event:aue_fork:"@.len() == 21);
    reveal_strlit("audit:event:aue_pdfork:");
    assert("audit:event:aue_pdfork:"@.len() == 23);
    reveal_strlit("audit:event:aue_vfork:");
    assert("audit:event:aue_vfork:"@.len() == 22);
    reveal_strlit("audit:event:aue_fchmod:");
    assert("audit:event:aue_fchmod:"@.len() == 23);
    reveal_strlit("audit:event:aue_fchown:");
    assert("audit:event:aue_fchown:"@.len() == 23);
    reveal_strlit("audit:event:aue_listen:");
    assert("audit:event:aue_listen:"@.len() == 23);
    reveal_strlit("audit:event:aue_mmap:");
    assert("audit:event:aue_mmap:"@.len() == 21);
    reveal_strlit("audit:event:aue_open_rwtc:");
    assert("audit:event:aue_open_rwtc:"@.len() == 26);
    reveal_strlit("audit:event:aue_openat_rwtc:");
    assert("audit:event:aue_openat_rwtc:"@.len() == 28);
    reveal_strlit("audit:event:aue_pipe:");
    assert("audit:event:aue_pipe:"@.len() == 21);
    reveal_strlit("audit:event:aue_posix_openpt:");
    assert("audit:event:aue_posix_openpt:"@.len() == 29);
    reveal_strlit("audit:event:aue_read:");
    assert("audit:event:aue_read:"@.len() == 21);
    reveal_strlit("audit:event:aue_pread:");
    assert("audit:event:aue_pread:"@.len() == 22);
    reveal_strlit("audit:event:aue_recvmsg:");
    assert("audit:event:aue_recvmsg:"@.len() == 24);
    reveal_strlit("audit:event:aue_recvfrom:");
    assert("audit:event:aue_recvfrom:"@.len() == 25);
    reveal_strlit("audit:event:aue_sendmsg:");
    assert("audit:event:aue_sendmsg:"@.len() == 24);
    reveal_strlit("audit:event:aue_sendto:");
    assert("audit:event:aue_sendto:"@.len() == 23);
    reveal_strlit("audit:event:aue_socket:");
    assert("audit:event:aue_socket:"@.len() == 23);
    reveal_strlit("audit:event:aue_socketpair:");
    assert("audit:event:aue_socketpair:"@.len() == 27);
    reveal_strlit("audit:event:aue_write:");
    assert("audit:event:aue_write:"@.len() == 22);
    reveal_strlit("audit:event:aue_pwrite:");
    assert("audit:event:aue_pwrite:"@.len() == 23);
    reveal_strlit("audit:event:aue_writev:");
    assert("audit:event:aue_writev:"@.len() == 23);
    assert("audit:event:aue_pread:"@[16] == 'p' && "audit:event:aue_chdir:"@[16] == 'c');
    assert("audit:event:aue_pread:"@[16] == 'p' && "audit:event:aue_chmod:"@[16] == 'c');
    assert("audit:event:aue_pread:"@[16] == 'p' && "audit:event:aue_chown:"@[16] == 'c');
    assert("audit:event:aue_pread:"@[16] == 'p' && "audit:event:aue_close:"@[16] == 'c');
    assert("audit:event:aue_pread:"@[16] == 'p' && "audit:event:aue_vfork:"@[16] == 'v');
    assert("audit:event:aue_pwrite:"@[16] == 'p' && "audit:event:aue_accept:"@[16] == 'a');
    assert("audit:event:aue_pwrite:"@[16] == 'p' && "audit:event:aue_execve:"@[16] == 'e');
    assert("audit:event:aue_pwrite:"@[16] == 'p' && "audit:event:aue_fchdir:"@[16] == 'f');
    assert("audit:event:aue_pwrite:"@[16] == 'p' && "audit:event:aue_fchmod:"@[16] == 'f');
    assert("audit:event:aue_pwrite:"@[16] == 'p' && "audit:event:aue_fchown:"@[16] == 'f');
    assert("audit:event:aue_pwrite:"@[16] == 'p' && "audit:event:aue_listen:"@[16] == 'l');
    assert("audit:event:aue_pwrite:"@[17] == 'w' && "audit:event:aue_pdfork:"@[17] == 'd');
    assert("audit:event:aue_pwrite:"@[16] == 'p' && "audit:event:aue_sendto:"@[16] == 's');
    assert("audit:event:aue_pwrite:"@[16] == 'p' && "audit:event:aue_socket:"@[16] == 's');
    assert("audit:event:aue_read:"@[16] == 'r' && "audit:event:aue_bind:"@[16] == 'b');
    assert("audit:event:aue_read:"@[16] == 'r' && "audit:event:aue_exit:"@[16] == 'e');
    assert("audit:event:aue_read:"@[16] == 'r' && "audit:event:aue_fork:"@[16] == 'f');
    assert("audit:event:aue_read:"@[16] == 'r' && "audit:event:aue_mmap:"@[16] == 'm');
    assert("audit:event:aue_read:"@[16] == 'r' && "audit:event:aue_pipe:"@[16] == 'p');
    assert("audit:event:aue_sendmsg:"@[16] == 's' && "audit:event:aue_connect:"@[16] == 'c');
    assert("audit:event:aue_sendmsg:"@[16] == 's' && "audit:event:aue_recvmsg:"@[16] == 'r');
    assert("audit:event:aue_sendto:"@[16] == 's' && "audit:event:aue_accept:"@[16] == 'a');
    assert("audit:event:aue_sendto:"@[16] == 's' && "audit:event:aue_execve:"@[16] == 'e');
    assert("audit:event:aue_sendto:"@[16] == 's' && "audit:event:aue_fchdir:"@[16] == 'f');
    assert("audit:event:aue_sendto:"@[16] == 's' && "audit:event:aue_fchmod:"@[16] == 'f');
    assert("audit:event:aue_sendto:"@[16] == 's' && "audit:event:aue_fchown:"@[16] == 'f');
    assert("audit:event:aue_sendto:"@[16] == 's' && "audit:event:aue_listen:"@[16] == 'l');
    assert("audit:event:aue_sendto:"@[16] == 's' && "audit:event:aue_pdfork:"@[16] == 'p');
    assert("audit:event:aue_write:"@[16] == 'w' && "audit:event:aue_chdir:"@[16] == 'c');
    assert("audit:event:aue_write:"@[16] == 'w' && "audit:event:aue_chmod:"@[16] == 'c');
    assert("audit:event:aue_write:"@[16] == 'w' && "audit:event:aue_chown:"@[16] == 'c');
    assert("audit:event:aue_write:"@[16] == 'w' && "audit:event:aue_close:"@[16] == 'c');
    assert("audit:event:aue_write:"@[16] == 'w' && "audit:event:aue_pread:"@[16] == 'p');
    assert("audit:event:aue_write:"@[16] == 'w' && "audit:event:aue_vfork:"@[16] == 'v');
    assert("audit:event:aue_writev:"@[16] == 'w' && "audit:event:aue_accept:"@[16] == 'a');
    assert("audit:event:aue_writev:"@[16] == 'w' && "audit:event:aue_execve:"@[16] == 'e');
    assert("audit:event:aue_writev:"@[16] == 'w' && "audit:event:aue_fchdir:"@[16] == 'f');
    assert("audit:event:aue_writev:"@[16] == 'w' && "audit:event:aue_fchmod:"@[16] == 'f');
    assert("audit:event:aue_writev:"@[16] == 'w' && "audit:event:aue_fchown:"@[16] == 'f');
    assert("audit:event:aue_writev:"@[16] == 'w' && "audit:event:aue_listen:"@[16] == 'l');
    assert("audit:event:aue_writev:"@[16] == 'w' && "audit:event:aue_pdfork:"@[16] == 'p');
    assert("audit:event:aue_writev:"@[16] == 'w' && "audit:event:aue_pwrite:"@[16] == 'p');
    assert("audit:event:aue_writev:"@[16] == 'w' && "audit:event:aue_sendto:"@[16] == 's');
    assert("audit:event:aue_writev:"@[16] == 'w' && "audit:event:aue_socket:"@[16] == 's');
}

/// A send record (`aue_sendmsg` or `aue_sendto`) whose socket is in
/// `arg_objuuid1` makes its process write into that socket: the socket is
/// declared, given the record's address, and a write starts from the process
/// into the socket. No read is recorded.
pub proof fn lemma_send_writes_socket(rec: TraceEvent, thin: bool, r: Result<Vec<AuditOp>, PVMError>, u: u128)
    requires
        rec is Audit,
        rec->Audit_0.event@ == "audit:event:aue_sendmsg:"@ || rec->Audit_0.event@ == "audit:event:aue_sendto:"@,
        rec->Audit_0.arg_objuuid1 == Some(u),
        ops_agree(r, rec, thin),
    ensures
        r is Ok,
        audit_ops_view(r->Ok_0@) == seq![
            AuditOpV::Declare { kind: NodeKind::Socket, uuid: u, init: None },
            AuditOpV::GiveAddress(u),
            AuditOpV::SinkStart { act: NodeRef::Proc, ent: NodeRef::Uuid(u), tag: rec->Audit_0.event@, bytes: None },
        ],
        forall|i: int| 0 <= i < r->Ok_0@.len() ==> !(#[trigger] audit_ops_view(r->Ok_0@)[i] is Source),
{
    lemma_flow_events_known();
    assert(audit_ops_view(r->Ok_0@).len() == 3);
}

/// A read record (`aue_read` or `aue_pread`) whose file is in
/// `arg_objuuid1` makes its process read the file: the file is declared
/// first, the last call is a read flow from the file into the process with
/// the returned byte count on it, and no write is recorded.
pub proof fn lemma_read_reads_file(rec: TraceEvent, thin: bool, r: Result<Vec<AuditOp>, PVMError>, u: u128)
    requires
        rec is Audit,
        rec->Audit_0.event@ == "audit:event:aue_read:"@ || rec->Audit_0.event@ == "audit:event:aue_pread:"@,
        rec->Audit_0.arg_objuuid1 == Some(u),
        ops_agree(r, rec, thin),
    ensures
        r is Ok,
        audit_ops_view(r->Ok_0@)[0] == (AuditOpV::Declare { kind: NodeKind::File, uuid: u, init: None }),
        audit_ops_view(r->Ok_0@).last() == (AuditOpV::Source {
            act: NodeRef::Proc,
            ent: NodeRef::Uuid(u),
            tag: rec->Audit_0.event@,
            bytes: Some(rec->Audit_0.retval as u64),
        }),
        forall|i: int|
            0 <= i < r->Ok_0@.len() ==> !(#[trigger] audit_ops_view(r->Ok_0@)[i] is SinkStart) && !(audit_ops_view(
                r->Ok_0@,
            )[i] is Sink),
{
    lemma_flow_events_known();
    let ops = audit_ops_view(r->Ok_0@);
    assert(ops.len() == 2 || ops.len() == 3);
}

/// A write record (`aue_write`, `aue_pwrite` or `aue_writev`) whose file is
/// in `arg_objuuid1` makes its process write the file: the file is declared
/// first, the last call starts a write from the process into the file with
/// the returned byte count on it, and no read is recorded.
pub proof fn lemma_write_writes_file(rec: TraceEvent, thin: bool, r: Result<Vec<AuditOp>, PVMError>, u: u128)
    requires
        rec is Audit,
        rec->Audit_0.event@ == "audit:event:aue_write:"@ || rec->Audit_0.event@ == "audit:event:aue_pwrite:"@
            || rec->Audit_0.event@ == "audit:event:aue_writev:"@,
        rec->Audit_0.arg_objuuid1 == Some(u),
        ops_agree(r, rec, thin),
    ensures
        r is Ok,
        audit_ops_view(r->Ok_0@)[0] == (AuditOpV::Declare { kind: NodeKind::File, uuid: u, init: None }),
        audit_ops_view(r->Ok_0@).last() == (AuditOpV::SinkStart {
            act: NodeRef::Proc,
            ent: NodeRef::Uuid(u),
            tag: rec->Audit_0.event@,
            bytes: Some(rec->Audit_0.retval as u64),
        }),
        forall|i: int| 0 <= i < r->Ok_0@.len() ==> !(#[trigger] audit_ops_view(r->Ok_0@)[i] is Source),
{
    lemma_flow_events_known();
    let ops = audit_ops_view(r->Ok_0@);
    assert(ops.len() == 2 || ops.len() == 3);
}

} // verus!
