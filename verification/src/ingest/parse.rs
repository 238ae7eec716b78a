//! Reading audit records: which event a record is, which of its fields the
//! event needs, and what it asks of the provenance model.
use vstd::prelude::*;

use super::pvm::PVMError;
use crate::data::node_types::process::{Process, ProcessInit};
use crate::data::node_types::socket::{SocketClass, SocketInit};
use crate::data::node_types::EnumNode;
use crate::text::{empty_string, same_text};
use crate::trace::AuditEvent;

verus! {

/// The kinds of audit events, by what the provenance model makes of them.
#[derive(Clone, Copy, Debug, PartialEq, Eq, Structural)]
pub enum AuditKind {
    Accept,
    Bind,
    Chdir,
    Chmod,
    Close,
    Connect,
    Exec,
    Exit,
    Fork,
    FSink,
    Listen,
    Mmap,
    Open,
    Pipe,
    Openpt,
    Read,
    Recv,
    Send,
    Socket,
    SocketPair,
    Write,
    Ignored,
    Other,
}

/// The kind of the event named `e`.
pub open spec fn audit_kind(e: Seq<char>) -> AuditKind {
    if e == "audit:event:aue_accept:"@ {
        AuditKind::Accept
    } else if e == "audit:event:aue_bind:"@ {
        AuditKind::Bind
    } else if e == "audit:event:aue_chdir:"@ || e == "audit:event:aue_fchdir:"@ {
        AuditKind::Chdir
    } else if e == "audit:event:aue_chmod:"@ || e == "audit:event:aue_fchmodat:"@
        || e == "audit:event:aue_chown:"@ {
        AuditKind::Chmod
    } else if e == "audit:event:aue_close:"@ {
        AuditKind::Close
    } else if e == "audit:event:aue_connect:"@ {
        AuditKind::Connect
    } else if e == "audit:event:aue_execve:"@ {
        AuditKind::Exec
    } else if e == "audit:event:aue_exit:"@ {
        AuditKind::Exit
    } else if e == "audit:event:aue_fork:"@ || e == "audit:event:aue_pdfork:"@
        || e == "audit:event:aue_vfork:"@ {
        AuditKind::Fork
    } else if e == "audit:event:aue_fchmod:"@ || e == "audit:event:aue_fchown:"@ {
        AuditKind::FSink
    } else if e == "audit:event:aue_listen:"@ {
        AuditKind::Listen
    } else if e == "audit:event:aue_mmap:"@ {
        AuditKind::Mmap
    } else if e == "audit:event:aue_open_rwtc:"@ || e == "audit:event:aue_openat_rwtc:"@ {
        AuditKind::Open
    } else if e == "audit:event:aue_pipe:"@ {
        AuditKind::Pipe
    } else if e == "audit:event:aue_posix_openpt:"@ {
        AuditKind::Openpt
    } else if e == "audit:event:aue_read:"@ || e == "audit:event:aue_pread:"@ {
        AuditKind::Read
    } else if e == "audit:event:aue_recvmsg:"@ || e == "audit:event:aue_recvfrom:"@ {
        AuditKind::Recv
    } else if e == "audit:event:aue_sendmsg:"@ || e == "audit:event:aue_sendto:"@ {
        AuditKind::Send
    } else if e == "audit:event:aue_socket:"@ {
        AuditKind::Socket
    } else if e == "audit:event:aue_socketpair:"@ {
        AuditKind::SocketPair
    } else if e == "audit:event:aue_write:"@ || e == "audit:event:aue_pwrite:"@
        || e == "audit:event:aue_writev:"@ {
        AuditKind::Write
    } else if e == "audit:event:aue_dup2:"@ {
        AuditKind::Ignored
    } else {
        AuditKind::Other
    }
}

/// The kind of the event named `e`.
pub fn audit_kind_of(e: &str) -> (k: AuditKind)
    ensures
        k == audit_kind(e@),
{
    if same_text(e, "audit:event:aue_accept:") {
        AuditKind::Accept
    } else if same_text(e, "audit:event:aue_bind:") {
        AuditKind::Bind
    } else if same_text(e, "audit:event:aue_chdir:") || same_text(e, "audit:event:aue_fchdir:") {
        AuditKind::Chdir
    } else if same_text(e, "audit:event:aue_chmod:") || same_text(e, "audit:event:aue_fchmodat:")
        || same_text(e, "audit:event:aue_chown:") {
        AuditKind::Chmod
    } else if same_text(e, "audit:event:aue_close:") {
        AuditKind::Close
    } else if same_text(e, "audit:event:aue_connect:") {
        AuditKind::Connect
    } else if same_text(e, "audit:event:aue_execve:") {
        AuditKind::Exec
    } else if same_text(e, "audit:event:aue_exit:") {
        AuditKind::Exit
    } else if same_text(e, "audit:event:aue_fork:") || same_text(e, "audit:event:aue_pdfork:")
        || same_text(e, "audit:event:aue_vfork:") {
        AuditKind::Fork
    } else if same_text(e, "audit:event:aue_fchmod:") || same_text(e, "audit:event:aue_fchown:") {
        AuditKind::FSink
    } else if same_text(e, "audit:event:aue_listen:") {
        AuditKind::Listen
    } else if same_text(e, "audit:event:aue_mmap:") {
        AuditKind::Mmap
    } else if same_text(e, "audit:event:aue_open_rwtc:") || same_text(e, "audit:event:aue_openat_rwtc:") {
        AuditKind::Open
    } else if same_text(e, "audit:event:aue_pipe:") {
        AuditKind::Pipe
    } else if same_text(e, "audit:event:aue_posix_openpt:") {
        AuditKind::Openpt
    } else if same_text(e, "audit:event:aue_read:") || same_text(e, "audit:event:aue_pread:") {
        AuditKind::Read
    } else if same_text(e, "audit:event:aue_recvmsg:") || same_text(e, "audit:event:aue_recvfrom:") {
        AuditKind::Recv
    } else if same_text(e, "audit:event:aue_sendmsg:") || same_text(e, "audit:event:aue_sendto:") {
        AuditKind::Send
    } else if same_text(e, "audit:event:aue_socket:") {
        AuditKind::Socket
    } else if same_text(e, "audit:event:aue_socketpair:") {
        AuditKind::SocketPair
    } else if same_text(e, "audit:event:aue_write:") || same_text(e, "audit:event:aue_pwrite:")
        || same_text(e, "audit:event:aue_writev:") {
        AuditKind::Write
    } else if same_text(e, "audit:event:aue_dup2:") {
        AuditKind::Ignored
    } else {
        AuditKind::Other
    }
}

/// The error for a record of event `tr` that lacks `field`.
pub open spec fn is_missing(e: PVMError, tr: AuditEvent, field: Seq<char>) -> bool {
    match e {
        PVMError::MissingField { evt, field: f } => evt@ == tr.event@ && f@ == field,
        _ => false,
    }
}

fn missing(tr: &AuditEvent, field: &'static str) -> (e: PVMError)
    ensures
        is_missing(e, *tr, field@),
{
    PVMError::MissingField { evt: tr.event.clone(), field }
}

fn opt_text(o: &Option<String>) -> (r: Option<String>)
    ensures
        match (o, r) {
            (Some(a), Some(b)) => a@ == b@,
            (None, None) => true,
            _ => false,
        },
{
    match o {
        Some(s) => Some(s.clone()),
        None => None,
    }
}

/// The process node that every audit record declares first: the record's
/// process, thin, with the record's pid and executable.
pub fn process_decl(tr: &AuditEvent) -> (r: (u128, ProcessInit))
    ensures
        r.0 == tr.subjprocuuid,
        r.1.pid == tr.pid,
        r.1.cmdline@ == tr.exe@,
        r.1.thin,
{
    (tr.subjprocuuid, ProcessInit { pid: tr.pid, cmdline: tr.exe.clone(), thin: true })
}

/// The socket `n` is `o` with the given family and address fields.
pub open spec fn socket_set(n: EnumNode, o: crate::data::node_types::socket::Socket, class: SocketClass, path: Seq<char>, ip: Seq<char>, port: u16) -> bool {
    &&& n matches EnumNode::Socket(m)
    &&& m.db_id == o.db_id
    &&& m.uuid == o.uuid
    &&& m.class == class
    &&& m.path@ == path
    &&& m.ip@ == ip
    &&& m.port == port
}

/// What giving a node the address of a record does: the result and the node after.
pub open spec fn socket_addr_spec(tr: AuditEvent, before: EnumNode, after: EnumNode, r: Result<bool, PVMError>) -> bool {
    match before {
        EnumNode::Socket(o) => if o.class == SocketClass::Unknown {
            match tr.upath1 {
                Some(p) => r == Ok::<bool, PVMError>(true) && socket_set(after, o, SocketClass::AfUnix, p@, o.ip@, o.port),
                None => match tr.port {
                    Some(prt) => match tr.address {
                        Some(a) => r == Ok::<bool, PVMError>(true) && socket_set(after, o, SocketClass::AfInet, o.path@, a@, prt),
                        None => (r matches Err(e) && is_missing(e, tr, "address"@)) && after == before,
                    },
                    None => r == Ok::<bool, PVMError>(false) && after == before,
                },
            }
        } else {
            r == Ok::<bool, PVMError>(false) && after == before
        },
        _ => r == Ok::<bool, PVMError>(false) && after == before,
    }
}

/// Gives a socket of unknown family the address of the record: its path
/// (a Unix socket) if there is one, else its port and address (an Internet
/// socket) if there is a port. Says whether the socket changed. A record
/// with a port but no address is an error, and leaves the socket as it was.
pub fn socket_addr(tr: &AuditEvent, s: &mut EnumNode) -> (r: Result<bool, PVMError>)
    ensures
        socket_addr_spec(*tr, *old(s), *final(s), r),
{
    match s {
        EnumNode::Socket(sock) => {
            if sock.class == SocketClass::Unknown {
                match &tr.upath1 {
                    Some(pth) => {
                        sock.class = SocketClass::AfUnix;
                        sock.path = pth.clone();
                        return Ok(true);
                    },
                    None => match tr.port {
                        Some(prt) => {
                            let addr = match &tr.address {
                                Some(a) => a.clone(),
                                None => return Err(missing(tr, "address")),
                            };
                            sock.class = SocketClass::AfInet;
                            sock.port = prt;
                            sock.ip = addr;
                            return Ok(true);
                        },
                        None => {},
                    },
                }
            }
            Ok(false)
        },
        _ => Ok(false),
    }
}

/// What an audit record asks of the provenance model, with the fields it
/// needs taken out of the record.
pub enum AuditAction {
    /// Declare the listening socket, and the accepted one, with the peer's
    /// address when the record has one.
    Accept { listen: u128, remote: u128, init: Option<SocketInit> },
    /// Declare the socket, and give it the record's address.
    Bind(u128),
    /// Declare the directory, and name it when there is a path.
    Chdir { dir: u128, path: Option<String> },
    /// Declare the file, name it, and record a write by the process.
    ChSink { file: u128, path: String },
    /// Declare the file, and close the process's write to it if there is one.
    Close(Option<u128>),
    /// Declare the socket, and give it the record's address.
    Connect(u128),
    /// The process (still thin) loaded a binary and a linker: set its command
    /// line, make it complete, and record what it read.
    ExecThin { cmdline: String, bin: u128, binname: String, ld: u128, ldname: String },
    /// A complete process loaded a binary and a linker: add a new process
    /// for the same UUID, read from the old one and from the files.
    ExecNew { init: ProcessInit, bin: u128, binname: String, ld: u128, ldname: String },
    /// Forget the process.
    Exit(u128),
    /// Declare the child, with the parent's command line and the returned pid.
    Fork { child: u128, pid: i32 },
    /// Declare the file, and start a write by the process.
    FSink(u128),
    /// Declare the socket.
    Listen(u128),
    /// Declare the file, name it when there is a path, and start a write and
    /// record a read as the mapping's protection asks.
    Mmap { file: u128, path: Option<String>, sinkstart: bool, source: bool },
    /// Declare and name the opened file, if one was returned.
    Open(Option<(u128, String)>),
    /// Declare the two ends of a pipe, with their descriptors, and connect them.
    Pipe { p1: u128, fd1: i32, p2: u128, fd2: i32 },
    /// Declare the terminal.
    Openpt(u128),
    /// Declare the file, name it when the path is known, record a read and
    /// add the bytes.
    Read { file: u128, path: Option<String>, bytes: u64 },
    /// Declare the socket, give it the record's address, and record a read.
    Recv(u128),
    /// Declare the socket, give it the record's address, and start a write.
    Send(u128),
    /// Declare the socket.
    Socket(u128),
    /// Declare the two sockets and connect them.
    SocketPair(u128, u128),
    /// Declare the file, name it when the path is known, start a write and
    /// add the bytes.
    Write { file: u128, path: Option<String>, bytes: u64 },
    /// Nothing to do.
    Ignore,
    /// The event is not one the model knows; it is noted by name.
    Unparsed(String),
}

/// The abstract form of a socket's initial data.
pub struct SocketInitV {
    pub class: SocketClass,
    pub path: Seq<char>,
    pub ip: Seq<char>,
    pub port: u16,
}

/// The abstract form of an [`AuditAction`]: texts as character sequences.
pub enum AuditActionV {
    Accept { listen: u128, remote: u128, init: Option<SocketInitV> },
    Bind(u128),
    Chdir { dir: u128, path: Option<Seq<char>> },
    ChSink { file: u128, path: Seq<char> },
    Close(Option<u128>),
    Connect(u128),
    ExecThin { cmdline: Seq<char>, bin: u128, binname: Seq<char>, ld: u128, ldname: Seq<char> },
    ExecNew { pid: i32, cmdline: Seq<char>, thin: bool, bin: u128, binname: Seq<char>, ld: u128, ldname: Seq<char> },
    Exit(u128),
    Fork { child: u128, pid: i32 },
    FSink(u128),
    Listen(u128),
    Mmap { file: u128, path: Option<Seq<char>>, sinkstart: bool, source: bool },
    Open(Option<(u128, Seq<char>)>),
    Pipe { p1: u128, fd1: i32, p2: u128, fd2: i32 },
    Openpt(u128),
    Read { file: u128, path: Option<Seq<char>>, bytes: u64 },
    Recv(u128),
    Send(u128),
    Socket(u128),
    SocketPair(u128, u128),
    Write { file: u128, path: Option<Seq<char>>, bytes: u64 },
    Ignore,
    Unparsed(Seq<char>),
}

/// The abstract form of an optional text.
pub open spec fn opt_view(o: Option<String>) -> Option<Seq<char>> {
    match o {
        Some(s) => Some(s@),
        None => None,
    }
}

impl View for AuditAction {
    type V = AuditActionV;

    open spec fn view(&self) -> AuditActionV {
        match self {
            AuditAction::Accept { listen, remote, init } => AuditActionV::Accept {
                listen: *listen,
                remote: *remote,
                init: match init {
                    Some(i) => Some(SocketInitV { class: i.class, path: i.path@, ip: i.ip@, port: i.port }),
                    None => None,
                },
            },
            AuditAction::Bind(u) => AuditActionV::Bind(*u),
            AuditAction::Chdir { dir, path } => AuditActionV::Chdir { dir: *dir, path: opt_view(*path) },
            AuditAction::ChSink { file, path } => AuditActionV::ChSink { file: *file, path: path@ },
            AuditAction::Close(u) => AuditActionV::Close(*u),
            AuditAction::Connect(u) => AuditActionV::Connect(*u),
            AuditAction::ExecThin { cmdline, bin, binname, ld, ldname } => AuditActionV::ExecThin {
                cmdline: cmdline@,
                bin: *bin,
                binname: binname@,
                ld: *ld,
                ldname: ldname@,
            },
            AuditAction::ExecNew { init, bin, binname, ld, ldname } => AuditActionV::ExecNew {
                pid: init.pid,
                cmdline: init.cmdline@,
                thin: init.thin,
                bin: *bin,
                binname: binname@,
                ld: *ld,
                ldname: ldname@,
            },
            AuditAction::Exit(u) => AuditActionV::Exit(*u),
            AuditAction::Fork { child, pid } => AuditActionV::Fork { child: *child, pid: *pid },
            AuditAction::FSink(u) => AuditActionV::FSink(*u),
            AuditAction::Listen(u) => AuditActionV::Listen(*u),
            AuditAction::Mmap { file, path, sinkstart, source } => AuditActionV::Mmap {
                file: *file,
                path: opt_view(*path),
                sinkstart: *sinkstart,
                source: *source,
            },
            AuditAction::Open(o) => AuditActionV::Open(
                match o {
                    Some((u, p)) => Some((*u, p@)),
                    None => None,
                },
            ),
            AuditAction::Pipe { p1, fd1, p2, fd2 } => AuditActionV::Pipe { p1: *p1, fd1: *fd1, p2: *p2, fd2: *fd2 },
            AuditAction::Openpt(u) => AuditActionV::Openpt(*u),
            AuditAction::Read { file, path, bytes } => AuditActionV::Read {
                file: *file,
                path: opt_view(*path),
                bytes: *bytes,
            },
            AuditAction::Recv(u) => AuditActionV::Recv(*u),
            AuditAction::Send(u) => AuditActionV::Send(*u),
            AuditAction::Socket(u) => AuditActionV::Socket(*u),
            AuditAction::SocketPair(a, b) => AuditActionV::SocketPair(*a, *b),
            AuditAction::Write { file, path, bytes } => AuditActionV::Write {
                file: *file,
                path: opt_view(*path),
                bytes: *bytes,
            },
            AuditAction::Ignore => AuditActionV::Ignore,
            AuditAction::Unparsed(e) => AuditActionV::Unparsed(e@),
        }
    }
}

/// Whether `flags` holds `f`.
pub open spec fn has_flag(flags: Seq<String>, f: Seq<char>) -> bool {
    exists|i: int| 0 <= i < flags.len() && #[trigger] flags[i]@ == f
}

/// Whether `flags` holds `f`.
pub fn contains_flag(flags: &Vec<String>, f: &str) -> (r: bool)
    ensures
        r == has_flag(flags@, f@),
{
    let mut i: usize = 0;
    while i < flags.len()
        invariant
            0 <= i <= flags.len(),
            forall|j: int| 0 <= j < i ==> flags@[j]@ != f@,
        decreases flags.len() - i,
    {
        if same_text(flags[i].as_str(), f) {
            return true;
        }
        i = i + 1;
    }
    false
}

/// Whether a mapping starts a write: it is writable, and not private when
/// the record says how it is shared.
pub open spec fn mmap_writes(tr: AuditEvent) -> bool {
    match tr.arg_mem_flags {
        Some(flags) => has_flag(flags@, "PROT_WRITE"@) && match tr.arg_sharing_flags {
            Some(sh) => !has_flag(sh@, "MAP_PRIVATE"@),
            None => true,
        },
        None => false,
    }
}

/// Whether a mapping records a read: it is readable.
pub open spec fn mmap_reads(tr: AuditEvent) -> bool {
    match tr.arg_mem_flags {
        Some(flags) => has_flag(flags@, "PROT_READ"@),
        None => false,
    }
}

/// A known descriptor path: any but `<unknown>`.
pub open spec fn known_path(p: Option<String>) -> Option<Seq<char>> {
    match p {
        Some(s) => if s@ == "<unknown>"@ {
            None
        } else {
            Some(s@)
        },
        None => None,
    }
}

/// What the record asks of the model, or the first field it lacks, given
/// whether the record's process is still thin.
pub open spec fn plan_spec(tr: AuditEvent, thin: bool) -> Result<AuditActionV, Seq<char>> {
    match audit_kind(tr.event@) {
        AuditKind::Accept => match tr.arg_objuuid1 {
            None => Err("arg_objuuid1"@),
            Some(l) => match tr.ret_objuuid1 {
                None => Err("ret_objuuid1"@),
                Some(r) => match tr.upath1 {
                    Some(p) => Ok(AuditActionV::Accept {
                        listen: l,
                        remote: r,
                        init: Some(SocketInitV { class: SocketClass::AfUnix, path: p@, ip: Seq::empty(), port: 0 }),
                    }),
                    None => match tr.port {
                        Some(prt) => match tr.address {
                            None => Err("address"@),
                            Some(a) => Ok(AuditActionV::Accept {
                                listen: l,
                                remote: r,
                                init: Some(SocketInitV { class: SocketClass::AfInet, path: Seq::empty(), ip: a@, port: prt }),
                            }),
                        },
                        None => Ok(AuditActionV::Accept { listen: l, remote: r, init: None }),
                    },
                },
            },
        },
        AuditKind::Bind => match tr.arg_objuuid1 {
            None => Err("arg_objuuid1"@),
            Some(u) => Ok(AuditActionV::Bind(u)),
        },
        AuditKind::Chdir => match tr.arg_objuuid1 {
            None => Err("arg_objuuid1"@),
            Some(u) => Ok(AuditActionV::Chdir { dir: u, path: opt_view(tr.upath1) }),
        },
        AuditKind::Chmod => match tr.arg_objuuid1 {
            None => Err("arg_objuuid1"@),
            Some(u) => match tr.upath1 {
                None => Err("upath1"@),
                Some(p) => Ok(AuditActionV::ChSink { file: u, path: p@ }),
            },
        },
        AuditKind::Close => Ok(AuditActionV::Close(tr.arg_objuuid1)),
        AuditKind::Connect => match tr.arg_objuuid1 {
            None => Err("arg_objuuid1"@),
            Some(u) => Ok(AuditActionV::Connect(u)),
        },
        AuditKind::Exec => match tr.cmdline {
            None => Err("cmdline"@),
            Some(c) => match tr.arg_objuuid1 {
                None => Err("arg_objuuid1"@),
                Some(b) => match tr.upath1 {
                    None => Err("upath1"@),
                    Some(bn) => match tr.arg_objuuid2 {
                        None => Err("arg_objuuid2"@),
                        Some(l) => match tr.upath2 {
                            None => Err("upath2"@),
                            Some(ln) => if thin {
                                Ok(AuditActionV::ExecThin { cmdline: c@, bin: b, binname: bn@, ld: l, ldname: ln@ })
                            } else {
                                Ok(AuditActionV::ExecNew {
                                    pid: tr.pid,
                                    cmdline: c@,
                                    thin: false,
                                    bin: b,
                                    binname: bn@,
                                    ld: l,
                                    ldname: ln@,
                                })
                            },
                        },
                    },
                },
            },
        },
        AuditKind::Exit => Ok(AuditActionV::Exit(tr.subjprocuuid)),
        AuditKind::Fork => match tr.ret_objuuid1 {
            None => Err("ret_objuuid1"@),
            Some(c) => Ok(AuditActionV::Fork { child: c, pid: tr.retval }),
        },
        AuditKind::FSink => match tr.arg_objuuid1 {
            None => Err("arg_objuuid1"@),
            Some(u) => Ok(AuditActionV::FSink(u)),
        },
        AuditKind::Listen => match tr.arg_objuuid1 {
            None => Err("arg_objuuid1"@),
            Some(u) => Ok(AuditActionV::Listen(u)),
        },
        AuditKind::Mmap => match tr.arg_objuuid1 {
            None => Err("arg_objuuid1"@),
            Some(u) => Ok(AuditActionV::Mmap {
                file: u,
                path: opt_view(tr.fdpath),
                sinkstart: mmap_writes(tr),
                source: mmap_reads(tr),
            }),
        },
        AuditKind::Open => match tr.ret_objuuid1 {
            None => Ok(AuditActionV::Open(None)),
            Some(u) => match tr.upath1 {
                None => Err("upath1"@),
                Some(p) => Ok(AuditActionV::Open(Some((u, p@)))),
            },
        },
        AuditKind::Pipe => match tr.ret_objuuid1 {
            None => Err("ret_objuuid1"@),
            Some(p1) => match tr.ret_fd1 {
                None => Err("ret_fd1"@),
                Some(fd1) => match tr.ret_objuuid2 {
                    None => Err("ret_objuuid2"@),
                    Some(p2) => match tr.ret_fd2 {
                        None => Err("ret_fd2"@),
                        Some(fd2) => Ok(AuditActionV::Pipe { p1, fd1, p2, fd2 }),
                    },
                },
            },
        },
        AuditKind::Openpt => match tr.ret_objuuid1 {
            None => Err("ret_objuuid1"@),
            Some(u) => Ok(AuditActionV::Openpt(u)),
        },
        AuditKind::Read => match tr.arg_objuuid1 {
            None => Err("arg_objuuid1"@),
            Some(u) => Ok(AuditActionV::Read { file: u, path: known_path(tr.fdpath), bytes: tr.retval as u64 }),
        },
        AuditKind::Recv => match tr.arg_objuuid1 {
            None => Err("arg_objuuid1"@),
            Some(u) => Ok(AuditActionV::Recv(u)),
        },
        AuditKind::Send => match tr.arg_objuuid1 {
            None => Err("arg_objuuid1"@),
            Some(u) => Ok(AuditActionV::Send(u)),
        },
        AuditKind::Socket => match tr.ret_objuuid1 {
            None => Err("ret_objuuid1"@),
            Some(u) => Ok(AuditActionV::Socket(u)),
        },
        AuditKind::SocketPair => match tr.ret_objuuid1 {
            None => Err("ret_objuuid1"@),
            Some(a) => match tr.ret_objuuid2 {
                None => Err("ret_objuuid2"@),
                Some(b) => Ok(AuditActionV::SocketPair(a, b)),
            },
        },
        AuditKind::Write => match tr.arg_objuuid1 {
            None => Err("arg_objuuid1"@),
            Some(u) => Ok(AuditActionV::Write { file: u, path: known_path(tr.fdpath), bytes: tr.retval as u64 }),
        },
        AuditKind::Ignored => Ok(AuditActionV::Ignore),
        AuditKind::Other => Ok(AuditActionV::Unparsed(tr.event@)),
    }
}

/// Whether an exec result agrees with its spec form.
pub open spec fn plan_agrees(r: Result<AuditAction, PVMError>, s: Result<AuditActionV, Seq<char>>, tr: AuditEvent) -> bool {
    match (r, s) {
        (Ok(a), Ok(v)) => a@ == v,
        (Err(e), Err(f)) => is_missing(e, tr, f),
        _ => false,
    }
}

fn plan_accept(tr: &AuditEvent) -> (r: Result<AuditAction, PVMError>)
    requires
        audit_kind(tr.event@) == AuditKind::Accept,
    ensures
        plan_agrees(r, plan_spec(*tr, true), *tr),
{
    let l = match tr.arg_objuuid1 {
        Some(u) => u,
        None => return Err(missing(tr, "arg_objuuid1")),
    };
    let r = match tr.ret_objuuid1 {
        Some(u) => u,
        None => return Err(missing(tr, "ret_objuuid1")),
    };
    match &tr.upath1 {
        Some(p) => {
            let init = SocketInit { class: SocketClass::AfUnix, path: p.clone(), port: 0, ip: empty_string() };
            Ok(AuditAction::Accept { listen: l, remote: r, init: Some(init) })
        },
        None => match tr.port {
            Some(prt) => match &tr.address {
                None => Err(missing(tr, "address")),
                Some(a) => {
                    let init = SocketInit { class: SocketClass::AfInet, path: empty_string(), port: prt, ip: a.clone() };
                    Ok(AuditAction::Accept { listen: l, remote: r, init: Some(init) })
                },
            },
            None => Ok(AuditAction::Accept { listen: l, remote: r, init: None }),
        },
    }
}

fn plan_exec(tr: &AuditEvent, thin: bool) -> (r: Result<AuditAction, PVMError>)
    requires
        audit_kind(tr.event@) == AuditKind::Exec,
    ensures
        plan_agrees(r, plan_spec(*tr, thin), *tr),
{
    let cmdline = match &tr.cmdline {
        Some(c) => c.clone(),
        None => return Err(missing(tr, "cmdline")),
    };
    let bin = match tr.arg_objuuid1 {
        Some(u) => u,
        None => return Err(missing(tr, "arg_objuuid1")),
    };
    let binname = match &tr.upath1 {
        Some(p) => p.clone(),
        None => return Err(missing(tr, "upath1")),
    };
    let ld = match tr.arg_objuuid2 {
        Some(u) => u,
        None => return Err(missing(tr, "arg_objuuid2")),
    };
    let ldname = match &tr.upath2 {
        Some(p) => p.clone(),
        None => return Err(missing(tr, "upath2")),
    };
    if thin {
        Ok(AuditAction::ExecThin { cmdline, bin, binname, ld, ldname })
    } else {
        Ok(AuditAction::ExecNew { init: ProcessInit { pid: tr.pid, cmdline, thin: false }, bin, binname, ld, ldname })
    }
}

fn plan_pipe(tr: &AuditEvent) -> (r: Result<AuditAction, PVMError>)
    requires
        audit_kind(tr.event@) == AuditKind::Pipe,
    ensures
        plan_agrees(r, plan_spec(*tr, true), *tr),
{
    let p1 = match tr.ret_objuuid1 {
        Some(u) => u,
        None => return Err(missing(tr, "ret_objuuid1")),
    };
    let fd1 = match tr.ret_fd1 {
        Some(u) => u,
        None => return Err(missing(tr, "ret_fd1")),
    };
    let p2 = match tr.ret_objuuid2 {
        Some(u) => u,
        None => return Err(missing(tr, "ret_objuuid2")),
    };
    let fd2 = match tr.ret_fd2 {
        Some(u) => u,
        None => return Err(missing(tr, "ret_fd2")),
    };
    Ok(AuditAction::Pipe { p1, fd1, p2, fd2 })
}

fn plan_mmap(tr: &AuditEvent) -> (r: Result<AuditAction, PVMError>)
    requires
        audit_kind(tr.event@) == AuditKind::Mmap,
    ensures
        plan_agrees(r, plan_spec(*tr, true), *tr),
{
    let file = match tr.arg_objuuid1 {
        Some(u) => u,
        None => return Err(missing(tr, "arg_objuuid1")),
    };
    let (sinkstart, source) = match &tr.arg_mem_flags {
        Some(flags) => {
            let w = if contains_flag(flags, "PROT_WRITE") {
                match &tr.arg_sharing_flags {
                    Some(sh) => !contains_flag(sh, "MAP_PRIVATE"),
                    None => true,
                }
            } else {
                false
            };
            (w, contains_flag(flags, "PROT_READ"))
        },
        None => (false, false),
    };
    Ok(AuditAction::Mmap { file, path: opt_text(&tr.fdpath), sinkstart, source })
}

fn known_fdpath(tr: &AuditEvent) -> (r: Option<String>)
    ensures
        opt_view(r) == known_path(tr.fdpath),
{
    match &tr.fdpath {
        Some(p) => if same_text(p.as_str(), "<unknown>") {
            None
        } else {
            Some(p.clone())
        },
        None => None,
    }
}

/// A thin process that loaded a program: it takes the command line and is
/// thin no more.
pub fn exec_in_place(pro: &mut Process, cmdline: String)
    ensures
        final(pro).cmdline@ == cmdline@,
        !final(pro).thin,
        final(pro).db_id == old(pro).db_id,
        final(pro).uuid == old(pro).uuid,
        final(pro).pid == old(pro).pid,
{
    pro.cmdline = cmdline;
    pro.thin = false;
}

/// A forked child: it takes the returned pid and the parent's command line,
/// and is thin.
pub fn fork_child(ch: &mut Process, parent: &Process, pid: i32)
    ensures
        final(ch).pid == pid,
        final(ch).cmdline@ == parent.cmdline@,
        final(ch).thin,
        final(ch).db_id == old(ch).db_id,
        final(ch).uuid == old(ch).uuid,
{
    ch.pid = pid;
    ch.cmdline = parent.cmdline.clone();
    ch.thin = true;
}

/// What an audit record asks of the provenance model, given whether the
/// record's process (declared first, see [`process_decl`]) is still thin;
/// or the first field the event needs that the record lacks.
pub fn audit_plan(tr: &AuditEvent, thin: bool) -> (r: Result<AuditAction, PVMError>)
    ensures
        plan_agrees(r, plan_spec(*tr, thin), *tr),
{
    let k = audit_kind_of(tr.event.as_str());
    match k {
        AuditKind::Accept => plan_accept(tr),
        AuditKind::Bind => match tr.arg_objuuid1 {
            Some(u) => Ok(AuditAction::Bind(u)),
            None => Err(missing(tr, "arg_objuuid1")),
        },
        AuditKind::Chdir => match tr.arg_objuuid1 {
            Some(u) => Ok(AuditAction::Chdir { dir: u, path: opt_text(&tr.upath1) }),
            None => Err(missing(tr, "arg_objuuid1")),
        },
        AuditKind::Chmod => match tr.arg_objuuid1 {
            Some(u) => match &tr.upath1 {
                Some(p) => Ok(AuditAction::ChSink { file: u, path: p.clone() }),
                None => Err(missing(tr, "upath1")),
            },
            None => Err(missing(tr, "arg_objuuid1")),
        },
        AuditKind::Close => Ok(AuditAction::Close(tr.arg_objuuid1)),
        AuditKind::Connect => match tr.arg_objuuid1 {
            Some(u) => Ok(AuditAction::Connect(u)),
            None => Err(missing(tr, "arg_objuuid1")),
        },
        AuditKind::Exec => plan_exec(tr, thin),
        AuditKind::Exit => Ok(AuditAction::Exit(tr.subjprocuuid)),
        AuditKind::Fork => match tr.ret_objuuid1 {
            Some(c) => Ok(AuditAction::Fork { child: c, pid: tr.retval }),
            None => Err(missing(tr, "ret_objuuid1")),
        },
        AuditKind::FSink => match tr.arg_objuuid1 {
            Some(u) => Ok(AuditAction::FSink(u)),
            None => Err(missing(tr, "arg_objuuid1")),
        },
        AuditKind::Listen => match tr.arg_objuuid1 {
            Some(u) => Ok(AuditAction::Listen(u)),
            None => Err(missing(tr, "arg_objuuid1")),
        },
        AuditKind::Mmap => plan_mmap(tr),
        AuditKind::Open => match tr.ret_objuuid1 {
            None => Ok(AuditAction::Open(None)),
            Some(u) => match &tr.upath1 {
                Some(p) => Ok(AuditAction::Open(Some((u, p.clone())))),
                None => Err(missing(tr, "upath1")),
            },
        },
        AuditKind::Pipe => plan_pipe(tr),
        AuditKind::Openpt => match tr.ret_objuuid1 {
            Some(u) => Ok(AuditAction::Openpt(u)),
            None => Err(missing(tr, "ret_objuuid1")),
        },
        AuditKind::Read => match tr.arg_objuuid1 {
            Some(u) => Ok(AuditAction::Read { file: u, path: known_fdpath(tr), bytes: tr.retval as u64 }),
            None => Err(missing(tr, "arg_objuuid1")),
        },
        AuditKind::Recv => match tr.arg_objuuid1 {
            Some(u) => Ok(AuditAction::Recv(u)),
            None => Err(missing(tr, "arg_objuuid1")),
        },
        AuditKind::Send => match tr.arg_objuuid1 {
            Some(u) => Ok(AuditAction::Send(u)),
            None => Err(missing(tr, "arg_objuuid1")),
        },
        AuditKind::Socket => match tr.ret_objuuid1 {
            Some(u) => Ok(AuditAction::Socket(u)),
            None => Err(missing(tr, "ret_objuuid1")),
        },
        AuditKind::SocketPair => match tr.ret_objuuid1 {
            Some(a) => match tr.ret_objuuid2 {
                Some(b) => Ok(AuditAction::SocketPair(a, b)),
                None => Err(missing(tr, "ret_objuuid2")),
            },
            None => Err(missing(tr, "ret_objuuid1")),
        },
        AuditKind::Write => match tr.arg_objuuid1 {
            Some(u) => Ok(AuditAction::Write { file: u, path: known_fdpath(tr), bytes: tr.retval as u64 }),
            None => Err(missing(tr, "arg_objuuid1")),
        },
        AuditKind::Ignored => Ok(AuditAction::Ignore),
        AuditKind::Other => Ok(AuditAction::Unparsed(tr.event.clone())),
    }
}

} // verus!
