//! Trace records as the tracer emits them, with UUIDs held as their 128-bit
//! value and times as nanoseconds since the epoch.
pub mod clearscope;

use vstd::prelude::*;

verus! {

/// One record of the audit trace.
pub struct AuditEvent {
    pub event: String,
    pub host: Option<u128>,
    pub time: i64,
    pub pid: i32,
    pub ppid: i32,
    pub tid: i32,
    pub uid: i32,
    pub cpu_id: Option<i32>,
    pub exe: String,
    pub cmdline: Option<String>,
    pub upath1: Option<String>,
    pub upath2: Option<String>,
    pub fd: Option<i32>,
    pub flags: Option<i32>,
    pub fdpath: Option<String>,
    pub subjprocuuid: u128,
    pub subjthruuid: u128,
    pub arg_objuuid1: Option<u128>,
    pub arg_objuuid2: Option<u128>,
    pub ret_objuuid1: Option<u128>,
    pub ret_objuuid2: Option<u128>,
    pub retval: i32,
    pub ret_fd1: Option<i32>,
    pub ret_fd2: Option<i32>,
    pub arg_mem_flags: Option<Vec<String>>,
    pub arg_sharing_flags: Option<Vec<String>>,
    pub address: Option<String>,
    pub port: Option<u16>,
}

/// One record of the kernel function-boundary trace.
pub struct FBTEvent {
    pub event: String,
    pub host: u128,
    pub time: i64,
    pub so_uuid: u128,
    pub lport: i32,
    pub fport: i32,
    pub laddr: String,
    pub faddr: String,
}

/// A trace record of either kind.
pub enum TraceEvent {
    Audit(Box<AuditEvent>),
    FBT(FBTEvent),
}

} // verus!
