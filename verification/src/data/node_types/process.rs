use vstd::prelude::*;

use crate::data::nodeid::NodeID;
use crate::data::traits::{Generable, HasID, HasUUID};
use crate::data::value::{bool_prop, int_prop, int_prop_in, prop_bool, prop_int, prop_int_in, prop_string, prop_uuid, str_prop, uuid_prop, Value};

verus! {

/// A traced process.
#[derive(Clone, Debug)]
pub struct Process {
    pub db_id: NodeID,
    pub uuid: u128,
    pub pid: i32,
    pub cmdline: String,
    pub thin: bool,
}

/// The initial data of a new [`Process`].
pub struct ProcessInit {
    pub pid: i32,
    pub cmdline: String,
    pub thin: bool,
}

impl HasID for Process {
    open spec fn spec_db_id(&self) -> NodeID {
        self.db_id
    }

    fn get_db_id(&self) -> (r: NodeID) {
        self.db_id
    }
}

impl HasUUID for Process {
    open spec fn spec_uuid(&self) -> u128 {
        self.uuid
    }

    fn get_uuid(&self) -> (r: u128) {
        self.uuid
    }
}

impl Generable for Process {
    type Init = ProcessInit;

    /// Without initial data a process has pid 0, an empty command line and is thin.
    fn new(id: NodeID, uuid: u128, init: Option<ProcessInit>) -> (r: Self)
        ensures
            match init {
                Some(i) => r.pid == i.pid && r.cmdline == i.cmdline && r.thin == i.thin,
                None => r.pid == 0 && r.cmdline@ == Seq::<char>::empty() && r.thin,
            },
    {
        match init {
            Some(i) => Process { db_id: id, uuid, cmdline: i.cmdline, pid: i.pid, thin: i.thin },
            None => Process { db_id: id, uuid, cmdline: String::new(), pid: 0, thin: true },
        }
    }
}

/// Why a property list does not describe a process, if it does not:
/// the first of its fields that is missing or of the wrong kind.
pub open spec fn process_props_error(p: Seq<(String, Value)>) -> Option<Seq<char>> {
    if int_prop(p, "db_id"@) is None {
        Some("db_id property is missing or not an Integer"@)
    } else if uuid_prop(p, "uuid"@) is None {
        Some("uuid property is missing or not a UUID5"@)
    } else if str_prop(p, "cmdline"@) is None {
        Some("cmdline property is missing or not a String"@)
    } else if int_prop_in(p, "pid"@, i32::MIN as int, i32::MAX as int) is None {
        Some("pid property is missing or not an Integer"@)
    } else if bool_prop(p, "thin"@) is None {
        Some("thin property is missing or not a bool"@)
    } else {
        None
    }
}

/// Whether `n` is the process that the property list `p` describes.
pub open spec fn process_from(p: Seq<(String, Value)>, n: Process) -> bool {
    &&& process_props_error(p) is None
    &&& int_prop(p, "db_id"@) == Some(n.db_id.0 as int)
    &&& uuid_prop(p, "uuid"@) == Some(n.uuid)
    &&& str_prop(p, "cmdline"@) == Some(n.cmdline@)
    &&& int_prop(p, "pid"@) == Some(n.pid as int)
    &&& bool_prop(p, "thin"@) == Some(n.thin)
}

impl Process {
    /// Reads a process from its database properties.
    pub fn from_props(props: Vec<(String, Value)>) -> (r: Result<Self, &'static str>)
        ensures
            match r {
                Ok(n) => process_from(props@, n),
                Err(e) => process_props_error(props@) == Some(e@),
            },
    {
        let db_id = match prop_int(&props, "db_id") {
            Some(v) => v,
            None => return Err("db_id property is missing or not an Integer"),
        };
        let uuid = match prop_uuid(&props, "uuid") {
            Some(v) => v,
            None => return Err("uuid property is missing or not a UUID5"),
        };
        let cmdline = match prop_string(&props, "cmdline") {
            Some(v) => v,
            None => return Err("cmdline property is missing or not a String"),
        };
        let pid = match prop_int_in(&props, "pid", i32::MIN as i64, i32::MAX as i64) {
            Some(v) => v as i32,
            None => return Err("pid property is missing or not an Integer"),
        };
        let thin = match prop_bool(&props, "thin") {
            Some(v) => v,
            None => return Err("thin property is missing or not a bool"),
        };
        Ok(Process { db_id: NodeID::new(db_id), uuid, pid, cmdline, thin })
    }
}

} // verus!
