use vstd::prelude::*;

use crate::data::nodeid::NodeID;
use crate::data::traits::{Generable, HasID, HasUUID};
use crate::data::value::{int_prop, int_prop_in, prop_int, prop_int_in, prop_uuid, uuid_prop, Value};

verus! {

/// The initial data of a new [`Pipe`].
pub struct PipeInit {
    pub fd: i32,
}

/// One end of a traced pipe.
#[derive(Clone, Debug)]
pub struct Pipe {
    pub db_id: NodeID,
    pub uuid: u128,
    pub fd: i32,
}

/// Why a property list does not describe a pipe, if it does not: the first
/// of its fields that is missing or of the wrong kind.
pub open spec fn pipe_props_error(p: Seq<(String, Value)>) -> Option<Seq<char>> {
    if int_prop(p, "db_id"@) is None {
        Some("db_id property is missing or not an Integer"@)
    } else if uuid_prop(p, "uuid"@) is None {
        Some("uuid property is missing or not a UUID5"@)
    } else if int_prop_in(p, "fd"@, i32::MIN as int, i32::MAX as int) is None {
        Some("fd property is missing or not an Integer"@)
    } else {
        None
    }
}

/// Whether `n` is the pipe that the property list `p` describes.
pub open spec fn pipe_from(p: Seq<(String, Value)>, n: Pipe) -> bool {
    &&& pipe_props_error(p) is None
    &&& int_prop(p, "db_id"@) == Some(n.db_id.0 as int)
    &&& uuid_prop(p, "uuid"@) == Some(n.uuid)
    &&& int_prop(p, "fd"@) == Some(n.fd as int)
}

impl Pipe {
    /// Reads a pipe from its database properties.
    pub fn from_props(props: Vec<(String, Value)>) -> (r: Result<Self, &'static str>)
        ensures
            match r {
                Ok(n) => pipe_from(props@, n),
                Err(e) => pipe_props_error(props@) == Some(e@),
            },
    {
        let db_id = match prop_int(&props, "db_id") {
            Some(v) => v,
            None => return Err("db_id property is missing or not an Integer"),
        };
        let uuid = match prop_uuid(&props, "uuid") {
            Some(v) => v,
            None => return Err("uuid property is missing or not a UUID5"),
        };
        let fd = match prop_int_in(&props, "fd", i32::MIN as i64, i32::MAX as i64) {
            Some(v) => v as i32,
            None => return Err("fd property is missing or not an Integer"),
        };
        Ok(Pipe { db_id: NodeID::new(db_id), uuid, fd })
    }
}

impl HasID for Pipe {
    open spec fn spec_db_id(&self) -> NodeID {
        self.db_id
    }

    fn get_db_id(&self) -> (r: NodeID) {
        self.db_id
    }
}

impl HasUUID for Pipe {
    open spec fn spec_uuid(&self) -> u128 {
        self.uuid
    }

    fn get_uuid(&self) -> (r: u128) {
        self.uuid
    }
}

impl Generable for Pipe {
    type Init = PipeInit;

    /// Without initial data a pipe has descriptor -1.
    fn new(id: NodeID, uuid: u128, init: Option<PipeInit>) -> (r: Self)
        ensures
            match init {
                Some(i) => r.fd == i.fd,
                None => r.fd == -1,
            },
    {
        match init {
            Some(i) => Pipe { db_id: id, uuid, fd: i.fd },
            None => Pipe { db_id: id, uuid, fd: -1 },
        }
    }
}

} // verus!
