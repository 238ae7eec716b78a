use vstd::prelude::*;

use crate::data::nodeid::NodeID;
use crate::data::traits::{Generable, HasID, HasUUID};
use crate::data::value::{int_prop, int_prop_in, prop_int, prop_int_in, prop_string, prop_uuid, str_prop, uuid_prop, Value};

verus! {

/// The address family of a socket.
#[derive(Clone, Copy, Debug, PartialEq, Eq, Structural)]
pub enum SocketClass {
    Unknown,
    AfInet,
    AfUnix,
}

impl SocketClass {
    /// The number the class is stored as: 0, 1 and 2 in declaration order.
    pub open spec fn spec_code(self) -> int {
        match self {
            SocketClass::Unknown => 0,
            SocketClass::AfInet => 1,
            SocketClass::AfUnix => 2,
        }
    }

    /// The number the class is stored as.
    pub fn code(self) -> (r: i64)
        ensures
            r == self.spec_code(),
    {
        match self {
            SocketClass::Unknown => 0,
            SocketClass::AfInet => 1,
            SocketClass::AfUnix => 2,
        }
    }
}

/// The class stored as `val`, if `val` is the code of one.
pub open spec fn spec_sock_class(val: int) -> Option<SocketClass> {
    if val == 0 {
        Some(SocketClass::Unknown)
    } else if val == 1 {
        Some(SocketClass::AfInet)
    } else if val == 2 {
        Some(SocketClass::AfUnix)
    } else {
        None
    }
}

/// The class stored as `val`, if `val` is the code of one.
pub fn int_to_sock_class(val: i64) -> (r: Option<SocketClass>)
    ensures
        r == spec_sock_class(val as int),
        r matches Some(c) ==> c.spec_code() == val,
{
    match val {
        0 => Some(SocketClass::Unknown),
        1 => Some(SocketClass::AfInet),
        2 => Some(SocketClass::AfUnix),
        _ => None,
    }
}

/// A traced socket.
#[derive(Clone, Debug)]
pub struct Socket {
    pub db_id: NodeID,
    pub uuid: u128,
    pub class: SocketClass,
    pub path: String,
    pub ip: String,
    pub port: u16,
}

/// The initial data of a new [`Socket`].
pub struct SocketInit {
    pub class: SocketClass,
    pub path: String,
    pub ip: String,
    pub port: u16,
}

/// The class stored under `class`, if it is the code of a class.
pub open spec fn class_prop(p: Seq<(String, Value)>) -> Option<SocketClass> {
    match int_prop(p, "class"@) {
        Some(i) => spec_sock_class(i),
        None => None,
    }
}

/// Why a property list does not describe a socket, if it does not: the
/// first of its fields that is missing or of the wrong kind.
pub open spec fn socket_props_error(p: Seq<(String, Value)>) -> Option<Seq<char>> {
    if int_prop(p, "db_id"@) is None {
        Some("db_id property is missing or not an Integer"@)
    } else if uuid_prop(p, "uuid"@) is None {
        Some("uuid property is missing or not a UUID5"@)
    } else if class_prop(p) is None {
        Some("class property is missing or not an Integer"@)
    } else if str_prop(p, "path"@) is None {
        Some("path property is missing or not a string"@)
    } else if str_prop(p, "ip"@) is None {
        Some("ip property is missing or not a string"@)
    } else if int_prop_in(p, "port"@, 0, u16::MAX as int) is None {
        Some("port property is missing or not an Integer"@)
    } else {
        None
    }
}

/// Whether `n` is the socket that the property list `p` describes.
pub open spec fn socket_from(p: Seq<(String, Value)>, n: Socket) -> bool {
    &&& socket_props_error(p) is None
    &&& int_prop(p, "db_id"@) == Some(n.db_id.0 as int)
    &&& uuid_prop(p, "uuid"@) == Some(n.uuid)
    &&& class_prop(p) == Some(n.class)
    &&& str_prop(p, "path"@) == Some(n.path@)
    &&& str_prop(p, "ip"@) == Some(n.ip@)
    &&& int_prop(p, "port"@) == Some(n.port as int)
}

impl Socket {
    /// Reads a socket from its database properties.
    pub fn from_props(props: Vec<(String, Value)>) -> (r: Result<Self, &'static str>)
        ensures
            match r {
                Ok(n) => socket_from(props@, n),
                Err(e) => socket_props_error(props@) == Some(e@),
            },
    {
        let db_id = match prop_int(&props, "db_id") {
            Some(v) => v,
            None => return Err("db_id property is missing or not an Integer"),
        };
        let uuid = match prop_uuid(&props, "uuid") {
            Some(v) => v,
            None => return Err("uuid property is missing or not a UUID5"),
        };
        let class = match prop_int(&props, "class") {
            Some(v) => match int_to_sock_class(v) {
                Some(c) => c,
                None => return Err("class property is missing or not an Integer"),
            },
            None => return Err("class property is missing or not an Integer"),
        };
        let path = match prop_string(&props, "path") {
            Some(v) => v,
            None => return Err("path property is missing or not a string"),
        };
        let ip = match prop_string(&props, "ip") {
            Some(v) => v,
            None => return Err("ip property is missing or not a string"),
        };
        let port = match prop_int_in(&props, "port", 0, u16::MAX as i64) {
            Some(v) => v as u16,
            None => return Err("port property is missing or not an Integer"),
        };
        Ok(Socket { db_id: NodeID::new(db_id), uuid, class, path, ip, port })
    }
}

impl HasID for Socket {
    open spec fn spec_db_id(&self) -> NodeID {
        self.db_id
    }

    fn get_db_id(&self) -> (r: NodeID) {
        self.db_id
    }
}

impl HasUUID for Socket {
    open spec fn spec_uuid(&self) -> u128 {
        self.uuid
    }

    fn get_uuid(&self) -> (r: u128) {
        self.uuid
    }
}

impl Generable for Socket {
    type Init = SocketInit;

    /// Without initial data a socket is of unknown class, with empty path and
    /// address and port 0.
    fn new(id: NodeID, uuid: u128, init: Option<SocketInit>) -> (r: Self)
        ensures
            match init {
                Some(i) => r.class == i.class && r.path == i.path && r.ip == i.ip && r.port
                    == i.port,
                None => r.class == SocketClass::Unknown && r.path@ == Seq::<char>::empty()
                    && r.ip@ == Seq::<char>::empty() && r.port == 0,
            },
    {
        match init {
            Some(add) => Socket {
                db_id: id,
                uuid,
                class: add.class,
                path: add.path,
                ip: add.ip,
                port: add.port,
            },
            None => Socket {
                db_id: id,
                uuid,
                class: SocketClass::Unknown,
                path: String::new(),
                ip: String::new(),
                port: 0,
            },
        }
    }
}

} // verus!
