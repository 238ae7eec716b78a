use vstd::prelude::*;

use crate::data::nodeid::NodeID;
use crate::data::traits::{Generable, HasID, HasUUID};
use crate::data::value::{int_prop, prop_int, prop_string, prop_uuid, str_prop, uuid_prop, Value};

verus! {

/// The initial data of a new [`File`].
pub struct FileInit {
    pub name: String,
}

/// A traced file.
#[derive(Clone, Debug)]
pub struct File {
    pub db_id: NodeID,
    pub uuid: u128,
    pub name: String,
}

/// Why a property list does not describe a file or an edit session, if it
/// does not: the first of its fields that is missing or of the wrong kind.
pub open spec fn named_props_error(p: Seq<(String, Value)>) -> Option<Seq<char>> {
    if int_prop(p, "db_id"@) is None {
        Some("db_id property is missing or not an Integer"@)
    } else if uuid_prop(p, "uuid"@) is None {
        Some("uuid property is missing or not a UUID5"@)
    } else if str_prop(p, "name"@) is None {
        Some("name property is missing or not a string"@)
    } else {
        None
    }
}

/// Reads the identifier, UUID and name common to files and edit sessions.
pub fn named_from_props(props: &Vec<(String, Value)>) -> (r: Result<(NodeID, u128, String), &'static str>)
    ensures
        match r {
            Ok((id, uuid, name)) => {
                &&& named_props_error(props@) is None
                &&& int_prop(props@, "db_id"@) == Some(id.0 as int)
                &&& uuid_prop(props@, "uuid"@) == Some(uuid)
                &&& str_prop(props@, "name"@) == Some(name@)
            },
            Err(e) => named_props_error(props@) == Some(e@),
        },
{
    let db_id = match prop_int(props, "db_id") {
        Some(v) => v,
        None => return Err("db_id property is missing or not an Integer"),
    };
    let uuid = match prop_uuid(props, "uuid") {
        Some(v) => v,
        None => return Err("uuid property is missing or not a UUID5"),
    };
    let name = match prop_string(props, "name") {
        Some(v) => v,
        None => return Err("name property is missing or not a string"),
    };
    Ok((NodeID::new(db_id), uuid, name))
}

/// Whether `n` is the file that the property list `p` describes.
pub open spec fn file_from(p: Seq<(String, Value)>, n: File) -> bool {
    &&& named_props_error(p) is None
    &&& int_prop(p, "db_id"@) == Some(n.db_id.0 as int)
    &&& uuid_prop(p, "uuid"@) == Some(n.uuid)
    &&& str_prop(p, "name"@) == Some(n.name@)
}

impl File {
    /// Reads a file from its database properties.
    pub fn from_props(props: Vec<(String, Value)>) -> (r: Result<Self, &'static str>)
        ensures
            match r {
                Ok(n) => file_from(props@, n),
                Err(e) => named_props_error(props@) == Some(e@),
            },
    {
        match named_from_props(&props) {
            Ok((db_id, uuid, name)) => Ok(File { db_id, uuid, name }),
            Err(e) => Err(e),
        }
    }
}

impl HasID for File {
    open spec fn spec_db_id(&self) -> NodeID {
        self.db_id
    }

    fn get_db_id(&self) -> (r: NodeID) {
        self.db_id
    }
}

impl HasUUID for File {
    open spec fn spec_uuid(&self) -> u128 {
        self.uuid
    }

    fn get_uuid(&self) -> (r: u128) {
        self.uuid
    }
}

impl Generable for File {
    type Init = FileInit;

    /// Without initial data a file has an empty name.
    fn new(id: NodeID, uuid: u128, init: Option<FileInit>) -> (r: Self)
        ensures
            match init {
                Some(i) => r.name == i.name,
                None => r.name@ == Seq::<char>::empty(),
            },
    {
        match init {
            Some(i) => File { db_id: id, uuid, name: i.name },
            None => File { db_id: id, uuid, name: String::new() },
        }
    }
}

} // verus!
