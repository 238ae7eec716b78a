use vstd::prelude::*;

use crate::data::nodeid::NodeID;
use crate::data::traits::{Generable, HasID, HasUUID};
use crate::data::value::{int_prop, str_prop, uuid_prop, Value};
use super::file::{named_from_props, named_props_error};

verus! {

/// A span during which a file is open for writing.
#[derive(Clone, Debug)]
pub struct EditSession {
    pub db_id: NodeID,
    pub uuid: u128,
    pub name: String,
}

/// The initial data of a new [`EditSession`].
pub struct EditInit {
    pub name: String,
}

/// Whether `n` is the edit session that the property list `p` describes.
pub open spec fn edit_session_from(p: Seq<(String, Value)>, n: EditSession) -> bool {
    &&& named_props_error(p) is None
    &&& int_prop(p, "db_id"@) == Some(n.db_id.0 as int)
    &&& uuid_prop(p, "uuid"@) == Some(n.uuid)
    &&& str_prop(p, "name"@) == Some(n.name@)
}

impl EditSession {
    /// Reads an edit session from its database properties.
    pub fn from_props(props: Vec<(String, Value)>) -> (r: Result<Self, &'static str>)
        ensures
            match r {
                Ok(n) => edit_session_from(props@, n),
                Err(e) => named_props_error(props@) == Some(e@),
            },
    {
        match named_from_props(&props) {
            Ok((db_id, uuid, name)) => Ok(EditSession { db_id, uuid, name }),
            Err(e) => Err(e),
        }
    }
}

impl HasID for EditSession {
    open spec fn spec_db_id(&self) -> NodeID {
        self.db_id
    }

    fn get_db_id(&self) -> (r: NodeID) {
        self.db_id
    }
}

impl HasUUID for EditSession {
    open spec fn spec_uuid(&self) -> u128 {
        self.uuid
    }

    fn get_uuid(&self) -> (r: u128) {
        self.uuid
    }
}

impl Generable for EditSession {
    type Init = EditInit;

    /// Without initial data an edit session has an empty name.
    fn new(id: NodeID, uuid: u128, init: Option<EditInit>) -> (r: Self)
        ensures
            match init {
                Some(i) => r.name == i.name,
                None => r.name@ == Seq::<char>::empty(),
            },
    {
        match init {
            Some(i) => EditSession { db_id: id, uuid, name: i.name },
            None => EditSession { db_id: id, uuid, name: String::new() },
        }
    }
}

} // verus!
