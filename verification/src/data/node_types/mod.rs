pub mod editsession;
pub mod file;
pub mod pipe;
pub mod process;
pub mod read_back;
pub mod socket;

pub use self::editsession::{EditInit, EditSession};
pub use self::file::{File, FileInit};
pub use self::pipe::{Pipe, PipeInit};
pub use self::process::{Process, ProcessInit};
pub use self::socket::{Socket, SocketClass, SocketInit};

use vstd::prelude::*;

use self::editsession::edit_session_from;
use self::file::{file_from, named_props_error};
use self::pipe::{pipe_from, pipe_props_error};
use self::process::{process_from, process_props_error};
use self::socket::{socket_from, socket_props_error};
use crate::data::gen_node::{gen_node_error, gen_node_from, gen_node_panics, string_texts, GenNode};
use crate::data::nodeid::NodeID;
use crate::data::traits::{Denumerate, Enumerable, HasID, HasUUID, ToDB};
use crate::data::value::{labels_view, props_view, Value, ValueV};
use crate::text::{same_text, to_owned};
use crate::uuid_text::{hyphenated_text, parsed_uuid, uuid_to_string};
use self::read_back::{node_uuid, written_labels, written_props};

verus! {

/// Any of the node types the database holds.
#[derive(Clone, Debug)]
pub enum EnumNode {
    Proc(Process),
    File(File),
    Pipe(Pipe),
    EditSession(EditSession),
    Socket(Socket),
}

/// Whether `l` is among the texts `labs`.
pub open spec fn has_text(labs: Seq<Seq<char>>, l: Seq<char>) -> bool {
    exists|i: int| 0 <= i < labs.len() && labs[i] == l
}

/// The labels and the properties of a value that reads as a node.
pub open spec fn node_parts(val: Value) -> (Seq<Seq<char>>, Seq<(String, Value)>) {
    match val {
        Value::Structure { fields, .. } => (
            match fields@[1] {
                Value::List(l) => string_texts(l@),
                _ => Seq::empty(),
            },
            match fields@[2] {
                Value::Dict(p) => p@,
                _ => Seq::empty(),
            },
        ),
        _ => (Seq::empty(), Seq::empty()),
    }
}

/// Why a value is not one of the known nodes, if it is not. The labels are
/// tried in the order Process, File, EditSession, Socket, Pipe.
pub open spec fn enum_node_error(val: Value) -> Option<Seq<char>> {
    if gen_node_error(val) is Some {
        gen_node_error(val)
    } else {
        let (labs, props) = node_parts(val);
        if has_text(labs, "Process"@) {
            process_props_error(props)
        } else if has_text(labs, "File"@) {
            named_props_error(props)
        } else if has_text(labs, "EditSession"@) {
            named_props_error(props)
        } else if has_text(labs, "Socket"@) {
            socket_props_error(props)
        } else if has_text(labs, "Pipe"@) {
            pipe_props_error(props)
        } else {
            Some("Node doesn't match any known type."@)
        }
    }
}

/// Whether `n` is the node that the database value `val` describes.
pub open spec fn enum_node_from(val: Value, n: EnumNode) -> bool {
    let (labs, props) = node_parts(val);
    let p = has_text(labs, "Process"@);
    let f = has_text(labs, "File"@);
    let e = has_text(labs, "EditSession"@);
    let s = has_text(labs, "Socket"@);
    match n {
        EnumNode::Proc(x) => p && process_from(props, x),
        EnumNode::File(x) => !p && f && file_from(props, x),
        EnumNode::EditSession(x) => !p && !f && e && edit_session_from(props, x),
        EnumNode::Socket(x) => !p && !f && !e && s && socket_from(props, x),
        EnumNode::Pipe(x) => !p && !f && !e && !s && has_text(labs, "Pipe"@) && pipe_from(props, x),
    }
}

fn contains_label(labs: &Vec<String>, l: &str) -> (r: bool)
    ensures
        r == has_text(labs@.map_values(|s: String| s@), l@),
{
    let ghost texts = labs@.map_values(|s: String| s@);
    let mut i: usize = 0;
    while i < labs.len()
        invariant
            0 <= i <= labs.len(),
            texts == labs@.map_values(|s: String| s@),
            forall|j: int| 0 <= j < i ==> texts[j] != l@,
        decreases labs.len() - i,
    {
        if same_text(labs[i].as_str(), l) {
            assert(texts[i as int] == l@);
            return true;
        }
        i = i + 1;
    }
    false
}

impl EnumNode {
    /// Reads a node of any known type from a database value.
    pub fn from_db(val: Value) -> (r: Result<EnumNode, &'static str>)
        requires
            !gen_node_panics(val),
        ensures
            match r {
                Ok(n) => enum_node_error(val) is None && enum_node_from(val, n),
                Err(e) => enum_node_error(val) == Some(e@),
            },
    {
        let ghost v = val;
        let g = match GenNode::from_db(val) {
            Ok(g) => g,
            Err(e) => return Err(e),
        };
        assert(g.labs@.map_values(|s: String| s@) == node_parts(v).0);
        assert(g.props@ == node_parts(v).1);
        if contains_label(&g.labs, "Process") {
            match Process::from_props(g.props) {
                Ok(p) => Ok(EnumNode::Proc(p)),
                Err(e) => Err(e),
            }
        } else if contains_label(&g.labs, "File") {
            match File::from_props(g.props) {
                Ok(p) => Ok(EnumNode::File(p)),
                Err(e) => Err(e),
            }
        } else if contains_label(&g.labs, "EditSession") {
            match EditSession::from_props(g.props) {
                Ok(p) => Ok(EnumNode::EditSession(p)),
                Err(e) => Err(e),
            }
        } else if contains_label(&g.labs, "Socket") {
            match Socket::from_props(g.props) {
                Ok(p) => Ok(EnumNode::Socket(p)),
                Err(e) => Err(e),
            }
        } else if contains_label(&g.labs, "Pipe") {
            match Pipe::from_props(g.props) {
                Ok(p) => Ok(EnumNode::Pipe(p)),
                Err(e) => Err(e),
            }
        } else {
            Err("Node doesn't match any known type.")
        }
    }

    /// The node's identifier, labels and properties as they are written to the
    /// database: the type's properties followed by `db_id` and `uuid`.
    pub fn to_db(&self) -> (r: (NodeID, Vec<&'static str>, Vec<(String, Value)>))
        ensures
            r.0 == self.spec_db_id(),
            labels_view(r.1@) == self.spec_labels(),
            props_view(r.2@) == self.spec_props() + seq![
                ("db_id"@, ValueV::Integer(self.spec_db_id().0 as int)),
                ("uuid"@, ValueV::Str(hyphenated_text(self.spec_uuid()))),
            ],
            labels_view(r.1@) == written_labels(*self),
            props_view(r.2@) == written_props(*self),
            node_uuid(*self) == self.spec_uuid(),
            parsed_uuid(hyphenated_text(self.spec_uuid())) == Some(self.spec_uuid()),
    {
        let mut props = self.get_props();
        let ghost p0 = props@;
        let id = self.get_db_id();
        props.push((to_owned("db_id"), Value::Integer(id.0)));
        props.push((to_owned("uuid"), Value::String(uuid_to_string(self.get_uuid()))));
        assert(props_view(props@) =~= props_view(p0) + seq![
            ("db_id"@, ValueV::Integer(self.spec_db_id().0 as int)),
            ("uuid"@, ValueV::Str(hyphenated_text(self.spec_uuid()))),
        ]);
        let labels = self.get_labels();
        assert(written_props(*self) =~= self.spec_props() + seq![
            ("db_id"@, ValueV::Integer(self.spec_db_id().0 as int)),
            ("uuid"@, ValueV::Str(hyphenated_text(self.spec_uuid()))),
        ]);
        (id, labels, props)
    }
}

impl HasID for EnumNode {
    open spec fn spec_db_id(&self) -> NodeID {
        match self {
            EnumNode::Proc(p) => p.db_id,
            EnumNode::Pipe(p) => p.db_id,
            EnumNode::EditSession(e) => e.db_id,
            EnumNode::File(f) => f.db_id,
            EnumNode::Socket(s) => s.db_id,
        }
    }

    fn get_db_id(&self) -> (r: NodeID) {
        match self {
            EnumNode::Proc(p) => p.get_db_id(),
            EnumNode::Pipe(p) => p.get_db_id(),
            EnumNode::EditSession(e) => e.get_db_id(),
            EnumNode::File(f) => f.get_db_id(),
            EnumNode::Socket(s) => s.get_db_id(),
        }
    }
}

impl HasUUID for EnumNode {
    open spec fn spec_uuid(&self) -> u128 {
        match self {
            EnumNode::Proc(p) => p.uuid,
            EnumNode::Pipe(p) => p.uuid,
            EnumNode::EditSession(e) => e.uuid,
            EnumNode::File(f) => f.uuid,
            EnumNode::Socket(s) => s.uuid,
        }
    }

    fn get_uuid(&self) -> (r: u128) {
        match self {
            EnumNode::Proc(p) => p.get_uuid(),
            EnumNode::Pipe(p) => p.get_uuid(),
            EnumNode::EditSession(e) => e.get_uuid(),
            EnumNode::File(f) => f.get_uuid(),
            EnumNode::Socket(s) => s.get_uuid(),
        }
    }
}

impl ToDB for EnumNode {
    open spec fn spec_labels(&self) -> Seq<Seq<char>> {
        match self {
            EnumNode::EditSession(_) => seq!["Node"@, "EditSession"@],
            EnumNode::File(_) => seq!["Node"@, "File"@],
            EnumNode::Pipe(_) => seq!["Node"@, "Pipe"@],
            EnumNode::Proc(_) => seq!["Node"@, "Process"@],
            EnumNode::Socket(_) => seq!["Node"@, "Socket"@],
        }
    }

    open spec fn spec_props(&self) -> Seq<(Seq<char>, ValueV)> {
        match self {
            EnumNode::EditSession(e) => seq![("name"@, ValueV::Str(e.name@))],
            EnumNode::File(f) => seq![("name"@, ValueV::Str(f.name@))],
            EnumNode::Pipe(p) => seq![("fd"@, ValueV::Integer(p.fd as int))],
            EnumNode::Proc(p) => seq![
                ("cmdline"@, ValueV::Str(p.cmdline@)),
                ("pid"@, ValueV::Integer(p.pid as int)),
                ("thin"@, ValueV::Boolean(p.thin)),
            ],
            EnumNode::Socket(s) => seq![
                ("class"@, ValueV::Integer(s.class.spec_code())),
                ("path"@, ValueV::Str(s.path@)),
                ("ip"@, ValueV::Str(s.ip@)),
                ("port"@, ValueV::Integer(s.port as int)),
            ],
        }
    }

    fn get_labels(&self) -> (r: Vec<&'static str>) {
        let second = match self {
            EnumNode::EditSession(_) => "EditSession",
            EnumNode::File(_) => "File",
            EnumNode::Pipe(_) => "Pipe",
            EnumNode::Proc(_) => "Process",
            EnumNode::Socket(_) => "Socket",
        };
        let r = vec!["Node", second];
        assert(labels_view(r@) =~= self.spec_labels());
        r
    }

    fn get_props(&self) -> (r: Vec<(String, Value)>) {
        let mut r: Vec<(String, Value)> = Vec::new();
        match self {
            EnumNode::EditSession(e) => {
                r.push((to_owned("name"), Value::String(e.name.clone())));
            },
            EnumNode::File(f) => {
                r.push((to_owned("name"), Value::String(f.name.clone())));
            },
            EnumNode::Pipe(p) => {
                r.push((to_owned("fd"), Value::Integer(p.fd as i64)));
            },
            EnumNode::Proc(p) => {
                r.push((to_owned("cmdline"), Value::String(p.cmdline.clone())));
                r.push((to_owned("pid"), Value::Integer(p.pid as i64)));
                r.push((to_owned("thin"), Value::Boolean(p.thin)));
            },
            EnumNode::Socket(s) => {
                r.push((to_owned("class"), Value::Integer(s.class.code())));
                r.push((to_owned("path"), Value::String(s.path.clone())));
                r.push((to_owned("ip"), Value::String(s.ip.clone())));
                r.push((to_owned("port"), Value::Integer(s.port as i64)));
            },
        }
        assert(props_view(r@) =~= self.spec_props());
        r
    }
}

impl Enumerable for EnumNode {
    fn enumerate(self) -> (r: EnumNode)
        ensures
            r == self,
    {
        self
    }
}

impl Enumerable for Process {
    fn enumerate(self) -> (r: EnumNode)
        ensures
            r == EnumNode::Proc(self),
    {
        EnumNode::Proc(self)
    }
}

impl Enumerable for File {
    fn enumerate(self) -> (r: EnumNode)
        ensures
            r == EnumNode::File(self),
    {
        EnumNode::File(self)
    }
}

impl Enumerable for Pipe {
    fn enumerate(self) -> (r: EnumNode)
        ensures
            r == EnumNode::Pipe(self),
    {
        EnumNode::Pipe(self)
    }
}

impl Enumerable for EditSession {
    fn enumerate(self) -> (r: EnumNode)
        ensures
            r == EnumNode::EditSession(self),
    {
        EnumNode::EditSession(self)
    }
}

impl Enumerable for Socket {
    fn enumerate(self) -> (r: EnumNode)
        ensures
            r == EnumNode::Socket(self),
    {
        EnumNode::Socket(self)
    }
}

impl Denumerate for Process {
    open spec fn holds(val: &EnumNode) -> bool {
        val is Proc
    }

    open spec fn inner(val: EnumNode) -> Self {
        val->Proc_0
    }

    open spec fn wrap(n: Self) -> EnumNode {
        EnumNode::Proc(n)
    }

    fn denumerate_mut(val: &mut EnumNode) -> (r: &mut Self) {
        match val {
            EnumNode::Proc(p) => p,
            _ => vstd::pervasive::unreached(),
        }
    }

    fn denumerate(val: &EnumNode) -> (r: &Self) {
        match val {
            EnumNode::Proc(p) => p,
            _ => vstd::pervasive::unreached(),
        }
    }
}

impl Denumerate for File {
    open spec fn holds(val: &EnumNode) -> bool {
        val is File
    }

    open spec fn inner(val: EnumNode) -> Self {
        val->File_0
    }

    open spec fn wrap(n: Self) -> EnumNode {
        EnumNode::File(n)
    }

    fn denumerate_mut(val: &mut EnumNode) -> (r: &mut Self) {
        match val {
            EnumNode::File(p) => p,
            _ => vstd::pervasive::unreached(),
        }
    }

    fn denumerate(val: &EnumNode) -> (r: &Self) {
        match val {
            EnumNode::File(p) => p,
            _ => vstd::pervasive::unreached(),
        }
    }
}

impl Denumerate for Pipe {
    open spec fn holds(val: &EnumNode) -> bool {
        val is Pipe
    }

    open spec fn inner(val: EnumNode) -> Self {
        val->Pipe_0
    }

    open spec fn wrap(n: Self) -> EnumNode {
        EnumNode::Pipe(n)
    }

    fn denumerate_mut(val: &mut EnumNode) -> (r: &mut Self) {
        match val {
            EnumNode::Pipe(p) => p,
            _ => vstd::pervasive::unreached(),
        }
    }

    fn denumerate(val: &EnumNode) -> (r: &Self) {
        match val {
            EnumNode::Pipe(p) => p,
            _ => vstd::pervasive::unreached(),
        }
    }
}

impl Denumerate for EditSession {
    open spec fn holds(val: &EnumNode) -> bool {
        val is EditSession
    }

    open spec fn inner(val: EnumNode) -> Self {
        val->EditSession_0
    }

    open spec fn wrap(n: Self) -> EnumNode {
        EnumNode::EditSession(n)
    }

    fn denumerate_mut(val: &mut EnumNode) -> (r: &mut Self) {
        match val {
            EnumNode::EditSession(p) => p,
            _ => vstd::pervasive::unreached(),
        }
    }

    fn denumerate(val: &EnumNode) -> (r: &Self) {
        match val {
            EnumNode::EditSession(p) => p,
            _ => vstd::pervasive::unreached(),
        }
    }
}

impl Denumerate for Socket {
    open spec fn holds(val: &EnumNode) -> bool {
        val is Socket
    }

    open spec fn inner(val: EnumNode) -> Self {
        val->Socket_0
    }

    open spec fn wrap(n: Self) -> EnumNode {
        EnumNode::Socket(n)
    }

    fn denumerate_mut(val: &mut EnumNode) -> (r: &mut Self) {
        match val {
            EnumNode::Socket(p) => p,
            _ => vstd::pervasive::unreached(),
        }
    }

    fn denumerate(val: &EnumNode) -> (r: &Self) {
        match val {
            EnumNode::Socket(p) => p,
            _ => vstd::pervasive::unreached(),
        }
    }
}

} // verus!
