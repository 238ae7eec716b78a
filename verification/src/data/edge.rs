use vstd::prelude::*;

use super::nodeid::NodeID;
use super::value::{lookup, take_prop, props_view, Value, ValueV};
use crate::text::{same_text, to_owned};

verus! {

/// A link from one process node to another.
#[derive(Clone, Copy, Debug, PartialEq, Eq, Structural)]
pub enum Edge {
    Child(NodeID),
    Next(NodeID),
}

/// The inputs on which reading an edge gives up instead of failing: a
/// structure that is not a five-field relationship.
pub open spec fn edge_panics(val: Value) -> bool {
    match val {
        Value::Structure { signature, fields } => signature != 0x52 || fields.len() != 5,
        _ => false,
    }
}

/// Whether reading `val` as a relationship would give up: a structure
/// with a signature other than a relationship's or without five fields.
pub fn edge_read_gives_up(val: &Value) -> (r: bool)
    ensures
        r == edge_panics(*val),
{
    match val {
        Value::Structure { signature, fields } => *signature != 0x52 || fields.len() != 5,
        _ => false,
    }
}

/// The class text stored in the properties field of a relationship value.
pub open spec fn edge_class(props: Value) -> Option<Seq<char>> {
    match props {
        Value::Dict(p) => match lookup(p@, "class"@) {
            Some(Value::String(s)) => Some(s@),
            _ => None,
        },
        _ => None,
    }
}

/// What reading a relationship value gives: the edge, or why it is not one.
pub open spec fn edge_result(val: Value) -> Result<Edge, Seq<char>> {
    match val {
        Value::Structure { fields, .. } => match fields@[2] {
            Value::Integer(dst) => match edge_class(fields@[4]) {
                Some(c) => if c == "child"@ {
                    Ok(Edge::Child(NodeID(dst)))
                } else if c == "next"@ {
                    Ok(Edge::Next(NodeID(dst)))
                } else {
                    Err("Invalid edge class"@)
                },
                None => Err(
                    "Edge class property missing, not a string or properties field not a map"@,
                ),
            },
            _ => Err("DestID field is not an Integer"@),
        },
        _ => Err("Value is not an edge"@),
    }
}

impl Edge {
    /// The node the edge points to.
    pub open spec fn spec_dest(self) -> NodeID {
        match self {
            Edge::Child(n) => n,
            Edge::Next(n) => n,
        }
    }

    /// The class name the edge is stored under.
    pub open spec fn spec_class(self) -> Seq<char> {
        match self {
            Edge::Child(_) => "child"@,
            Edge::Next(_) => "next"@,
        }
    }

    /// The edge as a property map: the target's identifier and the class.
    pub fn to_db(&self) -> (r: Value)
        ensures
            r@ == ValueV::Dict(
                seq![
                    ("id"@, ValueV::Integer(self.spec_dest().0 as int)),
                    ("class"@, ValueV::Str(self.spec_class())),
                ],
            ),
    {
        let (n, class) = match *self {
            Edge::Child(n) => (n, "child"),
            Edge::Next(n) => (n, "next"),
        };
        let mut prop: Vec<(String, Value)> = Vec::new();
        prop.push((to_owned("id"), Value::Integer(n.0)));
        prop.push((to_owned("class"), Value::String(to_owned(class))));
        let ghost pv = prop;
        let r = Value::Dict(prop);
        proof {
            super::value::lemma_dict_view(pv);
            assert(props_view(pv@) =~= seq![("id"@, ValueV::Integer(n.0 as int)), ("class"@, ValueV::Str(class@))]);
        }
        r
    }

    /// Reads an edge from a relationship value.
    pub fn from_db(val: Value) -> (r: Result<Edge, &'static str>)
        requires
            !edge_panics(val),
        ensures
            match r {
                Ok(e) => edge_result(val) == Ok::<Edge, Seq<char>>(e),
                Err(m) => edge_result(val) == Err::<Edge, Seq<char>>(m@),
            },
    {
        match val {
            Value::Structure { signature: _, fields } => {
                let ghost orig = fields@;
                let mut fields = fields;
                let props_v = fields.pop().unwrap();
                let _ = fields.pop();
                let dst_v = fields.pop().unwrap();
                assert(props_v == orig[4] && dst_v == orig[2]);
                let dest_id = match dst_v.into_int() {
                    Some(i) => NodeID::new(i),
                    None => return Err("DestID field is not an Integer"),
                };
                let class = match props_v.into_map() {
                    Some(p) => {
                        let mut p = p;
                        match take_prop(&mut p, "class") {
                            Some(c) => c.into_string(),
                            None => None,
                        }
                    },
                    None => None,
                };
                let class = match class {
                    Some(c) => c,
                    None => return Err(
                        "Edge class property missing, not a string or properties field not a map",
                    ),
                };
                if same_text(class.as_str(), "child") {
                    Ok(Edge::Child(dest_id))
                } else if same_text(class.as_str(), "next") {
                    Ok(Edge::Next(dest_id))
                } else {
                    Err("Invalid edge class")
                }
            },
            _ => Err("Value is not an edge"),
        }
    }
}

} // verus!
