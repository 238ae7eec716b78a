use vstd::prelude::*;

use super::value::Value;

verus! {

/// A node as the database returns it: identifier, labels and properties.
pub struct GenNode {
    pub id: u64,
    pub labs: Vec<String>,
    pub props: Vec<(String, Value)>,
}

/// Whether every item of a list is a string.
pub open spec fn all_strings(items: Seq<Value>) -> bool {
    forall|i: int| 0 <= i < items.len() ==> items[i] is String
}

/// The texts of a list of strings.
pub open spec fn string_texts(items: Seq<Value>) -> Seq<Seq<char>> {
    items.map_values(|v: Value| match v {
        Value::String(s) => s@,
        _ => Seq::empty(),
    })
}

/// The inputs on which reading a node gives up instead of failing: a list of
/// labels that holds something other than strings.
pub open spec fn gen_node_panics(val: Value) -> bool {
    match val {
        Value::Structure { signature, fields } => {
            &&& signature == 0x4E
            &&& fields.len() == 3
            &&& fields@[0] matches Value::Integer(i) && i >= 0
            &&& fields@[1] matches Value::List(l) && !all_strings(l@)
        },
        _ => false,
    }
}

fn every_string(l: &Vec<Value>) -> (r: bool)
    ensures
        r == all_strings(l@),
{
    let mut j: usize = 0;
    while j < l.len()
        invariant
            0 <= j <= l.len(),
            forall|k: int| 0 <= k < j ==> l@[k] is String,
        decreases l.len() - j,
    {
        match &l[j] {
            Value::String(_) => {},
            _ => {
                return false;
            },
        }
        j = j + 1;
    }
    true
}

/// Whether reading `val` as a node would give up: its label list holds
/// something other than strings.
pub fn node_read_gives_up(val: &Value) -> (r: bool)
    ensures
        r == gen_node_panics(*val),
{
    match val {
        Value::Structure { signature, fields } => {
            if *signature != 0x4E || fields.len() != 3 {
                return false;
            }
            match &fields[0] {
                Value::Integer(i) => if *i < 0 {
                    return false;
                },
                _ => {
                    return false;
                },
            }
            match &fields[1] {
                Value::List(l) => !every_string(l),
                _ => false,
            }
        },
        _ => false,
    }
}

/// Why a value is not a node, if it is not.
pub open spec fn gen_node_error(val: Value) -> Option<Seq<char>> {
    match val {
        Value::Structure { signature, fields } => if signature != 0x4E {
            Some("Structure has incorrect signature"@)
        } else if fields.len() != 3 {
            Some("Node structure has incorrect number of fields"@)
        } else if !(fields@[0] matches Value::Integer(i) && i >= 0) {
            Some("id field is not an integer"@)
        } else if !(fields@[1] is List) {
            Some("labels field is not a list"@)
        } else if !(fields@[2] is Dict) {
            Some("properties field is not a map"@)
        } else {
            None
        },
        _ => Some("Is not a node value."@),
    }
}

/// Whether `g` is what a well-formed node value `val` holds.
pub open spec fn gen_node_from(val: Value, g: GenNode) -> bool {
    match val {
        Value::Structure { fields, .. } => {
            &&& fields@[0] == Value::Integer(g.id as i64)
            &&& fields@[1] matches Value::List(l) && g.labs@.map_values(|s: String| s@)
                == string_texts(l@)
            &&& fields@[2] == Value::Dict(g.props)
        },
        _ => false,
    }
}

fn labels_from(items: &Vec<Value>) -> (r: Vec<String>)
    requires
        all_strings(items@),
    ensures
        r@.map_values(|s: String| s@) == string_texts(items@),
{
    let mut r: Vec<String> = Vec::new();
    let mut i: usize = 0;
    while i < items.len()
        invariant
            0 <= i <= items.len(),
            all_strings(items@),
            r@.len() == i,
            r@.map_values(|s: String| s@) == string_texts(items@.subrange(0, i as int)),
        decreases items.len() - i,
    {
        let ghost prev = r@;
        match &items[i] {
            Value::String(s) => {
                r.push(s.clone());
                assert(r@ == prev.push(*s));
                assert(items@[i as int] == Value::String(*s));
            },
            _ => {
                assert(false);
            },
        }
        let ghost old_sub = items@.subrange(0, i as int);
        let ghost new_sub = items@.subrange(0, i + 1);
        assert forall|j: int| 0 <= j < i + 1 implies r@.map_values(|s: String| s@)[j]
            == string_texts(new_sub)[j] by {
            if j < i {
                assert(prev.map_values(|s: String| s@)[j] == string_texts(old_sub)[j]);
                assert(new_sub[j] == old_sub[j]);
            }
        }
        i = i + 1;
        assert(r@.map_values(|s: String| s@) =~= string_texts(items@.subrange(0, i as int)));
    }
    assert(items@.subrange(0, i as int) =~= items@);
    r
}

impl GenNode {
    /// Reads a node from a database value.
    pub fn from_db(val: Value) -> (r: Result<GenNode, &'static str>)
        requires
            !gen_node_panics(val),
        ensures
            match r {
                Ok(g) => gen_node_error(val) is None && gen_node_from(val, g),
                Err(e) => gen_node_error(val) == Some(e@),
            },
    {
        match val {
            Value::Structure { signature, fields } => {
                if signature != 0x4E {
                    return Err("Structure has incorrect signature");
                }
                if fields.len() != 3 {
                    return Err("Node structure has incorrect number of fields");
                }
                let ghost orig = fields@;
                let mut fields = fields;
                let props_v = fields.pop().unwrap();
                let labs_v = fields.pop().unwrap();
                let id_v = fields.pop().unwrap();
                assert(id_v == orig[0] && labs_v == orig[1] && props_v == orig[2]);
                let id = match id_v.into_u64() {
                    Some(i) => i,
                    None => return Err("id field is not an integer"),
                };
                let labs = match labs_v.into_vec() {
                    Some(l) => labels_from(&l),
                    None => return Err("labels field is not a list"),
                };
                let props = match props_v.into_map() {
                    Some(p) => p,
                    None => return Err("properties field is not a map"),
                };
                Ok(GenNode { id, labs, props })
            },
            _ => Err("Is not a node value."),
        }
    }

    /// The identifier, labels and properties.
    pub fn decompose(self) -> (r: (u64, Vec<String>, Vec<(String, Value)>))
        ensures
            r.0 == self.id,
            r.1 == self.labs,
            r.2 == self.props,
    {
        (self.id, self.labs, self.props)
    }
}

} // verus!
