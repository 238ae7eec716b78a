//! The values that travel to and from the graph database.
use vstd::prelude::*;

use crate::text::same_text;
use crate::uuid_text::{parse_uuid, parsed_uuid};

verus! {

/// A value as the graph database stores it: scalars, lists, maps of
/// properties and tagged structures (nodes and relationships).
pub enum Value {
    Null,
    Boolean(bool),
    Integer(i64),
    String(String),
    List(Vec<Value>),
    Dict(Vec<(String, Value)>),
    Structure { signature: u8, fields: Vec<Value> },
}

/// The abstract form of a [`Value`]: texts as character sequences.
pub enum ValueV {
    Null,
    Boolean(bool),
    Integer(int),
    Str(Seq<char>),
    List(Seq<ValueV>),
    Dict(Seq<(Seq<char>, ValueV)>),
    Structure { signature: u8, fields: Seq<ValueV> },
}

/// The abstract form of a value.
pub open spec fn value_view(v: Value) -> ValueV
    decreases v,
{
    match v {
        Value::Null => ValueV::Null,
        Value::Boolean(b) => ValueV::Boolean(b),
        Value::Integer(i) => ValueV::Integer(i as int),
        Value::String(s) => ValueV::Str(s@),
        Value::List(l) => ValueV::List(
            Seq::new(
                l@.len(),
                |i: int|
                    if 0 <= i < l@.len() {
                        value_view(l@[i])
                    } else {
                        ValueV::Null
                    },
            ),
        ),
        Value::Dict(m) => ValueV::Dict(
            Seq::new(
                m@.len(),
                |i: int|
                    if 0 <= i < m@.len() {
                        (m@[i].0@, value_view(m@[i].1))
                    } else {
                        (Seq::empty(), ValueV::Null)
                    },
            ),
        ),
        Value::Structure { signature, fields } => ValueV::Structure {
            signature,
            fields: Seq::new(
                fields@.len(),
                |i: int|
                    if 0 <= i < fields@.len() {
                        value_view(fields@[i])
                    } else {
                        ValueV::Null
                    },
            ),
        },
    }
}

impl View for Value {
    type V = ValueV;

    open spec fn view(&self) -> ValueV {
        value_view(*self)
    }
}

/// The abstract form of a property list.
pub open spec fn props_view(p: Seq<(String, Value)>) -> Seq<(Seq<char>, ValueV)> {
    p.map_values(|e: (String, Value)| (e.0@, e.1@))
}

/// The abstract form of a map value is the abstract form of its entries.
pub proof fn lemma_dict_view(m: Vec<(String, Value)>)
    ensures
        Value::Dict(m)@ == ValueV::Dict(props_view(m@)),
{
    let v = value_view(Value::Dict(m));
    let d = v->Dict_0;
    assert(v is Dict);
    assert(d.len() == m@.len());
    assert forall|i: int| 0 <= i < d.len() implies d[i] == props_view(m@)[i] by {}
    assert(d =~= props_view(m@));
}

/// The abstract form of a list value is the list of the abstract forms of its items.
pub proof fn lemma_list_view(l: Vec<Value>)
    ensures
        Value::List(l)@ == ValueV::List(l@.map_values(|v: Value| v@)),
{
    let v = value_view(Value::List(l));
    let d = v->List_0;
    assert(v is List);
    assert(d.len() == l@.len());
    assert forall|i: int| 0 <= i < d.len() implies d[i] == l@.map_values(|v: Value| v@)[i] by {}
    assert(d =~= l@.map_values(|v: Value| v@));
}

/// The abstract form of a list of labels.
pub open spec fn labels_view(l: Seq<&'static str>) -> Seq<Seq<char>> {
    l.map_values(|s: &'static str| s@)
}

/// The value stored under `key`: the first entry with that key.
pub open spec fn lookup(props: Seq<(String, Value)>, key: Seq<char>) -> Option<Value>
    decreases props.len(),
{
    if props.len() == 0 {
        None
    } else if props[0].0@ == key {
        Some(props[0].1)
    } else {
        lookup(props.drop_first(), key)
    }
}

/// The entries with the first one under `key` taken out.
pub open spec fn remove_first(props: Seq<(String, Value)>, key: Seq<char>) -> Seq<(String, Value)>
    decreases props.len(),
{
    if props.len() == 0 {
        props
    } else if props[0].0@ == key {
        props.drop_first()
    } else {
        seq![props[0]] + remove_first(props.drop_first(), key)
    }
}

/// Taking one key out leaves what is stored under every other key unchanged.
pub proof fn lemma_remove_first_lookup(props: Seq<(String, Value)>, k1: Seq<char>, k2: Seq<char>)
    requires
        k1 != k2,
    ensures
        lookup(remove_first(props, k1), k2) == lookup(props, k2),
    decreases props.len(),
{
    if props.len() > 0 && props[0].0@ != k1 {
        let rest = remove_first(props.drop_first(), k1);
        lemma_remove_first_lookup(props.drop_first(), k1, k2);
        assert((seq![props[0]] + rest).drop_first() =~= rest);
    }
}

proof fn lemma_lookup_skip(props: Seq<(String, Value)>, i: int, key: Seq<char>)
    requires
        0 <= i < props.len(),
    ensures
        lookup(props.skip(i), key) == if props[i].0@ == key {
            Some(props[i].1)
        } else {
            lookup(props.skip(i + 1), key)
        },
{
    assert(props.skip(i).drop_first() =~= props.skip(i + 1));
}

proof fn lemma_remove_first_split(props: Seq<(String, Value)>, i: int, key: Seq<char>)
    requires
        0 <= i < props.len(),
        props[i].0@ == key,
        forall|j: int| 0 <= j < i ==> props[j].0@ != key,
    ensures
        remove_first(props, key) == props.remove(i),
        lookup(props, key) == Some(props[i].1),
    decreases i,
{
    if i == 0 {
        assert(props.drop_first() =~= props.remove(0));
    } else {
        lemma_remove_first_split(props.drop_first(), i - 1, key);
        assert(seq![props[0]] + props.drop_first().remove(i - 1) =~= props.remove(i));
    }
}

/// The value stored under `key` is that of the first entry with the key.
pub proof fn lemma_lookup_first(props: Seq<(String, Value)>, i: int, key: Seq<char>)
    requires
        0 <= i < props.len(),
        props[i].0@ == key,
        forall|j: int| 0 <= j < i ==> props[j].0@ != key,
    ensures
        lookup(props, key) == Some(props[i].1),
{
    lemma_remove_first_split(props, i, key);
}

proof fn lemma_absent(props: Seq<(String, Value)>, key: Seq<char>)
    requires
        forall|j: int| 0 <= j < props.len() ==> props[j].0@ != key,
    ensures
        remove_first(props, key) == props,
        lookup(props, key) is None,
    decreases props.len(),
{
    if props.len() > 0 {
        lemma_absent(props.drop_first(), key);
        assert(seq![props[0]] + props.drop_first() =~= props);
    }
}

/// Takes the value stored under `key` out of `props` (the first entry with that key).
pub fn take_prop(props: &mut Vec<(String, Value)>, key: &str) -> (r: Option<Value>)
    ensures
        r == lookup(old(props)@, key@),
        final(props)@ == remove_first(old(props)@, key@),
{
    let mut i: usize = 0;
    while i < props.len()
        invariant
            0 <= i <= props.len(),
            props@ == old(props)@,
            forall|j: int| 0 <= j < i ==> props@[j].0@ != key@,
        decreases props.len() - i,
    {
        if same_text(props[i].0.as_str(), key) {
            proof {
                lemma_remove_first_split(props@, i as int, key@);
            }
            let (_, v) = props.remove(i);
            return Some(v);
        }
        i = i + 1;
    }
    proof {
        lemma_absent(props@, key@);
    }
    None
}

/// Looks up the value stored under `key` (the first entry with that key).
pub fn get_prop<'a>(props: &'a Vec<(String, Value)>, key: &str) -> (r: Option<&'a Value>)
    ensures
        match r {
            Some(v) => lookup(props@, key@) == Some(*v),
            None => lookup(props@, key@) is None,
        },
{
    let mut i: usize = 0;
    assert(props@.skip(0) =~= props@);
    while i < props.len()
        invariant
            0 <= i <= props.len(),
            lookup(props@, key@) == lookup(props@.skip(i as int), key@),
        decreases props.len() - i,
    {
        proof {
            lemma_lookup_skip(props@, i as int, key@);
        }
        if same_text(props[i].0.as_str(), key) {
            return Some(&props[i].1);
        }
        i = i + 1;
    }
    assert(props@.skip(i as int).len() == 0);
    None
}

/// The integer stored under `key`.
pub open spec fn int_prop(p: Seq<(String, Value)>, key: Seq<char>) -> Option<int> {
    match lookup(p, key) {
        Some(Value::Integer(i)) => Some(i as int),
        _ => None,
    }
}

/// The integer stored under `key`, when it lies in `lo..=hi`.
pub open spec fn int_prop_in(p: Seq<(String, Value)>, key: Seq<char>, lo: int, hi: int) -> Option<
    int,
> {
    match int_prop(p, key) {
        Some(i) => if lo <= i <= hi {
            Some(i)
        } else {
            None
        },
        None => None,
    }
}

/// The text stored under `key`.
pub open spec fn str_prop(p: Seq<(String, Value)>, key: Seq<char>) -> Option<Seq<char>> {
    match lookup(p, key) {
        Some(Value::String(s)) => Some(s@),
        _ => None,
    }
}

/// The boolean stored under `key`.
pub open spec fn bool_prop(p: Seq<(String, Value)>, key: Seq<char>) -> Option<bool> {
    match lookup(p, key) {
        Some(Value::Boolean(b)) => Some(b),
        _ => None,
    }
}

/// The UUID stored as text under `key`.
pub open spec fn uuid_prop(p: Seq<(String, Value)>, key: Seq<char>) -> Option<u128> {
    match lookup(p, key) {
        Some(Value::String(s)) => parsed_uuid(s@),
        _ => None,
    }
}

/// The integer stored under `key`, when it lies in `lo..=hi`.
pub fn prop_int_in(p: &Vec<(String, Value)>, key: &str, lo: i64, hi: i64) -> (r: Option<i64>)
    ensures
        match r {
            Some(x) => int_prop_in(p@, key@, lo as int, hi as int) == Some(x as int),
            None => int_prop_in(p@, key@, lo as int, hi as int) is None,
        },
{
    match get_prop(p, key) {
        Some(Value::Integer(i)) => if lo <= *i && *i <= hi {
            Some(*i)
        } else {
            None
        },
        _ => None,
    }
}

/// The integer stored under `key`.
pub fn prop_int(p: &Vec<(String, Value)>, key: &str) -> (r: Option<i64>)
    ensures
        match r {
            Some(x) => int_prop(p@, key@) == Some(x as int),
            None => int_prop(p@, key@) is None,
        },
{
    match get_prop(p, key) {
        Some(Value::Integer(i)) => Some(*i),
        _ => None,
    }
}

/// The text stored under `key`.
pub fn prop_string(p: &Vec<(String, Value)>, key: &str) -> (r: Option<String>)
    ensures
        match r {
            Some(x) => str_prop(p@, key@) == Some(x@),
            None => str_prop(p@, key@) is None,
        },
{
    match get_prop(p, key) {
        Some(Value::String(s)) => Some(s.clone()),
        _ => None,
    }
}

/// The boolean stored under `key`.
pub fn prop_bool(p: &Vec<(String, Value)>, key: &str) -> (r: Option<bool>)
    ensures
        r == bool_prop(p@, key@),
{
    match get_prop(p, key) {
        Some(Value::Boolean(b)) => Some(*b),
        _ => None,
    }
}

/// The UUID stored as text under `key`.
pub fn prop_uuid(p: &Vec<(String, Value)>, key: &str) -> (r: Option<u128>)
    ensures
        r == uuid_prop(p@, key@),
{
    match get_prop(p, key) {
        Some(Value::String(s)) => parse_uuid(s.as_str()),
        _ => None,
    }
}

/// The integer a value holds, when it fits the range `lo..=hi`.
pub open spec fn int_in(v: Value, lo: int, hi: int) -> Option<int> {
    match v {
        Value::Integer(i) => if lo <= i <= hi {
            Some(i as int)
        } else {
            None
        },
        _ => None,
    }
}

impl Value {
    /// The boolean the value holds.
    pub fn into_bool(self) -> (r: Option<bool>)
        ensures
            r == (match self {
                Value::Boolean(b) => Some(b),
                _ => None,
            }),
    {
        match self {
            Value::Boolean(b) => Some(b),
            _ => None,
        }
    }

    /// The integer the value holds.
    pub fn into_int(self) -> (r: Option<i64>)
        ensures
            r == (match self {
                Value::Integer(i) => Some(i),
                _ => None,
            }),
    {
        match self {
            Value::Integer(i) => Some(i),
            _ => None,
        }
    }

    /// The integer the value holds, when it fits an `i32`.
    pub fn into_i32(self) -> (r: Option<i32>)
        ensures
            match r {
                Some(x) => int_in(self, i32::MIN as int, i32::MAX as int) == Some(x as int),
                None => int_in(self, i32::MIN as int, i32::MAX as int) is None,
            },
    {
        match self {
            Value::Integer(i) => if i32::MIN as i64 <= i && i <= i32::MAX as i64 {
                Some(i as i32)
            } else {
                None
            },
            _ => None,
        }
    }

    /// The integer the value holds, when it fits a `u16`.
    pub fn into_u16(self) -> (r: Option<u16>)
        ensures
            match r {
                Some(x) => int_in(self, 0, u16::MAX as int) == Some(x as int),
                None => int_in(self, 0, u16::MAX as int) is None,
            },
    {
        match self {
            Value::Integer(i) => if 0 <= i && i <= u16::MAX as i64 {
                Some(i as u16)
            } else {
                None
            },
            _ => None,
        }
    }

    /// The integer the value holds, when it is not negative.
    pub fn into_u64(self) -> (r: Option<u64>)
        ensures
            match r {
                Some(x) => int_in(self, 0, i64::MAX as int) == Some(x as int),
                None => int_in(self, 0, i64::MAX as int) is None,
            },
    {
        match self {
            Value::Integer(i) => if 0 <= i {
                Some(i as u64)
            } else {
                None
            },
            _ => None,
        }
    }

    /// The string the value holds.
    pub fn into_string(self) -> (r: Option<String>)
        ensures
            r == (match self {
                Value::String(s) => Some(s),
                _ => None,
            }),
    {
        match self {
            Value::String(s) => Some(s),
            _ => None,
        }
    }

    /// The list the value holds.
    pub fn into_vec(self) -> (r: Option<Vec<Value>>)
        ensures
            r == (match self {
                Value::List(l) => Some(l),
                _ => None,
            }),
    {
        match self {
            Value::List(l) => Some(l),
            _ => None,
        }
    }

    /// The property map the value holds.
    pub fn into_map(self) -> (r: Option<Vec<(String, Value)>>)
        ensures
            r == (match self {
                Value::Dict(m) => Some(m),
                _ => None,
            }),
    {
        match self {
            Value::Dict(m) => Some(m),
            _ => None,
        }
    }

    /// The UUID the value holds as text.
    pub fn into_uuid5(self) -> (r: Option<u128>)
        ensures
            r == (match self {
                Value::String(s) => parsed_uuid(s@),
                _ => None,
            }),
    {
        match self {
            Value::String(s) => parse_uuid(s.as_str()),
            _ => None,
        }
    }
}


/// The value stored under `key` among map entries: that of the first entry
/// with the key.
pub open spec fn entry_value(d: Seq<(Seq<char>, ValueV)>, key: Seq<char>) -> Option<ValueV>
    decreases d.len(),
{
    if d.len() == 0 {
        None
    } else if d[0].0 == key {
        Some(d[0].1)
    } else {
        entry_value(d.drop_first(), key)
    }
}

/// The value stored under `key` in a map value (none for other values).
pub open spec fn map_field(v: ValueV, key: Seq<char>) -> Option<ValueV> {
    match v {
        ValueV::Dict(d) => entry_value(d, key),
        _ => None,
    }
}

/// The field names of a relationship record are different texts.
pub proof fn lemma_record_keys_differ()
    ensures
        "src"@ != "dst"@,
        "src"@ != "type"@,
        "src"@ != "props"@,
        "dst"@ != "type"@,
        "dst"@ != "props"@,
{
    reveal_strlit("src");
    reveal_strlit("dst");
    reveal_strlit("type");
    reveal_strlit("props");
    assert("src"@[0] == 's' && "dst"@[0] == 'd');
    assert("type"@.len() == 4 && "props"@.len() == 5 && "src"@.len() == 3 && "dst"@.len() == 3);
}

} // verus!
