//! Database values written as Cypher literals.
use vstd::prelude::*;

use super::value::{Value, ValueV};
use crate::text::{decimal_int, join, join_range, push_char, push_i64, push_str, push_string, texts};

verus! {

/// A character inside a quoted string: a backslash or a double quote is
/// preceded by a backslash, any other character stands for itself.
pub open spec fn escaped_char(c: char) -> Seq<char> {
    if c == '\\' || c == '"' {
        seq!['\\', c]
    } else {
        seq![c]
    }
}

/// The characters of `s`, escaped one by one.
pub open spec fn escaped(s: Seq<char>) -> Seq<char>
    decreases s.len(),
{
    if s.len() == 0 {
        Seq::empty()
    } else {
        escaped(s.drop_last()) + escaped_char(s.last())
    }
}

/// A text as a double-quoted string literal.
pub open spec fn quoted_literal(s: Seq<char>) -> Seq<char> {
    seq!['"'] + escaped(s) + seq!['"']
}

/// A value as a literal: `null`, `true`/`false`, the decimal integer, the
/// quoted string, `[a, b]` for a list, `{k: a, l: b}` for a map, and
/// `Structure(sig, [a, b])` for a structure.
pub open spec fn literal(v: ValueV) -> Seq<char>
    decreases v,
{
    match v {
        ValueV::Null => "null"@,
        ValueV::Boolean(b) => if b {
            "true"@
        } else {
            "false"@
        },
        ValueV::Integer(i) => decimal_int(i),
        ValueV::Str(s) => quoted_literal(s),
        ValueV::List(l) => "["@ + join(literals_of(l), ", "@) + "]"@,
        ValueV::Dict(d) => "{"@ + join(entries_of(d), ", "@) + "}"@,
        ValueV::Structure { signature, fields } => "Structure("@ + decimal_int(signature as int) + ", ["@
            + join(literals_of(fields), ", "@) + "])"@,
    }
}

/// The literals of values, in order.
pub open spec fn literals_of(l: Seq<ValueV>) -> Seq<Seq<char>>
    decreases l,
{
    Seq::new(l.len(), |i: int| if 0 <= i < l.len() { literal(l[i]) } else { Seq::empty() })
}

/// The entries of a map, each written `key: literal`.
pub open spec fn entries_of(d: Seq<(Seq<char>, ValueV)>) -> Seq<Seq<char>>
    decreases d,
{
    Seq::new(d.len(), |i: int| if 0 <= i < d.len() { d[i].0 + ": "@ + literal(d[i].1) } else { Seq::empty() })
}

/// Appends `s` as a double-quoted string literal.
pub fn push_quoted(out: &mut String, s: &str)
    ensures
        final(out)@ == old(out)@ + quoted_literal(s@),
{
    push_char(out, '"');
    let ghost start = out@;
    let mut i: usize = 0;
    let n = s.unicode_len();
    while i < n
        invariant
            n == s@.len(),
            i <= n,
            out@ == start + escaped(s@.subrange(0, i as int)),
        decreases n - i,
    {
        let c = s.get_char(i);
        assert(s@.subrange(0, i + 1).drop_last() =~= s@.subrange(0, i as int));
        if c == '\\' || c == '"' {
            push_char(out, '\\');
        }
        push_char(out, c);
        i = i + 1;
        assert(out@ =~= start + escaped(s@.subrange(0, i as int)));
    }
    assert(s@.subrange(0, n as int) =~= s@);
    push_char(out, '"');
    assert(out@ =~= old(out)@ + quoted_literal(s@));
}

/// Renders each of `items`, in order.
fn literals(items: &Vec<Value>) -> (r: Vec<String>)
    ensures
        r@.len() == items@.len(),
        forall|i: int| 0 <= i < items@.len() ==> (#[trigger] r@[i])@ == literal(items@[i]@),
    decreases items@, 0nat,
{
    let mut r: Vec<String> = Vec::new();
    let mut i: usize = 0;
    while i < items.len()
        invariant
            i <= items@.len(),
            r@.len() == i,
            forall|j: int| 0 <= j < i ==> (#[trigger] r@[j])@ == literal(items@[j]@),
        decreases items@.len() - i,
    {
        proof {
            assert(decreases_to!(items@, 0nat => items@[i as int], 1nat));
        }
        let t = render_value(&items[i]);
        r.push(t);
        i = i + 1;
    }
    r
}

/// Renders each entry of a map as `key: literal`, in order.
fn entry_literals(items: &Vec<(String, Value)>) -> (r: Vec<String>)
    ensures
        r@.len() == items@.len(),
        forall|i: int| 0 <= i < items@.len() ==> (#[trigger] r@[i])@ == items@[i].0@ + ": "@ + literal(items@[i].1@),
    decreases items@, 0nat,
{
    let mut r: Vec<String> = Vec::new();
    let mut i: usize = 0;
    while i < items.len()
        invariant
            i <= items@.len(),
            r@.len() == i,
            forall|j: int| 0 <= j < i ==> (#[trigger] r@[j])@ == items@[j].0@ + ": "@ + literal(items@[j].1@),
        decreases items@.len() - i,
    {
        proof {
            assert(decreases_to!(items@, 0nat => items@[i as int].1, 1nat));
        }
        let mut t = items[i].0.clone();
        push_str(&mut t, ": ");
        let v = render_value(&items[i].1);
        push_string(&mut t, &v);
        r.push(t);
        i = i + 1;
    }
    r
}

/// Joins rendered items with `", "` between them.
fn join_all(items: &Vec<String>) -> (r: String)
    ensures
        r@ == join(texts(items@), ", "@),
{
    let r = join_range(items, 0, items.len(), ", ");
    assert(items@.subrange(0, items@.len() as int) =~= items@);
    r
}

/// A value written as a literal (see [`literal`]).
pub fn render_value(v: &Value) -> (r: String)
    ensures
        r@ == literal(v@),
    decreases v, 1nat,
{
    let mut out = String::new();
    match v {
        Value::Null => push_str(&mut out, "null"),
        Value::Boolean(b) => if *b {
            push_str(&mut out, "true")
        } else {
            push_str(&mut out, "false")
        },
        Value::Integer(i) => push_i64(&mut out, *i),
        Value::String(s) => push_quoted(&mut out, s.as_str()),
        Value::List(l) => {
            proof {
                assert(decreases_to!(*v, 1nat => l@, 0nat));
            }
            let items = literals(l);
            let body = join_all(&items);
            push_str(&mut out, "[");
            push_string(&mut out, &body);
            push_str(&mut out, "]");
            assert(texts(items@) =~= literals_of(v@->List_0));
            assert(out@ =~= literal(v@));
        },
        Value::Dict(d) => {
            proof {
                assert(decreases_to!(*v, 1nat => d@, 0nat));
            }
            let items = entry_literals(d);
            let body = join_all(&items);
            push_str(&mut out, "{");
            push_string(&mut out, &body);
            push_str(&mut out, "}");
            assert(texts(items@) =~= entries_of(v@->Dict_0));
            assert(out@ =~= literal(v@));
        },
        Value::Structure { signature, fields } => {
            proof {
                assert(decreases_to!(*v, 1nat => fields@, 0nat));
            }
            let items = literals(fields);
            let body = join_all(&items);
            push_str(&mut out, "Structure(");
            push_i64(&mut out, *signature as i64);
            push_str(&mut out, ", [");
            push_string(&mut out, &body);
            push_str(&mut out, "])");
            assert(texts(items@) =~= literals_of(v@->fields));
            assert(out@ =~= literal(v@));
        },
    }
    assert(out@ =~= literal(v@));
    out
}

} // verus!
