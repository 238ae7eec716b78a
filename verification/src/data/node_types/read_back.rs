//! What the database gives back of a written node.
use vstd::prelude::*;

use super::process::process_props_error;
use super::socket::{socket_from, socket_props_error, spec_sock_class, Socket, SocketClass};
use super::file::named_props_error;
use super::pipe::pipe_props_error;
use super::{enum_node_error, enum_node_from, has_text, node_parts, EnumNode};
use crate::data::gen_node::{all_strings, gen_node_error, gen_node_panics, string_texts};
use crate::data::value::{lemma_lookup_first, lookup, props_view, Value, ValueV};
use crate::uuid_text::{hyphenated_text, parsed_uuid};

verus! {

/// The labels of a node, as `to_db` writes them.
pub open spec fn written_labels(n: EnumNode) -> Seq<Seq<char>> {
    match n {
        EnumNode::EditSession(_) => seq!["Node"@, "EditSession"@],
        EnumNode::File(_) => seq!["Node"@, "File"@],
        EnumNode::Pipe(_) => seq!["Node"@, "Pipe"@],
        EnumNode::Proc(_) => seq!["Node"@, "Process"@],
        EnumNode::Socket(_) => seq!["Node"@, "Socket"@],
    }
}

/// The properties of a node, as `to_db` writes them: the type's own, then
/// `db_id` and `uuid`.
pub open spec fn written_props(n: EnumNode) -> Seq<(Seq<char>, ValueV)> {
    match n {
        EnumNode::EditSession(e) => seq![
            ("name"@, ValueV::Str(e.name@)),
            ("db_id"@, ValueV::Integer(e.db_id.0 as int)),
            ("uuid"@, ValueV::Str(hyphenated_text(e.uuid))),
        ],
        EnumNode::File(f) => seq![
            ("name"@, ValueV::Str(f.name@)),
            ("db_id"@, ValueV::Integer(f.db_id.0 as int)),
            ("uuid"@, ValueV::Str(hyphenated_text(f.uuid))),
        ],
        EnumNode::Pipe(p) => seq![
            ("fd"@, ValueV::Integer(p.fd as int)),
            ("db_id"@, ValueV::Integer(p.db_id.0 as int)),
            ("uuid"@, ValueV::Str(hyphenated_text(p.uuid))),
        ],
        EnumNode::Proc(p) => seq![
            ("cmdline"@, ValueV::Str(p.cmdline@)),
            ("pid"@, ValueV::Integer(p.pid as int)),
            ("thin"@, ValueV::Boolean(p.thin)),
            ("db_id"@, ValueV::Integer(p.db_id.0 as int)),
            ("uuid"@, ValueV::Str(hyphenated_text(p.uuid))),
        ],
        EnumNode::Socket(s) => seq![
            ("class"@, ValueV::Integer(s.class.spec_code())),
            ("path"@, ValueV::Str(s.path@)),
            ("ip"@, ValueV::Str(s.ip@)),
            ("port"@, ValueV::Integer(s.port as int)),
            ("db_id"@, ValueV::Integer(s.db_id.0 as int)),
            ("uuid"@, ValueV::Str(hyphenated_text(s.uuid))),
        ],
    }
}

/// Labels as list items: one string each.
pub open spec fn label_items(labs: Seq<Seq<char>>) -> Seq<ValueV> {
    labs.map_values(|t: Seq<char>| ValueV::Str(t))
}

/// The abstract forms of list items.
pub open spec fn items_view(l: Seq<Value>) -> Seq<ValueV> {
    l.map_values(|v: Value| v@)
}

/// The UUID of a node.
pub open spec fn node_uuid(n: EnumNode) -> u128 {
    match n {
        EnumNode::EditSession(e) => e.uuid,
        EnumNode::File(f) => f.uuid,
        EnumNode::Pipe(p) => p.uuid,
        EnumNode::Proc(p) => p.uuid,
        EnumNode::Socket(s) => s.uuid,
    }
}

/// A value whose abstract form is an integer, a text or a boolean is that
/// integer, a string with that text, or that boolean.
proof fn lemma_view_inverts(v: Value)
    ensures
        v@ matches ValueV::Integer(i) ==> v matches Value::Integer(j) && j as int == i,
        v@ matches ValueV::Str(t) ==> v matches Value::String(s) && s@ == t,
        v@ matches ValueV::Boolean(b) ==> v == Value::Boolean(b),
{
}

/// The value stored under the `i`-th key of a property list whose earlier
/// keys differ from it.
proof fn lemma_stored(p: Seq<(String, Value)>, i: int)
    requires
        0 <= i < p.len(),
        forall|j: int| 0 <= j < i ==> props_view(p)[j].0 != props_view(p)[i].0,
    ensures
        lookup(p, props_view(p)[i].0) == Some(p[i].1),
        p[i].1@ == props_view(p)[i].1,
{
    assert forall|j: int| 0 <= j < i implies p[j].0@ != props_view(p)[i].0 by {
        assert(props_view(p)[j].0 == p[j].0@);
    }
    lemma_lookup_first(p, i, props_view(p)[i].0);
    lemma_view_inverts(p[i].1);
}

/// The labels of the node types are different texts.
proof fn labels_differ()
    ensures
        "Node"@ != "Process"@,
        "Node"@ != "File"@,
        "Node"@ != "EditSession"@,
        "Node"@ != "Socket"@,
        "Node"@ != "Pipe"@,
        "Process"@ != "File"@,
        "Process"@ != "EditSession"@,
        "Process"@ != "Socket"@,
        "Process"@ != "Pipe"@,
        "File"@ != "EditSession"@,
        "File"@ != "Socket"@,
        "File"@ != "Pipe"@,
        "EditSession"@ != "Socket"@,
        "EditSession"@ != "Pipe"@,
        "Socket"@ != "Pipe"@,
{
    reveal_strlit("Node");
    assert("Node"@.len() == 4);
    reveal_strlit("Process");
    assert("Process"@.len() == 7);
    reveal_strlit("File");
    assert("File"@.len() == 4);
    reveal_strlit("EditSession");
    assert("EditSession"@.len() == 11);
    reveal_strlit("Socket");
    assert("Socket"@.len() == 6);
    reveal_strlit("Pipe");
    assert("Pipe"@.len() == 4);
    assert("Node"@[0] == 'N' && "File"@[0] == 'F');
    assert("Node"@[0] == 'N' && "Pipe"@[0] == 'P');
    assert("File"@[0] == 'F' && "Pipe"@[0] == 'P');
}

/// The property names of the node types are different texts.
proof fn keys_differ()
    ensures
        "db_id"@ != "uuid"@,
        "db_id"@ != "name"@,
        "db_id"@ != "fd"@,
        "db_id"@ != "cmdline"@,
        "db_id"@ != "pid"@,
        "db_id"@ != "thin"@,
        "db_id"@ != "class"@,
        "db_id"@ != "path"@,
        "db_id"@ != "ip"@,
        "db_id"@ != "port"@,
        "uuid"@ != "name"@,
        "uuid"@ != "fd"@,
        "uuid"@ != "cmdline"@,
        "uuid"@ != "pid"@,
        "uuid"@ != "thin"@,
        "uuid"@ != "class"@,
        "uuid"@ != "path"@,
        "uuid"@ != "ip"@,
        "uuid"@ != "port"@,
        "name"@ != "fd"@,
        "name"@ != "cmdline"@,
        "name"@ != "pid"@,
        "name"@ != "thin"@,
        "name"@ != "class"@,
        "name"@ != "path"@,
        "name"@ != "ip"@,
        "name"@ != "port"@,
        "fd"@ != "cmdline"@,
        "fd"@ != "pid"@,
        "fd"@ != "thin"@,
        "fd"@ != "class"@,
        "fd"@ != "path"@,
        "fd"@ != "ip"@,
        "fd"@ != "port"@,
        "cmdline"@ != "pid"@,
        "cmdline"@ != "thin"@,
        "cmdline"@ != "class"@,
        "cmdline"@ != "path"@,
        "cmdline"@ != "ip"@,
        "cmdline"@ != "port"@,
        "pid"@ != "thin"@,
        "pid"@ != "class"@,
        "pid"@ != "path"@,
        "pid"@ != "ip"@,
        "pid"@ != "port"@,
        "thin"@ != "class"@,
        "thin"@ != "path"@,
        "thin"@ != "ip"@,
        "thin"@ != "port"@,
        "class"@ != "path"@,
        "class"@ != "ip"@,
        "class"@ != "port"@,
        "path"@ != "ip"@,
        "path"@ != "port"@,
        "ip"@ != "port"@,
{
    reveal_strlit("db_id");
    assert("db_id"@.len() == 5);
    reveal_strlit("uuid");
    assert("uuid"@.len() == 4);
    reveal_strlit("name");
    assert("name"@.len() == 4);
    reveal_strlit("fd");
    assert("fd"@.len() == 2);
    reveal_strlit("cmdline");
    assert("cmdline"@.len() == 7);
    reveal_strlit("pid");
    assert("pid"@.len() == 3);
    reveal_strlit("thin");
    assert("thin"@.len() == 4);
    reveal_strlit("class");
    assert("class"@.len() == 5);
    reveal_strlit("path");
    assert("path"@.len() == 4);
    reveal_strlit("ip");
    assert("ip"@.len() == 2);
    reveal_strlit("port");
    assert("port"@.len() == 4);
    assert("db_id"@[0] == 'd' && "class"@[0] == 'c');
    assert("uuid"@[0] == 'u' && "name"@[0] == 'n');
    assert("uuid"@[0] == 'u' && "thin"@[0] == 't');
    assert("uuid"@[0] == 'u' && "path"@[0] == 'p');
    assert("uuid"@[0] == 'u' && "port"@[0] == 'p');
    assert("name"@[0] == 'n' && "thin"@[0] == 't');
    assert("name"@[0] == 'n' && "path"@[0] == 'p');
    assert("name"@[0] == 'n' && "port"@[0] == 'p');
    assert("fd"@[0] == 'f' && "ip"@[0] == 'i');
    assert("thin"@[0] == 't' && "path"@[0] == 'p');
    assert("thin"@[0] == 't' && "port"@[0] == 'p');
    assert("path"@[1] == 'a' && "port"@[1] == 'o');
}

/// The keys of written properties are all different.
proof fn distinct_keys(n: EnumNode, a: int, b: int)
    requires
        0 <= a < b < written_props(n).len(),
    ensures
        written_props(n)[a].0 != written_props(n)[b].0,
{
    keys_differ();
    let k = written_props(n);
    match n {
        EnumNode::Proc(_) => {
            assert(k[0].0 == "cmdline"@ && k[1].0 == "pid"@ && k[2].0 == "thin"@ && k[3].0 == "db_id"@ && k[4].0 == "uuid"@);
        },
        EnumNode::Socket(_) => {
            assert(k[0].0 == "class"@ && k[1].0 == "path"@ && k[2].0 == "ip"@ && k[3].0 == "port"@ && k[4].0 == "db_id"@ && k[5].0 == "uuid"@);
        },
        EnumNode::Pipe(_) => {
            assert(k[0].0 == "fd"@ && k[1].0 == "db_id"@ && k[2].0 == "uuid"@);
        },
        EnumNode::File(_) => {
            assert(k[0].0 == "name"@ && k[1].0 == "db_id"@ && k[2].0 == "uuid"@);
        },
        EnumNode::EditSession(_) => {
            assert(k[0].0 == "name"@ && k[1].0 == "db_id"@ && k[2].0 == "uuid"@);
        },
    }
    if a == 0 {
        if b == 1 {} else if b == 2 {} else if b == 3 {} else if b == 4 {} else {}
    } else if a == 1 {
        if b == 2 {} else if b == 3 {} else if b == 4 {} else {}
    } else if a == 2 {
        if b == 3 {} else if b == 4 {} else {}
    } else if a == 3 {
        if b == 4 {} else {}
    } else {
    }
}

/// Each key of a written property list up to the `i`-th differs from it.
proof fn keys_before_differ(pv: Seq<(Seq<char>, ValueV)>, i: int)
    requires
        0 <= i < pv.len() <= 6,
        forall|a: int, b: int| 0 <= a < b < pv.len() ==> pv[a].0 != pv[b].0,
    ensures
        forall|j: int| 0 <= j < i ==> pv[j].0 != pv[i].0,
{
}

/// Two labels, neither of which is `l`.
proof fn lacks_label(labs: Seq<Seq<char>>, l: Seq<char>)
    requires
        labs.len() == 2,
        labs[0] != l,
        labs[1] != l,
    ensures
        !has_text(labs, l),
{
    assert forall|i: int| 0 <= i < labs.len() implies labs[i] != l by {
        if i == 0 {
        } else {
        }
    }
}

/// A node written with `to_db` and handed back by the database reads as the
/// same node: whatever internal identifier the database gives it, the node
/// structure made of that identifier, the written labels and the written
/// properties is read by `EnumNode::from_db` as the node, without error.
pub proof fn lemma_written_node_reads_back(n: EnumNode, val: Value)
    requires
        val matches Value::Structure { signature, fields } && signature == 0x4E && fields@.len() == 3
            && (fields@[0] matches Value::Integer(k) && k >= 0)
            && (fields@[1] matches Value::List(l) && items_view(l@) == label_items(written_labels(n)))
            && (fields@[2] matches Value::Dict(p) && props_view(p@) == written_props(n)),
        parsed_uuid(hyphenated_text(node_uuid(n))) == Some(node_uuid(n)),
    ensures
        !gen_node_panics(val),
        enum_node_error(val) is None,
        enum_node_from(val, n),
{
    labels_differ();
    match val {
        Value::Structure { signature, fields } => {
            let l = match fields@[1] {
                Value::List(l) => l,
                _ => { return; },
            };
            let p = match fields@[2] {
                Value::Dict(p) => p,
                _ => { return; },
            };
            let labs = written_labels(n);
            assert(items_view(l@).len() == labs.len());
            assert forall|i: int| 0 <= i < l@.len() implies l@[i] is String by {
                assert(items_view(l@)[i] == label_items(labs)[i]);
                lemma_view_inverts(l@[i]);
            }
            assert(all_strings(l@));
            assert(string_texts(l@) =~= labs) by {
                assert forall|i: int| 0 <= i < l@.len() implies string_texts(l@)[i] == labs[i] by {
                    assert(items_view(l@)[i] == label_items(labs)[i]);
                    lemma_view_inverts(l@[i]);
                }
            }
            assert(gen_node_error(val) is None);
            assert(node_parts(val).0 == labs);
            assert(node_parts(val).1 == p@);
            let pv = props_view(p@);
            assert(pv.len() == p@.len());
            assert(labs[0] == "Node"@);
            assert forall|a: int, b: int| 0 <= a < b < pv.len() implies pv[a].0 != pv[b].0 by {
                distinct_keys(n, a, b);
            }
            match n {
                EnumNode::Proc(x) => {
                    assert(has_text(labs, "Process"@)) by { assert(labs[1] == "Process"@); }
                    keys_before_differ(pv, 0);
                    lemma_stored(p@, 0);
                    keys_before_differ(pv, 1);
                    lemma_stored(p@, 1);
                    keys_before_differ(pv, 2);
                    lemma_stored(p@, 2);
                    keys_before_differ(pv, 3);
                    lemma_stored(p@, 3);
                    keys_before_differ(pv, 4);
                    lemma_stored(p@, 4);
                    assert(process_props_error(p@) is None);
                },
                EnumNode::File(x) => {
                    assert(labs[1] == "File"@);
                    lacks_label(labs, "Process"@);
                    assert(has_text(labs, "File"@)) by { assert(labs[1] == "File"@); }
                    keys_before_differ(pv, 0);
                    lemma_stored(p@, 0);
                    keys_before_differ(pv, 1);
                    lemma_stored(p@, 1);
                    keys_before_differ(pv, 2);
                    lemma_stored(p@, 2);
                    assert(named_props_error(p@) is None);
                },
                EnumNode::EditSession(x) => {
                    assert(labs[1] == "EditSession"@);
                    lacks_label(labs, "Process"@);
                    lacks_label(labs, "File"@);
                    assert(has_text(labs, "EditSession"@)) by { assert(labs[1] == "EditSession"@); }
                    keys_before_differ(pv, 0);
                    lemma_stored(p@, 0);
                    keys_before_differ(pv, 1);
                    lemma_stored(p@, 1);
                    keys_before_differ(pv, 2);
                    lemma_stored(p@, 2);
                    assert(named_props_error(p@) is None);
                },
                EnumNode::Socket(x) => {
                    assert(labs[1] == "Socket"@);
                    lacks_label(labs, "Process"@);
                    lacks_label(labs, "File"@);
                    lacks_label(labs, "EditSession"@);
                    assert(has_text(labs, "Socket"@)) by { assert(labs[1] == "Socket"@); }
                    keys_before_differ(pv, 0);
                    lemma_stored(p@, 0);
                    keys_before_differ(pv, 1);
                    lemma_stored(p@, 1);
                    keys_before_differ(pv, 2);
                    lemma_stored(p@, 2);
                    keys_before_differ(pv, 3);
                    lemma_stored(p@, 3);
                    keys_before_differ(pv, 4);
                    lemma_stored(p@, 4);
                    keys_before_differ(pv, 5);
                    lemma_stored(p@, 5);
                    assert(spec_sock_class(x.class.spec_code()) == Some(x.class));
                    assert(socket_props_error(p@) is None);
                },
                EnumNode::Pipe(x) => {
                    assert(labs[1] == "Pipe"@);
                    lacks_label(labs, "Process"@);
                    lacks_label(labs, "File"@);
                    lacks_label(labs, "EditSession"@);
                    lacks_label(labs, "Socket"@);
                    assert(has_text(labs, "Pipe"@)) by { assert(labs[1] == "Pipe"@); }
                    keys_before_differ(pv, 0);
                    lemma_stored(p@, 0);
                    keys_before_differ(pv, 1);
                    lemma_stored(p@, 1);
                    keys_before_differ(pv, 2);
                    lemma_stored(p@, 2);
                    assert(pipe_props_error(p@) is None);
                },
            }
        },
        _ => {},
    }
}


/// The properties a socket is written with read back as the same socket:
/// `Socket::from_props` on them succeeds, and what it reads has the socket's
/// identifier, UUID, class, path, address and port.
pub proof fn lemma_socket_props_read_back(s: Socket, p: Seq<(String, Value)>)
    requires
        props_view(p) == written_props(EnumNode::Socket(s)),
        parsed_uuid(hyphenated_text(s.uuid)) == Some(s.uuid),
    ensures
        socket_props_error(p) is None,
        forall|t: Socket| #[trigger] socket_from(p, t) ==> t.db_id == s.db_id && t.uuid == s.uuid && t.class == s.class
            && t.path@ == s.path@ && t.ip@ == s.ip@ && t.port == s.port,
{
    let n = EnumNode::Socket(s);
    let pv = props_view(p);
    assert forall|a: int, b: int| 0 <= a < b < pv.len() implies pv[a].0 != pv[b].0 by {
        distinct_keys(n, a, b);
    }
    keys_before_differ(pv, 0);
    lemma_stored(p, 0);
    keys_before_differ(pv, 1);
    lemma_stored(p, 1);
    keys_before_differ(pv, 2);
    lemma_stored(p, 2);
    keys_before_differ(pv, 3);
    lemma_stored(p, 3);
    keys_before_differ(pv, 4);
    lemma_stored(p, 4);
    keys_before_differ(pv, 5);
    lemma_stored(p, 5);
    assert(spec_sock_class(s.class.spec_code()) == Some(s.class));
    assert(socket_props_error(p) is None);
}

} // verus!
