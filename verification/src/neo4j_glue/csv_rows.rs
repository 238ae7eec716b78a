//! The lines of the CSV files: one header per file, one row per node or
//! relationship.
use vstd::prelude::*;

use super::csv_view::{csv_escape, quoted, node_fname, node_lab, rel_fname, rel_lab, spec_node_fname, spec_node_lab, write_str};
use super::graph::{rel_dst, rel_src, GraphNode, GraphRel};
use super::neo4j_view::{param_or, param_or_spec, params_view};
use super::{data_type_name, data_type_str, op_name};
use crate::batch::find_id;
use crate::data::pvm_types::{pvm_op_name, CsvNodeKind, CsvRelKind};
use crate::text::{
    decimal_int, decimal_nat, digit_char, empty_string, fmt_i64, join, join_range, push_i64, push_str, push_string, texts, to_owned,
};
use crate::uuid_text::{hyphenated_text, uuid_to_string};

verus! {

/// The texts one after another.
pub open spec fn concat(s: Seq<Seq<char>>) -> Seq<char>
    decreases s.len(),
{
    if s.len() == 0 {
        Seq::empty()
    } else {
        concat(s.drop_last()) + s.last()
    }
}

/// Names as further CSV columns: `,a,b`.
pub open spec fn columns(names: Seq<String>) -> Seq<char> {
    concat(names.map_values(|k: String| ","@ + k@))
}

/// The current values of a data node's properties as further CSV fields:
/// quoted where there is a value, empty where there is none.
pub open spec fn current_cells(cur: Seq<Option<String>>) -> Seq<char> {
    concat(cur.map_values(|c: Option<String>| match c {
        Some(v) => quoted(v@),
        None => ","@,
    }))
}

/// The value of context field `f`.
pub open spec fn cont_value(cont: Seq<(String, String)>, f: Seq<char>) -> Seq<char> {
    param_or_spec(cont, f, Seq::empty())
}

/// A context node's values of the fields `props`, as further CSV fields.
pub open spec fn ctx_cells(props: Seq<String>, cont: Seq<(String, String)>) -> Seq<char> {
    concat(props.map_values(|f: String| ","@ + cont_value(cont, f@)))
}

/// A context node holds a value for each field of its type.
pub open spec fn ctx_complete(n: GraphNode) -> bool {
    match n {
        GraphNode::Ctx { ty_props, cont, .. } => forall|j: int|
            0 <= j < ty_props@.len() ==> #[trigger] find_id(params_view(cont@), ty_props@[j]@) is Some,
        _ => true,
    }
}

/// The kind of a node for the CSV files.
pub open spec fn kind_of(n: GraphNode) -> CsvNodeKind {
    match n {
        GraphNode::Data { pvm_ty, ty_name, .. } => CsvNodeKind::Data { pvm_ty, ty_name },
        GraphNode::Ctx { ty_name, .. } => CsvNodeKind::Ctx { ty_name },
        GraphNode::NamePath { .. } => CsvNodeKind::NamePath,
        GraphNode::NameNet { .. } => CsvNodeKind::NameNet,
        GraphNode::SchemaData { .. } => CsvNodeKind::Schema,
        GraphNode::SchemaCtx { .. } => CsvNodeKind::Schema,
    }
}

/// The kind of a relationship for the CSV files.
pub open spec fn rel_kind_of(r: GraphRel) -> CsvRelKind {
    match r {
        GraphRel::Inf { .. } => CsvRelKind::Inf,
        GraphRel::Named { .. } => CsvRelKind::Named,
    }
}

/// The header line of a file of nodes like `n`.
pub open spec fn node_header(n: GraphNode) -> Seq<char> {
    match n {
        GraphNode::Data { ty_props, .. } => "db_id:ID,:LABEL,uuid,ty,meta_hist"@ + columns(ty_props@) + "\n"@,
        GraphNode::Ctx { ty_props, .. } => "db_id:ID,:LABEL,ty"@ + columns(ty_props@) + "\n"@,
        GraphNode::NamePath { .. } => "db_id:ID,:LABEL,path\n"@,
        GraphNode::NameNet { .. } => "db_id:ID,:LABEL,addr,port:int\n"@,
        GraphNode::SchemaData { .. } => "db_id:ID,:LABEL,name,base,props:string[]\n"@,
        GraphNode::SchemaCtx { .. } => "db_id:ID,:LABEL,name,base,props:string[]\n"@,
    }
}

/// The identifier and labels that start the row of a node.
pub open spec fn node_head(n: GraphNode) -> Seq<char> {
    decimal_int(n.spec_id().0 as int) + ","@ + spec_node_lab(kind_of(n))
}

/// The row of a node. (A context node's row is followed by an empty line.)
pub open spec fn node_row(n: GraphNode) -> Seq<char> {
    match n {
        GraphNode::Data { uuid, ty_name, meta_hist, current, .. } => node_head(n) + ","@
            + hyphenated_text(uuid) + ","@ + ty_name@ + quoted(meta_hist@) + current_cells(current@)
            + "\n"@,
        GraphNode::Ctx { ty_name, ty_props, cont, .. } => node_head(n) + ","@ + ty_name@
            + ctx_cells(ty_props@, cont@) + "\n"@ + "\n"@,
        GraphNode::NamePath { path, .. } => node_head(n) + quoted(path@) + "\n"@,
        GraphNode::NameNet { addr, port, .. } => node_head(n) + quoted(addr@) + ","@
            + decimal_int(port as int) + "\n"@,
        GraphNode::SchemaData { name, base, props, .. } => node_head(n) + quoted(name@) + ","@
            + data_type_name(base) + ","@ + join(texts(props@), ";"@) + "\n"@,
        GraphNode::SchemaCtx { name, props, .. } => node_head(n) + quoted(name@) + ",Context,"@
            + join(texts(props@), ";"@) + "\n"@,
    }
}

/// The header line of a file of relationships like `r`.
pub open spec fn rel_header(r: GraphRel) -> Seq<char> {
    "db_id,:START_ID,:END_ID,:TYPE"@ + match r {
        GraphRel::Inf { .. } => ",pvm_op,ctx:long,byte_count:long\n"@,
        GraphRel::Named { .. } => ",start:long,end:long\n"@,
    }
}

/// The row of a relationship.
pub open spec fn rel_row(r: GraphRel) -> Seq<char> {
    match r {
        GraphRel::Inf { id, src, dst, pvm_op, ctx, byte_count } => decimal_int(id.0 as int) + ","@
            + decimal_int(src.0 as int) + ","@ + decimal_int(dst.0 as int) + ",INF,"@ + op_name(pvm_op)
            + ",\""@ + decimal_int(ctx.0 as int) + "\","@ + decimal_int(byte_count as int) + "\n"@,
        GraphRel::Named { id, src, dst, start, end } => decimal_int(id.0 as int) + ","@
            + decimal_int(src.0 as int) + ","@ + decimal_int(dst.0 as int) + ",NAMED,"@
            + decimal_int(start.0 as int) + ",\""@ + decimal_int(end.0 as int) + "\"\n"@,
    }
}

/// Appends `,k` for each name `k`.
pub fn push_columns(out: &mut String, names: &Vec<String>)
    ensures
        final(out)@ == old(out)@ + columns(names@),
{
    let ghost base = out@;
    let ghost f = |k: String| ","@ + k@;
    let mut i: usize = 0;
    assert(names@.subrange(0, 0).map_values(f) =~= Seq::<Seq<char>>::empty());
    while i < names.len()
        invariant
            0 <= i <= names.len(),
            f == (|k: String| ","@ + k@),
            out@ == base + concat(names@.subrange(0, i as int).map_values(f)),
        decreases names.len() - i,
    {
        push_str(out, ",");
        push_string(out, &names[i]);
        let ghost next = names@.subrange(0, i + 1).map_values(f);
        assert(next.drop_last() =~= names@.subrange(0, i as int).map_values(f));
        assert(next.last() == ","@ + names@[i as int]@);
        i = i + 1;
        assert(out@ =~= base + concat(next));
    }
    assert(names@.subrange(0, i as int) =~= names@);
}

/// Appends the cells of a data node's current values.
pub fn push_current(out: &mut String, cur: &Vec<Option<String>>)
    ensures
        final(out)@ == old(out)@ + current_cells(cur@),
{
    let ghost base = out@;
    let ghost f = |c: Option<String>| match c {
        Some(v) => quoted(v@),
        None => ","@,
    };
    let mut i: usize = 0;
    assert(cur@.subrange(0, 0).map_values(f) =~= Seq::<Seq<char>>::empty());
    while i < cur.len()
        invariant
            0 <= i <= cur.len(),
            f == (|c: Option<String>| match c {
                Some(v) => quoted(v@),
                None => ","@,
            }),
            out@ == base + concat(cur@.subrange(0, i as int).map_values(f)),
        decreases cur.len() - i,
    {
        match &cur[i] {
            Some(v) => write_str(out, v.as_str()),
            None => push_str(out, ","),
        }
        let ghost next = cur@.subrange(0, i + 1).map_values(f);
        assert(next.drop_last() =~= cur@.subrange(0, i as int).map_values(f));
        assert(next.last() == f(cur@[i as int]));
        i = i + 1;
        assert(out@ =~= base + concat(next));
    }
    assert(cur@.subrange(0, i as int) =~= cur@);
}

/// Appends `,v` for the value `v` of each field in `props`.
pub fn push_ctx_cells(out: &mut String, props: &Vec<String>, cont: &Vec<(String, String)>)
    ensures
        final(out)@ == old(out)@ + ctx_cells(props@, cont@),
{
    let ghost base = out@;
    let ghost f = |k: String| ","@ + cont_value(cont@, k@);
    let mut i: usize = 0;
    let none = empty_string();
    assert(props@.subrange(0, 0).map_values(f) =~= Seq::<Seq<char>>::empty());
    while i < props.len()
        invariant
            0 <= i <= props.len(),
            none@ == Seq::<char>::empty(),
            f == (|k: String| ","@ + cont_value(cont@, k@)),
            out@ == base + concat(props@.subrange(0, i as int).map_values(f)),
        decreases props.len() - i,
    {
        push_str(out, ",");
        let v = param_or(cont, props[i].as_str(), &none);
        push_string(out, &v);
        let ghost next = props@.subrange(0, i + 1).map_values(f);
        assert(next.drop_last() =~= props@.subrange(0, i as int).map_values(f));
        assert(next.last() == f(props@[i as int]));
        i = i + 1;
        assert(out@ =~= base + concat(next));
    }
    assert(props@.subrange(0, i as int) =~= props@);
}

impl GraphNode {
    /// The kind of the node for the CSV files.
    pub fn csv_kind(&self) -> (r: CsvNodeKind)
        ensures
            spec_node_fname(r) == spec_node_fname(kind_of(*self)),
            spec_node_lab(r) == spec_node_lab(kind_of(*self)),
    {
        match self {
            GraphNode::Data { pvm_ty, ty_name, .. } => CsvNodeKind::Data { pvm_ty: *pvm_ty, ty_name: ty_name.clone() },
            GraphNode::Ctx { ty_name, .. } => CsvNodeKind::Ctx { ty_name: ty_name.clone() },
            GraphNode::NamePath { .. } => CsvNodeKind::NamePath,
            GraphNode::NameNet { .. } => CsvNodeKind::NameNet,
            GraphNode::SchemaData { .. } => CsvNodeKind::Schema,
            GraphNode::SchemaCtx { .. } => CsvNodeKind::Schema,
        }
    }

    /// The CSV file that holds the node.
    pub fn fname(&self) -> (r: String)
        ensures
            r@ == spec_node_fname(kind_of(*self)),
    {
        node_fname(&self.csv_kind())
    }

    /// Whether a context node holds a value for each field of its type
    /// (other nodes always do).
    pub fn is_complete(&self) -> (r: bool)
        ensures
            r == ctx_complete(*self),
    {
        match self {
            GraphNode::Ctx { ty_props, cont, .. } => has_all_keys(cont, ty_props),
            _ => true,
        }
    }

    /// Appends the header line of a file of nodes like this one.
    pub fn push_header(&self, out: &mut String)
        ensures
            final(out)@ == old(out)@ + node_header(*self),
    {
        let r = match self {
            GraphNode::Data { ty_props, .. } => {
                let mut r = to_owned("db_id:ID,:LABEL,uuid,ty,meta_hist");
                push_columns(&mut r, ty_props);
                push_str(&mut r, "\n");
                r
            },
            GraphNode::Ctx { ty_props, .. } => {
                let mut r = to_owned("db_id:ID,:LABEL,ty");
                push_columns(&mut r, ty_props);
                push_str(&mut r, "\n");
                r
            },
            GraphNode::NamePath { .. } => to_owned("db_id:ID,:LABEL,path\n"),
            GraphNode::NameNet { .. } => to_owned("db_id:ID,:LABEL,addr,port:int\n"),
            GraphNode::SchemaData { .. } => to_owned("db_id:ID,:LABEL,name,base,props:string[]\n"),
            GraphNode::SchemaCtx { .. } => to_owned("db_id:ID,:LABEL,name,base,props:string[]\n"),
        };
        push_string(out, &r);
    }

    fn head(&self) -> (r: String)
        ensures
            r@ == node_head(*self),
    {
        let mut r = fmt_i64(self.get_db_id().0);
        push_str(&mut r, ",");
        push_str(&mut r, node_lab(&self.csv_kind()));
        r
    }

    /// The row of the node. (A context node must hold a value for each
    /// field of its type.)
    pub fn row(&self) -> (r: String)
        requires
            ctx_complete(*self),
        ensures
            r@ == node_row(*self),
    {
        let mut r = self.head();
        match self {
            GraphNode::Data { uuid, ty_name, meta_hist, current, .. } => {
                push_str(&mut r, ",");
                push_string(&mut r, &uuid_to_string(*uuid));
                push_str(&mut r, ",");
                push_string(&mut r, ty_name);
                write_str(&mut r, meta_hist.as_str());
                push_current(&mut r, current);
                push_str(&mut r, "\n");
            },
            GraphNode::Ctx { ty_name, ty_props, cont, .. } => {
                push_str(&mut r, ",");
                push_string(&mut r, ty_name);
                push_ctx_cells(&mut r, ty_props, cont);
                push_str(&mut r, "\n");
                push_str(&mut r, "\n");
            },
            GraphNode::NamePath { path, .. } => {
                write_str(&mut r, path.as_str());
                push_str(&mut r, "\n");
            },
            GraphNode::NameNet { addr, port, .. } => {
                write_str(&mut r, addr.as_str());
                push_str(&mut r, ",");
                push_i64(&mut r, *port as i64);
                push_str(&mut r, "\n");
            },
            GraphNode::SchemaData { name, base, props, .. } => {
                write_str(&mut r, name.as_str());
                push_str(&mut r, ",");
                push_str(&mut r, data_type_str(*base));
                push_str(&mut r, ",");
                let j = join_range(props, 0, props.len(), ";");
                assert(props@.subrange(0, props@.len() as int) =~= props@);
                push_string(&mut r, &j);
                push_str(&mut r, "\n");
            },
            GraphNode::SchemaCtx { name, props, .. } => {
                write_str(&mut r, name.as_str());
                push_str(&mut r, ",Context,");
                let j = join_range(props, 0, props.len(), ";");
                assert(props@.subrange(0, props@.len() as int) =~= props@);
                push_string(&mut r, &j);
                push_str(&mut r, "\n");
            },
        }
        r
    }
}

/// Whether each of `keys` is the key of some pair.
fn has_all_keys(pairs: &Vec<(String, String)>, keys: &Vec<String>) -> (r: bool)
    ensures
        r == forall|j: int| 0 <= j < keys@.len() ==> #[trigger] find_id(params_view(pairs@), keys@[j]@) is Some,
{
    let mut i: usize = 0;
    while i < keys.len()
        invariant
            0 <= i <= keys.len(),
            forall|j: int| 0 <= j < i ==> #[trigger] find_id(params_view(pairs@), keys@[j]@) is Some,
        decreases keys.len() - i,
    {
        if !has_key(pairs, keys[i].as_str()) {
            assert(find_id(params_view(pairs@), keys@[i as int]@) is None);
            return false;
        }
        i = i + 1;
    }
    true
}

/// Whether some pair has the key `key`.
fn has_key(pairs: &Vec<(String, String)>, key: &str) -> (r: bool)
    ensures
        r == find_id(params_view(pairs@), key@) is Some,
{
    let ghost pv = params_view(pairs@);
    let mut i: usize = 0;
    while i < pairs.len()
        invariant
            0 <= i <= pairs.len(),
            pv == params_view(pairs@),
            forall|j: int| 0 <= j < i ==> pv[j].0 != key@,
        decreases pairs.len() - i,
    {
        if crate::text::same_text(pairs[i].0.as_str(), key) {
            assert(pv[i as int].0 == pairs@[i as int].0@);
            proof {
                crate::batch::lemma_find_id_prefix(pv, key@, i as int);
            }
            return true;
        }
        i = i + 1;
    }
    proof {
        crate::batch::lemma_find_id_prefix(pv, key@, i as int);
    }
    false
}

impl GraphRel {
    /// The kind of the relationship for the CSV files.
    pub fn csv_kind(&self) -> (r: CsvRelKind)
        ensures
            r == rel_kind_of(*self),
    {
        match self {
            GraphRel::Inf { .. } => CsvRelKind::Inf,
            GraphRel::Named { .. } => CsvRelKind::Named,
        }
    }

    /// The CSV file that holds the relationship.
    pub fn fname(&self) -> (r: &'static str)
        ensures
            r@ == (match rel_kind_of(*self) {
                CsvRelKind::Inf => "inf.csv"@,
                CsvRelKind::Named => "named.csv"@,
            }),
    {
        rel_fname(self.csv_kind())
    }

    /// The header line of a file of relationships like this one.
    pub fn header(&self) -> (r: String)
        ensures
            r@ == rel_header(*self),
    {
        let mut r = to_owned("db_id,:START_ID,:END_ID,:TYPE");
        match self {
            GraphRel::Inf { .. } => push_str(&mut r, ",pvm_op,ctx:long,byte_count:long\n"),
            GraphRel::Named { .. } => push_str(&mut r, ",start:long,end:long\n"),
        }
        r
    }

    /// The row of the relationship.
    pub fn row(&self) -> (r: String)
        ensures
            r@ == rel_row(*self),
    {
        match self {
            GraphRel::Inf { id, src, dst, pvm_op, ctx, byte_count } => {
                let mut r = fmt_i64(id.0);
                push_str(&mut r, ",");
                push_i64(&mut r, src.0);
                push_str(&mut r, ",");
                push_i64(&mut r, dst.0);
                push_str(&mut r, ",INF,");
                push_str(&mut r, pvm_op_name(*pvm_op));
                push_str(&mut r, ",\"");
                push_i64(&mut r, ctx.0);
                push_str(&mut r, "\",");
                push_i64(&mut r, *byte_count);
                push_str(&mut r, "\n");
                r
            },
            GraphRel::Named { id, src, dst, start, end } => {
                let mut r = fmt_i64(id.0);
                push_str(&mut r, ",");
                push_i64(&mut r, src.0);
                push_str(&mut r, ",");
                push_i64(&mut r, dst.0);
                push_str(&mut r, ",NAMED,");
                push_i64(&mut r, start.0);
                push_str(&mut r, ",\"");
                push_i64(&mut r, end.0);
                push_str(&mut r, "\"\n");
                r
            },
        }
    }
}


/// Whether reading `s` from quote state `q` (inside double quotes or not)
/// ends inside double quotes: each `"` switches the state.
pub open spec fn quote_state(s: Seq<char>, q: bool) -> bool
    decreases s.len(),
{
    if s.len() == 0 {
        q
    } else {
        let p = quote_state(s.drop_last(), q);
        if s.last() == '"' {
            !p
        } else {
            p
        }
    }
}

/// The field separators of a CSV line read from quote state `q`: the
/// commas outside double quotes. A line has one more field than separators.
pub open spec fn field_breaks(s: Seq<char>, q: bool) -> nat
    decreases s.len(),
{
    if s.len() == 0 {
        0
    } else {
        let b = field_breaks(s.drop_last(), q);
        if s.last() == ',' && !quote_state(s.drop_last(), q) {
            b + 1
        } else {
            b
        }
    }
}

/// Reading two texts one after the other.
proof fn lemma_breaks_append(a: Seq<char>, b: Seq<char>, q: bool)
    ensures
        quote_state(a + b, q) == quote_state(b, quote_state(a, q)),
        field_breaks(a + b, q) == field_breaks(a, q) + field_breaks(b, quote_state(a, q)),
    decreases b.len(),
{
    if b.len() == 0 {
        assert(a + b =~= a);
    } else {
        lemma_breaks_append(a, b.drop_last(), q);
        assert((a + b).drop_last() =~= a + b.drop_last());
        assert((a + b).last() == b.last());
    }
}

/// Reading one character.
proof fn lemma_one_char(c: char, q: bool)
    ensures
        quote_state(seq![c], q) == (if c == '"' { !q } else { q }),
        field_breaks(seq![c], q) == (if c == ',' && !q { 1nat } else { 0nat }),
{
    assert(seq![c].drop_last() =~= Seq::<char>::empty());
    assert(quote_state(Seq::<char>::empty(), q) == q);
    assert(field_breaks(Seq::<char>::empty(), q) == 0);
}

/// A text with neither commas nor double quotes has no separator and leaves
/// the quote state as it was.
proof fn lemma_plain_text(s: Seq<char>, q: bool)
    requires
        forall|i: int| 0 <= i < s.len() ==> s[i] != ',' && s[i] != '"',
    ensures
        quote_state(s, q) == q,
        field_breaks(s, q) == 0,
    decreases s.len(),
{
    if s.len() > 0 {
        lemma_plain_text(s.drop_last(), q);
    }
}

/// Decimal digits hold neither commas nor double quotes.
proof fn lemma_decimal_nat_plain(n: nat)
    ensures
        forall|i: int| 0 <= i < decimal_nat(n).len() ==> decimal_nat(n)[i] != ',' && decimal_nat(n)[i] != '"',
    decreases n,
{
    if n < 10 {
        assert(decimal_nat(n) =~= seq![digit_char(n)]);
    } else {
        lemma_decimal_nat_plain(n / 10);
        let p = decimal_nat(n / 10);
        assert(decimal_nat(n) == p.push(digit_char(n % 10)));
        assert forall|i: int| 0 <= i < decimal_nat(n).len() implies decimal_nat(n)[i] != ',' && decimal_nat(n)[i] != '"' by {
            if i < p.len() {
                assert(decimal_nat(n)[i] == p[i]);
            }
        }
    }
}

/// A decimal number has no separator and leaves the quote state as it was.
proof fn lemma_decimal_plain(i: int, q: bool)
    ensures
        quote_state(decimal_int(i), q) == q,
        field_breaks(decimal_int(i), q) == 0,
{
    if i < 0 {
        lemma_decimal_nat_plain((-i) as nat);
    } else {
        lemma_decimal_nat_plain(i as nat);
    }
    lemma_plain_text(decimal_int(i), q);
}

/// Inside double quotes, an escaped text has no separator and ends inside
/// the quotes.
proof fn lemma_escape_inside(s: Seq<char>)
    ensures
        quote_state(csv_escape(s), true),
        field_breaks(csv_escape(s), true) == 0,
    decreases s.len(),
{
    if s.len() > 0 {
        lemma_escape_inside(s.drop_last());
        let t: Seq<char> = if s.last() == '"' {
            seq!['"', '"']
        } else {
            seq![s.last()]
        };
        lemma_breaks_append(csv_escape(s.drop_last()), t, true);
        assert(csv_escape(s) == csv_escape(s.drop_last()) + t);
        if s.last() == '"' {
            assert(t =~= seq!['"'] + seq!['"']);
            lemma_one_char('"', true);
            lemma_one_char('"', false);
            lemma_breaks_append(seq!['"'], seq!['"'], true);
        } else {
            lemma_one_char(s.last(), true);
        }
    }
}

/// A quoted field after a comma adds one separator and leaves the quote
/// state outside.
proof fn lemma_quoted_field(s: Seq<char>)
    ensures
        !quote_state(quoted(s), false),
        field_breaks(quoted(s), false) == 1,
{
    let open = ",\""@;
    let close = "\""@;
    reveal_strlit(",\"");
    reveal_strlit("\"");
    assert(open =~= seq![','] + seq!['"']);
    assert(close =~= seq!['"']);
    lemma_one_char(',', false);
    lemma_one_char('"', false);
    lemma_one_char('"', true);
    lemma_breaks_append(seq![','], seq!['"'], false);
    lemma_escape_inside(s);
    lemma_breaks_append(open, csv_escape(s), false);
    lemma_breaks_append(open + csv_escape(s), close, false);
}

/// A single comma, and a line end.
proof fn lemma_comma_and_newline(q: bool)
    ensures
        field_breaks(","@, false) == 1,
        !quote_state(","@, false),
        field_breaks("\n"@, q) == 0,
        quote_state("\n"@, q) == q,
{
    reveal_strlit(",");
    reveal_strlit("\n");
    assert(","@ =~= seq![',']);
    assert("\n"@ =~= seq!['\n']);
    lemma_one_char(',', false);
    lemma_one_char('\n', q);
}

/// The identifier and labels of a name node make two fields.
proof fn lemma_name_head(n: GraphNode)
    requires
        n is NamePath || n is NameNet,
    ensures
        !quote_state(node_head(n), false),
        field_breaks(node_head(n), false) == 1,
{
    let lab = spec_node_lab(kind_of(n));
    reveal_strlit("Node;Name;Path");
    reveal_strlit("Node;Name;Net");
    assert(forall|i: int| 0 <= i < lab.len() ==> lab[i] != ',' && lab[i] != '"');
    lemma_plain_text(lab, false);
    lemma_decimal_plain(n.spec_id().0 as int, false);
    lemma_comma_and_newline(false);
    lemma_breaks_append(decimal_int(n.spec_id().0 as int), ","@, false);
    lemma_breaks_append(decimal_int(n.spec_id().0 as int) + ","@, lab, false);
}

/// The header of a network name file has four fields.
proof fn lemma_net_header(n: GraphNode)
    requires
        n is NameNet,
    ensures
        field_breaks(node_header(n), false) == 3,
{
    let h = node_header(n);
    reveal_strlit("db_id:ID,:LABEL,addr,port:int\n");
    let a = "db_id:ID"@;
    let b = ":LABEL"@;
    let c = "addr"@;
    let d = "port:int\n"@;
    reveal_strlit("db_id:ID");
    reveal_strlit(":LABEL");
    reveal_strlit("addr");
    reveal_strlit("port:int\n");
    assert(h =~= a + ","@ + b + ","@ + c + ","@ + d) by {
        reveal_strlit(",");
    }
    assert(forall|i: int| 0 <= i < a.len() ==> a[i] != ',' && a[i] != '"');
    assert(forall|i: int| 0 <= i < b.len() ==> b[i] != ',' && b[i] != '"');
    assert(forall|i: int| 0 <= i < c.len() ==> c[i] != ',' && c[i] != '"');
    assert(forall|i: int| 0 <= i < d.len() ==> d[i] != ',' && d[i] != '"');
    lemma_plain_text(a, false);
    lemma_plain_text(b, false);
    lemma_plain_text(c, false);
    lemma_plain_text(d, false);
    lemma_comma_and_newline(false);
    lemma_breaks_append(a, ","@, false);
    lemma_breaks_append(a + ","@, b, false);
    lemma_breaks_append(a + ","@ + b, ","@, false);
    lemma_breaks_append(a + ","@ + b + ","@, c, false);
    lemma_breaks_append(a + ","@ + b + ","@ + c, ","@, false);
    lemma_breaks_append(a + ","@ + b + ","@ + c + ","@, d, false);
}

/// The row of a network name has a field for each column of its file's
/// header, and its last field, the `port:int` column, is the node's port in
/// decimal: the row is three separators of fields, a comma, the port and the
/// line end.
pub proof fn lemma_net_row_fields(n: GraphNode, row: Seq<char>)
    requires
        n is NameNet,
        row == node_row(n),
    ensures
        field_breaks(row, false) == field_breaks(node_header(n), false),
        ({
            let k = row.len() - decimal_int(n->NameNet_port as int).len() - 1;
            &&& 1 <= k
            &&& row == row.subrange(0, k) + decimal_int(n->NameNet_port as int) + "\n"@
            &&& row[k - 1] == ','
            &&& field_breaks(row.subrange(0, k - 1), false) == 2
            &&& !quote_state(row.subrange(0, k - 1), false)
        }),
{
    lemma_net_header(n);
    let h = node_head(n);
    let q = quoted(n->NameNet_addr@);
    let dp = decimal_int(n->NameNet_port as int);
    lemma_name_head(n);
    lemma_quoted_field(n->NameNet_addr@);
    lemma_comma_and_newline(false);
    lemma_decimal_plain(n->NameNet_port as int, false);
    lemma_breaks_append(h, q, false);
    lemma_breaks_append(h + q, ","@, false);
    lemma_breaks_append(h + q + ","@, dp, false);
    lemma_breaks_append(h + q + ","@ + dp, "\n"@, false);
    reveal_strlit(",");
    reveal_strlit("\n");
    assert(row =~= h + q + ","@ + dp + "\n"@);
    let k = row.len() - dp.len() - 1;
    assert(row.subrange(0, k) =~= h + q + ","@);
    assert(row.subrange(0, k - 1) =~= h + q);
}

/// The row of a relationship starts with its identifier, then its source
/// (the `:START_ID` column) and its destination (the `:END_ID` column), as
/// decimal fields.
pub proof fn lemma_rel_row_endpoints(r: GraphRel, row: Seq<char>)
    requires
        row == rel_row(r),
    ensures
        ({
            let pre = decimal_int(r.spec_record().0.0 as int) + ","@ + decimal_int(rel_src(r).0 as int) + ","@
                + decimal_int(rel_dst(r).0 as int) + ","@;
            pre.len() <= row.len() && row.subrange(0, pre.len() as int) == pre
        }),
{
    reveal_strlit(",INF,");
    reveal_strlit(",NAMED,");
    reveal_strlit(",");
    let pre = decimal_int(r.spec_record().0.0 as int) + ","@ + decimal_int(rel_src(r).0 as int) + ","@
        + decimal_int(rel_dst(r).0 as int) + ","@;
    match r {
        GraphRel::Inf { .. } => {
            assert(",INF,"@ =~= ","@ + "INF,"@) by {
                reveal_strlit("INF,");
            }
        },
        GraphRel::Named { .. } => {
            assert(",NAMED,"@ =~= ","@ + "NAMED,"@) by {
                reveal_strlit("NAMED,");
            }
        },
    }
    assert(row.subrange(0, pre.len() as int) =~= pre);
}


/// The row of a path name has a field for each column of its file's header
/// (`db_id:ID,:LABEL,path`): two separators.
pub proof fn lemma_path_row_fields(n: GraphNode, row: Seq<char>)
    requires
        n is NamePath,
        row == node_row(n),
    ensures
        field_breaks(row, false) == 2,
        field_breaks(node_header(n), false) == 2,
{
    let h = node_head(n);
    let q = quoted(n->NamePath_path@);
    lemma_name_head(n);
    lemma_quoted_field(n->NamePath_path@);
    lemma_comma_and_newline(false);
    lemma_breaks_append(h, q, false);
    lemma_breaks_append(h + q, "\n"@, false);
    let hd = node_header(n);
    reveal_strlit("db_id:ID,:LABEL,path\n");
    let a = "db_id:ID"@;
    let b = ":LABEL"@;
    let c = "path\n"@;
    reveal_strlit("db_id:ID");
    reveal_strlit(":LABEL");
    reveal_strlit("path\n");
    assert(hd =~= a + ","@ + b + ","@ + c) by {
        reveal_strlit(",");
    }
    assert(forall|i: int| 0 <= i < a.len() ==> a[i] != ',' && a[i] != '"');
    assert(forall|i: int| 0 <= i < b.len() ==> b[i] != ',' && b[i] != '"');
    assert(forall|i: int| 0 <= i < c.len() ==> c[i] != ',' && c[i] != '"');
    lemma_plain_text(a, false);
    lemma_plain_text(b, false);
    lemma_plain_text(c, false);
    lemma_breaks_append(a, ","@, false);
    lemma_breaks_append(a + ","@, b, false);
    lemma_breaks_append(a + ","@ + b, ","@, false);
    lemma_breaks_append(a + ","@ + b + ","@, c, false);
}

} // verus!
