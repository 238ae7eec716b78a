//! Writing the provenance graph as CSV files for neo4j-admin import.
use vstd::prelude::*;

use crate::data::id::ID;
use crate::data::pvm_types::{CsvNodeKind, CsvRelKind, PVMDataType};
use crate::text::{join, join_range, lemma_map_push, lemma_prefix_push, push_char, push_str, push_string, texts, to_owned};

verus! {

/// A view type that writes the graph as zipped CSV files for later import.
#[derive(Debug)]
pub struct CSVView {
    id: usize,
}

impl CSVView {
    /// The identifier of the view type, in specifications.
    pub closed spec fn spec_id(&self) -> usize {
        self.id
    }

    /// A view type registered under `id`.
    pub fn new(id: usize) -> (r: CSVView)
        ensures
            r.spec_id() == id,
    {
        CSVView { id }
    }

    /// The identifier of the view type.
    pub fn id(&self) -> (r: usize)
        ensures
            r == self.spec_id(),
    {
        self.id
    }

    /// The name of the view type.
    pub fn name(&self) -> (r: &'static str)
        ensures
            r@ == "CSVView"@,
    {
        "CSVView"
    }

    /// What the view type does.
    pub fn desc(&self) -> (r: &'static str)
        ensures
            r@ == "View for writing a static csv files for later consumption."@,
    {
        "View for writing a static csv files for later consumption."
    }

    /// The parameters a view of this type takes, with their descriptions.
    pub fn params(&self) -> (r: Vec<(&'static str, &'static str)>)
        ensures
            r@.len() == 1,
            r@[0].0@ == "path"@,
            r@[0].1@ == "The file to write the csv data to."@,
    {
        vec![("path", "The file to write the csv data to.")]
    }
}

/// A text as a CSV field: every `"` doubled.
pub open spec fn csv_escape(s: Seq<char>) -> Seq<char>
    decreases s.len(),
{
    if s.len() == 0 {
        Seq::empty()
    } else {
        csv_escape(s.drop_last()) + if s.last() == '"' {
            seq!['"', '"']
        } else {
            seq![s.last()]
        }
    }
}

/// A further quoted CSV field: a comma, then the text in double quotes
/// with every `"` doubled.
pub open spec fn quoted(s: Seq<char>) -> Seq<char> {
    ",\""@ + csv_escape(s) + "\""@
}

/// Appends `s` as a further quoted CSV field: a comma, then `s` in double
/// quotes with every `"` doubled.
pub fn write_str(out: &mut String, s: &str)
    ensures
        final(out)@ == old(out)@ + quoted(s@),
{
    let ghost base = out@;
    push_str(out, ",\"");
    let n = s.unicode_len();
    let mut i: usize = 0;
    assert(s@.take(0) =~= Seq::<char>::empty());
    while i < n
        invariant
            n == s@.len(),
            i <= n,
            out@ == base + ",\""@ + csv_escape(s@.take(i as int)),
        decreases n - i,
    {
        let c = s.get_char(i);
        if c == '"' {
            push_char(out, '"');
            push_char(out, '"');
        } else {
            push_char(out, c);
        }
        assert(s@.take(i + 1).drop_last() =~= s@.take(i as int));
        i = i + 1;
        assert(out@ =~= base + ",\""@ + csv_escape(s@.take(i as int)));
    }
    assert(s@.take(n as int) =~= s@);
    push_str(out, "\"");
    assert(out@ =~= base + quoted(s@));
}

/// An identifier as the signed integer that the CSV files hold.
pub fn format_id(v: ID) -> (r: i64)
    ensures
        r == v.0,
{
    v.inner()
}

/// An unsigned number reinterpreted as the signed integer with the same bits.
pub fn format_u64(v: u64) -> (r: i64)
    ensures
        r == v as i64,
{
    v as i64
}

/// The CSV file that holds nodes of a kind.
pub open spec fn spec_node_fname(k: CsvNodeKind) -> Seq<char> {
    match k {
        CsvNodeKind::Data { pvm_ty, ty_name } => match pvm_ty {
            PVMDataType::Actor => "actor_"@ + ty_name@ + ".csv"@,
            PVMDataType::Store => "store_"@ + ty_name@ + ".csv"@,
            PVMDataType::Conduit => "conduit_"@ + ty_name@ + ".csv"@,
            PVMDataType::EditSession => "es_"@ + ty_name@ + ".csv"@,
            PVMDataType::StoreCont => "cont_"@ + ty_name@ + ".csv"@,
            PVMDataType::Object => "object_"@ + ty_name@ + ".csv"@,
        },
        CsvNodeKind::Ctx { ty_name } => "ctx_"@ + ty_name@ + ".csv"@,
        CsvNodeKind::NamePath => "paths.csv"@,
        CsvNodeKind::NameNet => "net.csv"@,
        CsvNodeKind::Schema => "schema.csv"@,
    }
}

/// The CSV file that holds nodes of kind `k`.
pub fn node_fname(k: &CsvNodeKind) -> (r: String)
    ensures
        r@ == spec_node_fname(*k),
{
    let (pre, name) = match k {
        CsvNodeKind::Data { pvm_ty, ty_name } => (
            match pvm_ty {
                PVMDataType::Actor => "actor_",
                PVMDataType::Store => "store_",
                PVMDataType::Conduit => "conduit_",
                PVMDataType::EditSession => "es_",
                PVMDataType::StoreCont => "cont_",
                PVMDataType::Object => "object_",
            },
            ty_name,
        ),
        CsvNodeKind::Ctx { ty_name } => ("ctx_", ty_name),
        CsvNodeKind::NamePath => {
            return to_owned("paths.csv");
        },
        CsvNodeKind::NameNet => {
            return to_owned("net.csv");
        },
        CsvNodeKind::Schema => {
            return to_owned("schema.csv");
        },
    };
    let mut r = to_owned(pre);
    push_string(&mut r, name);
    push_str(&mut r, ".csv");
    r
}

/// The labels of a node kind as the CSV files write them.
pub open spec fn spec_node_lab(k: CsvNodeKind) -> Seq<char> {
    match k {
        CsvNodeKind::Data { pvm_ty, .. } => match pvm_ty {
            PVMDataType::Actor => "Node;Actor"@,
            PVMDataType::Store => "Node;Store"@,
            PVMDataType::StoreCont => "Node;StoreCont"@,
            PVMDataType::EditSession => "Node;EditSession"@,
            PVMDataType::Conduit => "Node;Conduit"@,
            PVMDataType::Object => "Node;Object"@,
        },
        CsvNodeKind::Ctx { .. } => "Node;Context"@,
        CsvNodeKind::NamePath => "Node;Name;Path"@,
        CsvNodeKind::NameNet => "Node;Name;Net"@,
        CsvNodeKind::Schema => "Node;Schema"@,
    }
}

/// The labels of node kind `k` as the CSV files write them.
pub fn node_lab(k: &CsvNodeKind) -> (r: &'static str)
    ensures
        r@ == spec_node_lab(*k),
{
    match k {
        CsvNodeKind::Data { pvm_ty, .. } => match pvm_ty {
            PVMDataType::Actor => "Node;Actor",
            PVMDataType::Store => "Node;Store",
            PVMDataType::StoreCont => "Node;StoreCont",
            PVMDataType::EditSession => "Node;EditSession",
            PVMDataType::Conduit => "Node;Conduit",
            PVMDataType::Object => "Node;Object",
        },
        CsvNodeKind::Ctx { .. } => "Node;Context",
        CsvNodeKind::NamePath => "Node;Name;Path",
        CsvNodeKind::NameNet => "Node;Name;Net",
        CsvNodeKind::Schema => "Node;Schema",
    }
}

/// The CSV file that holds relationships of kind `k`.
pub fn rel_fname(k: CsvRelKind) -> (r: &'static str)
    ensures
        r@ == (match k {
            CsvRelKind::Inf => "inf.csv"@,
            CsvRelKind::Named => "named.csv"@,
        }),
{
    match k {
        CsvRelKind::Inf => "inf.csv",
        CsvRelKind::Named => "named.csv",
    }
}

/// The type of relationships of kind `k` as the CSV files write it.
pub fn rel_lab(k: CsvRelKind) -> (r: &'static str)
    ensures
        r@ == (match k {
            CsvRelKind::Inf => "INF"@,
            CsvRelKind::Named => "NAMED"@,
        }),
{
    match k {
        CsvRelKind::Inf => "INF",
        CsvRelKind::Named => "NAMED",
    }
}

/// The options of the import command: fixed ones, then one `--nodes` per
/// node file and one `--relationships` per relationship file.
pub open spec fn import_options(node_files: Seq<Seq<char>>, rel_files: Seq<Seq<char>>) -> Seq<Seq<char>> {
    seq!["--id-type=INTEGER"@, "--multiline-fields=true"@, "--nodes dbinfo.csv"@]
        + node_files.map_values(|k: Seq<char>| "--nodes "@ + k)
        + rel_files.map_values(|k: Seq<char>| "--relationships "@ + k)
}

/// The import command of the hydration script for the given files.
pub open spec fn spec_import_line(node_files: Seq<Seq<char>>, rel_files: Seq<Seq<char>>) -> Seq<char> {
    "neo4j-admin import "@ + join(import_options(node_files, rel_files), " "@)
}

fn prefixed(out: &mut Vec<String>, items: &Vec<String>, prefix: &str)
    ensures
        texts(final(out)@) == texts(old(out)@) + texts(items@).map_values(|k: Seq<char>| prefix@ + k),
{
    let ghost base = texts(out@);
    let mut i: usize = 0;
    while i < items.len()
        invariant
            0 <= i <= items.len(),
            texts(out@) == base + texts(items@.subrange(0, i as int)).map_values(
                |k: Seq<char>| prefix@ + k,
            ),
        decreases items.len() - i,
    {
        let mut s = to_owned(prefix);
        push_string(&mut s, &items[i]);
        let ghost prev = out@;
        out.push(s);
        proof {
            lemma_map_push(prev, out@.last(), |s: String| s@);
            lemma_prefix_push(items@, i as int);
            lemma_map_push(items@.subrange(0, i as int), items@[i as int], |s: String| s@);
            lemma_map_push(texts(items@.subrange(0, i as int)), items@[i as int]@, |k: Seq<char>| prefix@ + k);
            assert(out@ == prev.push(out@.last()));
        }
        i = i + 1;
        assert(texts(out@) =~= base + texts(items@.subrange(0, i as int)).map_values(
            |k: Seq<char>| prefix@ + k,
        ));
    }
    assert(items@.subrange(0, i as int) =~= items@);
}

/// The import command of the hydration script for the given node and
/// relationship files.
pub fn import_line(node_files: &Vec<String>, rel_files: &Vec<String>) -> (r: String)
    ensures
        r@ == spec_import_line(texts(node_files@), texts(rel_files@)),
{
    let mut options: Vec<String> = Vec::new();
    options.push(to_owned("--id-type=INTEGER"));
    options.push(to_owned("--multiline-fields=true"));
    options.push(to_owned("--nodes dbinfo.csv"));
    assert(texts(options@) =~= seq!["--id-type=INTEGER"@, "--multiline-fields=true"@, "--nodes dbinfo.csv"@]);
    prefixed(&mut options, node_files, "--nodes ");
    prefixed(&mut options, rel_files, "--relationships ");
    let mut r = to_owned("neo4j-admin import ");
    let body = join_range(&options, 0, options.len(), " ");
    push_string(&mut r, &body);
    assert(options@.subrange(0, options@.len() as int) =~= options@);
    assert(texts(options@) =~= import_options(texts(node_files@), texts(rel_files@)));
    r
}

} // verus!
