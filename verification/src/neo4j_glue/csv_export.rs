//! Collecting the graph by CSV file and laying out the files of the export.
use vstd::prelude::*;

use super::csv_rows::{concat, ctx_complete, kind_of, node_header, node_row, rel_header, rel_kind_of, rel_row};
use super::csv_view::{import_line, spec_import_line, spec_node_fname};
use super::graph::{GraphNode, GraphRel};
use super::neo4j_view::DBTr;
use crate::batch::{find_id, lemma_find_id_prefix};
use crate::data::pvm_types::CsvRelKind;
use crate::text::{lemma_map_push, lemma_prefix_push, push_str, push_string, same_text, texts, to_owned};

verus! {

/// What opens the hydration script.
pub const HYDRATE_SH_PRE: &'static str = "#! /bin/bash\nexport NEO4J_USER=neo4j\nexport NEO4J_PASS=opus\n\nif ! which \"neo4j-admin\" >/dev/null || ! which \"cypher-shell\" >/dev/null ; then\n    echo \"Cannot find neo4j binaries\"\n    echo \"Please make sure that the neo4j binaries are in \\$PATH\"\n    exit 1\nfi\n\necho \"Preparing to hydrate database\"\nread -p \"Ensure neo4j is stopped and that any database files have been removed. Then press enter.\"\necho \"Importing data\"\n";

/// What closes the hydration script.
pub const HYDRATE_SH_POST: &'static str = "echo \"Data import complete\"\nread -p \"Now start neo4j, wait for it to come up, then press enter.\"\necho -n \"Building indexes...\"\ncypher-shell -u$NEO4J_USER -p$NEO4J_PASS >/dev/null <<EOF\nCREATE INDEX ON :Node(db_id);\nCREATE INDEX ON :Actor(uuid);\nCREATE INDEX ON :Object(uuid);\nCREATE INDEX ON :Store(uuid);\nCREATE INDEX ON :EditSession(uuid);\nCREATE INDEX ON :Conduit(uuid);\nCREATE INDEX ON :StoreCont(uuid);\nCREATE INDEX ON :Path(path);\nCREATE INDEX ON :Net(addr);\nCALL db.awaitIndexes();\nEOF\necho \"Done\"\necho \"Database hydrated\"\n";

/// The items of a file with `x` stored under `id`: it replaces the item
/// with that identifier, or is appended.
pub open spec fn item_put<T>(s: Seq<(i64, T)>, id: i64, x: T) -> Seq<(i64, T)> {
    match find_id(s, id) {
        Some(j) => s.update(j, (id, x)),
        None => s.push((id, x)),
    }
}

/// The files with `x` stored under `id` in file `f`; a new file is appended
/// when there is none of that name.
pub open spec fn group_put<T>(g: Seq<(Seq<char>, Seq<(i64, T)>)>, f: Seq<char>, id: i64, x: T) -> Seq<(Seq<char>, Seq<(i64, T)>)> {
    match find_id(g, f) {
        Some(i) => g.update(i, (f, item_put(g[i].1, id, x))),
        None => g.push((f, seq![(id, x)])),
    }
}

/// Storing two versions of an item under one identifier keeps only the
/// second: the same as storing the second alone.
pub proof fn lemma_item_put_twice<T>(s: Seq<(i64, T)>, id: i64, x: T, y: T)
    ensures
        item_put(item_put(s, id, x), id, y) == item_put(s, id, y),
{
    crate::batch::lemma_find_id(s, id);
    crate::batch::lemma_find_id_after_put(s, id, x);
    match find_id(s, id) {
        Some(i) => {
            assert(s.update(i, (id, x)).update(i, (id, y)) =~= s.update(i, (id, y)));
        },
        None => {
            assert(s.push((id, x)).update(s.len() as int, (id, y)) =~= s.push((id, y)));
        },
    }
}

/// Writing a node (or relationship) twice into its file leaves only the
/// second version, in the place of the first: the same as writing the
/// second alone.
pub proof fn lemma_group_put_twice<T>(g: Seq<(Seq<char>, Seq<(i64, T)>)>, f: Seq<char>, id: i64, x: T, y: T)
    ensures
        group_put(group_put(g, f, id, x), f, id, y) == group_put(g, f, id, y),
{
    crate::batch::lemma_find_id(g, f);
    match find_id(g, f) {
        Some(i) => {
            let items = g[i].1;
            crate::batch::lemma_find_id_after_put(g, f, item_put(items, id, x));
            lemma_item_put_twice(items, id, x, y);
            assert(g.update(i, (f, item_put(items, id, x))).update(i, (f, item_put(item_put(items, id, x), id, y)))
                =~= g.update(i, (f, item_put(items, id, y))));
        },
        None => {
            let one = seq![(id, x)];
            crate::batch::lemma_find_id_after_put(g, f, one);
            crate::batch::lemma_find_id(one, id);
            assert(one[0].0 == id);
            assert(find_id(one, id) == Some(0int)) by {
                crate::batch::lemma_find_id_prefix(one, id, 0);
            }
            assert(item_put(one, id, y) =~= seq![(id, y)]);
            assert(g.push((f, one)).update(g.len() as int, (f, seq![(id, y)])) =~= g.push((f, seq![(id, y)])));
        },
    }
}

/// Items grouped by file name, in order of first appearance; within a file,
/// one item per identifier, in order of first appearance.
pub struct CsvGroups<T> {
    groups: Vec<(String, Vec<(i64, T)>)>,
}

/// The abstract form of grouped items.
pub open spec fn groups_view<T>(g: Seq<(String, Vec<(i64, T)>)>) -> Seq<(Seq<char>, Seq<(i64, T)>)> {
    g.map_values(|e: (String, Vec<(i64, T)>)| (e.0@, e.1@))
}

impl<T> CsvGroups<T> {
    /// The files and their items.
    pub closed spec fn view(&self) -> Seq<(Seq<char>, Seq<(i64, T)>)> {
        groups_view(self.groups@)
    }

    /// No files.
    pub fn new() -> (r: Self)
        ensures
            r.view() == Seq::<(Seq<char>, Seq<(i64, T)>)>::empty(),
    {
        let r = CsvGroups { groups: Vec::new() };
        assert(r.view() =~= Seq::<(Seq<char>, Seq<(i64, T)>)>::empty());
        r
    }

    /// The number of files.
    pub fn len(&self) -> (r: usize)
        ensures
            r == self.view().len(),
    {
        self.groups.len()
    }

    /// The name of file `i`.
    pub fn name(&self, i: usize) -> (r: &String)
        requires
            i < self.view().len(),
        ensures
            r@ == self.view()[i as int].0,
    {
        &self.groups[i].0
    }

    /// The items of file `i`.
    pub fn items(&self, i: usize) -> (r: &Vec<(i64, T)>)
        requires
            i < self.view().len(),
        ensures
            r@ == self.view()[i as int].1,
    {
        &self.groups[i].1
    }

    fn find(&self, f: &str) -> (r: Option<usize>)
        ensures
            match r {
                Some(i) => find_id(self.view(), f@) == Some(i as int),
                None => find_id(self.view(), f@) is None,
            },
    {
        let ghost gv = self.view();
        let mut i: usize = 0;
        while i < self.groups.len()
            invariant
                0 <= i <= self.groups.len(),
                gv == self.view(),
                forall|j: int| 0 <= j < i ==> gv[j].0 != f@,
            decreases self.groups.len() - i,
        {
            if same_text(self.groups[i].0.as_str(), f) {
                proof {
                    lemma_find_id_prefix(gv, f@, i as int);
                }
                return Some(i);
            }
            i = i + 1;
        }
        proof {
            lemma_find_id_prefix(gv, f@, i as int);
        }
        None
    }

    /// Stores `x` under `id` in file `f`, replacing the item with that
    /// identifier there.
    pub fn put(&mut self, f: String, id: i64, x: T)
        ensures
            final(self).view() == group_put(old(self).view(), f@, id, x),
    {
        let ghost gv = self.view();
        proof {
            crate::batch::lemma_find_id(gv, f@);
        }
        match self.find(f.as_str()) {
            Some(i) => {
                assert(i < gv.len());
                let mut g: (String, Vec<(i64, T)>) = (String::new(), Vec::new());
                self.groups.set_and_swap(i, &mut g);
                let ghost items = g.1@;
                put_item(&mut g.1, id, x);
                let ghost fv = f@;
                self.groups.set(i, (f, g.1));
                assert(self.view() =~= gv.update(i as int, (fv, item_put(items, id, x))));
            },
            None => {
                let ghost fv = f@;
                let mut items: Vec<(i64, T)> = Vec::new();
                items.push((id, x));
                self.groups.push((f, items));
                assert(self.view() =~= gv.push((fv, seq![(id, x)])));
            },
        }
    }
}

fn put_item<T>(items: &mut Vec<(i64, T)>, id: i64, x: T)
    ensures
        final(items)@ == item_put(old(items)@, id, x),
{
    let mut j: usize = 0;
    let mut found = false;
    while j < items.len()
        invariant_except_break
            !found,
        invariant
            0 <= j <= items.len(),
            items@ == old(items)@,
            forall|k: int| 0 <= k < j ==> items@[k].0 != id,
        ensures
            !found ==> j == items.len(),
            found ==> j < items.len() && items@[j as int].0 == id,
        decreases items.len() - j,
    {
        if items[j].0 == id {
            found = true;
            break;
        }
        j = j + 1;
    }
    proof {
        lemma_find_id_prefix(items@, id, j as int);
    }
    if found {
        items.set(j, (id, x));
    } else {
        items.push((id, x));
    }
}

/// A file of the export: its path in the archive, its text, and whether it
/// is executable.
pub struct CsvFile {
    pub name: String,
    pub text: String,
    pub executable: bool,
}

/// The text of a file of nodes: the header of the first, then a row each.
pub open spec fn node_file_text(items: Seq<(i64, GraphNode)>) -> Seq<char> {
    if items.len() == 0 {
        Seq::empty()
    } else {
        node_header(items[0].1) + concat(items.map_values(|e: (i64, GraphNode)| node_row(e.1)))
    }
}

/// The text of a file of relationships: the header of the first, then a row each.
pub open spec fn rel_file_text(items: Seq<(i64, GraphRel)>) -> Seq<char> {
    if items.len() == 0 {
        Seq::empty()
    } else {
        rel_header(items[0].1) + concat(items.map_values(|e: (i64, GraphRel)| rel_row(e.1)))
    }
}

/// The text of the file that records the schema version and the writer.
pub open spec fn dbinfo_text(version: Seq<char>) -> Seq<char> {
    ":LABEL,pvm_version:int,source\nDBInfo,2,libPVM-"@ + version + "\n"@
}

/// The hydration script for the given node and relationship files.
pub open spec fn hydrate_text(node_files: Seq<Seq<char>>, rel_files: Seq<Seq<char>>) -> Seq<char> {
    HYDRATE_SH_PRE@ + spec_import_line(node_files, rel_files) + "\n"@ + HYDRATE_SH_POST@
}

/// The files of the export, in order: the schema record, the hydration
/// script, the relationship files, then the node files.
pub open spec fn export_files(
    nodes: Seq<(Seq<char>, Seq<(i64, GraphNode)>)>,
    rels: Seq<(Seq<char>, Seq<(i64, GraphRel)>)>,
    version: Seq<char>,
) -> Seq<(Seq<char>, Seq<char>, bool)> {
    seq![
        ("db/dbinfo.csv"@, dbinfo_text(version), false),
        (
            "db/hydrate.sh"@,
            hydrate_text(
                nodes.map_values(|g: (Seq<char>, Seq<(i64, GraphNode)>)| g.0),
                rels.map_values(|g: (Seq<char>, Seq<(i64, GraphRel)>)| g.0),
            ),
            true,
        ),
    ] + rels.map_values(|g: (Seq<char>, Seq<(i64, GraphRel)>)| ("db/"@ + g.0, rel_file_text(g.1), false))
        + nodes.map_values(|g: (Seq<char>, Seq<(i64, GraphNode)>)| ("db/"@ + g.0, node_file_text(g.1), false))
}

/// The abstract form of the files.
pub open spec fn files_view(f: Seq<CsvFile>) -> Seq<(Seq<char>, Seq<char>, bool)> {
    f.map_values(|c: CsvFile| (c.name@, c.text@, c.executable))
}

/// The graph as it is written out: nodes and relationships grouped by file,
/// the latest version of each kept.
pub struct CsvExport {
    nodes: CsvGroups<GraphNode>,
    rels: CsvGroups<GraphRel>,
}

/// Every context node holds a value for each field of its type.
pub open spec fn nodes_complete(nodes: Seq<(Seq<char>, Seq<(i64, GraphNode)>)>) -> bool {
    forall|i: int, j: int|
        0 <= i < nodes.len() && 0 <= j < nodes[i].1.len() ==> #[trigger] ctx_complete(nodes[i].1[j].1)
}

impl CsvExport {
    /// The node files and their nodes.
    pub closed spec fn nodes(&self) -> Seq<(Seq<char>, Seq<(i64, GraphNode)>)> {
        self.nodes.view()
    }

    /// The relationship files and their relationships.
    pub closed spec fn rels(&self) -> Seq<(Seq<char>, Seq<(i64, GraphRel)>)> {
        self.rels.view()
    }

    /// Nothing collected.
    pub fn new() -> (r: Self)
        ensures
            r.nodes() == Seq::<(Seq<char>, Seq<(i64, GraphNode)>)>::empty(),
            r.rels() == Seq::<(Seq<char>, Seq<(i64, GraphRel)>)>::empty(),
    {
        CsvExport { nodes: CsvGroups::new(), rels: CsvGroups::new() }
    }

    /// Takes in one change: a created or changed node or relationship is
    /// stored in its file, replacing its earlier version.
    pub fn absorb(&mut self, evt: DBTr)
        ensures
            match evt {
                DBTr::CreateNode(n) | DBTr::UpdateNode(n) => final(self).nodes() == group_put(
                    old(self).nodes(),
                    spec_node_fname(kind_of(n)),
                    n.spec_id().0,
                    n,
                ) && final(self).rels() == old(self).rels(),
                DBTr::CreateRel(r) | DBTr::UpdateRel(r) => final(self).rels() == group_put(
                    old(self).rels(),
                    match rel_kind_of(r) {
                        CsvRelKind::Inf => "inf.csv"@,
                        CsvRelKind::Named => "named.csv"@,
                    },
                    r.spec_record().0.0,
                    r,
                ) && final(self).nodes() == old(self).nodes(),
            },
    {
        match evt {
            DBTr::CreateNode(n) | DBTr::UpdateNode(n) => {
                let f = n.fname();
                let id = n.get_db_id().0;
                self.nodes.put(f, id, n);
            },
            DBTr::CreateRel(r) | DBTr::UpdateRel(r) => {
                let f = to_owned(r.fname());
                let id = r.get_db_id().0;
                self.rels.put(f, id, r);
            },
        }
    }

    /// Whether every context node holds a value for each field of its type,
    /// which writing the files needs.
    pub fn is_complete(&self) -> (r: bool)
        ensures
            r == nodes_complete(self.nodes()),
    {
        let n = self.nodes.len();
        let mut i: usize = 0;
        while i < n
            invariant
                n == self.nodes().len(),
                0 <= i <= n,
                forall|a: int, b: int|
                    0 <= a < i && 0 <= b < self.nodes()[a].1.len() ==> #[trigger] ctx_complete(self.nodes()[a].1[b].1),
            decreases n - i,
        {
            let items = self.nodes.items(i);
            let mut j: usize = 0;
            while j < items.len()
                invariant
                    n == self.nodes().len(),
                    0 <= i < n,
                    items@ == self.nodes()[i as int].1,
                    0 <= j <= items.len(),
                    forall|a: int, b: int|
                        0 <= a < i && 0 <= b < self.nodes()[a].1.len() ==> #[trigger] ctx_complete(self.nodes()[a].1[b].1),
                    forall|b: int| 0 <= b < j ==> #[trigger] ctx_complete(self.nodes()[i as int].1[b].1),
                decreases items.len() - j,
            {
                if !items[j].1.is_complete() {
                    assert(!ctx_complete(self.nodes()[i as int].1[j as int].1));
                    return false;
                }
                j = j + 1;
            }
            i = i + 1;
        }
        true
    }

    fn node_names(&self) -> (r: Vec<String>)
        ensures
            texts(r@) == self.nodes().map_values(|g: (Seq<char>, Seq<(i64, GraphNode)>)| g.0),
    {
        let mut r: Vec<String> = Vec::new();
        let mut i: usize = 0;
        while i < self.nodes.len()
            invariant
                0 <= i <= self.nodes().len(),
                texts(r@) == self.nodes().subrange(0, i as int).map_values(|g: (Seq<char>, Seq<(i64, GraphNode)>)| g.0),
            decreases self.nodes().len() - i,
        {
            let s = self.nodes.name(i).clone();
            let ghost prev = r@;
            r.push(s);
            proof {
                lemma_map_push(prev, s, |s: String| s@);
                lemma_prefix_push(self.nodes(), i as int);
                lemma_map_push(self.nodes().subrange(0, i as int), self.nodes()[i as int], |g: (Seq<char>, Seq<(i64, GraphNode)>)| g.0);
                assert(r@ == prev.push(s));
            }
            i = i + 1;
        }
        assert(self.nodes().subrange(0, i as int) =~= self.nodes());
        r
    }

    fn rel_names(&self) -> (r: Vec<String>)
        ensures
            texts(r@) == self.rels().map_values(|g: (Seq<char>, Seq<(i64, GraphRel)>)| g.0),
    {
        let mut r: Vec<String> = Vec::new();
        let mut i: usize = 0;
        while i < self.rels.len()
            invariant
                0 <= i <= self.rels().len(),
                texts(r@) == self.rels().subrange(0, i as int).map_values(|g: (Seq<char>, Seq<(i64, GraphRel)>)| g.0),
            decreases self.rels().len() - i,
        {
            let s = self.rels.name(i).clone();
            let ghost prev = r@;
            r.push(s);
            proof {
                lemma_map_push(prev, s, |s: String| s@);
                lemma_prefix_push(self.rels(), i as int);
                lemma_map_push(self.rels().subrange(0, i as int), self.rels()[i as int], |g: (Seq<char>, Seq<(i64, GraphRel)>)| g.0);
                assert(r@ == prev.push(s));
            }
            i = i + 1;
        }
        assert(self.rels().subrange(0, i as int) =~= self.rels());
        r
    }

    /// The files of the export, for a writer of version `version`.
    pub fn files(&self, version: &str) -> (r: Vec<CsvFile>)
        requires
            nodes_complete(self.nodes()),
        ensures
            files_view(r@) == export_files(self.nodes(), self.rels(), version@),
    {
        let mut out: Vec<CsvFile> = Vec::new();
        let mut info = to_owned(":LABEL,pvm_version:int,source\nDBInfo,2,libPVM-");
        push_str(&mut info, version);
        push_str(&mut info, "\n");
        push_file(&mut out, to_owned("db/dbinfo.csv"), info, false);
        let mut sh = to_owned(HYDRATE_SH_PRE);
        let nn = self.node_names();
        let rn = self.rel_names();
        push_string(&mut sh, &import_line(&nn, &rn));
        push_str(&mut sh, "\n");
        push_str(&mut sh, HYDRATE_SH_POST);
        push_file(&mut out, to_owned("db/hydrate.sh"), sh, true);
        let ghost head = files_view(out@);
        assert(head =~= seq![
            ("db/dbinfo.csv"@, dbinfo_text(version@), false),
            (
                "db/hydrate.sh"@,
                hydrate_text(
                    self.nodes().map_values(|g: (Seq<char>, Seq<(i64, GraphNode)>)| g.0),
                    self.rels().map_values(|g: (Seq<char>, Seq<(i64, GraphRel)>)| g.0),
                ),
                true,
            ),
        ]);
        let ghost rf = |g: (Seq<char>, Seq<(i64, GraphRel)>)| ("db/"@ + g.0, rel_file_text(g.1), false);
        let mut i: usize = 0;
        while i < self.rels.len()
            invariant
                0 <= i <= self.rels().len(),
                rf == (|g: (Seq<char>, Seq<(i64, GraphRel)>)| ("db/"@ + g.0, rel_file_text(g.1), false)),
                files_view(out@) == head + self.rels().subrange(0, i as int).map_values(rf),
            decreases self.rels().len() - i,
        {
            let mut name = to_owned("db/");
            push_string(&mut name, self.rels.name(i));
            let text = rel_text(self.rels.items(i));
            let ghost prev = files_view(out@);
            push_file(&mut out, name, text, false);
            proof {
                lemma_prefix_push(self.rels(), i as int);
                lemma_map_push(self.rels().subrange(0, i as int), self.rels()[i as int], rf);
            }
            i = i + 1;
            assert(files_view(out@) =~= head + self.rels().subrange(0, i as int).map_values(rf));
        }
        assert(self.rels().subrange(0, i as int) =~= self.rels());
        let ghost mid = files_view(out@);
        let ghost nf = |g: (Seq<char>, Seq<(i64, GraphNode)>)| ("db/"@ + g.0, node_file_text(g.1), false);
        let mut k: usize = 0;
        while k < self.nodes.len()
            invariant
                0 <= k <= self.nodes().len(),
                nodes_complete(self.nodes()),
                nf == (|g: (Seq<char>, Seq<(i64, GraphNode)>)| ("db/"@ + g.0, node_file_text(g.1), false)),
                files_view(out@) == mid + self.nodes().subrange(0, k as int).map_values(nf),
            decreases self.nodes().len() - k,
        {
            let mut name = to_owned("db/");
            push_string(&mut name, self.nodes.name(k));
            let text = node_text(self.nodes.items(k));
            let ghost prev = files_view(out@);
            push_file(&mut out, name, text, false);
            proof {
                lemma_prefix_push(self.nodes(), k as int);
                lemma_map_push(self.nodes().subrange(0, k as int), self.nodes()[k as int], nf);
            }
            k = k + 1;
            assert(files_view(out@) =~= mid + self.nodes().subrange(0, k as int).map_values(nf));
        }
        assert(self.nodes().subrange(0, k as int) =~= self.nodes());
        assert(files_view(out@) =~= export_files(self.nodes(), self.rels(), version@));
        out
    }
}

fn push_file(out: &mut Vec<CsvFile>, name: String, text: String, executable: bool)
    ensures
        files_view(final(out)@) == files_view(old(out)@).push((name@, text@, executable)),
{
    let f = CsvFile { name, text, executable };
    out.push(f);
    proof {
        lemma_map_push(old(out)@, f, |c: CsvFile| (c.name@, c.text@, c.executable));
    }
}

fn node_text(items: &Vec<(i64, GraphNode)>) -> (r: String)
    requires
        forall|b: int| 0 <= b < items@.len() ==> #[trigger] ctx_complete(items@[b].1),
    ensures
        r@ == node_file_text(items@),
{
    if items.len() == 0 {
        return String::new();
    }
    let mut r = String::new();
    items[0].1.push_header(&mut r);
    let ghost base = r@;
    let ghost f = |e: (i64, GraphNode)| node_row(e.1);
    let mut i: usize = 0;
    assert(items@.subrange(0, 0).map_values(f) =~= Seq::<Seq<char>>::empty());
    assert(base =~= node_header(items@[0].1));
    while i < items.len()
        invariant
            0 <= i <= items.len(),
            forall|b: int| 0 <= b < items@.len() ==> #[trigger] ctx_complete(items@[b].1),
            f == (|e: (i64, GraphNode)| node_row(e.1)),
            r@ == base + concat(items@.subrange(0, i as int).map_values(f)),
        decreases items.len() - i,
    {
        assert(ctx_complete(items@[i as int].1));
        let row = items[i].1.row();
        push_string(&mut r, &row);
        let ghost next = items@.subrange(0, i + 1).map_values(f);
        assert(next.drop_last() =~= items@.subrange(0, i as int).map_values(f));
        assert(next.last() == node_row(items@[i as int].1));
        i = i + 1;
        assert(r@ =~= base + concat(next));
    }
    assert(items@.subrange(0, i as int) =~= items@);
    r
}

fn rel_text(items: &Vec<(i64, GraphRel)>) -> (r: String)
    ensures
        r@ == rel_file_text(items@),
{
    if items.len() == 0 {
        return String::new();
    }
    let mut r = items[0].1.header();
    let ghost base = r@;
    let ghost f = |e: (i64, GraphRel)| rel_row(e.1);
    let mut i: usize = 0;
    assert(items@.subrange(0, 0).map_values(f) =~= Seq::<Seq<char>>::empty());
    while i < items.len()
        invariant
            0 <= i <= items.len(),
            f == (|e: (i64, GraphRel)| rel_row(e.1)),
            r@ == base + concat(items@.subrange(0, i as int).map_values(f)),
        decreases items.len() - i,
    {
        let row = items[i].1.row();
        push_string(&mut r, &row);
        let ghost next = items@.subrange(0, i + 1).map_values(f);
        assert(next.drop_last() =~= items@.subrange(0, i as int).map_values(f));
        assert(next.last() == rel_row(items@[i as int].1));
        i = i + 1;
        assert(r@ =~= base + concat(next));
    }
    assert(items@.subrange(0, i as int) =~= items@);
    r
}

} // verus!
