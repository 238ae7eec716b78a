//! A view type that writes the provenance graph as a Cypher script of
//! `CREATE` and `MATCH ... CREATE` statements.
use vstd::prelude::*;

use crate::cypher_store::{owned_labels, render_props, spec_render_props, CypherStore};
use crate::data::id::ID;
use crate::data::value::labels_view;
use crate::text::{
    chunked_join, chunks, decimal_int, join, join_range, lemma_map_push, lemma_prefix_push,
    push_i64, push_str, push_string, texts, to_owned,
};

verus! {

/// How many statements one transaction of the script holds.
pub const TR_SIZE: usize = 10000;

/// What opens a transaction of the script.
pub const TR_BEGIN: &'static str = ":begin\n                     ";

/// What closes a transaction of the script.
pub const TR_END: &'static str = "\n                     :commit";

/// The statements between the nodes and the relationships: indexes and the schema version.
pub const INDEXES: &'static str = "CREATE INDEX ON :Node(db_id);\n                 CREATE INDEX ON :Process(uuid);\n                 CREATE INDEX ON :File(uuid);\n                 CREATE INDEX ON :EditSession(uuid);\n                 MERGE (:DBInfo {pvm_version: 2});\n                 CALL db.awaitIndexes();";

/// A view type that writes the graph as a static Cypher file.
#[derive(Debug)]
pub struct CypherView {
    id: usize,
}

impl CypherView {
    /// The identifier of the view type, in specifications.
    pub closed spec fn spec_id(&self) -> usize {
        self.id
    }

    /// A view type registered under `id`.
    pub fn new(id: usize) -> (r: CypherView)
        ensures
            r.spec_id() == id,
    {
        CypherView { id }
    }

    /// The identifier of the view type.
    pub fn id(&self) -> (r: usize)
        ensures
            r == self.spec_id(),
    {
        self.id
    }

    /// The name of the view type.
    pub fn name(&self) -> (r: &'static str)
        ensures
            r@ == "CypherView"@,
    {
        "CypherView"
    }

    /// What the view type does.
    pub fn desc(&self) -> (r: &'static str)
        ensures
            r@ == "View for writing a static cypher file for later consumption."@,
    {
        "View for writing a static cypher file for later consumption."
    }

    /// The parameters a view of this type takes, with their descriptions.
    pub fn params(&self) -> (r: Vec<(&'static str, &'static str)>)
        ensures
            r@.len() == 1,
            r@[0].0@ == "path"@,
            r@[0].1@ == "The file to write the cypher data to."@,
    {
        vec![("path", "The file to write the cypher data to.")]
    }
}

/// Labels as a Cypher label list: `L1:L2`.
pub open spec fn spec_render_labs(labs: Seq<Seq<char>>) -> Seq<char> {
    join(labs, ":"@)
}

/// Renders labels as a Cypher label list: `L1:L2`.
pub fn render_labs(labs: &Vec<&'static str>) -> (r: String)
    ensures
        r@ == spec_render_labs(labels_view(labs@)),
{
    let owned = owned_labels(labs);
    let r = join_range(&owned, 0, owned.len(), ":");
    assert(owned@.subrange(0, owned@.len() as int) =~= owned@);
    r
}

/// The statement that creates a node: `CREATE (n:L P);`.
pub open spec fn node_stmt(e: (Seq<char>, Seq<char>)) -> Seq<char> {
    "CREATE (n:"@ + e.0 + " "@ + e.1 + ");"@
}

/// The statement that creates a relationship of type `ty` from `src` to `dst`.
pub open spec fn rel_stmt(src: ID, dst: ID, ty: Seq<char>, props: Seq<char>) -> Seq<char> {
    "MATCH (s:Node {db_id: "@ + decimal_int(src.0 as int) + "}), (d:Node {db_id: "@ + decimal_int(
        dst.0 as int,
    ) + "}) CREATE (s)-[:"@ + ty + " "@ + props + "]->(d);"@
}

/// The script for the given nodes and relationships: node statements in
/// transactions of [`TR_SIZE`], the index statements, then relationship
/// statements in transactions of [`TR_SIZE`].
pub open spec fn spec_script(entries: Seq<(Seq<char>, Seq<char>)>, rels: Seq<Seq<char>>) -> Seq<
    Seq<char>,
> {
    chunks(entries.map_values(|e: (Seq<char>, Seq<char>)| node_stmt(e)), TR_SIZE as nat).map_values(
        |c: Seq<Seq<char>>| TR_BEGIN@ + join(c, "\n"@) + TR_END@,
    ) + seq![INDEXES@] + chunks(rels, TR_SIZE as nat).map_values(
        |c: Seq<Seq<char>>| TR_BEGIN@ + join(c, "\n"@) + TR_END@,
    )
}

/// The graph collected by a Cypher view, and the script that creates it.
pub struct CypherScript {
    store: CypherStore,
}

impl CypherScript {
    /// The collected nodes and relationships.
    pub closed spec fn store(&self) -> CypherStore {
        self.store
    }

    /// Well-formedness of the collected graph.
    pub open spec fn wf(&self) -> bool {
        self.store().wf()
    }

    /// A script with nothing collected.
    pub fn new() -> (r: Self)
        ensures
            r.wf(),
            r.store().node_map() == Map::<i64, (Seq<char>, Seq<char>)>::empty(),
            r.store().node_order() == Seq::<i64>::empty(),
            r.store().rel_texts() == Seq::<Seq<char>>::empty(),
    {
        CypherScript { store: CypherStore::new() }
    }

    /// Records a created node (property values already rendered).
    pub fn create_node(&mut self, id: ID, labs: &Vec<&'static str>, props: &Vec<(String, String)>)
        requires
            old(self).wf(),
        ensures
            final(self).wf(),
            final(self).store().node_map() == old(self).store().node_map().insert(
                id.0,
                (
                    spec_render_labs(labels_view(labs@)),
                    spec_render_props(props@.map_values(|e: (String, String)| (e.0@, e.1@))),
                ),
            ),
            final(self).store().node_order() == (if old(self).store().node_map().contains_key(id.0) {
                old(self).store().node_order()
            } else {
                old(self).store().node_order().push(id.0)
            }),
            final(self).store().rel_texts() == old(self).store().rel_texts(),
    {
        let l = render_labs(labs);
        let p = render_props(props);
        self.store.create_node(id.0, l, p);
    }

    /// Records a created relationship (property values already rendered).
    pub fn create_rel(&mut self, src: ID, dst: ID, ty: &str, props: &Vec<(String, String)>)
        requires
            old(self).wf(),
        ensures
            final(self).wf(),
            final(self).store().node_map() == old(self).store().node_map(),
            final(self).store().node_order() == old(self).store().node_order(),
            final(self).store().rel_texts() == old(self).store().rel_texts().push(
                rel_stmt(
                    src,
                    dst,
                    ty@,
                    spec_render_props(props@.map_values(|e: (String, String)| (e.0@, e.1@))),
                ),
            ),
    {
        let mut s = to_owned("MATCH (s:Node {db_id: ");
        push_i64(&mut s, src.0);
        push_str(&mut s, "}), (d:Node {db_id: ");
        push_i64(&mut s, dst.0);
        push_str(&mut s, "}) CREATE (s)-[:");
        push_str(&mut s, ty);
        push_str(&mut s, " ");
        let p = render_props(props);
        push_string(&mut s, &p);
        push_str(&mut s, "]->(d);");
        assert(s@ =~= rel_stmt(
            src,
            dst,
            ty@,
            spec_render_props(props@.map_values(|e: (String, String)| (e.0@, e.1@))),
        ));
        self.store.add_rel(s);
    }

    /// Whether a node with identifier `id` was created.
    pub fn contains(&self, id: ID) -> (r: bool)
        ensures
            r == self.store().node_map().contains_key(id.0),
    {
        self.store.contains(id.0)
    }

    /// Records new properties (values already rendered) for a node created
    /// before; its labels stay.
    pub fn update_node(&mut self, id: ID, props: &Vec<(String, String)>)
        requires
            old(self).wf(),
            old(self).store().node_map().contains_key(id.0),
        ensures
            final(self).wf(),
            final(self).store().node_map() == old(self).store().node_map().insert(
                id.0,
                (
                    old(self).store().node_map()[id.0].0,
                    spec_render_props(props@.map_values(|e: (String, String)| (e.0@, e.1@))),
                ),
            ),
            final(self).store().node_order() == old(self).store().node_order(),
            final(self).store().rel_texts() == old(self).store().rel_texts(),
    {
        let p = render_props(props);
        self.store.update_node(id.0, p);
    }

    /// The script that creates the collected graph, one item per written block.
    pub fn script(&self) -> (r: Vec<String>)
        requires
            self.wf(),
        ensures
            texts(r@) == spec_script(self.store().entries(), self.store().rel_texts()),
    {
        let entries = self.store.node_entries();
        let ghost ev = entries@.map_values(|e: (String, String)| (e.0@, e.1@));
        let mut lines: Vec<String> = Vec::new();
        let mut i: usize = 0;
        while i < entries.len()
            invariant
                0 <= i <= entries.len(),
                ev == entries@.map_values(|e: (String, String)| (e.0@, e.1@)),
                texts(lines@) == ev.subrange(0, i as int).map_values(
                    |e: (Seq<char>, Seq<char>)| node_stmt(e),
                ),
            decreases entries.len() - i,
        {
            let mut s = to_owned("CREATE (n:");
            push_string(&mut s, &entries[i].0);
            push_str(&mut s, " ");
            push_string(&mut s, &entries[i].1);
            push_str(&mut s, ");");
            let ghost prev = lines@;
            lines.push(s);
            proof {
                lemma_map_push(prev, lines@.last(), |s: String| s@);
                lemma_map_push(
                    ev.subrange(0, i as int),
                    ev[i as int],
                    |e: (Seq<char>, Seq<char>)| node_stmt(e),
                );
                lemma_prefix_push(ev, i as int);
                assert(lines@ == prev.push(lines@.last()));
            }
            i = i + 1;
        }
        assert(ev.subrange(0, i as int) =~= ev);
        let mut r = chunked_join(&lines, TR_SIZE, "\n", TR_BEGIN, TR_END);
        r.push(to_owned(INDEXES));
        let mut rel_part = chunked_join(self.store.rels(), TR_SIZE, "\n", TR_BEGIN, TR_END);
        let ghost r1 = r@;
        let ghost r2 = rel_part@;
        r.append(&mut rel_part);
        assert(r@ == r1 + r2);
        assert(texts(r@) =~= texts(r1) + texts(r2));
        r
    }
}


/// A relationship statement matches the relationship's source as the start
/// node `s` and its destination as the end node `d`, and creates the
/// relationship from `s` to `d`.
pub proof fn lemma_rel_stmt_direction(src: ID, dst: ID, ty: Seq<char>, props: Seq<char>)
    ensures
        ({
            let t = rel_stmt(src, dst, ty, props);
            let start = "MATCH (s:Node {db_id: "@ + decimal_int(src.0 as int) + "}), (d:Node {db_id: "@
                + decimal_int(dst.0 as int) + "})"@;
            let end = "]->(d);"@;
            &&& start.len() + end.len() <= t.len()
            &&& t.subrange(0, start.len() as int) == start
            &&& t.subrange(t.len() - end.len(), t.len() as int) == end
            &&& t.subrange(start.len() as int, (start.len() + " CREATE (s)-[:"@.len()) as int) == " CREATE (s)-[:"@
        }),
{
    reveal_strlit("}) CREATE (s)-[:");
    reveal_strlit("})");
    reveal_strlit(" CREATE (s)-[:");
    assert("}) CREATE (s)-[:"@ =~= "})"@ + " CREATE (s)-[:"@);
    let t = rel_stmt(src, dst, ty, props);
    let start = "MATCH (s:Node {db_id: "@ + decimal_int(src.0 as int) + "}), (d:Node {db_id: "@
        + decimal_int(dst.0 as int) + "})"@;
    let end = "]->(d);"@;
    let mid = " CREATE (s)-[:"@ + ty + " "@ + props;
    assert(t =~= start + mid + end);
    assert(t.subrange(0, start.len() as int) =~= start);
    assert(t.subrange(t.len() - end.len(), t.len() as int) =~= end);
    assert(t.subrange(start.len() as int, (start.len() + " CREATE (s)-[:"@.len()) as int) =~= " CREATE (s)-[:"@);
}

} // verus!
