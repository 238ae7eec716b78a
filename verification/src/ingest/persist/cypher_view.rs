//! Rendering the provenance graph as a Cypher script that creates it.
use vstd::prelude::*;

use crate::cypher_store::{owned_labels, render_props, spec_render_props, CypherStore};
use crate::data::nodeid::NodeID;
use crate::data::value::labels_view;
use crate::text::{
    chunked_join, chunks, decimal_int, join, join_range, lemma_map_push, lemma_prefix_push,
    push_i64, push_str, push_string, texts, to_owned,
};

verus! {

/// How many nodes, or relationships, one transaction of the script creates.
pub const TR_SIZE: usize = 10000;

/// What opens a transaction that creates nodes.
pub const NODES_BEGIN: &'static str = ":begin\n                 UNWIND [";

/// What closes a transaction that creates nodes.
pub const NODES_END: &'static str = "] as n\n                 CALL apoc.create.node(n.labels, n.props) YIELD node\n                 RETURN 0;\n                 :commit";

/// The statements between the nodes and the relationships: indexes and the schema version.
pub const INDEXES: &'static str = "CREATE INDEX ON :Node(db_id);\n             CREATE INDEX ON :Process(uuid);\n             CREATE INDEX ON :File(uuid);\n             CREATE INDEX ON :EditSession(uuid);\n             MERGE (:DBInfo {pvm_version: 2});\n             CALL db.awaitIndexes();";

/// What opens a transaction that creates relationships.
pub const RELS_BEGIN: &'static str = ":begin\n                 UNWIND [";

/// What closes a transaction that creates relationships.
pub const RELS_END: &'static str = "] AS r\n                 MATCH (s:Node {db_id: r.src}), (d:Node {db_id: r.dst})\n                 CALL apoc.create.relationship(s, r.type, r.props, d) YIELD rel\n                 RETURN 0;\n                 :commit";

/// Labels rendered as a Cypher list of strings: `["L1", "L2"]`.
pub open spec fn spec_render_labs(labs: Seq<Seq<char>>) -> Seq<char> {
    "[\""@ + join(labs, "\", \""@) + "\"]"@
}

/// Renders labels as a Cypher list of strings: `["L1", "L2"]`.
pub fn render_labs(labs: &Vec<&'static str>) -> (r: String)
    ensures
        r@ == spec_render_labs(labels_view(labs@)),
{
    let owned = owned_labels(labs);
    let mut r = to_owned("[\"");
    let body = join_range(&owned, 0, owned.len(), "\", \"");
    push_string(&mut r, &body);
    push_str(&mut r, "\"]");
    assert(owned@.subrange(0, owned@.len() as int) =~= owned@);
    r
}

/// A node as an item of the node list: `{labels: L, props: P}`.
pub open spec fn node_text(e: (Seq<char>, Seq<char>)) -> Seq<char> {
    "{labels: "@ + e.0 + ", props: "@ + e.1 + "}"@
}

/// A relationship as an item of the relationship list.
pub open spec fn rel_text(src: NodeID, dst: NodeID, ty: Seq<char>, props: Seq<char>) -> Seq<char> {
    "{src: "@ + decimal_int(src.0 as int) + ", dst: "@ + decimal_int(dst.0 as int) + ", type: \""@
        + ty + "\", props: "@ + props + "}"@
}

/// The script for the given nodes and relationships: the nodes in
/// transactions of [`TR_SIZE`], the index statements, then the
/// relationships in transactions of [`TR_SIZE`]. Each item is one line
/// group of the output.
pub open spec fn spec_script(
    entries: Seq<(Seq<char>, Seq<char>)>,
    rels: Seq<Seq<char>>,
) -> Seq<Seq<char>> {
    chunks(entries.map_values(|e: (Seq<char>, Seq<char>)| node_text(e)), TR_SIZE as nat).map_values(
        |c: Seq<Seq<char>>| NODES_BEGIN@ + join(c, ", "@) + NODES_END@,
    ) + seq![INDEXES@] + chunks(rels, TR_SIZE as nat).map_values(
        |c: Seq<Seq<char>>| RELS_BEGIN@ + join(c, ", "@) + RELS_END@,
    )
}

/// A view that collects the graph and renders it as a Cypher script.
pub struct CypherView {
    store: CypherStore,
}

impl CypherView {
    /// The collected nodes and relationships.
    pub closed spec fn store(&self) -> CypherStore {
        self.store
    }

    /// Well-formedness of the collected graph.
    pub open spec fn wf(&self) -> bool {
        self.store().wf()
    }

    /// A view that has collected nothing.
    pub fn new() -> (r: Self)
        ensures
            r.wf(),
            r.store().node_map() == Map::<i64, (Seq<char>, Seq<char>)>::empty(),
            r.store().node_order() == Seq::<i64>::empty(),
            r.store().rel_texts() == Seq::<Seq<char>>::empty(),
    {
        CypherView { store: CypherStore::new() }
    }

    /// Records a created node, from its identifier, labels and properties
    /// (values already rendered).
    pub fn create_node(&mut self, id: NodeID, labs: &Vec<&'static str>, props: &Vec<(String, String)>)
        requires
            old(self).wf(),
        ensures
            final(self).wf(),
            final(self).store().node_map() == old(self).store().node_map().insert(
                id.0,
                (
                    spec_render_labs(labels_view(labs@)),
                    spec_render_props(props@.map_values(|e: (String, String)| (e.0@, e.1@))),
                ),
            ),
            final(self).store().node_order() == (if old(self).store().node_map().contains_key(id.0) {
                old(self).store().node_order()
            } else {
                old(self).store().node_order().push(id.0)
            }),
            final(self).store().rel_texts() == old(self).store().rel_texts(),
    {
        let l = render_labs(labs);
        let p = render_props(props);
        self.store.create_node(id.0, l, p);
    }

    /// Records a created relationship (property values already rendered).
    pub fn create_rel(&mut self, src: NodeID, dst: NodeID, ty: &str, props: &Vec<(String, String)>)
        requires
            old(self).wf(),
        ensures
            final(self).wf(),
            final(self).store().node_map() == old(self).store().node_map(),
            final(self).store().node_order() == old(self).store().node_order(),
            final(self).store().rel_texts() == old(self).store().rel_texts().push(
                rel_text(
                    src,
                    dst,
                    ty@,
                    spec_render_props(props@.map_values(|e: (String, String)| (e.0@, e.1@))),
                ),
            ),
    {
        let mut s = to_owned("{src: ");
        push_i64(&mut s, src.0);
        push_str(&mut s, ", dst: ");
        push_i64(&mut s, dst.0);
        push_str(&mut s, ", type: \"");
        push_str(&mut s, ty);
        push_str(&mut s, "\", props: ");
        let p = render_props(props);
        push_string(&mut s, &p);
        push_str(&mut s, "}");
        assert(s@ =~= rel_text(
            src,
            dst,
            ty@,
            spec_render_props(props@.map_values(|e: (String, String)| (e.0@, e.1@))),
        ));
        self.store.add_rel(s);
    }

    /// Whether a node with identifier `id` was created.
    pub fn contains(&self, id: NodeID) -> (r: bool)
        ensures
            r == self.store().node_map().contains_key(id.0),
    {
        self.store.contains(id.0)
    }

    /// Records new properties (values already rendered) for a node created
    /// before; its labels stay.
    pub fn update_node(&mut self, id: NodeID, props: &Vec<(String, String)>)
        requires
            old(self).wf(),
            old(self).store().node_map().contains_key(id.0),
        ensures
            final(self).wf(),
            final(self).store().node_map() == old(self).store().node_map().insert(
                id.0,
                (
                    old(self).store().node_map()[id.0].0,
                    spec_render_props(props@.map_values(|e: (String, String)| (e.0@, e.1@))),
                ),
            ),
            final(self).store().node_order() == old(self).store().node_order(),
            final(self).store().rel_texts() == old(self).store().rel_texts(),
    {
        let p = render_props(props);
        self.store.update_node(id.0, p);
    }

    /// The script that creates the collected graph, one item per written block.
    pub fn script(&self) -> (r: Vec<String>)
        requires
            self.wf(),
        ensures
            texts(r@) == spec_script(self.store().entries(), self.store().rel_texts()),
    {
        let entries = self.store.node_entries();
        let ghost ev = entries@.map_values(|e: (String, String)| (e.0@, e.1@));
        let mut lines: Vec<String> = Vec::new();
        let mut i: usize = 0;
        while i < entries.len()
            invariant
                0 <= i <= entries.len(),
                ev == entries@.map_values(|e: (String, String)| (e.0@, e.1@)),
                texts(lines@) == ev.subrange(0, i as int).map_values(
                    |e: (Seq<char>, Seq<char>)| node_text(e),
                ),
            decreases entries.len() - i,
        {
            let mut s = to_owned("{labels: ");
            push_string(&mut s, &entries[i].0);
            push_str(&mut s, ", props: ");
            push_string(&mut s, &entries[i].1);
            push_str(&mut s, "}");
            let ghost prev = lines@;
            lines.push(s);
            proof {
                lemma_map_push(prev, lines@.last(), |s: String| s@);
                lemma_map_push(
                    ev.subrange(0, i as int),
                    ev[i as int],
                    |e: (Seq<char>, Seq<char>)| node_text(e),
                );
                lemma_prefix_push(ev, i as int);
                assert(lines@ == prev.push(lines@.last()));
            }
            i = i + 1;
        }
        assert(ev.subrange(0, i as int) =~= ev);
        let mut r = chunked_join(&lines, TR_SIZE, ", ", NODES_BEGIN, NODES_END);
        r.push(to_owned(INDEXES));
        let mut rel_part = chunked_join(self.store.rels(), TR_SIZE, ", ", RELS_BEGIN, RELS_END);
        let ghost r1 = r@;
        let ghost r2 = rel_part@;
        r.append(&mut rel_part);
        assert(r@ == r1 + r2);
        assert(texts(r@) =~= texts(r1) + texts(r2));
        r
    }
}


/// A relationship item names the relationship's source under `src` and its
/// destination under `dst`, in that order.
pub proof fn lemma_rel_text_endpoints(src: NodeID, dst: NodeID, ty: Seq<char>, props: Seq<char>)
    ensures
        ({
            let t = rel_text(src, dst, ty, props);
            let start = "{src: "@ + decimal_int(src.0 as int) + ", dst: "@ + decimal_int(dst.0 as int) + ", type: \""@;
            start.len() <= t.len() && t.subrange(0, start.len() as int) == start
        }),
{
    let t = rel_text(src, dst, ty, props);
    let start = "{src: "@ + decimal_int(src.0 as int) + ", dst: "@ + decimal_int(dst.0 as int) + ", type: \""@;
    assert(t =~= start + (ty + "\", props: "@ + props + "}"@));
    assert(t.subrange(0, start.len() as int) =~= start);
}

} // verus!
