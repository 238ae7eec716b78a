//! Collecting nodes and relationships before they are written out as Cypher.
use std::collections::HashMap;

use vstd::prelude::*;

use crate::data::value::labels_view;
use crate::text::{join, join_range, lemma_map_push, lemma_prefix_push, push_str, texts, to_owned};

verus! {

/// Nodes by identifier, each with its rendered labels and properties, in the
/// order in which they were first created; and rendered relationships.
pub struct CypherStore {
    nodes: HashMap<i64, (String, String)>,
    order: Vec<i64>,
    rels: Vec<String>,
}

impl CypherStore {
    /// The rendered labels and properties of each node.
    pub closed spec fn node_map(&self) -> Map<i64, (Seq<char>, Seq<char>)> {
        self.nodes@.map_values(|e: (String, String)| (e.0@, e.1@))
    }

    /// The node identifiers in the order of their first creation.
    pub closed spec fn node_order(&self) -> Seq<i64> {
        self.order@
    }

    /// The rendered relationships, in order.
    pub closed spec fn rel_texts(&self) -> Seq<Seq<char>> {
        texts(self.rels@)
    }

    /// Each node identifier is listed once, and exactly the stored nodes are listed.
    pub open spec fn wf(&self) -> bool {
        &&& self.node_order().no_duplicates()
        &&& forall|id: i64| self.node_map().contains_key(id) <==> self.node_order().contains(id)
    }

    /// The nodes' rendered labels and properties, in order of first creation.
    pub open spec fn entries(&self) -> Seq<(Seq<char>, Seq<char>)> {
        self.node_order().map_values(|id: i64| self.node_map()[id])
    }

    /// An empty store.
    pub fn new() -> (r: Self)
        ensures
            r.wf(),
            r.node_map() == Map::<i64, (Seq<char>, Seq<char>)>::empty(),
            r.node_order() == Seq::<i64>::empty(),
            r.rel_texts() == Seq::<Seq<char>>::empty(),
    {
        let r = CypherStore { nodes: HashMap::new(), order: Vec::new(), rels: Vec::new() };
        assert(r.node_map() =~= Map::<i64, (Seq<char>, Seq<char>)>::empty());
        assert(r.rel_texts() =~= Seq::<Seq<char>>::empty());
        r
    }

    /// Whether a node with identifier `id` is stored.
    pub fn contains(&self, id: i64) -> (r: bool)
        ensures
            r == self.node_map().contains_key(id),
    {
        self.nodes.contains_key(&id)
    }

    /// Stores a node, replacing one with the same identifier.
    pub fn create_node(&mut self, id: i64, labs: String, props: String)
        requires
            old(self).wf(),
        ensures
            final(self).wf(),
            final(self).node_map() == old(self).node_map().insert(id, (labs@, props@)),
            final(self).node_order() == (if old(self).node_map().contains_key(id) {
                old(self).node_order()
            } else {
                old(self).node_order().push(id)
            }),
            final(self).rel_texts() == old(self).rel_texts(),
    {
        let ghost pre = *self;
        let fresh = !self.nodes.contains_key(&id);
        self.nodes.insert(id, (labs, props));
        if fresh {
            self.order.push(id);
            proof {
                assert(!pre.node_order().contains(id));
                assert forall|i: int, j: int|
                    0 <= i < j < self.order@.len() implies self.order@[i] != self.order@[j] by {
                    if j == self.order@.len() - 1 {
                        assert(pre.order@.contains(self.order@[i]));
                    }
                }
            }
        }
        assert(self.node_map() =~= pre.node_map().insert(id, (labs@, props@)));
        assert forall|x: i64| self.node_map().contains_key(x) <==> self.node_order().contains(
            x,
        ) by {
            if x != id {
                assert(pre.node_map().contains_key(x) <==> pre.node_order().contains(x));
                if self.node_order().contains(x) {
                    let k = choose|k: int| 0 <= k < self.node_order().len() && self.node_order()[k] == x;
                    if fresh {
                        assert(k < pre.node_order().len());
                        assert(pre.node_order()[k] == x);
                    }
                }
                if pre.node_order().contains(x) {
                    let k = choose|k: int| 0 <= k < pre.node_order().len() && pre.node_order()[k] == x;
                    assert(self.node_order()[k] == x);
                }
            } else if fresh {
                assert(self.node_order()[self.node_order().len() - 1] == id);
            }
        }
    }

    /// Replaces the rendered properties of a stored node, keeping its labels.
    pub fn update_node(&mut self, id: i64, props: String)
        requires
            old(self).wf(),
            old(self).node_map().contains_key(id),
        ensures
            final(self).wf(),
            final(self).node_map() == old(self).node_map().insert(
                id,
                (old(self).node_map()[id].0, props@),
            ),
            final(self).node_order() == old(self).node_order(),
            final(self).rel_texts() == old(self).rel_texts(),
    {
        let ghost pre = *self;
        let (l, _) = self.nodes.remove(&id).unwrap();
        self.nodes.insert(id, (l, props));
        assert(self.node_map() =~= pre.node_map().insert(id, (pre.node_map()[id].0, props@)));
    }

    /// Appends a rendered relationship.
    pub fn add_rel(&mut self, text: String)
        requires
            old(self).wf(),
        ensures
            final(self).wf(),
            final(self).node_map() == old(self).node_map(),
            final(self).node_order() == old(self).node_order(),
            final(self).rel_texts() == old(self).rel_texts().push(text@),
    {
        self.rels.push(text);
        assert(self.rel_texts() =~= old(self).rel_texts().push(text@));
    }

    /// The rendered relationships, in order.
    pub fn rels(&self) -> (r: &Vec<String>)
        ensures
            texts(r@) == self.rel_texts(),
    {
        &self.rels
    }

    /// The nodes' rendered labels and properties, in order of first creation.
    pub fn node_entries(&self) -> (r: Vec<(String, String)>)
        requires
            self.wf(),
        ensures
            r@.map_values(|e: (String, String)| (e.0@, e.1@)) == self.entries(),
    {
        let mut r: Vec<(String, String)> = Vec::new();
        let mut i: usize = 0;
        while i < self.order.len()
            invariant
                self.wf(),
                0 <= i <= self.order@.len(),
                r@.map_values(|e: (String, String)| (e.0@, e.1@)) == self.entries().subrange(
                    0,
                    i as int,
                ),
            decreases self.order.len() - i,
        {
            let id = self.order[i];
            assert(self.node_order().contains(id));
            let e = self.nodes.get(&id).unwrap();
            let ghost prev = r@;
            r.push((e.0.clone(), e.1.clone()));
            proof {
                lemma_map_push(prev, r@.last(), |e: (String, String)| (e.0@, e.1@));
                lemma_prefix_push(self.entries(), i as int);
                assert(r@ == prev.push(r@.last()));
            }
            i = i + 1;
        }
        assert(self.entries().subrange(0, i as int) =~= self.entries());
        r
    }
}

/// Owned copies of the labels.
pub fn owned_labels(labs: &Vec<&'static str>) -> (r: Vec<String>)
    ensures
        texts(r@) == labels_view(labs@),
{
    let mut r: Vec<String> = Vec::new();
    let mut i: usize = 0;
    while i < labs.len()
        invariant
            0 <= i <= labs.len(),
            texts(r@) == labels_view(labs@.subrange(0, i as int)),
        decreases labs.len() - i,
    {
        let ghost prev = r@;
        r.push(to_owned(labs[i]));
        proof {
            lemma_map_push(prev, r@.last(), |s: String| s@);
            lemma_map_push(labs@.subrange(0, i as int), labs@[i as int], |s: &'static str| s@);
            lemma_prefix_push(labs@, i as int);
            assert(r@ == prev.push(r@.last()));
        }
        i = i + 1;
    }
    assert(labs@.subrange(0, i as int) =~= labs@);
    r
}

/// The rendering of one property: key, `": "`, rendered value.
pub open spec fn prop_text(p: (Seq<char>, Seq<char>)) -> Seq<char> {
    p.0 + ": "@ + p.1
}

/// A property map rendered as `{k1: v1, k2: v2}`, from the properties with
/// their values already rendered.
pub open spec fn spec_render_props(props: Seq<(Seq<char>, Seq<char>)>) -> Seq<char> {
    "{"@ + join(props.map_values(|p: (Seq<char>, Seq<char>)| prop_text(p)), ", "@) + "}"@
}

/// Renders a property map as `{k1: v1, k2: v2}`, from the properties with
/// their values already rendered.
pub fn render_props(props: &Vec<(String, String)>) -> (r: String)
    ensures
        r@ == spec_render_props(props@.map_values(|e: (String, String)| (e.0@, e.1@))),
{
    let ghost pv = props@.map_values(|e: (String, String)| (e.0@, e.1@));
    let mut items: Vec<String> = Vec::new();
    let mut i: usize = 0;
    while i < props.len()
        invariant
            0 <= i <= props.len(),
            pv == props@.map_values(|e: (String, String)| (e.0@, e.1@)),
            texts(items@) == pv.subrange(0, i as int).map_values(
                |p: (Seq<char>, Seq<char>)| prop_text(p),
            ),
        decreases props.len() - i,
    {
        let mut s = props[i].0.clone();
        push_str(&mut s, ": ");
        push_string_ref(&mut s, &props[i].1);
        let ghost prev = items@;
        items.push(s);
        proof {
            lemma_map_push(prev, items@.last(), |s: String| s@);
            lemma_map_push(pv.subrange(0, i as int), pv[i as int], |p: (Seq<char>, Seq<char>)| prop_text(p));
            lemma_prefix_push(pv, i as int);
            assert(items@ == prev.push(items@.last()));
        }
        i = i + 1;
    }
    assert(pv.subrange(0, i as int) =~= pv);
    let mut r = to_owned("{");
    let body = join_range(&items, 0, items.len(), ", ");
    push_string_ref(&mut r, &body);
    push_str(&mut r, "}");
    assert(items@.subrange(0, items@.len() as int) =~= items@);
    assert(r@ =~= spec_render_props(pv));
    r
}

fn push_string_ref(s: &mut String, other: &String)
    ensures
        final(s)@ == old(s)@ + other@,
{
    crate::text::push_string(s, other);
}

} // verus!
