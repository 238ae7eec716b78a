//! Buffers of pending database writes, flushed in batches.
use vstd::prelude::*;

use crate::data::value::{lemma_list_view, Value, ValueV};
use crate::text::{lemma_map_push, lemma_prefix_push, to_owned};

verus! {

/// The index of the first entry whose key is `id`, if any.
pub open spec fn find_id<K, A>(s: Seq<(K, A)>, id: K) -> Option<int>
    decreases s.len(),
{
    if s.len() == 0 {
        None
    } else {
        match find_id(s.drop_last(), id) {
            Some(i) => Some(i),
            None => if s.last().0 == id {
                Some(s.len() - 1)
            } else {
                None
            },
        }
    }
}

pub proof fn lemma_find_id<K, A>(s: Seq<(K, A)>, id: K)
    ensures
        match find_id(s, id) {
            Some(i) => 0 <= i < s.len() && s[i].0 == id && forall|j: int| 0 <= j < i ==> s[j].0 != id,
            None => forall|j: int| 0 <= j < s.len() ==> s[j].0 != id,
        },
    decreases s.len(),
{
    if s.len() > 0 {
        let d = s.drop_last();
        lemma_find_id(d, id);
        assert forall|j: int| 0 <= j < d.len() implies d[j] == s[j] by {}
    }
}

pub proof fn lemma_find_id_prefix<K, A>(s: Seq<(K, A)>, id: K, k: int)
    requires
        0 <= k <= s.len(),
        forall|j: int| 0 <= j < k ==> s[j].0 != id,
        k < s.len() ==> s[k].0 == id,
    ensures
        find_id(s, id) == if k < s.len() {
            Some(k)
        } else {
            None::<int>
        },
    decreases s.len(),
{
    lemma_find_id(s, id);
    if s.len() > 0 {
        if k < s.len() {
            match find_id(s, id) {
                Some(i) => {
                    if i < k {
                        assert(s[i].0 != id);
                    }
                    if i > k {
                        assert(s[k].0 != id);
                    }
                },
                None => {
                    assert(s[k].0 != id);
                },
            }
        }
    }
}

/// Replacing the entry that `find_id` finds keeps it the one found; when
/// there is none, an appended entry is the one found.
pub proof fn lemma_find_id_after_put<K, A>(s: Seq<(K, A)>, id: K, x: A)
    ensures
        match find_id(s, id) {
            Some(i) => find_id(s.update(i, (id, x)), id) == Some(i),
            None => find_id(s.push((id, x)), id) == Some(s.len() as int),
        },
{
    lemma_find_id(s, id);
    match find_id(s, id) {
        Some(i) => {
            let t = s.update(i, (id, x));
            assert forall|j: int| 0 <= j < i implies t[j].0 != id by {}
            lemma_find_id_prefix(t, id, i);
        },
        None => {
            let t = s.push((id, x));
            assert forall|j: int| 0 <= j < s.len() implies t[j].0 != id by {}
            lemma_find_id_prefix(t, id, s.len() as int);
        },
    }
}

/// Adding a pending creation for a node twice leaves only the second:
/// the same as adding the second alone.
pub proof fn lemma_nodes_add_twice(
    s: Seq<(i64, (ValueV, ValueV))>,
    id: i64,
    l1: ValueV,
    p1: ValueV,
    l2: ValueV,
    p2: ValueV,
)
    ensures
        nodes_add(nodes_add(s, id, l1, p1), id, l2, p2) == nodes_add(s, id, l2, p2),
{
    lemma_find_id(s, id);
    lemma_find_id_after_put(s, id, (l1, p1));
    match find_id(s, id) {
        Some(i) => {
            assert(s.update(i, (id, (l1, p1))).update(i, (id, (l2, p2))) =~= s.update(i, (id, (l2, p2))));
        },
        None => {
            assert(s.push((id, (l1, p1))).update(s.len() as int, (id, (l2, p2))) =~= s.push((id, (l2, p2))));
        },
    }
}

/// Adding a keyed write twice leaves only the second: the same as adding
/// the second alone.
pub proof fn lemma_keyed_add_twice(s: Seq<(i64, ValueV)>, id: i64, v1: ValueV, v2: ValueV)
    ensures
        keyed_add(keyed_add(s, id, v1), id, v2) == keyed_add(s, id, v2),
{
    lemma_find_id(s, id);
    lemma_find_id_after_put(s, id, v1);
    match find_id(s, id) {
        Some(i) => {
            assert(s.update(i, (id, v1)).update(i, (id, v2)) =~= s.update(i, (id, v2)));
        },
        None => {
            assert(s.push((id, v1)).update(s.len() as int, (id, v2)) =~= s.push((id, v2)));
        },
    }
}

/// Pending node creations: per node identifier its labels and properties,
/// in order of first addition.
pub struct PendingNodes {
    items: Vec<(i64, Value, Value)>,
}

/// The abstract form of pending node creations.
pub open spec fn pending_nodes_view(s: Seq<(i64, Value, Value)>) -> Seq<(i64, (ValueV, ValueV))> {
    s.map_values(|e: (i64, Value, Value)| (e.0, (e.1@, e.2@)))
}

/// A node creation as the database query takes it: `{labels: L, props: P}`.
pub open spec fn node_record(labels: ValueV, props: ValueV) -> ValueV {
    ValueV::Dict(seq![("labels"@, labels), ("props"@, props)])
}

impl PendingNodes {
    /// The pending creations.
    pub closed spec fn view(&self) -> Seq<(i64, (ValueV, ValueV))> {
        pending_nodes_view(self.items@)
    }

    /// No pending creations.
    pub fn new() -> (r: Self)
        ensures
            r.view() == Seq::<(i64, (ValueV, ValueV))>::empty(),
    {
        let r = PendingNodes { items: Vec::new() };
        assert(r.view() =~= Seq::<(i64, (ValueV, ValueV))>::empty());
        r
    }

    fn find(&self, id: i64) -> (r: Option<usize>)
        ensures
            match r {
                Some(i) => find_id(self.view(), id) == Some(i as int),
                None => find_id(self.view(), id) is None,
            },
    {
        let mut i: usize = 0;
        while i < self.items.len()
            invariant
                0 <= i <= self.items.len(),
                forall|j: int| 0 <= j < i ==> self.view()[j].0 != id,
            decreases self.items.len() - i,
        {
            if self.items[i].0 == id {
                proof {
                    lemma_find_id_prefix(self.view(), id, i as int);
                }
                return Some(i);
            }
            i = i + 1;
        }
        proof {
            lemma_find_id_prefix(self.view(), id, i as int);
        }
        None
    }

    /// Adds a node creation, replacing a pending one for the same node.
    pub fn add(&mut self, id: i64, labels: Value, props: Value)
        ensures
            final(self).view() == match find_id(old(self).view(), id) {
                Some(i) => old(self).view().update(i, (id, (labels@, props@))),
                None => old(self).view().push((id, (labels@, props@))),
            },
    {
        proof {
            lemma_find_id(self.view(), id);
        }
        match self.find(id) {
            Some(i) => {
                self.items.set(i, (id, labels, props));
                assert(self.view() =~= old(self).view().update(i as int, (id, (labels@, props@))));
            },
            None => {
                self.items.push((id, labels, props));
                assert(self.view() =~= old(self).view().push((id, (labels@, props@))));
            },
        }
    }

    /// Folds new properties into the pending creation of the node, if there
    /// is one (`None` then); otherwise hands them back.
    pub fn update(&mut self, id: i64, props: Value) -> (r: Option<Value>)
        ensures
            match find_id(old(self).view(), id) {
                Some(i) => r is None && final(self).view() == old(self).view().update(
                    i,
                    (id, (old(self).view()[i].1.0, props@)),
                ),
                None => r == Some(props) && final(self).view() == old(self).view(),
            },
    {
        match self.find(id) {
            Some(i) => {
                proof {
                    lemma_find_id(self.view(), id);
                }
                let labels = self.take_labels(i);
                self.items.set(i, (id, labels, props));
                assert(self.view() =~= old(self).view().update(
                    i as int,
                    (id, (old(self).view()[i as int].1.0, props@)),
                ));
                None
            },
            None => Some(props),
        }
    }

    fn take_labels(&mut self, i: usize) -> (r: Value)
        requires
            i < old(self).items@.len(),
        ensures
            r == old(self).items@[i as int].1,
            final(self).items@ == old(self).items@.update(i as int, (0i64, Value::Null, Value::Null)),
    {
        let mut e = (0i64, Value::Null, Value::Null);
        let ghost before = self.items@;
        self.items.set_and_swap(i, &mut e);
        e.1
    }

    /// Takes all pending creations out, as a list of `{labels, props}` records.
    pub fn execute(&mut self) -> (r: Value)
        ensures
            r@ == ValueV::List(
                old(self).view().map_values(|e: (i64, (ValueV, ValueV))| node_record(e.1.0, e.1.1)),
            ),
            final(self).view() == Seq::<(i64, (ValueV, ValueV))>::empty(),
    {
        let mut items: Vec<(i64, Value, Value)> = Vec::new();
        std::mem::swap(&mut items, &mut self.items);
        assert(self.view() =~= Seq::<(i64, (ValueV, ValueV))>::empty());
        let ghost orig = items@;
        let ghost all = pending_nodes_view(orig);
        let ghost f = |e: (i64, (ValueV, ValueV))| node_record(e.1.0, e.1.1);
        let n = items.len();
        let mut out: Vec<Value> = Vec::new();
        let mut i: usize = 0;
        while i < n
            invariant
                n == orig.len(),
                i <= n,
                items@.len() == n,
                all == pending_nodes_view(orig),
                forall|j: int| i <= j < n ==> items@[j] == orig[j],
                out@.map_values(|v: Value| v@) == all.subrange(0, i as int).map_values(f),
                f == (|e: (i64, (ValueV, ValueV))| node_record(e.1.0, e.1.1)),
            decreases n - i,
        {
            let mut e = (0i64, Value::Null, Value::Null);
            items.set_and_swap(i, &mut e);
            let (_id, labels, props) = e;
            let mut rec: Vec<(String, Value)> = Vec::new();
            rec.push((to_owned("labels"), labels));
            rec.push((to_owned("props"), props));
            proof {
                crate::data::value::lemma_dict_view(rec);
                assert(crate::data::value::props_view(rec@) =~= seq![("labels"@, labels@), ("props"@, props@)]);
            }
            let v = Value::Dict(rec);
            let ghost ov = out@;
            out.push(v);
            proof {
                lemma_map_push(ov, v, |v: Value| v@);
                lemma_prefix_push(all, i as int);
                lemma_map_push(all.subrange(0, i as int), all[i as int], f);
                assert(out@ == ov.push(v));
            }
            i = i + 1;
        }
        assert(all.subrange(0, i as int) =~= all);
        proof {
            lemma_list_view(out);
        }
        Value::List(out)
    }
}

/// Pending writes that are sent as they came.
pub struct PendingValues {
    items: Vec<Value>,
}

impl PendingValues {
    /// The pending writes.
    pub closed spec fn view(&self) -> Seq<ValueV> {
        self.items@.map_values(|v: Value| v@)
    }

    /// No pending writes.
    pub fn new() -> (r: Self)
        ensures
            r.view() == Seq::<ValueV>::empty(),
    {
        let r = PendingValues { items: Vec::new() };
        assert(r.view() =~= Seq::<ValueV>::empty());
        r
    }

    /// Adds a write.
    pub fn add(&mut self, v: Value)
        ensures
            final(self).view() == old(self).view().push(v@),
    {
        self.items.push(v);
        proof {
            lemma_map_push(old(self).items@, v, |v: Value| v@);
        }
    }

    /// Takes all pending writes out, as a list.
    pub fn execute(&mut self) -> (r: Value)
        ensures
            r@ == ValueV::List(old(self).view()),
            final(self).view() == Seq::<ValueV>::empty(),
    {
        let mut items: Vec<Value> = Vec::new();
        std::mem::swap(&mut items, &mut self.items);
        assert(self.view() =~= Seq::<ValueV>::empty());
        proof {
            lemma_list_view(items);
        }
        Value::List(items)
    }
}

/// Pending writes keyed by identifier, in order of first addition; a later
/// write for the same identifier replaces the pending one.
pub struct PendingKeyed {
    items: Vec<(i64, Value)>,
}

/// The abstract form of keyed pending writes.
pub open spec fn keyed_view(s: Seq<(i64, Value)>) -> Seq<(i64, ValueV)> {
    s.map_values(|e: (i64, Value)| (e.0, e.1@))
}

impl PendingKeyed {
    /// The pending writes.
    pub closed spec fn view(&self) -> Seq<(i64, ValueV)> {
        keyed_view(self.items@)
    }

    /// No pending writes.
    pub fn new() -> (r: Self)
        ensures
            r.view() == Seq::<(i64, ValueV)>::empty(),
    {
        let r = PendingKeyed { items: Vec::new() };
        assert(r.view() =~= Seq::<(i64, ValueV)>::empty());
        r
    }

    fn find(&self, id: i64) -> (r: Option<usize>)
        ensures
            match r {
                Some(i) => find_id(self.view(), id) == Some(i as int),
                None => find_id(self.view(), id) is None,
            },
    {
        let mut i: usize = 0;
        while i < self.items.len()
            invariant
                0 <= i <= self.items.len(),
                forall|j: int| 0 <= j < i ==> self.view()[j].0 != id,
            decreases self.items.len() - i,
        {
            if self.items[i].0 == id {
                proof {
                    lemma_find_id_prefix(self.view(), id, i as int);
                }
                return Some(i);
            }
            i = i + 1;
        }
        proof {
            lemma_find_id_prefix(self.view(), id, i as int);
        }
        None
    }

    /// Adds a write, replacing a pending one for the same identifier;
    /// returns whether none was pending.
    pub fn add(&mut self, id: i64, v: Value) -> (r: bool)
        ensures
            r == find_id(old(self).view(), id) is None,
            final(self).view() == match find_id(old(self).view(), id) {
                Some(i) => old(self).view().update(i, (id, v@)),
                None => old(self).view().push((id, v@)),
            },
    {
        proof {
            lemma_find_id(self.view(), id);
        }
        match self.find(id) {
            Some(i) => {
                self.items.set(i, (id, v));
                assert(self.view() =~= old(self).view().update(i as int, (id, v@)));
                false
            },
            None => {
                self.items.push((id, v));
                assert(self.view() =~= old(self).view().push((id, v@)));
                true
            },
        }
    }

    /// Replaces the pending write for `id`, if there is one (`None` then);
    /// otherwise hands the write back.
    pub fn update(&mut self, id: i64, v: Value) -> (r: Option<Value>)
        ensures
            match find_id(old(self).view(), id) {
                Some(i) => r is None && final(self).view() == old(self).view().update(i, (id, v@)),
                None => r == Some(v) && final(self).view() == old(self).view(),
            },
    {
        proof {
            lemma_find_id(self.view(), id);
        }
        match self.find(id) {
            Some(i) => {
                self.items.set(i, (id, v));
                assert(self.view() =~= old(self).view().update(i as int, (id, v@)));
                None
            },
            None => Some(v),
        }
    }

    /// Takes all pending writes out, as a list of the written values.
    pub fn execute(&mut self) -> (r: Value)
        ensures
            r@ == ValueV::List(old(self).view().map_values(|e: (i64, ValueV)| e.1)),
            final(self).view() == Seq::<(i64, ValueV)>::empty(),
    {
        let mut items: Vec<(i64, Value)> = Vec::new();
        std::mem::swap(&mut items, &mut self.items);
        assert(self.view() =~= Seq::<(i64, ValueV)>::empty());
        let ghost orig = items@;
        let ghost all = keyed_view(orig);
        let n = items.len();
        let mut out: Vec<Value> = Vec::new();
        let mut i: usize = 0;
        while i < n
            invariant
                n == orig.len(),
                i <= n,
                items@.len() == n,
                all == keyed_view(orig),
                forall|j: int| i <= j < n ==> items@[j] == orig[j],
                out@.map_values(|v: Value| v@) == all.subrange(0, i as int).map_values(
                    |e: (i64, ValueV)| e.1,
                ),
            decreases n - i,
        {
            let mut e = (0i64, Value::Null);
            items.set_and_swap(i, &mut e);
            let (_id, v) = e;
            let ghost ov = out@;
            out.push(v);
            proof {
                lemma_map_push(ov, v, |v: Value| v@);
                lemma_prefix_push(all, i as int);
                lemma_map_push(all.subrange(0, i as int), all[i as int], |e: (i64, ValueV)| e.1);
                assert(out@ == ov.push(v));
            }
            i = i + 1;
        }
        assert(all.subrange(0, i as int) =~= all);
        proof {
            lemma_list_view(out);
        }
        Value::List(out)
    }
}

/// A call on the database: a query with its parameters, or the end of a transaction.
pub enum DbOp {
    /// Run `query` with the parameters `params`.
    Run { query: &'static str, params: Vec<(String, Value)> },
    /// Commit the transaction and open a new one.
    CommitAndRefresh,
    /// Commit the transaction.
    Commit,
}

/// The abstract form of a database call.
pub enum DbOpV {
    Run { query: Seq<char>, params: Seq<(Seq<char>, ValueV)> },
    CommitAndRefresh,
    Commit,
}

impl View for DbOp {
    type V = DbOpV;

    open spec fn view(&self) -> DbOpV {
        match self {
            DbOp::Run { query, params } => DbOpV::Run {
                query: query@,
                params: crate::data::value::props_view(params@),
            },
            DbOp::CommitAndRefresh => DbOpV::CommitAndRefresh,
            DbOp::Commit => DbOpV::Commit,
        }
    }
}

/// The abstract form of a list of database calls.
pub open spec fn ops_view(ops: Seq<DbOp>) -> Seq<DbOpV> {
    ops.map_values(|o: DbOp| o@)
}

/// A call of `query` with the single parameter `name` set to `value`.
pub open spec fn run_with(query: Seq<char>, name: Seq<char>, value: ValueV) -> DbOpV {
    DbOpV::Run { query, params: seq![(name, value)] }
}

/// A call of `query` with the single parameter `name` set to `value`.
pub fn run_with_param(query: &'static str, name: &str, value: Value) -> (r: DbOp)
    ensures
        r@ == run_with(query@, name@, value@),
{
    let mut params: Vec<(String, Value)> = Vec::new();
    params.push((to_owned(name), value));
    assert(crate::data::value::props_view(params@) =~= seq![(name@, value@)]);
    DbOp::Run { query, params }
}

/// A call of `query` without parameters.
pub fn run_plain(query: &'static str) -> (r: DbOp)
    ensures
        r@ == (DbOpV::Run { query: query@, params: Seq::empty() }),
{
    let params: Vec<(String, Value)> = Vec::new();
    assert(crate::data::value::props_view(params@) =~= Seq::<(Seq<char>, ValueV)>::empty());
    DbOp::Run { query, params }
}

/// Appends one call to a list of calls.
pub fn push_op(ops: &mut Vec<DbOp>, op: DbOp)
    ensures
        ops_view(final(ops)@) == ops_view(old(ops)@).push(op@),
{
    ops.push(op);
    proof {
        lemma_map_push(old(ops)@, op, |o: DbOp| o@);
    }
}

/// The spec form of adding a pending node creation.
pub open spec fn nodes_add(s: Seq<(i64, (ValueV, ValueV))>, id: i64, labels: ValueV, props: ValueV) -> Seq<(i64, (ValueV, ValueV))> {
    match find_id(s, id) {
        Some(i) => s.update(i, (id, (labels, props))),
        None => s.push((id, (labels, props))),
    }
}

/// The spec form of folding new properties into a pending node creation:
/// the new pending creations, or `None` when the node has none pending.
pub open spec fn nodes_update(s: Seq<(i64, (ValueV, ValueV))>, id: i64, props: ValueV) -> Option<Seq<(i64, (ValueV, ValueV))>> {
    match find_id(s, id) {
        Some(i) => Some(s.update(i, (id, (s[i].1.0, props)))),
        None => None,
    }
}

/// The spec form of adding a keyed pending write.
pub open spec fn keyed_add(s: Seq<(i64, ValueV)>, id: i64, v: ValueV) -> Seq<(i64, ValueV)> {
    match find_id(s, id) {
        Some(i) => s.update(i, (id, v)),
        None => s.push((id, v)),
    }
}

/// The spec form of replacing a keyed pending write: the new pending
/// writes, or `None` when nothing is pending for the identifier.
pub open spec fn keyed_update(s: Seq<(i64, ValueV)>, id: i64, v: ValueV) -> Option<Seq<(i64, ValueV)>> {
    match find_id(s, id) {
        Some(i) => Some(s.update(i, (id, v))),
        None => None,
    }
}

/// Labels as a list value of strings.
pub fn labels_value(labs: &Vec<&'static str>) -> (r: Value)
    ensures
        r@ == ValueV::List(crate::data::value::labels_view(labs@).map_values(|l: Seq<char>| ValueV::Str(l))),
{
    let mut l: Vec<Value> = Vec::new();
    let mut i: usize = 0;
    while i < labs.len()
        invariant
            0 <= i <= labs.len(),
            l@.map_values(|v: Value| v@) == crate::data::value::labels_view(labs@.subrange(0, i as int)).map_values(|l: Seq<char>| ValueV::Str(l)),
        decreases labs.len() - i,
    {
        let v = Value::String(to_owned(labs[i]));
        let ghost prev = l@;
        l.push(v);
        proof {
            lemma_map_push(prev, v, |v: Value| v@);
            lemma_prefix_push(labs@, i as int);
            lemma_map_push(labs@.subrange(0, i as int), labs@[i as int], |s: &'static str| s@);
            lemma_map_push(crate::data::value::labels_view(labs@.subrange(0, i as int)), labs@[i as int]@, |l: Seq<char>| ValueV::Str(l));
            assert(l@ == prev.push(v));
        }
        i = i + 1;
    }
    assert(labs@.subrange(0, i as int) =~= labs@);
    proof {
        lemma_list_view(l);
    }
    Value::List(l)
}

} // verus!
