//! The cache of process nodes: each traced process UUID maps to the node
//! that currently stands for it, and nodes are lent out while they are worked on.
use std::collections::HashMap;

use vstd::prelude::*;
use vstd::std_specs::hash::obeys_key_model;

use crate::checking_store::{after_checkin, after_checkout, CheckingStore, DropGuard, StoreState};
use crate::data::node_types::process::Process;
use crate::data::nodeid::NodeID;

verus! {

broadcast use vstd::std_specs::hash::group_hash_axioms;

/// A process node lent out of the cache.
pub type NodeGuard = DropGuard<i64, Process>;

/// The state of the cache: the node for each UUID, the nodes by identifier,
/// and the next identifier to hand out.
pub struct CacheState {
    pub uuids: Map<u128, i64>,
    pub nodes: Map<i64, StoreState<Process>>,
    pub counter: nat,
}

/// The cache of process nodes.
pub struct PVMCache {
    uuid_cache: HashMap<u128, i64>,
    node_cache: CheckingStore<i64, Process>,
    id_counter: usize,
}

/// The state after adding a node for `uuid` under the next identifier (it
/// is lent out at once).
pub open spec fn add_spec(s: CacheState, uuid: u128) -> CacheState {
    CacheState {
        uuids: s.uuids.insert(uuid, s.counter as i64),
        nodes: s.nodes.insert(s.counter as i64, StoreState::Loaned),
        counter: s.counter + 1,
    }
}

/// The node made for `uuid` under identifier `id`.
pub open spec fn made_node(p: Process, id: i64, uuid: u128, pid: i32, cmdline: Seq<char>, thin: bool) -> bool {
    &&& p.db_id == NodeID(id)
    &&& p.uuid == uuid
    &&& p.pid == pid
    &&& p.cmdline@ == cmdline
    &&& p.thin == thin
}

impl PVMCache {
    /// The state of the cache.
    pub closed spec fn state(&self) -> CacheState {
        CacheState {
            uuids: self.uuid_cache@,
            nodes: self.node_cache.view(),
            counter: self.id_counter as nat,
        }
    }

    /// The cache is consistent: every UUID maps to a node of the store, and
    /// every node's identifier was handed out already.
    pub closed spec fn wf(&self) -> bool {
        &&& self.node_cache.wf()
        &&& self.id_counter <= i64::MAX
        &&& forall|u: u128| #[trigger] self.uuid_cache@.contains_key(u) ==> self.node_cache.view().contains_key(self.uuid_cache@[u])
        &&& forall|k: i64| #[trigger] self.node_cache.view().contains_key(k) ==> 0 <= k < self.id_counter
            && !(self.node_cache.view()[k] is AwaitingDrop)
    }

    /// An empty cache; identifiers start at zero.
    pub fn new() -> (r: PVMCache)
        ensures
            r.wf(),
            r.state() == (CacheState { uuids: Map::empty(), nodes: Map::empty(), counter: 0 }),
    {
        PVMCache { uuid_cache: HashMap::new(), node_cache: CheckingStore::new(), id_counter: 0 }
    }

    /// Makes a process node for `uuid` under the next identifier, makes it
    /// the node of `uuid`, and lends it out.
    pub fn add(&mut self, uuid: u128, pid: i32, cmdline: &str, thin: bool) -> (g: NodeGuard)
        requires
            old(self).wf(),
            old(self).state().counter < i64::MAX,
            old(self).state().counter < usize::MAX,
        ensures
            final(self).wf(),
            final(self).state() == add_spec(old(self).state(), uuid),
            g.spec_key() == old(self).state().counter as i64,
            made_node(g.spec_value(), g.spec_key(), uuid, pid, cmdline@, thin),
    {
        let id = self.id_counter as i64;
        self.id_counter = self.id_counter + 1;
        let node = Process { db_id: NodeID::new(id), uuid, pid, cmdline: String::from_str(cmdline), thin };
        self.uuid_cache.insert(uuid, id);
        assert(!self.node_cache.view().contains_key(id));
        self.node_cache.insert(id, node);
        let g = self.node_cache.checkout(id);
        match g {
            Some(g) => {
                assert(self.uuid_cache@ =~= old(self).state().uuids.insert(uuid, id));
                assert(self.node_cache.view() =~= old(self).state().nodes.insert(id, StoreState::Loaned));
                g
            },
            None => {
                proof {
                    assert(false);
                }
                vstd::pervasive::unreached()
            },
        }
    }

    /// Lends out the node of `uuid`, making a thin one first when there is
    /// none; says whether it was made.
    pub fn check(&mut self, uuid: u128, pid: i32, cmdline: &str) -> (r: (bool, NodeGuard))
        requires
            old(self).wf(),
            old(self).state().counter < i64::MAX,
            old(self).state().counter < usize::MAX,
            old(self).state().uuids.contains_key(uuid) ==> old(self).state().nodes[old(self).state().uuids[uuid]] is Present,
        ensures
            final(self).wf(),
            r.0 == !old(self).state().uuids.contains_key(uuid),
            r.0 ==> final(self).state() == add_spec(old(self).state(), uuid)
                && r.1.spec_key() == old(self).state().counter as i64
                && made_node(r.1.spec_value(), r.1.spec_key(), uuid, pid, cmdline@, true),
            !r.0 ==> r.1.spec_key() == old(self).state().uuids[uuid]
                && old(self).state().nodes[r.1.spec_key()] == StoreState::Present(r.1.spec_value())
                && final(self).state() == (CacheState {
                    nodes: after_checkout(old(self).state().nodes, r.1.spec_key()),
                    ..old(self).state()
                }),
    {
        match self.uuid_cache.get(&uuid) {
            None => (true, self.add(uuid, pid, cmdline, true)),
            Some(id) => {
                let id = *id;
                match self.node_cache.checkout(id) {
                    Some(g) => (false, g),
                    None => {
                        proof {
                            assert(false);
                        }
                        vstd::pervasive::unreached()
                    },
                }
            },
        }
    }

    /// Forgets the node of `uuid`; the node itself stays in the store.
    pub fn release(&mut self, uuid: u128)
        requires
            old(self).wf(),
        ensures
            final(self).wf(),
            final(self).state() == (CacheState { uuids: old(self).state().uuids.remove(uuid), ..old(self).state() }),
    {
        self.uuid_cache.remove(&uuid);
    }

    /// Hands a lent node back.
    pub fn checkin(&mut self, guard: NodeGuard)
        requires
            old(self).wf(),
            old(self).state().nodes.contains_key(guard.spec_key()),
            !(old(self).state().nodes[guard.spec_key()] is Present),
        ensures
            final(self).wf(),
            final(self).state() == (CacheState {
                nodes: after_checkin(old(self).state().nodes, guard.spec_key(), guard.spec_value()),
                ..old(self).state()
            }),
    {
        self.node_cache.checkin(guard);
    }
}

/// A cache state in which every identifier in use was handed out already.
pub open spec fn ids_below_counter(s: CacheState) -> bool {
    forall|k: i64| #[trigger] s.nodes.contains_key(k) ==> 0 <= k < s.counter
}

/// Checking a new UUID, handing its node back and checking the UUID again
/// finds the node that the first check made, under the same identifier.
pub proof fn lemma_check_checkin_check(s: CacheState, uuid: u128, node: Process)
    requires
        !s.uuids.contains_key(uuid),
        ids_below_counter(s),
    ensures
        ({
            let s1 = add_spec(s, uuid);
            let s2 = CacheState { nodes: after_checkin(s1.nodes, s.counter as i64, node), ..s1 };
            &&& s2.uuids.contains_key(uuid)
            &&& s2.uuids[uuid] == s.counter as i64
            &&& s2.nodes[s2.uuids[uuid]] == StoreState::Present(node)
        }),
{
}

/// After a UUID is released, checking it makes a new node, under an
/// identifier that no node had before.
pub proof fn lemma_release_then_fresh(s: CacheState, uuid: u128)
    requires
        ids_below_counter(s),
        s.counter < i64::MAX,
    ensures
        ({
            let s1 = CacheState { uuids: s.uuids.remove(uuid), ..s };
            &&& !s1.uuids.contains_key(uuid)
            &&& !s1.nodes.contains_key(s1.counter as i64)
            &&& add_spec(s1, uuid).uuids[uuid] == s.counter as i64
        }),
{
}

} // verus!
