use crate::error::{other_error, ServerError};
use crate::storage::{
    Client, ClientId, ClientState, Snapshot, Storage, StorageTxn, Version, VersionId,
    VersionRecord, NIL_VERSION_ID,
};
use std::collections::HashMap;
use vstd::prelude::*;

verus! {

broadcast use vstd::std_specs::hash::group_hash_axioms;

/// All that the in-memory store keeps for one client.
struct ClientEntry {
    client: Option<Client>,
    snapshot_data: Option<Vec<u8>>,
    /// Versions, by version id.
    versions: HashMap<VersionId, Version>,
    /// Child version ids, by parent version id.
    children: HashMap<VersionId, VersionId>,
    /// Bumped by each commit; a transaction begun at another generation is stale.
    generation: u64,
}

/// Versions are stored under their own ids, and the child index matches them exactly (which
/// makes parents unique).
spec fn entry_wf(e: ClientEntry) -> bool {
    &&& forall|v: VersionId| #[trigger]
        e.versions@.contains_key(v) ==> e.versions@[v].version_id == v
    &&& forall|p: VersionId| #[trigger]
        e.children@.contains_key(p) ==> e.versions@.contains_key(e.children@[p])
            && e.versions@[e.children@[p]].parent_version_id == p
    &&& forall|v: VersionId| #[trigger]
        e.versions@.contains_key(v) ==> e.children@.contains_key(
            e.versions@[v].parent_version_id,
        ) && e.children@[e.versions@[v].parent_version_id] == v
}

spec fn data_view(d: Option<Vec<u8>>) -> Option<Seq<u8>> {
    match d {
        Some(v) => Some(v@),
        None => None,
    }
}

spec fn entry_state(e: ClientEntry) -> ClientState {
    ClientState {
        client: e.client,
        versions: e.versions@.map_values(|v: Version| v.record()),
        snapshot_data: data_view(e.snapshot_data),
    }
}

impl ClientEntry {
    fn empty() -> (r: ClientEntry)
        ensures
            entry_wf(r),
            entry_state(r) == ClientState::empty(),
            r.generation == 0,
    {
        let r = ClientEntry {
            client: None,
            snapshot_data: None,
            versions: HashMap::new(),
            children: HashMap::new(),
            generation: 0,
        };
        assert(entry_state(r).versions =~= Map::<VersionId, VersionRecord>::empty());
        r
    }

    fn duplicate(&self) -> (r: ClientEntry)
        ensures
            r.client == self.client,
            data_view(r.snapshot_data) == data_view(self.snapshot_data),
            r.versions@ == self.versions@,
            r.children@ == self.children@,
            r.generation == self.generation,
    {
        let snapshot_data = match &self.snapshot_data {
            Some(d) => Some(d.clone()),
            None => None,
        };
        ClientEntry {
            client: self.client,
            snapshot_data,
            versions: self.versions.clone(),
            children: self.children.clone(),
            generation: self.generation,
        }
    }
}

/// Storage held in memory, for tests and experiments.
///
/// A transaction works on its own copy of the client's data, and `commit` publishes that copy.
/// A commit is refused when another transaction for the same client committed after this one
/// began, so the committed transactions are always serializable.
pub struct InMemoryStorage {
    clients: HashMap<ClientId, ClientEntry>,
}

impl InMemoryStorage {
    #[verifier::type_invariant]
    spec fn inv(self) -> bool {
        forall|c: ClientId| #[trigger]
            self.clients@.contains_key(c) ==> entry_wf(self.clients@[c])
    }

    /// The commit generation of a client's data; it changes with every successful commit.
    pub closed spec fn generation_of(&self, client_id: ClientId) -> u64 {
        if self.clients@.contains_key(client_id) {
            self.clients@[client_id].generation
        } else {
            0
        }
    }

    /// An empty store.
    pub fn new() -> (r: Self)
        ensures
            forall|c: ClientId| #[trigger] r.client_state(c) == ClientState::empty(),
            forall|c: ClientId| #[trigger] r.generation_of(c) == 0,
    {
        InMemoryStorage { clients: HashMap::new() }
    }
}

/// A transaction on [`InMemoryStorage`].
pub struct InMemoryTxn {
    client_id: ClientId,
    entry: ClientEntry,
    reads: Ghost<nat>,
}

impl InMemoryTxn {
    /// The generation of the client's data when this transaction began.
    pub closed spec fn base_generation(&self) -> u64 {
        self.entry.generation
    }
}

impl StorageTxn for InMemoryTxn {
    closed spec fn client_id(&self) -> ClientId {
        self.client_id
    }

    closed spec fn state(&self) -> ClientState {
        entry_state(self.entry)
    }

    closed spec fn version_reads(&self) -> nat {
        self.reads@
    }

    closed spec fn wf(&self) -> bool {
        entry_wf(self.entry)
    }

    fn get_client(&mut self) -> (r: Result<Option<Client>, ServerError>)
        ensures
            final(self).base_generation() == old(self).base_generation(),
            r is Ok,
    {
        Ok(self.entry.client)
    }

    fn new_client(&mut self, latest_version_id: VersionId) -> (r: Result<(), ServerError>)
        ensures
            final(self).base_generation() == old(self).base_generation(),
            r is Ok <==> old(self).state().client is None,
            r is Err ==> final(self).state() == old(self).state(),
    {
        if self.entry.client.is_some() {
            return Err(other_error("client already exists"));
        }
        self.entry.client = Some(Client { latest_version_id, snapshot: None });
        Ok(())
    }

    fn set_snapshot(&mut self, snapshot: Snapshot, data: Vec<u8>) -> (r: Result<(), ServerError>)
        ensures
            final(self).base_generation() == old(self).base_generation(),
            r is Ok <==> old(self).state().client is Some,
            r is Err ==> final(self).state() == old(self).state(),
    {
        match self.entry.client {
            Some(c) => {
                self.entry.client = Some(
                    Client { latest_version_id: c.latest_version_id, snapshot: Some(snapshot) },
                );
                self.entry.snapshot_data = Some(data);
                Ok(())
            },
            None => Err(other_error("no such client")),
        }
    }

    fn get_snapshot_data(&mut self, version_id: VersionId) -> (r: Result<
        Option<Vec<u8>>,
        ServerError,
    >)
        ensures
            final(self).base_generation() == old(self).base_generation(),
            r is Ok <==> (old(self).state().client matches Some(c) && (c.snapshot matches Some(
                s,
            ) && s.version_id == version_id)),
            r matches Ok(d) ==> match d {
                Some(x) => old(self).state().snapshot_data == Some(x@),
                None => old(self).state().snapshot_data is None,
            },
    {
        let client = match self.entry.client {
            Some(c) => c,
            None => return Err(other_error("no such client")),
        };
        match client.snapshot {
            Some(s) => {
                if s.version_id != version_id {
                    return Err(other_error("unexpected snapshot_version_id"));
                }
            },
            None => return Err(other_error("unexpected snapshot_version_id")),
        }
        match &self.entry.snapshot_data {
            Some(d) => Ok(Some(d.clone())),
            None => Ok(None),
        }
    }

    fn get_version_by_parent(&mut self, parent_version_id: VersionId) -> (r: Result<
        Option<Version>,
        ServerError,
    >)
        ensures
            final(self).base_generation() == old(self).base_generation(),
            r is Ok,
    {
        let ghost e = self.entry;
        match self.entry.children.get(&parent_version_id) {
            Some(child) => match self.entry.versions.get(child) {
                Some(v) => Ok(Some(v.duplicate())),
                None => Ok(None),
            },
            None => {
                assert(!entry_state(e).has_child(parent_version_id)) by {
                    if entry_state(e).has_child(parent_version_id) {
                        let v = choose|v: VersionId|
                            #[trigger] entry_state(e).versions.contains_key(v) && entry_state(
                                e,
                            ).versions[v].parent_version_id == parent_version_id;
                        assert(e.versions@.contains_key(v));
                    }
                }
                Ok(None)
            },
        }
    }

    fn get_version(&mut self, version_id: VersionId) -> (r: Result<Option<Version>, ServerError>)
        ensures
            final(self).base_generation() == old(self).base_generation(),
            r is Ok,
    {
        self.reads = Ghost(self.reads@ + 1);
        match self.entry.versions.get(&version_id) {
            Some(v) => Ok(Some(v.duplicate())),
            None => Ok(None),
        }
    }

    fn add_version(
        &mut self,
        version_id: VersionId,
        parent_version_id: VersionId,
        history_segment: Vec<u8>,
    ) -> (r: Result<(), ServerError>)
        ensures
            final(self).base_generation() == old(self).base_generation(),
            r is Ok <==> {
                &&& old(self).state().client matches Some(c) && (c.latest_version_id
                    == parent_version_id || c.latest_version_id == NIL_VERSION_ID) && (
                c.snapshot matches Some(s) ==> s.versions_since < u32::MAX)
                &&& !old(self).state().versions.contains_key(version_id)
                &&& !old(self).state().has_child(parent_version_id)
            },
            r is Err ==> final(self).state() == old(self).state(),
    {
        let ghost old_entry = self.entry;
        let c = match self.entry.client {
            Some(c) => c,
            None => return Err(other_error("no such client")),
        };
        if c.latest_version_id != parent_version_id && c.latest_version_id != NIL_VERSION_ID {
            return Err(other_error("latest_version_id does not match parent_version_id"));
        }
        if self.entry.versions.contains_key(&version_id) {
            return Err(other_error("version already exists"));
        }
        if self.entry.children.contains_key(&parent_version_id) {
            proof {
                let child = old_entry.children@[parent_version_id];
                assert(entry_state(old_entry).versions.contains_key(child));
            }
            return Err(other_error("parent version already has a child"));
        }
        let snapshot = match c.snapshot {
            Some(s) => {
                if s.versions_since == u32::MAX {
                    return Err(other_error("too many versions since the snapshot"));
                }
                Some(
                    Snapshot {
                        version_id: s.version_id,
                        timestamp: s.timestamp,
                        versions_since: s.versions_since + 1,
                    },
                )
            },
            None => None,
        };
        self.entry.client = Some(Client { latest_version_id: version_id, snapshot });
        self.entry.children.insert(parent_version_id, version_id);
        let version = Version { version_id, parent_version_id, history_segment };
        self.entry.versions.insert(version_id, version);
        proof {
            let e = self.entry;
            assert forall|v: VersionId| #[trigger] e.versions@.contains_key(v) implies e.children@.contains_key(
                e.versions@[v].parent_version_id,
            ) && e.children@[e.versions@[v].parent_version_id] == v by {
                if v != version_id {
                    assert(old_entry.versions@.contains_key(v));
                    assert(old_entry.children@.contains_key(
                        old_entry.versions@[v].parent_version_id,
                    ));
                }
            }
            assert forall|p: VersionId| #[trigger] e.children@.contains_key(p) implies e.versions@.contains_key(
                e.children@[p],
            ) && e.versions@[e.children@[p]].parent_version_id == p by {
                if p != parent_version_id {
                    assert(old_entry.children@.contains_key(p));
                }
            }
            assert(entry_state(e).versions =~= entry_state(old_entry).with_version(
                version_id,
                parent_version_id,
                version.history_segment@,
            ).versions);
        }
        Ok(())
    }
}

impl Storage for InMemoryStorage {
    type Txn = InMemoryTxn;

    closed spec fn client_state(&self, client_id: ClientId) -> ClientState {
        if self.clients@.contains_key(client_id) {
            entry_state(self.clients@[client_id])
        } else {
            ClientState::empty()
        }
    }

    fn txn(&self, client_id: ClientId) -> (r: Result<InMemoryTxn, ServerError>)
        ensures
            r matches Ok(t) && t.base_generation() == self.generation_of(client_id),
    {
        proof {
            use_type_invariant(self);
        }
        let entry = match self.clients.get(&client_id) {
            Some(e) => e.duplicate(),
            None => ClientEntry::empty(),
        };
        proof {
            if self.clients@.contains_key(client_id) {
                assert(entry_wf(self.clients@[client_id]));
                assert(entry_state(entry) == entry_state(self.clients@[client_id]));
            }
        }
        Ok(InMemoryTxn { client_id, entry, reads: Ghost(0) })
    }

    fn commit(&mut self, txn: InMemoryTxn) -> (r: Result<(), ServerError>)
        ensures
            r is Ok <==> txn.base_generation() == old(self).generation_of(txn.client_id())
                && txn.base_generation() < u64::MAX,
            r is Ok ==> final(self).generation_of(txn.client_id()) == old(self).generation_of(
                txn.client_id(),
            ) + 1,
            forall|c: ClientId|
                c != txn.client_id() ==> #[trigger] final(self).generation_of(c) == old(
                    self,
                ).generation_of(c),
    {
        let current: u64 = match self.clients.get(&txn.client_id) {
            Some(e) => e.generation,
            None => 0,
        };
        if current != txn.entry.generation {
            return Err(other_error("conflicting transaction committed first"));
        }
        if current == u64::MAX {
            return Err(other_error("too many transactions"));
        }
        let client_id = txn.client_id;
        let mut entry = txn.entry;
        entry.generation = current + 1;
        let mut taken = InMemoryStorage::new();
        std::mem::swap(self, &mut taken);
        proof {
            use_type_invariant(&taken);
        }
        let InMemoryStorage { mut clients } = taken;
        clients.insert(client_id, entry);
        *self = InMemoryStorage { clients };
        Ok(())
    }
}

/// Of two transactions on the same client begun at the same generation, once one of them has
/// committed (which moves the generation on by one) the other is stale, and its commit is
/// refused: two AddVersion calls racing on the same parent cannot both commit.
pub proof fn lemma_racing_commit_refused(
    before: InMemoryStorage,
    after: InMemoryStorage,
    first: InMemoryTxn,
    second: InMemoryTxn,
)
    requires
        first.client_id() == second.client_id(),
        first.base_generation() == before.generation_of(first.client_id()),
        second.base_generation() == before.generation_of(first.client_id()),
        after.generation_of(first.client_id()) == before.generation_of(first.client_id()) + 1,
    ensures
        second.base_generation() != after.generation_of(second.client_id()),
{
}

} // verus!
