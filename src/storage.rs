use crate::error::ServerError;
use vstd::prelude::*;

verus! {

/// Identifier of a client (a replica group); the 128 bits of a UUID.
pub type ClientId = u128;

/// Identifier of a version; the 128 bits of a UUID.
pub type VersionId = u128;

/// The distinguished value for "no version" (the nil UUID, all zero bits).
pub const NIL_VERSION_ID: VersionId = 0;

/// Metadata about a snapshot, not including the snapshot data itself.
#[derive(Clone, Copy, PartialEq, Eq, Structural, Debug)]
pub struct Snapshot {
    /// ID of the version at which this snapshot was made.
    pub version_id: VersionId,
    /// Time at which this snapshot was set, in seconds since the Unix epoch.
    pub timestamp: i64,
    /// Number of versions added since this snapshot was made.
    pub versions_since: u32,
}

/// Stored metadata about a client.
#[derive(Clone, Copy, PartialEq, Eq, Structural, Debug)]
pub struct Client {
    /// The latest version for this client (may be the nil version).
    pub latest_version_id: VersionId,
    /// Data about the latest snapshot for this client.
    pub snapshot: Option<Snapshot>,
}

/// One link in a client's chain of versions.
#[derive(Clone, PartialEq, Eq, Debug)]
pub struct Version {
    /// The id of this version.
    pub version_id: VersionId,
    /// The id of this version's parent.
    pub parent_version_id: VersionId,
    /// The opaque data carried in this version.
    pub history_segment: Vec<u8>,
}

/// What a store keeps of a version, under its id.
pub ghost struct VersionRecord {
    pub parent_version_id: VersionId,
    pub history_segment: Seq<u8>,
}

impl Version {
    pub open spec fn record(self) -> VersionRecord {
        VersionRecord {
            parent_version_id: self.parent_version_id,
            history_segment: self.history_segment@,
        }
    }

    /// A copy of this version.
    pub fn duplicate(&self) -> (r: Version)
        ensures
            r.version_id == self.version_id,
            r.parent_version_id == self.parent_version_id,
            r.history_segment@ == self.history_segment@,
    {
        Version {
            version_id: self.version_id,
            parent_version_id: self.parent_version_id,
            history_segment: self.history_segment.clone(),
        }
    }
}

/// Everything that storage holds for one client: the client record, its versions keyed by
/// version id, and the bytes of its latest snapshot.
pub ghost struct ClientState {
    pub client: Option<Client>,
    pub versions: Map<VersionId, VersionRecord>,
    pub snapshot_data: Option<Seq<u8>>,
}

impl ClientState {
    /// The state of a client that was never created.
    pub open spec fn empty() -> ClientState {
        ClientState { client: None, versions: Map::empty(), snapshot_data: None }
    }

    /// The state after creating the client with the given latest version.
    pub open spec fn with_new_client(self, latest_version_id: VersionId) -> ClientState {
        ClientState {
            client: Some(Client { latest_version_id, snapshot: None }),
            versions: self.versions,
            snapshot_data: self.snapshot_data,
        }
    }

    /// The state after adding a version: it is stored, it becomes the latest version, and the
    /// count of versions since the snapshot (if any) goes up by one.
    pub open spec fn with_version(
        self,
        version_id: VersionId,
        parent_version_id: VersionId,
        history_segment: Seq<u8>,
    ) -> ClientState {
        ClientState {
            client: match self.client {
                Some(c) => Some(
                    Client {
                        latest_version_id: version_id,
                        snapshot: match c.snapshot {
                            Some(s) => Some(
                                Snapshot {
                                    version_id: s.version_id,
                                    timestamp: s.timestamp,
                                    versions_since: (s.versions_since + 1) as u32,
                                },
                            ),
                            None => None,
                        },
                    },
                ),
                None => None,
            },
            versions: self.versions.insert(
                version_id,
                VersionRecord { parent_version_id, history_segment },
            ),
            snapshot_data: self.snapshot_data,
        }
    }

    /// The state after replacing the snapshot of an existing client.
    pub open spec fn with_snapshot(self, snapshot: Snapshot, data: Seq<u8>) -> ClientState {
        match self.client {
            Some(c) => ClientState {
                client: Some(Client { latest_version_id: c.latest_version_id, snapshot: Some(snapshot) }),
                versions: self.versions,
                snapshot_data: Some(data),
            },
            None => self,
        }
    }

    /// True if some stored version has the given parent.
    pub open spec fn has_child(self, parent_version_id: VersionId) -> bool {
        exists|v: VersionId|
            #[trigger] self.versions.contains_key(v) && self.versions[v].parent_version_id
                == parent_version_id
    }

    /// True if `version` is stored, under its own id, with the given parent.
    pub open spec fn holds_child(self, parent_version_id: VersionId, version: Version) -> bool {
        &&& version.parent_version_id == parent_version_id
        &&& self.versions.contains_key(version.version_id)
        &&& self.versions[version.version_id] == version.record()
    }

    /// The snapshot bytes, if the client's current snapshot is for `version_id`.
    pub open spec fn snapshot_data_for(self, version_id: VersionId) -> Option<Seq<u8>> {
        match self.client {
            Some(c) => match c.snapshot {
                Some(s) => if s.version_id == version_id {
                    self.snapshot_data
                } else {
                    None
                },
                None => None,
            },
            None => None,
        }
    }
}

/// A transaction in a storage backend, scoped to a single client.
///
/// Transactions are sequentially consistent: the effect of committed transactions is as if each
/// ran alone in some order, uncommitted changes are never seen by another transaction, and a
/// transaction dropped without being committed changes nothing.
///
/// The contracts speak of `state()`, the client's data as this transaction sees it, including its
/// own writes so far. A read leaves it unchanged; a successful write changes it as stated; a
/// failed write leaves it unchanged.
///
/// A backend verified against these contracts defines the model functions (`client_id`,
/// `state`, `version_reads`, `wf`). A backend written outside the verifier cannot define spec
/// functions, so the defaults are `arbitrary()`: nothing at all is known of such a backend's
/// model, and its conformance to the contracts is assumed, not proved.
pub trait StorageTxn: Sized {
    /// The client this transaction is scoped to.
    closed spec fn client_id(&self) -> ClientId {
        arbitrary()
    }

    /// The client's data as this transaction sees it.
    closed spec fn state(&self) -> ClientState {
        arbitrary()
    }

    /// How many times `get_version` has been called on this transaction.
    closed spec fn version_reads(&self) -> nat {
        arbitrary()
    }

    /// The backend's own well-formedness condition.
    closed spec fn wf(&self) -> bool {
        arbitrary()
    }

    /// Get the client record, if the client exists.
    fn get_client(&mut self) -> (r: Result<Option<Client>, ServerError>)
        requires
            old(self).wf(),
        ensures
            final(self).wf(),
            r matches Err(e) ==> e is Other,
            final(self).client_id() == old(self).client_id(),
            final(self).state() == old(self).state(),
            final(self).version_reads() == old(self).version_reads(),
            r matches Ok(c) ==> c == old(self).state().client,
    ;

    /// Create the client, with the given latest version. Fails if the client already exists.
    fn new_client(&mut self, latest_version_id: VersionId) -> (r: Result<(), ServerError>)
        requires
            old(self).wf(),
        ensures
            final(self).wf(),
            r matches Err(e) ==> e is Other,
            final(self).client_id() == old(self).client_id(),
            final(self).version_reads() == old(self).version_reads(),
            old(self).state().client is Some ==> r is Err,
            r is Ok ==> final(self).state() == old(self).state().with_new_client(
                latest_version_id,
            ),
            r is Err ==> final(self).state() == old(self).state(),
    ;

    /// Replace the client's snapshot metadata and bytes.
    fn set_snapshot(&mut self, snapshot: Snapshot, data: Vec<u8>) -> (r: Result<(), ServerError>)
        requires
            old(self).wf(),
        ensures
            final(self).wf(),
            r matches Err(e) ==> e is Other,
            final(self).client_id() == old(self).client_id(),
            final(self).version_reads() == old(self).version_reads(),
            r is Ok ==> final(self).state() == old(self).state().with_snapshot(snapshot, data@),
            r is Err ==> final(self).state() == old(self).state(),
    ;

    /// Get the bytes of the current snapshot. The id of the version it was made at is given: a
    /// current snapshot made at another version is an error, and `Ok(None)` means that no bytes
    /// are stored for that version.
    fn get_snapshot_data(&mut self, version_id: VersionId) -> (r: Result<
        Option<Vec<u8>>,
        ServerError,
    >)
        requires
            old(self).wf(),
        ensures
            final(self).wf(),
            r matches Err(e) ==> e is Other,
            final(self).client_id() == old(self).client_id(),
            final(self).state() == old(self).state(),
            final(self).version_reads() == old(self).version_reads(),
            r matches Ok(Some(d)) ==> old(self).state().snapshot_data_for(version_id) == Some(
                d@,
            ),
            r matches Ok(None) ==> old(self).state().snapshot_data_for(version_id) is None,
            (old(self).state().client matches Some(c) && c.snapshot matches Some(s)
                && s.version_id != version_id) ==> r is Err,
    ;

    /// Get the version whose parent is `parent_version_id`, if there is one.
    fn get_version_by_parent(&mut self, parent_version_id: VersionId) -> (r: Result<
        Option<Version>,
        ServerError,
    >)
        requires
            old(self).wf(),
        ensures
            final(self).wf(),
            r matches Err(e) ==> e is Other,
            final(self).client_id() == old(self).client_id(),
            final(self).state() == old(self).state(),
            final(self).version_reads() == old(self).version_reads(),
            r matches Ok(Some(v)) ==> old(self).state().holds_child(parent_version_id, v),
            r matches Ok(None) ==> !old(self).state().has_child(parent_version_id),
    ;

    /// Get the version with the given id, if it is stored.
    fn get_version(&mut self, version_id: VersionId) -> (r: Result<Option<Version>, ServerError>)
        requires
            old(self).wf(),
        ensures
            final(self).wf(),
            r matches Err(e) ==> e is Other,
            final(self).client_id() == old(self).client_id(),
            final(self).state() == old(self).state(),
            final(self).version_reads() == old(self).version_reads() + 1,
            r matches Ok(Some(v)) ==> v.version_id == version_id && old(
                self,
            ).state().versions.contains_key(version_id) && old(self).state().versions[version_id]
                == v.record(),
            r matches Ok(None) ==> !old(self).state().versions.contains_key(version_id),
    ;

    /// Add a version that is not yet stored, make it the latest version, and count it in the
    /// snapshot's `versions_since`. This is a compare-and-swap: it succeeds only where the latest
    /// version is `parent_version_id`, or nil for a client with no versions yet, and only where no
    /// stored version has that parent already.
    fn add_version(
        &mut self,
        version_id: VersionId,
        parent_version_id: VersionId,
        history_segment: Vec<u8>,
    ) -> (r: Result<(), ServerError>)
        requires
            old(self).wf(),
        ensures
            final(self).wf(),
            r matches Err(e) ==> e is Other,
            final(self).client_id() == old(self).client_id(),
            final(self).version_reads() == old(self).version_reads(),
            r is Ok ==> {
                &&& old(self).state().client matches Some(c) && (c.latest_version_id
                    == parent_version_id || c.latest_version_id == NIL_VERSION_ID) && (
                c.snapshot matches Some(s) ==> s.versions_since < u32::MAX)
                &&& !old(self).state().versions.contains_key(version_id)
                &&& !old(self).state().has_child(parent_version_id)
                &&& final(self).state() == old(self).state().with_version(
                    version_id,
                    parent_version_id,
                    history_segment@,
                )
            },
            r is Err ==> final(self).state() == old(self).state(),
    ;
}

/// A storage backend: it begins per-client transactions and commits them.
///
/// As for [`StorageTxn`], a verified backend defines `client_state`; the default `arbitrary()`
/// says nothing of a backend written outside the verifier.
pub trait Storage: Sized {
    type Txn: StorageTxn;

    /// The committed data of each client.
    closed spec fn client_state(&self, client_id: ClientId) -> ClientState {
        arbitrary()
    }

    /// Begin a transaction for the given client. It sees the client's committed data.
    fn txn(&self, client_id: ClientId) -> (r: Result<Self::Txn, ServerError>)
        ensures
            r matches Err(e) ==> e is Other,
            r matches Ok(t) ==> {
                &&& t.wf()
                &&& t.client_id() == client_id
                &&& t.state() == self.client_state(client_id)
                &&& t.version_reads() == 0
            },
    ;

    /// Commit a transaction: its writes become visible to later transactions. Only the
    /// transaction's own client changes. A transaction that would not be serializable with the
    /// ones committed since it began is refused, and then nothing changes.
    fn commit(&mut self, txn: Self::Txn) -> (r: Result<(), ServerError>)
        requires
            txn.wf(),
        ensures
            r matches Err(e) ==> e is Other,
            r is Ok ==> forall|c: ClientId| #[trigger]
                final(self).client_state(c) == if c == txn.client_id() {
                    txn.state()
                } else {
                    old(self).client_state(c)
                },
            r is Err ==> forall|c: ClientId| #[trigger]
                final(self).client_state(c) == old(self).client_state(c),
    ;
}

} // verus!
