use crate::error::{other_error, ServerError};
use crate::sources::{lemma_marked_id_not_nil, new_version_id, now_timestamp};
use crate::storage::{
    Client, ClientId, ClientState, Snapshot, Storage, StorageTxn, Version, VersionId,
    VersionRecord, NIL_VERSION_ID,
};
use crate::urgency::{urgency_after_add, urgency_for, ServerConfig, SnapshotUrgency};
use vstd::prelude::*;

verus! {

/// Number of versions to search back from the latest to find the version of a newly-added
/// snapshot. Snapshots for versions older than this are rejected.
pub const SNAPSHOT_SEARCH_LEN: i32 = 5;

/// Response to `get_child_version`.
#[derive(Clone, PartialEq, Eq, Debug)]
pub enum GetVersionResult {
    /// No child yet: a version with this parent may still be added.
    NotFound,
    /// The requested parent is history that is no longer reachable.
    Gone,
    /// The child version.
    Success { version_id: VersionId, parent_version_id: VersionId, history_segment: Vec<u8> },
}

/// Response to `add_version`.
#[derive(Clone, Copy, PartialEq, Eq, Structural, Debug)]
pub enum AddVersionResult {
    /// The version was added, under the given id.
    Added(VersionId),
    /// Rejected: the new version's parent must be the given version.
    ExpectedParentVersion(VersionId),
}

/// Every client's committed data is the same in `before` and `after`.
pub open spec fn all_unchanged<S: Storage>(before: S, after: S) -> bool {
    forall|c: ClientId| #[trigger] after.client_state(c) == before.client_state(c)
}

/// Every client other than `client_id` has the same committed data in `before` and `after`.
pub open spec fn others_unchanged<S: Storage>(before: S, after: S, client_id: ClientId) -> bool {
    forall|c: ClientId| c != client_id ==> #[trigger] after.client_state(c) == before.client_state(c)
}

/// What `get_child_version` may answer for a client in state `st`.
pub open spec fn child_version_answer(
    st: ClientState,
    parent_version_id: VersionId,
    res: GetVersionResult,
) -> bool {
    match st.client {
        None => false,
        Some(c) => match res {
            GetVersionResult::Success { version_id, parent_version_id: p, history_segment } => {
                &&& p == parent_version_id
                &&& st.versions.contains_key(version_id)
                &&& st.versions[version_id] == (VersionRecord {
                    parent_version_id: p,
                    history_segment: history_segment@,
                })
            },
            GetVersionResult::NotFound => !st.has_child(parent_version_id) && (
            c.latest_version_id == parent_version_id || c.latest_version_id == NIL_VERSION_ID),
            GetVersionResult::Gone => !st.has_child(parent_version_id) && c.latest_version_id
                != parent_version_id && c.latest_version_id != NIL_VERSION_ID,
        },
    }
}

/// The walk that decides whether a snapshot is recent enough: from `vid` toward the root, at
/// most `search_len` steps, accepting on reaching `target` and rejecting on reaching the
/// existing snapshot, nil, a missing version, or the end of the search.
pub open spec fn search_accepts(
    versions: Map<VersionId, VersionRecord>,
    vid: VersionId,
    target: VersionId,
    last_snapshot: Option<VersionId>,
    search_len: int,
) -> bool
    decreases search_len,
{
    if vid == target && target != NIL_VERSION_ID {
        true
    } else if last_snapshot == Some(vid) {
        false
    } else if search_len - 1 <= 0 || vid == NIL_VERSION_ID {
        false
    } else if !versions.contains_key(vid) {
        false
    } else {
        search_accepts(
            versions,
            versions[vid].parent_version_id,
            target,
            last_snapshot,
            search_len - 1,
        )
    }
}

/// The version id of a client's current snapshot, if it has one.
pub open spec fn snapshot_version(c: crate::storage::Client) -> Option<VersionId> {
    match c.snapshot {
        Some(s) => Some(s.version_id),
        None => None,
    }
}

/// True if a snapshot at `version_id` is accepted for a client in state `st`.
pub open spec fn snapshot_accepted(st: ClientState, version_id: VersionId) -> bool {
    match st.client {
        Some(c) => snapshot_version(c) != Some(version_id) && search_accepts(
            st.versions,
            c.latest_version_id,
            version_id,
            snapshot_version(c),
            SNAPSHOT_SEARCH_LEN as int,
        ),
        None => false,
    }
}

/// The client record that storage returned, or `NoSuchClient` when it has none.
pub fn require_client(found: Option<Client>) -> (r: Result<Client, ServerError>)
    ensures
        found matches Some(c) ==> r == Ok::<Client, ServerError>(c),
        found is None ==> (r matches Err(e) && e is NoSuchClient),
{
    match found {
        Some(c) => Ok(c),
        None => Err(ServerError::NoSuchClient),
    }
}

/// The answer to AddVersion for a client record: the parent must be the latest version (or the
/// latest must be nil), else the expected parent is returned with no snapshot request. When the
/// version is accepted, the urgency comes from the snapshot as it was before the call.
pub fn add_version_answer(
    config: &ServerConfig,
    client: &Client,
    parent_version_id: VersionId,
    version_id: VersionId,
    now: i64,
) -> (r: (AddVersionResult, SnapshotUrgency))
    ensures
        r == if client.latest_version_id != NIL_VERSION_ID && parent_version_id
            != client.latest_version_id {
            (
                AddVersionResult::ExpectedParentVersion(client.latest_version_id),
                SnapshotUrgency::NotNeeded,
            )
        } else {
            (AddVersionResult::Added(version_id), urgency_for(*config, client.snapshot, now))
        },
{
    if client.latest_version_id != NIL_VERSION_ID && parent_version_id != client.latest_version_id {
        (
            AddVersionResult::ExpectedParentVersion(client.latest_version_id),
            SnapshotUrgency::NotNeeded,
        )
    } else {
        (AddVersionResult::Added(version_id), urgency_after_add(config, client.snapshot, now))
    }
}

/// The answer to GetChildVersion, from the client record and the child that storage found (if
/// any): a child is returned as it is; without one, `NotFound` if a version with this parent
/// could still be added (the parent is the latest version, or the latest is nil), else `Gone`.
pub fn child_version_result(
    client: &Client,
    child: Option<Version>,
    parent_version_id: VersionId,
) -> (r: GetVersionResult)
    ensures
        child matches Some(v) ==> (r matches GetVersionResult::Success {
            version_id,
            parent_version_id: p,
            history_segment,
        } && version_id == v.version_id && p == v.parent_version_id && history_segment@
            == v.history_segment@),
        child is None ==> r == if client.latest_version_id == parent_version_id
            || client.latest_version_id == NIL_VERSION_ID {
            GetVersionResult::NotFound
        } else {
            GetVersionResult::Gone
        },
{
    match child {
        Some(version) => GetVersionResult::Success {
            version_id: version.version_id,
            parent_version_id: version.parent_version_id,
            history_segment: version.history_segment,
        },
        None => {
            if client.latest_version_id == parent_version_id || client.latest_version_id
                == NIL_VERSION_ID {
                GetVersionResult::NotFound
            } else {
                GetVersionResult::Gone
            }
        },
    }
}

/// One step of the snapshot walk, at version `vid` with `search_len` steps left: `Some(true)`
/// accepts (this is the snapshot's version, and it is not nil), `Some(false)` rejects (this is
/// the existing snapshot's version, the search is used up, or `vid` is nil), and `None` goes on
/// to the parent of `vid`.
pub fn search_step(
    vid: VersionId,
    version_id: VersionId,
    last_snapshot: Option<VersionId>,
    search_len: i32,
) -> (r: Option<bool>)
    ensures
        r == if vid == version_id && version_id != NIL_VERSION_ID {
            Some(true)
        } else if last_snapshot == Some(vid) {
            Some(false)
        } else if search_len - 1 <= 0 || vid == NIL_VERSION_ID {
            Some(false)
        } else {
            None::<bool>
        },
{
    if vid == version_id && version_id != NIL_VERSION_ID {
        return Some(true);
    }
    if let Some(last) = last_snapshot {
        if last == vid {
            return Some(false);
        }
    }
    if search_len <= 1 || vid == NIL_VERSION_ID {
        return Some(false);
    }
    None
}

/// The answer to GetSnapshot, from the client record and the bytes that storage returned for
/// its snapshot: the snapshot's version id with those bytes, or nothing when there is no
/// snapshot or no bytes.
pub fn snapshot_answer(client: &Client, data: Option<Vec<u8>>) -> (r: Option<(VersionId, Vec<u8>)>)
    ensures
        client.snapshot is None ==> r is None,
        client.snapshot matches Some(s) ==> match data {
            Some(d) => (r matches Some((v, x)) && v == s.version_id && x@ == d@),
            None => r is None,
        },
{
    match client.snapshot {
        Some(s) => match data {
            Some(d) => Some((s.version_id, d)),
            None => None,
        },
        None => None,
    }
}

/// Walk back at most `SNAPSHOT_SEARCH_LEN` versions from `latest_version_id`, and tell whether
/// a snapshot at `version_id` is recent enough to be kept.
pub fn search_recent_history<T: StorageTxn>(
    txn: &mut T,
    latest_version_id: VersionId,
    version_id: VersionId,
    last_snapshot: Option<VersionId>,
) -> (r: Result<bool, ServerError>)
    requires
        old(txn).wf(),
    ensures
        final(txn).wf(),
        final(txn).client_id() == old(txn).client_id(),
        final(txn).state() == old(txn).state(),
        final(txn).version_reads() <= old(txn).version_reads() + SNAPSHOT_SEARCH_LEN,
        r matches Ok(b) ==> b == search_accepts(
            old(txn).state().versions,
            latest_version_id,
            version_id,
            last_snapshot,
            SNAPSHOT_SEARCH_LEN as int,
        ),
        r matches Err(e) ==> e is Other,
{
    let ghost versions = txn.state().versions;
    let mut search_len: i32 = SNAPSHOT_SEARCH_LEN;
    let mut vid = latest_version_id;
    loop
        invariant
            txn.wf(),
            txn.client_id() == old(txn).client_id(),
            txn.state() == old(txn).state(),
            versions == old(txn).state().versions,
            0 < search_len <= SNAPSHOT_SEARCH_LEN,
            txn.version_reads() + search_len == old(txn).version_reads() + SNAPSHOT_SEARCH_LEN,
            search_accepts(
                versions,
                latest_version_id,
                version_id,
                last_snapshot,
                SNAPSHOT_SEARCH_LEN as int,
            ) == search_accepts(versions, vid, version_id, last_snapshot, search_len as int),
        decreases search_len,
    {
        match search_step(vid, version_id, last_snapshot, search_len) {
            Some(decided) => {
                return Ok(decided);
            },
            None => {},
        }
        search_len = search_len - 1;
        match txn.get_version(vid) {
            Ok(Some(parent)) => {
                vid = parent.parent_version_id;
            },
            Ok(None) => {
                return Ok(false);
            },
            Err(e) => {
                return Err(e);
            },
        }
    }
}

/// A client's state once it is sure to exist: created with nil as its latest version if it was
/// missing.
pub open spec fn created_client_state(st: ClientState) -> ClientState {
    if st.client is None {
        st.with_new_client(NIL_VERSION_ID)
    } else {
        st
    }
}

/// A server implementing the TaskChampion sync protocol over a storage backend.
pub struct Server<S: Storage> {
    pub config: ServerConfig,
    pub storage: S,
}

impl<S: Storage> Server<S> {
    pub fn new(config: ServerConfig, storage: S) -> (r: Self)
        ensures
            r.config == config,
            r.storage == storage,
    {
        Server { config, storage }
    }

    /// Begin a transaction for the given client on this server's storage.
    pub fn txn(&self, client_id: ClientId) -> (r: Result<S::Txn, ServerError>)
        ensures
            r matches Ok(t) ==> {
                &&& t.wf()
                &&& t.client_id() == client_id
                &&& t.state() == self.storage.client_state(client_id)
                &&& t.version_reads() == 0
            },
    {
        self.storage.txn(client_id)
    }

    /// Commit a transaction on this server's storage.
    pub fn commit(&mut self, txn: S::Txn) -> (r: Result<(), ServerError>)
        requires
            txn.wf(),
        ensures
            final(self).config == old(self).config,
            r is Ok ==> final(self).storage.client_state(txn.client_id()) == txn.state()
                && others_unchanged(old(self).storage, final(self).storage, txn.client_id()),
            r is Err ==> all_unchanged(old(self).storage, final(self).storage),
    {
        self.storage.commit(txn)
    }

    /// Create a client with the given latest version, in a transaction of its own.
    pub fn new_client(&mut self, client_id: ClientId, latest_version_id: VersionId) -> (r: Result<
        (),
        ServerError,
    >)
        ensures
            final(self).config == old(self).config,
            old(self).storage.client_state(client_id).client is Some ==> r is Err,
            r is Ok ==> final(self).storage.client_state(client_id) == old(
                self,
            ).storage.client_state(client_id).with_new_client(latest_version_id) && others_unchanged(
                old(self).storage,
                final(self).storage,
                client_id,
            ),
            r is Err ==> all_unchanged(old(self).storage, final(self).storage),
    {
        let mut txn = match self.storage.txn(client_id) {
            Ok(t) => t,
            Err(e) => return Err(e),
        };
        match txn.new_client(latest_version_id) {
            Ok(()) => {},
            Err(e) => return Err(e),
        }
        self.storage.commit(txn)
    }

    /// The GetChildVersion protocol transaction.
    pub fn get_child_version(&self, client_id: ClientId, parent_version_id: VersionId) -> (r:
        Result<GetVersionResult, ServerError>)
        ensures
            self.storage.client_state(client_id).client is None ==> r is Err,
            r matches Err(e) && e is NoSuchClient ==> self.storage.client_state(
                client_id,
            ).client is None,
            r matches Ok(res) ==> child_version_answer(
                self.storage.client_state(client_id),
                parent_version_id,
                res,
            ),
    {
        let mut txn = match self.storage.txn(client_id) {
            Ok(t) => t,
            Err(e) => return Err(e),
        };
        let client = match txn.get_client() {
            Ok(found) => match require_client(found) {
                Ok(c) => c,
                Err(e) => return Err(e),
            },
            Err(e) => return Err(e),
        };
        match txn.get_version_by_parent(parent_version_id) {
            Ok(child) => Ok(child_version_result(&client, child, parent_version_id)),
            Err(e) => Err(e),
        }
    }

    /// The AddVersion protocol transaction, with the new version's id and the current time
    /// (seconds since the Unix epoch) given.
    pub fn add_version_with(
        &mut self,
        client_id: ClientId,
        parent_version_id: VersionId,
        history_segment: Vec<u8>,
        version_id: VersionId,
        now: i64,
    ) -> (r: Result<(AddVersionResult, SnapshotUrgency), ServerError>)
        requires
            version_id != NIL_VERSION_ID,
            version_id != parent_version_id,
        ensures
            final(self).config == old(self).config,
            old(self).storage.client_state(client_id).client is None ==> r is Err,
            r matches Err(e) ==> all_unchanged(old(self).storage, final(self).storage) && (
            e is NoSuchClient ==> old(self).storage.client_state(client_id).client is None),
            r matches Ok((AddVersionResult::Added(v), u)) ==> {
                let st = old(self).storage.client_state(client_id);
                &&& v == version_id
                &&& st.client matches Some(c) && (c.latest_version_id == parent_version_id
                    || c.latest_version_id == NIL_VERSION_ID) && u == urgency_for(
                    old(self).config,
                    c.snapshot,
                    now,
                ) && (c.snapshot matches Some(s) ==> s.versions_since < u32::MAX)
                &&& !st.has_child(parent_version_id)
                &&& !st.versions.contains_key(v)
                &&& final(self).storage.client_state(client_id) == st.with_version(
                    v,
                    parent_version_id,
                    history_segment@,
                )
                &&& others_unchanged(old(self).storage, final(self).storage, client_id)
            },
            r matches Ok((AddVersionResult::ExpectedParentVersion(expected), u)) ==> {
                &&& old(self).storage.client_state(client_id).client matches Some(c) && c.latest_version_id
                    != NIL_VERSION_ID && c.latest_version_id != parent_version_id && expected
                    == c.latest_version_id
                &&& u == SnapshotUrgency::NotNeeded
                &&& all_unchanged(old(self).storage, final(self).storage)
            },
    {
        let mut txn = match self.storage.txn(client_id) {
            Ok(t) => t,
            Err(e) => return Err(e),
        };
        let client = match txn.get_client() {
            Ok(found) => match require_client(found) {
                Ok(c) => c,
                Err(e) => return Err(e),
            },
            Err(e) => return Err(e),
        };
        // decide under the protection of the transaction
        let answer = add_version_answer(&self.config, &client, parent_version_id, version_id, now);
        if let AddVersionResult::ExpectedParentVersion(_) = answer.0 {
            return Ok(answer);
        }
        match txn.add_version(version_id, parent_version_id, history_segment) {
            Ok(()) => {},
            Err(e) => return Err(e),
        }
        match self.storage.commit(txn) {
            Ok(()) => {},
            Err(e) => return Err(e),
        }
        Ok(answer)
    }

    /// The AddVersion protocol transaction: the new version gets a fresh random id, and the
    /// urgency is computed at the current time.
    pub fn add_version(
        &mut self,
        client_id: ClientId,
        parent_version_id: VersionId,
        history_segment: Vec<u8>,
    ) -> (r: Result<(AddVersionResult, SnapshotUrgency), ServerError>)
        ensures
            final(self).config == old(self).config,
            old(self).storage.client_state(client_id).client is None ==> r is Err,
            r matches Err(e) ==> all_unchanged(old(self).storage, final(self).storage) && (
            e is NoSuchClient ==> old(self).storage.client_state(client_id).client is None),
            r matches Ok((AddVersionResult::Added(v), u)) ==> {
                let st = old(self).storage.client_state(client_id);
                &&& v != NIL_VERSION_ID && v != parent_version_id
                &&& st.client matches Some(c) && (c.latest_version_id == parent_version_id
                    || c.latest_version_id == NIL_VERSION_ID) && (exists|now: i64|
                    u == #[trigger] urgency_for(old(self).config, c.snapshot, now)) && (
                c.snapshot matches Some(s) ==> s.versions_since < u32::MAX)
                &&& !st.has_child(parent_version_id)
                &&& !st.versions.contains_key(v)
                &&& final(self).storage.client_state(client_id) == st.with_version(
                    v,
                    parent_version_id,
                    history_segment@,
                )
                &&& others_unchanged(old(self).storage, final(self).storage, client_id)
            },
            r matches Ok((AddVersionResult::ExpectedParentVersion(expected), u)) ==> {
                &&& old(self).storage.client_state(client_id).client matches Some(c) && c.latest_version_id
                    != NIL_VERSION_ID && c.latest_version_id != parent_version_id && expected
                    == c.latest_version_id
                &&& u == SnapshotUrgency::NotNeeded
                &&& all_unchanged(old(self).storage, final(self).storage)
            },
    {
        let version_id = new_version_id();
        proof {
            lemma_marked_id_not_nil(version_id);
        }
        if version_id == parent_version_id {
            // a fresh id equal to the parent would make a version its own parent
            return Err(other_error("generated version id equals the parent version id"));
        }
        let now = now_timestamp();
        let r = self.add_version_with(client_id, parent_version_id, history_segment, version_id, now);
        proof {
            if let Ok((AddVersionResult::Added(v), u)) = r {
                let c = old(self).storage.client_state(client_id).client.unwrap();
                assert(u == urgency_for(old(self).config, c.snapshot, now));
            }
        }
        r
    }

    /// The AddVersion protocol transaction for a client that is created on first use: when the
    /// client does not exist, it is created with nil as its latest version, in a committed
    /// transaction of its own, and the version is then added.
    pub fn add_version_creating_client(
        &mut self,
        client_id: ClientId,
        parent_version_id: VersionId,
        history_segment: Vec<u8>,
    ) -> (r: Result<(AddVersionResult, SnapshotUrgency), ServerError>)
        ensures
            final(self).config == old(self).config,
            others_unchanged(old(self).storage, final(self).storage, client_id),
            r matches Ok((AddVersionResult::Added(v), u)) ==> v != NIL_VERSION_ID && v
                != parent_version_id,
            r matches Ok((AddVersionResult::Added(v), u)) ==> created_client_state(
                old(self).storage.client_state(client_id),
            ).client matches Some(c) && (c.latest_version_id == parent_version_id
                || c.latest_version_id == NIL_VERSION_ID),
            r matches Ok((AddVersionResult::Added(v), u)) ==> (created_client_state(
                old(self).storage.client_state(client_id),
            ).client matches Some(c) && (exists|now: i64|
                u == #[trigger] urgency_for(old(self).config, c.snapshot, now))),
            r matches Ok((AddVersionResult::Added(v), u)) ==> (created_client_state(
                old(self).storage.client_state(client_id),
            ).client matches Some(c) && (c.snapshot matches Some(s) ==> s.versions_since
                < u32::MAX)),
            r matches Ok((AddVersionResult::Added(v), u)) ==> !created_client_state(
                old(self).storage.client_state(client_id),
            ).versions.contains_key(v) && !created_client_state(
                old(self).storage.client_state(client_id),
            ).has_child(parent_version_id),
            r matches Ok((AddVersionResult::Added(v), u)) ==> final(self).storage.client_state(
                client_id,
            ) == created_client_state(old(self).storage.client_state(client_id)).with_version(
                v,
                parent_version_id,
                history_segment@,
            ),
            r matches Ok((AddVersionResult::ExpectedParentVersion(expected), u)) ==> {
                &&& old(self).storage.client_state(client_id).client matches Some(c) && c.latest_version_id
                    != NIL_VERSION_ID && c.latest_version_id != parent_version_id && expected
                    == c.latest_version_id
                &&& u == SnapshotUrgency::NotNeeded
                &&& all_unchanged(old(self).storage, final(self).storage)
            },
            r is Err ==> final(self).storage.client_state(client_id) == old(
                self,
            ).storage.client_state(client_id) || (old(self).storage.client_state(
                client_id,
            ).client is None && final(self).storage.client_state(client_id) == old(
                self,
            ).storage.client_state(client_id).with_new_client(NIL_VERSION_ID)),
    {
        let ghost config = self.config;
        let first = self.add_version(client_id, parent_version_id, history_segment.clone());
        let missing = match &first {
            Err(e) => e.is_no_such_client(),
            Ok(_) => false,
        };
        if !missing {
            proof {
                if let Ok((AddVersionResult::Added(v), u)) = first {
                    let c = old(self).storage.client_state(client_id).client.unwrap();
                    let now = choose|now: i64| u == #[trigger] urgency_for(config, c.snapshot, now);
                    assert(u == urgency_for(config, c.snapshot, now));
                }
            }
            return first;
        }
        match self.new_client(client_id, NIL_VERSION_ID) {
            Ok(()) => {},
            Err(e) => return Err(e),
        }
        let ghost created = self.storage.client_state(client_id);
        let second = self.add_version(client_id, parent_version_id, history_segment);
        proof {
            if let Ok((AddVersionResult::Added(v), u)) = second {
                let c = created.client.unwrap();
                let now = choose|now: i64| u == #[trigger] urgency_for(config, c.snapshot, now);
                assert(u == urgency_for(config, c.snapshot, now));
            }
        }
        second
    }

    /// The AddSnapshot protocol transaction, with the current time (seconds since the Unix
    /// epoch) given. A snapshot that is not recent enough is silently ignored.
    pub fn add_snapshot_with(
        &mut self,
        client_id: ClientId,
        version_id: VersionId,
        data: Vec<u8>,
        now: i64,
    ) -> (r: Result<(), ServerError>)
        ensures
            final(self).config == old(self).config,
            old(self).storage.client_state(client_id).client is None ==> r is Err,
            r matches Err(e) ==> all_unchanged(old(self).storage, final(self).storage) && (
            e is NoSuchClient ==> old(self).storage.client_state(client_id).client is None),
            r is Ok && snapshot_accepted(old(self).storage.client_state(client_id), version_id)
                ==> final(self).storage.client_state(client_id) == old(self).storage.client_state(
                client_id,
            ).with_snapshot(Snapshot { version_id, timestamp: now, versions_since: 0 }, data@)
                && others_unchanged(old(self).storage, final(self).storage, client_id),
            r is Ok && !snapshot_accepted(old(self).storage.client_state(client_id), version_id)
                ==> all_unchanged(old(self).storage, final(self).storage),
    {
        let mut txn = match self.storage.txn(client_id) {
            Ok(t) => t,
            Err(e) => return Err(e),
        };
        let client = match txn.get_client() {
            Ok(found) => match require_client(found) {
                Ok(c) => c,
                Err(e) => return Err(e),
            },
            Err(e) => return Err(e),
        };
        let last_snapshot = match client.snapshot {
            Some(s) => Some(s.version_id),
            None => None,
        };
        if let Some(last) = last_snapshot {
            if last == version_id {
                // already exists
                return Ok(());
            }
        }
        let recent = match search_recent_history(
            &mut txn,
            client.latest_version_id,
            version_id,
            last_snapshot,
        ) {
            Ok(b) => b,
            Err(e) => return Err(e),
        };
        if !recent {
            return Ok(());
        }
        let snapshot = Snapshot { version_id, timestamp: now, versions_since: 0 };
        match txn.set_snapshot(snapshot, data) {
            Ok(()) => {},
            Err(e) => return Err(e),
        }
        self.storage.commit(txn)
    }

    /// The AddSnapshot protocol transaction, timestamped with the current time.
    pub fn add_snapshot(&mut self, client_id: ClientId, version_id: VersionId, data: Vec<u8>) -> (r:
        Result<(), ServerError>)
        ensures
            final(self).config == old(self).config,
            old(self).storage.client_state(client_id).client is None ==> r is Err,
            r matches Err(e) ==> all_unchanged(old(self).storage, final(self).storage) && (
            e is NoSuchClient ==> old(self).storage.client_state(client_id).client is None),
            r is Ok && snapshot_accepted(old(self).storage.client_state(client_id), version_id)
                ==> (exists|now: i64|
                final(self).storage.client_state(client_id) == #[trigger] old(
                    self,
                ).storage.client_state(client_id).with_snapshot(
                    Snapshot { version_id, timestamp: now, versions_since: 0 },
                    data@,
                )) && others_unchanged(old(self).storage, final(self).storage, client_id),
            r is Ok && !snapshot_accepted(old(self).storage.client_state(client_id), version_id)
                ==> all_unchanged(old(self).storage, final(self).storage),
    {
        let now = now_timestamp();
        self.add_snapshot_with(client_id, version_id, data, now)
    }

    /// The GetSnapshot protocol transaction: the current snapshot's version id and bytes.
    pub fn get_snapshot(&self, client_id: ClientId) -> (r: Result<
        Option<(VersionId, Vec<u8>)>,
        ServerError,
    >)
        ensures
            self.storage.client_state(client_id).client is None ==> r is Err,
            r matches Err(e) && e is NoSuchClient ==> self.storage.client_state(
                client_id,
            ).client is None,
            r matches Ok(Some((v, d))) ==> self.storage.client_state(client_id).client matches Some(
                c,
            ) && snapshot_version(c) == Some(v) && self.storage.client_state(
                client_id,
            ).snapshot_data_for(v) == Some(d@),
            r matches Ok(None) ==> self.storage.client_state(client_id).client matches Some(c) && (
            c.snapshot matches Some(s) ==> self.storage.client_state(client_id).snapshot_data_for(
                s.version_id,
            ) is None),
    {
        let mut txn = match self.storage.txn(client_id) {
            Ok(t) => t,
            Err(e) => return Err(e),
        };
        let client = match txn.get_client() {
            Ok(found) => match require_client(found) {
                Ok(c) => c,
                Err(e) => return Err(e),
            },
            Err(e) => return Err(e),
        };
        let data = match client.snapshot {
            Some(snap) => match txn.get_snapshot_data(snap.version_id) {
                Ok(d) => d,
                Err(e) => return Err(e),
            },
            None => None,
        };
        Ok(snapshot_answer(&client, data))
    }
}

} // verus!
