//! The shape of a client's history: a single chain of versions from the latest back to nil.
use crate::server::{child_version_answer, GetVersionResult};
use crate::storage::{ClientState, Snapshot, VersionId, VersionRecord, NIL_VERSION_ID};
use vstd::prelude::*;

verus! {

/// Walking parents from `vid`, nil is reached within `n` steps, through stored versions only.
pub open spec fn reaches_nil(versions: Map<VersionId, VersionRecord>, vid: VersionId, n: nat) -> bool
    decreases n,
{
    if vid == NIL_VERSION_ID {
        true
    } else if n == 0 {
        false
    } else {
        versions.contains_key(vid) && reaches_nil(
            versions,
            versions[vid].parent_version_id,
            (n - 1) as nat,
        )
    }
}

/// Walking parents from `vid` reaches nil, through stored versions only.
pub open spec fn walks_to_nil(versions: Map<VersionId, VersionRecord>, vid: VersionId) -> bool {
    exists|n: nat| reaches_nil(versions, vid, n)
}

/// No two stored versions share a parent.
pub open spec fn parents_unique(versions: Map<VersionId, VersionRecord>) -> bool {
    forall|a: VersionId, b: VersionId|
        #![trigger versions[a], versions[b]]
        versions.contains_key(a) && versions.contains_key(b) && versions[a].parent_version_id
            == versions[b].parent_version_id ==> a == b
}

/// A client's versions form one chain: walking parents from the latest version reaches nil
/// through stored versions, parents are unique, no version is a child of the latest, and every
/// parent is nil or stored.
pub open spec fn chain_ok(st: ClientState) -> bool {
    match st.client {
        None => true,
        Some(c) => {
            &&& walks_to_nil(st.versions, c.latest_version_id)
            &&& parents_unique(st.versions)
            &&& forall|v: VersionId| #[trigger]
                st.versions.contains_key(v) ==> st.versions[v].parent_version_id
                    != c.latest_version_id
            &&& forall|v: VersionId| #[trigger]
                st.versions.contains_key(v) ==> st.versions[v].parent_version_id
                    == NIL_VERSION_ID || st.versions.contains_key(st.versions[v].parent_version_id)
        },
    }
}

proof fn lemma_reaches_nil_insert(
    versions: Map<VersionId, VersionRecord>,
    vid: VersionId,
    n: nat,
    new_id: VersionId,
    record: VersionRecord,
)
    requires
        reaches_nil(versions, vid, n),
        !versions.contains_key(new_id),
    ensures
        reaches_nil(versions.insert(new_id, record), vid, n),
    decreases n,
{
    if vid != NIL_VERSION_ID && n > 0 {
        lemma_reaches_nil_insert(
            versions,
            versions[vid].parent_version_id,
            (n - 1) as nat,
            new_id,
            record,
        );
    }
}

/// A newly created client with nil as its latest version satisfies the chain invariant.
pub proof fn lemma_new_client_chain_ok(st: ClientState)
    requires
        st.versions == Map::<VersionId, VersionRecord>::empty(),
    ensures
        chain_ok(st.with_new_client(NIL_VERSION_ID)),
{
    assert(reaches_nil(st.versions, NIL_VERSION_ID, 0));
    assert(walks_to_nil(st.versions, NIL_VERSION_ID));
}

/// Adding a version whose parent is the latest version keeps the chain invariant (the chain
/// from the new latest version reaches nil, and parents stay unique).
pub proof fn lemma_add_version_keeps_chain(
    st: ClientState,
    version_id: VersionId,
    parent_version_id: VersionId,
    history_segment: Seq<u8>,
)
    requires
        chain_ok(st),
        st.client matches Some(c) && c.latest_version_id == parent_version_id,
        version_id != NIL_VERSION_ID,
        !st.versions.contains_key(version_id),
    ensures
        chain_ok(st.with_version(version_id, parent_version_id, history_segment)),
{
    let c = st.client.unwrap();
    let record = VersionRecord { parent_version_id, history_segment };
    let st2 = st.with_version(version_id, parent_version_id, history_segment);
    let m2 = st2.versions;
    let n = choose|n: nat| reaches_nil(st.versions, c.latest_version_id, n);
    lemma_reaches_nil_insert(st.versions, parent_version_id, n, version_id, record);
    assert(reaches_nil(m2, version_id, n + 1));
    assert(walks_to_nil(m2, version_id));
    assert forall|a: VersionId, b: VersionId|
        #![trigger m2[a], m2[b]]
        m2.contains_key(a) && m2.contains_key(b) && m2[a].parent_version_id
            == m2[b].parent_version_id implies a == b by {
        if a != version_id && b != version_id {
            assert(st.versions[a] == m2[a]);
            assert(st.versions[b] == m2[b]);
        } else if a == version_id && b != version_id {
            assert(st.versions.contains_key(b));
        } else if a != version_id && b == version_id {
            assert(st.versions.contains_key(a));
        }
    }
    assert forall|v: VersionId| #[trigger] m2.contains_key(v) implies m2[v].parent_version_id
        != version_id by {
        if v != version_id {
            assert(st.versions.contains_key(v));
        } else {
            if parent_version_id != NIL_VERSION_ID {
                assert(st.versions.contains_key(parent_version_id)) by {
                    assert(reaches_nil(st.versions, c.latest_version_id, n));
                }
            }
        }
    }
    assert forall|v: VersionId| #[trigger] m2.contains_key(v) implies m2[v].parent_version_id
        == NIL_VERSION_ID || m2.contains_key(m2[v].parent_version_id) by {
        if v != version_id {
            assert(st.versions.contains_key(v));
        } else if parent_version_id != NIL_VERSION_ID {
            assert(st.versions.contains_key(parent_version_id)) by {
                assert(reaches_nil(st.versions, c.latest_version_id, n));
            }
        }
    }
}

/// Replacing the snapshot keeps the chain invariant.
pub proof fn lemma_set_snapshot_keeps_chain(st: ClientState, snapshot: Snapshot, data: Seq<u8>)
    requires
        chain_ok(st),
    ensures
        chain_ok(st.with_snapshot(snapshot, data)),
{
    if let Some(c) = st.client {
        assert(walks_to_nil(st.versions, c.latest_version_id));
    }
}

/// Once a version is added with parent `parent_version_id`, the latest version is neither nil nor
/// that parent, so a second AddVersion with the same parent cannot be accepted: it is answered
/// with the expected parent instead.
pub proof fn lemma_same_parent_accepted_once(
    st: ClientState,
    version_id: VersionId,
    parent_version_id: VersionId,
    history_segment: Seq<u8>,
)
    requires
        st.client is Some,
        version_id != NIL_VERSION_ID,
        version_id != parent_version_id,
    ensures
        st.with_version(version_id, parent_version_id, history_segment).client matches Some(c) && c.latest_version_id
            == version_id && c.latest_version_id != NIL_VERSION_ID && c.latest_version_id
            != parent_version_id,
{
}

/// After a version is added as the child of the latest version, the only answer that
/// GetChildVersion can give for that parent is the new version, with the submitted bytes.
pub proof fn lemma_added_version_is_child(
    st: ClientState,
    version_id: VersionId,
    parent_version_id: VersionId,
    history_segment: Seq<u8>,
    answer: GetVersionResult,
)
    requires
        chain_ok(st),
        st.client matches Some(c) && c.latest_version_id == parent_version_id,
        version_id != NIL_VERSION_ID,
        !st.versions.contains_key(version_id),
        child_version_answer(
            st.with_version(version_id, parent_version_id, history_segment),
            parent_version_id,
            answer,
        ),
    ensures
        answer matches GetVersionResult::Success { version_id: v, parent_version_id: p, history_segment: h }
            && v == version_id && p == parent_version_id && h@ == history_segment,
{
    let st2 = st.with_version(version_id, parent_version_id, history_segment);
    lemma_add_version_keeps_chain(st, version_id, parent_version_id, history_segment);
    assert(st2.versions.contains_key(version_id));
    match answer {
        GetVersionResult::Success { version_id: v, parent_version_id: p, history_segment: h } => {
            assert(st2.versions[v].parent_version_id == st2.versions[version_id].parent_version_id);
        },
        _ => {
            assert(st2.has_child(parent_version_id));
        },
    }
}

} // verus!
