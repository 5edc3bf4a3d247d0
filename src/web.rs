//! The protocol's HTTP rules: which requests are accepted and which status answers each outcome.
use crate::error::ServerError;
use crate::server::{AddVersionResult, GetVersionResult};
use crate::storage::{ClientId, VersionId};
use crate::urgency::SnapshotUrgency;
use std::collections::HashSet;
use vstd::prelude::*;

verus! {

broadcast use vstd::std_specs::hash::group_hash_axioms;

/// Largest body accepted for a version or a snapshot: 100 MiB.
pub const MAX_BODY_SIZE: usize = 104857600;

/// True if a body of `current` bytes may grow by a chunk of `chunk` bytes.
pub fn body_fits(current: usize, chunk: usize) -> (r: bool)
    ensures
        r == (current + chunk <= MAX_BODY_SIZE),
{
    chunk <= MAX_BODY_SIZE && current <= MAX_BODY_SIZE - chunk
}

/// True if the client may use the server: every client when there is no allow-list, else only
/// the listed ones.
pub fn client_allowed(allowlist: &Option<HashSet<ClientId>>, client_id: ClientId) -> (r: bool)
    ensures
        r == match allowlist {
            None => true,
            Some(s) => s@.contains(client_id),
        },
{
    match allowlist {
        None => true,
        Some(s) => s.contains(&client_id),
    }
}

/// The value of the snapshot-request header for an urgency, if one is sent.
pub fn snapshot_request(urgency: SnapshotUrgency) -> (r: Option<&'static str>)
    ensures
        urgency is NotNeeded ==> r is None,
        urgency is Low ==> (r matches Some(s) && s@ == "urgency=low"@),
        urgency is High ==> (r matches Some(s) && s@ == "urgency=high"@),
{
    proof {
        reveal_strlit("urgency=low");
        reveal_strlit("urgency=high");
    }
    match urgency {
        SnapshotUrgency::NotNeeded => None,
        SnapshotUrgency::Low => Some("urgency=low"),
        SnapshotUrgency::High => Some("urgency=high"),
    }
}

/// The status for an error of the engine: 404 for a missing client, 500 otherwise.
pub fn error_status(e: &ServerError) -> (r: u16)
    ensures
        e is NoSuchClient ==> r == 404,
        e is Other ==> r == 500,
{
    match e {
        ServerError::NoSuchClient => 404,
        ServerError::Other(_) => 500,
    }
}

/// The status answering AddVersion: 200 when added, 409 on a parent mismatch.
pub fn add_version_status(r: &Result<(AddVersionResult, SnapshotUrgency), ServerError>) -> (s: u16)
    ensures
        r matches Ok((AddVersionResult::Added(_), _)) ==> s == 200,
        r matches Ok((AddVersionResult::ExpectedParentVersion(_), _)) ==> s == 409,
        r matches Err(e) ==> (e is NoSuchClient ==> s == 404) && (e is Other ==> s == 500),
{
    match r {
        Ok((AddVersionResult::Added(_), _)) => 200,
        Ok((AddVersionResult::ExpectedParentVersion(_), _)) => 409,
        Err(e) => error_status(e),
    }
}

/// The status answering GetChildVersion: 200 with the version, 404 when not found (or no such
/// client, which is deliberately the same), 410 when gone.
pub fn get_child_version_status(r: &Result<GetVersionResult, ServerError>) -> (s: u16)
    ensures
        r matches Ok(GetVersionResult::Success { .. }) ==> s == 200,
        r matches Ok(GetVersionResult::NotFound) ==> s == 404,
        r matches Ok(GetVersionResult::Gone) ==> s == 410,
        r matches Err(e) ==> (e is NoSuchClient ==> s == 404) && (e is Other ==> s == 500),
{
    match r {
        Ok(GetVersionResult::Success { .. }) => 200,
        Ok(GetVersionResult::NotFound) => 404,
        Ok(GetVersionResult::Gone) => 410,
        Err(e) => error_status(e),
    }
}

/// The status answering GetSnapshot: 200 with a snapshot, 404 without one.
pub fn get_snapshot_status(r: &Result<Option<(VersionId, Vec<u8>)>, ServerError>) -> (s: u16)
    ensures
        r matches Ok(Some(_)) ==> s == 200,
        r matches Ok(None) ==> s == 404,
        r matches Err(e) ==> (e is NoSuchClient ==> s == 404) && (e is Other ==> s == 500),
{
    match r {
        Ok(Some(_)) => 200,
        Ok(None) => 404,
        Err(e) => error_status(e),
    }
}

/// The status answering AddSnapshot: 200 whether the snapshot was kept or silently dropped.
pub fn add_snapshot_status(r: &Result<(), ServerError>) -> (s: u16)
    ensures
        r is Ok ==> s == 200,
        r matches Err(e) ==> (e is NoSuchClient ==> s == 404) && (e is Other ==> s == 500),
{
    match r {
        Ok(()) => 200,
        Err(e) => error_status(e),
    }
}

} // verus!
