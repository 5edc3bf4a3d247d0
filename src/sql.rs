//! Decisions that the SQL backends make on the rows they read and write.
use crate::error::{other_error, ServerError};
use crate::storage::{Client, Snapshot, VersionId};
use vstd::prelude::*;

verus! {

/// Build a client record from the columns of its row. The snapshot is present only when all
/// three of its columns are non-NULL.
pub fn client_from_columns(
    latest_version_id: VersionId,
    snapshot_timestamp: Option<i64>,
    versions_since_snapshot: Option<u32>,
    snapshot_version_id: Option<VersionId>,
) -> (r: Client)
    ensures
        r.latest_version_id == latest_version_id,
        r.snapshot is Some <==> (snapshot_timestamp is Some && versions_since_snapshot is Some
            && snapshot_version_id is Some),
        r.snapshot matches Some(s) ==> snapshot_timestamp == Some(s.timestamp)
            && versions_since_snapshot == Some(s.versions_since) && snapshot_version_id == Some(
            s.version_id,
        ),
{
    let snapshot = match (snapshot_timestamp, versions_since_snapshot, snapshot_version_id) {
        (Some(ts), Some(vs), Some(v)) => Some(
            Snapshot { version_id: v, timestamp: ts, versions_since: vs },
        ),
        _ => None,
    };
    Client { latest_version_id, snapshot }
}

/// The outcome of the conditional update that moves `latest_version_id` forward: it must have
/// changed exactly the client's row. No row means a concurrent writer won the race (or the
/// latest version is not the parent); more than one means the client table is corrupt.
pub fn check_latest_updated(rows_changed: u64) -> (r: Result<(), ServerError>)
    ensures
        r is Ok <==> rows_changed == 1,
        r matches Err(e) ==> e is Other,
{
    if rows_changed == 0 {
        Err(other_error("clients.latest_version_id does not match parent_version_id"))
    } else if rows_changed > 1 {
        Err(other_error("more than one client row was updated"))
    } else {
        Ok(())
    }
}

/// The snapshot bytes to return, given the stored snapshot (its version id and bytes, if the
/// client row exists) and the version id asked for. A stored snapshot of another version is an
/// error.
pub fn snapshot_data_matching(stored: Option<(VersionId, Vec<u8>)>, version_id: VersionId) -> (r:
    Result<Option<Vec<u8>>, ServerError>)
    ensures
        stored is None ==> r matches Ok(None),
        stored matches Some((v, d)) ==> if v == version_id {
            r matches Ok(Some(x)) && x@ == d@
        } else {
            r matches Err(e) && e is Other
        },
{
    match stored {
        None => Ok(None),
        Some((v, d)) => {
            if v != version_id {
                Err(other_error("unexpected snapshot_version_id"))
            } else {
                Ok(Some(d))
            }
        },
    }
}

} // verus!
