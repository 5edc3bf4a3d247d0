use std::collections::HashSet;
use taskchampion_sync_core::{
    add_snapshot_status, add_version_status, body_fits, client_allowed,
    get_child_version_status, get_snapshot_status, other_error, snapshot_request,
    AddVersionResult, GetVersionResult, ServerError, SnapshotUrgency, MAX_BODY_SIZE,
};

#[test]
fn client_id_header_allow_all() {
    assert!(client_allowed(&None, 12345));
}

#[test]
fn client_id_header_allow_list() {
    let client_id_ok = 1u128;
    let client_id_disallowed = 2u128;
    let allow: Option<HashSet<u128>> = Some([client_id_ok].into());
    assert!(client_allowed(&allow, client_id_ok));
    assert!(!client_allowed(&allow, client_id_disallowed));
}

#[test]
fn body_size_limit() {
    assert!(body_fits(0, MAX_BODY_SIZE));
    assert!(!body_fits(1, MAX_BODY_SIZE));
    assert!(!body_fits(MAX_BODY_SIZE, usize::MAX));
    assert_eq!(MAX_BODY_SIZE, 100 * 1024 * 1024);
}

#[test]
fn snapshot_request_header_values() {
    assert_eq!(snapshot_request(SnapshotUrgency::NotNeeded), None);
    assert_eq!(snapshot_request(SnapshotUrgency::Low), Some("urgency=low"));
    assert_eq!(snapshot_request(SnapshotUrgency::High), Some("urgency=high"));
}

#[test]
fn status_codes() {
    let added = Ok((AddVersionResult::Added(1), SnapshotUrgency::High));
    let conflict = Ok((AddVersionResult::ExpectedParentVersion(1), SnapshotUrgency::NotNeeded));
    assert_eq!(add_version_status(&added), 200);
    assert_eq!(add_version_status(&conflict), 409);
    assert_eq!(add_version_status(&Err(ServerError::NoSuchClient)), 404);
    assert_eq!(add_version_status(&Err(other_error("boom"))), 500);

    assert_eq!(get_child_version_status(&Ok(GetVersionResult::NotFound)), 404);
    assert_eq!(get_child_version_status(&Ok(GetVersionResult::Gone)), 410);
    let found = GetVersionResult::Success {
        version_id: 1,
        parent_version_id: 0,
        history_segment: vec![1],
    };
    assert_eq!(get_child_version_status(&Ok(found)), 200);
    assert_eq!(get_child_version_status(&Err(ServerError::NoSuchClient)), 404);

    assert_eq!(get_snapshot_status(&Ok(None)), 404);
    assert_eq!(get_snapshot_status(&Ok(Some((1, vec![1])))), 200);
    assert_eq!(add_snapshot_status(&Ok(())), 200);
    assert_eq!(add_snapshot_status(&Err(other_error("boom"))), 500);
}

#[test]
fn error_messages() {
    assert_eq!(ServerError::NoSuchClient.message(), "No such client");
    assert_eq!(other_error("boom").message(), "boom");
    assert!(ServerError::NoSuchClient.is_no_such_client());
    assert!(!other_error("boom").is_no_such_client());
}
