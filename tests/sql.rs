use taskchampion_sync_core::{
    check_latest_updated, client_from_columns, snapshot_data_matching, ServerError, Snapshot,
};

#[test]
fn client_columns_with_full_snapshot() {
    let c = client_from_columns(5, Some(10_000_000), Some(10), Some(7));
    assert_eq!(c.latest_version_id, 5);
    assert_eq!(
        c.snapshot,
        Some(Snapshot { version_id: 7, timestamp: 10_000_000, versions_since: 10 })
    );
}

#[test]
fn client_columns_with_partial_snapshot() {
    assert_eq!(client_from_columns(5, None, Some(10), Some(7)).snapshot, None);
    assert_eq!(client_from_columns(5, Some(1), None, Some(7)).snapshot, None);
    assert_eq!(client_from_columns(5, Some(1), Some(10), None).snapshot, None);
    assert_eq!(client_from_columns(0, None, None, None).latest_version_id, 0);
}

#[test]
fn latest_update_must_change_a_row() {
    assert!(check_latest_updated(1).is_ok());
    assert!(matches!(check_latest_updated(0), Err(ServerError::Other(_))));
}

#[test]
fn snapshot_data_checks_version() {
    assert_eq!(snapshot_data_matching(None, 3).unwrap(), None);
    assert_eq!(
        snapshot_data_matching(Some((3, vec![9, 8, 9])), 3).unwrap(),
        Some(vec![9, 8, 9])
    );
    assert!(snapshot_data_matching(Some((3, vec![9, 8, 9])), 4).is_err());
}
