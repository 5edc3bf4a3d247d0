use taskchampion_sync_core::{
    add_version_answer, check_latest_updated, child_version_result, require_client, search_step,
    snapshot_answer, AddVersionResult, Client, GetVersionResult, ServerConfig, ServerError,
    Snapshot, SnapshotUrgency, Version, NIL_VERSION_ID,
};

const NOW: i64 = 1_000_000_000;

fn client(latest: u128, snapshot: Option<Snapshot>) -> Client {
    Client { latest_version_id: latest, snapshot }
}

#[test]
fn require_client_reports_a_missing_client() {
    assert_eq!(require_client(Some(client(3, None))), Ok(client(3, None)));
    assert_eq!(require_client(None), Err(ServerError::NoSuchClient));
}

#[test]
fn add_version_answer_mismatch() {
    let config = ServerConfig::default();
    assert_eq!(
        add_version_answer(&config, &client(3, None), 1, 9, NOW),
        (AddVersionResult::ExpectedParentVersion(3), SnapshotUrgency::NotNeeded)
    );
}

#[test]
fn add_version_answer_accepted() {
    let config = ServerConfig::default();
    // fresh client: any parent, no snapshot
    assert_eq!(
        add_version_answer(&config, &client(NIL_VERSION_ID, None), 42, 9, NOW),
        (AddVersionResult::Added(9), SnapshotUrgency::High)
    );
    // aged snapshot
    let aged = Snapshot { version_id: 3, timestamp: NOW - 50 * 86400, versions_since: 0 };
    assert_eq!(
        add_version_answer(&config, &client(3, Some(aged)), 3, 9, NOW),
        (AddVersionResult::Added(9), SnapshotUrgency::High)
    );
    // recent snapshot
    let recent = Snapshot { version_id: 3, timestamp: NOW, versions_since: 0 };
    assert_eq!(
        add_version_answer(&config, &client(3, Some(recent)), 3, 9, NOW),
        (AddVersionResult::Added(9), SnapshotUrgency::NotNeeded)
    );
    // many versions since the snapshot
    let config30 = ServerConfig { snapshot_days: 14, snapshot_versions: 30 };
    let busy = Snapshot { version_id: 3, timestamp: NOW, versions_since: 49 };
    assert_eq!(
        add_version_answer(&config30, &client(3, Some(busy)), 3, 9, NOW),
        (AddVersionResult::Added(9), SnapshotUrgency::High)
    );
}

#[test]
fn child_version_result_cases() {
    let child = Version { version_id: 5, parent_version_id: 4, history_segment: vec![1, 2] };
    assert_eq!(
        child_version_result(&client(5, None), Some(child), 4),
        GetVersionResult::Success { version_id: 5, parent_version_id: 4, history_segment: vec![1, 2] }
    );
    assert_eq!(child_version_result(&client(5, None), None, 5), GetVersionResult::NotFound);
    assert_eq!(
        child_version_result(&client(NIL_VERSION_ID, None), None, 77),
        GetVersionResult::NotFound
    );
    assert_eq!(child_version_result(&client(5, None), None, 77), GetVersionResult::Gone);
}

#[test]
fn search_step_cases() {
    assert_eq!(search_step(7, 7, None, 5), Some(true));
    assert_eq!(search_step(NIL_VERSION_ID, NIL_VERSION_ID, None, 5), Some(false));
    assert_eq!(search_step(7, 8, Some(7), 5), Some(false));
    assert_eq!(search_step(7, 8, None, 1), Some(false));
    assert_eq!(search_step(NIL_VERSION_ID, 8, None, 5), Some(false));
    assert_eq!(search_step(7, 8, None, 2), None);
    assert_eq!(search_step(7, 8, Some(6), 5), None);
}

#[test]
fn snapshot_answer_cases() {
    let snap = Snapshot { version_id: 3, timestamp: NOW, versions_since: 0 };
    assert_eq!(snapshot_answer(&client(3, None), None), None);
    assert_eq!(snapshot_answer(&client(3, Some(snap)), None), None);
    assert_eq!(
        snapshot_answer(&client(3, Some(snap)), Some(vec![1, 2, 3])),
        Some((3, vec![1, 2, 3]))
    );
}

#[test]
fn latest_update_must_change_exactly_one_row() {
    assert!(check_latest_updated(1).is_ok());
    assert!(check_latest_updated(0).is_err());
    assert!(check_latest_updated(2).is_err());
}
