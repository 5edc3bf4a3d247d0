use taskchampion_sync_core::{InMemoryStorage, Snapshot, Storage, StorageTxn, Version, NIL_VERSION_ID};
use uuid::Uuid;

fn new_id() -> u128 {
    Uuid::new_v4().as_u128()
}

#[test]
fn inmemory_test_get_client_empty() {
    let storage = InMemoryStorage::new();
    let mut txn = storage.txn(new_id()).unwrap();
    let maybe_client = txn.get_client().unwrap();
    assert!(maybe_client.is_none());
}

#[test]
fn inmemory_test_client_storage() {
    let mut storage = InMemoryStorage::new();
    let client_id = new_id();
    let mut txn = storage.txn(client_id).unwrap();

    let latest_version_id = new_id();
    txn.new_client(latest_version_id).unwrap();

    let client = txn.get_client().unwrap().unwrap();
    assert_eq!(client.latest_version_id, latest_version_id);
    assert!(client.snapshot.is_none());

    let new_version_id = new_id();
    txn.add_version(new_version_id, latest_version_id, vec![1, 1]).unwrap();

    let client = txn.get_client().unwrap().unwrap();
    assert_eq!(client.latest_version_id, new_version_id);
    assert!(client.snapshot.is_none());

    let snap = Snapshot {
        version_id: new_id(),
        timestamp: chrono::Utc::now().timestamp(),
        versions_since: 4,
    };
    txn.set_snapshot(snap, vec![1, 2, 3]).unwrap();

    let client = txn.get_client().unwrap().unwrap();
    assert_eq!(client.latest_version_id, new_version_id);
    assert_eq!(client.snapshot.unwrap(), snap);

    storage.commit(txn).unwrap();
}

#[test]
fn inmemory_test_gvbp_empty() {
    let storage = InMemoryStorage::new();
    let mut txn = storage.txn(new_id()).unwrap();
    let maybe_version = txn.get_version_by_parent(new_id()).unwrap();
    assert!(maybe_version.is_none());
}

#[test]
fn inmemory_test_add_version_and_get_version() {
    let mut storage = InMemoryStorage::new();
    let client_id = new_id();
    let mut txn = storage.txn(client_id).unwrap();

    let version_id = new_id();
    let parent_version_id = new_id();
    let history_segment = b"abc".to_vec();

    txn.new_client(parent_version_id).unwrap();
    txn.add_version(version_id, parent_version_id, history_segment.clone())
        .unwrap();

    let expected = Version {
        version_id,
        parent_version_id,
        history_segment,
    };

    let version = txn.get_version_by_parent(parent_version_id).unwrap().unwrap();
    assert_eq!(version, expected);

    let version = txn.get_version(version_id).unwrap().unwrap();
    assert_eq!(version, expected);

    storage.commit(txn).unwrap();
}

#[test]
fn inmemory_test_add_version_exists() {
    let mut storage = InMemoryStorage::new();
    let client_id = new_id();
    let mut txn = storage.txn(client_id).unwrap();

    let version_id = new_id();
    let parent_version_id = new_id();
    let history_segment = b"abc".to_vec();

    txn.new_client(parent_version_id).unwrap();
    txn.add_version(version_id, parent_version_id, history_segment.clone())
        .unwrap();
    assert!(txn
        .add_version(version_id, parent_version_id, history_segment.clone())
        .is_err());
    storage.commit(txn).unwrap();
}

#[test]
fn inmemory_test_add_version_mismatch() {
    let storage = InMemoryStorage::new();
    let client_id = new_id();
    let mut txn = storage.txn(client_id).unwrap();
    txn.new_client(new_id()).unwrap();
    // the latest version is neither the parent nor nil
    assert!(txn.add_version(new_id(), new_id(), b"abc".to_vec()).is_err());
}

#[test]
fn inmemory_test_add_version_no_history() {
    let storage = InMemoryStorage::new();
    let client_id = new_id();
    let mut txn = storage.txn(client_id).unwrap();
    txn.new_client(NIL_VERSION_ID).unwrap();
    // with no versions yet, any parent is accepted
    txn.add_version(new_id(), new_id(), b"v1".to_vec()).unwrap();
}

#[test]
fn inmemory_test_new_client_twice() {
    let storage = InMemoryStorage::new();
    let mut txn = storage.txn(new_id()).unwrap();
    txn.new_client(NIL_VERSION_ID).unwrap();
    assert!(txn.new_client(NIL_VERSION_ID).is_err());
}

#[test]
fn inmemory_test_snapshots() {
    let mut storage = InMemoryStorage::new();
    let client_id = new_id();
    let mut txn = storage.txn(client_id).unwrap();

    txn.new_client(new_id()).unwrap();
    assert!(txn.get_client().unwrap().unwrap().snapshot.is_none());

    let snap = Snapshot {
        version_id: new_id(),
        timestamp: 1_381_233_609,
        versions_since: 3,
    };
    txn.set_snapshot(snap, vec![9, 8, 9]).unwrap();

    assert_eq!(
        txn.get_snapshot_data(snap.version_id).unwrap().unwrap(),
        vec![9, 8, 9]
    );
    assert_eq!(txn.get_client().unwrap().unwrap().snapshot, Some(snap));

    let snap2 = Snapshot {
        version_id: new_id(),
        timestamp: 1_417_176_009,
        versions_since: 10,
    };
    txn.set_snapshot(snap2, vec![0, 2, 4, 6]).unwrap();

    assert_eq!(
        txn.get_snapshot_data(snap2.version_id).unwrap().unwrap(),
        vec![0, 2, 4, 6]
    );
    assert_eq!(txn.get_client().unwrap().unwrap().snapshot, Some(snap2));

    // check that mismatched version is detected
    assert!(txn.get_snapshot_data(new_id()).is_err());

    storage.commit(txn).unwrap();
}

#[test]
fn inmemory_versions_since_counts_added_versions() {
    let storage = InMemoryStorage::new();
    let mut txn = storage.txn(new_id()).unwrap();
    txn.new_client(NIL_VERSION_ID).unwrap();
    let v1 = new_id();
    txn.add_version(v1, NIL_VERSION_ID, vec![]).unwrap();
    txn.set_snapshot(Snapshot { version_id: v1, timestamp: 0, versions_since: 0 }, vec![1])
        .unwrap();
    let v2 = new_id();
    txn.add_version(v2, v1, vec![]).unwrap();
    txn.add_version(new_id(), v2, vec![]).unwrap();
    assert_eq!(txn.get_client().unwrap().unwrap().snapshot.unwrap().versions_since, 2);
}

#[test]
fn inmemory_uncommitted_writes_are_invisible() {
    let mut storage = InMemoryStorage::new();
    let client_id = new_id();
    let mut writer = storage.txn(client_id).unwrap();
    writer.new_client(NIL_VERSION_ID).unwrap();
    // a second transaction, begun before the first commits, sees nothing
    let mut reader = storage.txn(client_id).unwrap();
    assert!(reader.get_client().unwrap().is_none());
    // and a dropped transaction changes nothing
    drop(writer);
    let mut after = storage.txn(client_id).unwrap();
    assert!(after.get_client().unwrap().is_none());
    // once committed, the write is visible to later transactions
    let mut writer = storage.txn(client_id).unwrap();
    writer.new_client(NIL_VERSION_ID).unwrap();
    storage.commit(writer).unwrap();
    let mut later = storage.txn(client_id).unwrap();
    assert!(later.get_client().unwrap().is_some());
}

#[test]
fn inmemory_concurrent_add_same_parent_one_commits() {
    let mut storage = InMemoryStorage::new();
    let client_id = new_id();
    let mut txn = storage.txn(client_id).unwrap();
    txn.new_client(NIL_VERSION_ID).unwrap();
    storage.commit(txn).unwrap();

    let mut first = storage.txn(client_id).unwrap();
    let mut second = storage.txn(client_id).unwrap();
    let v1 = new_id();
    let v2 = new_id();
    first.add_version(v1, NIL_VERSION_ID, vec![1]).unwrap();
    second.add_version(v2, NIL_VERSION_ID, vec![2]).unwrap();
    assert!(storage.commit(first).is_ok());
    assert!(storage.commit(second).is_err());

    let mut txn = storage.txn(client_id).unwrap();
    assert_eq!(txn.get_client().unwrap().unwrap().latest_version_id, v1);
    assert_eq!(txn.get_version(v2).unwrap(), None);
}

#[test]
fn inmemory_other_clients_commit_independently() {
    let mut storage = InMemoryStorage::new();
    let a = new_id();
    let b = new_id();
    let mut ta = storage.txn(a).unwrap();
    let mut tb = storage.txn(b).unwrap();
    ta.new_client(NIL_VERSION_ID).unwrap();
    tb.new_client(NIL_VERSION_ID).unwrap();
    assert!(storage.commit(ta).is_ok());
    assert!(storage.commit(tb).is_ok());
}
