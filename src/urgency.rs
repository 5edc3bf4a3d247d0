use crate::storage::Snapshot;
use vstd::prelude::*;

verus! {

/// Configuration parameters of the protocol engine.
#[derive(Clone, Copy, PartialEq, Eq, Structural, Debug)]
pub struct ServerConfig {
    /// Target number of days between snapshots.
    pub snapshot_days: i64,
    /// Target number of versions between snapshots.
    pub snapshot_versions: u32,
}

impl Default for ServerConfig {
    fn default() -> (r: Self)
        ensures
            r.snapshot_days == 14,
            r.snapshot_versions == 100,
    {
        ServerConfig { snapshot_days: 14, snapshot_versions: 100 }
    }
}

/// Urgency of a snapshot for a client, ordered `NotNeeded < Low < High`.
#[derive(PartialEq, Eq, Structural, Debug, Clone, Copy, PartialOrd, Ord)]
pub enum SnapshotUrgency {
    /// No snapshot is needed right now.
    NotNeeded,
    /// A snapshot would be good, but can wait for other replicas to provide it.
    Low,
    /// A snapshot is needed right now.
    High,
}

/// The position of an urgency in the order `NotNeeded < Low < High`.
pub open spec fn rank(u: SnapshotUrgency) -> int {
    match u {
        SnapshotUrgency::NotNeeded => 0,
        SnapshotUrgency::Low => 1,
        SnapshotUrgency::High => 2,
    }
}

/// The greater of two urgencies.
pub open spec fn max_urgency(a: SnapshotUrgency, b: SnapshotUrgency) -> SnapshotUrgency {
    if rank(a) >= rank(b) {
        a
    } else {
        b
    }
}

/// Urgency by age: `High` from 3D/2 days (floor division), `Low` from D days, else `NotNeeded`.
pub open spec fn urgency_by_days(snapshot_days: int, days: int) -> SnapshotUrgency {
    if days >= (3 * snapshot_days) / 2 {
        SnapshotUrgency::High
    } else if days >= snapshot_days {
        SnapshotUrgency::Low
    } else {
        SnapshotUrgency::NotNeeded
    }
}

/// Urgency by count: `High` from 3V/2 versions (floor division), `Low` from V, else `NotNeeded`.
pub open spec fn urgency_by_versions(snapshot_versions: int, versions_since: int) -> SnapshotUrgency {
    if versions_since >= (3 * snapshot_versions) / 2 {
        SnapshotUrgency::High
    } else if versions_since >= snapshot_versions {
        SnapshotUrgency::Low
    } else {
        SnapshotUrgency::NotNeeded
    }
}

/// Whole days from `then` to `now` (seconds), rounded toward zero.
pub open spec fn age_in_days(now: int, then: int) -> int {
    if now >= then {
        (now - then) / 86400
    } else {
        -((then - now) / 86400)
    }
}

/// The urgency reported after adding a version, from the snapshot as it was before the call:
/// the greater of the two measures, and `High` when there is no snapshot.
pub open spec fn urgency_for(config: ServerConfig, snapshot: Option<Snapshot>, now: i64) -> SnapshotUrgency {
    match snapshot {
        None => SnapshotUrgency::High,
        Some(s) => max_urgency(
            urgency_by_days(config.snapshot_days as int, age_in_days(now as int, s.timestamp as int)),
            urgency_by_versions(config.snapshot_versions as int, s.versions_since as int),
        ),
    }
}

/// Floor of `3 * d / 2`, computed without overflow.
fn three_halves(d: i64) -> (r: i128)
    ensures
        r == (3 * d) / 2,
{
    let t: i128 = 3 * (d as i128);
    if t >= 0 {
        let q = (t as u128) / 2;
        q as i128
    } else {
        let q = ((-t + 1) as u128) / 2;
        let r = -(q as i128);
        assert(r == (3 * d) / 2) by (nonlinear_arith)
            requires
                t == 3 * d,
                t < 0,
                q == (-t + 1) / 2,
                r == -q,
        ;
        r
    }
}

impl SnapshotUrgency {
    /// The greater of two urgencies.
    pub fn greater(a: SnapshotUrgency, b: SnapshotUrgency) -> (r: SnapshotUrgency)
        ensures
            r == max_urgency(a, b),
    {
        let ra: u8 = match a {
            SnapshotUrgency::NotNeeded => 0,
            SnapshotUrgency::Low => 1,
            SnapshotUrgency::High => 2,
        };
        let rb: u8 = match b {
            SnapshotUrgency::NotNeeded => 0,
            SnapshotUrgency::Low => 1,
            SnapshotUrgency::High => 2,
        };
        if ra >= rb {
            a
        } else {
            b
        }
    }

    /// Calculate the urgency for a snapshot based on its age in days.
    pub fn for_days(config: &ServerConfig, days: i64) -> (r: Self)
        ensures
            r == urgency_by_days(config.snapshot_days as int, days as int),
    {
        if (days as i128) >= three_halves(config.snapshot_days) {
            SnapshotUrgency::High
        } else if days >= config.snapshot_days {
            SnapshotUrgency::Low
        } else {
            SnapshotUrgency::NotNeeded
        }
    }

    /// Calculate the urgency for a snapshot based on the number of versions since it was made.
    pub fn for_versions_since(config: &ServerConfig, versions_since: u32) -> (r: Self)
        ensures
            r == urgency_by_versions(config.snapshot_versions as int, versions_since as int),
    {
        let high: u64 = (config.snapshot_versions as u64) * 3 / 2;
        if (versions_since as u64) >= high {
            SnapshotUrgency::High
        } else if versions_since >= config.snapshot_versions {
            SnapshotUrgency::Low
        } else {
            SnapshotUrgency::NotNeeded
        }
    }
}

/// Whole days from `then` to `now`, both in seconds since the Unix epoch, rounded toward zero.
pub fn age_days(now: i64, then: i64) -> (r: i64)
    ensures
        r == age_in_days(now as int, then as int),
{
    if now >= then {
        let diff: u64 = ((now as i128) - (then as i128)) as u64;
        (diff / 86400) as i64
    } else {
        let diff: u64 = ((then as i128) - (now as i128)) as u64;
        -((diff / 86400) as i64)
    }
}

/// The urgency to report after adding a version, given the snapshot before the call and the
/// current time in seconds.
pub fn urgency_after_add(config: &ServerConfig, snapshot: Option<Snapshot>, now: i64) -> (r:
    SnapshotUrgency)
    ensures
        r == urgency_for(*config, snapshot, now),
{
    match snapshot {
        None => SnapshotUrgency::High,
        Some(s) => {
            let time_urgency = SnapshotUrgency::for_days(config, age_days(now, s.timestamp));
            let version_urgency = SnapshotUrgency::for_versions_since(config, s.versions_since);
            SnapshotUrgency::greater(time_urgency, version_urgency)
        },
    }
}

/// For a fixed configuration, urgency by age never decreases as the age grows.
pub proof fn lemma_urgency_by_days_monotone(snapshot_days: int, d1: int, d2: int)
    requires
        d1 <= d2,
    ensures
        rank(urgency_by_days(snapshot_days, d1)) <= rank(urgency_by_days(snapshot_days, d2)),
{
}

/// For a fixed configuration, urgency by version count never decreases as the count grows.
pub proof fn lemma_urgency_by_versions_monotone(snapshot_versions: int, n1: int, n2: int)
    requires
        n1 <= n2,
    ensures
        rank(urgency_by_versions(snapshot_versions, n1)) <= rank(
            urgency_by_versions(snapshot_versions, n2),
        ),
{
}

} // verus!
