use vstd::prelude::*;

verus! {

/// The schema version that the store holds before migrations run, clamped
/// to the `count` migrations there are.
pub open spec fn applied_count(count: nat, current_version: int) -> nat {
    if current_version < 0 {
        0
    } else if current_version > count {
        count
    } else {
        current_version as nat
    }
}

/// The migrations still to apply when `count` exist and the store is at
/// `current_version`: each one's index in the migration list and the
/// version it brings the schema to (its index plus one), in order, for
/// every version above `current_version`.
pub open spec fn pending_versions(count: nat, current_version: int) -> Seq<(usize, i64)> {
    let start = applied_count(count, current_version);
    Seq::new((count - start) as nat, |j: int| ((start + j) as usize, (start + j + 1) as i64))
}

/// Lists the migrations to apply, in order, to bring a store at
/// `current_version` up to date with a list of `count` migrations.
pub fn pending_migrations(count: usize, current_version: i64) -> (r: Vec<(usize, i64)>)
    requires
        count < i64::MAX,
    ensures
        r@ == pending_versions(count as nat, current_version as int),
{
    let mut r: Vec<(usize, i64)> = Vec::new();
    let mut i: usize = 0;
    let ghost start = applied_count(count as nat, current_version as int);
    while i < count
        invariant
            count < i64::MAX,
            i <= count,
            start == applied_count(count as nat, current_version as int),
            r@ =~= pending_versions(count as nat, current_version as int).take(
                (if i <= start { 0 } else { i - start }) as int,
            ),
        decreases count - i,
    {
        let version: i64 = (i + 1) as i64;
        if version > current_version {
            r.push((i, version));
        }
        i = i + 1;
    }
    r
}

/// Running the migrations again once they have all been applied applies
/// nothing: the pending migrations end at the last version, so that after
/// they are applied the store is at `count`, where none is pending.
pub proof fn law_rerun_applies_nothing(count: nat, current_version: int)
    requires
        count < i64::MAX,
    ensures
        pending_versions(count, count as int).len() == 0,
        pending_versions(count, current_version).len() > 0 ==> pending_versions(
            count,
            current_version,
        ).last().1 == count,
{
}

/// The pending migrations raise the version by one at a time, and each is
/// above the version the store is at.
pub proof fn law_pending_versions_ascend(count: nat, current_version: int, j: int)
    requires
        count < i64::MAX,
        count <= usize::MAX,
        0 <= j < pending_versions(count, current_version).len(),
    ensures
        pending_versions(count, current_version)[j].1 > current_version,
        pending_versions(count, current_version)[j].1 == pending_versions(count, current_version)[j].0 + 1,
        j > 0 ==> pending_versions(count, current_version)[j].1 == pending_versions(count, current_version)[j - 1].1 + 1,
{
}

/// Every migration above the store's version is pending: each index `k`
/// whose version `k + 1` is above `current_version` is planned, bringing
/// the schema to `k + 1`.
pub proof fn law_every_newer_migration_pending(count: nat, current_version: int, k: int)
    requires
        count < i64::MAX,
        count <= usize::MAX,
        0 <= k < count,
        k + 1 > current_version,
    ensures
        pending_versions(count, current_version).contains((k as usize, (k + 1) as i64)),
{
    let p = pending_versions(count, current_version);
    let start = applied_count(count, current_version);
    assert(p[k - start] == (k as usize, (k + 1) as i64));
}

/// A store at version `v` (between none and all applied) has exactly the
/// `count - v` later migrations pending, the first of them bringing the
/// schema to `v + 1`.
pub proof fn law_pending_count(count: nat, current_version: int)
    requires
        count < i64::MAX,
        count <= usize::MAX,
        0 <= current_version <= count,
    ensures
        pending_versions(count, current_version).len() == count - current_version,
        current_version < count ==> pending_versions(count, current_version)[0] == (
            current_version as usize,
            (current_version + 1) as i64,
        ),
{
}

} // verus!
