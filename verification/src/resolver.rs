use vstd::prelude::*;

use crate::bucket::Bucket;

verus! {

/// Length of the rolling aggregation window: 120 minutes, in milliseconds.
pub const WINDOW_MILLIS: i64 = 7200000;

/// A bucket that opened at `interval_start` is still open at query time
/// `now` exactly when its start lies in the trailing 120-minute window,
/// that is in `[now - WINDOW_MILLIS, now]`.
pub open spec fn in_window(interval_start: int, now: int) -> bool {
    interval_start <= now && now - interval_start <= WINDOW_MILLIS as int
}

/// Whether `b` qualifies as an open bucket at query time `now`.
pub open spec fn qualifies(b: Bucket, now: int) -> bool {
    in_window(b.interval_start_millis as int, now)
}

/// What a correct resolution over `buckets` at query time `now` may
/// return: the index of a qualifying bucket with the greatest
/// `interval_start` (most recent first), or nothing when no bucket
/// qualifies.
pub open spec fn resolution_ok(buckets: Seq<Bucket>, now: int, r: Option<int>) -> bool {
    match r {
        Some(i) => 0 <= i < buckets.len() && qualifies(buckets[i], now)
            && forall|j: int|
                0 <= j < buckets.len() && qualifies(buckets[j], now)
                    ==> buckets[j].interval_start_millis <= buckets[i].interval_start_millis,
        None => forall|j: int| 0 <= j < buckets.len() ==> !qualifies(buckets[j], now),
    }
}

/// View of an executable resolution result as a mathematical one.
pub open spec fn resolution_view(r: Option<usize>) -> Option<int> {
    match r {
        Some(i) => Some(i as int),
        None => None,
    }
}

/// Whether `interval_start` lies within the trailing 120-minute window
/// ending at `now`.
pub fn check_interval_start_in_window(interval_start: i64, now: i64) -> (r: bool)
    ensures
        r == in_window(interval_start as int, now as int),
{
    interval_start <= now && (now as i128) - (interval_start as i128) <= WINDOW_MILLIS as i128
}

/// Bucket Resolver: select the bucket whose `interval_start` is the
/// latest one satisfying `now - 120min <= interval_start <= now`.
/// Returns the index of that bucket, or `None` when no bucket qualifies.
/// Read-only: the bucket list is not touched.
pub fn find_open_bucket(buckets: &Vec<Bucket>, now: i64) -> (r: Option<usize>)
    ensures
        resolution_ok(buckets@, now as int, resolution_view(r)),
{
    let mut best: Option<usize> = None;
    let mut k: usize = 0;
    while k < buckets.len()
        invariant
            k <= buckets.len(),
            match resolution_view(best) {
                Some(i) => 0 <= i < k && qualifies(buckets@[i], now as int)
                    && forall|j: int|
                        0 <= j < k && qualifies(buckets@[j], now as int)
                            ==> buckets@[j].interval_start_millis
                                <= buckets@[i].interval_start_millis,
                None => forall|j: int| 0 <= j < k ==> !qualifies(buckets@[j], now as int),
            },
        decreases buckets.len() - k,
    {
        if check_interval_start_in_window(buckets[k].interval_start_millis, now) {
            match best {
                Some(i) => {
                    if buckets[i].interval_start_millis < buckets[k].interval_start_millis {
                        best = Some(k);
                    }
                },
                None => {
                    best = Some(k);
                },
            }
        }
        k = k + 1;
    }
    best
}

/// Bucket starts, in insertion order, climb by more than one window at a
/// time: no two buckets have overlapping 120-minute windows.
pub open spec fn well_spaced(buckets: Seq<Bucket>) -> bool {
    forall|i: int, j: int|
        0 <= i < j < buckets.len() ==> buckets[i].interval_start_millis + WINDOW_MILLIS
            < buckets[j].interval_start_millis
}

/// Among well-spaced buckets, at most one is open at any query time: two
/// qualifying indices are the same index.
pub proof fn lemma_at_most_one_open(buckets: Seq<Bucket>, now: int, i: int, j: int)
    requires
        well_spaced(buckets),
        0 <= i < buckets.len(),
        0 <= j < buckets.len(),
        qualifies(buckets[i], now),
        qualifies(buckets[j], now),
    ensures
        i == j,
{
}

/// A bucket that opened at time `t` is resolved from a one-bucket store at
/// query time `now` exactly when `t <= now <= t + 120min`: any correct
/// resolution returns it there, and never outside that window.
pub proof fn lemma_single_bucket_window(b: Bucket, now: int, r: Option<int>)
    requires
        resolution_ok(seq![b], now, r),
    ensures
        r == (if b.interval_start_millis <= now && now <= b.interval_start_millis
            + WINDOW_MILLIS as int {
            Some(0int)
        } else {
            None::<int>
        }),
{
    assert(seq![b][0] == b);
}

} // verus!
