use vstd::prelude::*;

use crate::bucket::{append_sample, Bucket, Sample};
use crate::driver::{fresh_bucket, is_fresh_bucket, make_sample, sample_at, Reading};
use crate::resolver::{find_open_bucket, qualifies, well_spaced, WINDOW_MILLIS};

verus! {

/// `post` is `pre` with `s` appended at the end of bucket `i`'s sample
/// sequence: that bucket keeps all previously stored samples in order and
/// gains exactly one new entry, and every other bucket is untouched.
pub open spec fn appended_at(pre: Seq<Bucket>, post: Seq<Bucket>, i: int, s: Sample) -> bool {
    &&& post.len() == pre.len()
    &&& 0 <= i < pre.len()
    &&& post[i].samples@ == pre[i].samples@.push(s)
    &&& post[i].device_id == pre[i].device_id
    &&& post[i].interval_start_millis == pre[i].interval_start_millis
    &&& post[i].units == pre[i].units
    &&& post[i].metadata == pre[i].metadata
    &&& forall|j: int| 0 <= j < pre.len() && j != i ==> post[j] == pre[j]
}

/// Appending a sample moves no bucket's `interval_start`, so it keeps the
/// buckets well spaced.
pub proof fn lemma_append_keeps_spacing(pre: Seq<Bucket>, post: Seq<Bucket>, i: int, s: Sample)
    requires
        well_spaced(pre),
        appended_at(pre, post, i, s),
    ensures
        well_spaced(post),
{
}

/// Creating a bucket only when none qualifies keeps the buckets well
/// spaced, provided the query time never lies before an existing bucket's
/// start (the clock does not run backwards): every existing window then
/// closed more than a window ago.
pub proof fn lemma_creation_keeps_spacing(pre: Seq<Bucket>, b: Bucket, now: int)
    requires
        well_spaced(pre),
        forall|j: int| 0 <= j < pre.len() ==> pre[j].interval_start_millis <= now,
        forall|j: int| 0 <= j < pre.len() ==> !qualifies(pre[j], now),
        b.interval_start_millis == now,
    ensures
        well_spaced(pre.push(b)),
{
    assert forall|i: int, j: int| 0 <= i < j < pre.push(b).len() implies pre.push(b)[i].interval_start_millis
        + WINDOW_MILLIS < pre.push(b)[j].interval_start_millis by {
        if j < pre.len() {
            assert(pre.push(b)[i] == pre[i]);
            assert(pre.push(b)[j] == pre[j]);
        } else {
            assert(pre.push(b)[i] == pre[i]);
            assert(pre.push(b)[j] == b);
            assert(!qualifies(pre[i], now));
        }
    }
}

/// An in-memory collection of bucket documents, ordered by insertion.
/// It carries the same append-or-create discipline the Loop Driver
/// applies against the storage backend, so the whole tick can be
/// exercised without one.
pub struct Store {
    pub buckets: Vec<Bucket>,
}

impl Store {
    /// An empty store.
    pub fn new() -> (s: Store)
        ensures
            s.buckets@ =~= Seq::<Bucket>::empty(),
    {
        Store { buckets: Vec::new() }
    }

    /// One full tick at query time `now_millis` for a successful sensor
    /// `reading`: resolve the open bucket and append the new sample to
    /// it, or create a fresh bucket when none qualifies. When a bucket
    /// qualifies, the one appended to is a qualifying bucket with the
    /// greatest `interval_start`, and no other bucket changes; otherwise
    /// exactly one fresh single-sample bucket is added at the end.
    pub fn ingest(&mut self, now_millis: i64, reading: Reading)
        ensures
            if exists|j: int|
                0 <= j < old(self).buckets@.len() && qualifies(
                    old(self).buckets@[j],
                    now_millis as int,
                ) {
                exists|i: int|
                    {
                        &&& qualifies(old(self).buckets@[i], now_millis as int)
                        &&& forall|j: int|
                            0 <= j < old(self).buckets@.len() && qualifies(
                                old(self).buckets@[j],
                                now_millis as int,
                            ) ==> old(self).buckets@[j].interval_start_millis <= old(
                                self,
                            ).buckets@[i].interval_start_millis
                        &&& appended_at(
                            old(self).buckets@,
                            final(self).buckets@,
                            i,
                            sample_at(now_millis, reading),
                        )
                    }
            } else {
                &&& final(self).buckets@.len() == old(self).buckets@.len() + 1
                &&& forall|j: int|
                    0 <= j < old(self).buckets@.len() ==> final(self).buckets@[j] == old(
                        self,
                    ).buckets@[j]
                &&& is_fresh_bucket(
                    final(self).buckets@[old(self).buckets@.len() as int],
                    now_millis,
                    reading,
                )
            },
            well_spaced(old(self).buckets@) && (forall|j: int|
                0 <= j < old(self).buckets@.len() ==> old(
                    self,
                ).buckets@[j].interval_start_millis <= now_millis) ==> well_spaced(
                final(self).buckets@,
            ),
    {
        let ghost pre = self.buckets@;
        match find_open_bucket(&self.buckets, now_millis) {
            Some(i) => {
                let sample = make_sample(now_millis, reading);
                append_sample(&mut self.buckets[i], sample);
                proof {
                    assert(appended_at(pre, self.buckets@, i as int, sample_at(now_millis, reading)));
                    if well_spaced(pre) {
                        lemma_append_keeps_spacing(
                            pre,
                            self.buckets@,
                            i as int,
                            sample_at(now_millis, reading),
                        );
                    }
                }
            },
            None => {
                let b = fresh_bucket(now_millis, reading);
                self.buckets.push(b);
                proof {
                    if well_spaced(pre) && (forall|j: int|
                        0 <= j < pre.len() ==> pre[j].interval_start_millis <= now_millis) {
                        let fresh = self.buckets@[pre.len() as int];
                        lemma_creation_keeps_spacing(pre, fresh, now_millis as int);
                        assert(self.buckets@ =~= pre.push(fresh));
                    }
                }
            },
        }
    }
}

} // verus!
