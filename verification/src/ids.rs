//! Collision-free identifier generation.
//!
//! Every synthesized entity draws its identifier from an [`IdCache`], which
//! remembers all identifiers issued so far and guarantees that no two calls
//! within one cache lifetime ever return equal values.

use vstd::prelude::*;

verus! {

/// True when no two entries of `s` are equal.
pub open spec fn distinct_ids(s: Seq<u128>) -> bool {
    forall|i: int, j: int| 0 <= i < j < s.len() ==> s[i] != s[j]
}

/// The set of already-issued identifiers, in order of issue.
///
/// The cache only grows: identifiers are never removed, so an identifier
/// issued once can never be issued again.
pub struct IdCache {
    ids: Vec<u128>,
}

impl View for IdCache {
    type V = Seq<u128>;

    closed spec fn view(&self) -> Seq<u128> {
        self.ids@
    }
}

/// Relies on uuid::Uuid::new_v4: returns a freshly generated random
/// version-4 UUID, used here only as a source of random 128-bit values.
#[verifier::external_body]
fn random_id() -> (r: u128) {
    uuid::Uuid::new_v4().as_u128()
}

impl IdCache {
    /// All issued identifiers are pairwise distinct.
    pub open spec fn wf(&self) -> bool {
        distinct_ids(self@)
    }

    /// An empty cache: no identifiers issued yet.
    pub fn new() -> (r: IdCache)
        ensures
            r@ == Seq::<u128>::empty(),
            r.wf(),
    {
        IdCache { ids: Vec::new() }
    }

    /// How many identifiers have been issued so far.
    pub fn issued_count(&self) -> (n: usize)
        ensures
            n == self@.len(),
    {
        self.ids.len()
    }

    /// Whether `id` has already been issued.
    pub fn contains(&self, id: u128) -> (b: bool)
        ensures
            b == self@.contains(id),
    {
        let mut i: usize = 0;
        while i < self.ids.len()
            invariant
                0 <= i <= self.ids.len(),
                forall|j: int| 0 <= j < i ==> self.ids@[j] != id,
            decreases self.ids.len() - i,
        {
            if self.ids[i] == id {
                return true;
            }
            i += 1;
        }
        false
    }

    /// Draws random 128-bit values until one is found that was never issued
    /// before, records it and returns it.  The result is distinct from every
    /// identifier issued earlier from this cache.
    ///
    /// Retries are bounded defensively: after too many random collisions the
    /// cache falls back to the smallest value never issued, so the call always
    /// terminates.
    pub fn generate_id(&mut self) -> (r: u128)
        requires
            old(self).wf(),
        ensures
            final(self).wf(),
            !old(self)@.contains(r),
            final(self)@ == old(self)@.push(r),
    {
        let mut attempts: usize = 0;
        while attempts < ID_RETRY_LIMIT
            invariant
                self.wf(),
                *self == *old(self),
            decreases ID_RETRY_LIMIT - attempts,
        {
            let id = random_id();
            if !self.contains(id) {
                self.record(id);
                return id;
            }
            attempts += 1;
        }
        // Every random draw collided: fall back to the smallest value that
        // was never issued.  One exists because the cache holds fewer than
        // 2^128 identifiers.
        let n: usize = self.ids.len();
        let mut c: u128 = 0;
        while self.contains(c)
            invariant
                self.wf(),
                *self == *old(self),
                n == self@.len(),
                c <= n as u128,
                forall|v: u128| v < c ==> self@.contains(v),
            decreases n as u128 - c,
        {
            proof {
                if c == n as u128 {
                    lemma_some_small_value_fresh(self@);
                    let v = choose|v: int|
                        0 <= v <= self@.len() && !(#[trigger] self@.contains(
                            v as u128,
                        ));
                    if v < self@.len() {
                        assert((v as u128) < c);
                    } else {
                        assert(v as u128 == c);
                    }
                    assert(self@.contains(v as u128));
                }
            }
            c = c + 1;
        }
        self.record(c);
        c
    }

    /// Inserts a fresh identifier, keeping the cache well-formed.
    fn record(&mut self, id: u128)
        requires
            old(self).wf(),
            !old(self)@.contains(id),
        ensures
            final(self).wf(),
            final(self)@ == old(self)@.push(id),
    {
        self.ids.push(id);
        proof {
            assert forall|i: int, j: int|
                0 <= i < j < self@.len() implies self@[i] != self@[j] by {
                if j == self@.len() - 1 {
                    assert(old(self)@.contains(self@[j]) == false);
                }
            }
        }
    }
}

/// How many random draws are attempted before the deterministic fallback.
pub const ID_RETRY_LIMIT: usize = 64;

/// A sequence of `n` values cannot contain all of the `n + 1` distinct
/// values `0 ..= n`, so at least one of them is still fresh: the pigeonhole
/// principle, by induction on the sequence.
proof fn lemma_some_small_value_fresh(s: Seq<u128>)
    requires
        s.len() < 0x100000000000000000000000000000000,
    ensures
        exists|v: int| 0 <= v <= s.len() && !(#[trigger] s.contains(v as u128)),
    decreases s.len(),
{
    let len = s.len() as int;
    if !s.contains(len as u128) {
        assert(0 <= len <= s.len() && !s.contains(len as u128));
    } else {
        let k = choose|k: int| 0 <= k < s.len() && s[k] == len as u128;
        let s2 = s.remove(k);
        lemma_some_small_value_fresh(s2);
        let v = choose|v: int| 0 <= v <= s2.len() && !(#[trigger] s2.contains(v as u128));
        assert forall|j: int| 0 <= j < s.len() implies s[j] != v as u128 by {
            if j < k {
                assert(s2[j] == s[j]);
            } else if j > k {
                assert(s2[j - 1] == s[j]);
            }
        }
        assert(0 <= v <= s.len() && !s.contains(v as u128));
    }
}

/// Every identifier issued during one scenario application is distinct
/// from every other issued identifier, including those of earlier
/// applications against the same cache: when the cache grows from `pre` to
/// `post` and stays well-formed, the newly drawn suffix has no duplicates
/// and collides with nothing issued before.
pub proof fn lemma_application_ids_distinct(pre: Seq<u128>, post: Seq<u128>)
    requires
        pre.is_prefix_of(post),
        distinct_ids(post),
    ensures
        distinct_ids(post.skip(pre.len() as int)),
        forall|i: int, j: int|
            0 <= i < pre.len() && 0 <= j < post.len() - pre.len() ==> pre[i] != post.skip(
                pre.len() as int,
            )[j],
{
    let drawn = post.skip(pre.len() as int);
    assert(post =~= pre + drawn);
    lemma_issued_ids_distinct(pre, drawn);
}

/// Identifiers issued after some point are distinct among themselves and
/// from everything issued before: whenever a cache grows from `pre` to
/// `pre + drawn` while staying well-formed, the newly drawn identifiers
/// collide neither with each other nor with any earlier one.
pub proof fn lemma_issued_ids_distinct(pre: Seq<u128>, drawn: Seq<u128>)
    requires
        distinct_ids(pre + drawn),
    ensures
        distinct_ids(drawn),
        distinct_ids(pre),
        forall|i: int, j: int|
            0 <= i < pre.len() && 0 <= j < drawn.len() ==> pre[i] != drawn[j],
{
    assert forall|i: int, j: int| 0 <= i < j < drawn.len() implies drawn[i] != drawn[j] by {
        assert((pre + drawn)[pre.len() + i] == drawn[i]);
        assert((pre + drawn)[pre.len() + j] == drawn[j]);
    }
    assert forall|i: int, j: int| 0 <= i < j < pre.len() implies pre[i] != pre[j] by {
        assert((pre + drawn)[i] == pre[i]);
        assert((pre + drawn)[j] == pre[j]);
    }
    assert forall|i: int, j: int|
        0 <= i < pre.len() && 0 <= j < drawn.len() implies pre[i] != drawn[j] by {
        assert((pre + drawn)[i] == pre[i]);
        assert((pre + drawn)[pre.len() + j] == drawn[j]);
    }
}

} // verus!
