//! The expiry scheduler's state: the set of messages pending deletion and the
//! tick that partitions it by age.

use vstd::prelude::*;

verus! {

/// Seconds a message stays pending before it becomes eligible for deletion.
pub const GRACE_PERIOD_SECS: i64 = 120;

/// Seconds the scheduler loop sleeps between two ticks.
pub const TICK_INTERVAL_SECS: u64 = 1;

/// A message admitted for future deletion. Immutable once created.
#[derive(Clone, Copy, PartialEq, Eq, Structural, Debug)]
pub struct PendingMessage {
    pub chat_id: i64,
    pub message_id: i64,
    /// Unix timestamp, in seconds, at which the message was posted.
    pub posted_at: i64,
}

/// A message is expired at `now` once its grace period has fully elapsed,
/// that is, at the first instant at or after `posted_at + GRACE_PERIOD_SECS`.
pub open spec fn is_expired(m: PendingMessage, now: int) -> bool {
    now - m.posted_at >= GRACE_PERIOD_SECS
}

/// The messages of `s` still within their grace period at `now`, in order.
pub open spec fn keep_part(s: Seq<PendingMessage>, now: int) -> Seq<PendingMessage> {
    s.filter(|m: PendingMessage| !is_expired(m, now))
}

/// The messages of `s` whose grace period has elapsed at `now`, in order.
pub open spec fn expired_part(s: Seq<PendingMessage>, now: int) -> Seq<PendingMessage> {
    s.filter(|m: PendingMessage| is_expired(m, now))
}

/// The live set of messages awaiting deletion, in admission order.
pub struct PendingSet {
    items: Vec<PendingMessage>,
}

impl View for PendingSet {
    type V = Seq<PendingMessage>;

    closed spec fn view(&self) -> Seq<PendingMessage> {
        self.items@
    }
}

impl PendingSet {
    /// Every pending message carries a non-negative timestamp.
    pub open spec fn wf(&self) -> bool {
        forall|i: int| 0 <= i < self@.len() ==> (#[trigger] self@[i]).posted_at >= 0
    }

    pub fn new() -> (s: PendingSet)
        ensures
            s@ == Seq::<PendingMessage>::empty(),
            s.wf(),
    {
        PendingSet { items: Vec::new() }
    }

    pub fn len(&self) -> (n: usize)
        ensures
            n == self@.len(),
    {
        self.items.len()
    }

    /// A copy of the pending messages, in admission order.
    pub fn entries(&self) -> (v: Vec<PendingMessage>)
        ensures
            v@ == self@,
    {
        let n: usize = self.items.len();
        let mut v: Vec<PendingMessage> = Vec::new();
        let mut i: usize = 0;
        while i < n
            invariant
                i <= n,
                n == self.items@.len(),
                v@ == self.items@.subrange(0, i as int),
            decreases n - i,
        {
            v.push(self.items[i]);
            proof {
                assert(self.items@.subrange(0, i as int + 1) =~= self.items@.subrange(
                    0,
                    i as int,
                ).push(self.items@[i as int]));
            }
            i = i + 1;
        }
        proof {
            assert(self.items@.subrange(0, n as int) =~= self.items@);
        }
        v
    }

    /// Admission: append one message to the live pending set.
    pub fn enqueue(&mut self, m: PendingMessage)
        requires
            old(self).wf(),
            m.posted_at >= 0,
        ensures
            final(self)@ == old(self)@.push(m),
            final(self).wf(),
    {
        self.items.push(m);
        proof {
            assert forall|i: int| 0 <= i < self@.len() implies
                (#[trigger] self@[i]).posted_at >= 0 by {
                if i < self@.len() - 1 {
                    assert(self@[i] == old(self)@[i]);
                } else {
                    assert(self@[i] == m);
                }
            }
        }
    }

    /// One tick at time `now`: replace the live set with the messages still
    /// within their grace period and hand back the expired ones, each exactly
    /// the matching subsequence of the old set. The caller attempts one
    /// deletion per returned message; those messages are gone from the live
    /// set whatever comes of the attempts.
    pub fn tick(&mut self, now: i64) -> (expired: Vec<PendingMessage>)
        requires
            old(self).wf(),
        ensures
            final(self)@ == keep_part(old(self)@, now as int),
            expired@ == expired_part(old(self)@, now as int),
            final(self).wf(),
    {
        let ghost orig: Seq<PendingMessage> = self.items@;
        proof {
            assert forall|k: int| 0 <= k < orig.len() implies
                (#[trigger] orig[k]).posted_at >= 0 by {
                assert(orig[k] == old(self)@[k]);
            }
        }
        let mut kept: Vec<PendingMessage> = Vec::new();
        let mut expired: Vec<PendingMessage> = Vec::new();
        let n: usize = self.items.len();
        let mut i: usize = 0;
        while i < n
            invariant
                i <= n,
                n == orig.len(),
                self.items@ == orig,
                forall|k: int| 0 <= k < orig.len() ==> (#[trigger] orig[k]).posted_at >= 0,
                kept@ == keep_part(orig.subrange(0, i as int), now as int),
                expired@ == expired_part(orig.subrange(0, i as int), now as int),
                forall|k: int| 0 <= k < kept@.len() ==> (#[trigger] kept@[k]).posted_at >= 0,
            decreases n - i,
        {
            let m = self.items[i];
            let expires_now = now >= GRACE_PERIOD_SECS && m.posted_at <= now - GRACE_PERIOD_SECS;
            proof {
                let prefix = orig.subrange(0, i as int);
                assert(orig.subrange(0, i as int + 1) =~= prefix.push(orig[i as int]));
                lemma_filter_push(prefix, |mm: PendingMessage| is_expired(mm, now as int), orig[i as int]);
                lemma_filter_push(prefix, |mm: PendingMessage| !is_expired(mm, now as int), orig[i as int]);
            }
            if expires_now {
                expired.push(m);
            } else {
                kept.push(m);
            }
            i = i + 1;
        }
        proof {
            assert(orig.subrange(0, n as int) =~= orig);
        }
        self.items = kept;
        expired
    }

}

/// Filtering a sequence extended by one element keeps the old filtrate and
/// appends the element exactly when it satisfies the predicate.
proof fn lemma_filter_push<A>(s: Seq<A>, pred: spec_fn(A) -> bool, x: A)
    ensures
        s.push(x).filter(pred) == (if pred(x) {
            s.filter(pred).push(x)
        } else {
            s.filter(pred)
        }),
{
    reveal(Seq::filter);
    assert(s.push(x).drop_last() =~= s);
    assert(s.push(x).last() == x);
}

/// Grace-period invariant: a tick at `now` attempts deletion only of messages
/// whose grace period has elapsed, and every such message in the set is
/// drained by that tick, so each deletion happens within one tick interval of
/// the message's threshold.
pub proof fn lemma_grace_period(s: Seq<PendingMessage>, now: int)
    ensures
        forall|i: int| 0 <= i < expired_part(s, now).len()
            ==> is_expired(#[trigger] expired_part(s, now)[i], now),
        forall|i: int| 0 <= i < keep_part(s, now).len()
            ==> !is_expired(#[trigger] keep_part(s, now)[i], now),
        forall|i: int| 0 <= i < s.len() && is_expired(#[trigger] s[i], now)
            ==> expired_part(s, now).contains(s[i]),
        forall|i: int| 0 <= i < s.len() && !is_expired(#[trigger] s[i], now)
            ==> keep_part(s, now).contains(s[i]),
{
    broadcast use vstd::seq_lib::group_filter_ensures;
}

/// No lost admissions: a message admitted while a tick is evaluating is
/// serialized with the tick (the set is locked for snapshot and replace), so
/// it is seen by the partition, and, being within its grace period, it stands
/// in the kept set after the tick completes.
pub proof fn lemma_no_lost_admission(s: Seq<PendingMessage>, m: PendingMessage, now: int)
    requires
        !is_expired(m, now),
    ensures
        keep_part(s.push(m), now) == keep_part(s, now).push(m),
        keep_part(s.push(m), now).contains(m),
        expired_part(s.push(m), now) == expired_part(s, now),
{
    lemma_filter_push(s, |mm: PendingMessage| !is_expired(mm, now), m);
    lemma_filter_push(s, |mm: PendingMessage| is_expired(mm, now), m);
    let kept = keep_part(s.push(m), now);
    assert(kept[kept.len() - 1] == m);
}

/// Idempotent drain: a tick over an empty pending set keeps the set empty and
/// returns no expired messages, so no deletion call is issued.
pub proof fn lemma_idempotent_drain(now: int)
    ensures
        keep_part(Seq::<PendingMessage>::empty(), now) == Seq::<PendingMessage>::empty(),
        expired_part(Seq::<PendingMessage>::empty(), now) == Seq::<PendingMessage>::empty(),
{
    reveal(Seq::filter);
}

} // verus!
