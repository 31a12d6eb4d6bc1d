//! The ingestion path's decisions: which inbound messages are candidates,
//! and how a candidate moves through the permission cache into the pending
//! set. The event stream itself and the backend capability query are outside
//! collaborators; they hand this module plain values.

use vstd::prelude::*;

use crate::pending::PendingMessage;
use crate::pending::PendingSet;
use crate::permission::PermissionCache;

verus! {

/// The kind of attachment an inbound message carries, as far as this agent
/// cares: the targeted kind, or anything else.
#[derive(Clone, Copy, PartialEq, Eq, Structural, Debug)]
pub enum AttachmentKind {
    Sticker,
    Other,
}

/// The kind of chat a message arrived in.
#[derive(Clone, Copy, PartialEq, Eq, Structural, Debug)]
pub enum ChatVenue {
    Group,
    Supergroup,
    Private,
    Channel,
}

/// An inbound message as the moderation core sees it.
#[derive(Clone, Copy, PartialEq, Eq, Structural, Debug)]
pub struct InboundMessage {
    pub chat_id: i64,
    pub message_id: i64,
    /// Unix timestamp, in seconds, at which the message was posted.
    pub posted_at: i64,
    pub attachment: AttachmentKind,
    pub venue: ChatVenue,
}

/// A candidate for deletion: the targeted attachment kind, in a group-like
/// chat.
pub open spec fn spec_is_candidate(m: InboundMessage) -> bool {
    m.attachment is Sticker && (m.venue is Group || m.venue is Supergroup)
}

/// The pending-set entry a candidate becomes.
pub open spec fn spec_pending_of(m: InboundMessage) -> PendingMessage {
    PendingMessage { chat_id: m.chat_id, message_id: m.message_id, posted_at: m.posted_at }
}

/// What the ingestion path must do with one inbound message.
#[derive(Clone, Copy, PartialEq, Eq, Structural, Debug)]
pub enum IngestStep {
    /// Not a candidate: wrong attachment kind or wrong chat kind.
    Ignore,
    /// Candidate from a chat classified authorized: enqueue it, no query.
    Enqueue,
    /// Candidate from a chat classified unauthorized: drop it, no query.
    Reject,
    /// Candidate from an unclassified chat: one capability query is needed.
    NeedsQuery,
}

/// The decision for message `m` against the classifications `cache`.
pub open spec fn spec_ingest_step(cache: Map<int, bool>, m: InboundMessage) -> IngestStep {
    if !spec_is_candidate(m) {
        IngestStep::Ignore
    } else if !cache.contains_key(m.chat_id as int) {
        IngestStep::NeedsQuery
    } else if cache[m.chat_id as int] {
        IngestStep::Enqueue
    } else {
        IngestStep::Reject
    }
}

/// Category filter and chat-kind filter on one inbound message.
pub fn is_candidate(m: &InboundMessage) -> (r: bool)
    ensures
        r == spec_is_candidate(*m),
{
    matches!(m.attachment, AttachmentKind::Sticker)
        && matches!(m.venue, ChatVenue::Group | ChatVenue::Supergroup)
}

/// Decide what to do with one inbound message: discard non-candidates, and
/// gate candidates on the memoized classification of their chat. Exactly the
/// unclassified candidates ask for a backend capability query; the cache is
/// not touched.
pub fn ingest_step(cache: &PermissionCache, m: &InboundMessage) -> (step: IngestStep)
    requires
        cache.wf(),
    ensures
        step == spec_ingest_step(cache@, *m),
{
    if !is_candidate(m) {
        IngestStep::Ignore
    } else {
        match cache.lookup(m.chat_id) {
            None => IngestStep::NeedsQuery,
            Some(true) => IngestStep::Enqueue,
            Some(false) => IngestStep::Reject,
        }
    }
}

/// Enqueue a candidate whose chat is known to be authorized.
pub fn enqueue_candidate(pending: &mut PendingSet, m: &InboundMessage)
    requires
        old(pending).wf(),
        m.posted_at >= 0,
    ensures
        final(pending)@ == old(pending)@.push(spec_pending_of(*m)),
        final(pending).wf(),
{
    let entry = PendingMessage {
        chat_id: m.chat_id,
        message_id: m.message_id,
        posted_at: m.posted_at,
    };
    pending.enqueue(entry);
}

/// Settle a candidate from a previously unseen chat with the answer of its
/// capability query: memoize the classification, and enqueue the candidate
/// exactly when the backend reported delete capability. A query that failed
/// must not reach this point: the chat then stays unclassified and the next
/// candidate from it asks again.
pub fn complete_query(
    cache: &mut PermissionCache,
    pending: &mut PendingSet,
    m: &InboundMessage,
    capability: bool,
) -> (enqueued: bool)
    requires
        old(cache).wf(),
        old(pending).wf(),
        !old(cache)@.contains_key(m.chat_id as int),
        spec_is_candidate(*m),
        m.posted_at >= 0,
    ensures
        final(cache).wf(),
        final(pending).wf(),
        final(cache)@ == old(cache)@.insert(m.chat_id as int, capability),
        enqueued == capability,
        final(pending)@ == (if capability {
            old(pending)@.push(spec_pending_of(*m))
        } else {
            old(pending)@
        }),
{
    let enqueued = cache.classify(m.chat_id, capability);
    if enqueued {
        enqueue_candidate(pending, m);
    }
    enqueued
}

} // verus!
