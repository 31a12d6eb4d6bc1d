//! The ingestion path: candidate filtering, the permission cache, and the
//! write-once classification of chats.

use sticker_sweeper::ingest::{
    complete_query, enqueue_candidate, ingest_step, is_candidate, AttachmentKind, ChatVenue,
    InboundMessage, IngestStep,
};
use sticker_sweeper::pending::{PendingMessage, PendingSet};
use sticker_sweeper::permission::PermissionCache;

fn sticker_in_group(chat_id: i64, message_id: i64, posted_at: i64) -> InboundMessage {
    InboundMessage {
        chat_id,
        message_id,
        posted_at,
        attachment: AttachmentKind::Sticker,
        venue: ChatVenue::Group,
    }
}

#[test]
fn non_sticker_messages_are_ignored() {
    let cache = PermissionCache::new();
    let mut m = sticker_in_group(1, 2, 3);
    m.attachment = AttachmentKind::Other;
    assert!(!is_candidate(&m));
    assert_eq!(ingest_step(&cache, &m), IngestStep::Ignore);
}

#[test]
fn stickers_outside_group_chats_are_ignored() {
    let cache = PermissionCache::new();
    for venue in [ChatVenue::Private, ChatVenue::Channel] {
        let mut m = sticker_in_group(1, 2, 3);
        m.venue = venue;
        assert!(!is_candidate(&m));
        assert_eq!(ingest_step(&cache, &m), IngestStep::Ignore);
    }
    let mut m = sticker_in_group(1, 2, 3);
    m.venue = ChatVenue::Supergroup;
    assert!(is_candidate(&m));
}

#[test]
fn first_candidate_from_a_chat_asks_for_one_query() {
    // A chat never queried before: the first candidate asks for exactly one
    // capability query, and is enqueued iff the query reports capability.
    let cache = PermissionCache::new();
    let m = sticker_in_group(10, 100, 50);
    assert_eq!(ingest_step(&cache, &m), IngestStep::NeedsQuery);

    let mut cache = PermissionCache::new();
    let mut pending = PendingSet::new();
    let enqueued = complete_query(&mut cache, &mut pending, &m, true);
    assert!(enqueued);
    assert_eq!(
        pending.entries(),
        vec![PendingMessage { chat_id: 10, message_id: 100, posted_at: 50 }]
    );
    // The classification is memoized: the next candidate needs no query.
    let m2 = sticker_in_group(10, 101, 60);
    assert_eq!(ingest_step(&cache, &m2), IngestStep::Enqueue);

    let mut cache = PermissionCache::new();
    let mut pending = PendingSet::new();
    let enqueued = complete_query(&mut cache, &mut pending, &m, false);
    assert!(!enqueued);
    assert_eq!(pending.len(), 0);
}

#[test]
fn unauthorized_chat_never_gets_a_candidate_or_a_query() {
    let mut cache = PermissionCache::new();
    let mut pending = PendingSet::new();
    complete_query(&mut cache, &mut pending, &sticker_in_group(8, 1, 0), false);
    // Every later candidate from that chat is rejected outright: no
    // admission and no further capability query.
    for message_id in 2..5 {
        let m = sticker_in_group(8, message_id, 10);
        assert_eq!(ingest_step(&cache, &m), IngestStep::Reject);
    }
    assert_eq!(pending.len(), 0);
}

#[test]
fn classification_is_stable_across_other_chats() {
    // Once a chat is classified, classifying other chats never changes it.
    let mut cache = PermissionCache::new();
    let mut pending = PendingSet::new();
    complete_query(&mut cache, &mut pending, &sticker_in_group(1, 1, 0), true);
    complete_query(&mut cache, &mut pending, &sticker_in_group(2, 2, 0), false);
    complete_query(&mut cache, &mut pending, &sticker_in_group(3, 3, 0), true);
    assert_eq!(cache.lookup(1), Some(true));
    assert_eq!(cache.lookup(2), Some(false));
    assert_eq!(cache.lookup(3), Some(true));
    assert_eq!(cache.lookup(4), None);
}

#[test]
fn authorized_candidate_is_enqueued_directly() {
    let mut cache = PermissionCache::new();
    let mut pending = PendingSet::new();
    complete_query(&mut cache, &mut pending, &sticker_in_group(6, 1, 5), true);
    let m = sticker_in_group(6, 2, 9);
    assert_eq!(ingest_step(&cache, &m), IngestStep::Enqueue);
    enqueue_candidate(&mut pending, &m);
    assert_eq!(
        pending.entries(),
        vec![
            PendingMessage { chat_id: 6, message_id: 1, posted_at: 5 },
            PendingMessage { chat_id: 6, message_id: 2, posted_at: 9 },
        ]
    );
}

#[test]
fn failed_query_leaves_the_chat_unclassified() {
    // A capability query that fails is not cached: the caller simply does
    // not record an answer, so the next candidate asks again.
    let cache = PermissionCache::new();
    let m = sticker_in_group(9, 1, 0);
    assert_eq!(ingest_step(&cache, &m), IngestStep::NeedsQuery);
    // The transport failed; nothing was recorded.
    let m2 = sticker_in_group(9, 2, 1);
    assert_eq!(ingest_step(&cache, &m2), IngestStep::NeedsQuery);
    assert_eq!(cache.lookup(9), None);
}
