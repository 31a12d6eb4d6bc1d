//! The permission cache: memoizes, per chat, whether the agent holds delete
//! permission there, with at most one backend capability query per chat for
//! the process lifetime.

use vstd::prelude::*;

verus! {

/// One memoized classification: whether deletion is allowed in `chat_id`.
#[derive(Clone, Copy, PartialEq, Eq, Structural, Debug)]
pub struct PermissionRecord {
    pub chat_id: i64,
    pub authorized: bool,
}

/// The map a record sequence denotes, later records winning; a well-formed
/// cache never holds two records for one chat, so no record is shadowed.
pub open spec fn classification_map(s: Seq<PermissionRecord>) -> Map<int, bool>
    decreases s.len(),
{
    if s.len() == 0 {
        Map::empty()
    } else {
        classification_map(s.drop_last()).insert(
            s.last().chat_id as int,
            s.last().authorized,
        )
    }
}

/// The per-chat classifications determined so far. A chat absent from the map
/// has never had a capability query answered; a present chat is never queried
/// again.
pub struct PermissionCache {
    records: Vec<PermissionRecord>,
}

impl View for PermissionCache {
    type V = Map<int, bool>;

    closed spec fn view(&self) -> Map<int, bool> {
        classification_map(self.records@)
    }
}

/// A record with no later record for the same chat decides that chat's
/// classification.
proof fn lemma_classification_at(s: Seq<PermissionRecord>, i: int)
    requires
        0 <= i < s.len(),
        forall|j: int| i < j < s.len() ==> (#[trigger] s[j]).chat_id != s[i].chat_id,
    ensures
        classification_map(s).contains_key(s[i].chat_id as int),
        classification_map(s)[s[i].chat_id as int] == s[i].authorized,
    decreases s.len(),
{
    if i < s.len() - 1 {
        assert(s.drop_last()[i] == s[i]);
        lemma_classification_at(s.drop_last(), i);
    }
}

/// A chat no record names is absent from the classification map.
proof fn lemma_classification_absent(s: Seq<PermissionRecord>, chat: int)
    requires
        forall|i: int| 0 <= i < s.len() ==> (#[trigger] s[i]).chat_id != chat,
    ensures
        !classification_map(s).contains_key(chat),
    decreases s.len(),
{
    if s.len() > 0 {
        lemma_classification_absent(s.drop_last(), chat);
    }
}

impl PermissionCache {
    /// No two records classify the same chat.
    pub closed spec fn wf(&self) -> bool {
        forall|i: int, j: int| 0 <= i < j < self.records@.len()
            ==> (#[trigger] self.records@[i]).chat_id != (#[trigger] self.records@[j]).chat_id
    }

    pub fn new() -> (c: PermissionCache)
        ensures
            c@ == Map::<int, bool>::empty(),
            c.wf(),
    {
        PermissionCache { records: Vec::new() }
    }

    /// The memoized classification of `chat_id`, or `None` when the chat has
    /// never been classified and a capability query is needed. No backend
    /// round-trip happens here.
    pub fn lookup(&self, chat_id: i64) -> (r: Option<bool>)
        requires
            self.wf(),
        ensures
            r == (if self@.contains_key(chat_id as int) {
                Some(self@[chat_id as int])
            } else {
                None::<bool>
            }),
    {
        let n: usize = self.records.len();
        let mut i: usize = 0;
        while i < n
            invariant
                i <= n,
                n == self.records@.len(),
                self.wf(),
                forall|k: int| 0 <= k < i ==> (#[trigger] self.records@[k]).chat_id != chat_id,
            decreases n - i,
        {
            let r = self.records[i];
            if r.chat_id == chat_id {
                proof {
                    lemma_classification_at(self.records@, i as int);
                }
                return Some(r.authorized);
            }
            i = i + 1;
        }
        proof {
            lemma_classification_absent(self.records@, chat_id as int);
        }
        None
    }

    /// Record the outcome of a capability query for a chat seen for the first
    /// time. The classification is write-once: it requires that the chat is
    /// unclassified, and from then on `lookup` returns exactly this value.
    pub fn classify(&mut self, chat_id: i64, authorized: bool) -> (r: bool)
        requires
            old(self).wf(),
            !old(self)@.contains_key(chat_id as int),
        ensures
            final(self).wf(),
            final(self)@ == old(self)@.insert(chat_id as int, authorized),
            r == authorized,
    {
        proof {
            let s = self.records@;
            assert forall|i: int| 0 <= i < s.len() implies
                (#[trigger] s[i]).chat_id != chat_id by {
                if s[i].chat_id == chat_id {
                    lemma_classification_at(s, i);
                }
            }
        }
        let ghost before: Seq<PermissionRecord> = self.records@;
        self.records.push(PermissionRecord { chat_id, authorized });
        proof {
            assert(self.records@.drop_last() =~= before);
        }
        authorized
    }
}

/// At-most-one-classification: once a chat is classified, recording any other
/// chat's first classification leaves it untouched, so every later `lookup`
/// for the chat returns the original value, and, the chat being present,
/// issues no new capability query.
pub proof fn lemma_classification_stable(
    m: Map<int, bool>,
    chat: int,
    newcomer: int,
    authorized: bool,
)
    requires
        m.contains_key(chat),
        !m.contains_key(newcomer),
    ensures
        m.insert(newcomer, authorized).contains_key(chat),
        m.insert(newcomer, authorized)[chat] == m[chat],
{
}

} // verus!
