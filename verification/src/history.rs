//! Conversation persistence models.
//!
//! Storage itself is a fire-and-forget collaborator at the edge of the
//! system; this module holds the persisted record shapes and the one rule
//! the store must reproduce: recent history is fetched most-recent-first
//! and handed to consumers in chronological order, oldest first.

use vstd::prelude::*;
use crate::schema::opt_str_view;

verus! {

/// A persisted conversation message. The creation instant is kept as a
/// unix timestamp in milliseconds.
#[derive(Clone, Debug, PartialEq)]
pub struct ConversationMessage {
    pub id: String,
    pub channel_id: String,
    pub role: String,
    pub sender_name: Option<String>,
    pub sender_id: Option<String>,
    pub content: String,
    pub metadata: Option<String>,
    pub created_at: i64,
}

/// Mathematical view of a `ConversationMessage`.
pub struct ConversationMessageV {
    pub id: Seq<char>,
    pub channel_id: Seq<char>,
    pub role: Seq<char>,
    pub sender_name: Option<Seq<char>>,
    pub sender_id: Option<Seq<char>>,
    pub content: Seq<char>,
    pub metadata: Option<Seq<char>>,
    pub created_at: i64,
}

impl View for ConversationMessage {
    type V = ConversationMessageV;

    open spec fn view(&self) -> ConversationMessageV {
        ConversationMessageV {
            id: self.id@,
            channel_id: self.channel_id@,
            role: self.role@,
            sender_name: opt_str_view(self.sender_name),
            sender_id: opt_str_view(self.sender_id),
            content: self.content@,
            metadata: opt_str_view(self.metadata),
            created_at: self.created_at,
        }
    }
}

/// A stored compaction summary.
#[derive(Clone, Debug, PartialEq)]
pub struct CompactionSummary {
    pub id: String,
    pub channel_id: String,
    pub summary: String,
    pub turns_covered: usize,
    pub created_at: i64,
}

/// Mathematical view of a `CompactionSummary`.
pub struct CompactionSummaryV {
    pub id: Seq<char>,
    pub channel_id: Seq<char>,
    pub summary: Seq<char>,
    pub turns_covered: usize,
    pub created_at: i64,
}

impl View for CompactionSummary {
    type V = CompactionSummaryV;

    open spec fn view(&self) -> CompactionSummaryV {
        CompactionSummaryV {
            id: self.id@,
            channel_id: self.channel_id@,
            summary: self.summary@,
            turns_covered: self.turns_covered,
            created_at: self.created_at,
        }
    }
}

/// Turn a most-recent-first window of messages into chronological order:
/// the result is exactly the input reversed.
pub fn into_chronological(rows: Vec<ConversationMessage>) -> (r: Vec<ConversationMessage>)
    ensures
        r@ == rows@.reverse(),
{
    let ghost orig = rows@;
    let mut rows = rows;
    let mut out: Vec<ConversationMessage> = Vec::new();
    while rows.len() > 0
        invariant
            rows@ == orig.take(orig.len() - out@.len()),
            out@.len() <= orig.len(),
            forall|j: int| 0 <= j < out@.len() ==> out@[j] == orig[orig.len() - 1 - j],
        decreases rows.len(),
    {
        let m = rows.pop().unwrap();
        out.push(m);
    }
    proof {
        assert(out@.len() == orig.len());
        assert(out@ =~= orig.reverse());
    }
    out
}

} // verus!
