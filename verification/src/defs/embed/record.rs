//! An embedded record: a quoted post, a feed generator, a list and the like.

use crate::backend::record::BlueskyApiRecord;
use crate::defs::actor::ProfileViewBasic;
use crate::defs::feed::defs::BlockedAuthor;
use crate::defs::graph::{ListView, StarterPackViewBasic};
use vstd::prelude::*;

verus! {

#[derive(Debug)]
pub enum Variant {
    Record(Record),
    NotFound(NotFound),
    Blocked(Blocked),
    Detached(Detached),
    FeedGenerator(serde_json::Value),
    List(ListView),
    Labeler(serde_json::Value),
    PackView(StarterPackViewBasic),
}

#[derive(Debug)]
pub struct Record {
    pub uri: String,
    pub cid: String,
    pub author: ProfileViewBasic,
    pub value: BlueskyApiRecord,
    pub labels: Option<Vec<serde_json::Value>>,
    pub reply_count: Option<usize>,
    pub repost_count: Option<usize>,
    pub like_count: Option<usize>,
    pub quote_count: Option<usize>,
    pub embeds: Option<serde_json::Value>,
    /// RFC 3339 text, as the service sent it.
    pub indexed_at: String,
}

#[derive(Debug, Clone)]
pub struct NotFound {
    pub uri: String,
    pub not_found: bool,
}

#[derive(Debug)]
pub struct Blocked {
    pub uri: String,
    pub blocked: bool,
    pub author: BlockedAuthor,
}

#[derive(Debug, Clone)]
pub struct Detached {
    pub uri: String,
    pub detached: bool,
}

} // verus!
