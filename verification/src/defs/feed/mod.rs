//! Records of the feed collection: posts, likes, reposts, thread gates.

use crate::defs::embed;
use crate::defs::richtext::Facet;
use vstd::prelude::*;

pub mod defs;

verus! {

/// A reference to one version of a record: where it lives and what it holds.
#[derive(Debug, Clone)]
pub struct StrongRef {
    pub uri: String,
    pub cid: String,
}

/// What a reply answers: the root of its thread and its direct parent.
#[derive(Debug, Clone)]
pub struct ReplyRef {
    pub root: StrongRef,
    pub parent: StrongRef,
}

/// A like or a repost of `subject`.
#[derive(Debug, Clone)]
pub struct Like {
    pub subject: StrongRef,
    /// RFC 3339 text.
    pub created_at: String,
}

/// A post as its author wrote it.
#[derive(Debug)]
pub struct Post {
    pub text: String,
    /// RFC 3339 text.
    pub created_at: String,
    pub facets: Option<Vec<Facet>>,
    pub reply: Option<ReplyRef>,
    pub embed: Option<Box<embed::Variant>>,
    pub langs: Option<Vec<String>>,
    pub labels: Option<serde_json::Value>,
    pub tags: Option<Vec<String>>,
}

/// A rule that says who may reply to a post.
#[derive(Debug, Clone)]
pub enum ThreatGateAllow {
    /// Accounts mentioned in the post.
    Mention,
    /// Accounts that follow the author.
    Follower,
    /// Accounts that the author follows.
    Following,
    /// Accounts on a list.
    List { list: String },
}

/// The reply controls of a thread. Its record key is that of the thread's
/// root post.
#[derive(Debug, Clone)]
pub struct ThreadGate {
    /// AT-URI of the post.
    pub post: String,
    /// Who may reply. An empty list lets no one reply; a missing list lets
    /// everyone.
    pub allow: Option<Vec<ThreatGateAllow>>,
    /// RFC 3339 text.
    pub created_at: String,
    pub hidden_replies: Option<Vec<String>>,
}

} // verus!
