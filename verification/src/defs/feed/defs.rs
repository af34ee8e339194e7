//! Views of posts, feeds and threads as the service returns them.

use crate::backend::text::{after_last, str_eq, tail_after};
use crate::defs::actor::{ProfileView, ProfileViewBasic};
use crate::defs::embed;
use crate::defs::feed::{Post, ThreadGate, ThreatGateAllow};
use crate::defs::graph::ListViewBasic;
use crate::defs::label::Label;
use crate::defs::richtext::Facet;
use vstd::prelude::*;
use vstd::string::StringExecFns;

verus! {

/// A post as one viewer sees it. Its identity is `cid`.
#[derive(Debug)]
pub struct PostView {
    pub uri: String,
    pub cid: String,
    pub author: ProfileViewBasic,
    pub record: Post,
    /// RFC 3339 text, as the service sent it.
    pub indexed_at: String,
    pub embed: Option<embed::Variant>,
    pub reply_count: Option<u32>,
    pub repost_count: Option<u32>,
    pub like_count: Option<u32>,
    pub quote_count: Option<u32>,
    pub viewer: Option<ViewerState>,
    pub labels: Option<Vec<serde_json::Value>>,
    pub threadgate: Option<ThreadGateView>,
}

/// The viewer meets the rule: they follow the author where followers may
/// reply, and the author follows them where those may whom the author
/// follows. Mentions and lists are not looked at, and meet no rule.
pub open spec fn rule_met(rule: ThreatGateAllow, author: ProfileViewBasic) -> bool {
    match rule {
        ThreatGateAllow::Follower => author.viewer matches Some(v) && v.following is Some,
        ThreatGateAllow::Following => author.viewer matches Some(v) && v.followed_by is Some,
        _ => false,
    }
}

/// The viewer meets one of the rules.
pub open spec fn some_rule_met(rules: Seq<ThreatGateAllow>, author: ProfileViewBasic) -> bool {
    exists|i: int| 0 <= i < rules.len() && rule_met(#[trigger] rules[i], author)
}

fn meets(rule: &ThreatGateAllow, author: &ProfileViewBasic) -> (met: bool)
    ensures
        met == rule_met(*rule, *author),
{
    match rule {
        ThreatGateAllow::Follower => match &author.viewer {
            Some(v) => v.following.is_some(),
            None => false,
        },
        ThreatGateAllow::Following => match &author.viewer {
            Some(v) => v.followed_by.is_some(),
            None => false,
        },
        _ => false,
    }
}

impl PostView {
    /// The rules that say who may reply, where the post has a thread gate
    /// with a record that lists any.
    pub open spec fn reply_rules(&self) -> Option<Seq<ThreatGateAllow>> {
        match self.threadgate {
            Some(gate) => match gate.record {
                Some(record) => match record.allow {
                    Some(rules) => Some(rules@),
                    None => None,
                },
                None => None,
            },
            None => None,
        }
    }

    /// Replies are disabled for the viewer.
    pub open spec fn reply_disabled(&self) -> bool {
        self.viewer matches Some(v) && v.reply_disabled == Some(true)
    }

    /// The viewer may reply: replies are not disabled for them, and they
    /// meet one of the rules of the thread gate where it lists rules.
    pub open spec fn spec_can_reply(&self) -> bool {
        !self.reply_disabled() && match self.reply_rules() {
            Some(rules) => some_rule_met(rules, self.author),
            None => true,
        }
    }

    /// The address of the post on the web: the profile of the author, by
    /// handle, or by account id where the handle is `handle.invalid`, and
    /// below it the last segment of the post's URI.
    pub open spec fn spec_url(&self) -> Seq<char> {
        "https://bsky.app/profile/"@ + (if self.author.handle@ == "handle.invalid"@ {
            self.author.did@
        } else {
            self.author.handle@
        }) + "/post/"@ + after_last(self.uri@, '/')
    }

    /// The address of the post on the web.
    pub fn url(&self) -> (url: String)
        ensures
            url@ == self.spec_url(),
    {
        let id = tail_after(self.uri.as_str(), '/');
        let handle = if str_eq(self.author.handle.as_str(), "handle.invalid") {
            self.author.did.as_str()
        } else {
            self.author.handle.as_str()
        };
        let mut url = String::from_str("https://bsky.app/profile/");
        url.append(handle);
        url.append("/post/");
        url.append(id);
        url
    }

    /// Says whether the viewer may reply to the post.
    pub fn can_reply(&self) -> (allowed: bool)
        ensures
            allowed == self.spec_can_reply(),
    {
        let disabled = match &self.viewer {
            Some(v) => match v.reply_disabled {
                Some(d) => d,
                None => false,
            },
            None => false,
        };
        if disabled {
            return false;
        }
        let rules = match &self.threadgate {
            Some(gate) => match &gate.record {
                Some(record) => match &record.allow {
                    Some(rules) => rules,
                    None => {
                        return true;
                    },
                },
                None => {
                    return true;
                },
            },
            None => {
                return true;
            },
        };
        let mut i: usize = 0;
        while i < rules.len()
            invariant
                i <= rules.len(),
                !self.reply_disabled(),
                self.reply_rules() == Some(rules@),
                forall|k: int| 0 <= k < i ==> !rule_met(#[trigger] rules@[k], self.author),
            decreases rules.len() - i,
        {
            if meets(&rules[i], &self.author) {
                assert(rule_met(rules@[i as int], self.author));
                return true;
            }
            i = i + 1;
        }
        false
    }
}

/// What the viewer has done to a post, and may do.
#[derive(Debug, Clone)]
pub struct ViewerState {
    /// AT-URI of the viewer's repost record, if they reposted.
    pub repost: Option<String>,
    /// AT-URI of the viewer's like record, if they liked.
    pub like: Option<String>,
    pub thread_muted: Option<bool>,
    pub reply_disabled: Option<bool>,
    pub embedding_disabled: Option<bool>,
    pub pinned: Option<bool>,
}

/// One page of a feed. `P` is how a post is held: by value as fetched, or
/// by handle once the cache has taken it.
#[derive(Debug)]
pub struct FeedCursorPair<P> {
    pub cursor: Option<String>,
    pub feed: Vec<FeedViewPost<P>>,
}

#[derive(Debug)]
pub struct FeedViewPost<P> {
    pub post: P,
    pub reply: Option<ReplyRef>,
    pub reason: Option<Reason>,
    pub feed_context: Option<String>,
}

#[derive(Debug)]
pub struct ReplyRef {
    pub root: RelatedPostVariant,
    pub parent: RelatedPostVariant,
    pub grandparent_author: Option<ProfileViewBasic>,
}

/// Why a post is in a feed.
#[derive(Debug)]
pub enum Reason {
    Repost(ReasonRepost),
    Pin,
}

#[derive(Debug)]
pub struct ReasonRepost {
    pub by: ProfileViewBasic,
    /// RFC 3339 text, as the service sent it.
    pub indexed_at: String,
}

#[derive(Debug)]
pub enum RelatedPostVariant {
    Post(PostView),
    NotFound(NotFoundPost),
    Blocked(BlockedPost),
}

/// A node of a thread.
#[derive(Debug)]
pub enum ThreadPostVariant<P> {
    ThreadView(ThreadViewPost<P>),
    NotFound(NotFoundPost),
    Blocked(BlockedPost),
}

/// A post in a thread. `parent` and `replies` name other nodes of the same
/// thread by their position in it.
#[derive(Debug)]
pub struct ThreadViewPost<P> {
    pub post: P,
    pub parent: Option<usize>,
    pub replies: Option<Vec<usize>>,
}

#[derive(Debug, Clone)]
pub struct NotFoundPost {
    pub uri: String,
    pub not_found: bool,
}

#[derive(Debug)]
pub struct BlockedPost {
    pub uri: String,
    pub blocked: bool,
    pub author: BlockedAuthor,
}

#[derive(Debug)]
pub struct BlockedAuthor {
    pub did: String,
    pub viewer: Option<ViewerState>,
}

#[derive(Debug)]
pub struct GeneratorView {
    pub uri: String,
    pub cid: String,
    pub did: String,
    pub creator: ProfileView,
    pub display_name: String,
    pub description: Option<String>,
    pub description_facets: Option<Vec<Facet>>,
    pub avatar: Option<String>,
    pub like_count: Option<usize>,
    pub accepts_interactions: Option<bool>,
    pub labels: Option<Vec<Label>>,
    pub viewer: Option<GeneratorViewerState>,
    /// RFC 3339 text, as the service sent it.
    pub indexed_at: String,
}

#[derive(Debug, Clone)]
pub struct GeneratorViewerState {
    pub like: Option<String>,
}

#[derive(Debug, Clone)]
pub struct ThreadGateView {
    pub uri: Option<String>,
    pub cid: Option<String>,
    pub record: Option<ThreadGate>,
    pub lists: Option<Vec<ListViewBasic>>,
}

} // verus!
