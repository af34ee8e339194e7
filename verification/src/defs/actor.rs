//! Profiles and account preferences.

use crate::defs::graph::ListViewBasic;
use vstd::prelude::*;

verus! {

#[derive(Debug)]
pub struct ProfileViewBasic {
    pub did: String,
    pub handle: String,
    pub display_name: Option<String>,
    pub avatar: Option<String>,
    pub associated: Option<ProfileAssociated>,
    pub viewer: Option<ViewerState>,
    pub labels: Option<Vec<serde_json::Value>>,
    /// RFC 3339 text, as the service sent it.
    pub created_at: Option<String>,
}

impl ProfileViewBasic {
    /// The name to show for this account.
    pub open spec fn spec_easy_name(&self) -> Seq<char> {
        match self.display_name {
            Some(name) => if name@.len() > 0 {
                name@
            } else {
                self.handle@
            },
            None => self.handle@,
        }
    }

    /// A name that always identifies the account: the display name when it
    /// is set and not empty, the handle otherwise.
    pub fn easy_name(&self) -> (name: &str)
        ensures
            name@ == self.spec_easy_name(),
    {
        match &self.display_name {
            Some(dn) => {
                if !dn.as_str().is_empty() {
                    dn.as_str()
                } else {
                    self.handle.as_str()
                }
            },
            None => self.handle.as_str(),
        }
    }
}

#[derive(Debug)]
pub struct ProfileView {
    pub did: String,
    pub handle: String,
    pub display_name: Option<String>,
    pub description: Option<String>,
    pub avatar: Option<String>,
    pub associated: Option<ProfileAssociated>,
    pub indexed_at: Option<String>,
    pub created_at: Option<String>,
    pub viewer: Option<ViewerState>,
    pub labels: Option<Vec<serde_json::Value>>,
}

#[derive(Debug)]
pub struct ProfileViewDetailed {
    pub did: String,
    pub handle: String,
    pub display_name: Option<String>,
    pub description: Option<String>,
    pub avatar: Option<String>,
    pub banner: Option<String>,
    pub followers_count: Option<usize>,
    pub follows_count: Option<usize>,
    pub posts_count: Option<usize>,
    pub associated: Option<ProfileAssociated>,
    pub joined_via_starter_pack: Option<serde_json::Value>,
    pub indexed_at: Option<String>,
    pub created_at: Option<String>,
    pub viewer: Option<ViewerState>,
    pub labels: Option<Vec<serde_json::Value>>,
    pub pinned_post: Option<serde_json::Value>,
}

impl ProfileViewDetailed {
    /// The display name, unless it is missing or empty.
    pub open spec fn spec_display_name(&self) -> Option<Seq<char>> {
        match self.display_name {
            Some(name) => if name@.len() > 0 {
                Some(name@)
            } else {
                None
            },
            None => None,
        }
    }

    /// The display name, unless it is missing or empty.
    pub fn display_name(&self) -> (name: Option<&str>)
        ensures
            match name {
                Some(n) => self.spec_display_name() == Some(n@),
                None => self.spec_display_name() is None,
            },
    {
        match &self.display_name {
            Some(dn) => {
                if !dn.as_str().is_empty() {
                    Some(dn.as_str())
                } else {
                    None
                }
            },
            None => None,
        }
    }
}

#[derive(Debug, Clone)]
pub struct ProfileAssociated {
    pub lists: Option<usize>,
    pub feed_gens: Option<usize>,
    pub starter_packs: Option<usize>,
    pub labeler: Option<bool>,
    pub chat: Option<ProfileAssociatedChat>,
}

#[derive(Debug, Clone, Copy, PartialEq, Eq, Structural)]
pub enum ProfileAssociatedChatAllowIncoming {
    All,
    /// The wire value `none`.
    Nobody,
    Following,
}

#[derive(Debug, Clone)]
pub struct ProfileAssociatedChat {
    pub allow_incoming: ProfileAssociatedChatAllowIncoming,
}

/// How the requesting account relates to the subject account. Only filled
/// for authenticated requests.
#[derive(Debug)]
pub struct ViewerState {
    pub muted: Option<bool>,
    pub muted_by_list: Option<ListViewBasic>,
    pub blocked_by: Option<bool>,
    pub blocking: Option<String>,
    pub blocking_by_list: Option<ListViewBasic>,
    pub following: Option<String>,
    pub followed_by: Option<String>,
    pub known_followers: Option<KnownFollowers>,
}

/// The subject's followers whom the viewer also follows.
#[derive(Debug)]
pub struct KnownFollowers {
    pub count: usize,
    pub followers: Vec<ProfileViewBasic>,
}

#[derive(Debug, Clone)]
pub enum Preference {
    AdultContentPref(AdultContentPref),
    ContentLabelPref(ContentLabelPref),
    SavedFeedsPref(SavedFeedsPref),
    SavedFeedsPrefV2(SavedFeedsPrefV2),
    PersonalDetailsPref(PersonalDetailsPref),
    FeedViewPref(FeedViewPref),
    ThreadViewPref(ThreadViewPref),
    InterestsPref(InterestsPref),
    MutedWordsPref(MutedWordsPref),
    HiddenPostsPref(HiddenPostsPref),
    BskyAppStatePref(BskyAppStatePref),
    LabelersPref(LabelersPref),
}

#[derive(Debug, Clone)]
pub struct AdultContentPref(pub serde_json::Value);

#[derive(Debug, Clone)]
pub struct ContentLabelPref(pub serde_json::Value);

#[derive(Debug, Clone)]
pub struct SavedFeedsPref(pub serde_json::Value);

#[derive(Debug, Clone, Copy, PartialEq, Eq, Structural)]
pub enum SavedFeedType {
    Feed,
    List,
    Timeline,
}

#[derive(Debug, Clone)]
pub struct SavedFeed {
    pub id: String,
    /// The wire field `type`.
    pub kind: SavedFeedType,
    pub value: String,
    pub pinned: bool,
}

#[derive(Debug, Clone)]
pub struct SavedFeedsPrefV2 {
    pub items: Vec<SavedFeed>,
}

#[derive(Debug, Clone)]
pub struct PersonalDetailsPref(pub serde_json::Value);

#[derive(Debug, Clone)]
pub struct FeedViewPref {
    pub feed: String,
    pub hide_replies: Option<bool>,
    pub hide_replies_by_unfollowed: Option<bool>,
    pub hide_replies_by_like_count: Option<usize>,
    pub hide_reposts: Option<bool>,
    pub hide_quote_posts: Option<bool>,
}

#[derive(Debug, Clone, Copy, PartialEq, Eq, Structural)]
pub enum ThreadViewSort {
    Oldest,
    Newest,
    MostLikes,
    Random,
    Hotness,
}

#[derive(Debug, Clone)]
pub struct ThreadViewPref {
    pub sort: Option<ThreadViewSort>,
    pub prioritize_followed_users: Option<bool>,
}

/// Tags that describe the account owner's interests.
#[derive(Debug, Clone)]
pub struct InterestsPref {
    pub tags: Vec<String>,
}

#[derive(Debug, Clone, Copy, PartialEq, Eq, Structural)]
pub enum MutedWordTarget {
    Content,
    Tag,
}

#[derive(Debug, Clone, Copy, PartialEq, Eq, Structural)]
pub enum MutedWordActorTarget {
    All,
    ExcludeFollowing,
}

/// A word that the account owner has muted.
#[derive(Debug, Clone)]
pub struct MutedWord {
    pub value: String,
    pub targets: Vec<MutedWordTarget>,
    pub actor_target: Option<MutedWordActorTarget>,
    pub expires_at: Option<String>,
}

#[derive(Debug, Clone)]
pub struct MutedWordsPref {
    pub items: Vec<MutedWord>,
}

#[derive(Debug, Clone)]
pub struct HiddenPostsPref(pub serde_json::Value);

#[derive(Debug, Clone)]
pub struct BskyAppStatePref(pub serde_json::Value);

#[derive(Debug, Clone)]
pub struct LabelersPref(pub serde_json::Value);

} // verus!
