//! The texts of the events that report a failure, and the choice of the
//! feeds to show.

use crate::backend::BlueskyApiError;
use crate::defs::actor::{Preference, SavedFeed};
use vstd::prelude::*;
use vstd::string::{StrSliceExecFns, StringExecFns};

verus! {

/// The error in words: its kind, and what it carries.
pub open spec fn described(error: BlueskyApiError) -> Seq<char> {
    match error {
        BlueskyApiError::BadRequest(m) => "BadRequest: "@ + m.error@ + ": "@ + m.message@,
        BlueskyApiError::Unauthorized(m) => "Unauthorized: "@ + m.error@ + ": "@ + m.message@,
        BlueskyApiError::NetworkError(detail) => "NetworkError: "@ + detail@,
        BlueskyApiError::ParseError(detail, body) => "ParseError: "@ + detail@ + "\n"@ + body@,
        BlueskyApiError::NotImplemented => "NotImplemented"@,
    }
}

/// The text of a report: what failed, a line break, and the error in
/// words.
pub open spec fn reported(what: Seq<char>, error: BlueskyApiError) -> Seq<char> {
    what + "\n"@ + described(error)
}

/// Puts an error in words.
pub fn describe(error: &BlueskyApiError) -> (text: String)
    ensures
        text@ == described(*error),
{
    match error {
        BlueskyApiError::BadRequest(m) => {
            let mut text = String::from_str("BadRequest: ");
            text.append(m.error.as_str());
            text.append(": ");
            text.append(m.message.as_str());
            text
        },
        BlueskyApiError::Unauthorized(m) => {
            let mut text = String::from_str("Unauthorized: ");
            text.append(m.error.as_str());
            text.append(": ");
            text.append(m.message.as_str());
            text
        },
        BlueskyApiError::NetworkError(detail) => {
            let mut text = String::from_str("NetworkError: ");
            text.append(detail.as_str());
            text
        },
        BlueskyApiError::ParseError(detail, body) => {
            let mut text = String::from_str("ParseError: ");
            text.append(detail.as_str());
            text.append("\n");
            text.append(body.as_str());
            text
        },
        BlueskyApiError::NotImplemented => String::from_str("NotImplemented"),
    }
}

/// The text that reports that `what` failed with `error`.
pub fn report(what: &str, error: &BlueskyApiError) -> (text: String)
    ensures
        text@ == reported(what@, *error),
{
    let mut text = String::from_str(what);
    text.append("\n");
    let words = describe(error);
    text.append(words.as_str());
    text
}

/// `prefix` followed by `detail`.
pub fn prefixed(prefix: &str, detail: &str) -> (text: String)
    ensures
        text@ == prefix@ + detail@,
{
    let mut text = String::from_str(prefix);
    text.append(detail);
    text
}

/// The feed is pinned and its value starts with `at`.
pub open spec fn is_shown(feed: SavedFeed) -> bool {
    feed.pinned && feed.value@.len() >= 2 && feed.value@[0] == 'a' && feed.value@[1] == 't'
}

/// The values of the feeds to show among `items`, in order.
pub open spec fn shown_values(items: Seq<SavedFeed>) -> Seq<Seq<char>>
    decreases items.len(),
{
    if items.len() == 0 {
        Seq::empty()
    } else if is_shown(items.last()) {
        shown_values(items.drop_last()).push(items.last().value@)
    } else {
        shown_values(items.drop_last())
    }
}

/// Position of the first list of saved feeds among the preferences, or
/// their number where there is none.
pub open spec fn first_saved_feeds(prefs: Seq<Preference>, from: int) -> int
    decreases prefs.len() - from,
{
    if from < 0 || from >= prefs.len() {
        prefs.len() as int
    } else if prefs[from] is SavedFeedsPrefV2 {
        from
    } else {
        first_saved_feeds(prefs, from + 1)
    }
}

/// The values of the feeds to show: those of the first list of saved feeds
/// among the preferences that are pinned and start with `at`. Later lists
/// are not looked at.
pub open spec fn pinned_values(prefs: Seq<Preference>) -> Seq<Seq<char>> {
    let at = first_saved_feeds(prefs, 0);
    if at < prefs.len() {
        shown_values(prefs[at]->SavedFeedsPrefV2_0.items@)
    } else {
        Seq::empty()
    }
}

/// The texts of `values`, in order.
pub open spec fn texts(values: Seq<String>) -> Seq<Seq<char>> {
    values.map_values(|s: String| s@)
}

fn shows(feed: &SavedFeed) -> (r: bool)
    ensures
        r == is_shown(*feed),
{
    let value = feed.value.as_str();
    feed.pinned && value.unicode_len() >= 2 && value.get_char(0) == 'a' && value.get_char(1)
        == 't'
}

/// Picks the feeds to show from the preferences of the account.
pub fn pinned_feeds(prefs: &Vec<Preference>) -> (feeds: Vec<String>)
    ensures
        texts(feeds@) == pinned_values(prefs@),
{
    let mut feeds: Vec<String> = Vec::new();
    let mut i: usize = 0;
    while i < prefs.len()
        invariant
            i <= prefs.len(),
            feeds@.len() == 0,
            first_saved_feeds(prefs@, 0) == first_saved_feeds(prefs@, i as int),
        decreases prefs.len() - i,
    {
        match &prefs[i] {
            Preference::SavedFeedsPrefV2(saved) => {
                let mut k: usize = 0;
                proof {
                    assert(saved.items@.subrange(0, 0) =~= Seq::empty());
                    assert(texts(feeds@) =~= Seq::empty());
                }
                while k < saved.items.len()
                    invariant
                        k <= saved.items.len(),
                        texts(feeds@) == shown_values(saved.items@.subrange(0, k as int)),
                    decreases saved.items.len() - k,
                {
                    proof {
                        let upto = saved.items@.subrange(0, k + 1);
                        assert(upto.drop_last() =~= saved.items@.subrange(0, k as int));
                        assert(upto.last() == saved.items@[k as int]);
                    }
                    if shows(&saved.items[k]) {
                        let value = saved.items[k].value.clone();
                        proof {
                            assert(texts(feeds@.push(value)) =~= texts(feeds@).push(value@));
                        }
                        feeds.push(value);
                    }
                    k = k + 1;
                }
                proof {
                    assert(saved.items@.subrange(0, k as int) =~= saved.items@);
                }
                return feeds;
            },
            _ => {},
        }
        i = i + 1;
    }
    proof {
        assert(texts(feeds@) =~= Seq::empty());
    }
    feeds
}

} // verus!
