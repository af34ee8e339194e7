//! The home timeline, and taking the posts of a feed page into the cache.

use crate::backend::cache::{canonical_chain, canonicalized_all, lemma_chain_push, PostHandle};
use crate::backend::text::{append_decimal, append_optional, decimal, optional};
use crate::backend::{BlueskyApiError, ClientBackend, Decoded, HttpRequest};
use crate::defs::feed::defs::{FeedCursorPair, FeedViewPost, PostView};
use vstd::prelude::*;
use vstd::string::StringExecFns;

verus! {

/// How many posts a timeline page holds when the caller names no number.
pub const DEFAULT_LIMIT: u32 = 50;

/// The posts of a feed page as fetched, in order.
pub open spec fn fetched_posts(feed: Seq<FeedViewPost<PostView>>) -> Seq<PostView> {
    Seq::new(feed.len(), |i: int| feed[i].post)
}

/// The handles of a feed page, in order.
pub open spec fn feed_handles(feed: Seq<FeedViewPost<PostHandle>>) -> Seq<PostHandle> {
    Seq::new(feed.len(), |i: int| feed[i].post)
}

/// `shared` is `fetched` with each post replaced by the handle that
/// canonicalizing the posts in order gave, on a cache that went from
/// `before` to `after`.
pub open spec fn feed_canonicalized(
    before: Seq<PostView>,
    fetched: FeedCursorPair<PostView>,
    after: Seq<PostView>,
    shared: FeedCursorPair<PostHandle>,
) -> bool {
    &&& shared.cursor == fetched.cursor
    &&& shared.feed.len() == fetched.feed.len()
    &&& forall|i: int|
        0 <= i < fetched.feed.len() ==> {
            &&& (#[trigger] shared.feed[i]).reply == fetched.feed[i].reply
            &&& shared.feed[i].reason == fetched.feed[i].reason
            &&& shared.feed[i].feed_context == fetched.feed[i].feed_context
        }
    &&& canonicalized_all(
        before,
        fetched_posts(fetched.feed@),
        after,
        feed_handles(shared.feed@),
    )
}

/// What a feed operation ends with, and what it makes of the cache: an
/// error leaves the cache alone, a page has its posts canonicalized.
pub open spec fn feed_settled(
    before: Seq<PostView>,
    reply: Result<Decoded<FeedCursorPair<PostView>>, BlueskyApiError>,
    after: Seq<PostView>,
    result: Result<FeedCursorPair<PostHandle>, BlueskyApiError>,
) -> bool {
    match reply {
        Ok(decoded) => match decoded.value {
            Ok(fetched) => result matches Ok(shared) && feed_canonicalized(
                before,
                fetched,
                after,
                shared,
            ),
            Err(detail) => {
                &&& after == before
                &&& result matches Err(BlueskyApiError::ParseError(d, b))
                &&& d == detail
                &&& b == decoded.body
            },
        },
        Err(error) => {
            &&& after == before
            &&& result matches Err(e)
            &&& e == error
        },
    }
}

impl ClientBackend {
    /// Takes every post of a feed page into the cache, in the order of the
    /// page, and hands back the page with handles in their place.
    pub fn canonicalize_feed(&mut self, fetched: FeedCursorPair<PostView>) -> (shared:
        FeedCursorPair<PostHandle>)
        requires
            old(self).wf(),
        ensures
            feed_canonicalized(old(self).posts(), fetched, final(self).posts(), shared),
            final(self).wf(),
            final(self).session() == old(self).session(),
    {
        let FeedCursorPair { cursor, feed } = fetched;
        let ghost all = feed@;
        let mut rest = feed;
        let mut out: Vec<FeedViewPost<PostHandle>> = Vec::new();
        let ghost mut states: Seq<Seq<PostView>> = seq![self.posts()];
        let ghost mut done: Seq<FeedViewPost<PostView>> = Seq::empty();
        proof {
            assert(fetched_posts(done) =~= Seq::empty());
            assert(feed_handles(out@) =~= Seq::empty());
        }
        while rest.len() > 0
            invariant
                self.wf(),
                self.session() == old(self).session(),
                all == done + rest@,
                out@.len() == done.len(),
                forall|i: int|
                    0 <= i < done.len() ==> {
                        &&& (#[trigger] out@[i]).reply == done[i].reply
                        &&& out@[i].reason == done[i].reason
                        &&& out@[i].feed_context == done[i].feed_context
                    },
                canonical_chain(states, fetched_posts(done), feed_handles(out@)),
                states[0] == old(self).posts(),
                states.last() == self.posts(),
            decreases rest.len(),
        {
            let item = rest.remove(0);
            let ghost item_copy = item;
            let FeedViewPost { post, reply, reason, feed_context } = item;
            let handle = self.deduplicate_post(post);
            let shared_item = FeedViewPost { post: handle, reply, reason, feed_context };
            proof {
                lemma_chain_push(
                    states,
                    fetched_posts(done),
                    feed_handles(out@),
                    post,
                    self.posts(),
                    handle,
                );
                states = states.push(self.posts());
                assert(fetched_posts(done.push(item_copy)) =~= fetched_posts(done).push(post));
                assert(feed_handles(out@.push(shared_item)) =~= feed_handles(out@).push(handle));
                assert(all =~= done.push(item_copy) + rest@);
                done = done.push(item_copy);
            }
            out.push(shared_item);
        }
        proof {
            assert(all =~= done);
        }
        FeedCursorPair { cursor, feed: out }
    }

    /// Ends a feed operation: an error is handed on, and the posts of a
    /// page go into the cache.
    pub fn settle_feed(
        &mut self,
        reply: Result<Decoded<FeedCursorPair<PostView>>, BlueskyApiError>,
    ) -> (result: Result<FeedCursorPair<PostHandle>, BlueskyApiError>)
        requires
            old(self).wf(),
        ensures
            feed_settled(old(self).posts(), reply, final(self).posts(), result),
            final(self).wf(),
            final(self).session() == old(self).session(),
    {
        match reply {
            Ok(decoded) => {
                let Decoded { body, value } = decoded;
                match value {
                    Ok(fetched) => Ok(self.canonicalize_feed(fetched)),
                    Err(detail) => Err(BlueskyApiError::ParseError(detail, body)),
                }
            },
            Err(error) => Err(error),
        }
    }

    /// The request for a page of the home timeline: `limit` posts, 50
    /// where none is given, from `cursor` on where one is given.
    pub fn get_timeline_request(&self, cursor: Option<String>, limit: Option<u32>) -> (request:
        HttpRequest)
        ensures
            request == ClientBackend::spec_get(request.url),
            request.url@ == self.session().user_pds@ + "/xrpc/app.bsky.feed.getTimeline?limit="@
                + decimal(
                (match limit {
                    Some(n) => n,
                    None => DEFAULT_LIMIT,
                }) as nat,
            ) + optional("&cursor="@, cursor),
    {
        let limit = match limit {
            Some(n) => n,
            None => DEFAULT_LIMIT,
        };
        let mut url = self.user_url("/xrpc/app.bsky.feed.getTimeline?limit=");
        append_decimal(&mut url, limit as u64);
        append_optional(&mut url, "&cursor=", &cursor);
        ClientBackend::get(url)
    }

    /// Ends the fetch of a timeline page.
    pub fn get_timeline(
        &mut self,
        reply: Result<Decoded<FeedCursorPair<PostView>>, BlueskyApiError>,
    ) -> (result: Result<FeedCursorPair<PostHandle>, BlueskyApiError>)
        requires
            old(self).wf(),
        ensures
            feed_settled(old(self).posts(), reply, final(self).posts(), result),
            final(self).wf(),
            final(self).session() == old(self).session(),
    {
        self.settle_feed(reply)
    }
}

} // verus!
