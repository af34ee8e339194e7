//! Feed generators and the feeds they make.

use crate::backend::cache::PostHandle;
use crate::backend::text::{append_optional, optional};
use crate::backend::timeline::feed_settled;
use crate::backend::{settle, settled, BlueskyApiError, ClientBackend, Decoded, HttpRequest};
use crate::defs::feed::defs::{FeedCursorPair, GeneratorView, PostView};
use vstd::prelude::*;
use vstd::string::StringExecFns;

verus! {

#[derive(Debug)]
pub struct FeedGeneratorsResponse {
    pub feeds: Vec<GeneratorView>,
}

#[derive(Debug)]
pub struct ActorFeedsResponse {
    pub cursor: Option<String>,
    pub feeds: Vec<GeneratorView>,
}

impl ActorFeedsResponse {
    /// A response without feeds and without a cursor.
    pub fn none() -> (response: Self)
        ensures
            response.cursor is None,
            response.feeds@ == Seq::<GeneratorView>::empty(),
    {
        ActorFeedsResponse { cursor: None, feeds: Vec::new() }
    }
}

/// The query that names each feed of `feeds` in turn: `feeds=`, the feed,
/// and `&`.
pub open spec fn feeds_query(feeds: Seq<String>) -> Seq<char>
    decreases feeds.len(),
{
    if feeds.len() == 0 {
        Seq::empty()
    } else {
        feeds_query(feeds.drop_last()) + "feeds="@ + feeds.last()@ + "&"@
    }
}

impl ClientBackend {
    /// The request for the feed generators that `did` made.
    pub fn get_actor_feeds_request(&self, did: String, cursor: Option<String>) -> (request:
        HttpRequest)
        ensures
            request == ClientBackend::spec_get(request.url),
            request.url@ == self.session().standard_pds@ + "/xrpc/app.bsky.feed.getActorFeeds?actor="@
                + did@ + optional("&cursor="@, cursor),
    {
        let mut url = self.standard_url("/xrpc/app.bsky.feed.getActorFeeds?actor=");
        url.append(did.as_str());
        append_optional(&mut url, "&cursor=", &cursor);
        ClientBackend::get(url)
    }

    /// Ends the fetch of an account's feed generators.
    pub fn get_actor_feeds(&self, reply: Result<Decoded<ActorFeedsResponse>, BlueskyApiError>) -> (result:
        Result<ActorFeedsResponse, BlueskyApiError>)
        ensures
            result == settled(reply),
    {
        settle(reply)
    }

    /// The request for a page of the feed that the generator `feed` makes.
    pub fn get_feed_request(&self, feed: String, cursor: Option<String>) -> (request: HttpRequest)
        ensures
            request == ClientBackend::spec_get(request.url),
            request.url@ == self.session().standard_pds@ + "/xrpc/app.bsky.feed.getFeed?feed="@
                + feed@ + optional("&cursor="@, cursor),
    {
        let mut url = self.standard_url("/xrpc/app.bsky.feed.getFeed?feed=");
        url.append(feed.as_str());
        append_optional(&mut url, "&cursor=", &cursor);
        ClientBackend::get(url)
    }

    /// Ends the fetch of a feed page.
    pub fn get_feed(
        &mut self,
        reply: Result<Decoded<FeedCursorPair<PostView>>, BlueskyApiError>,
    ) -> (result: Result<FeedCursorPair<PostHandle>, BlueskyApiError>)
        requires
            old(self).wf(),
        ensures
            feed_settled(old(self).posts(), reply, final(self).posts(), result),
            final(self).wf(),
            final(self).session() == old(self).session(),
    {
        self.settle_feed(reply)
    }

    /// The request for what is known about the feed generators `feeds`.
    pub fn get_feed_generators_request(&self, feeds: &Vec<String>) -> (request: HttpRequest)
        ensures
            request == ClientBackend::spec_get(request.url),
            request.url@ == self.session().standard_pds@ + "/xrpc/app.bsky.feed.getFeedGenerators?"@
                + feeds_query(feeds@),
    {
        let mut url = self.standard_url("/xrpc/app.bsky.feed.getFeedGenerators?");
        let ghost head = url@;
        let mut i: usize = 0;
        proof {
            assert(feeds@.subrange(0, 0) =~= Seq::empty());
            assert(head + Seq::<char>::empty() =~= head);
        }
        while i < feeds.len()
            invariant
                i <= feeds.len(),
                url@ == head + feeds_query(feeds@.subrange(0, i as int)),
            decreases feeds.len() - i,
        {
            let ghost so_far = feeds_query(feeds@.subrange(0, i as int));
            url.append("feeds=");
            url.append(feeds[i].as_str());
            url.append("&");
            proof {
                let next = feeds@.subrange(0, i + 1);
                assert(next.drop_last() =~= feeds@.subrange(0, i as int));
                assert(next.last() == feeds@[i as int]);
                assert(url@ =~= head + (so_far + "feeds="@ + feeds@[i as int]@ + "&"@));
            }
            i = i + 1;
        }
        proof {
            assert(feeds@.subrange(0, i as int) =~= feeds@);
        }
        ClientBackend::get(url)
    }

    /// Ends the fetch of feed generators: the generators of the response.
    pub fn get_feed_generators(
        &self,
        reply: Result<Decoded<FeedGeneratorsResponse>, BlueskyApiError>,
    ) -> (result: Result<Vec<GeneratorView>, BlueskyApiError>)
        ensures
            match settled(reply) {
                Ok(response) => result == Ok::<Vec<GeneratorView>, BlueskyApiError>(response.feeds),
                Err(error) => result == Err::<Vec<GeneratorView>, BlueskyApiError>(error),
            },
    {
        match settle(reply) {
            Ok(response) => Ok(response.feeds),
            Err(error) => Err(error),
        }
    }
}

} // verus!
