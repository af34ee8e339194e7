//! Profiles, the feed of one author, and the account's preferences.

use crate::backend::cache::PostHandle;
use crate::backend::timeline::feed_settled;
use crate::backend::{settle, settled, BlueskyApiError, ClientBackend, Decoded, HttpRequest};
use crate::defs::actor::{Preference, ProfileViewDetailed};
use crate::defs::feed::defs::{FeedCursorPair, PostView};
use vstd::prelude::*;
use vstd::string::StringExecFns;

verus! {

#[derive(Debug)]
pub struct PreferencesResponse {
    pub preferences: Vec<Preference>,
}

impl ClientBackend {
    /// The request for the profile of the account that is logged in.
    pub fn get_profile_self_request(&self) -> (request: HttpRequest)
        ensures
            request == ClientBackend::spec_get(request.url),
            request.url@ == self.session().standard_pds@ + "/xrpc/app.bsky.actor.getProfile?actor="@
                + self.session().did@,
    {
        self.get_profile_request(self.session.did.clone())
    }

    /// The request for the profile of `did`.
    pub fn get_profile_request(&self, did: String) -> (request: HttpRequest)
        ensures
            request == ClientBackend::spec_get(request.url),
            request.url@ == self.session().standard_pds@ + "/xrpc/app.bsky.actor.getProfile?actor="@
                + did@,
    {
        let mut url = self.standard_url("/xrpc/app.bsky.actor.getProfile?actor=");
        url.append(did.as_str());
        ClientBackend::get(url)
    }

    /// Ends the fetch of the profile of the account that is logged in.
    pub fn get_profile_self(
        &self,
        reply: Result<Decoded<ProfileViewDetailed>, BlueskyApiError>,
    ) -> (result: Result<ProfileViewDetailed, BlueskyApiError>)
        ensures
            result == settled(reply),
    {
        self.get_profile(reply)
    }

    /// Ends the fetch of a profile.
    pub fn get_profile(&self, reply: Result<Decoded<ProfileViewDetailed>, BlueskyApiError>) -> (result:
        Result<ProfileViewDetailed, BlueskyApiError>)
        ensures
            result == settled(reply),
    {
        settle(reply)
    }

    /// The request for a page of the posts of `did`, from `cursor` on.
    pub fn get_author_feed_request(&self, did: String, cursor: String) -> (request: HttpRequest)
        ensures
            request == ClientBackend::spec_get(request.url),
            request.url@ == self.session().user_pds@ + "/xrpc/app.bsky.feed.getAuthorFeed?actor="@
                + did@ + "&cursor="@ + cursor@,
    {
        let mut url = self.user_url("/xrpc/app.bsky.feed.getAuthorFeed?actor=");
        url.append(did.as_str());
        url.append("&cursor=");
        url.append(cursor.as_str());
        ClientBackend::get(url)
    }

    /// Ends the fetch of a page of an author's posts.
    pub fn get_author_feed(
        &mut self,
        reply: Result<Decoded<FeedCursorPair<PostView>>, BlueskyApiError>,
    ) -> (result: Result<FeedCursorPair<PostHandle>, BlueskyApiError>)
        requires
            old(self).wf(),
        ensures
            feed_settled(old(self).posts(), reply, final(self).posts(), result),
            final(self).wf(),
            final(self).session() == old(self).session(),
    {
        self.settle_feed(reply)
    }

    /// The request for the private preferences of the account.
    pub fn get_preferences_request(&self) -> (request: HttpRequest)
        ensures
            request == ClientBackend::spec_get(request.url),
            request.url@ == self.session().user_pds@ + "/xrpc/app.bsky.actor.getPreferences"@,
    {
        ClientBackend::get(self.user_url("/xrpc/app.bsky.actor.getPreferences"))
    }

    /// Ends the fetch of the preferences: the preferences of the response.
    pub fn get_preferences(&self, reply: Result<Decoded<PreferencesResponse>, BlueskyApiError>) -> (result:
        Result<Vec<Preference>, BlueskyApiError>)
        ensures
            match settled(reply) {
                Ok(response) => result == Ok::<Vec<Preference>, BlueskyApiError>(
                    response.preferences,
                ),
                Err(error) => result == Err::<Vec<Preference>, BlueskyApiError>(error),
            },
    {
        match settle(reply) {
            Ok(response) => Ok(response.preferences),
            Err(error) => Err(error),
        }
    }
}

} // verus!
