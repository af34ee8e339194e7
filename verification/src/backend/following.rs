//! The followers of an account.

use crate::backend::{settle, settled, BlueskyApiError, ClientBackend, Decoded, HttpRequest};
use crate::defs::actor::ProfileView;
use vstd::prelude::*;
use vstd::string::StringExecFns;

verus! {

#[derive(Debug)]
pub struct GetFollowersResponse {
    pub subject: ProfileView,
    pub followers: Vec<ProfileView>,
    pub cursor: Option<String>,
}

impl ClientBackend {
    /// The request for a page of the followers of `did`, from `cursor` on.
    pub fn get_followers_request(&self, did: String, cursor: String) -> (request: HttpRequest)
        ensures
            request == ClientBackend::spec_get(request.url),
            request.url@ == self.session().standard_pds@ + "/xrpc/app.bsky.graph.getFollowers?actor="@
                + did@ + "&cursor="@ + cursor@,
    {
        let mut url = self.standard_url("/xrpc/app.bsky.graph.getFollowers?actor=");
        url.append(did.as_str());
        url.append("&cursor=");
        url.append(cursor.as_str());
        ClientBackend::get(url)
    }

    /// Ends the fetch of a page of followers: the cursor for the next page,
    /// empty where the response has none, and the followers.
    pub fn get_followers(&self, reply: Result<Decoded<GetFollowersResponse>, BlueskyApiError>) -> (result:
        Result<(String, Vec<ProfileView>), BlueskyApiError>)
        ensures
            match settled(reply) {
                Ok(response) => result matches Ok(page) && page.1 == response.followers
                    && match response.cursor {
                    Some(c) => page.0 == c,
                    None => page.0@ == Seq::<char>::empty(),
                },
                Err(error) => result matches Err(e) && e == error,
            },
    {
        match settle(reply) {
            Ok(response) => {
                let GetFollowersResponse { subject: _, followers, cursor } = response;
                let cursor = match cursor {
                    Some(c) => c,
                    None => String::new(),
                };
                Ok((cursor, followers))
            },
            Err(error) => Err(error),
        }
    }
}

} // verus!
