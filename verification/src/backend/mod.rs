//! The session and API client.
//!
//! The client never touches the network. For each operation it builds the
//! request as a plain value, and takes what came back as a plain value: the
//! caller sends the one and hands over the other. Every decision in between
//! is made here: whether the session has to be refreshed first, which token
//! goes out with the request, what a status code means, and which posts of a
//! response are already known to the cache.

use crate::backend::cache::{
    canonicalized, distinct_cids, mutated, LocalMutation, PostCache, PostHandle,
};
use crate::defs::feed::defs::PostView;
use crate::backend::login::{login_outcome, BlueskyLoginResponse, LoginReply};
use vstd::prelude::*;
use vstd::string::StringExecFns;

pub mod blob;
pub mod cache;
pub mod feeds;
pub mod following;
pub mod layout;
pub mod login;
pub mod profile;
pub mod record;
pub mod text;
pub mod thread;
pub mod timeline;

verus! {

/// The error body that the service sends with a 400 or a 401.
#[derive(Debug, Clone)]
pub struct BlueskyApiErrorMessage {
    pub error: String,
    pub message: String,
}

/// Why an operation against the service failed.
#[derive(Debug)]
pub enum BlueskyApiError {
    /// The service answered 400.
    BadRequest(BlueskyApiErrorMessage),
    /// The service answered 401.
    Unauthorized(BlueskyApiErrorMessage),
    /// The request did not get through; the text says why.
    NetworkError(String),
    /// A body could not be decoded: the decoder's complaint, then the body.
    ParseError(String, String),
    /// The client does not support the operation.
    NotImplemented,
}

#[derive(Debug, Clone, Copy, PartialEq, Eq, Structural)]
pub enum HttpMethod {
    Get,
    Post,
}

/// What a request carries.
#[derive(Debug)]
pub enum RequestBody {
    Empty,
    /// JSON text.
    Json(String),
    /// Raw bytes.
    Bytes(Vec<u8>),
    /// A JSON object of string fields, given as pairs of name and value.
    Fields(Vec<(String, String)>),
}

/// A request, ready to be sent.
#[derive(Debug)]
pub struct HttpRequest {
    pub method: HttpMethod,
    pub url: String,
    /// The bearer token to send, if any.
    pub bearer: Option<String>,
    /// The `content-type` header to send, if any.
    pub content_type: Option<String>,
    pub body: RequestBody,
}

/// What the service answered.
#[derive(Debug)]
pub struct HttpResponse {
    pub status: u16,
    pub body: String,
    /// The body decoded as an error message, or the decoder's complaint. It
    /// is read only for the statuses that carry an error message.
    pub error: Result<BlueskyApiErrorMessage, String>,
}

/// What became of a request.
#[derive(Debug)]
pub enum HttpReply {
    /// It could not be sent, or the answer could not be read.
    Failed { detail: String },
    Received(HttpResponse),
}

/// A body and what the decoder made of it: the value, or its complaint.
#[derive(Debug)]
pub struct Decoded<T> {
    pub body: String,
    pub value: Result<T, String>,
}

/// Identity, tokens and endpoints of the account that is logged in.
#[derive(Debug)]
pub struct Session {
    pub did: String,
    /// The endpoint for reads that need no account.
    pub standard_pds: String,
    /// The endpoint that holds the account's data and takes writes.
    pub user_pds: String,
    pub access_token: String,
    pub refresh_token: String,
    /// When the access token expires, in seconds since the Unix epoch.
    pub access_token_expiry: i64,
}

/// The client: the session of the account, and the cache of posts.
pub struct ClientBackend {
    session: Session,
    post_cache: PostCache,
}

/// What to do first for a request.
#[derive(Debug)]
pub enum RequestStep {
    /// The access token has expired. Send `refresh`, hand the reply to
    /// `after_refresh` together with `request`, and send what that returns.
    RefreshFirst { refresh: HttpRequest, request: HttpRequest },
    /// Send this request.
    Send(HttpRequest),
}

pub const STATUS_OK: u16 = 200;

pub const STATUS_BAD_REQUEST: u16 = 400;

pub const STATUS_UNAUTHORIZED: u16 = 401;

pub const STATUS_TOO_MANY_REQUESTS: u16 = 429;

/// The access token is no longer good at time `now`.
pub open spec fn expired(session: Session, now: i64) -> bool {
    now >= session.access_token_expiry
}

/// `request` with `token` as its bearer token, and nothing else changed.
pub open spec fn with_bearer(request: HttpRequest, token: String) -> HttpRequest {
    HttpRequest { bearer: Some(token), ..request }
}

/// `step` sends `request` with the access token of the session.
pub open spec fn is_send(session: Session, request: HttpRequest, step: RequestStep) -> bool {
    step matches RequestStep::Send(sent) && sent == with_bearer(request, session.access_token)
}

/// `step` is what a request starts with at time `now`: the refresh of the
/// session, with `request` kept for later, where the access token has
/// expired, and `request` with the access token otherwise.
pub open spec fn is_first_step(
    session: Session,
    request: HttpRequest,
    now: i64,
    step: RequestStep,
) -> bool {
    if expired(session, now) {
        &&& step matches RequestStep::RefreshFirst { refresh, request: kept }
        &&& kept == request
        &&& refresh.method == HttpMethod::Post
        &&& refresh.url@ == session.user_pds@ + "/xrpc/com.atproto.server.refreshSession"@
        &&& refresh.bearer == Some(session.refresh_token)
        &&& refresh.body is Empty
        &&& refresh.content_type is None
    } else {
        is_send(session, request, step)
    }
}

/// A request whose access token has expired by the time it is made is
/// sent after exactly one refresh: the first step is the refresh, and the
/// step after it sends the request, whatever the refresh came to. A
/// request whose access token is still good is sent at once, without a
/// refresh.
pub proof fn law_refresh_once_before_send(
    session: Session,
    request: HttpRequest,
    now: i64,
    first: RequestStep,
    refreshed: Session,
    second: RequestStep,
)
    requires
        is_first_step(session, request, now, first),
        first is RefreshFirst ==> is_send(refreshed, first->RefreshFirst_request, second),
    ensures
        now >= session.access_token_expiry <==> first is RefreshFirst,
        now < session.access_token_expiry <==> first is Send,
        first is RefreshFirst ==> is_send(refreshed, request, second),
        first is Send ==> is_send(session, request, first),
{
}

/// `after` is the client `before` with the viewer's change recorded for
/// the post that `handle` names; a handle that names no stored post
/// changes nothing.
pub open spec fn locally_mutated(
    before: ClientBackend,
    handle: PostHandle,
    mutation: LocalMutation,
    after: ClientBackend,
) -> bool {
    &&& after.session() == before.session()
    &&& after.posts() == if handle.index < before.posts().len() {
        before.posts().update(
            handle.index as int,
            mutated(before.posts()[handle.index as int], mutation),
        )
    } else {
        before.posts()
    }
}

/// What a reply means for the caller of an operation.
pub open spec fn classified(reply: HttpReply) -> Result<String, BlueskyApiError> {
    match reply {
        HttpReply::Failed { detail } => Err(BlueskyApiError::NetworkError(detail)),
        HttpReply::Received(response) => {
            if response.status == STATUS_UNAUTHORIZED {
                match response.error {
                    Ok(message) => Err(BlueskyApiError::Unauthorized(message)),
                    Err(detail) => Err(BlueskyApiError::ParseError(detail, response.body)),
                }
            } else if response.status == STATUS_BAD_REQUEST {
                match response.error {
                    Ok(message) => Err(BlueskyApiError::BadRequest(message)),
                    Err(detail) => Err(BlueskyApiError::ParseError(detail, response.body)),
                }
            } else {
                Ok(response.body)
            }
        },
    }
}

/// The decoded value, or the parse error that holds the decoder's complaint
/// and the body.
pub open spec fn parsed<T>(decoded: Decoded<T>) -> Result<T, BlueskyApiError> {
    match decoded.value {
        Ok(value) => Ok(value),
        Err(detail) => Err(BlueskyApiError::ParseError(detail, decoded.body)),
    }
}

/// Classifies a reply: a failed send is a network error; a 401 or a 400 is
/// the error of that name with the decoded error message, or a parse error
/// with the body where the message could not be decoded; every other status
/// hands back the body as it came.
pub fn classify(reply: HttpReply) -> (result: Result<String, BlueskyApiError>)
    ensures
        result == classified(reply),
{
    match reply {
        HttpReply::Failed { detail } => Err(BlueskyApiError::NetworkError(detail)),
        HttpReply::Received(response) => {
            let HttpResponse { status, body, error } = response;
            if status == STATUS_UNAUTHORIZED {
                match error {
                    Ok(message) => Err(BlueskyApiError::Unauthorized(message)),
                    Err(detail) => Err(BlueskyApiError::ParseError(detail, body)),
                }
            } else if status == STATUS_BAD_REQUEST {
                match error {
                    Ok(message) => Err(BlueskyApiError::BadRequest(message)),
                    Err(detail) => Err(BlueskyApiError::ParseError(detail, body)),
                }
            } else {
                Ok(body)
            }
        },
    }
}

/// What an operation ends with: the decoded value where the request went
/// through and its body was decoded, the error otherwise.
pub open spec fn settled<T>(reply: Result<Decoded<T>, BlueskyApiError>) -> Result<
    T,
    BlueskyApiError,
> {
    match reply {
        Ok(decoded) => parsed(decoded),
        Err(error) => Err(error),
    }
}

/// Ends an operation whose result is the decoded body itself.
pub fn settle<T>(reply: Result<Decoded<T>, BlueskyApiError>) -> (result: Result<T, BlueskyApiError>)
    ensures
        result == settled(reply),
{
    match reply {
        Ok(decoded) => finish(decoded),
        Err(error) => Err(error),
    }
}

/// Turns a decoded body into the result of an operation.
pub fn finish<T>(decoded: Decoded<T>) -> (result: Result<T, BlueskyApiError>)
    ensures
        result == parsed(decoded),
{
    let Decoded { body, value } = decoded;
    match value {
        Ok(value) => Ok(value),
        Err(detail) => Err(BlueskyApiError::ParseError(detail, body)),
    }
}

impl ClientBackend {
    /// The session as it stands.
    pub closed spec fn session(&self) -> Session {
        self.session
    }

    /// The posts that the cache holds.
    pub closed spec fn posts(&self) -> Seq<PostView> {
        self.post_cache@
    }

    /// The cache is well formed: its index knows each stored post by its
    /// content id.
    pub closed spec fn wf(&self) -> bool {
        self.post_cache.wf()
    }

    /// A client that is well formed holds no content id twice in its cache.
    pub proof fn lemma_wf(&self)
        requires
            self.wf(),
        ensures
            distinct_cids(self.posts()),
    {
        self.post_cache.lemma_wf();
    }

    /// The session, to look at.
    pub fn session_ref(&self) -> (session: &Session)
        ensures
            *session == self.session(),
    {
        &self.session
    }

    /// The cache, to look at.
    pub fn cache(&self) -> (cache: &PostCache)
        ensures
            cache@ == self.posts(),
            cache.wf() == self.wf(),
    {
        &self.post_cache
    }

    /// A client that is not logged in. Its cache is empty, its endpoints are
    /// the public ones, and its access token counts as expired from `now`
    /// on.
    pub fn new(now: i64) -> (client: ClientBackend)
        ensures
            client.session().did@ == Seq::<char>::empty(),
            client.session().standard_pds@ == "https://public.api.bsky.app"@,
            client.session().user_pds@ == "https://bsky.social"@,
            client.session().access_token@ == Seq::<char>::empty(),
            client.session().refresh_token@ == Seq::<char>::empty(),
            client.session().access_token_expiry == now,
            client.posts() == Seq::<PostView>::empty(),
            client.wf(),
    {
        ClientBackend {
            session: Session {
                did: String::new(),
                standard_pds: String::from_str("https://public.api.bsky.app"),
                user_pds: String::from_str("https://bsky.social"),
                access_token: String::new(),
                refresh_token: String::new(),
                access_token_expiry: now,
            },
            post_cache: PostCache::new(),
        }
    }

    /// Says what to send first for `request` at time `now`.
    ///
    /// If the access token has expired (`now` is at or past its expiry),
    /// the session is refreshed first, with the refresh token of the
    /// session. Otherwise `request` goes out at once, with the access token
    /// as its bearer token.
    pub fn make_request(&self, request: HttpRequest, now: i64) -> (step: RequestStep)
        ensures
            is_first_step(self.session(), request, now, step),
    {
        if self.needs_refresh(now) {
            let refresh = self.login_refresh(self.session.refresh_token.clone());
            RequestStep::RefreshFirst { refresh, request }
        } else {
            self.authorize(request)
        }
    }

    /// Takes in the reply to the refresh that `make_request` asked for, and
    /// hands back the request to send.
    ///
    /// Whatever the refresh came to, the request goes out, with the access
    /// token that the session holds now: a failed refresh does not stop
    /// it. No second refresh is asked for.
    pub fn after_refresh(&mut self, request: HttpRequest, reply: LoginReply, now: i64) -> (step:
        RequestStep)
        ensures
            exists|result: BlueskyLoginResponse|
                login_outcome(old(self).session(), reply, now, final(self).session(), result),
            is_send(final(self).session(), request, step),
            final(self).posts() == old(self).posts(),
            final(self).wf() == old(self).wf(),
    {
        let _ = self.handle_login_response(reply, now);
        self.authorize(request)
    }

    fn authorize(&self, request: HttpRequest) -> (step: RequestStep)
        ensures
            is_send(self.session(), request, step),
    {
        let HttpRequest { method, url, bearer: _, content_type, body } = request;
        RequestStep::Send(
            HttpRequest {
                method,
                url,
                bearer: Some(self.session.access_token.clone()),
                content_type,
                body,
            },
        )
    }

    /// The GET request for `url`, without token or body.
    pub open spec fn spec_get(url: String) -> HttpRequest {
        HttpRequest {
            method: HttpMethod::Get,
            url,
            bearer: None,
            content_type: None,
            body: RequestBody::Empty,
        }
    }

    /// A GET request without token or body.
    pub fn get(url: String) -> (request: HttpRequest)
        ensures
            request == ClientBackend::spec_get(url),
    {
        HttpRequest {
            method: HttpMethod::Get,
            url,
            bearer: None,
            content_type: None,
            body: RequestBody::Empty,
        }
    }

    /// The text that starts with the account's endpoint and goes on with
    /// `path`.
    pub fn user_url(&self, path: &str) -> (url: String)
        ensures
            url@ == self.session().user_pds@ + path@,
    {
        let mut url = self.session.user_pds.clone();
        url.append(path);
        url
    }

    /// The text that starts with the public endpoint and goes on with
    /// `path`.
    pub fn standard_url(&self, path: &str) -> (url: String)
        ensures
            url@ == self.session().standard_pds@ + path@,
    {
        let mut url = self.session.standard_pds.clone();
        url.append(path);
        url
    }

    /// Takes `post` into the cache and hands back the handle under which it
    /// is stored from now on: the handle that its content id has had since
    /// it was first seen, with the stored post overwritten by `post` in
    /// normal form, or a new handle for a content id that is new. The
    /// session stays as it is.
    pub fn deduplicate_post(&mut self, post: PostView) -> (handle: PostHandle)
        requires
            old(self).wf(),
        ensures
            canonicalized(old(self).posts(), post, final(self).posts(), handle.index as int),
            final(self).session() == old(self).session(),
            final(self).wf(),
            handle.index < final(self).posts().len(),
    {
        self.post_cache.canonicalize(post)
    }

    /// Records in the cache a change that the viewer made to the post that
    /// `handle` names, and says whether `handle` names a stored post. The
    /// session stays as it is.
    pub fn apply_local_mutation(&mut self, handle: PostHandle, mutation: LocalMutation) -> (applied:
        bool)
        requires
            old(self).wf(),
        ensures
            locally_mutated(*old(self), handle, mutation, *final(self)),
            applied == (handle.index < old(self).posts().len()),
            final(self).wf(),
    {
        self.post_cache.apply_local_mutation(handle, mutation)
    }

    /// The access token has expired at time `now`.
    pub fn needs_refresh(&self, now: i64) -> (r: bool)
        ensures
            r == expired(self.session(), now),
    {
        now >= self.session.access_token_expiry
    }
}

} // verus!
