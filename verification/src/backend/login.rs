//! Logging in, refreshing the session, and reading the expiry of an access
//! token.

use crate::backend::text::{find_char, first_char, str_eq};
use crate::backend::{
    ClientBackend, HttpMethod, HttpRequest, RequestBody, Session, STATUS_BAD_REQUEST,
    STATUS_TOO_MANY_REQUESTS, STATUS_UNAUTHORIZED,
};
use base64::Engine;
use vstd::prelude::*;
use vstd::string::{StrSliceExecFns, StringExecFns, StringSliceAdditionalSpecFns};
use vstd::utf8::*;

verus! {

#[derive(Debug, Clone, Copy, PartialEq, Eq, Structural)]
pub enum BlueskyLoginResponseInfo {
    WasntLoggedIn,
    TwoFactorTokenRequired,
}

/// Why a login did not go through.
#[derive(Debug)]
pub enum BlueskyLoginResponseError {
    Generic(String),
    Network(String),
    InvalidRequest,
    ExpiredToken,
    InvalidToken,
    AccountTakenDown,
    AccountSuspended,
    AccountInactive,
    AccountDeactivated,
    Unauthorized,
}

/// What a login gives: the account id, and the refresh token to keep.
#[derive(Debug)]
pub struct LoginInformation {
    pub did: String,
    pub refresh_token: String,
}

/// What a login or a refresh came to.
#[derive(Debug)]
pub enum BlueskyLoginResponse {
    Success(LoginInformation),
    Info(BlueskyLoginResponseInfo),
    Error(BlueskyLoginResponseError),
}

/// A service that an identity document lists.
#[derive(Debug, Clone)]
pub struct AtProtoService {
    pub id: String,
    /// The wire field `type`.
    pub kind: String,
    pub service_endpoint: String,
}

/// The identity document of an account.
#[derive(Debug, Clone)]
pub struct DidDoc {
    pub context: Vec<serde_json::Value>,
    pub id: String,
    pub also_known_as: Vec<String>,
    pub verification_method: Option<Vec<serde_json::Value>>,
    pub service: Vec<AtProtoService>,
}

/// The body of a successful answer to a login or a refresh.
#[derive(Debug, Clone)]
pub struct BlueskyApiLoginResponse {
    pub access_jwt: String,
    pub refresh_jwt: String,
    pub handle: String,
    pub did: String,
    pub did_doc: Option<DidDoc>,
    pub email: Option<String>,
    pub email_confirmed: Option<bool>,
    pub email_auth_factor: Option<bool>,
    pub active: Option<bool>,
    pub status: Option<String>,
}

/// The claims in the middle segment of an access token.
#[derive(Debug, Clone)]
pub struct JwtMidsection {
    pub scope: String,
    pub sub: String,
    pub iat: u64,
    /// When the token expires, in seconds since the Unix epoch.
    pub exp: u64,
    pub aud: String,
}

/// What came back for a login or a refresh.
#[derive(Debug)]
pub enum LoginReply {
    /// The request did not get through; `detail` says why.
    Failed { detail: String },
    /// The service answered with a status other than 200; `detail`
    /// describes the answer.
    Refused { status: u16, detail: String },
    /// The service answered 200, and the body could not be read.
    Unreadable,
    /// The service answered 200, and the body is not UTF-8.
    Undecodable,
    /// The service answered 200, and the body is no login response;
    /// `detail` holds the decoder's complaint and the body.
    Malformed { detail: String },
    /// The service answered 200 with a login response. `claims` holds what
    /// the text that `jwt_payload` gives for the access token decodes to, or
    /// nothing where either step fails.
    Accepted { response: BlueskyApiLoginResponse, claims: Option<JwtMidsection> },
}

/// How long an access token is taken to live when it does not say: two
/// hours, in seconds.
pub const FALLBACK_LIFETIME: i64 = 7200;

/// What base64's standard engine, which wants padding, decodes `input` to;
/// nothing where it refuses `input`.
pub uninterp spec fn base64_standard_decode(input: Seq<char>) -> Option<Seq<u8>>;

/// `Engine::decode` of base64's `STANDARD` engine: the decoded bytes, or
/// nothing where the engine reports an error. The result depends on the
/// input alone.
#[verifier::external_body]
fn base64_decode(input: &str) -> (decoded: Option<Vec<u8>>)
    ensures
        match decoded {
            Some(bytes) => base64_standard_decode(input@) == Some(bytes@),
            None => base64_standard_decode(input@) is None,
        },
{
    base64::engine::general_purpose::STANDARD.decode(input).ok()
}

/// `String::from_utf8`: the text that the bytes encode, when they are valid
/// UTF-8, and nothing otherwise.
#[verifier::external_body]
fn string_from_utf8(bytes: Vec<u8>) -> (text: Option<String>)
    ensures
        match text {
            Some(s) => valid_utf8(bytes@) && s@ == decode_utf8(bytes@),
            None => !valid_utf8(bytes@),
        },
{
    String::from_utf8(bytes).ok()
}

/// The middle segment of a token: the text between its first and its
/// second dot, or behind its first dot where there is no second one.
/// A token without a dot has none.
pub open spec fn claims_segment(token: Seq<char>) -> Option<Seq<char>> {
    let first = first_char(token, '.', 0);
    if first >= token.len() {
        None
    } else {
        Some(token.subrange(first + 1, first_char(token, '.', first + 1)))
    }
}

/// As many `=` as `count` says, for a count below four.
pub open spec fn padding(count: nat) -> Seq<char> {
    if count == 0 {
        Seq::empty()
    } else if count == 1 {
        "="@
    } else if count == 2 {
        "=="@
    } else {
        "==="@
    }
}

/// How many bytes a text of `length` bytes is short of the next multiple
/// of four.
pub open spec fn missing(length: nat) -> nat {
    ((4 - length % 4) % 4) as nat
}

/// The segment with as many `=` behind it as its length in bytes is short
/// of a multiple of four.
pub open spec fn padded(segment: Seq<char>) -> Seq<char> {
    segment + padding(missing(encode_utf8(segment).len()))
}

/// The text that decoded bytes hold, where there are bytes and they are
/// valid UTF-8.
pub open spec fn payload_text(decoded: Option<Seq<u8>>) -> Option<Seq<char>> {
    match decoded {
        Some(bytes) => if valid_utf8(bytes) {
            Some(decode_utf8(bytes))
        } else {
            None
        },
        None => None,
    }
}

/// The claims text of an access token: its middle segment, padded, decoded
/// from base64 and read as UTF-8.
pub open spec fn payload_of(token: Seq<char>) -> Option<Seq<char>> {
    match claims_segment(token) {
        Some(segment) => payload_text(base64_standard_decode(padded(segment))),
        None => None,
    }
}

/// When a token expires: what its claims say, where there are claims and
/// the time fits; otherwise two hours after `now`, or `now` itself where
/// that cannot be told.
pub open spec fn expiry_of(claims: Option<JwtMidsection>, now: i64) -> i64 {
    match claims {
        Some(c) if c.exp <= i64::MAX => c.exp as i64,
        _ => if now <= i64::MAX - FALLBACK_LIFETIME {
            (now + FALLBACK_LIFETIME) as i64
        } else {
            now
        },
    }
}

/// The login error that tells why an account is not active.
pub open spec fn is_account_error(status: Option<String>, error: BlueskyLoginResponseError) -> bool {
    match status {
        Some(s) if s@ == "takendown"@ => error is AccountTakenDown,
        Some(s) if s@ == "suspended"@ => error is AccountSuspended,
        Some(s) if s@ == "deactivated"@ => error is AccountDeactivated,
        _ => error is AccountInactive,
    }
}

/// The endpoint for the account's data after a login response: the first
/// service of its identity document, or the one from before where the
/// response lists none.
pub open spec fn endpoint_after(before: String, response: BlueskyApiLoginResponse) -> String {
    match response.did_doc {
        Some(doc) if doc.service.len() > 0 => doc.service[0].service_endpoint,
        _ => before,
    }
}

/// The session and the result that a reply to a login or a refresh leads
/// to, from the session `before` at time `now`.
pub open spec fn login_outcome(
    before: Session,
    reply: LoginReply,
    now: i64,
    after: Session,
    result: BlueskyLoginResponse,
) -> bool {
    match reply {
        LoginReply::Failed { detail } => {
            &&& after == before
            &&& result matches BlueskyLoginResponse::Error(BlueskyLoginResponseError::Network(d))
            &&& d == detail
        },
        LoginReply::Refused { status, detail } => {
            &&& after == before
            &&& result matches BlueskyLoginResponse::Error(error)
            &&& if status == STATUS_UNAUTHORIZED {
                error is Unauthorized
            } else if status == STATUS_BAD_REQUEST {
                error matches BlueskyLoginResponseError::Network(d) && d@ == "Bad Request"@
            } else if status == STATUS_TOO_MANY_REQUESTS {
                error matches BlueskyLoginResponseError::Network(d) && d@ == "Rate Limited"@
            } else {
                error matches BlueskyLoginResponseError::Generic(d) && d == detail
            }
        },
        LoginReply::Unreadable => {
            &&& after == before
            &&& result matches BlueskyLoginResponse::Error(BlueskyLoginResponseError::Generic(d))
            &&& d@ == "Failed to read response"@
        },
        LoginReply::Undecodable => {
            &&& after == before
            &&& result matches BlueskyLoginResponse::Error(BlueskyLoginResponseError::Generic(d))
            &&& d@ == "Failed to decode response"@
        },
        LoginReply::Malformed { detail } => {
            &&& after == before
            &&& result matches BlueskyLoginResponse::Error(BlueskyLoginResponseError::Generic(d))
            &&& d == detail
        },
        LoginReply::Accepted { response, claims } => {
            if response.active == Some(true) {
                &&& after == (Session {
                    did: response.did,
                    access_token: response.access_jwt,
                    user_pds: endpoint_after(before.user_pds, response),
                    refresh_token: response.refresh_jwt,
                    access_token_expiry: expiry_of(claims, now),
                    standard_pds: before.standard_pds,
                })
                &&& result matches BlueskyLoginResponse::Success(info)
                &&& info.did == response.did
                &&& info.refresh_token == response.refresh_jwt
            } else {
                &&& after == before
                &&& result matches BlueskyLoginResponse::Error(error)
                &&& is_account_error(response.status, error)
            }
        },
    }
}

/// The text of decoded claims bytes. Nothing where decoding gave nothing or
/// the bytes are not UTF-8.
pub fn payload_from_decoded(decoded: Option<Vec<u8>>) -> (payload: Option<String>)
    ensures
        match payload {
            Some(p) => payload_text(
                match decoded {
                    Some(bytes) => Some(bytes@),
                    None => None,
                },
            ) == Some(p@),
            None => payload_text(
                match decoded {
                    Some(bytes) => Some(bytes@),
                    None => None,
                },
            ) is None,
        },
{
    match decoded {
        Some(bytes) => string_from_utf8(bytes),
        None => None,
    }
}

/// The claims text of an access token, for a decoder to read the claims
/// from.
///
/// The text between the first and the second dot of the token is padded
/// with `=` to a multiple of four bytes, decoded with base64's standard
/// alphabet, and read as UTF-8.
/// Nothing comes back where the token has no dot, or where either step
/// fails.
pub fn jwt_payload(access_token: &str) -> (payload: Option<String>)
    ensures
        match payload {
            Some(p) => payload_of(access_token@) == Some(p@),
            None => payload_of(access_token@) is None,
        },
{
    let count = access_token.unicode_len();
    let first = find_char(access_token, count, '.', 0);
    if first >= count {
        return None;
    }
    let second = find_char(access_token, count, '.', first + 1);
    let segment = access_token.substring_char(first + 1, second);
    let short = (4 - segment.as_bytes().len() % 4) % 4;
    let mut text = String::from_str(segment);
    if short == 1 {
        text.append("=");
    } else if short == 2 {
        text.append("==");
    } else if short == 3 {
        text.append("===");
    }
    proof {
        assert(segment.spec_bytes() == encode_utf8(segment@));
        assert(short == missing(encode_utf8(segment@).len()));
        assert(segment@ + Seq::<char>::empty() =~= segment@);
        assert(text@ =~= padded(segment@));
    }
    payload_from_decoded(base64_decode(text.as_str()))
}

/// When the access token of a login response expires, given what its
/// claims decoded to and the time now.
pub fn token_expiry(claims: &Option<JwtMidsection>, now: i64) -> (expiry: i64)
    ensures
        expiry == expiry_of(*claims, now),
{
    match claims {
        Some(c) if c.exp <= 0x7fff_ffff_ffff_ffffu64 => c.exp as i64,
        _ => {
            if now <= i64::MAX - FALLBACK_LIFETIME {
                now + FALLBACK_LIFETIME
            } else {
                now
            }
        },
    }
}

/// Why an account that is not active is not: taken down, suspended or
/// deactivated, looked for in that order; any other status, or none, gives
/// `AccountInactive`.
pub fn account_error(status: &Option<String>) -> (error: BlueskyLoginResponseError)
    ensures
        is_account_error(*status, error),
{
    match status {
        Some(s) => {
            if str_eq(s.as_str(), "takendown") {
                BlueskyLoginResponseError::AccountTakenDown
            } else if str_eq(s.as_str(), "suspended") {
                BlueskyLoginResponseError::AccountSuspended
            } else if str_eq(s.as_str(), "deactivated") {
                BlueskyLoginResponseError::AccountDeactivated
            } else {
                BlueskyLoginResponseError::AccountInactive
            }
        },
        None => BlueskyLoginResponseError::AccountInactive,
    }
}

impl ClientBackend {
    /// The request that logs in with a handle and a password.
    pub fn login(&self, handle: String, password: String) -> (request: HttpRequest)
        ensures
            request.method == HttpMethod::Post,
            request.url@ == self.session().user_pds@ + "/xrpc/com.atproto.server.createSession"@,
            request.bearer is None,
            request.content_type is None,
            request.body matches RequestBody::Fields(fields) && fields@.len() == 2
                && fields@[0].0@ == "identifier"@ && fields@[0].1 == handle && fields@[1].0@
                == "password"@ && fields@[1].1 == password,
    {
        let mut url = self.session.user_pds.clone();
        url.append("/xrpc/com.atproto.server.createSession");
        let mut fields: Vec<(String, String)> = Vec::new();
        fields.push((String::from_str("identifier"), handle));
        fields.push((String::from_str("password"), password));
        HttpRequest {
            method: HttpMethod::Post,
            url,
            bearer: None,
            content_type: None,
            body: RequestBody::Fields(fields),
        }
    }

    /// The request that trades a refresh token for a new session.
    pub fn login_refresh(&self, refresh_token: String) -> (request: HttpRequest)
        ensures
            request.method == HttpMethod::Post,
            request.url@ == self.session().user_pds@ + "/xrpc/com.atproto.server.refreshSession"@,
            request.bearer == Some(refresh_token),
            request.content_type is None,
            request.body is Empty,
    {
        let mut url = self.session.user_pds.clone();
        url.append("/xrpc/com.atproto.server.refreshSession");
        HttpRequest {
            method: HttpMethod::Post,
            url,
            bearer: Some(refresh_token),
            content_type: None,
            body: RequestBody::Empty,
        }
    }

    /// Takes in the reply to a login or a refresh.
    ///
    /// A reply without a login response leaves the session as it is and
    /// gives the error for it: a failed send and the statuses 400 and 429
    /// are network errors, 401 is `Unauthorized`, everything else is a
    /// generic error.
    ///
    /// A login response of an account that is not active leaves the session
    /// as it is too, and gives the error for the account's status.
    ///
    /// A login response of an active account fills the session: the
    /// account id, both tokens, the expiry of the access token, and the
    /// account's endpoint where the identity document lists a service. The
    /// result is the account id with the refresh token to keep.
    pub fn handle_login_response(&mut self, reply: LoginReply, now: i64) -> (result:
        BlueskyLoginResponse)
        ensures
            login_outcome(old(self).session(), reply, now, final(self).session(), result),
            final(self).posts() == old(self).posts(),
            final(self).wf() == old(self).wf(),
    {
        match reply {
            LoginReply::Failed { detail } => BlueskyLoginResponse::Error(
                BlueskyLoginResponseError::Network(detail),
            ),
            LoginReply::Refused { status, detail } => {
                if status == STATUS_UNAUTHORIZED {
                    BlueskyLoginResponse::Error(BlueskyLoginResponseError::Unauthorized)
                } else if status == STATUS_BAD_REQUEST {
                    BlueskyLoginResponse::Error(
                        BlueskyLoginResponseError::Network(String::from_str("Bad Request")),
                    )
                } else if status == STATUS_TOO_MANY_REQUESTS {
                    BlueskyLoginResponse::Error(
                        BlueskyLoginResponseError::Network(String::from_str("Rate Limited")),
                    )
                } else {
                    BlueskyLoginResponse::Error(BlueskyLoginResponseError::Generic(detail))
                }
            },
            LoginReply::Unreadable => BlueskyLoginResponse::Error(
                BlueskyLoginResponseError::Generic(String::from_str("Failed to read response")),
            ),
            LoginReply::Undecodable => BlueskyLoginResponse::Error(
                BlueskyLoginResponseError::Generic(String::from_str("Failed to decode response")),
            ),
            LoginReply::Malformed { detail } => BlueskyLoginResponse::Error(
                BlueskyLoginResponseError::Generic(detail),
            ),
            LoginReply::Accepted { response, claims } => {
                let BlueskyApiLoginResponse {
                    access_jwt,
                    refresh_jwt,
                    handle: _,
                    did,
                    did_doc,
                    email: _,
                    email_confirmed: _,
                    email_auth_factor: _,
                    active,
                    status,
                } = response;
                let is_active = match active {
                    Some(a) => a,
                    None => false,
                };
                if !is_active {
                    return BlueskyLoginResponse::Error(account_error(&status));
                }
                self.session.did = did;
                self.session.access_token = access_jwt;
                match did_doc {
                    Some(doc) => {
                        if doc.service.len() > 0 {
                            self.session.user_pds = doc.service[0].service_endpoint.clone();
                        }
                    },
                    None => {},
                }
                self.session.access_token_expiry = token_expiry(&claims, now);
                self.session.refresh_token = refresh_jwt.clone();
                BlueskyLoginResponse::Success(
                    LoginInformation { did: self.session.did.clone(), refresh_token: refresh_jwt },
                )
            },
        }
    }
}

} // verus!
