use skysync::backend::login::{
    account_error, jwt_payload, payload_from_decoded, token_expiry, AtProtoService,
    BlueskyApiLoginResponse, BlueskyLoginResponse, BlueskyLoginResponseError, DidDoc,
    JwtMidsection, LoginReply, FALLBACK_LIFETIME,
};
use skysync::backend::{ClientBackend, HttpMethod, RequestBody};

fn response(active: Option<bool>, status: Option<&str>) -> BlueskyApiLoginResponse {
    BlueskyApiLoginResponse {
        access_jwt: "head.eyJleHAiOjF9.sig".to_string(),
        refresh_jwt: "refresh-1".to_string(),
        handle: "me.example".to_string(),
        did: "did:plc:me".to_string(),
        did_doc: None,
        email: None,
        email_confirmed: None,
        email_auth_factor: None,
        active,
        status: status.map(|s| s.to_string()),
    }
}

fn claims(exp: u64) -> JwtMidsection {
    JwtMidsection {
        scope: "com.atproto.access".to_string(),
        sub: "did:plc:me".to_string(),
        iat: 1,
        exp,
        aud: "did:web:pds.example".to_string(),
    }
}

fn error_of(result: BlueskyLoginResponse) -> BlueskyLoginResponseError {
    match result {
        BlueskyLoginResponse::Error(error) => error,
        other => panic!("not an error: {:?}", other),
    }
}

#[test]
fn the_claims_text_is_decoded_from_the_middle_segment() {
    assert_eq!(jwt_payload("head.eyJleHAiOjF9.sig"), Some("{\"exp\":1}".to_string()));
    assert_eq!(jwt_payload("head.eyJleHAiOjF9"), Some("{\"exp\":1}".to_string()));
    assert_eq!(jwt_payload(".aMOp."), Some("h\u{e9}".to_string()));
    assert_eq!(jwt_payload("a..c"), Some(String::new()));
}

#[test]
fn a_segment_is_padded_to_a_multiple_of_four() {
    assert_eq!(jwt_payload("h.eyJhIjoxfQ.s"), Some("{\"a\":1}".to_string()));
    assert_eq!(jwt_payload("h.eyJleHAiOjEyM30.s"), Some("{\"exp\":123}".to_string()));
    assert_eq!(jwt_payload("h.eyJleHAiOjF9.s"), Some("{\"exp\":1}".to_string()));
    assert_eq!(jwt_payload("h.YQ.s"), Some("a".to_string()));
    assert_eq!(jwt_payload("h.YWI.s"), Some("ab".to_string()));
    assert_eq!(jwt_payload("h.YWJj.s"), Some("abc".to_string()));
}

#[test]
fn a_segment_that_cannot_be_decoded_gives_no_claims_text() {
    assert_eq!(jwt_payload("no dots here"), None);
    assert_eq!(jwt_payload(""), None);
    assert_eq!(jwt_payload("h.ey!J.s"), None);
    assert_eq!(jwt_payload("h.e.s"), None);
    assert_eq!(jwt_payload("h.e-J_.s"), None);
    assert_eq!(jwt_payload("h.//79.s"), None);
}

#[test]
fn decoded_bytes_become_text_only_when_they_are_utf8() {
    assert_eq!(payload_from_decoded(Some(vec![0x68, 0xc3, 0xa9])), Some("h\u{e9}".to_string()));
    assert_eq!(payload_from_decoded(Some(vec![0xff, 0xfe])), None);
    assert_eq!(payload_from_decoded(Some(Vec::new())), Some(String::new()));
    assert_eq!(payload_from_decoded(None), None);
}

#[test]
fn the_expiry_comes_from_the_claims_or_is_two_hours_away() {
    assert_eq!(FALLBACK_LIFETIME, 7200);
    assert_eq!(token_expiry(&Some(claims(1_700_000_000)), 5), 1_700_000_000);
    assert_eq!(token_expiry(&None, 1_000), 8_200);
    assert_eq!(token_expiry(&Some(claims(u64::MAX)), 1_000), 8_200);
    assert_eq!(token_expiry(&Some(claims(i64::MAX as u64)), 1_000), i64::MAX);
    assert_eq!(token_expiry(&None, i64::MAX - 10), i64::MAX - 10);
    assert_eq!(token_expiry(&None, -7200), 0);
}

#[test]
fn account_status_maps_to_its_error() {
    assert!(matches!(
        account_error(&Some("takendown".to_string())),
        BlueskyLoginResponseError::AccountTakenDown
    ));
    assert!(matches!(
        account_error(&Some("suspended".to_string())),
        BlueskyLoginResponseError::AccountSuspended
    ));
    assert!(matches!(
        account_error(&Some("deactivated".to_string())),
        BlueskyLoginResponseError::AccountDeactivated
    ));
    assert!(matches!(
        account_error(&Some("something else".to_string())),
        BlueskyLoginResponseError::AccountInactive
    ));
    assert!(matches!(account_error(&None), BlueskyLoginResponseError::AccountInactive));
}

#[test]
fn a_suspended_account_is_told_so() {
    let mut client = ClientBackend::new(100);
    let reply =
        LoginReply::Accepted { response: response(Some(false), Some("suspended")), claims: None };
    let error = error_of(client.handle_login_response(reply, 100));
    assert!(matches!(error, BlueskyLoginResponseError::AccountSuspended));
}

#[test]
fn a_taken_down_account_is_told_so() {
    let mut client = ClientBackend::new(100);
    let reply =
        LoginReply::Accepted { response: response(Some(false), Some("takendown")), claims: None };
    let error = error_of(client.handle_login_response(reply, 100));
    assert!(matches!(error, BlueskyLoginResponseError::AccountTakenDown));
}

#[test]
fn an_account_without_word_on_activity_counts_as_inactive() {
    let mut client = ClientBackend::new(100);
    let reply = LoginReply::Accepted { response: response(None, None), claims: Some(claims(9)) };
    let error = error_of(client.handle_login_response(reply, 100));
    assert!(matches!(error, BlueskyLoginResponseError::AccountInactive));
    let session = client.session_ref();
    assert_eq!(session.did, "");
    assert_eq!(session.access_token, "");
    assert_eq!(session.refresh_token, "");
    assert_eq!(session.access_token_expiry, 100);
    assert_eq!(session.user_pds, "https://bsky.social");
}

#[test]
fn a_login_that_fails_leaves_the_session_of_the_login_before() {
    let mut client = ClientBackend::new(100);
    let first = LoginReply::Accepted { response: response(Some(true), None), claims: Some(claims(4_000)) };
    assert!(matches!(client.handle_login_response(first, 100), BlueskyLoginResponse::Success(_)));
    let before = format!("{:?}", client.session_ref());
    let mut other = response(Some(false), Some("deactivated"));
    other.did = "did:plc:other".to_string();
    other.access_jwt = "other-access".to_string();
    other.refresh_jwt = "other-refresh".to_string();
    other.did_doc = Some(DidDoc {
        context: Vec::new(),
        id: "did:plc:other".to_string(),
        also_known_as: Vec::new(),
        verification_method: None,
        service: vec![AtProtoService {
            id: "#atproto_pds".to_string(),
            kind: "AtprotoPersonalDataServer".to_string(),
            service_endpoint: "https://other.example".to_string(),
        }],
    });
    let replies = vec![
        LoginReply::Accepted { response: other, claims: Some(claims(9_000)) },
        LoginReply::Failed { detail: "offline".to_string() },
        LoginReply::Refused { status: 401, detail: String::new() },
        LoginReply::Refused { status: 400, detail: String::new() },
        LoginReply::Refused { status: 429, detail: String::new() },
        LoginReply::Refused { status: 503, detail: String::new() },
        LoginReply::Unreadable,
        LoginReply::Undecodable,
        LoginReply::Malformed { detail: "bad".to_string() },
    ];
    for reply in replies {
        assert!(matches!(client.handle_login_response(reply, 200), BlueskyLoginResponse::Error(_)));
        assert_eq!(format!("{:?}", client.session_ref()), before);
    }
}

#[test]
fn a_login_fills_the_session() {
    let mut client = ClientBackend::new(100);
    let mut accepted = response(Some(true), None);
    accepted.did_doc = Some(DidDoc {
        context: Vec::new(),
        id: "did:plc:me".to_string(),
        also_known_as: vec!["at://me.example".to_string()],
        verification_method: None,
        service: vec![
            AtProtoService {
                id: "#atproto_pds".to_string(),
                kind: "AtprotoPersonalDataServer".to_string(),
                service_endpoint: "https://pds.example".to_string(),
            },
            AtProtoService {
                id: "#other".to_string(),
                kind: "Other".to_string(),
                service_endpoint: "https://other.example".to_string(),
            },
        ],
    });
    let reply = LoginReply::Accepted { response: accepted, claims: Some(claims(4_000)) };
    match client.handle_login_response(reply, 100) {
        BlueskyLoginResponse::Success(info) => {
            assert_eq!(info.did, "did:plc:me");
            assert_eq!(info.refresh_token, "refresh-1");
        }
        other => panic!("not a success: {:?}", other),
    }
    let session = client.session_ref();
    assert_eq!(session.did, "did:plc:me");
    assert_eq!(session.access_token, "head.eyJleHAiOjF9.sig");
    assert_eq!(session.refresh_token, "refresh-1");
    assert_eq!(session.access_token_expiry, 4_000);
    assert_eq!(session.user_pds, "https://pds.example");
    assert_eq!(session.standard_pds, "https://public.api.bsky.app");
}

#[test]
fn a_login_without_claims_expires_in_two_hours() {
    let mut client = ClientBackend::new(100);
    let reply = LoginReply::Accepted { response: response(Some(true), None), claims: None };
    assert!(matches!(
        client.handle_login_response(reply, 1_000),
        BlueskyLoginResponse::Success(_)
    ));
    assert_eq!(client.session_ref().access_token_expiry, 8_200);
    assert_eq!(client.session_ref().user_pds, "https://bsky.social");
}

#[test]
fn an_empty_service_list_keeps_the_endpoint() {
    let mut client = ClientBackend::new(100);
    let mut accepted = response(Some(true), None);
    accepted.did_doc = Some(DidDoc {
        context: Vec::new(),
        id: "did:plc:me".to_string(),
        also_known_as: Vec::new(),
        verification_method: None,
        service: Vec::new(),
    });
    client.handle_login_response(LoginReply::Accepted { response: accepted, claims: None }, 1);
    assert_eq!(client.session_ref().user_pds, "https://bsky.social");
}

#[test]
fn replies_without_a_login_response_give_their_error() {
    let mut client = ClientBackend::new(100);
    let failed = LoginReply::Failed { detail: "no route".to_string() };
    assert!(matches!(
        error_of(client.handle_login_response(failed, 100)),
        BlueskyLoginResponseError::Network(d) if d == "no route"
    ));
    let refused = |status: u16| LoginReply::Refused { status, detail: "what came".to_string() };
    assert!(matches!(
        error_of(client.handle_login_response(refused(401), 100)),
        BlueskyLoginResponseError::Unauthorized
    ));
    assert!(matches!(
        error_of(client.handle_login_response(refused(400), 100)),
        BlueskyLoginResponseError::Network(d) if d == "Bad Request"
    ));
    assert!(matches!(
        error_of(client.handle_login_response(refused(429), 100)),
        BlueskyLoginResponseError::Network(d) if d == "Rate Limited"
    ));
    assert!(matches!(
        error_of(client.handle_login_response(refused(500), 100)),
        BlueskyLoginResponseError::Generic(d) if d == "what came"
    ));
    assert!(matches!(
        error_of(client.handle_login_response(LoginReply::Unreadable, 100)),
        BlueskyLoginResponseError::Generic(d) if d == "Failed to read response"
    ));
    assert!(matches!(
        error_of(client.handle_login_response(LoginReply::Undecodable, 100)),
        BlueskyLoginResponseError::Generic(d) if d == "Failed to decode response"
    ));
    let malformed = LoginReply::Malformed { detail: "missing field\n{}".to_string() };
    assert!(matches!(
        error_of(client.handle_login_response(malformed, 100)),
        BlueskyLoginResponseError::Generic(d) if d == "missing field\n{}"
    ));
    let session = client.session_ref();
    assert_eq!(session.did, "");
    assert_eq!(session.access_token, "");
    assert_eq!(session.access_token_expiry, 100);
}

#[test]
fn login_requests_go_to_the_account_endpoint() {
    let client = ClientBackend::new(0);
    let login = client.login("me.example".to_string(), "secret".to_string());
    assert_eq!(login.method, HttpMethod::Post);
    assert_eq!(login.url, "https://bsky.social/xrpc/com.atproto.server.createSession");
    assert_eq!(login.bearer, None);
    match login.body {
        RequestBody::Fields(fields) => assert_eq!(
            fields,
            vec![
                ("identifier".to_string(), "me.example".to_string()),
                ("password".to_string(), "secret".to_string()),
            ]
        ),
        other => panic!("not fields: {:?}", other),
    }
    let refresh = client.login_refresh("refresh-1".to_string());
    assert_eq!(refresh.method, HttpMethod::Post);
    assert_eq!(refresh.url, "https://bsky.social/xrpc/com.atproto.server.refreshSession");
    assert_eq!(refresh.bearer, Some("refresh-1".to_string()));
    assert!(matches!(refresh.body, RequestBody::Empty));
}
