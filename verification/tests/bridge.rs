use skysync::backend::blob::ratio_from;
use skysync::backend::cache::PostHandle;
use skysync::backend::login::{
    BlueskyLoginResponse, BlueskyLoginResponseError, BlueskyLoginResponseInfo, LoginInformation,
};
use skysync::backend::record::{
    BlueskyApiCreateRecordResponse, BlueskyApiDeleteRecordResponse, BlueskyApiRecord,
};
use skysync::backend::BlueskyApiError;
use skysync::bridge::messages::{describe, pinned_feeds, prefixed, report};
use skysync::bridge::worker::Bridge;
use skysync::bridge::{
    ApiCall, ApiResult, BackToFrontMsg, FrontToBackMsg, SinkId, StoreOutcome, StoredToken,
    WorkerAction, WorkerOutcome, WorkerOutput, WorkerStep,
};
use skysync::backend::BlueskyApiErrorMessage;
use skysync::defs::actor::{
    Preference, ProfileView, ProfileViewBasic, ProfileViewDetailed, SavedFeed, SavedFeedType,
    SavedFeedsPrefV2, ThreadViewPref,
};
use skysync::defs::embed::{AspectRatio, Variant};
use skysync::defs::feed::defs::{FeedCursorPair, FeedViewPost, PostView, ViewerState};
use skysync::defs::feed::{Like, Post, StrongRef};
use skysync::defs::{Blob, BlobRef};

fn info() -> LoginInformation {
    LoginInformation { did: "did:plc:me".to_string(), refresh_token: "refresh-2".to_string() }
}

fn profile(did: &str) -> ProfileViewDetailed {
    ProfileViewDetailed {
        did: did.to_string(),
        handle: "me.example".to_string(),
        display_name: None,
        description: None,
        avatar: None,
        banner: None,
        followers_count: None,
        follows_count: None,
        posts_count: None,
        associated: None,
        joined_via_starter_pack: None,
        indexed_at: None,
        created_at: None,
        viewer: None,
        labels: None,
        pinned_post: None,
    }
}

fn saved(value: &str, pinned: bool) -> SavedFeed {
    SavedFeed {
        id: "id".to_string(),
        kind: SavedFeedType::Feed,
        value: value.to_string(),
        pinned,
    }
}

fn record(text: &str) -> Post {
    Post {
        text: text.to_string(),
        created_at: "2024-01-01T00:00:00Z".to_string(),
        facets: None,
        reply: None,
        embed: None,
        langs: None,
        labels: None,
        tags: None,
    }
}

fn like() -> Like {
    Like {
        subject: StrongRef { uri: "at://p".to_string(), cid: "cid-p".to_string() },
        created_at: "2024-01-01T00:00:00Z".to_string(),
    }
}

fn post(cid: &str) -> PostView {
    PostView {
        uri: format!("at://did:plc:author/app.bsky.feed.post/{}", cid),
        cid: cid.to_string(),
        author: ProfileViewBasic {
            did: "did:plc:author".to_string(),
            handle: "author.example".to_string(),
            display_name: None,
            avatar: None,
            associated: None,
            viewer: None,
            labels: None,
            created_at: None,
        },
        record: record("text"),
        indexed_at: "2024-01-01T00:00:01Z".to_string(),
        embed: None,
        reply_count: None,
        repost_count: Some(1),
        like_count: Some(5),
        quote_count: None,
        viewer: Some(ViewerState {
            repost: None,
            like: None,
            thread_muted: None,
            reply_disabled: None,
            embedding_disabled: None,
            pinned: None,
        }),
        labels: None,
        threadgate: None,
    }
}

fn created(uri: &str) -> BlueskyApiCreateRecordResponse {
    BlueskyApiCreateRecordResponse {
        uri: uri.to_string(),
        cid: "cid-new".to_string(),
        commit: None,
        validation_status: None,
    }
}

fn blob(link: &str) -> Blob {
    Blob {
        kind: "blob".to_string(),
        mime_type: "image/png".to_string(),
        reference: BlobRef { link: link.to_string() },
        size: 3,
    }
}

fn events(step: &WorkerStep) -> Vec<&BackToFrontMsg> {
    step.outputs
        .iter()
        .map(|o| match o {
            WorkerOutput::Event(e) => e,
            other => panic!("not an event: {:?}", other),
        })
        .collect()
}

/// A PNG image that is four pixels wide and three high.
fn png_four_by_three() -> Vec<u8> {
    vec![
        137, 80, 78, 71, 13, 10, 26, 10, 0, 0, 0, 13, 73, 72, 68, 82, 0, 0, 0, 4, 0, 0, 0, 3, 8, 2, 0, 0, 0, 59, 150, 57, 145, 0, 0, 0, 16, 73, 68, 65, 84, 120, 156, 99, 16, 80, 48, 128, 35, 6, 156, 28, 0, 86, 103, 4, 129, 35, 185, 70, 61, 0, 0, 0, 0, 73, 69, 78, 68, 174, 66, 96, 130,
    ]
}

/// A worker whose startup found no stored token.
fn idle_worker() -> Bridge {
    let (mut bridge, first) = Bridge::new(0);
    assert!(matches!(first.next, WorkerAction::ReadToken));
    let step = bridge.resume(WorkerOutcome::Token(StoredToken::Missing));
    assert!(matches!(step.next, WorkerAction::Receive));
    bridge
}

fn network(detail: &str) -> BlueskyApiError {
    BlueskyApiError::NetworkError(detail.to_string())
}

#[test]
fn startup_without_a_token_tells_that_no_one_is_logged_in() {
    let (mut bridge, first) = Bridge::new(0);
    assert_eq!(first.outputs.len(), 0);
    assert_eq!(first.ticket, 0);
    assert!(!bridge.is_idle());
    assert!(!bridge.is_busy());
    let step = bridge.resume(WorkerOutcome::Token(StoredToken::Missing));
    let out = events(&step);
    assert_eq!(out.len(), 1);
    assert!(matches!(
        out[0],
        BackToFrontMsg::LoginResponse(
            BlueskyLoginResponse::Info(BlueskyLoginResponseInfo::WasntLoggedIn),
            None,
            generators
        ) if generators.is_empty()
    ));
    assert!(matches!(step.next, WorkerAction::Receive));
    assert!(bridge.is_idle());
    assert!(!bridge.is_authenticated());
}

#[test]
fn startup_without_a_credential_store_tells_of_both() {
    let (mut bridge, _) = Bridge::new(0);
    let step = bridge
        .resume(WorkerOutcome::Token(StoredToken::Unavailable { detail: "no dbus".to_string() }));
    let out = events(&step);
    assert_eq!(out.len(), 2);
    assert!(matches!(
        out[0],
        BackToFrontMsg::LoginResponse(
            BlueskyLoginResponse::Info(BlueskyLoginResponseInfo::WasntLoggedIn),
            None,
            _
        )
    ));
    assert!(
        matches!(out[1], BackToFrontMsg::KeyringFailure(t) if t == "Failed to initialize keyring. no dbus")
    );
    assert!(bridge.is_idle());
}

#[test]
fn startup_with_a_token_logs_in_and_fetches_profile_and_feeds() {
    let (mut bridge, _) = Bridge::new(0);
    let step =
        bridge.resume(WorkerOutcome::Token(StoredToken::Found { token: "refresh-1".to_string() }));
    assert!(matches!(
        step.next,
        WorkerAction::Call(ApiCall::Refresh { refresh_token }) if refresh_token == "refresh-1"
    ));
    assert!(step.outputs.is_empty());
    let step = bridge
        .resume(WorkerOutcome::Api(ApiResult::Login(BlueskyLoginResponse::Success(info()))));
    assert!(matches!(step.next, WorkerAction::StoreToken { token } if token == "refresh-2"));
    assert!(bridge.is_authenticated());
    let step = bridge.resume(WorkerOutcome::Stored(StoreOutcome::Stored));
    assert!(step.outputs.is_empty());
    assert!(matches!(step.next, WorkerAction::Call(ApiCall::GetProfileSelf)));
    let step = bridge.resume(WorkerOutcome::Api(ApiResult::Profile(Ok(profile("did:plc:me")))));
    assert!(step.outputs.is_empty());
    assert!(matches!(step.next, WorkerAction::Call(ApiCall::GetPreferences)));
    let preferences = vec![
        Preference::ThreadViewPref(ThreadViewPref { sort: None, prioritize_followed_users: None }),
        Preference::SavedFeedsPrefV2(SavedFeedsPrefV2 {
            items: vec![
                saved("at://feed/one", true),
                saved("at://feed/two", false),
                saved("following", true),
                saved("at://feed/three", true),
            ],
        }),
        Preference::SavedFeedsPrefV2(SavedFeedsPrefV2 { items: vec![saved("at://late", true)] }),
    ];
    let step = bridge.resume(WorkerOutcome::Api(ApiResult::Preferences(Ok(preferences))));
    assert!(matches!(
        &step.next,
        WorkerAction::Call(ApiCall::GetFeedGenerators { feeds })
            if feeds == &vec!["at://feed/one".to_string(), "at://feed/three".to_string()]
    ));
    let step = bridge.resume(WorkerOutcome::Api(ApiResult::FeedGenerators(Ok(Vec::new()))));
    let out = events(&step);
    assert_eq!(out.len(), 1);
    assert!(matches!(
        out[0],
        BackToFrontMsg::LoginResponse(BlueskyLoginResponse::Success(i), Some(p), g)
            if i.did == "did:plc:me" && i.refresh_token == "refresh-2" && p.did == "did:plc:me" && g.is_empty()
    ));
    assert!(matches!(step.next, WorkerAction::Receive));
    assert!(bridge.is_idle());
    assert_eq!(step.ticket, 0);
}

#[test]
fn startup_failures_after_the_refresh_are_reported_and_do_not_stop_the_login() {
    let (mut bridge, _) = Bridge::new(0);
    bridge.resume(WorkerOutcome::Token(StoredToken::Found { token: "refresh-1".to_string() }));
    bridge.resume(WorkerOutcome::Api(ApiResult::Login(BlueskyLoginResponse::Success(info()))));
    let step = bridge
        .resume(WorkerOutcome::Stored(StoreOutcome::Failed { detail: "locked".to_string() }));
    let out = events(&step);
    assert_eq!(out.len(), 1);
    assert!(
        matches!(out[0], BackToFrontMsg::KeyringFailure(t) if t == "Error when caching login: locked")
    );
    assert!(matches!(step.next, WorkerAction::Call(ApiCall::GetProfileSelf)));
    let step = bridge.resume(WorkerOutcome::Api(ApiResult::Profile(Err(network("offline")))));
    let out = events(&step);
    assert_eq!(out.len(), 1);
    assert!(
        matches!(out[0], BackToFrontMsg::BackendError(t) if t == "Profile pull failed.\nNetworkError: offline")
    );
    let step = bridge.resume(WorkerOutcome::Api(ApiResult::Preferences(Err(network("offline")))));
    let out = events(&step);
    assert_eq!(out.len(), 2);
    assert!(
        matches!(out[0], BackToFrontMsg::BackendError(t) if t == "Preferences pull failed.\nNetworkError: offline")
    );
    assert!(matches!(
        out[1],
        BackToFrontMsg::LoginResponse(BlueskyLoginResponse::Success(_), None, g) if g.is_empty()
    ));
    assert!(bridge.is_idle());
}

#[test]
fn a_failed_pull_of_feed_generators_is_reported() {
    let (mut bridge, _) = Bridge::new(0);
    bridge.resume(WorkerOutcome::Token(StoredToken::Found { token: "refresh-1".to_string() }));
    bridge.resume(WorkerOutcome::Api(ApiResult::Login(BlueskyLoginResponse::Success(info()))));
    bridge.resume(WorkerOutcome::Stored(StoreOutcome::Unavailable));
    bridge.resume(WorkerOutcome::Api(ApiResult::Profile(Ok(profile("did:plc:me")))));
    bridge.resume(WorkerOutcome::Api(ApiResult::Preferences(Ok(Vec::new()))));
    let step = bridge
        .resume(WorkerOutcome::Api(ApiResult::FeedGenerators(Err(BlueskyApiError::NotImplemented))));
    let out = events(&step);
    assert_eq!(out.len(), 2);
    assert!(
        matches!(out[0], BackToFrontMsg::BackendError(t) if t == "Feed generator pull failed.\nNotImplemented")
    );
    assert!(matches!(
        out[1],
        BackToFrontMsg::LoginResponse(BlueskyLoginResponse::Success(_), Some(_), g) if g.is_empty()
    ));
}

#[test]
fn a_refresh_that_fails_at_startup_leaves_the_worker_logged_out() {
    let (mut bridge, _) = Bridge::new(0);
    bridge.resume(WorkerOutcome::Token(StoredToken::Found { token: "refresh-1".to_string() }));
    let failed = BlueskyLoginResponse::Error(BlueskyLoginResponseError::AccountSuspended);
    let step = bridge.resume(WorkerOutcome::Api(ApiResult::Login(failed)));
    let out = events(&step);
    assert_eq!(out.len(), 1);
    assert!(matches!(
        out[0],
        BackToFrontMsg::LoginResponse(
            BlueskyLoginResponse::Error(BlueskyLoginResponseError::AccountSuspended),
            None,
            g
        ) if g.is_empty()
    ));
    assert!(!bridge.is_authenticated());
    assert!(bridge.is_idle());
}

#[test]
fn a_login_stores_the_token_and_fetches_the_profile() {
    let mut bridge = idle_worker();
    let step = bridge.begin(FrontToBackMsg::LoginRequestStandard {
        handle: "me.example".to_string(),
        password: "secret".to_string(),
    });
    assert!(bridge.is_busy());
    assert_eq!(step.ticket, 1);
    assert!(matches!(
        step.next,
        WorkerAction::Call(ApiCall::Login { handle, password })
            if handle == "me.example" && password == "secret"
    ));
    let step = bridge
        .resume(WorkerOutcome::Api(ApiResult::Login(BlueskyLoginResponse::Success(info()))));
    assert!(matches!(step.next, WorkerAction::StoreToken { token } if token == "refresh-2"));
    let step = bridge.resume(WorkerOutcome::Stored(StoreOutcome::Stored));
    assert!(matches!(step.next, WorkerAction::Call(ApiCall::GetProfileSelf)));
    let step = bridge.resume(WorkerOutcome::Api(ApiResult::Profile(Err(network("offline")))));
    let out = events(&step);
    assert_eq!(out.len(), 1);
    assert!(matches!(
        out[0],
        BackToFrontMsg::LoginResponse(BlueskyLoginResponse::Success(i), None, g)
            if i.refresh_token == "refresh-2" && g.is_empty()
    ));
    assert!(bridge.is_authenticated());
    assert!(bridge.is_idle());
    assert!(!bridge.is_busy());
    assert_eq!(step.ticket, 1);
}

#[test]
fn a_login_that_fails_clears_the_busy_indicator() {
    let mut bridge = idle_worker();
    bridge.begin(FrontToBackMsg::LoginRequestStandard {
        handle: "me.example".to_string(),
        password: "wrong".to_string(),
    });
    let failed = BlueskyLoginResponse::Error(BlueskyLoginResponseError::Unauthorized);
    let step = bridge.resume(WorkerOutcome::Api(ApiResult::Login(failed)));
    let out = events(&step);
    assert_eq!(out.len(), 1);
    assert!(matches!(
        out[0],
        BackToFrontMsg::LoginResponse(
            BlueskyLoginResponse::Error(BlueskyLoginResponseError::Unauthorized),
            None,
            _
        )
    ));
    assert!(!bridge.is_busy());
    assert!(bridge.is_idle());
    assert!(!bridge.is_authenticated());
}

#[test]
fn results_come_in_the_order_of_the_commands() {
    let mut bridge = idle_worker();
    let mut tickets = Vec::new();
    let mut seen = Vec::new();

    let step = bridge.begin(FrontToBackMsg::GetTimelineRequest { cursor: None, limit: Some(5) });
    tickets.push(step.ticket);
    assert!(matches!(
        step.next,
        WorkerAction::Call(ApiCall::GetTimeline { cursor: None, limit: Some(5) })
    ));
    let ignored = bridge.begin(FrontToBackMsg::GetProfileRequest { did: "did:plc:b".to_string() });
    assert!(matches!(ignored.next, WorkerAction::Ignored));
    assert!(ignored.outputs.is_empty());
    assert_eq!(bridge.commands_taken(), 1);
    let page = FeedCursorPair { cursor: None, feed: Vec::new() };
    let step = bridge.resume(WorkerOutcome::Api(ApiResult::Feed(Ok(page))));
    tickets.push(step.ticket);
    seen.push(format!("{:?}", events(&step)[0]));

    let step = bridge.begin(FrontToBackMsg::GetProfileRequest { did: "did:plc:b".to_string() });
    tickets.push(step.ticket);
    assert!(
        matches!(step.next, WorkerAction::Call(ApiCall::GetProfile { did }) if did == "did:plc:b")
    );
    let step = bridge.resume(WorkerOutcome::Api(ApiResult::Profile(Ok(profile("did:plc:b")))));
    tickets.push(step.ticket);
    assert!(matches!(
        events(&step)[0],
        BackToFrontMsg::ProfileResponse(did, Ok(p)) if did == "did:plc:b" && p.did == "did:plc:b"
    ));
    seen.push(format!("{:?}", events(&step)[0]));

    let step = bridge.begin(FrontToBackMsg::GetThreadRequest { uri: "at://t".to_string() });
    tickets.push(step.ticket);
    assert!(matches!(
        step.next,
        WorkerAction::Call(ApiCall::GetThread { uri, depth: None, height: None }) if uri == "at://t"
    ));
    let step = bridge.resume(WorkerOutcome::Api(ApiResult::Thread(Err(network("offline")))));
    tickets.push(step.ticket);
    assert!(matches!(
        events(&step)[0],
        BackToFrontMsg::ThreadResponse(uri, Err(BlueskyApiError::NetworkError(_))) if uri == "at://t"
    ));
    seen.push(format!("{:?}", events(&step)[0]));

    assert_eq!(tickets, vec![1, 1, 2, 2, 3, 3]);
    assert!(seen[0].starts_with("TimelineResponse"));
    assert!(seen[1].starts_with("ProfileResponse"));
    assert!(seen[2].starts_with("ThreadResponse"));
    assert_eq!(bridge.commands_taken(), 3);
}

#[test]
fn an_answer_that_was_not_asked_for_is_ignored() {
    let mut bridge = idle_worker();
    let step = bridge.resume(WorkerOutcome::Cursor(None));
    assert!(matches!(step.next, WorkerAction::Ignored));
    assert!(bridge.is_idle());
    bridge.begin(FrontToBackMsg::GetTimelineRequest { cursor: None, limit: None });
    let step = bridge.resume(WorkerOutcome::Api(ApiResult::Profile(Ok(profile("x")))));
    assert!(matches!(step.next, WorkerAction::Ignored));
    assert!(step.outputs.is_empty());
    assert!(bridge.is_busy());
    assert!(!bridge.is_idle());
    let page = FeedCursorPair { cursor: Some("c".to_string()), feed: Vec::new() };
    let step = bridge.resume(WorkerOutcome::Api(ApiResult::Feed(Ok(page))));
    assert!(
        matches!(events(&step)[0], BackToFrontMsg::TimelineResponse(Ok(p)) if p.cursor == Some("c".to_string()))
    );
}

#[test]
fn a_feed_command_answers_like_the_timeline() {
    let mut bridge = idle_worker();
    let step = bridge.begin(FrontToBackMsg::GetFeedRequest {
        feed: "at://f".to_string(),
        cursor: Some("c".to_string()),
        limit: Some(3),
    });
    assert!(matches!(
        step.next,
        WorkerAction::Call(ApiCall::GetFeed { feed, cursor }) if feed == "at://f" && cursor == Some("c".to_string())
    ));
    let step = bridge.resume(WorkerOutcome::Api(ApiResult::Feed(Err(network("offline")))));
    assert!(matches!(
        events(&step)[0],
        BackToFrontMsg::TimelineResponse(Err(BlueskyApiError::NetworkError(d))) if d == "offline"
    ));
    assert!(!bridge.is_busy());
}

#[test]
fn shutdown_stops_the_worker() {
    let mut bridge = idle_worker();
    let step = bridge.begin(FrontToBackMsg::ShutdownMessage);
    assert!(matches!(step.next, WorkerAction::Stop));
    assert!(step.outputs.is_empty());
    assert!(bridge.is_stopped());
    let step = bridge.begin(FrontToBackMsg::GetTimelineRequest { cursor: None, limit: None });
    assert!(matches!(step.next, WorkerAction::Ignored));
    let step = bridge.resume(WorkerOutcome::Cursor(None));
    assert!(matches!(step.next, WorkerAction::Ignored));
    assert!(bridge.is_stopped());
    assert_eq!(bridge.commands_taken(), 1);
}

#[test]
fn commands_before_startup_is_over_are_ignored() {
    let (mut bridge, _) = Bridge::new(0);
    let step = bridge.begin(FrontToBackMsg::GetTimelineRequest { cursor: None, limit: None });
    assert!(matches!(step.next, WorkerAction::Ignored));
    assert_eq!(bridge.commands_taken(), 0);
}

#[test]
fn an_author_feed_goes_to_its_list() {
    let mut bridge = idle_worker();
    let sink = SinkId { id: 4 };
    let step = bridge.begin(FrontToBackMsg::GetAuthorFeedRequest {
        did: "did:plc:a".to_string(),
        cursor: "c1".to_string(),
        posts: sink,
    });
    assert!(matches!(
        step.next,
        WorkerAction::Call(ApiCall::GetAuthorFeed { did, cursor }) if did == "did:plc:a" && cursor == "c1"
    ));
    let page = FeedCursorPair {
        cursor: Some("c2".to_string()),
        feed: vec![FeedViewPost {
            post: PostHandle { index: 3 },
            reply: None,
            reason: None,
            feed_context: None,
        }],
    };
    let step = bridge.resume(WorkerOutcome::Api(ApiResult::Feed(Ok(page))));
    assert_eq!(step.outputs.len(), 1);
    assert!(matches!(
        &step.outputs[0],
        WorkerOutput::Posts { sink: s, page } if *s == sink && page.cursor == Some("c2".to_string()) && page.feed.len() == 1
    ));
    assert!(bridge.is_idle());
    bridge.begin(FrontToBackMsg::GetAuthorFeedRequest {
        did: "did:plc:a".to_string(),
        cursor: "c2".to_string(),
        posts: sink,
    });
    let step = bridge.resume(WorkerOutcome::Api(ApiResult::Feed(Err(network("offline")))));
    assert!(matches!(
        events(&step)[0],
        BackToFrontMsg::BackendError(t) if t == "Author feed pull failed.\nNetworkError: offline"
    ));
    assert!(bridge.is_idle());
}

#[test]
fn followers_are_fetched_from_the_cursor_of_their_list() {
    let mut bridge = idle_worker();
    let sink = SinkId { id: 9 };
    let step = bridge.begin(FrontToBackMsg::GetFollowersRequest {
        did: "did:plc:a".to_string(),
        profiles: sink,
    });
    assert!(matches!(step.next, WorkerAction::TakeCursor { sink: s } if s == sink));
    let step = bridge.resume(WorkerOutcome::Cursor(Some("c1".to_string())));
    assert!(matches!(
        step.next,
        WorkerAction::Call(ApiCall::GetFollowers { did, cursor }) if did == "did:plc:a" && cursor == "c1"
    ));
    let follower = ProfileView {
        did: "did:plc:f".to_string(),
        handle: "f.example".to_string(),
        display_name: None,
        description: None,
        avatar: None,
        associated: None,
        indexed_at: None,
        created_at: None,
        viewer: None,
        labels: None,
    };
    let step = bridge
        .resume(WorkerOutcome::Api(ApiResult::Followers(Ok(("c2".to_string(), vec![follower])))));
    assert!(matches!(
        &step.outputs[0],
        WorkerOutput::Followers { sink: s, cursor, items } if *s == sink && cursor == "c2" && items.len() == 1
    ));
    bridge.begin(FrontToBackMsg::GetFollowersRequest {
        did: "did:plc:a".to_string(),
        profiles: sink,
    });
    let step = bridge.resume(WorkerOutcome::Cursor(None));
    assert!(matches!(
        step.next,
        WorkerAction::Call(ApiCall::GetFollowers { cursor, .. }) if cursor.is_empty()
    ));
    let step = bridge.resume(WorkerOutcome::Api(ApiResult::Followers(Err(network("offline")))));
    assert!(matches!(
        events(&step)[0],
        BackToFrontMsg::BackendError(t) if t == "Followers pull failed.\nNetworkError: offline"
    ));
}

#[test]
fn a_record_is_created_and_its_result_handed_on() {
    let mut bridge = idle_worker();
    let step = bridge.begin(FrontToBackMsg::CreateRecordRequest(BlueskyApiRecord::Post(record("hi"))));
    assert!(matches!(
        step.next,
        WorkerAction::Call(ApiCall::CreateRecord(BlueskyApiRecord::Post(p))) if p.text == "hi"
    ));
    let step = bridge.resume(WorkerOutcome::Api(ApiResult::RecordCreated(Ok(created("at://new")))));
    assert!(matches!(
        events(&step)[0],
        BackToFrontMsg::RecordCreationResponse(Ok(r)) if r.uri == "at://new"
    ));
}

#[test]
fn a_like_under_a_post_is_recorded_without_a_word() {
    let mut bridge = idle_worker();
    let handle = bridge.api().canonicalize_feed(FeedCursorPair {
        cursor: None,
        feed: vec![FeedViewPost { post: post("cid-p"), reply: None, reason: None, feed_context: None }],
    })
    .feed[0]
        .post;
    let step = bridge
        .begin(FrontToBackMsg::CreateRecordUnderPostRequest(BlueskyApiRecord::Like(like()), handle));
    assert!(matches!(
        step.next,
        WorkerAction::Call(ApiCall::CreateRecord(BlueskyApiRecord::Like(_)))
    ));
    let step =
        bridge.resume(WorkerOutcome::Api(ApiResult::RecordCreated(Ok(created("at://me/like/1")))));
    assert!(step.outputs.is_empty());
    assert!(matches!(step.next, WorkerAction::Receive));
    assert!(!bridge.is_busy());
    let stored = bridge.client_ref().cache().get(handle).unwrap();
    assert_eq!(stored.like_count, Some(6));
    assert_eq!(stored.viewer.as_ref().unwrap().like, Some("at://me/like/1".to_string()));

    bridge.begin(FrontToBackMsg::DeleteRecordUnderPostRequest {
        rkey: "1".to_string(),
        nsid: "app.bsky.feed.like".to_string(),
        post_mod: handle,
    });
    let deleted = BlueskyApiDeleteRecordResponse { commit: None };
    let step = bridge.resume(WorkerOutcome::Api(ApiResult::RecordDeleted(Ok(deleted))));
    assert!(step.outputs.is_empty());
    let stored = bridge.client_ref().cache().get(handle).unwrap();
    assert_eq!(stored.like_count, Some(5));
    assert_eq!(stored.viewer.as_ref().unwrap().like, None);
}

#[test]
fn a_repost_under_a_post_is_recorded_and_undone() {
    let mut bridge = idle_worker();
    let handle = bridge.api().canonicalize_feed(FeedCursorPair {
        cursor: None,
        feed: vec![FeedViewPost { post: post("cid-p"), reply: None, reason: None, feed_context: None }],
    })
    .feed[0]
        .post;
    bridge
        .begin(FrontToBackMsg::CreateRecordUnderPostRequest(BlueskyApiRecord::Repost(like()), handle));
    bridge.resume(WorkerOutcome::Api(ApiResult::RecordCreated(Ok(created("at://me/repost/1")))));
    let stored = bridge.client_ref().cache().get(handle).unwrap();
    assert_eq!(stored.repost_count, Some(2));
    assert_eq!(stored.viewer.as_ref().unwrap().repost, Some("at://me/repost/1".to_string()));
    assert_eq!(stored.like_count, Some(5));
    let step = bridge.begin(FrontToBackMsg::DeleteRecordUnderPostRequest {
        rkey: "1".to_string(),
        nsid: "app.bsky.feed.repost".to_string(),
        post_mod: handle,
    });
    assert!(matches!(
        step.next,
        WorkerAction::Call(ApiCall::DeleteRecord { rkey, nsid }) if rkey == "1" && nsid == "app.bsky.feed.repost"
    ));
    bridge.resume(WorkerOutcome::Api(ApiResult::RecordDeleted(Ok(BlueskyApiDeleteRecordResponse {
        commit: None,
    }))));
    let stored = bridge.client_ref().cache().get(handle).unwrap();
    assert_eq!(stored.repost_count, Some(1));
    assert_eq!(stored.viewer.as_ref().unwrap().repost, None);
}

#[test]
fn failures_under_a_post_are_handed_on_and_change_nothing() {
    let mut bridge = idle_worker();
    let handle = bridge.api().canonicalize_feed(FeedCursorPair {
        cursor: None,
        feed: vec![FeedViewPost { post: post("cid-p"), reply: None, reason: None, feed_context: None }],
    })
    .feed[0]
        .post;
    bridge
        .begin(FrontToBackMsg::CreateRecordUnderPostRequest(BlueskyApiRecord::Like(like()), handle));
    let step = bridge.resume(WorkerOutcome::Api(ApiResult::RecordCreated(Err(network("offline")))));
    assert!(matches!(
        events(&step)[0],
        BackToFrontMsg::RecordCreationResponse(Err(BlueskyApiError::NetworkError(_)))
    ));
    assert_eq!(bridge.client_ref().cache().get(handle).unwrap().like_count, Some(5));
    bridge.begin(FrontToBackMsg::DeleteRecordUnderPostRequest {
        rkey: "1".to_string(),
        nsid: "app.bsky.feed.like".to_string(),
        post_mod: handle,
    });
    let step = bridge.resume(WorkerOutcome::Api(ApiResult::RecordDeleted(Err(network("offline")))));
    assert!(matches!(
        events(&step)[0],
        BackToFrontMsg::RecordDeletionResponse(Err(BlueskyApiError::NetworkError(_)))
    ));
    assert_eq!(bridge.client_ref().cache().get(handle).unwrap().like_count, Some(5));
    bridge.begin(FrontToBackMsg::DeleteRecordUnderPostRequest {
        rkey: "1".to_string(),
        nsid: "app.bsky.feed.post".to_string(),
        post_mod: handle,
    });
    let step = bridge.resume(WorkerOutcome::Api(ApiResult::RecordDeleted(Ok(
        BlueskyApiDeleteRecordResponse { commit: None },
    ))));
    assert!(matches!(
        events(&step)[0],
        BackToFrontMsg::RecordDeletionResponse(Err(BlueskyApiError::NotImplemented))
    ));
    assert_eq!(bridge.client_ref().cache().get(handle).unwrap().like_count, Some(5));
}

#[test]
fn what_the_client_does_not_support_is_turned_down_at_once() {
    let mut bridge = idle_worker();
    let step = bridge.begin(FrontToBackMsg::DeleteRecordRequest {
        rkey: "1".to_string(),
        nsid: "app.bsky.feed.post".to_string(),
    });
    assert!(matches!(
        events(&step)[0],
        BackToFrontMsg::RecordDeletionResponse(Err(BlueskyApiError::NotImplemented))
    ));
    assert!(matches!(step.next, WorkerAction::Receive));
    assert!(bridge.is_idle());
    assert!(!bridge.is_busy());
    assert_eq!(step.ticket, 1);
    let step = bridge.begin(FrontToBackMsg::CreateRecordUnderPostRequest(
        BlueskyApiRecord::Post(record("reply")),
        PostHandle { index: 0 },
    ));
    assert!(matches!(
        events(&step)[0],
        BackToFrontMsg::RecordCreationResponse(Err(BlueskyApiError::NotImplemented))
    ));
    assert_eq!(step.ticket, 2);
    let step = bridge.begin(FrontToBackMsg::CreateRecordWithMediaRequest(
        BlueskyApiRecord::Like(like()),
        vec!["a.png".to_string()],
    ));
    assert!(matches!(
        events(&step)[0],
        BackToFrontMsg::RecordCreationResponse(Err(BlueskyApiError::NotImplemented))
    ));
    assert!(bridge.is_idle());
}

#[test]
fn images_are_uploaded_one_by_one_before_the_post_is_created() {
    let mut bridge = idle_worker();
    let step = bridge.begin(FrontToBackMsg::CreateRecordWithMediaRequest(
        BlueskyApiRecord::Post(record("look")),
        vec!["a.png".to_string(), "b.png".to_string()],
    ));
    assert!(matches!(step.next, WorkerAction::ReadImage { path } if path == "a.png"));
    let step = bridge.resume(WorkerOutcome::Image { bytes: png_four_by_three() });
    assert!(
        matches!(step.next, WorkerAction::Call(ApiCall::UploadBlob(b)) if b == png_four_by_three())
    );
    let step = bridge.resume(WorkerOutcome::Api(ApiResult::Blob(Ok(blob("bafy-a")))));
    assert!(matches!(step.next, WorkerAction::ReadImage { path } if path == "b.png"));
    let step = bridge.resume(WorkerOutcome::Image { bytes: vec![3] });
    assert!(matches!(step.next, WorkerAction::Call(ApiCall::UploadBlob(b)) if b == vec![3]));
    let step = bridge.resume(WorkerOutcome::Api(ApiResult::Blob(Ok(blob("bafy-b")))));
    let sent = match step.next {
        WorkerAction::Call(ApiCall::CreateRecord(BlueskyApiRecord::Post(p))) => p,
        other => panic!("not a post: {:?}", other),
    };
    assert_eq!(sent.text, "look");
    match *sent.embed.unwrap() {
        Variant::ImagesRaw { images } => {
            assert_eq!(images.len(), 2);
            assert_eq!(images[0].image.reference.link, "bafy-a");
            assert_eq!(images[0].alt, "");
            assert_eq!(images[0].aspect_ratio, Some(AspectRatio { width: 4, height: 3 }));
            assert_eq!(images[1].image.reference.link, "bafy-b");
            assert_eq!(images[1].aspect_ratio, None);
        }
        other => panic!("not images: {:?}", other),
    }
    let step = bridge.resume(WorkerOutcome::Api(ApiResult::RecordCreated(Ok(created("at://new")))));
    assert!(matches!(
        events(&step)[0],
        BackToFrontMsg::RecordCreationResponse(Ok(r)) if r.uri == "at://new"
    ));
    assert!(bridge.is_idle());
}

#[test]
fn a_failed_upload_ends_the_command() {
    let mut bridge = idle_worker();
    bridge.begin(FrontToBackMsg::CreateRecordWithMediaRequest(
        BlueskyApiRecord::Post(record("look")),
        vec!["a.png".to_string(), "b.png".to_string()],
    ));
    bridge.resume(WorkerOutcome::Image { bytes: vec![1] });
    let step = bridge.resume(WorkerOutcome::Api(ApiResult::Blob(Err(network("offline")))));
    assert!(matches!(
        events(&step)[0],
        BackToFrontMsg::RecordCreationResponse(Err(BlueskyApiError::NetworkError(d))) if d == "offline"
    ));
    assert!(matches!(step.next, WorkerAction::Receive));
    assert!(bridge.is_idle());
}

#[test]
fn a_post_with_no_image_paths_is_created_with_an_empty_list() {
    let mut bridge = idle_worker();
    let step = bridge.begin(FrontToBackMsg::CreateRecordWithMediaRequest(
        BlueskyApiRecord::Post(record("look")),
        Vec::new(),
    ));
    match step.next {
        WorkerAction::Call(ApiCall::CreateRecord(BlueskyApiRecord::Post(p))) => {
            assert!(matches!(*p.embed.unwrap(), Variant::ImagesRaw { images } if images.is_empty()))
        }
        other => panic!("not a post: {:?}", other),
    }
}

#[test]
fn the_size_of_an_image_becomes_its_aspect_ratio() {
    assert_eq!(ratio_from(Some((16, 9))), Some(AspectRatio { width: 16, height: 9 }));
    assert_eq!(ratio_from(Some((0, 0))), Some(AspectRatio { width: 0, height: 0 }));
    assert_eq!(ratio_from(None), None);
}

#[test]
fn errors_are_put_in_words() {
    let message = BlueskyApiErrorMessage {
        error: "InvalidRequest".to_string(),
        message: "bad cursor".to_string(),
    };
    assert_eq!(
        describe(&BlueskyApiError::BadRequest(message.clone())),
        "BadRequest: InvalidRequest: bad cursor"
    );
    assert_eq!(
        describe(&BlueskyApiError::Unauthorized(message)),
        "Unauthorized: InvalidRequest: bad cursor"
    );
    assert_eq!(describe(&network("offline")), "NetworkError: offline");
    assert_eq!(
        describe(&BlueskyApiError::ParseError("eof".to_string(), "{".to_string())),
        "ParseError: eof\n{"
    );
    assert_eq!(describe(&BlueskyApiError::NotImplemented), "NotImplemented");
    assert_eq!(report("It failed.", &network("x")), "It failed.\nNetworkError: x");
    assert_eq!(prefixed("a: ", "b"), "a: b");
}

#[test]
fn only_pinned_feeds_of_the_first_list_that_start_with_at_are_shown() {
    assert!(pinned_feeds(&Vec::new()).is_empty());
    let prefs = vec![Preference::SavedFeedsPrefV2(SavedFeedsPrefV2 {
        items: vec![
            saved("at", true),
            saved("a", true),
            saved("", true),
            saved("bt://x", true),
            saved("at://no", false),
            saved("atlas", true),
        ],
    })];
    assert_eq!(pinned_feeds(&prefs), vec!["at".to_string(), "atlas".to_string()]);
    let prefs = vec![
        Preference::SavedFeedsPrefV2(SavedFeedsPrefV2 { items: Vec::new() }),
        Preference::SavedFeedsPrefV2(SavedFeedsPrefV2 { items: vec![saved("at://x", true)] }),
    ];
    assert!(pinned_feeds(&prefs).is_empty());
}
