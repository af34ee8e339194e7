//! The rules of the worker: for each thing it may wait for, what it makes
//! of what comes.

use crate::backend::cache::{LocalMutation, PostHandle};
use crate::backend::login::{BlueskyLoginResponse, LoginInformation};
use crate::backend::record::BlueskyApiRecord;
use crate::backend::{locally_mutated, BlueskyApiError};
use crate::bridge::messages::{pinned_values, reported, texts};
use crate::bridge::worker::{
    creates_with_images, is_backend_error, is_keyring_failure, is_login_failure, is_login_success,
    is_not_logged_in, is_uploaded, reads_first, store_outputs, Bridge, Pending, WorkerState,
};
use crate::bridge::{
    ApiCall, ApiResult, BackToFrontMsg, FrontToBackMsg, StoreOutcome, StoredToken, WorkerAction,
    WorkerOutcome, WorkerOutput, WorkerStep,
};
use crate::defs::actor::ProfileViewDetailed;
use crate::defs::embed::images::Image;
use vstd::prelude::*;

verus! {

/// Nothing was taken in: the worker is as before, says nothing, and what
/// it asked for before is still due.
pub open spec fn ignored(before: Bridge, after: Bridge, step: WorkerStep) -> bool {
    &&& after == before
    &&& step.outputs@.len() == 0
    &&& step.next is Ignored
    &&& step.ticket == before.accepted()
}

/// The command is done: the worker is idle and no longer busy, `outputs`
/// go out, and the next command is due.
pub open spec fn done(
    before: Bridge,
    after: Bridge,
    step: WorkerStep,
    outputs: Seq<WorkerOutput>,
) -> bool {
    &&& after.rests(before)
    &&& step.outputs@ == outputs
    &&& step.next is Receive
}

/// The command is done with a single event.
pub open spec fn done_with(
    before: Bridge,
    after: Bridge,
    step: WorkerStep,
    event: BackToFrontMsg,
) -> bool {
    done(before, after, step, seq![WorkerOutput::Event(event)])
}

/// The command is done with a report of `error`, which came up in `what`.
pub open spec fn done_reporting(
    before: Bridge,
    after: Bridge,
    step: WorkerStep,
    what: Seq<char>,
    error: BlueskyApiError,
) -> bool {
    &&& after.rests(before)
    &&& step.outputs@.len() == 1
    &&& is_backend_error(step.outputs@[0], reported(what, error))
    &&& step.next is Receive
}

/// The command goes on: the worker says nothing, asks for `next` and waits
/// for `pending`.
pub open spec fn goes_on(
    before: Bridge,
    after: Bridge,
    step: WorkerStep,
    pending: Pending,
    next: WorkerAction,
) -> bool {
    &&& after.waits(before, pending)
    &&& step.outputs@.len() == 0
    &&& step.next == next
}

/// The command is done without a word, and the viewer's change is recorded
/// for `post`.
pub open spec fn done_recording(
    before: Bridge,
    after: Bridge,
    step: WorkerStep,
    post: PostHandle,
    mutation: LocalMutation,
) -> bool {
    &&& locally_mutated(before.client(), post, mutation, after.client())
    &&& after.accepted() == before.accepted()
    &&& after.pending() is Idle
    &&& after.state() == before.state()
    &&& !after.busy()
    &&& step.outputs@.len() == 0
    &&& step.next is Receive
}

/// A login went through: the worker counts as logged in from now on, and
/// asks for the refresh token to be stored.
pub open spec fn logged_in(
    before: Bridge,
    after: Bridge,
    step: WorkerStep,
    pending: Pending,
    info: LoginInformation,
) -> bool {
    &&& after.follows(before, pending, WorkerState::Authenticated, before.busy())
    &&& step.outputs@.len() == 0
    &&& step.next == (WorkerAction::StoreToken { token: info.refresh_token })
}

/// A login did not go through: the result goes to the presentation layer
/// and the command is done.
pub open spec fn login_failed(
    before: Bridge,
    after: Bridge,
    step: WorkerStep,
    response: BlueskyLoginResponse,
) -> bool {
    &&& after.rests(before)
    &&& step.outputs@.len() == 1
    &&& is_login_failure(step.outputs@[0], response)
    &&& step.next is Receive
}

/// The login is complete: the event that tells of it goes out, behind a
/// report of `error` where there is one.
pub open spec fn login_complete(
    before: Bridge,
    after: Bridge,
    step: WorkerStep,
    info: LoginInformation,
    profile: Option<ProfileViewDetailed>,
    generators: Seq<crate::defs::feed::defs::GeneratorView>,
    failure: Option<(Seq<char>, BlueskyApiError)>,
) -> bool {
    &&& after.rests(before)
    &&& step.next is Receive
    &&& match failure {
        Some((what, error)) => {
            &&& step.outputs@.len() == 2
            &&& is_backend_error(step.outputs@[0], reported(what, error))
            &&& is_login_success(step.outputs@[1], info, profile, generators)
        },
        None => {
            &&& step.outputs@.len() == 1
            &&& is_login_success(step.outputs@[0], info, profile, generators)
        },
    }
}

/// What the worker makes of the stored refresh token at startup.
pub open spec fn on_startup_token(
    before: Bridge,
    token: StoredToken,
    after: Bridge,
    step: WorkerStep,
) -> bool {
    match token {
        StoredToken::Unavailable { detail } => {
            &&& after.rests(before)
            &&& step.next is Receive
            &&& step.outputs@.len() == 2
            &&& is_not_logged_in(step.outputs@[0])
            &&& is_keyring_failure(step.outputs@[1], "Failed to initialize keyring. "@ + detail@)
        },
        StoredToken::Missing => {
            &&& after.rests(before)
            &&& step.next is Receive
            &&& step.outputs@.len() == 1
            &&& is_not_logged_in(step.outputs@[0])
        },
        StoredToken::Found { token } => goes_on(
            before,
            after,
            step,
            Pending::StartupRefresh,
            WorkerAction::Call(ApiCall::Refresh { refresh_token: token }),
        ),
    }
}

/// What the worker makes of the result of a login or of the refresh at
/// startup; `pending` is what it waits for after a success.
pub open spec fn on_login(
    before: Bridge,
    response: BlueskyLoginResponse,
    after: Bridge,
    step: WorkerStep,
    at_startup: bool,
) -> bool {
    match response {
        BlueskyLoginResponse::Success(info) => logged_in(
            before,
            after,
            step,
            if at_startup {
                Pending::StartupStore { info }
            } else {
                Pending::LoginStore { info }
            },
            info,
        ),
        _ => login_failed(before, after, step, response),
    }
}

/// What the worker makes of the credential store's word on the refresh
/// token: it reports a refusal, and in any case goes on to fetch the
/// profile of the account.
pub open spec fn on_stored(
    before: Bridge,
    outcome: StoreOutcome,
    after: Bridge,
    step: WorkerStep,
    pending: Pending,
) -> bool {
    &&& after.waits(before, pending)
    &&& store_outputs(outcome, step.outputs@)
    &&& step.next == WorkerAction::Call(ApiCall::GetProfileSelf)
}

/// What the worker makes of the profile at startup: a failure is reported,
/// and in any case the preferences are fetched next.
pub open spec fn on_startup_profile(
    before: Bridge,
    info: LoginInformation,
    result: Result<ProfileViewDetailed, BlueskyApiError>,
    after: Bridge,
    step: WorkerStep,
) -> bool {
    &&& step.next == WorkerAction::Call(ApiCall::GetPreferences)
    &&& match result {
        Ok(profile) => {
            &&& after.waits(before, Pending::StartupPreferences { info, profile: Some(profile) })
            &&& step.outputs@.len() == 0
        },
        Err(error) => {
            &&& after.waits(before, Pending::StartupPreferences { info, profile: None })
            &&& step.outputs@.len() == 1
            &&& is_backend_error(step.outputs@[0], reported("Profile pull failed."@, error))
        },
    }
}

/// What the worker makes of the preferences at startup: it asks for the
/// feed generators to show; where the preferences could not be had, it
/// reports that and completes the login without feed generators.
pub open spec fn on_startup_preferences(
    before: Bridge,
    info: LoginInformation,
    profile: Option<ProfileViewDetailed>,
    result: Result<Vec<crate::defs::actor::Preference>, BlueskyApiError>,
    after: Bridge,
    step: WorkerStep,
) -> bool {
    match result {
        Ok(preferences) => {
            &&& after.waits(before, Pending::StartupGenerators { info, profile })
            &&& step.outputs@.len() == 0
            &&& step.next matches WorkerAction::Call(ApiCall::GetFeedGenerators { feeds })
            &&& texts(feeds@) == pinned_values(preferences@)
        },
        Err(error) => login_complete(
            before,
            after,
            step,
            info,
            profile,
            Seq::empty(),
            Some(("Preferences pull failed."@, error)),
        ),
    }
}

/// What the worker makes of the feed generators at startup: it completes
/// the login with them, or reports the failure and completes it without.
pub open spec fn on_startup_generators(
    before: Bridge,
    info: LoginInformation,
    profile: Option<ProfileViewDetailed>,
    result: Result<Vec<crate::defs::feed::defs::GeneratorView>, BlueskyApiError>,
    after: Bridge,
    step: WorkerStep,
) -> bool {
    match result {
        Ok(generators) => login_complete(
            before,
            after,
            step,
            info,
            profile,
            generators@,
            None,
        ),
        Err(error) => login_complete(
            before,
            after,
            step,
            info,
            profile,
            Seq::empty(),
            Some(("Feed generator pull failed."@, error)),
        ),
    }
}

/// What the worker makes of the profile after a login: it completes the
/// login, with the profile where it could be had and without a word on it
/// where not.
pub open spec fn on_login_profile(
    before: Bridge,
    info: LoginInformation,
    result: Result<ProfileViewDetailed, BlueskyApiError>,
    after: Bridge,
    step: WorkerStep,
) -> bool {
    login_complete(
        before,
        after,
        step,
        info,
        match result {
            Ok(profile) => Some(profile),
            Err(_) => None,
        },
        Seq::empty(),
        None,
    )
}

/// What the worker makes of the bytes of an image file: it asks for them
/// to be uploaded, and keeps the size of the image for the post. The size
/// is what the image decoder made of the bytes, or none; either way the
/// upload goes on.
pub open spec fn on_image(
    before: Bridge,
    post: crate::defs::feed::Post,
    rest: Vec<String>,
    images: Vec<Image>,
    bytes: Vec<u8>,
    after: Bridge,
    step: WorkerStep,
) -> bool {
    exists|ratio: Option<crate::defs::embed::AspectRatio>|
        #[trigger] goes_on(
            before,
            after,
            step,
            Pending::MediaUpload { post, rest, images, ratio },
            WorkerAction::Call(ApiCall::UploadBlob(bytes)),
        )
}

/// What the worker makes of the descriptor of an uploaded image: the next
/// image is read, or, after the last one, the post is created with all of
/// them; a failed upload ends the command with the error.
pub open spec fn on_uploaded(
    before: Bridge,
    result: Result<crate::defs::Blob, BlueskyApiError>,
    after: Bridge,
    step: WorkerStep,
) -> bool {
    &&& before.pending() matches Pending::MediaUpload { post, rest, images, ratio }
    &&& match result {
        Err(error) => done_with(
            before,
            after,
            step,
            BackToFrontMsg::RecordCreationResponse(Err(error)),
        ),
        Ok(blob) => exists|image: Image|
            {
                &&& #[trigger] is_uploaded(image, blob, ratio)
                &&& step.outputs@.len() == 0
                &&& if rest@.len() == 0 {
                    &&& after.waits(before, Pending::CreateRecord)
                    &&& creates_with_images(post, images@.push(image), step.next)
                } else {
                    &&& after.follows(before, after.pending(), before.state(), before.busy())
                    &&& after.pending() matches Pending::MediaRead {
                        post: kept,
                        rest: left,
                        images: grown,
                    }
                    &&& kept == post
                    &&& grown@ == images@.push(image)
                    &&& reads_first(rest@, step.next, left@)
                }
            },
    }
}

/// What the worker makes of the deletion of a like or a repost: the
/// viewer's change is recorded for the post; a collection that is neither
/// ends the command with `NotImplemented`, a failed deletion with its
/// error.
pub open spec fn on_deleted(
    before: Bridge,
    nsid: String,
    post: PostHandle,
    result: Result<crate::backend::record::BlueskyApiDeleteRecordResponse, BlueskyApiError>,
    after: Bridge,
    step: WorkerStep,
) -> bool {
    match result {
        Ok(_) => if nsid@ == "app.bsky.feed.like"@ {
            done_recording(before, after, step, post, LocalMutation::Unliked)
        } else if nsid@ == "app.bsky.feed.repost"@ {
            done_recording(before, after, step, post, LocalMutation::Unreposted)
        } else {
            done_with(
                before,
                after,
                step,
                BackToFrontMsg::RecordDeletionResponse(Err(BlueskyApiError::NotImplemented)),
            )
        },
        Err(error) => done_with(
            before,
            after,
            step,
            BackToFrontMsg::RecordDeletionResponse(Err(error)),
        ),
    }
}

/// What the worker makes of what the driver hands back, given what it
/// waits for. Whatever does not answer what it waits for is ignored.
pub open spec fn resumed(
    before: Bridge,
    outcome: WorkerOutcome,
    after: Bridge,
    step: WorkerStep,
) -> bool {
    &&& step.ticket == before.accepted()
    &&& match (before.pending(), outcome) {
        (Pending::StartupToken, WorkerOutcome::Token(token)) => on_startup_token(
            before,
            token,
            after,
            step,
        ),
        (Pending::StartupRefresh, WorkerOutcome::Api(ApiResult::Login(response))) => on_login(
            before,
            response,
            after,
            step,
            true,
        ),
        (Pending::StartupStore { info }, WorkerOutcome::Stored(outcome)) => on_stored(
            before,
            outcome,
            after,
            step,
            Pending::StartupProfile { info },
        ),
        (
            Pending::StartupProfile { info },
            WorkerOutcome::Api(ApiResult::Profile(result)),
        ) => on_startup_profile(before, info, result, after, step),
        (
            Pending::StartupPreferences { info, profile },
            WorkerOutcome::Api(ApiResult::Preferences(result)),
        ) => on_startup_preferences(before, info, profile, result, after, step),
        (
            Pending::StartupGenerators { info, profile },
            WorkerOutcome::Api(ApiResult::FeedGenerators(result)),
        ) => on_startup_generators(before, info, profile, result, after, step),
        (Pending::Login, WorkerOutcome::Api(ApiResult::Login(response))) => on_login(
            before,
            response,
            after,
            step,
            false,
        ),
        (Pending::LoginStore { info }, WorkerOutcome::Stored(outcome)) => on_stored(
            before,
            outcome,
            after,
            step,
            Pending::LoginProfile { info },
        ),
        (
            Pending::LoginProfile { info },
            WorkerOutcome::Api(ApiResult::Profile(result)),
        ) => on_login_profile(before, info, result, after, step),
        (Pending::Timeline, WorkerOutcome::Api(ApiResult::Feed(result))) => done_with(
            before,
            after,
            step,
            BackToFrontMsg::TimelineResponse(result),
        ),
        (Pending::Profile { did }, WorkerOutcome::Api(ApiResult::Profile(result))) => done_with(
            before,
            after,
            step,
            BackToFrontMsg::ProfileResponse(did, result),
        ),
        (Pending::Thread { uri }, WorkerOutcome::Api(ApiResult::Thread(result))) => done_with(
            before,
            after,
            step,
            BackToFrontMsg::ThreadResponse(uri, result),
        ),
        (Pending::AuthorFeed { sink }, WorkerOutcome::Api(ApiResult::Feed(result))) => match result {
            Ok(page) => done(before, after, step, seq![WorkerOutput::Posts { sink, page }]),
            Err(error) => done_reporting(before, after, step, "Author feed pull failed."@, error),
        },
        (Pending::FollowersCursor { did, sink }, WorkerOutcome::Cursor(cursor)) => {
            &&& after.waits(before, Pending::Followers { sink })
            &&& step.outputs@.len() == 0
            &&& step.next matches WorkerAction::Call(ApiCall::GetFollowers { did: d, cursor: c })
            &&& d == did
            &&& c@ == match cursor {
                Some(text) => text@,
                None => Seq::empty(),
            }
        },
        (
            Pending::Followers { sink },
            WorkerOutcome::Api(ApiResult::Followers(result)),
        ) => match result {
            Ok(page) => done(
                before,
                after,
                step,
                seq![WorkerOutput::Followers { sink, cursor: page.0, items: page.1 }],
            ),
            Err(error) => done_reporting(before, after, step, "Followers pull failed."@, error),
        },
        (Pending::CreateRecord, WorkerOutcome::Api(ApiResult::RecordCreated(result))) => done_with(
            before,
            after,
            step,
            BackToFrontMsg::RecordCreationResponse(result),
        ),
        (Pending::MediaRead { post, rest, images }, WorkerOutcome::Image { bytes }) => on_image(
            before,
            post,
            rest,
            images,
            bytes,
            after,
            step,
        ),
        (Pending::MediaUpload { .. }, WorkerOutcome::Api(ApiResult::Blob(result))) => on_uploaded(
            before,
            result,
            after,
            step,
        ),
        (Pending::Like { post }, WorkerOutcome::Api(ApiResult::RecordCreated(result))) => match result {
            Ok(created) => done_recording(
                before,
                after,
                step,
                post,
                LocalMutation::Liked { uri: created.uri },
            ),
            Err(error) => done_with(
                before,
                after,
                step,
                BackToFrontMsg::RecordCreationResponse(Err(error)),
            ),
        },
        (
            Pending::Repost { post },
            WorkerOutcome::Api(ApiResult::RecordCreated(result)),
        ) => match result {
            Ok(created) => done_recording(
                before,
                after,
                step,
                post,
                LocalMutation::Reposted { uri: created.uri },
            ),
            Err(error) => done_with(
                before,
                after,
                step,
                BackToFrontMsg::RecordCreationResponse(Err(error)),
            ),
        },
        (
            Pending::DeleteUnderPost { nsid, post },
            WorkerOutcome::Api(ApiResult::RecordDeleted(result)),
        ) => on_deleted(before, nsid, post, result, after, step),
        _ => ignored(before, after, step),
    }
}

/// The worker takes a command: it counts it, sets the busy indicator, asks
/// for `next` and waits for `pending`.
pub open spec fn taken(
    before: Bridge,
    after: Bridge,
    step: WorkerStep,
    pending: Pending,
    next: WorkerAction,
) -> bool {
    &&& after.client() == before.client()
    &&& after.state() == before.state()
    &&& after.pending() == pending
    &&& after.busy()
    &&& step.outputs@.len() == 0
    &&& step.next == next
}

/// The worker turns a command down at once, with a single event: it is
/// idle and not busy afterwards.
pub open spec fn turned_down(
    before: Bridge,
    after: Bridge,
    step: WorkerStep,
    event: BackToFrontMsg,
) -> bool {
    &&& after.client() == before.client()
    &&& after.state() == before.state()
    &&& after.pending() is Idle
    &&& !after.busy()
    &&& step.outputs@ == seq![WorkerOutput::Event(event)]
    &&& step.next is Receive
}

/// What the worker makes of a command to create a post with images: the
/// first image is read, or, where there is none, the post is created with
/// an empty list of images. A record that is no post is turned down.
pub open spec fn on_media(
    before: Bridge,
    record: BlueskyApiRecord,
    paths: Seq<String>,
    after: Bridge,
    step: WorkerStep,
) -> bool {
    match record {
        BlueskyApiRecord::Post(post) => {
            &&& after.client() == before.client()
            &&& after.state() == before.state()
            &&& after.busy()
            &&& step.outputs@.len() == 0
            &&& if paths.len() == 0 {
                &&& after.pending() is CreateRecord
                &&& creates_with_images(post, Seq::empty(), step.next)
            } else {
                &&& after.pending() matches Pending::MediaRead { post: kept, rest, images }
                &&& kept == post
                &&& images@.len() == 0
                &&& reads_first(paths, step.next, rest@)
            }
        },
        _ => turned_down(
            before,
            after,
            step,
            BackToFrontMsg::RecordCreationResponse(Err(BlueskyApiError::NotImplemented)),
        ),
    }
}

/// What the worker makes of a command. A worker that is not idle, or that
/// has counted as many commands as it can, ignores it.
pub open spec fn begun(
    before: Bridge,
    command: FrontToBackMsg,
    after: Bridge,
    step: WorkerStep,
) -> bool {
    if !(before.pending() is Idle) || before.accepted() == u64::MAX {
        ignored(before, after, step)
    } else {
        &&& after.accepted() == before.accepted() + 1
        &&& step.ticket == after.accepted()
        &&& match command {
            FrontToBackMsg::ShutdownMessage => taken(
                before,
                after,
                step,
                Pending::Stopped,
                WorkerAction::Stop,
            ),
            FrontToBackMsg::LoginRequestStandard { handle, password } => taken(
                before,
                after,
                step,
                Pending::Login,
                WorkerAction::Call(ApiCall::Login { handle, password }),
            ),
            FrontToBackMsg::GetTimelineRequest { cursor, limit } => taken(
                before,
                after,
                step,
                Pending::Timeline,
                WorkerAction::Call(ApiCall::GetTimeline { cursor, limit }),
            ),
            FrontToBackMsg::GetFeedRequest { feed, cursor, limit } => taken(
                before,
                after,
                step,
                Pending::Timeline,
                WorkerAction::Call(ApiCall::GetFeed { feed, cursor }),
            ),
            FrontToBackMsg::GetProfileRequest { did } => taken(
                before,
                after,
                step,
                Pending::Profile { did },
                WorkerAction::Call(ApiCall::GetProfile { did }),
            ),
            FrontToBackMsg::GetThreadRequest { uri } => taken(
                before,
                after,
                step,
                Pending::Thread { uri },
                WorkerAction::Call(ApiCall::GetThread { uri, depth: None, height: None }),
            ),
            FrontToBackMsg::GetAuthorFeedRequest { did, cursor, posts } => taken(
                before,
                after,
                step,
                Pending::AuthorFeed { sink: posts },
                WorkerAction::Call(ApiCall::GetAuthorFeed { did, cursor }),
            ),
            FrontToBackMsg::GetFollowersRequest { did, profiles } => taken(
                before,
                after,
                step,
                Pending::FollowersCursor { did, sink: profiles },
                WorkerAction::TakeCursor { sink: profiles },
            ),
            FrontToBackMsg::CreateRecordRequest(record) => taken(
                before,
                after,
                step,
                Pending::CreateRecord,
                WorkerAction::Call(ApiCall::CreateRecord(record)),
            ),
            FrontToBackMsg::CreateRecordWithMediaRequest(record, paths) => on_media(
                before,
                record,
                paths@,
                after,
                step,
            ),
            FrontToBackMsg::CreateRecordUnderPostRequest(record, post) => match record {
                BlueskyApiRecord::Post(_) => turned_down(
                    before,
                    after,
                    step,
                    BackToFrontMsg::RecordCreationResponse(Err(BlueskyApiError::NotImplemented)),
                ),
                BlueskyApiRecord::Like(like) => taken(
                    before,
                    after,
                    step,
                    Pending::Like { post },
                    WorkerAction::Call(ApiCall::CreateRecord(BlueskyApiRecord::Like(like))),
                ),
                BlueskyApiRecord::Repost(like) => taken(
                    before,
                    after,
                    step,
                    Pending::Repost { post },
                    WorkerAction::Call(ApiCall::CreateRecord(BlueskyApiRecord::Repost(like))),
                ),
            },
            FrontToBackMsg::DeleteRecordRequest { rkey, nsid } => turned_down(
                before,
                after,
                step,
                BackToFrontMsg::RecordDeletionResponse(Err(BlueskyApiError::NotImplemented)),
            ),
            FrontToBackMsg::DeleteRecordUnderPostRequest { rkey, nsid, post_mod } => taken(
                before,
                after,
                step,
                Pending::DeleteUnderPost { nsid, post: post_mod },
                WorkerAction::Call(ApiCall::DeleteRecord { rkey, nsid }),
            ),
        }
    }
}

/// What is handed to the worker: a command, or what came of what it asked
/// for.
pub enum WorkerInput {
    Command(FrontToBackMsg),
    Outcome(WorkerOutcome),
}

/// One step of the worker, from `before` to `after`.
pub open spec fn stepped(
    before: Bridge,
    input: WorkerInput,
    after: Bridge,
    step: WorkerStep,
) -> bool {
    match input {
        WorkerInput::Command(command) => begun(before, command, after, step),
        WorkerInput::Outcome(outcome) => resumed(before, outcome, after, step),
    }
}

/// `states` are the states that the worker goes through when it is handed
/// `inputs` one after the other, and `steps` are its steps.
pub open spec fn is_run(
    states: Seq<Bridge>,
    inputs: Seq<WorkerInput>,
    steps: Seq<WorkerStep>,
) -> bool {
    &&& states.len() == inputs.len() + 1
    &&& steps.len() == inputs.len()
    &&& forall|k: int|
        0 <= k < inputs.len() ==> stepped(states[k], inputs[k], states[k + 1], #[trigger] steps[k])
}

/// What comes of what the worker asked for never changes the count of
/// commands, and the step belongs to the command that was being served.
pub proof fn lemma_resumed_keeps_count(
    before: Bridge,
    outcome: WorkerOutcome,
    after: Bridge,
    step: WorkerStep,
)
    requires
        resumed(before, outcome, after, step),
    ensures
        after.accepted() == before.accepted(),
        step.ticket == before.accepted(),
        before.pending() is Idle || before.pending() is Stopped ==> after == before
            && step.outputs@.len() == 0,
{
}

/// A command is taken only by an idle worker, and gets the number that
/// follows that of the command before it.
pub proof fn lemma_begun_counts(
    before: Bridge,
    command: FrontToBackMsg,
    after: Bridge,
    step: WorkerStep,
)
    requires
        begun(before, command, after, step),
    ensures
        step.ticket == after.accepted(),
        !(before.pending() is Idle) ==> after == before && step.outputs@.len() == 0,
        before.pending() is Idle && before.accepted() < u64::MAX ==> after.accepted()
            == before.accepted() + 1,
        before.accepted() <= after.accepted(),
{
}

/// Commands are served in the order in which they are taken, and what goes
/// to the presentation layer for one command goes out before anything of a
/// later one: along a run of the worker, the number of the command that a
/// step belongs to never goes down.
pub proof fn law_commands_in_order(
    states: Seq<Bridge>,
    inputs: Seq<WorkerInput>,
    steps: Seq<WorkerStep>,
    earlier: int,
    later: int,
)
    requires
        is_run(states, inputs, steps),
        0 <= earlier <= later < steps.len(),
    ensures
        steps[earlier].ticket <= steps[later].ticket,
        states[earlier].accepted() <= steps[earlier].ticket <= states[earlier + 1].accepted(),
    decreases later - earlier,
{
    lemma_step_counts(states, inputs, steps, earlier);
    if earlier < later {
        lemma_step_counts(states, inputs, steps, later);
        lemma_count_grows(states, inputs, steps, earlier + 1, later);
    }
}

proof fn lemma_step_counts(
    states: Seq<Bridge>,
    inputs: Seq<WorkerInput>,
    steps: Seq<WorkerStep>,
    at: int,
)
    requires
        is_run(states, inputs, steps),
        0 <= at < steps.len(),
    ensures
        states[at].accepted() <= steps[at].ticket <= states[at + 1].accepted(),
{
    assert(stepped(states[at], inputs[at], states[at + 1], steps[at]));
    match inputs[at] {
        WorkerInput::Command(command) => lemma_begun_counts(
            states[at],
            command,
            states[at + 1],
            steps[at],
        ),
        WorkerInput::Outcome(outcome) => lemma_resumed_keeps_count(
            states[at],
            outcome,
            states[at + 1],
            steps[at],
        ),
    }
}

proof fn lemma_count_grows(
    states: Seq<Bridge>,
    inputs: Seq<WorkerInput>,
    steps: Seq<WorkerStep>,
    from: int,
    to: int,
)
    requires
        is_run(states, inputs, steps),
        0 <= from <= to < states.len(),
    ensures
        states[from].accepted() <= states[to].accepted(),
    decreases to - from,
{
    if from < to {
        lemma_step_counts(states, inputs, steps, from);
        lemma_count_grows(states, inputs, steps, from + 1, to);
    }
}

} // verus!
