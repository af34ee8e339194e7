//! The worker: what it waits for, and what it makes of what comes.

use crate::backend::blob::aspect_ratio;
use crate::backend::cache::{LocalMutation, PostHandle};
use crate::backend::login::{BlueskyLoginResponse, BlueskyLoginResponseInfo, LoginInformation};
use crate::backend::record::BlueskyApiRecord;
use crate::backend::text::str_eq;
use crate::backend::{BlueskyApiError, ClientBackend};
use crate::bridge::messages::{pinned_feeds, prefixed, report};
use crate::bridge::rules::{
    begun, done, done_recording, done_reporting, done_with, goes_on, ignored, login_complete,
    on_deleted, on_login, on_login_profile, on_media, on_startup_generators,
    on_startup_preferences, on_startup_profile, on_startup_token, on_stored, on_uploaded, resumed,
    taken, turned_down,
};
use crate::bridge::{
    ApiCall, ApiResult, BackToFrontMsg, FrontToBackMsg, SinkId, StoreOutcome, StoredToken,
    WorkerAction, WorkerOutcome, WorkerOutput, WorkerStep,
};
use crate::defs::actor::ProfileViewDetailed;
use crate::defs::embed::images::Image;
use crate::defs::embed::{AspectRatio, Variant};
use crate::defs::feed::defs::GeneratorView;
use crate::defs::feed::Post;
use vstd::prelude::*;
use vstd::string::StringExecFns;

verus! {

/// Whether an account is logged in.
#[derive(Debug, Clone, Copy, PartialEq, Eq, Structural)]
pub enum WorkerState {
    Unauthenticated,
    Authenticated,
}

/// What the worker waits for.
#[derive(Debug)]
pub enum Pending {
    /// The next command.
    Idle,
    /// Nothing: the worker has been shut down.
    Stopped,
    /// At startup: the refresh token from the credential store.
    StartupToken,
    /// At startup: the result of the refresh.
    StartupRefresh,
    /// At startup: the credential store's word on the new refresh token.
    StartupStore { info: LoginInformation },
    /// At startup: the profile of the account.
    StartupProfile { info: LoginInformation },
    /// At startup: the preferences of the account.
    StartupPreferences { info: LoginInformation, profile: Option<ProfileViewDetailed> },
    /// At startup: the feed generators to show.
    StartupGenerators { info: LoginInformation, profile: Option<ProfileViewDetailed> },
    /// The result of a login.
    Login,
    /// After a login: the credential store's word on the refresh token.
    LoginStore { info: LoginInformation },
    /// After a login: the profile of the account.
    LoginProfile { info: LoginInformation },
    /// A page of the timeline or of a feed.
    Timeline,
    /// The profile of `did`.
    Profile { did: String },
    /// The thread around `uri`.
    Thread { uri: String },
    /// A page of an author's posts, for the list `sink`.
    AuthorFeed { sink: SinkId },
    /// The cursor of the list `sink`, to fetch followers of `did` from.
    FollowersCursor { did: String, sink: SinkId },
    /// A page of followers, for the list `sink`.
    Followers { sink: SinkId },
    /// What the service assigned to a new record.
    CreateRecord,
    /// The next image of a post: `images` are uploaded, the next one is
    /// being read, and those at `rest` are still to come.
    MediaRead { post: Post, rest: Vec<String>, images: Vec<Image> },
    /// The descriptor of the image that is being uploaded, whose size, as
    /// far as it could be told from its bytes, is `ratio`.
    MediaUpload { post: Post, rest: Vec<String>, images: Vec<Image>, ratio: Option<AspectRatio> },
    /// What the service assigned to a like of `post`.
    Like { post: PostHandle },
    /// What the service assigned to a repost of `post`.
    Repost { post: PostHandle },
    /// The deletion of a record of the collection `nsid` under `post`.
    DeleteUnderPost { nsid: String, post: PostHandle },
}

/// The worker. It holds the client, knows whether an account is logged in,
/// and keeps what it waits for between one step and the next.
pub struct Bridge {
    api: ClientBackend,
    state: WorkerState,
    busy: bool,
    pending: Pending,
    accepted: u64,
}

/// The event that tells that no account is logged in.
pub open spec fn is_not_logged_in(output: WorkerOutput) -> bool {
    &&& output matches WorkerOutput::Event(
        BackToFrontMsg::LoginResponse(
            BlueskyLoginResponse::Info(BlueskyLoginResponseInfo::WasntLoggedIn),
            None,
            generators,
        ),
    )
    &&& generators@.len() == 0
}

/// The event that carries a login result that is no success.
pub open spec fn is_login_failure(output: WorkerOutput, response: BlueskyLoginResponse) -> bool {
    &&& output matches WorkerOutput::Event(BackToFrontMsg::LoginResponse(r, None, generators))
    &&& r == response
    &&& generators@.len() == 0
}

/// The event that tells of a login, with the profile and the feed
/// generators that go with it.
pub open spec fn is_login_success(
    output: WorkerOutput,
    info: LoginInformation,
    profile: Option<ProfileViewDetailed>,
    generators: Seq<GeneratorView>,
) -> bool {
    &&& output matches WorkerOutput::Event(
        BackToFrontMsg::LoginResponse(BlueskyLoginResponse::Success(i), p, g),
    )
    &&& i == info
    &&& p == profile
    &&& g@ == generators
}

/// The event that reports a failure of the backend with the given text.
pub open spec fn is_backend_error(output: WorkerOutput, text: Seq<char>) -> bool {
    output matches WorkerOutput::Event(BackToFrontMsg::BackendError(t)) && t@ == text
}

/// The event that reports a failure of the credential store with the given
/// text.
pub open spec fn is_keyring_failure(output: WorkerOutput, text: Seq<char>) -> bool {
    output matches WorkerOutput::Event(BackToFrontMsg::KeyringFailure(t)) && t@ == text
}

/// The outputs that follow what the credential store said of a refresh
/// token: a report where it refused the token, nothing otherwise.
pub open spec fn store_outputs(outcome: StoreOutcome, outputs: Seq<WorkerOutput>) -> bool {
    match outcome {
        StoreOutcome::Failed { detail } => outputs.len() == 1 && is_keyring_failure(
            outputs[0],
            "Error when caching login: "@ + detail@,
        ),
        _ => outputs.len() == 0,
    }
}

/// The request to read the image at the head of `paths`, with the rest of
/// the paths kept for later.
pub open spec fn reads_first(paths: Seq<String>, next: WorkerAction, rest: Seq<String>) -> bool {
    &&& paths.len() > 0
    &&& next == (WorkerAction::ReadImage { path: paths[0] })
    &&& rest == paths.subrange(1, paths.len() as int)
}

/// The call that creates `post` with `images` as its embed.
pub open spec fn creates_with_images(post: Post, images: Seq<Image>, next: WorkerAction) -> bool {
    &&& next matches WorkerAction::Call(ApiCall::CreateRecord(BlueskyApiRecord::Post(sent)))
    &&& sent == (Post { embed: sent.embed, ..post })
    &&& sent.embed matches Some(embed)
    &&& *embed matches Variant::ImagesRaw { images: list }
    &&& list@ == images
}

/// The image that refers to an uploaded blob: no alternative text, and the
/// size that was read from the file.
pub open spec fn is_uploaded(image: Image, blob: crate::defs::Blob, ratio: Option<AspectRatio>) -> bool {
    image.image == blob && image.alt@.len() == 0 && image.aspect_ratio == ratio
}

impl Bridge {
    /// Whether an account is logged in.
    pub closed spec fn state(&self) -> WorkerState {
        self.state
    }

    /// The busy indicator: set while a command is being served.
    pub closed spec fn busy(&self) -> bool {
        self.busy
    }

    /// What the worker waits for.
    pub closed spec fn pending(&self) -> Pending {
        self.pending
    }

    /// How many commands the worker has taken so far.
    pub closed spec fn accepted(&self) -> u64 {
        self.accepted
    }

    /// The client, with the session and the cache.
    pub closed spec fn client(&self) -> ClientBackend {
        self.api
    }

    /// The worker's cache holds no content id twice.
    pub open spec fn wf(&self) -> bool {
        self.client().wf()
    }

    /// `self` is `before` with the given things to wait for, login state
    /// and busy indicator; client and count of commands are the same.
    pub open spec fn follows(
        &self,
        before: Bridge,
        pending: Pending,
        state: WorkerState,
        busy: bool,
    ) -> bool {
        &&& self.client() == before.client()
        &&& self.accepted() == before.accepted()
        &&& self.pending() == pending
        &&& self.state() == state
        &&& self.busy() == busy
    }

    /// `self` is `before`, idle again and no longer busy.
    pub open spec fn rests(&self, before: Bridge) -> bool {
        self.follows(before, Pending::Idle, before.state(), false)
    }

    /// `self` is `before`, waiting for something else.
    pub open spec fn waits(&self, before: Bridge, pending: Pending) -> bool {
        self.follows(before, pending, before.state(), before.busy())
    }

    /// The client, for the driver to carry out the calls with. What the
    /// driver does to the client is all that changes in the worker.
    pub fn api(&mut self) -> (api: &mut ClientBackend)
        ensures
            *api == old(self).client(),
            final(self).client() == *final(api),
            final(self).pending() == old(self).pending(),
            final(self).state() == old(self).state(),
            final(self).busy() == old(self).busy(),
            final(self).accepted() == old(self).accepted(),
    {
        &mut self.api
    }

    /// The client, to look at.
    pub fn client_ref(&self) -> (api: &ClientBackend)
        ensures
            *api == self.client(),
    {
        &self.api
    }

    /// The busy indicator.
    pub fn is_busy(&self) -> (busy: bool)
        ensures
            busy == self.busy(),
    {
        self.busy
    }

    /// The worker waits for the next command.
    pub fn is_idle(&self) -> (idle: bool)
        ensures
            idle == (self.pending() is Idle),
    {
        matches!(self.pending, Pending::Idle)
    }

    /// The worker has been shut down.
    pub fn is_stopped(&self) -> (stopped: bool)
        ensures
            stopped == (self.pending() is Stopped),
    {
        matches!(self.pending, Pending::Stopped)
    }

    /// An account is logged in.
    pub fn is_authenticated(&self) -> (authenticated: bool)
        ensures
            authenticated == (self.state() == WorkerState::Authenticated),
    {
        matches!(self.state, WorkerState::Authenticated)
    }

    /// How many commands the worker has taken so far.
    pub fn commands_taken(&self) -> (count: u64)
        ensures
            count == self.accepted(),
    {
        self.accepted
    }

    /// A worker at startup: no account is logged in, no command has been
    /// taken, and the first thing to do is to read the stored refresh
    /// token.
    pub fn new(now: i64) -> (started: (Bridge, WorkerStep))
        ensures
            started.0.pending() is StartupToken,
            started.0.state() == WorkerState::Unauthenticated,
            !started.0.busy(),
            started.0.accepted() == 0,
            started.0.wf(),
            started.0.client().posts().len() == 0,
            started.0.client().session().access_token_expiry == now,
            started.1.outputs@.len() == 0,
            started.1.next is ReadToken,
            started.1.ticket == 0,
    {
        let bridge = Bridge {
            api: ClientBackend::new(now),
            state: WorkerState::Unauthenticated,
            busy: false,
            pending: Pending::StartupToken,
            accepted: 0,
        };
        (bridge, WorkerStep { outputs: Vec::new(), next: WorkerAction::ReadToken, ticket: 0 })
    }

    fn step(&self, outputs: Vec<WorkerOutput>, next: WorkerAction) -> (step: WorkerStep)
        ensures
            step.outputs == outputs,
            step.next == next,
            step.ticket == self.accepted(),
    {
        WorkerStep { outputs, next, ticket: self.accepted }
    }

    fn say(&self, event: BackToFrontMsg, next: WorkerAction) -> (step: WorkerStep)
        ensures
            step.outputs@ == seq![WorkerOutput::Event(event)],
            step.next == next,
            step.ticket == self.accepted(),
    {
        let mut outputs: Vec<WorkerOutput> = Vec::new();
        outputs.push(WorkerOutput::Event(event));
        self.step(outputs, next)
    }

    fn rest(&mut self)
        ensures
            final(self).rests(*old(self)),
    {
        self.pending = Pending::Idle;
        self.busy = false;
    }

    fn wait(&mut self, pending: Pending)
        ensures
            final(self).waits(*old(self), pending),
    {
        self.pending = pending;
    }
}

impl Bridge {
    fn ignore(&self) -> (step: WorkerStep)
        ensures
            step.outputs@.len() == 0,
            step.next is Ignored,
            step.ticket == self.accepted(),
    {
        self.step(Vec::new(), WorkerAction::Ignored)
    }

    fn go_on(&mut self, pending: Pending, next: WorkerAction) -> (step: WorkerStep)
        ensures
            goes_on(*old(self), *final(self), step, pending, next),
            step.ticket == old(self).accepted(),
    {
        self.wait(pending);
        self.step(Vec::new(), next)
    }

    fn finish(&mut self, outputs: Vec<WorkerOutput>) -> (step: WorkerStep)
        ensures
            done(*old(self), *final(self), step, outputs@),
            step.ticket == old(self).accepted(),
    {
        self.rest();
        self.step(outputs, WorkerAction::Receive)
    }

    fn finish_with(&mut self, event: BackToFrontMsg) -> (step: WorkerStep)
        ensures
            done_with(*old(self), *final(self), step, event),
            step.ticket == old(self).accepted(),
    {
        self.rest();
        self.say(event, WorkerAction::Receive)
    }

    fn finish_reporting(&mut self, what: &str, error: BlueskyApiError) -> (step: WorkerStep)
        ensures
            done_reporting(*old(self), *final(self), step, what@, error),
            step.ticket == old(self).accepted(),
    {
        let text = report(what, &error);
        self.rest();
        self.say(BackToFrontMsg::BackendError(text), WorkerAction::Receive)
    }

    fn finish_recording(&mut self, post: PostHandle, mutation: LocalMutation) -> (step: WorkerStep)
        requires
            old(self).wf(),
        ensures
            done_recording(*old(self), *final(self), step, post, mutation),
            step.ticket == old(self).accepted(),
            final(self).wf(),
    {
        let _ = self.api.apply_local_mutation(post, mutation);
        self.pending = Pending::Idle;
        self.busy = false;
        self.step(Vec::new(), WorkerAction::Receive)
    }

    fn finish_login(
        &mut self,
        info: LoginInformation,
        profile: Option<ProfileViewDetailed>,
        generators: Vec<GeneratorView>,
        failure: Option<(&str, BlueskyApiError)>,
    ) -> (step: WorkerStep)
        ensures
            login_complete(
                *old(self),
                *final(self),
                step,
                info,
                profile,
                generators@,
                match failure {
                    Some((what, error)) => Some((what@, error)),
                    None => None,
                },
            ),
            step.ticket == old(self).accepted(),
    {
        let mut outputs: Vec<WorkerOutput> = Vec::new();
        match failure {
            Some((what, error)) => {
                let text = report(what, &error);
                outputs.push(WorkerOutput::Event(BackToFrontMsg::BackendError(text)));
            },
            None => {},
        }
        outputs.push(
            WorkerOutput::Event(
                BackToFrontMsg::LoginResponse(
                    BlueskyLoginResponse::Success(info),
                    profile,
                    generators,
                ),
            ),
        );
        self.rest();
        self.step(outputs, WorkerAction::Receive)
    }

    fn take_login(&mut self, response: BlueskyLoginResponse, at_startup: bool) -> (step: WorkerStep)
        ensures
            on_login(*old(self), response, *final(self), step, at_startup),
            step.ticket == old(self).accepted(),
    {
        match response {
            BlueskyLoginResponse::Success(info) => {
                let token = info.refresh_token.clone();
                self.state = WorkerState::Authenticated;
                self.pending = if at_startup {
                    Pending::StartupStore { info }
                } else {
                    Pending::LoginStore { info }
                };
                self.step(Vec::new(), WorkerAction::StoreToken { token })
            },
            other => {
                self.rest();
                self.say(
                    BackToFrontMsg::LoginResponse(other, None, Vec::new()),
                    WorkerAction::Receive,
                )
            },
        }
    }

    fn take_stored(&mut self, outcome: StoreOutcome, pending: Pending) -> (step: WorkerStep)
        ensures
            on_stored(*old(self), outcome, *final(self), step, pending),
            step.ticket == old(self).accepted(),
    {
        let mut outputs: Vec<WorkerOutput> = Vec::new();
        match outcome {
            StoreOutcome::Failed { detail } => {
                let text = prefixed("Error when caching login: ", detail.as_str());
                outputs.push(WorkerOutput::Event(BackToFrontMsg::KeyringFailure(text)));
            },
            _ => {},
        }
        self.wait(pending);
        self.step(outputs, WorkerAction::Call(ApiCall::GetProfileSelf))
    }

    fn take_startup_token(&mut self, token: StoredToken) -> (step: WorkerStep)
        ensures
            on_startup_token(*old(self), token, *final(self), step),
            step.ticket == old(self).accepted(),
    {
        match token {
            StoredToken::Found { token } => self.go_on(
                Pending::StartupRefresh,
                WorkerAction::Call(ApiCall::Refresh { refresh_token: token }),
            ),
            StoredToken::Missing => {
                self.rest();
                self.say(
                    BackToFrontMsg::LoginResponse(
                        BlueskyLoginResponse::Info(BlueskyLoginResponseInfo::WasntLoggedIn),
                        None,
                        Vec::new(),
                    ),
                    WorkerAction::Receive,
                )
            },
            StoredToken::Unavailable { detail } => {
                let mut outputs: Vec<WorkerOutput> = Vec::new();
                outputs.push(
                    WorkerOutput::Event(
                        BackToFrontMsg::LoginResponse(
                            BlueskyLoginResponse::Info(BlueskyLoginResponseInfo::WasntLoggedIn),
                            None,
                            Vec::new(),
                        ),
                    ),
                );
                let text = prefixed("Failed to initialize keyring. ", detail.as_str());
                outputs.push(WorkerOutput::Event(BackToFrontMsg::KeyringFailure(text)));
                self.rest();
                self.step(outputs, WorkerAction::Receive)
            },
        }
    }

    fn take_startup_profile(
        &mut self,
        info: LoginInformation,
        result: Result<ProfileViewDetailed, BlueskyApiError>,
    ) -> (step: WorkerStep)
        ensures
            on_startup_profile(*old(self), info, result, *final(self), step),
            step.ticket == old(self).accepted(),
    {
        let mut outputs: Vec<WorkerOutput> = Vec::new();
        let profile = match result {
            Ok(profile) => Some(profile),
            Err(error) => {
                let text = report("Profile pull failed.", &error);
                outputs.push(WorkerOutput::Event(BackToFrontMsg::BackendError(text)));
                None
            },
        };
        self.wait(Pending::StartupPreferences { info, profile });
        self.step(outputs, WorkerAction::Call(ApiCall::GetPreferences))
    }

    fn take_startup_preferences(
        &mut self,
        info: LoginInformation,
        profile: Option<ProfileViewDetailed>,
        result: Result<Vec<crate::defs::actor::Preference>, BlueskyApiError>,
    ) -> (step: WorkerStep)
        ensures
            on_startup_preferences(*old(self), info, profile, result, *final(self), step),
            step.ticket == old(self).accepted(),
    {
        match result {
            Ok(preferences) => {
                let feeds = pinned_feeds(&preferences);
                self.wait(Pending::StartupGenerators { info, profile });
                self.step(Vec::new(), WorkerAction::Call(ApiCall::GetFeedGenerators { feeds }))
            },
            Err(error) => self.finish_login(
                info,
                profile,
                Vec::new(),
                Some(("Preferences pull failed.", error)),
            ),
        }
    }

    fn take_startup_generators(
        &mut self,
        info: LoginInformation,
        profile: Option<ProfileViewDetailed>,
        result: Result<Vec<GeneratorView>, BlueskyApiError>,
    ) -> (step: WorkerStep)
        ensures
            on_startup_generators(*old(self), info, profile, result, *final(self), step),
            step.ticket == old(self).accepted(),
    {
        match result {
            Ok(generators) => self.finish_login(info, profile, generators, None),
            Err(error) => self.finish_login(
                info,
                profile,
                Vec::new(),
                Some(("Feed generator pull failed.", error)),
            ),
        }
    }

    fn take_login_profile(
        &mut self,
        info: LoginInformation,
        result: Result<ProfileViewDetailed, BlueskyApiError>,
    ) -> (step: WorkerStep)
        ensures
            on_login_profile(*old(self), info, result, *final(self), step),
            step.ticket == old(self).accepted(),
    {
        let profile = match result {
            Ok(profile) => Some(profile),
            Err(_) => None,
        };
        self.finish_login(info, profile, Vec::new(), None)
    }
}

impl Bridge {
    fn take_uploaded(
        &mut self,
        post: Post,
        rest: Vec<String>,
        images: Vec<Image>,
        ratio: Option<AspectRatio>,
        result: Result<crate::defs::Blob, BlueskyApiError>,
    ) -> (step: WorkerStep)
        ensures
            ({
                let before = Bridge {
                    pending: Pending::MediaUpload { post, rest, images, ratio },
                    ..*old(self)
                };
                on_uploaded(before, result, *final(self), step)
            }),
            step.ticket == old(self).accepted(),
    {
        match result {
            Err(error) => self.finish_with(BackToFrontMsg::RecordCreationResponse(Err(error))),
            Ok(blob) => {
                let image = Image { image: blob, alt: String::new(), aspect_ratio: ratio };
                let mut images = images;
                images.push(image);
                let mut rest = rest;
                let step = if rest.len() == 0 {
                    self.pending = Pending::CreateRecord;
                    let next = create_with_images(post, images);
                    self.step(Vec::new(), next)
                } else {
                    let ghost paths = rest@;
                    let path = rest.remove(0);
                    proof {
                        assert(rest@ =~= paths.subrange(1, paths.len() as int));
                    }
                    self.pending = Pending::MediaRead { post, rest, images };
                    self.step(Vec::new(), WorkerAction::ReadImage { path })
                };
                proof {
                    assert(is_uploaded(image, blob, ratio));
                }
                step
            },
        }
    }

    fn take_deleted(
        &mut self,
        nsid: String,
        post: PostHandle,
        result: Result<crate::backend::record::BlueskyApiDeleteRecordResponse, BlueskyApiError>,
    ) -> (step: WorkerStep)
        requires
            old(self).wf(),
        ensures
            on_deleted(*old(self), nsid, post, result, *final(self), step),
            step.ticket == old(self).accepted(),
            final(self).wf(),
    {
        match result {
            Ok(_) => {
                if str_eq(nsid.as_str(), "app.bsky.feed.like") {
                    self.finish_recording(post, LocalMutation::Unliked)
                } else if str_eq(nsid.as_str(), "app.bsky.feed.repost") {
                    self.finish_recording(post, LocalMutation::Unreposted)
                } else {
                    self.finish_with(
                        BackToFrontMsg::RecordDeletionResponse(Err(BlueskyApiError::NotImplemented)),
                    )
                }
            },
            Err(error) => self.finish_with(BackToFrontMsg::RecordDeletionResponse(Err(error))),
        }
    }

    fn take(&mut self, pending: Pending, next: WorkerAction) -> (step: WorkerStep)
        requires
            old(self).accepted() < u64::MAX,
        ensures
            taken(*old(self), *final(self), step, pending, next),
            final(self).accepted() == old(self).accepted() + 1,
            step.ticket == final(self).accepted(),
    {
        self.accepted = self.accepted + 1;
        self.busy = true;
        self.pending = pending;
        self.step(Vec::new(), next)
    }

    fn turn_down(&mut self, event: BackToFrontMsg) -> (step: WorkerStep)
        requires
            old(self).accepted() < u64::MAX,
        ensures
            turned_down(*old(self), *final(self), step, event),
            final(self).accepted() == old(self).accepted() + 1,
            step.ticket == final(self).accepted(),
    {
        self.accepted = self.accepted + 1;
        self.busy = false;
        self.pending = Pending::Idle;
        self.say(event, WorkerAction::Receive)
    }

    fn take_media(&mut self, record: BlueskyApiRecord, paths: Vec<String>) -> (step: WorkerStep)
        requires
            old(self).accepted() < u64::MAX,
        ensures
            on_media(*old(self), record, paths@, *final(self), step),
            final(self).accepted() == old(self).accepted() + 1,
            step.ticket == final(self).accepted(),
    {
        match record {
            BlueskyApiRecord::Post(post) => {
                let mut rest = paths;
                if rest.len() == 0 {
                    let next = create_with_images(post, Vec::new());
                    self.take(Pending::CreateRecord, next)
                } else {
                    let path = rest.remove(0);
                    proof {
                        assert(rest@ =~= paths@.subrange(1, paths@.len() as int));
                    }
                    self.take(
                        Pending::MediaRead { post, rest, images: Vec::new() },
                        WorkerAction::ReadImage { path },
                    )
                }
            },
            _ => self.turn_down(
                BackToFrontMsg::RecordCreationResponse(Err(BlueskyApiError::NotImplemented)),
            ),
        }
    }

    /// Takes the next command.
    ///
    /// The worker takes a command only when it is idle: a command that
    /// comes while another is being served, before startup is over, or
    /// after a shutdown is ignored. A command that is taken gets the next
    /// number, and the busy indicator is set until the command is done.
    pub fn begin(&mut self, command: FrontToBackMsg) -> (step: WorkerStep)
        requires
            old(self).wf(),
        ensures
            begun(*old(self), command, *final(self), step),
            final(self).wf(),
    {
        if !self.is_idle() || self.accepted == u64::MAX {
            return self.ignore();
        }
        match command {
            FrontToBackMsg::ShutdownMessage => self.take(Pending::Stopped, WorkerAction::Stop),
            FrontToBackMsg::LoginRequestStandard { handle, password } => self.take(
                Pending::Login,
                WorkerAction::Call(ApiCall::Login { handle, password }),
            ),
            FrontToBackMsg::GetTimelineRequest { cursor, limit } => self.take(
                Pending::Timeline,
                WorkerAction::Call(ApiCall::GetTimeline { cursor, limit }),
            ),
            FrontToBackMsg::GetFeedRequest { feed, cursor, limit: _ } => self.take(
                Pending::Timeline,
                WorkerAction::Call(ApiCall::GetFeed { feed, cursor }),
            ),
            FrontToBackMsg::GetProfileRequest { did } => {
                let asked = did.clone();
                self.take(
                    Pending::Profile { did },
                    WorkerAction::Call(ApiCall::GetProfile { did: asked }),
                )
            },
            FrontToBackMsg::GetThreadRequest { uri } => {
                let asked = uri.clone();
                self.take(
                    Pending::Thread { uri },
                    WorkerAction::Call(ApiCall::GetThread { uri: asked, depth: None, height: None }),
                )
            },
            FrontToBackMsg::GetAuthorFeedRequest { did, cursor, posts } => self.take(
                Pending::AuthorFeed { sink: posts },
                WorkerAction::Call(ApiCall::GetAuthorFeed { did, cursor }),
            ),
            FrontToBackMsg::GetFollowersRequest { did, profiles } => self.take(
                Pending::FollowersCursor { did, sink: profiles },
                WorkerAction::TakeCursor { sink: profiles },
            ),
            FrontToBackMsg::CreateRecordRequest(record) => self.take(
                Pending::CreateRecord,
                WorkerAction::Call(ApiCall::CreateRecord(record)),
            ),
            FrontToBackMsg::CreateRecordWithMediaRequest(record, paths) => self.take_media(
                record,
                paths,
            ),
            FrontToBackMsg::CreateRecordUnderPostRequest(record, post) => match record {
                BlueskyApiRecord::Post(_) => self.turn_down(
                    BackToFrontMsg::RecordCreationResponse(Err(BlueskyApiError::NotImplemented)),
                ),
                BlueskyApiRecord::Like(like) => self.take(
                    Pending::Like { post },
                    WorkerAction::Call(ApiCall::CreateRecord(BlueskyApiRecord::Like(like))),
                ),
                BlueskyApiRecord::Repost(like) => self.take(
                    Pending::Repost { post },
                    WorkerAction::Call(ApiCall::CreateRecord(BlueskyApiRecord::Repost(like))),
                ),
            },
            FrontToBackMsg::DeleteRecordRequest { rkey: _, nsid: _ } => self.turn_down(
                BackToFrontMsg::RecordDeletionResponse(Err(BlueskyApiError::NotImplemented)),
            ),
            FrontToBackMsg::DeleteRecordUnderPostRequest { rkey, nsid, post_mod } => {
                let collection = nsid.clone();
                self.take(
                    Pending::DeleteUnderPost { nsid, post: post_mod },
                    WorkerAction::Call(ApiCall::DeleteRecord { rkey, nsid: collection }),
                )
            },
        }
    }

    /// Takes what the driver hands back, and says what is to be done next.
    ///
    /// What comes must answer what the worker asked for; anything else is
    /// ignored. The outputs of the step belong to the command that is
    /// being served, or to startup.
    pub fn resume(&mut self, outcome: WorkerOutcome) -> (step: WorkerStep)
        requires
            old(self).wf(),
        ensures
            resumed(*old(self), outcome, *final(self), step),
            final(self).wf(),
    {
        let mut pending = Pending::Idle;
        core::mem::swap(&mut self.pending, &mut pending);
        match (pending, outcome) {
            (Pending::StartupToken, WorkerOutcome::Token(token)) => self.take_startup_token(token),
            (Pending::StartupRefresh, WorkerOutcome::Api(ApiResult::Login(response))) => {
                self.take_login(response, true)
            },
            (Pending::StartupStore { info }, WorkerOutcome::Stored(outcome)) => self.take_stored(
                outcome,
                Pending::StartupProfile { info },
            ),
            (Pending::StartupProfile { info }, WorkerOutcome::Api(ApiResult::Profile(result))) => {
                self.take_startup_profile(info, result)
            },
            (
                Pending::StartupPreferences { info, profile },
                WorkerOutcome::Api(ApiResult::Preferences(result)),
            ) => self.take_startup_preferences(info, profile, result),
            (
                Pending::StartupGenerators { info, profile },
                WorkerOutcome::Api(ApiResult::FeedGenerators(result)),
            ) => self.take_startup_generators(info, profile, result),
            (Pending::Login, WorkerOutcome::Api(ApiResult::Login(response))) => self.take_login(
                response,
                false,
            ),
            (Pending::LoginStore { info }, WorkerOutcome::Stored(outcome)) => self.take_stored(
                outcome,
                Pending::LoginProfile { info },
            ),
            (Pending::LoginProfile { info }, WorkerOutcome::Api(ApiResult::Profile(result))) => {
                self.take_login_profile(info, result)
            },
            (Pending::Timeline, WorkerOutcome::Api(ApiResult::Feed(result))) => self.finish_with(
                BackToFrontMsg::TimelineResponse(result),
            ),
            (Pending::Profile { did }, WorkerOutcome::Api(ApiResult::Profile(result))) => {
                self.finish_with(BackToFrontMsg::ProfileResponse(did, result))
            },
            (Pending::Thread { uri }, WorkerOutcome::Api(ApiResult::Thread(result))) => {
                self.finish_with(BackToFrontMsg::ThreadResponse(uri, result))
            },
            (Pending::AuthorFeed { sink }, WorkerOutcome::Api(ApiResult::Feed(result))) => {
                match result {
                    Ok(page) => {
                        let mut outputs: Vec<WorkerOutput> = Vec::new();
                        outputs.push(WorkerOutput::Posts { sink, page });
                        self.finish(outputs)
                    },
                    Err(error) => self.finish_reporting("Author feed pull failed.", error),
                }
            },
            (Pending::FollowersCursor { did, sink }, WorkerOutcome::Cursor(cursor)) => {
                let cursor = match cursor {
                    Some(text) => text,
                    None => String::new(),
                };
                self.go_on(
                    Pending::Followers { sink },
                    WorkerAction::Call(ApiCall::GetFollowers { did, cursor }),
                )
            },
            (Pending::Followers { sink }, WorkerOutcome::Api(ApiResult::Followers(result))) => {
                match result {
                    Ok(page) => {
                        let (cursor, items) = page;
                        let mut outputs: Vec<WorkerOutput> = Vec::new();
                        outputs.push(WorkerOutput::Followers { sink, cursor, items });
                        self.finish(outputs)
                    },
                    Err(error) => self.finish_reporting("Followers pull failed.", error),
                }
            },
            (Pending::CreateRecord, WorkerOutcome::Api(ApiResult::RecordCreated(result))) => {
                self.finish_with(BackToFrontMsg::RecordCreationResponse(result))
            },
            (Pending::MediaRead { post, rest, images }, WorkerOutcome::Image { bytes }) => {
                let ratio = aspect_ratio(&bytes);
                let step = self.go_on(
                    Pending::MediaUpload { post, rest, images, ratio },
                    WorkerAction::Call(ApiCall::UploadBlob(bytes)),
                );
                assert(goes_on(
                    *old(self),
                    *self,
                    step,
                    Pending::MediaUpload { post, rest, images, ratio },
                    WorkerAction::Call(ApiCall::UploadBlob(bytes)),
                ));
                step
            },
            (
                Pending::MediaUpload { post, rest, images, ratio },
                WorkerOutcome::Api(ApiResult::Blob(result)),
            ) => self.take_uploaded(post, rest, images, ratio, result),
            (Pending::Like { post }, WorkerOutcome::Api(ApiResult::RecordCreated(result))) => {
                match result {
                    Ok(created) => self.finish_recording(
                        post,
                        LocalMutation::Liked { uri: created.uri },
                    ),
                    Err(error) => self.finish_with(
                        BackToFrontMsg::RecordCreationResponse(Err(error)),
                    ),
                }
            },
            (Pending::Repost { post }, WorkerOutcome::Api(ApiResult::RecordCreated(result))) => {
                match result {
                    Ok(created) => self.finish_recording(
                        post,
                        LocalMutation::Reposted { uri: created.uri },
                    ),
                    Err(error) => self.finish_with(
                        BackToFrontMsg::RecordCreationResponse(Err(error)),
                    ),
                }
            },
            (
                Pending::DeleteUnderPost { nsid, post },
                WorkerOutcome::Api(ApiResult::RecordDeleted(result)),
            ) => self.take_deleted(nsid, post, result),
            (pending, _) => {
                self.pending = pending;
                self.ignore()
            },
        }
    }
}

/// The call that creates `post` with `images` as its embed.
fn create_with_images(post: Post, images: Vec<Image>) -> (next: WorkerAction)
    ensures
        creates_with_images(post, images@, next),
{
    let Post { text, created_at, facets, reply, embed: _, langs, labels, tags } = post;
    WorkerAction::Call(
        ApiCall::CreateRecord(
            BlueskyApiRecord::Post(
                Post {
                    text,
                    created_at,
                    facets,
                    reply,
                    embed: Some(Box::new(Variant::ImagesRaw { images })),
                    langs,
                    labels,
                    tags,
                },
            ),
        ),
    )
}

} // verus!
