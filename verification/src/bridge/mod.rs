//! The bridge between the presentation layer and the service.
//!
//! One worker serves the commands of the presentation layer, one at a time
//! and in the order in which they come, and answers with events. The worker
//! itself waits for nothing: `Bridge` says what is to be done next, the
//! driver does it and hands back what came of it.

use crate::backend::cache::PostHandle;
use crate::backend::login::BlueskyLoginResponse;
use crate::backend::record::{
    BlueskyApiCreateRecordResponse, BlueskyApiDeleteRecordResponse, BlueskyApiRecord,
};
use crate::backend::thread::BlueskyApiGetThreadResponse;
use crate::backend::BlueskyApiError;
use crate::defs::actor::{Preference, ProfileView, ProfileViewDetailed};
use crate::defs::feed::defs::{FeedCursorPair, GeneratorView};
use crate::defs::Blob;
use vstd::prelude::*;

pub mod messages;
pub mod rules;
pub mod worker;

verus! {

/// Names a list of the presentation layer that the worker adds to.
#[derive(Debug, Clone, Copy, PartialEq, Eq, Structural)]
pub struct SinkId {
    pub id: usize,
}

/// A command of the presentation layer.
#[derive(Debug)]
pub enum FrontToBackMsg {
    ShutdownMessage,
    LoginRequestStandard { handle: String, password: String },
    GetTimelineRequest { cursor: Option<String>, limit: Option<u32> },
    GetFeedRequest { feed: String, cursor: Option<String>, limit: Option<u32> },
    GetProfileRequest { did: String },
    GetThreadRequest { uri: String },
    /// Fetch a page of the posts of `did` and add it to the list `posts`.
    GetAuthorFeedRequest { did: String, cursor: String, posts: SinkId },
    /// Fetch the next page of the followers of `did` and add it to the
    /// list `profiles`, whose cursor says where the page starts.
    GetFollowersRequest { did: String, profiles: SinkId },
    CreateRecordRequest(BlueskyApiRecord),
    /// Create a post with the images at the given paths.
    CreateRecordWithMediaRequest(BlueskyApiRecord, Vec<String>),
    /// Create a like or a repost of the post that the handle names.
    CreateRecordUnderPostRequest(BlueskyApiRecord, PostHandle),
    DeleteRecordRequest { rkey: String, nsid: String },
    /// Delete the viewer's like or repost of the post that the handle
    /// names.
    DeleteRecordUnderPostRequest { rkey: String, nsid: String, post_mod: PostHandle },
}

/// An event for the presentation layer.
#[derive(Debug)]
pub enum BackToFrontMsg {
    BackendError(String),
    LoginResponse(BlueskyLoginResponse, Option<ProfileViewDetailed>, Vec<GeneratorView>),
    TimelineResponse(Result<FeedCursorPair<PostHandle>, BlueskyApiError>),
    KeyringFailure(String),
    RecordCreationResponse(Result<BlueskyApiCreateRecordResponse, BlueskyApiError>),
    RecordDeletionResponse(Result<BlueskyApiDeleteRecordResponse, BlueskyApiError>),
    ProfileResponse(String, Result<ProfileViewDetailed, BlueskyApiError>),
    ThreadResponse(String, Result<BlueskyApiGetThreadResponse<PostHandle>, BlueskyApiError>),
}

/// An operation of the client that the worker wants carried out.
#[derive(Debug)]
pub enum ApiCall {
    Login { handle: String, password: String },
    Refresh { refresh_token: String },
    GetProfileSelf,
    GetProfile { did: String },
    GetPreferences,
    GetFeedGenerators { feeds: Vec<String> },
    GetTimeline { cursor: Option<String>, limit: Option<u32> },
    GetFeed { feed: String, cursor: Option<String> },
    GetThread { uri: String, depth: Option<usize>, height: Option<usize> },
    GetAuthorFeed { did: String, cursor: String },
    GetFollowers { did: String, cursor: String },
    CreateRecord(BlueskyApiRecord),
    DeleteRecord { rkey: String, nsid: String },
    UploadBlob(Vec<u8>),
}

/// What an operation of the client came to.
#[derive(Debug)]
pub enum ApiResult {
    Login(BlueskyLoginResponse),
    Profile(Result<ProfileViewDetailed, BlueskyApiError>),
    Preferences(Result<Vec<Preference>, BlueskyApiError>),
    FeedGenerators(Result<Vec<GeneratorView>, BlueskyApiError>),
    Feed(Result<FeedCursorPair<PostHandle>, BlueskyApiError>),
    Thread(Result<BlueskyApiGetThreadResponse<PostHandle>, BlueskyApiError>),
    Followers(Result<(String, Vec<ProfileView>), BlueskyApiError>),
    RecordCreated(Result<BlueskyApiCreateRecordResponse, BlueskyApiError>),
    RecordDeleted(Result<BlueskyApiDeleteRecordResponse, BlueskyApiError>),
    Blob(Result<Blob, BlueskyApiError>),
}

/// What the credential store holds.
#[derive(Debug)]
pub enum StoredToken {
    /// The store could not be opened; `detail` says why.
    Unavailable { detail: String },
    /// The store holds no refresh token.
    Missing,
    Found { token: String },
}

/// What became of writing the refresh token to the credential store.
#[derive(Debug)]
pub enum StoreOutcome {
    Stored,
    /// The store could not be opened.
    Unavailable,
    /// The store refused the token; `detail` says why.
    Failed { detail: String },
}

/// What the driver hands back to the worker.
#[derive(Debug)]
pub enum WorkerOutcome {
    /// The answer to `ReadToken`.
    Token(StoredToken),
    /// The answer to `StoreToken`.
    Stored(StoreOutcome),
    /// The answer to `Call`.
    Api(ApiResult),
    /// The answer to `TakeCursor`: the cursor that the list held.
    Cursor(Option<String>),
    /// The answer to `ReadImage`: the bytes of the file.
    Image { bytes: Vec<u8> },
}

/// What the driver is to do next.
#[derive(Debug)]
pub enum WorkerAction {
    /// Wait for the next command and hand it to `begin`.
    Receive,
    /// Stop: the worker serves no more commands.
    Stop,
    /// Read the refresh token from the credential store.
    ReadToken,
    /// Write the refresh token to the credential store.
    StoreToken { token: String },
    /// Carry out an operation of the client.
    Call(ApiCall),
    /// Take the cursor out of a list, leaving none in it.
    TakeCursor { sink: SinkId },
    /// Read an image file.
    ReadImage { path: String },
    /// What was handed in is not what the worker waits for. It was dropped
    /// and nothing has changed; what was asked for before is still due.
    Ignored,
}

/// Something that goes to the presentation layer.
#[derive(Debug)]
pub enum WorkerOutput {
    Event(BackToFrontMsg),
    /// Set the cursor of the list to that of the page, and add its posts.
    Posts { sink: SinkId, page: FeedCursorPair<PostHandle> },
    /// Set the cursor of the list, and add the profiles.
    Followers { sink: SinkId, cursor: String, items: Vec<ProfileView> },
}

/// One step of the worker.
#[derive(Debug)]
pub struct WorkerStep {
    /// What goes to the presentation layer, in this order.
    pub outputs: Vec<WorkerOutput>,
    pub next: WorkerAction,
    /// The number of the command that this step belongs to: commands are
    /// numbered from 1 in the order in which the worker took them, and 0
    /// stands for what the worker does before its first command.
    pub ticket: u64,
}

} // verus!
