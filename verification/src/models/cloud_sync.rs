//! The orchestrator of a cloud sync.
//!
//! A sync is a conversation. The library hands out one [`SyncCommand`] at a
//! time: emit a progress event, store the remote, do something on the
//! repository, read the clock. The program performs it and answers with a
//! [`SyncReply`]; the [`SyncSession`] takes the answer and says what comes
//! next, until it hands out `Finish` with the result for the caller and the
//! admission token to give back.

use vstd::prelude::*;
use crate::models::app_dir_paths::AppDirPaths;
use crate::models::git::GitCommand;
use crate::models::git::GitCommandView;
use crate::models::git::GitOutcome;
use crate::models::git::GitOutcomeView;
use crate::models::git::GitReply;
use crate::models::git::GitReplyView;
use crate::models::git::GitStep;
use crate::models::git::GitStepView;
use crate::models::git::Signature;
use crate::models::git::SignatureView;
use crate::models::git::TransferStats;
use crate::models::sync_error::SyncError;
use crate::models::sync_error::SyncErrorView;
use crate::models::sync_error::SyncResult;
use crate::models::sync_error::SyncResultView;
use crate::utils::fsutils::path_strip_prefix;
use crate::utils::fsutils::strip_prefix;
use crate::utils::git_utils::fetch_summary_message;
use crate::utils::git_utils::fetch_summary_text;
use crate::utils::git_utils::GitPhaseView;
use crate::utils::git_utils::GitUtils;
use crate::utils::git_utils::lemma_operation_ends;
use crate::utils::git_utils::merge_commit_message;
use crate::utils::git_utils::merge_message;
use crate::utils::git_utils::transfer_progress_message;
use crate::utils::git_utils::transfer_progress_text;
use crate::utils::sync_state_manager::Admission;
use crate::utils::sync_state_manager::ReleaseToken;
use crate::utils::sync_state_manager::SyncKind;
use crate::utils::text::join_texts;
use crate::utils::time::commit_message;
use crate::utils::time::commit_message_at;
use crate::utils::time::rfc3339_millis;
use crate::utils::window_event_manager::WindowEvent;
use crate::utils::window_event_manager::WindowEventType;
use crate::utils::window_event_manager::WindowEventView;

verus! {

/// The name of the events of a first-time setup.
pub const SETUP_EVENT_NAME: &'static str = "setup_cloud_sync";

/// The name of the events of a later sync.
pub const SYNC_EVENT_NAME: &'static str = "cloud_sync";

/// Said when the sync starts.
pub const STARTING: &'static str = "Creating new repository...";

/// Said before the pull.
pub const PULLING: &'static str = "Pulling changes...";

/// Said before the commit.
pub const COMMITTING: &'static str = "Adding Commits...";

/// Said before the push.
pub const PUSHING: &'static str = "Pushing changes to remote...";

/// Said when everything went through.
pub const SUCCESS: &'static str = "Success!";

/// Said after a pull that found nothing new.
pub const UP_TO_DATE: &'static str = "Already up to date";

/// Said after a pull that moved the branch forward, before the new head.
pub const FAST_FORWARDED: &'static str = "Fast-forwarded to ";

/// Said after a pull of which nothing more is known.
pub const PULLED: &'static str = "Pulled changes";

/// Said when the clock shows an instant that cannot be written down.
pub const CLOCK_OUT_OF_RANGE: &'static str = "the clock is out of range";

/// Said when the documents are not kept below the root directory.
pub const DOCUMENTS_OUTSIDE_ROOT: &'static str =
    "the documents directory does not lie below the root directory";

/// Said when a reply comes in after the sync has finished.
pub const SESSION_OVER: &'static str = "the sync is over";

/// Said when a reply does not answer the command that is in flight.
pub const UNEXPECTED: &'static str = "the reply does not answer the command";

/// What a progress event of a sync carries.
#[derive(Debug, Clone, PartialEq, Eq)]
pub struct CloudSyncPayload {
    pub message: String,
}

/// `CloudSyncPayload` with its message as a sequence of characters.
pub struct CloudSyncPayloadView {
    pub message: Seq<char>,
}

impl View for CloudSyncPayload {
    type V = CloudSyncPayloadView;

    open spec fn view(&self) -> CloudSyncPayloadView {
        CloudSyncPayloadView { message: self.message@ }
    }
}

/// The two entry operations.
#[derive(Debug, Clone, Copy, PartialEq, Eq, Structural)]
pub enum SyncOperation {
    /// Bind a remote for the first time, then sync.
    Setup,
    /// Sync with the remote that was bound before.
    Sync,
}

impl SyncOperation {
    /// The name under which the operation's events go out.
    pub open spec fn spec_event_name(self) -> Seq<char> {
        match self {
            SyncOperation::Setup => SETUP_EVENT_NAME@,
            SyncOperation::Sync => SYNC_EVENT_NAME@,
        }
    }

    /// The name under which the operation's events go out.
    pub fn event_name(self) -> (name: &'static str)
        ensures
            name@ == self.spec_event_name(),
    {
        match self {
            SyncOperation::Setup => SETUP_EVENT_NAME,
            SyncOperation::Sync => SYNC_EVENT_NAME,
        }
    }
}

/// The remote that a setup binds, and the identity that signs the commits.
#[derive(Debug, Clone, PartialEq, Eq)]
pub struct RemoteBinding {
    pub url: String,
    pub user_name: String,
    pub user_email: String,
}

/// `RemoteBinding` with its texts as sequences of characters.
pub struct RemoteBindingView {
    pub url: Seq<char>,
    pub user_name: Seq<char>,
    pub user_email: Seq<char>,
}

impl DeepView for RemoteBinding {
    type V = RemoteBindingView;

    open spec fn deep_view(&self) -> RemoteBindingView {
        RemoteBindingView {
            url: self.url@,
            user_name: self.user_name@,
            user_email: self.user_email@,
        }
    }
}

impl RemoteBindingView {
    /// The identity that signs the commits.
    pub open spec fn signature(self) -> SignatureView {
        SignatureView { name: self.user_name, email: self.user_email }
    }
}

/// What the program is asked to do next.
#[derive(Debug, PartialEq, Eq)]
pub enum SyncCommand {
    /// Deliver the event to the window. Answered with `Delivered` or
    /// `DeliveryFailed`.
    Emit(WindowEvent<CloudSyncPayload>),
    /// Store the binding durably. Answered with `Persisted` or
    /// `PersistFailed`.
    PersistRemote(RemoteBinding),
    /// Perform the command on the repository. Answered with `Git`.
    Git(GitCommand),
    /// Read the clock. Answered with `Clock`.
    ReadClock,
    /// The sync is over: hand `result` to the caller, and give the token
    /// back if there is one.
    Finish { result: SyncResult, token: Option<ReleaseToken> },
}

/// `SyncCommand` with its texts as sequences of characters, and with the kind
/// of the token in place of the token.
pub enum SyncCommandView {
    Emit(WindowEventView<CloudSyncPayloadView>),
    PersistRemote(RemoteBindingView),
    Git(GitCommandView),
    ReadClock,
    Finish { result: SyncResultView, token: Option<SyncKind> },
}

/// The kind of the token, if there is a token.
pub open spec fn token_kind(token: Option<ReleaseToken>) -> Option<SyncKind> {
    match token {
        Some(token) => Some(token.kind()),
        None => None,
    }
}

impl View for SyncCommand {
    type V = SyncCommandView;

    open spec fn view(&self) -> SyncCommandView {
        match self {
            SyncCommand::Emit(event) => SyncCommandView::Emit(event@),
            SyncCommand::PersistRemote(binding) => SyncCommandView::PersistRemote(
                binding.deep_view(),
            ),
            SyncCommand::Git(command) => SyncCommandView::Git(command@),
            SyncCommand::ReadClock => SyncCommandView::ReadClock,
            SyncCommand::Finish { result, token } => SyncCommandView::Finish {
                result: result@,
                token: token_kind(*token),
            },
        }
    }
}

/// What the program reports back after a command.
#[derive(Debug, Clone, PartialEq, Eq)]
pub enum SyncReply {
    /// The event reached the window.
    Delivered,
    /// The event could not be delivered.
    DeliveryFailed(String),
    /// The binding is stored.
    Persisted,
    /// The binding could not be stored.
    PersistFailed(String),
    /// What the repository answered.
    Git(GitReply),
    /// The time on the clock, in seconds and nanoseconds since the Unix epoch.
    Clock { secs: i64, nanos: u32 },
}

/// `SyncReply` with its texts as sequences of characters.
pub enum SyncReplyView {
    Delivered,
    DeliveryFailed(Seq<char>),
    Persisted,
    PersistFailed(Seq<char>),
    Git(GitReplyView),
    Clock { secs: i64, nanos: u32 },
}

impl View for SyncReply {
    type V = SyncReplyView;

    open spec fn view(&self) -> SyncReplyView {
        match self {
            SyncReply::Delivered => SyncReplyView::Delivered,
            SyncReply::DeliveryFailed(reason) => SyncReplyView::DeliveryFailed(reason@),
            SyncReply::Persisted => SyncReplyView::Persisted,
            SyncReply::PersistFailed(reason) => SyncReplyView::PersistFailed(reason@),
            SyncReply::Git(reply) => SyncReplyView::Git(reply@),
            SyncReply::Clock { secs, nanos } => SyncReplyView::Clock { secs: *secs, nanos: *nanos },
        }
    }
}

/// Where a sync stands: which command is in flight, and what has to be
/// remembered until its reply comes in.
#[derive(Debug, PartialEq, Eq)]
pub enum SyncPhase {
    /// `PersistRemote` is in flight.
    Persisting(RemoteBinding),
    /// The repository is being created or opened.
    Opening(GitUtils),
    /// The start event is in flight.
    AnnouncingStart(GitUtils),
    /// The event before the pull is in flight.
    AnnouncingPull(GitUtils),
    /// The pull is under way.
    Pulling(GitUtils),
    /// The event after the pull is in flight.
    AnnouncingPullResult(GitUtils),
    /// The event before the commit is in flight.
    AnnouncingCommit(GitUtils),
    /// `ReadClock` is in flight.
    ReadingClock(GitUtils),
    /// The commit is under way.
    Committing(GitUtils),
    /// The event before the push is in flight.
    AnnouncingPush(GitUtils),
    /// The push is under way.
    Pushing(GitUtils),
    /// The event that tells of success is in flight.
    AnnouncingSuccess,
    /// The event that tells of the failure is in flight.
    AnnouncingFailure(SyncError),
    /// `Finish` was handed out.
    Finished,
}

/// `SyncPhase` with its parts by their views.
pub enum SyncPhaseView {
    Persisting(RemoteBindingView),
    Opening(GitPhaseView),
    AnnouncingStart(GitPhaseView),
    AnnouncingPull(GitPhaseView),
    Pulling(GitPhaseView),
    AnnouncingPullResult(GitPhaseView),
    AnnouncingCommit(GitPhaseView),
    ReadingClock(GitPhaseView),
    Committing(GitPhaseView),
    AnnouncingPush(GitPhaseView),
    Pushing(GitPhaseView),
    AnnouncingSuccess,
    AnnouncingFailure(SyncErrorView),
    Finished,
}

impl View for SyncPhase {
    type V = SyncPhaseView;

    open spec fn view(&self) -> SyncPhaseView {
        match self {
            SyncPhase::Persisting(binding) => SyncPhaseView::Persisting(binding.deep_view()),
            SyncPhase::Opening(git) => SyncPhaseView::Opening(git@),
            SyncPhase::AnnouncingStart(git) => SyncPhaseView::AnnouncingStart(git@),
            SyncPhase::AnnouncingPull(git) => SyncPhaseView::AnnouncingPull(git@),
            SyncPhase::Pulling(git) => SyncPhaseView::Pulling(git@),
            SyncPhase::AnnouncingPullResult(git) => SyncPhaseView::AnnouncingPullResult(git@),
            SyncPhase::AnnouncingCommit(git) => SyncPhaseView::AnnouncingCommit(git@),
            SyncPhase::ReadingClock(git) => SyncPhaseView::ReadingClock(git@),
            SyncPhase::Committing(git) => SyncPhaseView::Committing(git@),
            SyncPhase::AnnouncingPush(git) => SyncPhaseView::AnnouncingPush(git@),
            SyncPhase::Pushing(git) => SyncPhaseView::Pushing(git@),
            SyncPhase::AnnouncingSuccess => SyncPhaseView::AnnouncingSuccess,
            SyncPhase::AnnouncingFailure(error) => SyncPhaseView::AnnouncingFailure(error@),
            SyncPhase::Finished => SyncPhaseView::Finished,
        }
    }
}

/// What stays the same from the first command of a sync to the last: the
/// operation, the paths, and the admission token until it is given back.
#[derive(Debug, PartialEq, Eq)]
pub struct SessionFrame {
    operation: SyncOperation,
    token: Option<ReleaseToken>,
    root: String,
    dirs: Vec<String>,
}

/// What a `SessionFrame` stands for.
pub struct SessionFrameView {
    /// Which of the two operations runs.
    pub operation: SyncOperation,
    /// The kind of the admission token that the session holds, if it holds one.
    pub token: Option<SyncKind>,
    /// The root of the local repository.
    pub root: Seq<char>,
    /// The directories that are tracked, relative to the root.
    pub dirs: Seq<Seq<char>>,
}

impl View for SessionFrame {
    type V = SessionFrameView;

    closed spec fn view(&self) -> SessionFrameView {
        SessionFrameView {
            operation: self.operation,
            token: token_kind(self.token),
            root: self.root@,
            dirs: self.dirs.deep_view(),
        }
    }
}

/// One sync under way.
#[derive(Debug, PartialEq, Eq)]
pub struct SyncSession {
    frame: SessionFrame,
    phase: SyncPhase,
}

/// What a `SyncSession` stands for.
pub struct SyncSessionView {
    pub frame: SessionFrameView,
    /// Where the sync stands.
    pub phase: SyncPhaseView,
}

impl View for SyncSession {
    type V = SyncSessionView;

    closed spec fn view(&self) -> SyncSessionView {
        SyncSessionView { frame: self.frame@, phase: self.phase@ }
    }
}

/// The progress event of `operation` with the given type and message.
pub open spec fn progress_event(
    operation: SyncOperation,
    event_type: WindowEventType,
    message: Seq<char>,
) -> WindowEventView<CloudSyncPayloadView> {
    WindowEventView {
        event_name: operation.spec_event_name(),
        payload: CloudSyncPayloadView { message },
        event_type,
    }
}

/// What is said after a pull that ended with `outcome`.
pub open spec fn pull_result_text(outcome: GitOutcomeView) -> Seq<char> {
    match outcome {
        GitOutcomeView::UpToDate => UP_TO_DATE@,
        GitOutcomeView::FastForwarded(head) => FAST_FORWARDED@ + head,
        GitOutcomeView::Merged { local, remote } => merge_message(remote, local),
        _ => PULLED@,
    }
}

impl SessionFrameView {
    /// The session in the given phase.
    pub open spec fn at(self, phase: SyncPhaseView) -> SyncSessionView {
        SyncSessionView { frame: self, phase }
    }

    /// The command that emits an `INFO` event with `message`.
    pub open spec fn say(self, message: Seq<char>) -> SyncCommandView {
        SyncCommandView::Emit(progress_event(self.operation, WindowEventType::INFO, message))
    }

    /// The sync ends: the result goes to the caller and the token goes back.
    pub open spec fn finish(self, result: SyncResultView) -> (SyncSessionView, SyncCommandView) {
        (
            SyncSessionView {
                frame: SessionFrameView { token: None, ..self },
                phase: SyncPhaseView::Finished,
            },
            SyncCommandView::Finish { result, token: self.token },
        )
    }

    /// The sync is given up: the error is told to the window as an `ERROR`
    /// event, and the sync ends once the event is out.
    pub open spec fn fail(self, error: SyncErrorView) -> (SyncSessionView, SyncCommandView) {
        (
            self.at(SyncPhaseView::AnnouncingFailure(error)),
            SyncCommandView::Emit(
                progress_event(self.operation, WindowEventType::ERROR, error.message()),
            ),
        )
    }

    /// What follows a step of the git side while the repository is opened.
    pub open spec fn after_open(self, next: (GitPhaseView, GitStepView)) -> (
        SyncSessionView,
        SyncCommandView,
    ) {
        match next.1 {
            GitStepView::Run(command) => (
                self.at(SyncPhaseView::Opening(next.0)),
                SyncCommandView::Git(command),
            ),
            GitStepView::Finished(_) => (
                self.at(SyncPhaseView::AnnouncingStart(next.0)),
                self.say(STARTING@),
            ),
            GitStepView::Failed(error) => self.fail(error),
        }
    }

    /// What follows a step of the git side during the pull. Conflicts end
    /// the sync: nothing is committed or pushed after them.
    pub open spec fn after_pull(self, next: (GitPhaseView, GitStepView)) -> (
        SyncSessionView,
        SyncCommandView,
    ) {
        match next.1 {
            GitStepView::Run(command) => (
                self.at(SyncPhaseView::Pulling(next.0)),
                SyncCommandView::Git(command),
            ),
            GitStepView::Finished(outcome) => {
                if outcome is Conflicted {
                    self.fail(SyncErrorView::Conflicted)
                } else {
                    (
                        self.at(SyncPhaseView::AnnouncingPullResult(next.0)),
                        self.say(pull_result_text(outcome)),
                    )
                }
            },
            GitStepView::Failed(error) => self.fail(error),
        }
    }

    /// What follows a step of the git side during the commit.
    pub open spec fn after_commit(self, next: (GitPhaseView, GitStepView)) -> (
        SyncSessionView,
        SyncCommandView,
    ) {
        match next.1 {
            GitStepView::Run(command) => (
                self.at(SyncPhaseView::Committing(next.0)),
                SyncCommandView::Git(command),
            ),
            GitStepView::Finished(_) => (
                self.at(SyncPhaseView::AnnouncingPush(next.0)),
                self.say(PUSHING@),
            ),
            GitStepView::Failed(error) => self.fail(error),
        }
    }

    /// What follows a step of the git side during the push.
    pub open spec fn after_push(self, next: (GitPhaseView, GitStepView)) -> (
        SyncSessionView,
        SyncCommandView,
    ) {
        match next.1 {
            GitStepView::Run(command) => (
                self.at(SyncPhaseView::Pushing(next.0)),
                SyncCommandView::Git(command),
            ),
            GitStepView::Finished(_) => (
                self.at(SyncPhaseView::AnnouncingSuccess),
                self.say(SUCCESS@),
            ),
            GitStepView::Failed(error) => self.fail(error),
        }
    }

    /// What follows the reading of the clock: the commit is stamped with the
    /// time and started.
    pub open spec fn after_clock(self, git: GitPhaseView, secs: i64, nanos: u32) -> (
        SyncSessionView,
        SyncCommandView,
    ) {
        match rfc3339_millis(secs, nanos) {
            Some(timestamp) => self.after_commit(
                git.add_commit(self.dirs, commit_message(timestamp)),
            ),
            None => self.fail(SyncErrorView::Internal(CLOCK_OUT_OF_RANGE@)),
        }
    }

    /// The first command of a sync that was admitted, for a setup: the
    /// binding is stored.
    pub open spec fn begin_setup(self, binding: RemoteBindingView) -> (
        SyncSessionView,
        SyncCommandView,
    ) {
        (self.at(SyncPhaseView::Persisting(binding)), SyncCommandView::PersistRemote(binding))
    }

    /// The command that creates the repository of a setup.
    pub open spec fn init_repository(self, binding: RemoteBindingView) -> (
        SyncSessionView,
        SyncCommandView,
    ) {
        (
            self.at(SyncPhaseView::Opening(GitPhaseView::Initializing)),
            SyncCommandView::Git(
                GitCommandView::InitRepository {
                    path: self.root,
                    remote_name: crate::utils::git_utils::REMOTE_NAME@,
                    remote_url: binding.url,
                    signature: binding.signature(),
                },
            ),
        )
    }

    /// The first command of a sync that was admitted, for a later sync: the
    /// repository is opened, provided that a remote was bound before.
    pub open spec fn begin_sync(self, binding: Option<RemoteBindingView>) -> (
        SyncSessionView,
        SyncCommandView,
    ) {
        match binding {
            Some(binding) => (
                self.at(SyncPhaseView::Opening(GitPhaseView::Opening)),
                SyncCommandView::Git(
                    GitCommandView::OpenRepository {
                        path: self.root,
                        signature: binding.signature(),
                    },
                ),
            ),
            None => self.finish(SyncResultView::failure(SyncErrorView::Config)),
        }
    }
}

impl SyncSessionView {
    /// The command that follows `reply`, and the session after it.
    ///
    /// The steps come in a fixed order: bind the remote (setup only), open
    /// the repository, announce the start, announce and run the pull, tell
    /// how it ended, announce and run the commit, announce and run the push,
    /// tell of the success. A failure of any step skips all that would
    /// follow: it is told to the window and the sync ends. An event that
    /// cannot be delivered ends the sync at once.
    pub open spec fn advance(self, reply: SyncReplyView) -> (SyncSessionView, SyncCommandView) {
        let frame = self.frame;
        match (self.phase, reply) {
            (SyncPhaseView::Finished, _) => frame.finish(
                SyncResultView::failure(SyncErrorView::Internal(SESSION_OVER@)),
            ),
            (SyncPhaseView::AnnouncingFailure(error), SyncReplyView::Delivered) => frame.finish(
                SyncResultView::failure(error),
            ),
            (SyncPhaseView::AnnouncingFailure(error), SyncReplyView::DeliveryFailed(_)) => {
                frame.finish(SyncResultView::failure(error))
            },
            (_, SyncReplyView::DeliveryFailed(reason)) => frame.finish(
                SyncResultView::failure(SyncErrorView::Internal(reason)),
            ),
            (SyncPhaseView::Persisting(binding), SyncReplyView::Persisted) => {
                frame.init_repository(binding)
            },
            (SyncPhaseView::Persisting(_), SyncReplyView::PersistFailed(reason)) => frame.fail(
                SyncErrorView::Internal(reason),
            ),
            (SyncPhaseView::Opening(git), SyncReplyView::Git(answer)) => frame.after_open(
                git.advance(answer),
            ),
            (SyncPhaseView::AnnouncingStart(git), SyncReplyView::Delivered) => (
                frame.at(SyncPhaseView::AnnouncingPull(git)),
                frame.say(PULLING@),
            ),
            (SyncPhaseView::AnnouncingPull(git), SyncReplyView::Delivered) => frame.after_pull(
                git.pull(),
            ),
            (SyncPhaseView::Pulling(git), SyncReplyView::Git(answer)) => frame.after_pull(
                git.advance(answer),
            ),
            (SyncPhaseView::AnnouncingPullResult(git), SyncReplyView::Delivered) => (
                frame.at(SyncPhaseView::AnnouncingCommit(git)),
                frame.say(COMMITTING@),
            ),
            (SyncPhaseView::AnnouncingCommit(git), SyncReplyView::Delivered) => (
                frame.at(SyncPhaseView::ReadingClock(git)),
                SyncCommandView::ReadClock,
            ),
            (SyncPhaseView::ReadingClock(git), SyncReplyView::Clock { secs, nanos }) => {
                frame.after_clock(git, secs, nanos)
            },
            (SyncPhaseView::Committing(git), SyncReplyView::Git(answer)) => frame.after_commit(
                git.advance(answer),
            ),
            (SyncPhaseView::AnnouncingPush(git), SyncReplyView::Delivered) => frame.after_push(
                git.push(),
            ),
            (SyncPhaseView::Pushing(git), SyncReplyView::Git(answer)) => frame.after_push(
                git.advance(answer),
            ),
            (SyncPhaseView::AnnouncingSuccess, SyncReplyView::Delivered) => frame.finish(
                SyncResultView::success(),
            ),
            (_, _) => frame.finish(SyncResultView::failure(SyncErrorView::Internal(UNEXPECTED@))),
        }
    }
}

impl SessionFrame {
    /// The session in the given phase.
    fn at(self, phase: SyncPhase) -> (session: SyncSession)
        ensures
            session@ == self@.at(phase@),
    {
        SyncSession { frame: self, phase }
    }

    /// The command that emits an event of the given type and message.
    fn emit(&self, event_type: WindowEventType, message: String) -> (command: SyncCommand)
        ensures
            command@ == SyncCommandView::Emit(
                progress_event(self@.operation, event_type, message@),
            ),
    {
        SyncCommand::Emit(
            WindowEvent::new(self.operation.event_name(), CloudSyncPayload { message }, event_type),
        )
    }

    /// The command that emits an `INFO` event with `message`.
    fn say(&self, message: &str) -> (command: SyncCommand)
        ensures
            command@ == self@.say(message@),
    {
        self.emit(WindowEventType::INFO, message.to_string())
    }

    /// Ends the sync.
    fn finish(self, result: SyncResult) -> (next: (SyncSession, SyncCommand))
        ensures
            (next.0@, next.1@) == self@.finish(result@),
    {
        let SessionFrame { operation, token, root, dirs } = self;
        (
            SyncSession {
                frame: SessionFrame { operation, token: None, root, dirs },
                phase: SyncPhase::Finished,
            },
            SyncCommand::Finish { result, token },
        )
    }

    /// Gives the sync up with `error`.
    fn fail(self, error: SyncError) -> (next: (SyncSession, SyncCommand))
        ensures
            (next.0@, next.1@) == self@.fail(error@),
    {
        let command = self.emit(WindowEventType::ERROR, error.message());
        (self.at(SyncPhase::AnnouncingFailure(error)), command)
    }

    /// What follows a step of the git side while the repository is opened.
    fn after_open(self, git: GitUtils, step: GitStep) -> (next: (SyncSession, SyncCommand))
        ensures
            (next.0@, next.1@) == self@.after_open((git@, step@)),
    {
        match step {
            GitStep::Run(command) => (self.at(SyncPhase::Opening(git)), SyncCommand::Git(command)),
            GitStep::Finished(_) => {
                let command = self.say(STARTING);
                (self.at(SyncPhase::AnnouncingStart(git)), command)
            },
            GitStep::Failed(error) => self.fail(error),
        }
    }

    /// What is said after a pull that ended with `outcome`.
    fn pull_result_message(outcome: &GitOutcome) -> (message: String)
        ensures
            message@ == pull_result_text(outcome@),
    {
        match outcome {
            GitOutcome::UpToDate => UP_TO_DATE.to_string(),
            GitOutcome::FastForwarded(head) => join_texts(FAST_FORWARDED, head.as_str()),
            GitOutcome::Merged { local, remote } => merge_commit_message(
                remote.as_str(),
                local.as_str(),
            ),
            _ => PULLED.to_string(),
        }
    }

    /// What follows a step of the git side during the pull.
    fn after_pull(self, git: GitUtils, step: GitStep) -> (next: (SyncSession, SyncCommand))
        ensures
            (next.0@, next.1@) == self@.after_pull((git@, step@)),
    {
        match step {
            GitStep::Run(command) => (self.at(SyncPhase::Pulling(git)), SyncCommand::Git(command)),
            GitStep::Finished(outcome) => {
                match outcome {
                    GitOutcome::Conflicted { .. } => self.fail(SyncError::Conflicted),
                    _ => {
                        let command = self.emit(
                            WindowEventType::INFO,
                            SessionFrame::pull_result_message(&outcome),
                        );
                        (self.at(SyncPhase::AnnouncingPullResult(git)), command)
                    },
                }
            },
            GitStep::Failed(error) => self.fail(error),
        }
    }

    /// What follows a step of the git side during the commit.
    fn after_commit(self, git: GitUtils, step: GitStep) -> (next: (SyncSession, SyncCommand))
        ensures
            (next.0@, next.1@) == self@.after_commit((git@, step@)),
    {
        match step {
            GitStep::Run(command) => (
                self.at(SyncPhase::Committing(git)),
                SyncCommand::Git(command),
            ),
            GitStep::Finished(_) => {
                let command = self.say(PUSHING);
                (self.at(SyncPhase::AnnouncingPush(git)), command)
            },
            GitStep::Failed(error) => self.fail(error),
        }
    }

    /// What follows a step of the git side during the push.
    fn after_push(self, git: GitUtils, step: GitStep) -> (next: (SyncSession, SyncCommand))
        ensures
            (next.0@, next.1@) == self@.after_push((git@, step@)),
    {
        match step {
            GitStep::Run(command) => (self.at(SyncPhase::Pushing(git)), SyncCommand::Git(command)),
            GitStep::Finished(_) => {
                let command = self.say(SUCCESS);
                (self.at(SyncPhase::AnnouncingSuccess), command)
            },
            GitStep::Failed(error) => self.fail(error),
        }
    }

    /// What follows the reading of the clock.
    fn after_clock(self, git: GitUtils, secs: i64, nanos: u32) -> (next: (
        SyncSession,
        SyncCommand,
    ))
        ensures
            (next.0@, next.1@) == self@.after_clock(git@, secs, nanos),
    {
        match commit_message_at(secs, nanos) {
            Some(message) => {
                let dirs = self.dirs.clone();
                let (git, step) = git.add_commit(dirs, message.as_str());
                self.after_commit(git, step)
            },
            None => self.fail(SyncError::Internal(CLOCK_OUT_OF_RANGE.to_string())),
        }
    }

    /// The command that creates the repository of a setup.
    fn init_repository(self, binding: RemoteBinding) -> (next: (SyncSession, SyncCommand))
        ensures
            (next.0@, next.1@) == self@.init_repository(binding.deep_view()),
    {
        let RemoteBinding { url, user_name, user_email } = binding;
        let (git, command) = GitUtils::new(
            url,
            self.root.as_str(),
            Signature { name: user_name, email: user_email },
        );
        (self.at(SyncPhase::Opening(git)), SyncCommand::Git(command))
    }
}

impl SyncSession {
    /// Whether `Finish` was handed out.
    pub fn is_finished(&self) -> (finished: bool)
        ensures
            finished == (self@.phase is Finished),
    {
        match self.phase {
            SyncPhase::Finished => true,
            _ => false,
        }
    }

    /// Gives the sync up between two commands, as when the program around it
    /// cannot go on, and hands out the token so that it can be given back.
    pub fn abandon(self) -> (token: Option<ReleaseToken>)
        ensures
            token_kind(token) == self@.frame.token,
    {
        self.frame.token
    }

    /// Takes the reply to the command in flight and hands out the next one.
    pub fn advance(self, reply: SyncReply) -> (next: (SyncSession, SyncCommand))
        ensures
            (next.0@, next.1@) == self@.advance(reply@),
    {
        let SyncSession { frame, phase } = self;
        match (phase, reply) {
            (SyncPhase::Finished, _) => frame.finish(
                SyncResult::failure(&SyncError::Internal(SESSION_OVER.to_string())),
            ),
            (SyncPhase::AnnouncingFailure(error), SyncReply::Delivered) => frame.finish(
                SyncResult::failure(&error),
            ),
            (SyncPhase::AnnouncingFailure(error), SyncReply::DeliveryFailed(_)) => frame.finish(
                SyncResult::failure(&error),
            ),
            (_, SyncReply::DeliveryFailed(reason)) => frame.finish(
                SyncResult::failure(&SyncError::Internal(reason)),
            ),
            (SyncPhase::Persisting(binding), SyncReply::Persisted) => frame.init_repository(
                binding,
            ),
            (SyncPhase::Persisting(_), SyncReply::PersistFailed(reason)) => frame.fail(
                SyncError::Internal(reason),
            ),
            (SyncPhase::Opening(git), SyncReply::Git(answer)) => {
                let (git, step) = git.advance(answer);
                frame.after_open(git, step)
            },
            (SyncPhase::AnnouncingStart(git), SyncReply::Delivered) => {
                let command = frame.say(PULLING);
                (frame.at(SyncPhase::AnnouncingPull(git)), command)
            },
            (SyncPhase::AnnouncingPull(git), SyncReply::Delivered) => {
                let (git, step) = git.pull();
                frame.after_pull(git, step)
            },
            (SyncPhase::Pulling(git), SyncReply::Git(answer)) => {
                let (git, step) = git.advance(answer);
                frame.after_pull(git, step)
            },
            (SyncPhase::AnnouncingPullResult(git), SyncReply::Delivered) => {
                let command = frame.say(COMMITTING);
                (frame.at(SyncPhase::AnnouncingCommit(git)), command)
            },
            (SyncPhase::AnnouncingCommit(git), SyncReply::Delivered) => (
                frame.at(SyncPhase::ReadingClock(git)),
                SyncCommand::ReadClock,
            ),
            (SyncPhase::ReadingClock(git), SyncReply::Clock { secs, nanos }) => {
                frame.after_clock(git, secs, nanos)
            },
            (SyncPhase::Committing(git), SyncReply::Git(answer)) => {
                let (git, step) = git.advance(answer);
                frame.after_commit(git, step)
            },
            (SyncPhase::AnnouncingPush(git), SyncReply::Delivered) => {
                let (git, step) = git.push();
                frame.after_push(git, step)
            },
            (SyncPhase::Pushing(git), SyncReply::Git(answer)) => {
                let (git, step) = git.advance(answer);
                frame.after_push(git, step)
            },
            (SyncPhase::AnnouncingSuccess, SyncReply::Delivered) => frame.finish(
                SyncResult::success(),
            ),
            (_, _) => frame.finish(
                SyncResult::failure(&SyncError::Internal(UNEXPECTED.to_string())),
            ),
        }
    }
}

/// The sync engine for one local root: where the repository lives, and which
/// directories below it are tracked.
#[derive(Debug, Clone, PartialEq, Eq)]
pub struct CloudSync {
    root: String,
    dirs: Vec<String>,
}

/// What a `CloudSync` stands for.
pub struct CloudSyncView {
    /// The root of the local repository.
    pub root: Seq<char>,
    /// The directories that are tracked, relative to the root.
    pub dirs: Seq<Seq<char>>,
}

impl View for CloudSync {
    type V = CloudSyncView;

    closed spec fn view(&self) -> CloudSyncView {
        CloudSyncView { root: self.root@, dirs: self.dirs.deep_view() }
    }
}

impl CloudSyncView {
    /// What every session of this engine starts from, given the operation
    /// and what the coordinator said.
    pub open spec fn frame(self, operation: SyncOperation, token: Option<SyncKind>)
        -> SessionFrameView {
        SessionFrameView { operation, token, root: self.root, dirs: self.dirs }
    }

    /// The result for a caller that was turned away, handed out at once.
    pub open spec fn turned_away(self, operation: SyncOperation, contender: SyncKind) -> (
        SyncSessionView,
        SyncCommandView,
    ) {
        self.frame(operation, None).finish(
            SyncResultView::failure(SyncErrorView::ConcurrencyBusy(contender)),
        )
    }

    /// The first command of a setup.
    pub open spec fn setup(self, admission: Admission, binding: RemoteBindingView) -> (
        SyncSessionView,
        SyncCommandView,
    ) {
        match admission {
            Admission::Busy(contender) => self.turned_away(SyncOperation::Setup, contender),
            Admission::Admitted(token) => self.frame(
                SyncOperation::Setup,
                Some(token.kind()),
            ).begin_setup(binding),
        }
    }

    /// The first command of a later sync.
    pub open spec fn sync(self, admission: Admission, binding: Option<RemoteBindingView>) -> (
        SyncSessionView,
        SyncCommandView,
    ) {
        match admission {
            Admission::Busy(contender) => self.turned_away(SyncOperation::Sync, contender),
            Admission::Admitted(token) => self.frame(
                SyncOperation::Sync,
                Some(token.kind()),
            ).begin_sync(binding),
        }
    }
}

impl CloudSync {
    /// The sync engine for the given directories. The documents directory is
    /// the one directory that is tracked; it has to lie below the root,
    /// since the repository only knows paths relative to its root.
    pub fn new(dir_paths: &AppDirPaths) -> (engine: Result<CloudSync, SyncError>)
        ensures
            match path_strip_prefix(dir_paths.documents@, dir_paths.root@) {
                Some(documents) => engine matches Ok(made) && made@ == (CloudSyncView {
                    root: dir_paths.root@,
                    dirs: seq![documents],
                }),
                None => engine matches Err(error) && error@ == SyncErrorView::Internal(
                    DOCUMENTS_OUTSIDE_ROOT@,
                ),
            },
    {
        match strip_prefix(dir_paths.documents.as_str(), dir_paths.root.as_str()) {
            Some(documents) => {
                let mut dirs: Vec<String> = Vec::new();
                dirs.push(documents);
                assert(dirs.deep_view() =~= seq![documents@]);
                Ok(CloudSync { root: dir_paths.root.clone(), dirs })
            },
            None => Err(SyncError::Internal(DOCUMENTS_OUTSIDE_ROOT.to_string())),
        }
    }

    /// The frame of a session of this engine.
    fn frame(self, operation: SyncOperation, token: Option<ReleaseToken>) -> (frame: SessionFrame)
        ensures
            frame@ == self@.frame(operation, token_kind(token)),
    {
        SessionFrame { operation, token, root: self.root, dirs: self.dirs }
    }

    /// Sets the sync up with a remote for the first time.
    ///
    /// A caller that was turned away gets its result at once: not a success,
    /// worth another try, with a message that names the contender; nothing
    /// is stored and the repository is not touched. An admitted caller has
    /// the binding stored first.
    pub fn setup(self, admission: Admission, binding: RemoteBinding) -> (begun: (
        SyncSession,
        SyncCommand,
    ))
        ensures
            (begun.0@, begun.1@) == self@.setup(admission, binding.deep_view()),
    {
        match admission {
            Admission::Busy(contender) => self.frame(SyncOperation::Setup, None).finish(
                SyncResult::failure(&SyncError::ConcurrencyBusy(contender)),
            ),
            Admission::Admitted(token) => {
                let frame = self.frame(SyncOperation::Setup, Some(token));
                let stored = RemoteBinding {
                    url: binding.url.clone(),
                    user_name: binding.user_name.clone(),
                    user_email: binding.user_email.clone(),
                };
                (frame.at(SyncPhase::Persisting(binding)), SyncCommand::PersistRemote(stored))
            },
        }
    }

    /// Syncs with the remote that was bound before.
    ///
    /// A caller that was turned away gets its result at once, as for
    /// `setup`. An admitted caller without a binding gets a configuration
    /// error, which no retry will mend, and its token back; with one, the
    /// repository is opened first.
    pub fn sync(self, admission: Admission, binding: Option<RemoteBinding>) -> (begun: (
        SyncSession,
        SyncCommand,
    ))
        ensures
            (begun.0@, begun.1@) == self@.sync(admission, binding.deep_view()),
    {
        match admission {
            Admission::Busy(contender) => self.frame(SyncOperation::Sync, None).finish(
                SyncResult::failure(&SyncError::ConcurrencyBusy(contender)),
            ),
            Admission::Admitted(token) => {
                let frame = self.frame(SyncOperation::Sync, Some(token));
                match binding {
                    Some(binding) => {
                        let RemoteBinding { url: _, user_name, user_email } = binding;
                        let (git, command) = GitUtils::load(
                            frame.root.as_str(),
                            Signature { name: user_name, email: user_email },
                        );
                        (frame.at(SyncPhase::Opening(git)), SyncCommand::Git(command))
                    },
                    None => frame.finish(SyncResult::failure(&SyncError::Config)),
                }
            },
        }
    }

    /// The clone that tries out the SSH agent.
    pub fn test_git_clone_ssh() -> (begun: (GitUtils, GitCommand))
        ensures
            begun.0@ == GitPhaseView::Cloning,
            begun.1@ == (GitCommandView::CloneRepository {
                remote_url: crate::utils::git_utils::TEST_CLONE_URL@,
                path: crate::utils::git_utils::TEST_CLONE_PATH@,
            }),
    {
        GitUtils::test_git_clone_ssh()
    }
}

impl SyncSessionView {
    /// The commands that a sequence of replies, oldest first, brings about.
    pub open spec fn commands(self, replies: Seq<SyncReplyView>) -> Seq<SyncCommandView>
        decreases replies.len(),
    {
        if replies.len() == 0 {
            Seq::empty()
        } else {
            let (next, command) = self.advance(replies.first());
            seq![command] + next.commands(replies.drop_first())
        }
    }

    /// A session that has finished holds no token.
    pub open spec fn settled(self) -> bool {
        self.phase is Finished ==> self.frame.token is None
    }

    /// An upper bound on the number of replies that the session can still
    /// take before it hands out `Finish`.
    pub open spec fn rank(self) -> nat {
        match self.phase {
            SyncPhaseView::Finished => 0,
            SyncPhaseView::AnnouncingFailure(_) => 1,
            SyncPhaseView::AnnouncingSuccess => 1,
            SyncPhaseView::Pushing(git) => 2 + git.rank(),
            SyncPhaseView::AnnouncingPush(_) => 4,
            SyncPhaseView::Committing(git) => 5 + git.rank(),
            SyncPhaseView::ReadingClock(_) => 9,
            SyncPhaseView::AnnouncingCommit(_) => 10,
            SyncPhaseView::AnnouncingPullResult(_) => 11,
            SyncPhaseView::Pulling(git) => 12 + git.rank(),
            SyncPhaseView::AnnouncingPull(_) => 19,
            SyncPhaseView::AnnouncingStart(_) => 20,
            SyncPhaseView::Opening(git) => 21 + git.rank(),
            SyncPhaseView::Persisting(_) => 23,
        }
    }
}

impl SyncCommandView {
    /// Whether the command has the program touch the repository, the store
    /// of the binding or the clock.
    pub open spec fn does_work(self) -> bool {
        self is Git || self is PersistRemote || self is ReadClock
    }

    /// The kind of the token that the command gives back, if it gives one back.
    pub open spec fn returned_token(self) -> Option<SyncKind> {
        match self {
            SyncCommandView::Finish { token, .. } => token,
            _ => None,
        }
    }
}

/// The token goes back on every way out. `Finish` is handed out exactly when
/// the session finishes, it carries the token that the session held, and the
/// session holds none afterwards. Until then the session keeps its token,
/// operation and paths as they are.
pub proof fn lemma_finish_returns_token(session: SyncSessionView, reply: SyncReplyView)
    ensures
        session.advance(reply).1 is Finish <==> session.advance(reply).0.phase is Finished,
        session.advance(reply).1 is Finish ==> session.advance(reply).1.returned_token()
            == session.frame.token && session.advance(reply).0.frame.token is None,
        !(session.advance(reply).1 is Finish) ==> session.advance(reply).0.frame == session.frame,
        session.advance(reply).0.settled(),
{
}

/// Every sync ends. Each reply brings a session that has not finished closer
/// to `Finish`, however the steps turn out.
pub proof fn lemma_sync_ends(session: SyncSessionView, reply: SyncReplyView)
    requires
        !(session.phase is Finished),
    ensures
        session.advance(reply).0.rank() < session.rank(),
        session.rank() <= 27,
{
    match session.phase {
        SyncPhaseView::Opening(git) => {
            lemma_operation_ends(git, arbitrary());
            if reply is Git {
                lemma_operation_ends(git, reply->Git_0);
            }
        },
        SyncPhaseView::Pulling(git) => {
            lemma_operation_ends(git, arbitrary());
            if reply is Git {
                lemma_operation_ends(git, reply->Git_0);
            }
        },
        SyncPhaseView::Committing(git) => {
            lemma_operation_ends(git, arbitrary());
            if reply is Git {
                lemma_operation_ends(git, reply->Git_0);
            }
        },
        SyncPhaseView::Pushing(git) => {
            lemma_operation_ends(git, arbitrary());
            if reply is Git {
                lemma_operation_ends(git, reply->Git_0);
            }
        },
        SyncPhaseView::AnnouncingPull(git) => {
            lemma_operation_ends(git, arbitrary());
        },
        SyncPhaseView::AnnouncingPush(git) => {
            lemma_operation_ends(git, arbitrary());
        },
        SyncPhaseView::ReadingClock(git) => {
            lemma_operation_ends(git, arbitrary());
        },
        _ => {},
    }
}

/// The token is given back exactly once. Whatever replies come in, the
/// commands of a session hold at most one `Finish` that carries a token, it
/// carries the token that the session held, and nothing that follows a
/// `Finish` has the program do any work or carries a token. If as many
/// replies come in as the session's rank, `Finish` is among the commands.
pub proof fn lemma_token_returned_once(session: SyncSessionView, replies: Seq<SyncReplyView>)
    requires
        session.settled(),
    ensures
        session.commands(replies).len() == replies.len(),
        forall|i: int|
            0 <= i < replies.len() ==> (#[trigger] session.commands(replies)[i]).returned_token()
                is Some ==> session.commands(replies)[i].returned_token() == session.frame.token,
        forall|i: int, j: int|
            0 <= i < j < replies.len() && (#[trigger] session.commands(replies)[i]) is Finish ==> {
                &&& !(#[trigger] session.commands(replies)[j]).does_work()
                &&& session.commands(replies)[j].returned_token() is None
            },
        session.phase is Finished ==> forall|i: int|
            0 <= i < replies.len() ==> {
                &&& !(#[trigger] session.commands(replies)[i]).does_work()
                &&& session.commands(replies)[i].returned_token() is None
            },
        replies.len() >= session.rank() && session.rank() > 0 ==> exists|i: int|
            0 <= i < replies.len() && (#[trigger] session.commands(replies)[i]) is Finish,
    decreases replies.len(),
{
    if replies.len() > 0 {
        let (next, command) = session.advance(replies.first());
        let rest = replies.drop_first();
        let all = session.commands(replies);
        let later = next.commands(rest);
        lemma_finish_returns_token(session, replies.first());
        lemma_token_returned_once(next, rest);
        assert(all == seq![command] + later);
        assert(all[0] == command);
        assert forall|i: int| 1 <= i < replies.len() implies #[trigger] all[i] == later[i - 1] by {}
        if !(session.phase is Finished) {
            lemma_sync_ends(session, replies.first());
            if replies.len() >= session.rank() {
                if command is Finish {
                    assert(all[0] is Finish);
                } else {
                    assert(next.rank() > 0);
                    let k = choose|k: int| 0 <= k < rest.len() && (#[trigger] later[k]) is Finish;
                    assert(all[k + 1] == later[k]);
                    assert(all[k + 1] is Finish);
                }
            }
        }
        assert forall|i: int| 0 <= i < replies.len() && (#[trigger] all[i]).returned_token()
            is Some implies all[i].returned_token() == session.frame.token by {
            if i > 0 {
                assert(all[i] == later[i - 1]);
            }
        }
        assert forall|i: int, j: int|
            0 <= i < j < replies.len() && (#[trigger] all[i]) is Finish implies !(
            #[trigger] all[j]).does_work() && all[j].returned_token() is None by {
            assert(all[j] == later[j - 1]);
            if i > 0 {
                assert(all[i] == later[i - 1]);
            }
        }
        if session.phase is Finished {
            assert forall|i: int| 0 <= i < replies.len() implies !(#[trigger] all[i]).does_work()
                && all[i].returned_token() is None by {
                if i > 0 {
                    assert(all[i] == later[i - 1]);
                }
            }
        }
    }
}

/// A failure skips all that would follow. Once a step has failed, the only
/// command left is `Finish` with the failure as the result: whether or not the
/// event that tells of it can be delivered, no further work is done.
pub proof fn lemma_failure_aborts(
    frame: SessionFrameView,
    error: SyncErrorView,
    reply: SyncReplyView,
)
    ensures
        frame.fail(error).0.phase == SyncPhaseView::AnnouncingFailure(error),
        !frame.fail(error).1.does_work(),
        reply is Delivered || reply is DeliveryFailed ==> frame.fail(error).0.advance(reply).1
            == (SyncCommandView::Finish {
            result: SyncResultView::failure(error),
            token: frame.token,
        }),
        frame.fail(error).0.advance(reply).1 is Finish,
{
}

/// An event that cannot be delivered ends the sync at once, whatever was to
/// follow, and the token goes back.
pub proof fn lemma_undelivered_event_ends_sync(session: SyncSessionView, reason: Seq<char>)
    ensures
        session.advance(SyncReplyView::DeliveryFailed(reason)).1 is Finish,
        session.advance(SyncReplyView::DeliveryFailed(reason)).1.returned_token()
            == session.frame.token,
{
}

/// Conflicts end the sync without a commit or a push. When the pull ends in
/// conflicts, the window is told so as an error, and the caller gets a result
/// that is no success and not worth a blind retry.
pub proof fn lemma_conflicts_end_sync(
    frame: SessionFrameView,
    git: GitPhaseView,
    local: Seq<char>,
    remote: Seq<char>,
)
    ensures
        ({
            let told = frame.after_pull(
                (git, GitStepView::Finished(GitOutcomeView::Conflicted { local, remote })),
            );
            let ended = told.0.advance(SyncReplyView::Delivered);
            &&& told.1 == SyncCommandView::Emit(
                progress_event(
                    frame.operation,
                    WindowEventType::ERROR,
                    SyncErrorView::Conflicted.message(),
                ),
            )
            &&& ended.1 == (SyncCommandView::Finish {
                result: SyncResultView {
                    status: false,
                    retryable: false,
                    message: SyncErrorView::Conflicted.message(),
                },
                token: frame.token,
            })
        }),
{
}

/// A sync without a binding. A `sync` that is admitted while no remote was
/// ever bound ends at once with a result that is no success, not worth a
/// retry, and says that the sync is not set up; the token goes back.
pub proof fn lemma_sync_without_binding(engine: CloudSyncView, token: ReleaseToken)
    ensures
        engine.sync(Admission::Admitted(token), None).1 == (SyncCommandView::Finish {
            result: SyncResultView {
                status: false,
                retryable: false,
                message: SyncErrorView::Config.message(),
            },
            token: Some(token.kind()),
        }),
        engine.sync(Admission::Admitted(token), None).0.phase is Finished,
{
}

/// A caller that is turned away. While a filesystem operation or another
/// sync is in flight, `setup` and `sync` answer at once with a result that is
/// no success, worth a retry, and names the contender; no work is done and
/// there is no token to give back.
pub proof fn lemma_busy_is_answered_at_once(
    engine: CloudSyncView,
    contender: SyncKind,
    binding: RemoteBindingView,
    bound: Option<RemoteBindingView>,
)
    ensures
        engine.setup(Admission::Busy(contender), binding).1 == (SyncCommandView::Finish {
            result: SyncResultView {
                status: false,
                retryable: true,
                message: SyncErrorView::ConcurrencyBusy(contender).message(),
            },
            token: None,
        }),
        engine.sync(Admission::Busy(contender), bound).1 == engine.setup(
            Admission::Busy(contender),
            binding,
        ).1,
        engine.setup(Admission::Busy(contender), binding).0.phase is Finished,
        engine.sync(Admission::Busy(contender), bound).0.phase is Finished,
        SyncErrorView::ConcurrencyBusy(SyncKind::Fs).message()
            == "FileSystem sync in progress, Please re-try after some time!"@,
{
}

/// Tells the window how a fetch is coming along: once for every change of
/// the counts, and once more when the fetch has ended.
#[derive(Debug, Clone, Copy)]
pub struct FetchProgress {
    operation: SyncOperation,
    last: Option<TransferStats>,
}

/// The event, if any, by its view.
pub open spec fn event_view(event: Option<WindowEvent<CloudSyncPayload>>) -> Option<
    WindowEventView<CloudSyncPayloadView>,
> {
    match event {
        Some(event) => Some(event@),
        None => None,
    }
}

impl FetchProgress {
    /// The operation whose fetch is reported.
    pub closed spec fn operation(self) -> SyncOperation {
        self.operation
    }

    /// The counts that were reported last, if any were.
    pub closed spec fn last(self) -> Option<TransferStats> {
        self.last
    }

    /// What is told about counts that come in: nothing where they are the
    /// ones that were reported last, or where there is nothing to say about
    /// them; a `DEBUG` event otherwise.
    pub open spec fn report(self, stats: TransferStats) -> Option<
        WindowEventView<CloudSyncPayloadView>,
    > {
        if self.last() == Some(stats) {
            None
        } else {
            match transfer_progress_text(stats) {
                Some(text) => Some(progress_event(self.operation(), WindowEventType::DEBUG, text)),
                None => None,
            }
        }
    }

    /// Starts with nothing reported.
    pub fn new(operation: SyncOperation) -> (progress: FetchProgress)
        ensures
            progress.operation() == operation,
            progress.last() is None,
    {
        FetchProgress { operation, last: None }
    }

    /// Takes the counts of the moment and hands out the event to emit, if
    /// they have changed and there is something to say.
    pub fn observe(&mut self, stats: TransferStats) -> (event: Option<
        WindowEvent<CloudSyncPayload>,
    >)
        ensures
            event_view(event) == old(self).report(stats),
            final(self).last() == Some(stats),
            final(self).operation() == old(self).operation(),
    {
        let unchanged = match self.last {
            Some(last) => last == stats,
            None => false,
        };
        self.last = Some(stats);
        if unchanged {
            None
        } else {
            match transfer_progress_message(&stats) {
                Some(message) => Some(
                    WindowEvent::new(
                        self.operation.event_name(),
                        CloudSyncPayload { message },
                        WindowEventType::DEBUG,
                    ),
                ),
                None => None,
            }
        }
    }

    /// The event that sums the fetch up once it has ended.
    pub fn summary(&self, stats: TransferStats) -> (event: WindowEvent<CloudSyncPayload>)
        ensures
            event@ == progress_event(
                self.operation(),
                WindowEventType::DEBUG,
                fetch_summary_text(stats),
            ),
    {
        WindowEvent::new(
            self.operation.event_name(),
            CloudSyncPayload { message: fetch_summary_message(&stats) },
            WindowEventType::DEBUG,
        )
    }
}

} // verus!
