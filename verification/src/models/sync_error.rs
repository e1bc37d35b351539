//! What can go wrong during a sync, and what the caller is told about it.

use vstd::prelude::*;
use crate::utils::sync_state_manager::SyncKind;
use crate::utils::text::join_texts;

verus! {

/// The ways in which a sync attempt ends without success.
#[derive(Debug, Clone, PartialEq, Eq)]
pub enum SyncError {
    /// Another operation of the given kind is in flight. Not a true error.
    ConcurrencyBusy(SyncKind),
    /// `sync` was called while no remote URL is bound.
    Config,
    /// The SSH agent offered no usable identity.
    Auth(String),
    /// The transport failed during fetch or push.
    Network(String),
    /// The repository could not be created or its remote registered.
    RepoInit(String),
    /// There is no usable repository at the local root.
    RepoNotFound(String),
    /// The tracked directories could not be added to the index.
    Staging(String),
    /// The three-way merge found overlapping changes; they are left in the
    /// working tree for somebody to resolve.
    Conflicted,
    /// The remote turned down at least one reference update.
    PushRejected,
    /// Something that should not happen did.
    Internal(String),
}

/// `SyncError` with its texts as sequences of characters.
pub enum SyncErrorView {
    ConcurrencyBusy(SyncKind),
    Config,
    Auth(Seq<char>),
    Network(Seq<char>),
    RepoInit(Seq<char>),
    RepoNotFound(Seq<char>),
    Staging(Seq<char>),
    Conflicted,
    PushRejected,
    Internal(Seq<char>),
}

impl View for SyncError {
    type V = SyncErrorView;

    open spec fn view(&self) -> SyncErrorView {
        match self {
            SyncError::ConcurrencyBusy(kind) => SyncErrorView::ConcurrencyBusy(*kind),
            SyncError::Config => SyncErrorView::Config,
            SyncError::Auth(detail) => SyncErrorView::Auth(detail@),
            SyncError::Network(detail) => SyncErrorView::Network(detail@),
            SyncError::RepoInit(detail) => SyncErrorView::RepoInit(detail@),
            SyncError::RepoNotFound(detail) => SyncErrorView::RepoNotFound(detail@),
            SyncError::Staging(detail) => SyncErrorView::Staging(detail@),
            SyncError::Conflicted => SyncErrorView::Conflicted,
            SyncError::PushRejected => SyncErrorView::PushRejected,
            SyncError::Internal(detail) => SyncErrorView::Internal(detail@),
        }
    }
}

impl SyncErrorView {
    /// Whether the caller may simply try again later. Contention, a missing
    /// SSH identity, a network failure and a rejected push may clear up by
    /// themselves or by an action outside this program; the others need a
    /// change of configuration or of the files first.
    pub open spec fn retryable(self) -> bool {
        match self {
            SyncErrorView::ConcurrencyBusy(_) => true,
            SyncErrorView::Auth(_) => true,
            SyncErrorView::Network(_) => true,
            SyncErrorView::PushRejected => true,
            SyncErrorView::Config => false,
            SyncErrorView::RepoInit(_) => false,
            SyncErrorView::RepoNotFound(_) => false,
            SyncErrorView::Staging(_) => false,
            SyncErrorView::Conflicted => false,
            SyncErrorView::Internal(_) => false,
        }
    }

    /// The text shown to the user. Each cause has a wording of its own.
    pub open spec fn message(self) -> Seq<char> {
        match self {
            SyncErrorView::ConcurrencyBusy(SyncKind::Cloud) => {
                "Sync is already in progress, Please re-try after some time!"@
            },
            SyncErrorView::ConcurrencyBusy(SyncKind::Fs) => {
                "FileSystem sync in progress, Please re-try after some time!"@
            },
            SyncErrorView::Config => "Cloud sync is not set up, Please set up cloud sync first!"@,
            SyncErrorView::Auth(detail) => "SSH authentication failed: "@ + detail,
            SyncErrorView::Network(detail) => "Network error: "@ + detail,
            SyncErrorView::RepoInit(detail) => "Failed to initialize the repository: "@ + detail,
            SyncErrorView::RepoNotFound(detail) => "Repository not found: "@ + detail,
            SyncErrorView::Staging(detail) => "Failed to stage files: "@ + detail,
            SyncErrorView::Conflicted => {
                "Merge conflicts detected, Please resolve them and re-try!"@
            },
            SyncErrorView::PushRejected => "push_update_reference() has reported errors!"@,
            SyncErrorView::Internal(detail) => "Internal error: "@ + detail,
        }
    }
}

impl SyncError {
    /// Whether the caller may simply try again later.
    pub fn retryable(&self) -> (retry: bool)
        ensures
            retry == self@.retryable(),
    {
        match self {
            SyncError::ConcurrencyBusy(_) => true,
            SyncError::Auth(_) => true,
            SyncError::Network(_) => true,
            SyncError::PushRejected => true,
            _ => false,
        }
    }

    /// The text shown to the user.
    pub fn message(&self) -> (text: String)
        ensures
            text@ == self@.message(),
    {
        match self {
            SyncError::ConcurrencyBusy(SyncKind::Cloud) => {
                "Sync is already in progress, Please re-try after some time!".to_string()
            },
            SyncError::ConcurrencyBusy(SyncKind::Fs) => {
                "FileSystem sync in progress, Please re-try after some time!".to_string()
            },
            SyncError::Config => {
                "Cloud sync is not set up, Please set up cloud sync first!".to_string()
            },
            SyncError::Auth(detail) => join_texts("SSH authentication failed: ", detail.as_str()),
            SyncError::Network(detail) => join_texts("Network error: ", detail.as_str()),
            SyncError::RepoInit(detail) => join_texts(
                "Failed to initialize the repository: ",
                detail.as_str(),
            ),
            SyncError::RepoNotFound(detail) => join_texts("Repository not found: ", detail.as_str()),
            SyncError::Staging(detail) => join_texts("Failed to stage files: ", detail.as_str()),
            SyncError::Conflicted => {
                "Merge conflicts detected, Please resolve them and re-try!".to_string()
            },
            SyncError::PushRejected => "push_update_reference() has reported errors!".to_string(),
            SyncError::Internal(detail) => join_texts("Internal error: ", detail.as_str()),
        }
    }
}

/// What a sync hands back to its caller.
#[derive(Debug, PartialEq, Eq)]
pub struct SyncResult {
    /// `true` for success, `false` for failure.
    pub status: bool,
    /// Whether the caller may try again.
    pub retryable: bool,
    /// Success or error message.
    pub message: String,
}

/// `SyncResult` with its message as a sequence of characters.
pub struct SyncResultView {
    pub status: bool,
    pub retryable: bool,
    pub message: Seq<char>,
}

impl View for SyncResult {
    type V = SyncResultView;

    open spec fn view(&self) -> SyncResultView {
        SyncResultView { status: self.status, retryable: self.retryable, message: self.message@ }
    }
}

impl SyncResultView {
    /// The result of a sync that went through.
    pub open spec fn success() -> SyncResultView {
        SyncResultView { status: true, retryable: false, message: "Success"@ }
    }

    /// The result of a sync that ended with `error`.
    pub open spec fn failure(error: SyncErrorView) -> SyncResultView {
        SyncResultView { status: false, retryable: error.retryable(), message: error.message() }
    }
}

impl SyncResult {
    /// The result of a sync that went through.
    pub fn success() -> (result: SyncResult)
        ensures
            result@ == SyncResultView::success(),
    {
        SyncResult { status: true, retryable: false, message: "Success".to_string() }
    }

    /// The result of a sync that ended with `error`.
    pub fn failure(error: &SyncError) -> (result: SyncResult)
        ensures
            result@ == SyncResultView::failure(error@),
    {
        SyncResult { status: false, retryable: error.retryable(), message: error.message() }
    }
}

} // verus!
