//! The values that pass between the sync engine and the program that works on
//! the real repository.

use vstd::prelude::*;
use crate::models::sync_error::SyncError;
use crate::models::sync_error::SyncErrorView;

verus! {

/// The error code with which the git library reports that authentication failed.
pub const GIT_EAUTH: i32 = -16;

/// The error code with which the git library reports that something it was
/// asked for does not exist.
pub const GIT_ENOTFOUND: i32 = -3;

/// The error code with which the git library reports that HEAD points to a
/// branch without a commit.
pub const GIT_EUNBORNBRANCH: i32 = -9;

/// The error class that the git library gives to failures of the SSH layer.
pub const GIT_ERROR_SSH: i32 = 23;

/// The bit of a merge analysis that says that the histories have diverged.
pub const ANALYSIS_NORMAL: u32 = 1;

/// The bit of a merge analysis that says that there is nothing to merge.
pub const ANALYSIS_UP_TO_DATE: u32 = 2;

/// The bit of a merge analysis that says that the local branch can simply
/// be moved forward.
pub const ANALYSIS_FASTFORWARD: u32 = 4;

/// The bit of a merge analysis that says that there is no local history yet.
pub const ANALYSIS_UNBORN: u32 = 8;

/// A failure reported by the git library, by its raw code and class.
#[derive(Debug, Clone, PartialEq, Eq)]
pub struct GitFailure {
    pub code: i32,
    pub class: i32,
    pub message: String,
}

/// `GitFailure` with its message as a sequence of characters.
pub struct GitFailureView {
    pub code: i32,
    pub class: i32,
    pub message: Seq<char>,
}

impl View for GitFailure {
    type V = GitFailureView;

    open spec fn view(&self) -> GitFailureView {
        GitFailureView { code: self.code, class: self.class, message: self.message@ }
    }
}

impl GitFailureView {
    /// Whether the failure says that what was looked for does not exist.
    pub open spec fn is_not_found(self) -> bool {
        self.code == GIT_ENOTFOUND
    }

    /// Whether the failure says that there is no history yet.
    pub open spec fn is_unborn(self) -> bool {
        self.code == GIT_EUNBORNBRANCH
    }

    /// Whether the failure came from the credential step: the library said
    /// that authentication failed, or the SSH layer gave up.
    pub open spec fn is_auth(self) -> bool {
        self.code == GIT_EAUTH || self.class == GIT_ERROR_SSH
    }

    /// The error that a failed fetch or push stands for.
    pub open spec fn transport_error(self) -> SyncErrorView {
        if self.is_auth() {
            SyncErrorView::Auth(self.message)
        } else {
            SyncErrorView::Network(self.message)
        }
    }
}

impl GitFailure {
    /// Whether the failure says that what was looked for does not exist.
    pub fn is_not_found(&self) -> (missing: bool)
        ensures
            missing == self@.is_not_found(),
    {
        self.code == GIT_ENOTFOUND
    }

    /// Whether the failure says that there is no history yet.
    pub fn is_unborn(&self) -> (unborn: bool)
        ensures
            unborn == self@.is_unborn(),
    {
        self.code == GIT_EUNBORNBRANCH
    }

    /// Whether the failure came from the credential step.
    pub fn is_auth(&self) -> (auth: bool)
        ensures
            auth == self@.is_auth(),
    {
        self.code == GIT_EAUTH || self.class == GIT_ERROR_SSH
    }

    /// The error that a failed fetch or push stands for: an authentication
    /// error if the credential step failed, a network error otherwise.
    pub fn transport_error(self) -> (error: SyncError)
        ensures
            error@ == self@.transport_error(),
    {
        if self.is_auth() {
            SyncError::Auth(self.message)
        } else {
            SyncError::Network(self.message)
        }
    }
}

/// What the remote said about the update of one reference during a push.
#[derive(Debug, Clone, PartialEq, Eq)]
pub struct RefUpdate {
    /// The reference, as the remote names it.
    pub refname: String,
    /// Why the remote turned the update down; `None` if it took it.
    pub error: Option<String>,
}

/// `RefUpdate` with its texts as sequences of characters.
pub struct RefUpdateView {
    pub refname: Seq<char>,
    pub error: Option<Seq<char>>,
}

impl DeepView for RefUpdate {
    type V = RefUpdateView;

    open spec fn deep_view(&self) -> RefUpdateView {
        RefUpdateView { refname: self.refname@, error: self.error.deep_view() }
    }
}

/// A reference of the remote and the commit that it points to.
#[derive(Debug, Clone, PartialEq, Eq)]
pub struct RemoteHead {
    /// The reference, as the remote names it.
    pub name: String,
    /// The id of the commit.
    pub id: String,
}

/// `RemoteHead` with its texts as sequences of characters.
pub struct RemoteHeadView {
    pub name: Seq<char>,
    pub id: Seq<char>,
}

impl DeepView for RemoteHead {
    type V = RemoteHeadView;

    open spec fn deep_view(&self) -> RemoteHeadView {
        RemoteHeadView { name: self.name@, id: self.id@ }
    }
}

/// The commit that the reference `name` points to on the remote: that of the
/// first of `heads` under this name, if there is one.
pub open spec fn advertised_id(heads: Seq<RemoteHeadView>, name: Seq<char>) -> Option<Seq<char>>
    decreases heads.len(),
{
    if heads.len() == 0 {
        None
    } else if heads.first().name == name {
        Some(heads.first().id)
    } else {
        advertised_id(heads.drop_first(), name)
    }
}

/// The commit that the reference `name` points to on the remote, if the
/// remote advertises it.
pub fn find_head(heads: &Vec<RemoteHead>, name: &str) -> (id: Option<String>)
    ensures
        id.deep_view() == advertised_id(heads.deep_view(), name@),
{
    let wanted = name.to_string();
    let mut i: usize = 0;
    assert(heads.deep_view().skip(0) =~= heads.deep_view());
    while i < heads.len()
        invariant
            i <= heads.len(),
            wanted@ == name@,
            advertised_id(heads.deep_view(), name@) == advertised_id(
                heads.deep_view().skip(i as int),
                name@,
            ),
        decreases heads.len() - i,
    {
        proof {
            let rest = heads.deep_view().skip(i as int);
            assert(rest.first() == heads[i as int].deep_view());
            assert(rest.drop_first() =~= heads.deep_view().skip(i + 1));
        }
        if heads[i].name == wanted {
            return Some(heads[i].id.clone());
        }
        i += 1;
    }
    None
}

/// Whether the remote turned down at least one update of `report`.
pub open spec fn any_rejected(report: Seq<RefUpdateView>) -> bool {
    exists|i: int| 0 <= i < report.len() && (#[trigger] report[i]).error is Some
}

/// How local HEAD relates to a fetched commit, as a set of flags.
#[derive(Debug, Clone, Copy, PartialEq, Eq, Structural)]
pub struct MergeAnalysis {
    pub bits: u32,
}

impl MergeAnalysis {
    /// The local branch can simply be moved forward to the fetched commit.
    pub open spec fn spec_is_fast_forward(self) -> bool {
        self.bits & ANALYSIS_FASTFORWARD != 0
    }

    /// The histories have diverged and must be merged.
    pub open spec fn spec_is_normal(self) -> bool {
        self.bits & ANALYSIS_NORMAL != 0
    }

    /// Everything fetched is already part of the local history.
    pub open spec fn spec_is_up_to_date(self) -> bool {
        self.bits & ANALYSIS_UP_TO_DATE != 0
    }

    /// There is no local history yet.
    pub open spec fn spec_is_unborn(self) -> bool {
        self.bits & ANALYSIS_UNBORN != 0
    }

    /// The analysis that the given flags stand for.
    pub fn from_bits(bits: u32) -> (analysis: MergeAnalysis)
        ensures
            analysis.bits == bits,
    {
        MergeAnalysis { bits }
    }

    #[verifier::when_used_as_spec(spec_is_fast_forward)]
    pub fn is_fast_forward(self) -> (set: bool)
        ensures
            set == self.spec_is_fast_forward(),
    {
        self.bits & ANALYSIS_FASTFORWARD != 0
    }

    #[verifier::when_used_as_spec(spec_is_normal)]
    pub fn is_normal(self) -> (set: bool)
        ensures
            set == self.spec_is_normal(),
    {
        self.bits & ANALYSIS_NORMAL != 0
    }

    #[verifier::when_used_as_spec(spec_is_up_to_date)]
    pub fn is_up_to_date(self) -> (set: bool)
        ensures
            set == self.spec_is_up_to_date(),
    {
        self.bits & ANALYSIS_UP_TO_DATE != 0
    }

    #[verifier::when_used_as_spec(spec_is_unborn)]
    pub fn is_unborn(self) -> (set: bool)
        ensures
            set == self.spec_is_unborn(),
    {
        self.bits & ANALYSIS_UNBORN != 0
    }
}

/// Who signs the commits of a sync, as author and as committer.
#[derive(Debug, Clone, PartialEq, Eq)]
pub struct Signature {
    pub name: String,
    pub email: String,
}

/// `Signature` with its texts as sequences of characters.
pub struct SignatureView {
    pub name: Seq<char>,
    pub email: Seq<char>,
}

impl View for Signature {
    type V = SignatureView;

    open spec fn view(&self) -> SignatureView {
        SignatureView { name: self.name@, email: self.email@ }
    }
}

/// What the program is asked to do on the repository. Each command is answered
/// with one [`GitReply`]: `Failed` if the git library reported an error, else
/// the reply named below.
#[derive(Debug, Clone, PartialEq, Eq)]
pub enum GitCommand {
    /// Create a repository at `path` unless there is one, and register
    /// `remote_url` under `remote_name`. The commits that follow are signed
    /// with `signature`. Answered with `Done`.
    InitRepository { path: String, remote_name: String, remote_url: String, signature: Signature },
    /// Open the repository at `path`. The commits that follow are signed
    /// with `signature`. Answered with `Done`.
    OpenRepository { path: String, signature: Signature },
    /// Clone `remote_url` into `path`, with credentials from the SSH agent.
    /// Answered with `Done`.
    CloneRepository { remote_url: String, path: String },
    /// Connect to the remote with credentials from the SSH agent and download
    /// the objects that `refspec` asks for. No local reference is moved: that
    /// is left to the commands that follow the analysis. Answered with
    /// `Fetched` and the references that the remote advertises.
    Fetch { remote_name: String, refspec: String },
    /// Classify how local HEAD relates to the fetched commit. Answered with
    /// `Analysis`.
    AnalyzeMerge { fetched: String },
    /// Look for the reference `refname`. Answered with `BranchFound`.
    FindBranch { refname: String },
    /// Move `refname` to `target`, point HEAD at `refname` and force the
    /// working tree to match it. Answered with `Done`.
    FastForward { refname: String, target: String, reflog_message: String },
    /// Create `refname` at `target`, replacing it if it exists, point HEAD at
    /// it and force the working tree to match it. Answered with `Done`.
    CreateBranch { refname: String, target: String, reflog_message: String },
    /// Look up the commit that HEAD points to. Answered with `Head`, holding
    /// `None` if there is no history yet.
    ResolveHead,
    /// Merge the trees of `local` and `remote` over the tree of their merge
    /// base, into an index that is kept for the command that follows.
    /// Answered with `Merged`.
    MergeTrees { local: String, remote: String },
    /// Check the index of the last `MergeTrees` out into the working tree,
    /// conflicts included. Answered with `Done`.
    CheckoutIndex,
    /// Write the index of the last `MergeTrees` as a tree and commit it on
    /// HEAD with the two parents `local` and `remote`, in this order.
    /// Answered with `Done`.
    CommitMerge { message: String, local: String, remote: String },
    /// Force the working tree and the index to match HEAD. Answered with
    /// `Done`.
    CheckoutHead,
    /// Add everything under each of `dirs`, which are relative to the
    /// repository's root, to the index, deletions included, and write the
    /// index. Answered with `Done`.
    Stage { dirs: Vec<String> },
    /// Write the index as a tree and commit it on HEAD, with `parent` as the
    /// only parent or with none. Answered with `Done`.
    Commit { message: String, parent: Option<String> },
    /// Push `refspec` to the remote, with credentials from the SSH agent,
    /// and record what the remote says about each reference. Answered with
    /// `Pushed` if the transport went through.
    Push { remote_name: String, refspec: String },
}

/// `GitCommand` with its texts as sequences of characters.
pub enum GitCommandView {
    InitRepository {
        path: Seq<char>,
        remote_name: Seq<char>,
        remote_url: Seq<char>,
        signature: SignatureView,
    },
    OpenRepository { path: Seq<char>, signature: SignatureView },
    CloneRepository { remote_url: Seq<char>, path: Seq<char> },
    Fetch { remote_name: Seq<char>, refspec: Seq<char> },
    AnalyzeMerge { fetched: Seq<char> },
    FindBranch { refname: Seq<char> },
    FastForward { refname: Seq<char>, target: Seq<char>, reflog_message: Seq<char> },
    CreateBranch { refname: Seq<char>, target: Seq<char>, reflog_message: Seq<char> },
    ResolveHead,
    MergeTrees { local: Seq<char>, remote: Seq<char> },
    CheckoutIndex,
    CommitMerge { message: Seq<char>, local: Seq<char>, remote: Seq<char> },
    CheckoutHead,
    Stage { dirs: Seq<Seq<char>> },
    Commit { message: Seq<char>, parent: Option<Seq<char>> },
    Push { remote_name: Seq<char>, refspec: Seq<char> },
}

impl View for GitCommand {
    type V = GitCommandView;

    open spec fn view(&self) -> GitCommandView {
        match self {
            GitCommand::InitRepository { path, remote_name, remote_url, signature } => {
                GitCommandView::InitRepository {
                    path: path@,
                    remote_name: remote_name@,
                    remote_url: remote_url@,
                    signature: signature@,
                }
            },
            GitCommand::OpenRepository { path, signature } => GitCommandView::OpenRepository {
                path: path@,
                signature: signature@,
            },
            GitCommand::CloneRepository { remote_url, path } => GitCommandView::CloneRepository {
                remote_url: remote_url@,
                path: path@,
            },
            GitCommand::Fetch { remote_name, refspec } => GitCommandView::Fetch {
                remote_name: remote_name@,
                refspec: refspec@,
            },
            GitCommand::AnalyzeMerge { fetched } => GitCommandView::AnalyzeMerge {
                fetched: fetched@,
            },
            GitCommand::FindBranch { refname } => GitCommandView::FindBranch { refname: refname@ },
            GitCommand::FastForward { refname, target, reflog_message } => {
                GitCommandView::FastForward {
                    refname: refname@,
                    target: target@,
                    reflog_message: reflog_message@,
                }
            },
            GitCommand::CreateBranch { refname, target, reflog_message } => {
                GitCommandView::CreateBranch {
                    refname: refname@,
                    target: target@,
                    reflog_message: reflog_message@,
                }
            },
            GitCommand::ResolveHead => GitCommandView::ResolveHead,
            GitCommand::MergeTrees { local, remote } => GitCommandView::MergeTrees {
                local: local@,
                remote: remote@,
            },
            GitCommand::CheckoutIndex => GitCommandView::CheckoutIndex,
            GitCommand::CommitMerge { message, local, remote } => GitCommandView::CommitMerge {
                message: message@,
                local: local@,
                remote: remote@,
            },
            GitCommand::CheckoutHead => GitCommandView::CheckoutHead,
            GitCommand::Stage { dirs } => GitCommandView::Stage { dirs: dirs.deep_view() },
            GitCommand::Commit { message, parent } => GitCommandView::Commit {
                message: message@,
                parent: parent.deep_view(),
            },
            GitCommand::Push { remote_name, refspec } => GitCommandView::Push {
                remote_name: remote_name@,
                refspec: refspec@,
            },
        }
    }
}

impl GitCommandView {
    /// Whether the command writes a commit.
    pub open spec fn creates_commit(self) -> bool {
        self is CommitMerge || self is Commit
    }
}

/// What the program reports back after a command.
#[derive(Debug, Clone, PartialEq, Eq)]
pub enum GitReply {
    /// The command went through and has nothing to tell.
    Done,
    /// The git library reported an error.
    Failed(GitFailure),
    /// The references that the remote advertised during a fetch, each with
    /// the commit that it points to.
    Fetched(Vec<RemoteHead>),
    /// How local HEAD relates to the fetched commit.
    Analysis(MergeAnalysis),
    /// Whether the reference exists.
    BranchFound(bool),
    /// The id of the commit that HEAD points to, if there is any history.
    Head(Option<String>),
    /// Whether the merged index holds conflicts.
    Merged { conflicts: bool },
    /// What the remote said about each reference of a push.
    Pushed(Vec<RefUpdate>),
}

/// `GitReply` with its texts as sequences of characters.
pub enum GitReplyView {
    Done,
    Failed(GitFailureView),
    Fetched(Seq<RemoteHeadView>),
    Analysis(MergeAnalysis),
    BranchFound(bool),
    Head(Option<Seq<char>>),
    Merged { conflicts: bool },
    Pushed(Seq<RefUpdateView>),
}

impl View for GitReply {
    type V = GitReplyView;

    open spec fn view(&self) -> GitReplyView {
        match self {
            GitReply::Done => GitReplyView::Done,
            GitReply::Failed(failure) => GitReplyView::Failed(failure@),
            GitReply::Fetched(heads) => GitReplyView::Fetched(heads.deep_view()),
            GitReply::Analysis(analysis) => GitReplyView::Analysis(*analysis),
            GitReply::BranchFound(found) => GitReplyView::BranchFound(*found),
            GitReply::Head(id) => GitReplyView::Head(id.deep_view()),
            GitReply::Merged { conflicts } => GitReplyView::Merged { conflicts: *conflicts },
            GitReply::Pushed(report) => GitReplyView::Pushed(report.deep_view()),
        }
    }
}

/// How a pull, a commit or a push ended when nothing failed.
#[derive(Debug, Clone, PartialEq, Eq)]
pub enum GitOutcome {
    /// The repository is open.
    Opened,
    /// The repository was cloned.
    Cloned,
    /// The fetched commit was already part of the local history.
    UpToDate,
    /// The local branch now points to the fetched commit.
    FastForwarded(String),
    /// A merge commit with the parents `local` and `remote` was written.
    Merged { local: String, remote: String },
    /// The merge of `local` and `remote` found conflicts. They are in the
    /// working tree and no commit was written.
    Conflicted { local: String, remote: String },
    /// The staged changes were committed.
    Committed,
    /// The remote took every reference update.
    Pushed,
}

/// `GitOutcome` with its texts as sequences of characters.
pub enum GitOutcomeView {
    Opened,
    Cloned,
    UpToDate,
    FastForwarded(Seq<char>),
    Merged { local: Seq<char>, remote: Seq<char> },
    Conflicted { local: Seq<char>, remote: Seq<char> },
    Committed,
    Pushed,
}

impl View for GitOutcome {
    type V = GitOutcomeView;

    open spec fn view(&self) -> GitOutcomeView {
        match self {
            GitOutcome::Opened => GitOutcomeView::Opened,
            GitOutcome::Cloned => GitOutcomeView::Cloned,
            GitOutcome::UpToDate => GitOutcomeView::UpToDate,
            GitOutcome::FastForwarded(id) => GitOutcomeView::FastForwarded(id@),
            GitOutcome::Merged { local, remote } => GitOutcomeView::Merged {
                local: local@,
                remote: remote@,
            },
            GitOutcome::Conflicted { local, remote } => GitOutcomeView::Conflicted {
                local: local@,
                remote: remote@,
            },
            GitOutcome::Committed => GitOutcomeView::Committed,
            GitOutcome::Pushed => GitOutcomeView::Pushed,
        }
    }
}

/// What comes out of one step of the git side of a sync.
#[derive(Debug, Clone, PartialEq, Eq)]
pub enum GitStep {
    /// The program is to perform the command and to report back.
    Run(GitCommand),
    /// The operation is complete.
    Finished(GitOutcome),
    /// The operation was given up.
    Failed(SyncError),
}

/// `GitStep` with its texts as sequences of characters.
pub enum GitStepView {
    Run(GitCommandView),
    Finished(GitOutcomeView),
    Failed(SyncErrorView),
}

impl View for GitStep {
    type V = GitStepView;

    open spec fn view(&self) -> GitStepView {
        match self {
            GitStep::Run(command) => GitStepView::Run(command@),
            GitStep::Finished(outcome) => GitStepView::Finished(outcome@),
            GitStep::Failed(error) => GitStepView::Failed(error@),
        }
    }
}

/// How far a fetch has come, as the git library counts it.
#[derive(Debug, Clone, Copy, PartialEq, Eq, Structural)]
pub struct TransferStats {
    pub total_objects: u64,
    pub indexed_objects: u64,
    pub received_objects: u64,
    pub local_objects: u64,
    pub total_deltas: u64,
    pub indexed_deltas: u64,
    pub received_bytes: u64,
}

} // verus!
