//! The decisions of the git side of a sync.
//!
//! Nothing in here touches a repository. The library decides what has to be
//! done next and hands it out as a [`GitCommand`]; the program performs it on
//! the real repository and reports back with a [`GitReply`]. [`GitUtils`]
//! keeps track of where a pull, a commit or a push stands between two
//! replies.

use vstd::prelude::*;
use vstd::string::StringExecFns;
use crate::models::git::advertised_id;
use crate::models::git::any_rejected;
use crate::models::git::find_head;
use crate::models::git::GitCommand;
use crate::models::git::GitCommandView;
use crate::models::git::GitOutcome;
use crate::models::git::GitOutcomeView;
use crate::models::git::GitReply;
use crate::models::git::GitReplyView;
use crate::models::git::GitStep;
use crate::models::git::GitStepView;
use crate::models::git::MergeAnalysis;
use crate::models::git::RefUpdate;
use crate::models::git::RemoteHeadView;
use crate::models::git::Signature;
use crate::models::git::TransferStats;
use crate::models::sync_error::SyncError;
use crate::models::sync_error::SyncErrorView;
use crate::utils::text::decimal;
use crate::utils::text::join_texts;
use crate::utils::text::render_u64;

verus! {

/// The name under which the one remote is registered.
pub const REMOTE_NAME: &'static str = "origin";

/// The one branch that is synchronised.
pub const BRANCH_NAME: &'static str = "master";

/// Said when a reply comes in while no command is in flight.
pub const NOT_IN_FLIGHT: &'static str = "no command is in flight";

/// Said when a reply does not answer the command that is in flight.
pub const UNEXPECTED_REPLY: &'static str = "the reply does not answer the command";

/// Said when an operation is started while another one is under way or
/// after one was given up.
pub const NOT_READY: &'static str = "the repository is not ready for a new operation";

/// Said when a merge is called for and HEAD points to no commit.
pub const NO_LOCAL_HISTORY: &'static str = "there is no local commit to merge into";

/// Said when the remote does not advertise the branch that is synchronised.
pub const NO_REMOTE_BRANCH: &'static str = "the remote has no branch to pull from";

/// Said when the remote URL names no user to authenticate as.
pub const NO_USERNAME: &'static str = "the remote URL names no user";

/// Where the repository used to try out a clone over SSH lives.
pub const TEST_CLONE_URL: &'static str = "git@github.com:rust-lang/git2-rs.git";

/// Where the clone that tries out SSH is put.
pub const TEST_CLONE_PATH: &'static str = "/tmp/git2-rs";

/// The refspec that maps a branch of the remote to the branch of the same
/// name here.
pub open spec fn ref_specs(branch: Seq<char>) -> Seq<char> {
    "refs/heads/"@ + branch + ":refs/heads/"@ + branch
}

/// The full name of a local branch.
pub open spec fn branch_ref(branch: Seq<char>) -> Seq<char> {
    "refs/heads/"@ + branch
}

/// The reflog entry of a fast-forward.
pub open spec fn fast_forward_message(refname: Seq<char>, target: Seq<char>) -> Seq<char> {
    "Fast-Forward: Setting "@ + refname + " to id: "@ + target
}

/// The reflog entry written when a branch is created at a fetched commit.
pub open spec fn create_branch_message(branch: Seq<char>, target: Seq<char>) -> Seq<char> {
    "Setting "@ + branch + " to "@ + target
}

/// The message of a merge commit.
pub open spec fn merge_message(remote: Seq<char>, local: Seq<char>) -> Seq<char> {
    "Merge: "@ + remote + " into "@ + local
}

/// `first`, `second`, `third` and `fourth`, one after the other.
fn join_four_texts(first: &str, second: &str, third: &str, fourth: &str) -> (joined: String)
    ensures
        joined@ == first@ + second@ + third@ + fourth@,
{
    let mut joined = String::from_str(first);
    joined.append(second);
    joined.append(third);
    joined.append(fourth);
    joined
}

/// The message of the commit that merges `remote` into `local`.
pub fn merge_commit_message(remote: &str, local: &str) -> (message: String)
    ensures
        message@ == merge_message(remote@, local@),
{
    join_four_texts("Merge: ", remote, " into ", local)
}

/// Where the git side of a sync stands: which command is in flight, and what
/// has to be remembered until its reply comes in.
#[derive(Debug, Clone, PartialEq, Eq)]
pub enum GitPhase {
    /// `InitRepository` is in flight.
    Initializing,
    /// `OpenRepository` is in flight.
    Opening,
    /// `CloneRepository` is in flight.
    Cloning,
    /// The repository is open and nothing is in flight.
    Ready,
    /// `Fetch` is in flight.
    Fetching,
    /// `AnalyzeMerge` is in flight.
    Analyzing { fetched: String },
    /// `FindBranch` is in flight.
    FindingBranch { fetched: String },
    /// `FastForward` or `CreateBranch` is in flight.
    FastForwarding { fetched: String },
    /// `ResolveHead` is in flight, ahead of a merge.
    ResolvingLocal { fetched: String },
    /// `MergeTrees` is in flight.
    Merging { local: String, fetched: String },
    /// `CheckoutIndex` is in flight, after a merge with conflicts.
    CheckingOutConflicts { local: String, fetched: String },
    /// `CommitMerge` is in flight.
    CommittingMerge { local: String, fetched: String },
    /// `CheckoutHead` is in flight, after a merge commit.
    CheckingOutMerge { local: String, fetched: String },
    /// `Stage` is in flight.
    Staging { message: String },
    /// `ResolveHead` is in flight, ahead of a commit.
    ResolvingParent { message: String },
    /// `Commit` is in flight.
    Committing,
    /// `Push` is in flight.
    Pushing,
    /// An operation failed or ended in conflicts. Nothing more is done.
    Closed,
}

/// `GitPhase` with its texts as sequences of characters.
pub enum GitPhaseView {
    Initializing,
    Opening,
    Cloning,
    Ready,
    Fetching,
    Analyzing { fetched: Seq<char> },
    FindingBranch { fetched: Seq<char> },
    FastForwarding { fetched: Seq<char> },
    ResolvingLocal { fetched: Seq<char> },
    Merging { local: Seq<char>, fetched: Seq<char> },
    CheckingOutConflicts { local: Seq<char>, fetched: Seq<char> },
    CommittingMerge { local: Seq<char>, fetched: Seq<char> },
    CheckingOutMerge { local: Seq<char>, fetched: Seq<char> },
    Staging { message: Seq<char> },
    ResolvingParent { message: Seq<char> },
    Committing,
    Pushing,
    Closed,
}

impl View for GitPhase {
    type V = GitPhaseView;

    open spec fn view(&self) -> GitPhaseView {
        match self {
            GitPhase::Initializing => GitPhaseView::Initializing,
            GitPhase::Opening => GitPhaseView::Opening,
            GitPhase::Cloning => GitPhaseView::Cloning,
            GitPhase::Ready => GitPhaseView::Ready,
            GitPhase::Fetching => GitPhaseView::Fetching,
            GitPhase::Analyzing { fetched } => GitPhaseView::Analyzing { fetched: fetched@ },
            GitPhase::FindingBranch { fetched } => GitPhaseView::FindingBranch {
                fetched: fetched@,
            },
            GitPhase::FastForwarding { fetched } => GitPhaseView::FastForwarding {
                fetched: fetched@,
            },
            GitPhase::ResolvingLocal { fetched } => GitPhaseView::ResolvingLocal {
                fetched: fetched@,
            },
            GitPhase::Merging { local, fetched } => GitPhaseView::Merging {
                local: local@,
                fetched: fetched@,
            },
            GitPhase::CheckingOutConflicts { local, fetched } => {
                GitPhaseView::CheckingOutConflicts { local: local@, fetched: fetched@ }
            },
            GitPhase::CommittingMerge { local, fetched } => GitPhaseView::CommittingMerge {
                local: local@,
                fetched: fetched@,
            },
            GitPhase::CheckingOutMerge { local, fetched } => GitPhaseView::CheckingOutMerge {
                local: local@,
                fetched: fetched@,
            },
            GitPhase::Staging { message } => GitPhaseView::Staging { message: message@ },
            GitPhase::ResolvingParent { message } => GitPhaseView::ResolvingParent {
                message: message@,
            },
            GitPhase::Committing => GitPhaseView::Committing,
            GitPhase::Pushing => GitPhaseView::Pushing,
            GitPhase::Closed => GitPhaseView::Closed,
        }
    }
}

/// The step that gives an operation up for a reason of the library's own.
pub open spec fn give_up(reason: Seq<char>) -> (GitPhaseView, GitStepView) {
    (GitPhaseView::Closed, GitStepView::Failed(SyncErrorView::Internal(reason)))
}

impl GitPhaseView {
    /// The command that fetches the one branch from the one remote.
    pub open spec fn fetch_command() -> GitCommandView {
        GitCommandView::Fetch { remote_name: REMOTE_NAME@, refspec: ref_specs(BRANCH_NAME@) }
    }

    /// The command that pushes the one branch to the one remote.
    pub open spec fn push_command() -> GitCommandView {
        GitCommandView::Push { remote_name: REMOTE_NAME@, refspec: ref_specs(BRANCH_NAME@) }
    }

    /// Starts a pull: the remote is fetched first. Only a repository that is
    /// ready takes a new operation.
    pub open spec fn pull(self) -> (GitPhaseView, GitStepView) {
        if self is Ready {
            (GitPhaseView::Fetching, GitStepView::Run(GitPhaseView::fetch_command()))
        } else {
            give_up(NOT_READY@)
        }
    }

    /// Starts a commit of everything under `dirs`: they are staged first.
    pub open spec fn add_commit(self, dirs: Seq<Seq<char>>, message: Seq<char>) -> (
        GitPhaseView,
        GitStepView,
    ) {
        if self is Ready {
            (
                GitPhaseView::Staging { message },
                GitStepView::Run(GitCommandView::Stage { dirs }),
            )
        } else {
            give_up(NOT_READY@)
        }
    }

    /// Starts a push.
    pub open spec fn push(self) -> (GitPhaseView, GitStepView) {
        if self is Ready {
            (GitPhaseView::Pushing, GitStepView::Run(GitPhaseView::push_command()))
        } else {
            give_up(NOT_READY@)
        }
    }

    /// What follows a fetch: the commit that the remote's branch points to is
    /// analysed. A remote without the branch has nothing to pull from, and
    /// the pull is given up.
    pub open spec fn after_fetch(heads: Seq<RemoteHeadView>) -> (GitPhaseView, GitStepView) {
        match advertised_id(heads, branch_ref(BRANCH_NAME@)) {
            Some(fetched) => (
                GitPhaseView::Analyzing { fetched },
                GitStepView::Run(GitCommandView::AnalyzeMerge { fetched }),
            ),
            None => give_up(NO_REMOTE_BRANCH@),
        }
    }

    /// What follows the analysis of a fetched commit: a fast-forward is
    /// preferred, a merge comes second, and otherwise nothing is to be done.
    pub open spec fn after_analysis(fetched: Seq<char>, analysis: MergeAnalysis) -> (
        GitPhaseView,
        GitStepView,
    ) {
        if analysis.is_fast_forward() {
            (
                GitPhaseView::FindingBranch { fetched },
                GitStepView::Run(GitCommandView::FindBranch { refname: branch_ref(BRANCH_NAME@) }),
            )
        } else if analysis.is_normal() {
            (GitPhaseView::ResolvingLocal { fetched }, GitStepView::Run(GitCommandView::ResolveHead))
        } else {
            (GitPhaseView::Ready, GitStepView::Finished(GitOutcomeView::UpToDate))
        }
    }

    /// The fast-forward of the branch, where it exists.
    pub open spec fn fast_forward(fetched: Seq<char>) -> (GitPhaseView, GitStepView) {
        (
            GitPhaseView::FastForwarding { fetched },
            GitStepView::Run(
                GitCommandView::FastForward {
                    refname: branch_ref(BRANCH_NAME@),
                    target: fetched,
                    reflog_message: fast_forward_message(branch_ref(BRANCH_NAME@), fetched),
                },
            ),
        )
    }

    /// The creation of the branch at the fetched commit, where it does not
    /// exist: as a rule, because an empty repository is pulled into.
    pub open spec fn create_branch(fetched: Seq<char>) -> (GitPhaseView, GitStepView) {
        (
            GitPhaseView::FastForwarding { fetched },
            GitStepView::Run(
                GitCommandView::CreateBranch {
                    refname: branch_ref(BRANCH_NAME@),
                    target: fetched,
                    reflog_message: create_branch_message(BRANCH_NAME@, fetched),
                },
            ),
        )
    }

    /// What follows the merge of the trees: with conflicts, the index is
    /// checked out and nothing is committed; without, the merge is committed
    /// with the local commit as first and the fetched one as second parent.
    pub open spec fn after_merge(local: Seq<char>, fetched: Seq<char>, conflicts: bool) -> (
        GitPhaseView,
        GitStepView,
    ) {
        if conflicts {
            (
                GitPhaseView::CheckingOutConflicts { local, fetched },
                GitStepView::Run(GitCommandView::CheckoutIndex),
            )
        } else {
            (
                GitPhaseView::CommittingMerge { local, fetched },
                GitStepView::Run(
                    GitCommandView::CommitMerge {
                        message: merge_message(fetched, local),
                        local,
                        remote: fetched,
                    },
                ),
            )
        }
    }

    /// What follows a push that the transport carried through: it still
    /// fails if the remote turned down any reference.
    pub open spec fn after_push(report: Seq<crate::models::git::RefUpdateView>) -> (
        GitPhaseView,
        GitStepView,
    ) {
        if any_rejected(report) {
            (GitPhaseView::Closed, GitStepView::Failed(SyncErrorView::PushRejected))
        } else {
            (GitPhaseView::Ready, GitStepView::Finished(GitOutcomeView::Pushed))
        }
    }

    /// The step that follows `reply`.
    ///
    /// A failure gives the operation up, with two exceptions: a branch that
    /// the repository reports as not found is missing, and a HEAD that the
    /// repository reports as unborn ahead of a commit means that there is no
    /// history yet.
    pub open spec fn advance(self, reply: GitReplyView) -> (GitPhaseView, GitStepView) {
        match (self, reply) {
            (GitPhaseView::Ready, _) => give_up(NOT_IN_FLIGHT@),
            (GitPhaseView::Closed, _) => give_up(NOT_IN_FLIGHT@),
            (GitPhaseView::Initializing, GitReplyView::Done) => (
                GitPhaseView::Ready,
                GitStepView::Finished(GitOutcomeView::Opened),
            ),
            (GitPhaseView::Initializing, GitReplyView::Failed(failure)) => (
                GitPhaseView::Closed,
                GitStepView::Failed(SyncErrorView::RepoInit(failure.message)),
            ),
            (GitPhaseView::Opening, GitReplyView::Done) => (
                GitPhaseView::Ready,
                GitStepView::Finished(GitOutcomeView::Opened),
            ),
            (GitPhaseView::Opening, GitReplyView::Failed(failure)) => (
                GitPhaseView::Closed,
                GitStepView::Failed(SyncErrorView::RepoNotFound(failure.message)),
            ),
            (GitPhaseView::Cloning, GitReplyView::Done) => (
                GitPhaseView::Ready,
                GitStepView::Finished(GitOutcomeView::Cloned),
            ),
            (GitPhaseView::Cloning, GitReplyView::Failed(failure)) => (
                GitPhaseView::Closed,
                GitStepView::Failed(failure.transport_error()),
            ),
            (GitPhaseView::Fetching, GitReplyView::Fetched(heads)) => GitPhaseView::after_fetch(
                heads,
            ),
            (GitPhaseView::Fetching, GitReplyView::Failed(failure)) => (
                GitPhaseView::Closed,
                GitStepView::Failed(failure.transport_error()),
            ),
            (GitPhaseView::Analyzing { fetched }, GitReplyView::Analysis(analysis)) => {
                GitPhaseView::after_analysis(fetched, analysis)
            },
            (GitPhaseView::FindingBranch { fetched }, GitReplyView::BranchFound(found)) => {
                if found {
                    GitPhaseView::fast_forward(fetched)
                } else {
                    GitPhaseView::create_branch(fetched)
                }
            },
            (GitPhaseView::FindingBranch { fetched }, GitReplyView::Failed(failure)) => {
                if failure.is_not_found() {
                    GitPhaseView::create_branch(fetched)
                } else {
                    give_up(failure.message)
                }
            },
            (GitPhaseView::FastForwarding { fetched }, GitReplyView::Done) => (
                GitPhaseView::Ready,
                GitStepView::Finished(GitOutcomeView::FastForwarded(fetched)),
            ),
            (GitPhaseView::ResolvingLocal { fetched }, GitReplyView::Head(Some(local))) => (
                GitPhaseView::Merging { local, fetched },
                GitStepView::Run(GitCommandView::MergeTrees { local, remote: fetched }),
            ),
            (GitPhaseView::ResolvingLocal { fetched }, GitReplyView::Head(None)) => give_up(
                NO_LOCAL_HISTORY@,
            ),
            (GitPhaseView::Merging { local, fetched }, GitReplyView::Merged { conflicts }) => {
                GitPhaseView::after_merge(local, fetched, conflicts)
            },
            (GitPhaseView::CheckingOutConflicts { local, fetched }, GitReplyView::Done) => (
                GitPhaseView::Closed,
                GitStepView::Finished(GitOutcomeView::Conflicted { local, remote: fetched }),
            ),
            (GitPhaseView::CommittingMerge { local, fetched }, GitReplyView::Done) => (
                GitPhaseView::CheckingOutMerge { local, fetched },
                GitStepView::Run(GitCommandView::CheckoutHead),
            ),
            (GitPhaseView::CheckingOutMerge { local, fetched }, GitReplyView::Done) => (
                GitPhaseView::Ready,
                GitStepView::Finished(GitOutcomeView::Merged { local, remote: fetched }),
            ),
            (GitPhaseView::Staging { message }, GitReplyView::Done) => (
                GitPhaseView::ResolvingParent { message },
                GitStepView::Run(GitCommandView::ResolveHead),
            ),
            (GitPhaseView::Staging { message }, GitReplyView::Failed(failure)) => (
                GitPhaseView::Closed,
                GitStepView::Failed(SyncErrorView::Staging(failure.message)),
            ),
            (GitPhaseView::ResolvingParent { message }, GitReplyView::Head(parent)) => (
                GitPhaseView::Committing,
                GitStepView::Run(GitCommandView::Commit { message, parent }),
            ),
            (GitPhaseView::ResolvingParent { message }, GitReplyView::Failed(failure)) => {
                if failure.is_unborn() {
                    (
                        GitPhaseView::Committing,
                        GitStepView::Run(GitCommandView::Commit { message, parent: None }),
                    )
                } else {
                    give_up(failure.message)
                }
            },
            (GitPhaseView::Committing, GitReplyView::Done) => (
                GitPhaseView::Ready,
                GitStepView::Finished(GitOutcomeView::Committed),
            ),
            (GitPhaseView::Pushing, GitReplyView::Pushed(report)) => GitPhaseView::after_push(
                report,
            ),
            (GitPhaseView::Pushing, GitReplyView::Failed(failure)) => (
                GitPhaseView::Closed,
                GitStepView::Failed(failure.transport_error()),
            ),
            (_, GitReplyView::Failed(failure)) => give_up(failure.message),
            (_, _) => give_up(UNEXPECTED_REPLY@),
        }
    }
}

/// The git side of one sync: a repository and what is under way on it.
#[derive(Debug, PartialEq, Eq)]
pub struct GitUtils {
    phase: GitPhase,
}

impl View for GitUtils {
    type V = GitPhaseView;

    closed spec fn view(&self) -> GitPhaseView {
        self.phase@
    }
}

/// The step that gives an operation up for a reason of the library's own.
fn gave_up(reason: &str) -> (next: (GitUtils, GitStep))
    ensures
        (next.0@, next.1@) == give_up(reason@),
{
    (GitUtils { phase: GitPhase::Closed }, GitStep::Failed(SyncError::Internal(reason.to_string())))
}

/// Whether the remote turned down at least one reference update.
pub fn push_rejected(report: &Vec<RefUpdate>) -> (rejected: bool)
    ensures
        rejected == any_rejected(report.deep_view()),
{
    let mut i: usize = 0;
    while i < report.len()
        invariant
            i <= report.len(),
            forall|j: int| 0 <= j < i ==> (#[trigger] report.deep_view()[j]).error is None,
        decreases report.len() - i,
    {
        if report[i].error.is_some() {
            assert(report.deep_view()[i as int].error is Some);
            return true;
        }
        i += 1;
    }
    false
}

impl GitUtils {
    /// Whether the repository is open and nothing is in flight.
    pub fn is_ready(&self) -> (ready: bool)
        ensures
            ready == (self@ is Ready),
    {
        match self.phase {
            GitPhase::Ready => true,
            _ => false,
        }
    }

    /// Whether an operation failed or ended in conflicts, so that nothing
    /// more is done.
    pub fn is_closed(&self) -> (closed: bool)
        ensures
            closed == (self@ is Closed),
    {
        match self.phase {
            GitPhase::Closed => true,
            _ => false,
        }
    }

    /// Begins with a new repository at `repo_path` whose remote `origin` is
    /// `remote_url`, and whose commits `signature` signs.
    pub fn new(remote_url: String, repo_path: &str, signature: Signature) -> (begun: (
        GitUtils,
        GitCommand,
    ))
        ensures
            begun.0@ == GitPhaseView::Initializing,
            begun.1@ == (GitCommandView::InitRepository {
                path: repo_path@,
                remote_name: REMOTE_NAME@,
                remote_url: remote_url@,
                signature: signature@,
            }),
    {
        (
            GitUtils { phase: GitPhase::Initializing },
            GitCommand::InitRepository {
                path: repo_path.to_string(),
                remote_name: REMOTE_NAME.to_string(),
                remote_url,
                signature,
            },
        )
    }

    /// Begins with the repository that exists at `repo_path`, whose commits
    /// `signature` signs.
    pub fn load(repo_path: &str, signature: Signature) -> (begun: (GitUtils, GitCommand))
        ensures
            begun.0@ == GitPhaseView::Opening,
            begun.1@ == (GitCommandView::OpenRepository { path: repo_path@, signature: signature@ }),
    {
        (
            GitUtils { phase: GitPhase::Opening },
            GitCommand::OpenRepository { path: repo_path.to_string(), signature },
        )
    }

    /// Begins with a clone of `remote_url` at `clone_path`.
    pub fn clone(remote_url: String, clone_path: &str) -> (begun: (GitUtils, GitCommand))
        ensures
            begun.0@ == GitPhaseView::Cloning,
            begun.1@ == (GitCommandView::CloneRepository {
                remote_url: remote_url@,
                path: clone_path@,
            }),
    {
        (
            GitUtils { phase: GitPhase::Cloning },
            GitCommand::CloneRepository { remote_url, path: clone_path.to_string() },
        )
    }

    /// Begins with the clone that tries out the SSH agent: a public
    /// repository, cloned into a directory for temporary files.
    pub fn test_git_clone_ssh() -> (begun: (GitUtils, GitCommand))
        ensures
            begun.0@ == GitPhaseView::Cloning,
            begun.1@ == (GitCommandView::CloneRepository {
                remote_url: TEST_CLONE_URL@,
                path: TEST_CLONE_PATH@,
            }),
    {
        GitUtils::clone(TEST_CLONE_URL.to_string(), TEST_CLONE_PATH)
    }

    /// The refspec that maps `branch` of the remote to `branch` here.
    pub fn get_ref_specs(branch: &str) -> (refspec: String)
        ensures
            refspec@ == ref_specs(branch@),
    {
        join_four_texts("refs/heads/", branch, ":refs/heads/", branch)
    }

    /// The user to ask the SSH agent for: the one that the remote URL names.
    /// Without one there is nobody to authenticate as.
    pub fn credential_username(username_from_url: Option<&str>) -> (username: Result<
        String,
        SyncError,
    >)
        ensures
            match username_from_url {
                Some(name) => username matches Ok(chosen) && chosen@ == name@,
                None => username matches Err(error) && error@ == SyncErrorView::Auth(
                    NO_USERNAME@,
                ),
            },
    {
        match username_from_url {
            Some(name) => Ok(name.to_string()),
            None => Err(SyncError::Auth(NO_USERNAME.to_string())),
        }
    }

    /// The command that adds everything under `dirs` to the index.
    pub fn add(dirs: Vec<String>) -> (command: GitCommand)
        ensures
            command@ == (GitCommandView::Stage { dirs: dirs.deep_view() }),
    {
        GitCommand::Stage { dirs }
    }

    /// Starts a pull.
    pub fn pull(self) -> (next: (GitUtils, GitStep))
        ensures
            (next.0@, next.1@) == self@.pull(),
    {
        match self.phase {
            GitPhase::Ready => (
                GitUtils { phase: GitPhase::Fetching },
                GitStep::Run(
                    GitCommand::Fetch {
                        remote_name: REMOTE_NAME.to_string(),
                        refspec: GitUtils::get_ref_specs(BRANCH_NAME),
                    },
                ),
            ),
            _ => gave_up(NOT_READY),
        }
    }

    /// Starts a commit of everything under `dirs`, with `message`.
    pub fn add_commit(self, dirs: Vec<String>, message: &str) -> (next: (GitUtils, GitStep))
        ensures
            (next.0@, next.1@) == self@.add_commit(dirs.deep_view(), message@),
    {
        match self.phase {
            GitPhase::Ready => (
                GitUtils { phase: GitPhase::Staging { message: message.to_string() } },
                GitStep::Run(GitUtils::add(dirs)),
            ),
            _ => gave_up(NOT_READY),
        }
    }

    /// Starts a push.
    pub fn push(self) -> (next: (GitUtils, GitStep))
        ensures
            (next.0@, next.1@) == self@.push(),
    {
        match self.phase {
            GitPhase::Ready => (
                GitUtils { phase: GitPhase::Pushing },
                GitStep::Run(
                    GitCommand::Push {
                        remote_name: REMOTE_NAME.to_string(),
                        refspec: GitUtils::get_ref_specs(BRANCH_NAME),
                    },
                ),
            ),
            _ => gave_up(NOT_READY),
        }
    }

    /// What follows a fetch, given the references that the remote advertised.
    pub fn do_fetch(heads: &Vec<crate::models::git::RemoteHead>) -> (next: (GitUtils, GitStep))
        ensures
            (next.0@, next.1@) == GitPhaseView::after_fetch(heads.deep_view()),
    {
        let branch = join_texts("refs/heads/", BRANCH_NAME);
        match find_head(heads, branch.as_str()) {
            Some(fetched) => {
                let asked = fetched.clone();
                (
                    GitUtils { phase: GitPhase::Analyzing { fetched } },
                    GitStep::Run(GitCommand::AnalyzeMerge { fetched: asked }),
                )
            },
            None => gave_up(NO_REMOTE_BRANCH),
        }
    }

    /// What follows the analysis of a fetched commit.
    pub fn do_merge(fetched: String, analysis: MergeAnalysis) -> (next: (GitUtils, GitStep))
        ensures
            (next.0@, next.1@) == GitPhaseView::after_analysis(fetched@, analysis),
    {
        if analysis.is_fast_forward() {
            (
                GitUtils { phase: GitPhase::FindingBranch { fetched } },
                GitStep::Run(
                    GitCommand::FindBranch { refname: join_texts("refs/heads/", BRANCH_NAME) },
                ),
            )
        } else if analysis.is_normal() {
            (
                GitUtils { phase: GitPhase::ResolvingLocal { fetched } },
                GitStep::Run(GitCommand::ResolveHead),
            )
        } else {
            (GitUtils { phase: GitPhase::Ready }, GitStep::Finished(GitOutcome::UpToDate))
        }
    }

    /// The fast-forward of the branch to the fetched commit.
    pub fn fast_forward(fetched: String) -> (next: (GitUtils, GitStep))
        ensures
            (next.0@, next.1@) == GitPhaseView::fast_forward(fetched@),
    {
        let refname = join_texts("refs/heads/", BRANCH_NAME);
        let reflog_message = join_four_texts(
            "Fast-Forward: Setting ",
            refname.as_str(),
            " to id: ",
            fetched.as_str(),
        );
        let target = fetched.clone();
        (
            GitUtils { phase: GitPhase::FastForwarding { fetched } },
            GitStep::Run(GitCommand::FastForward { refname, target, reflog_message }),
        )
    }

    /// The creation of the branch at the fetched commit.
    pub fn create_branch(fetched: String) -> (next: (GitUtils, GitStep))
        ensures
            (next.0@, next.1@) == GitPhaseView::create_branch(fetched@),
    {
        let refname = join_texts("refs/heads/", BRANCH_NAME);
        let reflog_message = join_four_texts("Setting ", BRANCH_NAME, " to ", fetched.as_str());
        let target = fetched.clone();
        (
            GitUtils { phase: GitPhase::FastForwarding { fetched } },
            GitStep::Run(GitCommand::CreateBranch { refname, target, reflog_message }),
        )
    }

    /// What follows the merge of the trees: with conflicts, the index is
    /// checked out and nothing is committed; without, the merge is committed
    /// with the local commit as first and the fetched one as second parent.
    pub fn normal_merge(local: String, fetched: String, conflicts: bool) -> (next: (
        GitUtils,
        GitStep,
    ))
        ensures
            (next.0@, next.1@) == GitPhaseView::after_merge(local@, fetched@, conflicts),
    {
        if conflicts {
            (
                GitUtils { phase: GitPhase::CheckingOutConflicts { local, fetched } },
                GitStep::Run(GitCommand::CheckoutIndex),
            )
        } else {
            let message = merge_commit_message(fetched.as_str(), local.as_str());
            let first_parent = local.clone();
            let second_parent = fetched.clone();
            (
                GitUtils { phase: GitPhase::CommittingMerge { local, fetched } },
                GitStep::Run(
                    GitCommand::CommitMerge {
                        message,
                        local: first_parent,
                        remote: second_parent,
                    },
                ),
            )
        }
    }

    /// Takes the reply to the command in flight and says what follows.
    pub fn advance(self, reply: GitReply) -> (next: (GitUtils, GitStep))
        ensures
            (next.0@, next.1@) == self@.advance(reply@),
    {
        match (self.phase, reply) {
            (GitPhase::Ready, _) => gave_up(NOT_IN_FLIGHT),
            (GitPhase::Closed, _) => gave_up(NOT_IN_FLIGHT),
            (GitPhase::Initializing, GitReply::Done) => (
                GitUtils { phase: GitPhase::Ready },
                GitStep::Finished(GitOutcome::Opened),
            ),
            (GitPhase::Initializing, GitReply::Failed(failure)) => (
                GitUtils { phase: GitPhase::Closed },
                GitStep::Failed(SyncError::RepoInit(failure.message)),
            ),
            (GitPhase::Opening, GitReply::Done) => (
                GitUtils { phase: GitPhase::Ready },
                GitStep::Finished(GitOutcome::Opened),
            ),
            (GitPhase::Opening, GitReply::Failed(failure)) => (
                GitUtils { phase: GitPhase::Closed },
                GitStep::Failed(SyncError::RepoNotFound(failure.message)),
            ),
            (GitPhase::Cloning, GitReply::Done) => (
                GitUtils { phase: GitPhase::Ready },
                GitStep::Finished(GitOutcome::Cloned),
            ),
            (GitPhase::Cloning, GitReply::Failed(failure)) => (
                GitUtils { phase: GitPhase::Closed },
                GitStep::Failed(failure.transport_error()),
            ),
            (GitPhase::Fetching, GitReply::Fetched(heads)) => GitUtils::do_fetch(&heads),
            (GitPhase::Fetching, GitReply::Failed(failure)) => (
                GitUtils { phase: GitPhase::Closed },
                GitStep::Failed(failure.transport_error()),
            ),
            (GitPhase::Analyzing { fetched }, GitReply::Analysis(analysis)) => {
                GitUtils::do_merge(fetched, analysis)
            },
            (GitPhase::FindingBranch { fetched }, GitReply::BranchFound(found)) => {
                if found {
                    GitUtils::fast_forward(fetched)
                } else {
                    GitUtils::create_branch(fetched)
                }
            },
            (GitPhase::FindingBranch { fetched }, GitReply::Failed(failure)) => {
                if failure.is_not_found() {
                    GitUtils::create_branch(fetched)
                } else {
                    (
                        GitUtils { phase: GitPhase::Closed },
                        GitStep::Failed(SyncError::Internal(failure.message)),
                    )
                }
            },
            (GitPhase::FastForwarding { fetched }, GitReply::Done) => (
                GitUtils { phase: GitPhase::Ready },
                GitStep::Finished(GitOutcome::FastForwarded(fetched)),
            ),
            (GitPhase::ResolvingLocal { fetched }, GitReply::Head(Some(local))) => {
                let ours = local.clone();
                let theirs = fetched.clone();
                (
                    GitUtils { phase: GitPhase::Merging { local, fetched } },
                    GitStep::Run(GitCommand::MergeTrees { local: ours, remote: theirs }),
                )
            },
            (GitPhase::ResolvingLocal { fetched }, GitReply::Head(None)) => gave_up(
                NO_LOCAL_HISTORY,
            ),
            (GitPhase::Merging { local, fetched }, GitReply::Merged { conflicts }) => {
                GitUtils::normal_merge(local, fetched, conflicts)
            },
            (GitPhase::CheckingOutConflicts { local, fetched }, GitReply::Done) => (
                GitUtils { phase: GitPhase::Closed },
                GitStep::Finished(GitOutcome::Conflicted { local, remote: fetched }),
            ),
            (GitPhase::CommittingMerge { local, fetched }, GitReply::Done) => (
                GitUtils { phase: GitPhase::CheckingOutMerge { local, fetched } },
                GitStep::Run(GitCommand::CheckoutHead),
            ),
            (GitPhase::CheckingOutMerge { local, fetched }, GitReply::Done) => (
                GitUtils { phase: GitPhase::Ready },
                GitStep::Finished(GitOutcome::Merged { local, remote: fetched }),
            ),
            (GitPhase::Staging { message }, GitReply::Done) => (
                GitUtils { phase: GitPhase::ResolvingParent { message } },
                GitStep::Run(GitCommand::ResolveHead),
            ),
            (GitPhase::Staging { message }, GitReply::Failed(failure)) => (
                GitUtils { phase: GitPhase::Closed },
                GitStep::Failed(SyncError::Staging(failure.message)),
            ),
            (GitPhase::ResolvingParent { message }, GitReply::Head(parent)) => (
                GitUtils { phase: GitPhase::Committing },
                GitStep::Run(GitCommand::Commit { message, parent }),
            ),
            (GitPhase::ResolvingParent { message }, GitReply::Failed(failure)) => {
                if failure.is_unborn() {
                    (
                        GitUtils { phase: GitPhase::Committing },
                        GitStep::Run(GitCommand::Commit { message, parent: None }),
                    )
                } else {
                    (
                        GitUtils { phase: GitPhase::Closed },
                        GitStep::Failed(SyncError::Internal(failure.message)),
                    )
                }
            },
            (GitPhase::Committing, GitReply::Done) => (
                GitUtils { phase: GitPhase::Ready },
                GitStep::Finished(GitOutcome::Committed),
            ),
            (GitPhase::Pushing, GitReply::Pushed(report)) => {
                if push_rejected(&report) {
                    (GitUtils { phase: GitPhase::Closed }, GitStep::Failed(SyncError::PushRejected))
                } else {
                    (GitUtils { phase: GitPhase::Ready }, GitStep::Finished(GitOutcome::Pushed))
                }
            },
            (GitPhase::Pushing, GitReply::Failed(failure)) => (
                GitUtils { phase: GitPhase::Closed },
                GitStep::Failed(failure.transport_error()),
            ),
            (_, GitReply::Failed(failure)) => (
                GitUtils { phase: GitPhase::Closed },
                GitStep::Failed(SyncError::Internal(failure.message)),
            ),
            (_, _) => gave_up(UNEXPECTED_REPLY),
        }
    }
}

impl GitPhaseView {
    /// The steps that a sequence of replies, oldest first, brings about.
    pub open spec fn steps(self, replies: Seq<GitReplyView>) -> Seq<GitStepView>
        decreases replies.len(),
    {
        if replies.len() == 0 {
            Seq::empty()
        } else {
            let (next, step) = self.advance(replies.first());
            seq![step] + next.steps(replies.drop_first())
        }
    }
}

impl GitStepView {
    /// Whether the step has the program write a commit.
    pub open spec fn writes_commit(self) -> bool {
        self matches GitStepView::Run(command) && command.creates_commit()
    }

    /// Whether the step has the program do anything at all.
    pub open spec fn runs_command(self) -> bool {
        self is Run
    }
}

/// A failed step ends the operation: whenever a step fails, the repository is
/// closed, and a closed repository takes no new operation.
pub proof fn lemma_failure_closes(phase: GitPhaseView, reply: GitReplyView)
    ensures
        phase.advance(reply).1 is Failed ==> phase.advance(reply).0 is Closed,
        phase.pull().1 is Failed ==> phase.pull().0 is Closed,
        phase.push().1 is Failed ==> phase.push().0 is Closed,
        GitPhaseView::Closed.pull().1 is Failed,
        GitPhaseView::Closed.push().1 is Failed,
        forall|dirs: Seq<Seq<char>>, message: Seq<char>|
            (#[trigger] GitPhaseView::Closed.add_commit(dirs, message)).1 is Failed,
{
}

/// Nothing is done on a closed repository: whatever replies come in, every
/// step fails and none has the program run a command.
pub proof fn lemma_closed_runs_nothing(replies: Seq<GitReplyView>)
    ensures
        GitPhaseView::Closed.steps(replies).len() == replies.len(),
        forall|i: int|
            0 <= i < replies.len() ==> (#[trigger] GitPhaseView::Closed.steps(replies)[i])
                is Failed,
    decreases replies.len(),
{
    if replies.len() > 0 {
        lemma_closed_runs_nothing(replies.drop_first());
    }
}

/// Fast-forward. When the analysis of the fetched commit says that the local
/// branch can be moved forward and the branch exists, a pull has the branch
/// `refs/heads/master` set to the fetched commit, HEAD pointed at it and the
/// working tree forced to match, and ends with the fetched commit as the new
/// head. No commit is written on the way.
pub proof fn lemma_pull_fast_forwards(
    heads: Seq<RemoteHeadView>,
    fetched: Seq<char>,
    analysis: MergeAnalysis,
)
    requires
        advertised_id(heads, branch_ref(BRANCH_NAME@)) == Some(fetched),
        analysis.is_fast_forward(),
    ensures
        ({
            let begun = GitPhaseView::Ready.pull();
            let fetch = begun.0.advance(GitReplyView::Fetched(heads));
            let analyzed = fetch.0.advance(GitReplyView::Analysis(analysis));
            let found = analyzed.0.advance(GitReplyView::BranchFound(true));
            let done = found.0.advance(GitReplyView::Done);
            &&& begun.1 == GitStepView::Run(GitPhaseView::fetch_command())
            &&& fetch.1 == GitStepView::Run(GitCommandView::AnalyzeMerge { fetched })
            &&& analyzed.1 == GitStepView::Run(
                GitCommandView::FindBranch { refname: branch_ref(BRANCH_NAME@) },
            )
            &&& found.1 == GitStepView::Run(
                GitCommandView::FastForward {
                    refname: branch_ref(BRANCH_NAME@),
                    target: fetched,
                    reflog_message: fast_forward_message(branch_ref(BRANCH_NAME@), fetched),
                },
            )
            &&& done.1 == GitStepView::Finished(GitOutcomeView::FastForwarded(fetched))
            &&& done.0 is Ready
        }),
{
}

/// Pulling into a repository without the branch. When the analysis says
/// fast-forward and the branch does not exist, as the lookup says or as the
/// repository reports by a failure, the branch is created at the fetched
/// commit.
pub proof fn lemma_pull_creates_missing_branch(
    fetched: Seq<char>,
    analysis: MergeAnalysis,
    lookup: GitReplyView,
)
    requires
        analysis.is_fast_forward(),
        lookup == GitReplyView::BranchFound(false) || (lookup is Failed
            && lookup->Failed_0.is_not_found()),
    ensures
        ({
            let analyzed = (GitPhaseView::Analyzing { fetched }).advance(
                GitReplyView::Analysis(analysis),
            );
            let looked = analyzed.0.advance(lookup);
            let done = looked.0.advance(GitReplyView::Done);
            &&& looked.1 == GitStepView::Run(
                GitCommandView::CreateBranch {
                    refname: branch_ref(BRANCH_NAME@),
                    target: fetched,
                    reflog_message: create_branch_message(BRANCH_NAME@, fetched),
                },
            )
            &&& done.1 == GitStepView::Finished(GitOutcomeView::FastForwarded(fetched))
            &&& done.0 is Ready
        }),
{
}

/// Nothing to do. When the analysis says neither fast-forward nor diverged,
/// the pull ends at once and runs no further command.
pub proof fn lemma_pull_up_to_date(fetched: Seq<char>, analysis: MergeAnalysis)
    requires
        !analysis.is_fast_forward(),
        !analysis.is_normal(),
    ensures
        (GitPhaseView::Analyzing { fetched }).advance(GitReplyView::Analysis(analysis)) == (
            GitPhaseView::Ready,
            GitStepView::Finished(GitOutcomeView::UpToDate),
        ),
{
}

/// Three-way merge without conflicts. When the histories have diverged and
/// the merged index holds no conflict, exactly one commit is written: the
/// merge commit, with the local commit as first and the fetched commit as
/// second parent and a message that names both. The working tree is then
/// made to match it, and the index is never checked out.
pub proof fn lemma_clean_merge_commits_two_parents(
    fetched: Seq<char>,
    local: Seq<char>,
    analysis: MergeAnalysis,
)
    requires
        !analysis.is_fast_forward(),
        analysis.is_normal(),
    ensures
        ({
            let analyzed = (GitPhaseView::Analyzing { fetched }).advance(
                GitReplyView::Analysis(analysis),
            );
            let resolved = analyzed.0.advance(GitReplyView::Head(Some(local)));
            let merged = resolved.0.advance(GitReplyView::Merged { conflicts: false });
            let committed = merged.0.advance(GitReplyView::Done);
            let checked_out = committed.0.advance(GitReplyView::Done);
            &&& analyzed.1 == GitStepView::Run(GitCommandView::ResolveHead)
            &&& resolved.1 == GitStepView::Run(
                GitCommandView::MergeTrees { local, remote: fetched },
            )
            &&& merged.1 == GitStepView::Run(
                GitCommandView::CommitMerge {
                    message: merge_message(fetched, local),
                    local,
                    remote: fetched,
                },
            )
            &&& committed.1 == GitStepView::Run(GitCommandView::CheckoutHead)
            &&& checked_out.1 == GitStepView::Finished(
                GitOutcomeView::Merged { local, remote: fetched },
            )
            &&& checked_out.0 is Ready
            &&& !analyzed.1.writes_commit()
            &&& !resolved.1.writes_commit()
            &&& !committed.1.writes_commit()
        }),
{
}

/// Three-way merge with conflicts. When the merged index holds conflicts, it
/// is checked out into the working tree and the pull ends as conflicted.
/// From the moment the conflicts are known no commit is written, whatever
/// replies come in afterwards: the merge is not committed, and the
/// repository takes no commit or push any more.
pub proof fn lemma_conflicts_write_no_commit(
    fetched: Seq<char>,
    local: Seq<char>,
    later: Seq<GitReplyView>,
)
    ensures
        ({
            let merged = (GitPhaseView::Merging { local, fetched }).advance(
                GitReplyView::Merged { conflicts: true },
            );
            let checked_out = merged.0.advance(GitReplyView::Done);
            &&& merged.1 == GitStepView::Run(GitCommandView::CheckoutIndex)
            &&& checked_out.1 == GitStepView::Finished(
                GitOutcomeView::Conflicted { local, remote: fetched },
            )
            &&& checked_out.0 is Closed
            &&& forall|i: int|
                0 <= i < merged.0.steps(later).len() ==> !(#[trigger] merged.0.steps(
                    later,
                )[i]).writes_commit()
            &&& forall|dirs: Seq<Seq<char>>, message: Seq<char>|
                !(#[trigger] checked_out.0.add_commit(dirs, message)).1.runs_command()
            &&& !checked_out.0.push().1.runs_command()
        }),
{
    let waiting = GitPhaseView::CheckingOutConflicts { local, fetched };
    if later.len() > 0 {
        assert(waiting.advance(later.first()).0 is Closed);
        lemma_closed_runs_nothing(later.drop_first());
        let rest = GitPhaseView::Closed.steps(later.drop_first());
        assert forall|i: int| 0 <= i < waiting.steps(later).len() implies !(
        #[trigger] waiting.steps(later)[i]).writes_commit() by {
            if i > 0 {
                assert(waiting.steps(later)[i] == rest[i - 1]);
            }
        }
    }
}

/// Push rejection. A push whose transport went through fails all the same
/// if the remote turned down any reference update, and only then.
pub proof fn lemma_rejected_push_fails(report: Seq<crate::models::git::RefUpdateView>)
    ensures
        any_rejected(report) ==> GitPhaseView::Pushing.advance(GitReplyView::Pushed(report)) == (
            GitPhaseView::Closed,
            GitStepView::Failed(SyncErrorView::PushRejected),
        ),
        !any_rejected(report) ==> GitPhaseView::Pushing.advance(GitReplyView::Pushed(report)) == (
            GitPhaseView::Ready,
            GitStepView::Finished(GitOutcomeView::Pushed),
        ),
{
}

/// The parents of an ordinary commit. The commit that follows staging has
/// the current head as its only parent, and none only where there is no
/// history yet. Where HEAD cannot be resolved for another reason, nothing is
/// committed.
pub proof fn lemma_commit_parent_is_head(message: Seq<char>, head: GitReplyView)
    requires
        head is Head || head is Failed,
    ensures
        head is Failed && !head->Failed_0.is_unborn() ==> (GitPhaseView::ResolvingParent {
            message,
        }).advance(head) == give_up(head->Failed_0.message),
        head is Head || head->Failed_0.is_unborn() ==> (GitPhaseView::ResolvingParent {
            message,
        }).advance(head) == (
            GitPhaseView::Committing,
            GitStepView::Run(
                GitCommandView::Commit {
                    message,
                    parent: match head {
                        GitReplyView::Head(parent) => parent,
                        _ => None,
                    },
                },
            ),
        ),
{
}

/// What is said about a fetch that is under way: once every object has
/// arrived, how far the deltas are resolved; before that, how many objects
/// and bytes have arrived, provided that the total is known. Nothing is said
/// while there is nothing to count.
pub open spec fn transfer_progress_text(stats: TransferStats) -> Option<Seq<char>> {
    if stats.received_objects == stats.total_objects {
        Some(
            "Resolving deltas "@ + decimal(stats.indexed_deltas as nat) + "/"@ + decimal(
                stats.total_deltas as nat,
            ),
        )
    } else if stats.total_objects > 0 {
        Some(
            "Received "@ + decimal(stats.received_objects as nat) + "/"@ + decimal(
                stats.total_objects as nat,
            ) + " objects ("@ + decimal(stats.indexed_objects as nat) + ") in "@ + decimal(
                stats.received_bytes as nat,
            ) + " bytes"@,
        )
    } else {
        None
    }
}

/// What is said about a fetch that has ended: the objects and bytes that
/// arrived and, where some objects were found locally, how many of them.
pub open spec fn fetch_summary_text(stats: TransferStats) -> Seq<char> {
    let received = "Received "@ + decimal(stats.indexed_objects as nat) + "/"@ + decimal(
        stats.total_objects as nat,
    ) + " objects in "@ + decimal(stats.received_bytes as nat) + " bytes"@;
    if stats.local_objects > 0 {
        received + " (used "@ + decimal(stats.local_objects as nat) + " local objects)"@
    } else {
        received
    }
}

/// What is said about a fetch that is under way, if anything.
pub fn transfer_progress_message(stats: &TransferStats) -> (message: Option<String>)
    ensures
        message.deep_view() == transfer_progress_text(*stats),
{
    if stats.received_objects == stats.total_objects {
        let mut text = String::from_str("Resolving deltas ");
        text.append(render_u64(stats.indexed_deltas).as_str());
        text.append("/");
        text.append(render_u64(stats.total_deltas).as_str());
        Some(text)
    } else if stats.total_objects > 0 {
        let mut text = String::from_str("Received ");
        text.append(render_u64(stats.received_objects).as_str());
        text.append("/");
        text.append(render_u64(stats.total_objects).as_str());
        text.append(" objects (");
        text.append(render_u64(stats.indexed_objects).as_str());
        text.append(") in ");
        text.append(render_u64(stats.received_bytes).as_str());
        text.append(" bytes");
        Some(text)
    } else {
        None
    }
}

/// What is said about a fetch that has ended.
pub fn fetch_summary_message(stats: &TransferStats) -> (message: String)
    ensures
        message@ == fetch_summary_text(*stats),
{
    let mut text = String::from_str("Received ");
    text.append(render_u64(stats.indexed_objects).as_str());
    text.append("/");
    text.append(render_u64(stats.total_objects).as_str());
    text.append(" objects in ");
    text.append(render_u64(stats.received_bytes).as_str());
    text.append(" bytes");
    if stats.local_objects > 0 {
        text.append(" (used ");
        text.append(render_u64(stats.local_objects).as_str());
        text.append(" local objects)");
    }
    text
}

impl GitPhaseView {
    /// An upper bound on the number of commands that the operation under way
    /// can still take before it ends.
    pub open spec fn rank(self) -> nat {
        match self {
            GitPhaseView::Ready => 0,
            GitPhaseView::Closed => 0,
            GitPhaseView::Initializing => 1,
            GitPhaseView::Opening => 1,
            GitPhaseView::Cloning => 1,
            GitPhaseView::Fetching => 6,
            GitPhaseView::Analyzing { .. } => 5,
            GitPhaseView::ResolvingLocal { .. } => 4,
            GitPhaseView::Merging { .. } => 3,
            GitPhaseView::CommittingMerge { .. } => 2,
            GitPhaseView::CheckingOutMerge { .. } => 1,
            GitPhaseView::CheckingOutConflicts { .. } => 1,
            GitPhaseView::FindingBranch { .. } => 2,
            GitPhaseView::FastForwarding { .. } => 1,
            GitPhaseView::Staging { .. } => 3,
            GitPhaseView::ResolvingParent { .. } => 2,
            GitPhaseView::Committing => 1,
            GitPhaseView::Pushing => 1,
        }
    }
}

/// Every operation ends. Each reply that leads to another command brings the
/// operation closer to its end, and an operation that has ended or failed
/// leaves nothing in flight.
pub proof fn lemma_operation_ends(phase: GitPhaseView, reply: GitReplyView)
    ensures
        phase.advance(reply).1 is Run ==> phase.advance(reply).0.rank() < phase.rank(),
        !(phase.advance(reply).1 is Run) ==> phase.advance(reply).0.rank() == 0,
        phase.pull().0.rank() <= 6,
        phase.push().0.rank() <= 1,
        forall|dirs: Seq<Seq<char>>, message: Seq<char>|
            (#[trigger] phase.add_commit(dirs, message)).0.rank() <= 3,
{
}

} // verus!
