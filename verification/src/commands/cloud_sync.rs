//! The answers of the cloud sync commands.

use vstd::prelude::*;
use crate::models::git::GitStep;
use crate::models::git::GitStepView;
use crate::models::sync_error::SyncResult;
use crate::utils::git_utils::UNEXPECTED_REPLY;

verus! {

/// The answer to the clone that tries out the SSH agent.
#[derive(Debug, Clone, PartialEq, Eq)]
pub struct TestGitCloneSshResponse {
    pub status: bool,
    pub message: String,
}

/// What the clone that tries out the SSH agent answers, given how the clone
/// ended: a success where it went through, the error's text otherwise.
pub open spec fn clone_answer(step: GitStepView) -> Result<(bool, Seq<char>), Seq<char>> {
    match step {
        GitStepView::Finished(_) => Ok((true, "Success"@)),
        GitStepView::Failed(error) => Err(error.message()),
        GitStepView::Run(_) => Err(UNEXPECTED_REPLY@),
    }
}

/// The answer to the clone that tries out the SSH agent, given how the clone
/// ended.
pub fn test_git_clone_ssh(step: &GitStep) -> (answer: Result<TestGitCloneSshResponse, String>)
    ensures
        match clone_answer(step@) {
            Ok(expected) => answer matches Ok(response) && response.status == expected.0
                && response.message@ == expected.1,
            Err(text) => answer matches Err(message) && message@ == text,
        },
{
    match step {
        GitStep::Finished(_) => Ok(
            TestGitCloneSshResponse { status: true, message: "Success".to_string() },
        ),
        GitStep::Failed(error) => Err(error.message()),
        GitStep::Run(_) => Err(UNEXPECTED_REPLY.to_string()),
    }
}

/// The answer to a first-time setup of the cloud sync.
#[derive(Debug, Clone, PartialEq, Eq)]
pub struct SetupGitCloudSyncResponse {
    /// `true` for success, `false` for failure.
    pub status: bool,
    /// Whether the window may offer another try.
    pub retry: bool,
    /// Success or error message.
    pub message: String,
}

/// The answer to a setup that ended with `result`.
pub fn setup_git_cloud_sync(result: SyncResult) -> (response: SetupGitCloudSyncResponse)
    ensures
        response.status == result.status,
        response.retry == result.retryable,
        response.message@ == result.message@,
{
    SetupGitCloudSyncResponse {
        status: result.status,
        retry: result.retryable,
        message: result.message,
    }
}

/// The answer to a sync.
#[derive(Debug, Clone, PartialEq, Eq)]
pub struct SyncToGitCloudResponse {
    /// `true` for success, `false` for failure.
    pub status: bool,
    /// Whether the window may offer another try.
    pub retry: bool,
    /// Success or error message.
    pub message: String,
}

/// The answer to a sync that ended with `result`.
pub fn sync_to_git_cloud(result: SyncResult) -> (response: SyncToGitCloudResponse)
    ensures
        response.status == result.status,
        response.retry == result.retryable,
        response.message@ == result.message@,
{
    SyncToGitCloudResponse {
        status: result.status,
        retry: result.retryable,
        message: result.message,
    }
}

} // verus!
