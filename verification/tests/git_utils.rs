use mediocre::models::git::{
    find_head, GitCommand, GitFailure, GitOutcome, GitReply, GitStep, MergeAnalysis, RefUpdate,
    RemoteHead, Signature, TransferStats,
};
use mediocre::models::sync_error::SyncError;
use mediocre::utils::git_utils::{
    fetch_summary_message, push_rejected, transfer_progress_message, GitUtils,
};

const FETCHED: &str = "1f7a7a472abf3dd9643fd615f6da379c4acb3e3a";
const LOCAL: &str = "85e0ed89f4b7c3f8e2e1a7b2a2a0e3f6a9de1b0c";

fn signature() -> Signature {
    Signature { name: "Ada".to_string(), email: "ada@example.com".to_string() }
}

fn failure(code: i32, class: i32, message: &str) -> GitFailure {
    GitFailure { code, class, message: message.to_string() }
}

fn head(name: &str, id: &str) -> RemoteHead {
    RemoteHead { name: name.to_string(), id: id.to_string() }
}

fn fetched(id: &str) -> GitReply {
    GitReply::Fetched(vec![head("refs/heads/other", LOCAL), head("refs/heads/master", id)])
}

fn opened() -> GitUtils {
    let (git, _) = GitUtils::load("/home/user/.mediocre", signature());
    let (git, step) = git.advance(GitReply::Done);
    assert_eq!(step, GitStep::Finished(GitOutcome::Opened));
    git
}

fn analyzed(bits: u32) -> (GitUtils, GitStep) {
    let (git, step) = opened().pull();
    assert_eq!(
        step,
        GitStep::Run(GitCommand::Fetch {
            remote_name: "origin".to_string(),
            refspec: "refs/heads/master:refs/heads/master".to_string(),
        })
    );
    let (git, step) = git.advance(fetched(FETCHED));
    assert_eq!(step, GitStep::Run(GitCommand::AnalyzeMerge { fetched: FETCHED.to_string() }));
    git.advance(GitReply::Analysis(MergeAnalysis::from_bits(bits)))
}

fn stats() -> TransferStats {
    TransferStats {
        total_objects: 10,
        indexed_objects: 3,
        received_objects: 4,
        local_objects: 0,
        total_deltas: 7,
        indexed_deltas: 2,
        received_bytes: 2048,
    }
}

#[test]
fn ref_specs_map_the_branch_to_itself() {
    assert_eq!(GitUtils::get_ref_specs("master"), "refs/heads/master:refs/heads/master");
    assert_eq!(GitUtils::get_ref_specs("feature/x"), "refs/heads/feature/x:refs/heads/feature/x");
    assert_eq!(GitUtils::get_ref_specs(""), "refs/heads/:refs/heads/");
}

#[test]
fn new_asks_for_a_repository_with_the_remote_origin() {
    let (git, command) =
        GitUtils::new("git@host:org/repo.git".to_string(), "/home/user/.mediocre", signature());
    assert_eq!(
        command,
        GitCommand::InitRepository {
            path: "/home/user/.mediocre".to_string(),
            remote_name: "origin".to_string(),
            remote_url: "git@host:org/repo.git".to_string(),
            signature: signature(),
        }
    );
    assert!(!git.is_ready());
    let (git, step) = git.advance(GitReply::Done);
    assert_eq!(step, GitStep::Finished(GitOutcome::Opened));
    assert!(git.is_ready());
}

#[test]
fn a_failed_init_is_a_repo_init_error() {
    let (git, _) = GitUtils::new("url".to_string(), "/root", signature());
    let (git, step) = git.advance(GitReply::Failed(failure(-4, 7, "remote 'origin' already exists")));
    assert_eq!(
        step,
        GitStep::Failed(SyncError::RepoInit("remote 'origin' already exists".to_string()))
    );
    assert!(git.is_closed());
}

#[test]
fn load_asks_to_open_the_repository() {
    let (_, command) = GitUtils::load("/home/user/.mediocre", signature());
    assert_eq!(
        command,
        GitCommand::OpenRepository {
            path: "/home/user/.mediocre".to_string(),
            signature: signature(),
        }
    );
}

#[test]
fn a_failed_open_is_a_repo_not_found_error() {
    let (git, _) = GitUtils::load("/nowhere", signature());
    let (git, step) = git.advance(GitReply::Failed(failure(-3, 6, "could not find repository")));
    assert_eq!(
        step,
        GitStep::Failed(SyncError::RepoNotFound("could not find repository".to_string()))
    );
    assert!(git.is_closed());
}

#[test]
fn clone_asks_for_a_clone() {
    let (git, command) = GitUtils::clone("git@host:org/repo.git".to_string(), "/tmp/copy");
    assert_eq!(
        command,
        GitCommand::CloneRepository {
            remote_url: "git@host:org/repo.git".to_string(),
            path: "/tmp/copy".to_string(),
        }
    );
    let (git, step) = git.advance(GitReply::Done);
    assert_eq!(step, GitStep::Finished(GitOutcome::Cloned));
    assert!(git.is_ready());
}

#[test]
fn the_test_clone_goes_to_a_fixed_place() {
    let (_, command) = GitUtils::test_git_clone_ssh();
    assert_eq!(
        command,
        GitCommand::CloneRepository {
            remote_url: "git@github.com:rust-lang/git2-rs.git".to_string(),
            path: "/tmp/git2-rs".to_string(),
        }
    );
}

#[test]
fn the_username_of_the_url_is_the_one_to_authenticate() {
    assert_eq!(GitUtils::credential_username(Some("git")), Ok("git".to_string()));
    assert_eq!(
        GitUtils::credential_username(None),
        Err(SyncError::Auth("the remote URL names no user".to_string()))
    );
}

#[test]
fn add_stages_the_directories() {
    assert_eq!(
        GitUtils::add(vec!["documents".to_string()]),
        GitCommand::Stage { dirs: vec!["documents".to_string()] }
    );
}

#[test]
fn merge_analysis_reads_the_flags() {
    let none = MergeAnalysis::from_bits(0);
    assert!(!none.is_normal() && !none.is_up_to_date() && !none.is_fast_forward() && !none.is_unborn());
    assert!(MergeAnalysis::from_bits(1).is_normal());
    assert!(MergeAnalysis::from_bits(2).is_up_to_date());
    assert!(MergeAnalysis::from_bits(4).is_fast_forward());
    assert!(MergeAnalysis::from_bits(8).is_unborn());
    let unborn = MergeAnalysis::from_bits(12);
    assert!(unborn.is_fast_forward() && unborn.is_unborn() && !unborn.is_normal());
}

#[test]
fn merge_analysis_agrees_with_the_git_library() {
    let all = [
        git2::MergeAnalysis::ANALYSIS_NONE,
        git2::MergeAnalysis::ANALYSIS_NORMAL,
        git2::MergeAnalysis::ANALYSIS_UP_TO_DATE,
        git2::MergeAnalysis::ANALYSIS_FASTFORWARD,
        git2::MergeAnalysis::ANALYSIS_UNBORN,
        git2::MergeAnalysis::ANALYSIS_FASTFORWARD | git2::MergeAnalysis::ANALYSIS_UNBORN,
        git2::MergeAnalysis::ANALYSIS_FASTFORWARD | git2::MergeAnalysis::ANALYSIS_NORMAL,
    ];
    for theirs in all {
        let ours = MergeAnalysis::from_bits(theirs.bits());
        assert_eq!(ours.is_normal(), theirs.is_normal());
        assert_eq!(ours.is_up_to_date(), theirs.is_up_to_date());
        assert_eq!(ours.is_fast_forward(), theirs.is_fast_forward());
        assert_eq!(ours.is_unborn(), theirs.is_unborn());
    }
}

#[test]
fn pull_fast_forwards_an_existing_branch() {
    let (git, step) = analyzed(4);
    assert_eq!(
        step,
        GitStep::Run(GitCommand::FindBranch { refname: "refs/heads/master".to_string() })
    );
    let (git, step) = git.advance(GitReply::BranchFound(true));
    assert_eq!(
        step,
        GitStep::Run(GitCommand::FastForward {
            refname: "refs/heads/master".to_string(),
            target: FETCHED.to_string(),
            reflog_message: format!(
                "Fast-Forward: Setting refs/heads/master to id: {}",
                FETCHED
            ),
        })
    );
    let (git, step) = git.advance(GitReply::Done);
    assert_eq!(step, GitStep::Finished(GitOutcome::FastForwarded(FETCHED.to_string())));
    assert!(git.is_ready());
}

#[test]
fn pull_creates_the_branch_in_an_empty_repository() {
    let (git, step) = analyzed(12);
    assert_eq!(
        step,
        GitStep::Run(GitCommand::FindBranch { refname: "refs/heads/master".to_string() })
    );
    let (git, step) = git.advance(GitReply::BranchFound(false));
    assert_eq!(
        step,
        GitStep::Run(GitCommand::CreateBranch {
            refname: "refs/heads/master".to_string(),
            target: FETCHED.to_string(),
            reflog_message: format!("Setting master to {}", FETCHED),
        })
    );
    let (git, step) = git.advance(GitReply::Done);
    assert_eq!(step, GitStep::Finished(GitOutcome::FastForwarded(FETCHED.to_string())));
    assert!(git.is_ready());
}

#[test]
fn the_fetched_commit_is_the_one_of_the_remote_branch() {
    let heads = vec![
        head("HEAD", LOCAL),
        head("refs/heads/master", FETCHED),
        head("refs/heads/master", LOCAL),
        head("refs/tags/v1", LOCAL),
    ];
    assert_eq!(find_head(&heads, "refs/heads/master"), Some(FETCHED.to_string()));
    assert_eq!(find_head(&heads, "refs/tags/v1"), Some(LOCAL.to_string()));
    assert_eq!(find_head(&heads, "refs/heads/main"), None);
    assert_eq!(find_head(&Vec::new(), "refs/heads/master"), None);
    let (git, step) = GitUtils::do_fetch(&heads);
    assert_eq!(step, GitStep::Run(GitCommand::AnalyzeMerge { fetched: FETCHED.to_string() }));
    assert!(!git.is_closed());
}

#[test]
fn a_remote_without_the_branch_gives_the_pull_up() {
    let (git, _) = opened().pull();
    let (git, step) = git.advance(GitReply::Fetched(vec![head("refs/heads/main", FETCHED)]));
    assert_eq!(
        step,
        GitStep::Failed(SyncError::Internal("the remote has no branch to pull from".to_string()))
    );
    assert!(git.is_closed());
    let (git, _) = opened().pull();
    let (_, step) = git.advance(GitReply::Fetched(Vec::new()));
    assert_eq!(
        step,
        GitStep::Failed(SyncError::Internal("the remote has no branch to pull from".to_string()))
    );
}

#[test]
fn a_lookup_that_fails_for_another_reason_gives_the_pull_up() {
    let (git, _) = analyzed(4);
    let (git, step) = git.advance(GitReply::Failed(failure(-1, 4, "corrupted loose reference")));
    assert_eq!(
        step,
        GitStep::Failed(SyncError::Internal("corrupted loose reference".to_string()))
    );
    assert!(git.is_closed());
}

#[test]
fn a_head_that_cannot_be_resolved_gives_the_commit_up() {
    let (git, _) = opened().add_commit(vec!["documents".to_string()], "message");
    let (git, _) = git.advance(GitReply::Done);
    let (git, step) = git.advance(GitReply::Failed(failure(-1, 4, "corrupted HEAD")));
    assert_eq!(step, GitStep::Failed(SyncError::Internal("corrupted HEAD".to_string())));
    assert!(git.is_closed());
}

#[test]
fn the_merge_steps_can_be_asked_one_by_one() {
    let (_, step) = GitUtils::do_merge(FETCHED.to_string(), MergeAnalysis::from_bits(1));
    assert_eq!(step, GitStep::Run(GitCommand::ResolveHead));
    let (_, step) = GitUtils::fast_forward(FETCHED.to_string());
    assert!(matches!(step, GitStep::Run(GitCommand::FastForward { .. })));
    let (_, step) = GitUtils::create_branch(FETCHED.to_string());
    assert!(matches!(step, GitStep::Run(GitCommand::CreateBranch { .. })));
    let (_, step) = GitUtils::normal_merge(LOCAL.to_string(), FETCHED.to_string(), true);
    assert_eq!(step, GitStep::Run(GitCommand::CheckoutIndex));
    let (_, step) = GitUtils::normal_merge(LOCAL.to_string(), FETCHED.to_string(), false);
    assert_eq!(
        step,
        GitStep::Run(GitCommand::CommitMerge {
            message: format!("Merge: {} into {}", FETCHED, LOCAL),
            local: LOCAL.to_string(),
            remote: FETCHED.to_string(),
        })
    );
}

#[test]
fn a_branch_that_cannot_be_looked_up_counts_as_missing() {
    let (git, _) = analyzed(4);
    let (_, step) = git.advance(GitReply::Failed(failure(-3, 4, "reference not found")));
    assert_eq!(
        step,
        GitStep::Run(GitCommand::CreateBranch {
            refname: "refs/heads/master".to_string(),
            target: FETCHED.to_string(),
            reflog_message: format!("Setting master to {}", FETCHED),
        })
    );
}

#[test]
fn pull_has_nothing_to_do_when_up_to_date() {
    let (git, step) = analyzed(2);
    assert_eq!(step, GitStep::Finished(GitOutcome::UpToDate));
    assert!(git.is_ready());
    let (git, step) = analyzed(0);
    assert_eq!(step, GitStep::Finished(GitOutcome::UpToDate));
    assert!(git.is_ready());
}

#[test]
fn fast_forward_is_preferred_to_a_merge() {
    let (_, step) = analyzed(5);
    assert_eq!(
        step,
        GitStep::Run(GitCommand::FindBranch { refname: "refs/heads/master".to_string() })
    );
}

#[test]
fn a_clean_merge_is_committed_with_two_parents() {
    let (git, step) = analyzed(1);
    assert_eq!(step, GitStep::Run(GitCommand::ResolveHead));
    let (git, step) = git.advance(GitReply::Head(Some(LOCAL.to_string())));
    assert_eq!(
        step,
        GitStep::Run(GitCommand::MergeTrees {
            local: LOCAL.to_string(),
            remote: FETCHED.to_string(),
        })
    );
    let (git, step) = git.advance(GitReply::Merged { conflicts: false });
    assert_eq!(
        step,
        GitStep::Run(GitCommand::CommitMerge {
            message: format!("Merge: {} into {}", FETCHED, LOCAL),
            local: LOCAL.to_string(),
            remote: FETCHED.to_string(),
        })
    );
    let (git, step) = git.advance(GitReply::Done);
    assert_eq!(step, GitStep::Run(GitCommand::CheckoutHead));
    let (git, step) = git.advance(GitReply::Done);
    assert_eq!(
        step,
        GitStep::Finished(GitOutcome::Merged {
            local: LOCAL.to_string(),
            remote: FETCHED.to_string(),
        })
    );
    assert!(git.is_ready());
}

#[test]
fn a_conflicted_merge_is_checked_out_and_not_committed() {
    let (git, _) = analyzed(1);
    let (git, _) = git.advance(GitReply::Head(Some(LOCAL.to_string())));
    let (git, step) = git.advance(GitReply::Merged { conflicts: true });
    assert_eq!(step, GitStep::Run(GitCommand::CheckoutIndex));
    let (git, step) = git.advance(GitReply::Done);
    assert_eq!(
        step,
        GitStep::Finished(GitOutcome::Conflicted {
            local: LOCAL.to_string(),
            remote: FETCHED.to_string(),
        })
    );
    assert!(git.is_closed());
    let (git, step) = git.add_commit(vec!["documents".to_string()], "message");
    assert!(matches!(step, GitStep::Failed(SyncError::Internal(_))));
    let (git, step) = git.push();
    assert!(matches!(step, GitStep::Failed(SyncError::Internal(_))));
    let (_, step) = git.pull();
    assert!(matches!(step, GitStep::Failed(SyncError::Internal(_))));
}

#[test]
fn a_merge_needs_a_local_commit() {
    let (git, _) = analyzed(1);
    let (git, step) = git.advance(GitReply::Head(None));
    assert_eq!(
        step,
        GitStep::Failed(SyncError::Internal("there is no local commit to merge into".to_string()))
    );
    assert!(git.is_closed());
}

#[test]
fn a_failed_fetch_is_a_network_error() {
    let (git, _) = opened().pull();
    let (git, step) = git.advance(GitReply::Failed(failure(-1, 12, "failed to resolve address")));
    assert_eq!(
        step,
        GitStep::Failed(SyncError::Network("failed to resolve address".to_string()))
    );
    assert!(git.is_closed());
}

#[test]
fn a_fetch_without_identity_is_an_auth_error() {
    let (git, _) = opened().pull();
    let (_, step) = git.advance(GitReply::Failed(failure(-16, 12, "authentication required")));
    assert_eq!(step, GitStep::Failed(SyncError::Auth("authentication required".to_string())));
    let (git, _) = opened().pull();
    let (_, step) = git.advance(GitReply::Failed(failure(-1, 23, "no identities in the agent")));
    assert_eq!(step, GitStep::Failed(SyncError::Auth("no identities in the agent".to_string())));
}

#[test]
fn failures_are_told_apart_by_code_and_class() {
    assert!(failure(-3, 0, "").is_not_found());
    assert!(!failure(-9, 0, "").is_not_found());
    assert!(failure(-9, 0, "").is_unborn());
    assert!(!failure(-3, 0, "").is_unborn());
    assert!(failure(-16, 0, "").is_auth());
    assert!(failure(-1, 23, "").is_auth());
    assert!(!failure(-1, 12, "").is_auth());
    assert!(!failure(-17, 16, "").is_auth());
    assert_eq!(failure(-16, 0, "a").transport_error(), SyncError::Auth("a".to_string()));
    assert_eq!(failure(-1, 34, "n").transport_error(), SyncError::Network("n".to_string()));
}

#[test]
fn the_error_numbers_are_those_of_the_git_library() {
    let auth = git2::Error::new(git2::ErrorCode::Auth, git2::ErrorClass::Ssh, "no identity");
    assert!(failure(auth.raw_code() as i32, 0, "").is_auth());
    assert!(failure(0, auth.raw_class() as i32, "").is_auth());
    let missing = git2::Error::new(git2::ErrorCode::NotFound, git2::ErrorClass::Reference, "");
    assert!(failure(missing.raw_code() as i32, 0, "").is_not_found());
    let unborn = git2::Error::new(git2::ErrorCode::UnbornBranch, git2::ErrorClass::Reference, "");
    assert!(failure(unborn.raw_code() as i32, 0, "").is_unborn());
    let net = git2::Error::new(git2::ErrorCode::GenericError, git2::ErrorClass::Net, "down");
    assert!(!failure(net.raw_code() as i32, net.raw_class() as i32, "").is_auth());
}

#[test]
fn a_failure_during_a_merge_step_is_an_internal_error() {
    let (git, _) = opened().pull();
    let (git, _) = git.advance(fetched(FETCHED));
    let (git, step) = git.advance(GitReply::Failed(failure(-1, 22, "analysis failed")));
    assert_eq!(step, GitStep::Failed(SyncError::Internal("analysis failed".to_string())));
    assert!(git.is_closed());
}

#[test]
fn a_commit_has_the_head_as_its_parent() {
    let (git, step) = opened().add_commit(vec!["documents".to_string()], "Commit Changes");
    assert_eq!(step, GitStep::Run(GitCommand::Stage { dirs: vec!["documents".to_string()] }));
    let (git, step) = git.advance(GitReply::Done);
    assert_eq!(step, GitStep::Run(GitCommand::ResolveHead));
    let (git, step) = git.advance(GitReply::Head(Some(LOCAL.to_string())));
    assert_eq!(
        step,
        GitStep::Run(GitCommand::Commit {
            message: "Commit Changes".to_string(),
            parent: Some(LOCAL.to_string()),
        })
    );
    let (git, step) = git.advance(GitReply::Done);
    assert_eq!(step, GitStep::Finished(GitOutcome::Committed));
    assert!(git.is_ready());
}

#[test]
fn the_first_commit_has_no_parent() {
    let (git, _) = opened().add_commit(vec!["documents".to_string()], "first");
    let (git, _) = git.advance(GitReply::Done);
    let (_, step) = git.advance(GitReply::Head(None));
    assert_eq!(
        step,
        GitStep::Run(GitCommand::Commit { message: "first".to_string(), parent: None })
    );
    let (git, _) = opened().add_commit(vec!["documents".to_string()], "first");
    let (git, _) = git.advance(GitReply::Done);
    let (_, step) = git.advance(GitReply::Failed(failure(-9, 4, "unborn branch")));
    assert_eq!(
        step,
        GitStep::Run(GitCommand::Commit { message: "first".to_string(), parent: None })
    );
}

#[test]
fn a_failed_stage_is_a_staging_error() {
    let (git, _) = opened().add_commit(vec!["documents".to_string()], "message");
    let (git, step) = git.advance(GitReply::Failed(failure(-1, 10, "index is locked")));
    assert_eq!(step, GitStep::Failed(SyncError::Staging("index is locked".to_string())));
    assert!(git.is_closed());
}

#[test]
fn a_push_that_every_reference_took_succeeds() {
    let (git, step) = opened().push();
    assert_eq!(
        step,
        GitStep::Run(GitCommand::Push {
            remote_name: "origin".to_string(),
            refspec: "refs/heads/master:refs/heads/master".to_string(),
        })
    );
    let report = vec![RefUpdate { refname: "refs/heads/master".to_string(), error: None }];
    let (git, step) = git.advance(GitReply::Pushed(report));
    assert_eq!(step, GitStep::Finished(GitOutcome::Pushed));
    assert!(git.is_ready());
    let (git, _) = opened().push();
    let (_, step) = git.advance(GitReply::Pushed(Vec::new()));
    assert_eq!(step, GitStep::Finished(GitOutcome::Pushed));
}

#[test]
fn a_rejected_reference_fails_the_push_though_the_transport_went_through() {
    let (git, _) = opened().push();
    let report = vec![
        RefUpdate { refname: "refs/heads/other".to_string(), error: None },
        RefUpdate {
            refname: "refs/heads/master".to_string(),
            error: Some("non-fast-forward".to_string()),
        },
    ];
    assert!(push_rejected(&report));
    let (git, step) = git.advance(GitReply::Pushed(report));
    assert_eq!(step, GitStep::Failed(SyncError::PushRejected));
    assert!(git.is_closed());
}

#[test]
fn push_rejected_looks_at_every_reference() {
    assert!(!push_rejected(&Vec::new()));
    assert!(!push_rejected(&vec![RefUpdate { refname: "a".to_string(), error: None }]));
    assert!(push_rejected(&vec![RefUpdate {
        refname: "a".to_string(),
        error: Some(String::new()),
    }]));
    assert!(push_rejected(&vec![
        RefUpdate { refname: "a".to_string(), error: Some("x".to_string()) },
        RefUpdate { refname: "b".to_string(), error: None },
    ]));
}

#[test]
fn a_failed_push_is_a_transport_error() {
    let (git, _) = opened().push();
    let (_, step) = git.advance(GitReply::Failed(failure(-1, 12, "connection reset")));
    assert_eq!(step, GitStep::Failed(SyncError::Network("connection reset".to_string())));
}

#[test]
fn nothing_starts_while_something_is_in_flight() {
    let (git, _) = opened().pull();
    let (git, step) = git.push();
    assert_eq!(
        step,
        GitStep::Failed(SyncError::Internal(
            "the repository is not ready for a new operation".to_string()
        ))
    );
    assert!(git.is_closed());
}

#[test]
fn a_reply_without_a_command_is_refused() {
    let (git, step) = opened().advance(GitReply::Done);
    assert_eq!(step, GitStep::Failed(SyncError::Internal("no command is in flight".to_string())));
    assert!(git.is_closed());
    let (_, step) = git.advance(GitReply::Done);
    assert_eq!(step, GitStep::Failed(SyncError::Internal("no command is in flight".to_string())));
}

#[test]
fn a_reply_that_does_not_fit_is_refused() {
    let (git, _) = opened().pull();
    let (git, step) = git.advance(GitReply::Merged { conflicts: false });
    assert_eq!(
        step,
        GitStep::Failed(SyncError::Internal("the reply does not answer the command".to_string()))
    );
    assert!(git.is_closed());
}

#[test]
fn progress_counts_objects_until_all_have_arrived() {
    assert_eq!(
        transfer_progress_message(&stats()),
        Some("Received 4/10 objects (3) in 2048 bytes".to_string())
    );
}

#[test]
fn progress_counts_deltas_once_all_objects_have_arrived() {
    let done = TransferStats { received_objects: 10, ..stats() };
    assert_eq!(transfer_progress_message(&done), Some("Resolving deltas 2/7".to_string()));
    let empty = TransferStats {
        total_objects: 0,
        indexed_objects: 0,
        received_objects: 0,
        local_objects: 0,
        total_deltas: 0,
        indexed_deltas: 0,
        received_bytes: 0,
    };
    assert_eq!(transfer_progress_message(&empty), Some("Resolving deltas 0/0".to_string()));
}

#[test]
fn progress_is_silent_without_a_total() {
    let unknown = TransferStats { total_objects: 0, received_objects: 1, ..stats() };
    assert_eq!(transfer_progress_message(&unknown), None);
}

#[test]
fn the_summary_names_local_objects_when_there_are_some() {
    assert_eq!(fetch_summary_message(&stats()), "Received 3/10 objects in 2048 bytes");
    let thin = TransferStats { local_objects: 5, ..stats() };
    assert_eq!(
        fetch_summary_message(&thin),
        "Received 3/10 objects in 2048 bytes (used 5 local objects)"
    );
    let large = TransferStats {
        total_objects: u64::MAX,
        indexed_objects: 1000000,
        received_bytes: 18446744073709551615,
        ..stats()
    };
    assert_eq!(
        fetch_summary_message(&large),
        "Received 1000000/18446744073709551615 objects in 18446744073709551615 bytes"
    );
}
