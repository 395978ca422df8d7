use dotfiles_sync::host::{GitRequest, Identity, Reply, RepositoryState, Request};
use dotfiles_sync::sync::{CloneStage, CloneTask, SyncOutcome, SyncStage, SyncTask};

fn id(text: &str) -> Reply {
    Reply::Id(text.to_string())
}

fn head(branch: &str, target: &str) -> Reply {
    Reply::Head { branch: Some(branch.to_string()), target: Some(target.to_string()) }
}

fn who() -> Identity {
    Identity {
        name: "Ada".to_string(),
        email: "ada@example.org".to_string(),
        seconds: 1_700_000_000,
        offset: 120,
    }
}

fn commit_steps(parent: &str) -> Vec<Reply> {
    vec![
        Reply::Identity(who()),
        Reply::Done,
        id("7ree"),
        Reply::Done,
        id(parent),
        Reply::Done,
        Reply::Done,
    ]
}

fn descendant_of(commit: &str, ancestor: &str) -> Request {
    Request::Git(GitRequest::DescendantOf {
        commit: commit.to_string(),
        ancestor: ancestor.to_string(),
    })
}

fn failed(reason: &str) -> Reply {
    Reply::Failed(reason.to_string())
}

fn drive(replies: Vec<Reply>) -> (SyncTask, Vec<Request>) {
    let mut task = SyncTask::begin();
    let mut asked = vec![task.request()];
    for reply in replies {
        task = task.advance(reply);
        asked.push(task.request());
    }
    (task, asked)
}

fn until_merge(local: &str, remote: &str) -> Vec<Reply> {
    vec![
        Reply::Home(Some("/home/u".to_string())),
        Reply::Flag(true),
        Reply::Done,
        Reply::Done,
        Reply::Done,
        head("main", local),
        Reply::Done,
        Reply::Done,
        id(remote),
        Reply::Done,
        Reply::Done,
    ]
}

fn commits(asked: &[Request]) -> Vec<&Request> {
    asked.iter().filter(|r| matches!(r, Request::Git(GitRequest::Commit { .. }))).collect()
}

#[test]
fn clone_asks_for_home_then_clones() {
    let task = CloneTask::begin();
    assert_eq!(task.request(), Request::HomeDir);
    let task = task.advance(Reply::Home(Some("/home/u".to_string())));
    assert_eq!(
        task.request(),
        Request::Git(GitRequest::Clone {
            url: "https://github.com/farukerdem34/dotfiles.git".to_string(),
            path: "/home/u/.dotfiles".to_string(),
        })
    );
    let task = task.advance(Reply::Done);
    assert!(task.over());
    assert_eq!(task.stage, CloneStage::Cloned);
    assert_eq!(task.status, "Repository cloned successfully!");
    assert_eq!(task.request(), Request::Finished);
}

#[test]
fn clone_failure_carries_the_transport_error() {
    let reason = "failed to resolve address for unreachable.invalid: Name or service not known; class=Net (12)";
    let task = CloneTask::begin()
        .advance(Reply::Home(Some("/home/u".to_string())))
        .advance(failed(reason));
    assert!(task.over());
    assert_eq!(task.stage, CloneStage::Failed);
    assert_ne!(task.stage, CloneStage::Cloned);
    assert!(task.status.contains("failed to resolve address"));
    assert_eq!(task.status, reason);
    assert_eq!(task.request(), Request::Finished);
}

#[test]
fn clone_without_home_is_fatal() {
    let task = CloneTask::begin().advance(Reply::Home(None));
    assert_eq!(task.stage, CloneStage::Fatal);
    assert_eq!(task.status, "$HOME envirenment variable is not set!");
    assert_eq!(task.request(), Request::Abort);
    let task = CloneTask::begin().advance(Reply::Done);
    assert_eq!(task.stage, CloneStage::Home);
}

#[test]
fn sync_asks_its_steps_in_order() {
    let mut replies = until_merge("aaa", "bbb");
    replies.push(Reply::Flag(false));
    replies.push(Reply::State(RepositoryState::Merge));
    replies.extend(commit_steps("aaa"));
    let (task, asked) = drive(replies);
    let git = |call: GitRequest| Request::Git(call);
    assert_eq!(
        asked,
        vec![
            Request::HomeDir,
            Request::Exists("/home/u/.dotfiles".to_string()),
            git(GitRequest::Open("/home/u/.dotfiles".to_string())),
            git(GitRequest::FindRemote("origin".to_string())),
            git(GitRequest::Fetch("refs/heads/*:refs/remotes/origin/*".to_string())),
            git(GitRequest::Head),
            git(GitRequest::FindReference("refs/remotes/origin/main".to_string())),
            git(GitRequest::AnnotatedCommit),
            git(GitRequest::PeelToCommit),
            git(GitRequest::Index),
            git(GitRequest::Merge),
            git(GitRequest::HasConflicts),
            git(GitRequest::State),
            git(GitRequest::Signature),
            git(GitRequest::WriteIndex),
            git(GitRequest::WriteTree),
            git(GitRequest::FindTree("7ree".to_string())),
            git(GitRequest::HeadCommit),
            git(GitRequest::Commit {
                reference: "HEAD".to_string(),
                message: "Merge remote changes".to_string(),
                tree: "7ree".to_string(),
                author: who(),
                committer: who(),
                parents: vec!["aaa".to_string(), "bbb".to_string()],
            }),
            git(GitRequest::CleanupState),
            Request::Finished,
        ]
    );
    assert_eq!(task.outcome, Some(SyncOutcome::MergedClean));
}

#[test]
fn sync_without_new_commits_is_up_to_date() {
    let mut replies = until_merge("c0ffee", "c0ffee");
    replies.push(Reply::Flag(false));
    replies.push(Reply::State(RepositoryState::Clean));
    let (task, asked) = drive(replies);
    assert!(task.over());
    assert_eq!(task.outcome, Some(SyncOutcome::UpToDate));
    assert_eq!(task.status, "Dotfiles repository updated successfully!");
    assert!(commits(&asked).is_empty());
    assert_eq!(asked.last(), Some(&Request::Finished));
}

#[test]
fn sync_with_the_local_branch_ahead_is_up_to_date() {
    let mut replies = until_merge("c0ffee", "0ldc0de");
    replies.push(Reply::Flag(false));
    replies.push(Reply::State(RepositoryState::Clean));
    let (task, asked) = drive(replies);
    assert!(!task.over());
    assert_eq!(task.stage, SyncStage::Ancestry);
    assert_eq!(asked.last(), Some(&descendant_of("c0ffee", "0ldc0de")));
    let task = task.advance(Reply::Flag(true));
    assert!(task.over());
    assert_eq!(task.outcome, Some(SyncOutcome::UpToDate));
    assert_eq!(task.status, "Dotfiles repository updated successfully!");
    assert_eq!(task.request(), Request::Finished);
    assert!(commits(&asked).is_empty());
}

#[test]
fn sync_without_a_commit_to_make_is_fast_forwarded() {
    let mut replies = until_merge("c0ffee", "decade");
    replies.push(Reply::Flag(false));
    replies.push(Reply::State(RepositoryState::Clean));
    replies.push(Reply::Flag(false));
    let (task, asked) = drive(replies);
    assert_eq!(asked[asked.len() - 2], descendant_of("c0ffee", "decade"));
    assert_eq!(task.outcome, Some(SyncOutcome::FastForwarded));
    assert_eq!(task.status, "Dotfiles repository updated successfully!");
    assert!(commits(&asked).is_empty());
    assert_eq!(asked.last(), Some(&Request::Finished));
}

#[test]
fn sync_reports_a_failed_comparison() {
    let mut replies = until_merge("c0ffee", "decade");
    replies.push(Reply::Flag(false));
    replies.push(Reply::State(RepositoryState::Clean));
    replies.push(failed("object not found"));
    let (task, asked) = drive(replies);
    assert!(task.over());
    assert_eq!(task.status, "Failed to compare HEAD with remote commit: object not found");
    assert_eq!(
        task.outcome,
        Some(SyncOutcome::Failed(
            "Failed to compare HEAD with remote commit: object not found".to_string()
        ))
    );
    assert!(commits(&asked).is_empty());
}

#[test]
fn settled_names_the_two_ways_without_a_commit() {
    assert_eq!(SyncTask::settled(true), SyncOutcome::UpToDate);
    assert_eq!(SyncTask::settled(false), SyncOutcome::FastForwarded);
}

#[test]
fn sync_with_conflicts_stops_without_a_commit() {
    let mut replies = until_merge("c0ffee", "decade");
    replies.push(Reply::Flag(true));
    let (task, asked) = drive(replies);
    assert!(task.over());
    assert_eq!(task.outcome, Some(SyncOutcome::MergedWithConflicts));
    assert_eq!(task.status, "Merge conflicts detected. Please resolve them manually.");
    assert!(commits(&asked).is_empty());
    assert_eq!(asked.last(), Some(&Request::Finished));
    let task = task.advance(Reply::State(RepositoryState::Merge)).advance(Reply::Done);
    assert_eq!(task.outcome, Some(SyncOutcome::MergedWithConflicts));
    assert_eq!(task.request(), Request::Finished);
}

#[test]
fn sync_with_a_true_merge_commits_on_two_parents() {
    let mut replies = until_merge("c0ffee", "decade");
    replies.push(Reply::Flag(false));
    replies.push(Reply::State(RepositoryState::Merge));
    replies.extend(commit_steps("c0ffee"));
    let (task, asked) = drive(replies);
    assert_eq!(task.outcome, Some(SyncOutcome::MergedClean));
    assert_eq!(task.status, "Dotfiles repository updated successfully!");
    let made = commits(&asked);
    assert_eq!(made.len(), 1);
    match made[0] {
        Request::Git(GitRequest::Commit {
            reference,
            message,
            tree,
            author,
            committer,
            parents,
        }) => {
            assert_eq!(reference, "HEAD");
            assert_eq!(message, "Merge remote changes");
            assert_eq!(tree, "7ree");
            assert_eq!(author, &who());
            assert_eq!(committer, &who());
            assert_eq!(parents, &vec!["c0ffee".to_string(), "decade".to_string()]);
        }
        other => panic!("not a commit: {:?}", other),
    }
}

#[test]
fn sync_of_a_missing_repository_points_to_clone() {
    let (task, asked) = drive(vec![Reply::Home(Some("/home/u".to_string())), Reply::Flag(false)]);
    assert!(task.over());
    assert_eq!(
        task.outcome,
        Some(SyncOutcome::Failed(
            "Dotfiles directory not found. Try cloning the repository first.".to_string()
        ))
    );
    assert_eq!(task.status, "Dotfiles directory not found. Try cloning the repository first.");
    assert_eq!(asked.len(), 3);
    assert_eq!(asked[2], Request::Finished);
}

#[test]
fn sync_without_home_is_fatal() {
    let (task, asked) = drive(vec![Reply::Home(None)]);
    assert_eq!(task.stage, SyncStage::Fatal);
    assert_eq!(task.outcome, None);
    assert_eq!(task.status, "$HOME envirenment variable is not set!");
    assert_eq!(asked[1], Request::Abort);
}

#[test]
fn sync_without_a_branch_name_fails() {
    let mut replies = until_merge("a", "b");
    replies.truncate(5);
    replies.push(Reply::Head { branch: None, target: Some("a".to_string()) });
    let (task, _) = drive(replies);
    assert_eq!(
        task.outcome,
        Some(SyncOutcome::Failed("Failed to determine current branch name".to_string()))
    );
}

#[test]
fn every_failing_step_names_itself() {
    let script: Vec<Reply> = {
        let mut replies = until_merge("a", "b");
        replies.push(Reply::Flag(false));
        replies.push(Reply::State(RepositoryState::Merge));
        replies.extend(commit_steps("a"));
        replies
    };
    let complaints = [
        (2, "Failed to open repository: "),
        (3, "Failed to find remote 'origin': "),
        (4, "Failed to fetch from remote: "),
        (5, "Failed to get HEAD reference: "),
        (6, "Failed to find remote reference: "),
        (7, "Failed to get annotated commit: "),
        (8, "Failed to get remote commit: "),
        (9, "Failed to get repository index: "),
        (10, "Failed to merge updates: "),
        (13, "Failed to create signature: "),
        (14, "Failed to write index: "),
        (15, "Failed to write tree: "),
        (16, "Failed to find tree: "),
        (17, "Failed to get HEAD commit: "),
        (18, "Failed to commit merge: "),
        (19, "Failed to cleanup repository state: "),
    ];
    for (at, complaint) in complaints {
        let mut replies: Vec<Reply> = Vec::new();
        for reply in script.iter().take(at) {
            replies.push(match reply {
                Reply::Home(h) => Reply::Home(h.clone()),
                Reply::Flag(f) => Reply::Flag(*f),
                Reply::Done => Reply::Done,
                Reply::Head { branch, target } => {
                    Reply::Head { branch: branch.clone(), target: target.clone() }
                }
                Reply::Id(i) => Reply::Id(i.clone()),
                Reply::State(s) => Reply::State(*s),
                Reply::Identity(who) => Reply::Identity(who.clone()),
                _ => unreachable!(),
            });
        }
        replies.push(failed("object not found; class=Odb (9)"));
        let (task, asked) = drive(replies);
        assert!(task.over(), "step {at}");
        let reason = format!("{complaint}object not found; class=Odb (9)");
        assert_eq!(task.status, reason);
        assert_eq!(task.outcome, Some(SyncOutcome::Failed(reason)));
        assert_eq!(asked.last(), Some(&Request::Finished));
        assert_eq!(asked.len(), at + 2);
    }
}

#[test]
fn sync_ignores_replies_of_the_wrong_kind() {
    let (task, asked) = drive(vec![
        Reply::Flag(true),
        Reply::Done,
        failed("nothing failed"),
        Reply::Home(Some("/h".to_string())),
        id("x"),
        Reply::State(RepositoryState::Merge),
        failed("not a step"),
    ]);
    assert_eq!(task.stage, SyncStage::Exists);
    assert_eq!(asked[0], Request::HomeDir);
    assert_eq!(asked[3], Request::HomeDir);
    assert_eq!(asked[7], Request::Exists("/h/.dotfiles".to_string()));
}

#[test]
fn only_the_merge_state_calls_for_a_commit() {
    for state in [
        RepositoryState::Clean,
        RepositoryState::Revert,
        RepositoryState::RevertSequence,
        RepositoryState::CherryPick,
        RepositoryState::CherryPickSequence,
        RepositoryState::Bisect,
        RepositoryState::Rebase,
        RepositoryState::RebaseInteractive,
        RepositoryState::RebaseMerge,
        RepositoryState::ApplyMailbox,
        RepositoryState::ApplyMailboxOrRebase,
    ] {
        let mut replies = until_merge("a", "b");
        replies.push(Reply::Flag(false));
        replies.push(Reply::State(state));
        let (task, asked) = drive(replies);
        assert_eq!(task.stage, SyncStage::Ancestry);
        assert_eq!(asked.last(), Some(&descendant_of("a", "b")));
        let task = task.advance(Reply::Flag(false));
        assert_eq!(task.outcome, Some(SyncOutcome::FastForwarded));
    }
    let mut replies = until_merge("a", "a");
    replies.push(Reply::Flag(false));
    replies.push(Reply::State(RepositoryState::Merge));
    let (task, _) = drive(replies);
    assert_eq!(task.stage, SyncStage::Signature);
    assert_eq!(task.outcome, None);
}

#[test]
fn head_without_a_target_is_never_up_to_date() {
    let mut replies = until_merge("a", "a");
    replies[5] = Reply::Head { branch: Some("main".to_string()), target: None };
    replies.push(Reply::Flag(false));
    replies.push(Reply::State(RepositoryState::Clean));
    let (task, _) = drive(replies);
    assert_eq!(task.outcome, Some(SyncOutcome::FastForwarded));
}

#[test]
fn outcome_statuses() {
    let fine = "Dotfiles repository updated successfully!";
    assert_eq!(SyncOutcome::UpToDate.status(), fine);
    assert_eq!(SyncOutcome::FastForwarded.status(), fine);
    assert_eq!(SyncOutcome::MergedClean.status(), fine);
    assert_eq!(
        SyncOutcome::MergedWithConflicts.status(),
        "Merge conflicts detected. Please resolve them manually."
    );
    assert_eq!(SyncOutcome::Failed("why".to_string()).status(), "why");
}

#[test]
fn stage_tables_agree() {
    assert!(SyncStage::Open.is_plain());
    assert!(!SyncStage::Head.is_plain());
    assert!(!SyncStage::Signature.is_plain());
    assert!(!SyncStage::WriteTree.is_plain());
    assert!(SyncStage::Signature.is_fallible());
    assert!(SyncStage::WriteTree.is_fallible());
    assert!(SyncStage::Ancestry.is_fallible());
    assert!(!SyncStage::State.is_fallible());
    assert_eq!(
        SyncStage::Ancestry.complaint_text(),
        "Failed to compare HEAD with remote commit: "
    );
    assert!(SyncStage::Head.is_fallible());
    assert!(!SyncStage::Conflicts.is_fallible());
    assert!(!SyncStage::Home.is_fallible());
    assert_eq!(SyncStage::Fetch.next(), SyncStage::Head);
    assert_eq!(SyncStage::Cleanup.next(), SyncStage::Finished);
    assert_eq!(SyncStage::Merge.complaint_text(), "Failed to merge updates: ");
    assert_eq!(SyncStage::State.complaint_text(), "");
}
