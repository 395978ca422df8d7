use dotfiles_sync::batch::{BatchResult, Failure};
use dotfiles_sync::host::{Command, DirEntry, EntryKind, ProcessOutcome, Reply, Request};
use dotfiles_sync::stow::{discover, linked_packages};
use dotfiles_sync::stow::{LinkStage, LinkTask, UnlinkStage, UnlinkTask};

fn texts(items: &[&str]) -> Vec<String> {
    items.iter().map(|s| s.to_string()).collect()
}

fn exited(success: bool, stderr: &str) -> Reply {
    Reply::Process(ProcessOutcome::Exited { success, stderr: stderr.to_string() })
}

fn unstarted(reason: &str) -> Reply {
    Reply::Process(ProcessOutcome::NotStarted(reason.to_string()))
}

fn home() -> Reply {
    Reply::Home(Some("/home/u".to_string()))
}

fn dir(name: &str) -> DirEntry {
    DirEntry { name: Some(name.to_string()), kind: EntryKind::Directory }
}

fn file(name: &str) -> DirEntry {
    DirEntry { name: Some(name.to_string()), kind: EntryKind::Other }
}

fn unstow(package: &str) -> Request {
    Request::Run(Command {
        program: "stow".to_string(),
        args: texts(&["-D", "-v", "-d", "/home/u/.dotfiles", "-t", "/home/u", package]),
        dir: None,
    })
}

fn listed(entries: Vec<DirEntry>) -> UnlinkTask {
    UnlinkTask::begin()
        .advance(exited(true, ""))
        .advance(home())
        .advance(Reply::Flag(true))
        .advance(Reply::Listing(entries))
}

fn link_replies(task: LinkTask, replies: Vec<Reply>) -> LinkTask {
    let mut task = task;
    for reply in replies {
        task = task.advance(reply);
    }
    task
}

#[test]
fn linked_packages_are_the_configured_ten() {
    assert_eq!(
        linked_packages(),
        texts(&[
            "bash",
            "bat",
            "btop",
            "fastfetch",
            "kitty",
            "nvim",
            "starship",
            "tmux",
            "vimrc",
            "zsh"
        ])
    );
}

#[test]
fn link_checks_the_tool_first() {
    let task = LinkTask::begin(texts(&["bash"]));
    assert_eq!(
        task.request(),
        Request::Run(Command { program: "stow".into(), args: texts(&["--version"]), dir: None })
    );
    let task = task.advance(unstarted("No such file or directory"));
    assert!(task.over());
    assert_eq!(task.stage, LinkStage::Done);
    assert_eq!(task.status, "Stow package doesn't exists.");
    assert_eq!(task.request(), Request::Finished);
}

#[test]
fn link_prefers_the_first_candidate() {
    let task = LinkTask::begin(texts(&["bash", "zsh"])).advance(exited(true, ""));
    assert_eq!(task.request(), Request::HomeDir);
    let task = task.advance(home());
    assert_eq!(task.request(), Request::IsDir("/home/u/dotfiles".to_string()));
    let task = task.advance(Reply::Flag(true));
    assert_eq!(
        task.request(),
        Request::Run(Command {
            program: "stow".into(),
            args: texts(&["bash", "zsh"]),
            dir: Some("/home/u/dotfiles".to_string()),
        })
    );
    let task = task.advance(exited(true, ""));
    assert_eq!(task.status, "Packages stowed succesfully.");
    assert_eq!(task.request(), Request::Finished);
}

#[test]
fn link_falls_back_to_the_second_candidate() {
    let task = LinkTask::begin(texts(&["bash"]))
        .advance(exited(true, ""))
        .advance(home())
        .advance(Reply::Flag(false));
    assert_eq!(task.stage, LinkStage::Second);
    assert_eq!(task.request(), Request::IsDir("/home/u/.dotfiles".to_string()));
    let task = task.advance(Reply::Flag(true));
    assert_eq!(
        task.request(),
        Request::Run(Command {
            program: "stow".into(),
            args: texts(&["bash"]),
            dir: Some("/home/u/.dotfiles".to_string()),
        })
    );
}

#[test]
fn link_without_a_tree_is_fatal() {
    let task = LinkTask::begin(texts(&["bash"]))
        .advance(exited(true, ""))
        .advance(home())
        .advance(Reply::Flag(false))
        .advance(Reply::Flag(false));
    assert_eq!(task.stage, LinkStage::Fatal);
    assert_eq!(task.status, "Dotfiles directory not found in $HOME/.dotfiles");
    assert_eq!(task.request(), Request::Abort);
}

#[test]
fn link_without_home_is_fatal() {
    let task = LinkTask::begin(texts(&["bash"])).advance(exited(true, "")).advance(Reply::Home(None));
    assert_eq!(task.stage, LinkStage::Fatal);
    assert_eq!(task.status, "$HOME envirenment variable is not set!");
    assert_eq!(task.request(), Request::Abort);
}

#[test]
fn link_reports_the_tools_complaint() {
    let start = || {
        LinkTask::begin(texts(&["bash"]))
            .advance(exited(true, ""))
            .advance(home())
            .advance(Reply::Flag(true))
    };
    assert_eq!(start().advance(exited(false, "stow: conflict")).status, "stow: conflict");
    assert_eq!(start().advance(unstarted("vanished")).status, "vanished");
}

#[test]
fn link_failing_without_a_word_still_has_a_status() {
    let task = LinkTask::begin(texts(&["bash"]))
        .advance(exited(true, ""))
        .advance(home())
        .advance(Reply::Flag(true))
        .advance(exited(false, ""));
    assert!(task.over());
    assert_eq!(task.status, "The command failed without an error message.");
}

#[test]
fn link_twice_gives_the_same_result() {
    let replies = || vec![exited(true, ""), home(), Reply::Flag(true), exited(false, "conflict")];
    let first = link_replies(LinkTask::begin(linked_packages()), replies());
    let second = link_replies(LinkTask::begin(linked_packages()), replies());
    assert_eq!(first, second);
    assert_eq!(first.status, "conflict");
    let replies = || vec![exited(true, ""), home(), Reply::Flag(true), exited(true, "")];
    let first = link_replies(LinkTask::begin(linked_packages()), replies());
    let second = link_replies(LinkTask::begin(linked_packages()), replies());
    assert_eq!(first.status, second.status);
    assert_eq!(second.status, "Packages stowed succesfully.");
}

#[test]
fn discover_keeps_visible_directories_in_order() {
    let listing = vec![
        dir(".git"),
        dir("zsh"),
        file("README.md"),
        dir("bash"),
        DirEntry { name: None, kind: EntryKind::Directory },
        DirEntry { name: Some("odd".to_string()), kind: EntryKind::Unknown },
        dir(".config"),
        dir("nvim"),
    ];
    assert_eq!(discover(&listing), texts(&["zsh", "bash", "nvim"]));
    assert_eq!(discover(&Vec::new()), Vec::<String>::new());
}

#[test]
fn unlink_without_the_tool_tries_nothing() {
    let task = UnlinkTask::begin();
    assert_eq!(
        task.request(),
        Request::Run(Command { program: "stow".into(), args: texts(&["--version"]), dir: None })
    );
    let task = task.advance(exited(false, ""));
    assert_eq!(task.stage, UnlinkStage::Done);
    assert_eq!(task.status, "stow is not installed. Install it first.");
    assert_eq!(task.request(), Request::Finished);
}

#[test]
fn unlink_without_home_is_fatal() {
    let task = UnlinkTask::begin().advance(exited(true, "")).advance(Reply::Home(None));
    assert_eq!(task.stage, UnlinkStage::Fatal);
    assert_eq!(task.status, "$HOME envirenment variable is not set!");
    assert_eq!(task.request(), Request::Abort);
}

#[test]
fn unlink_of_a_missing_repository_says_not_found() {
    let task = UnlinkTask::begin().advance(exited(true, "")).advance(home());
    assert_eq!(task.request(), Request::Exists("/home/u/.dotfiles".to_string()));
    let task = task.advance(Reply::Flag(false));
    assert!(task.over());
    assert_eq!(task.status, "Dotfiles directory not found. Clone the repository first.");
}

#[test]
fn unlink_of_an_empty_repository_says_nothing_found() {
    let task = UnlinkTask::begin()
        .advance(exited(true, ""))
        .advance(home())
        .advance(Reply::Flag(true));
    assert_eq!(task.request(), Request::ListDir("/home/u/.dotfiles".to_string()));
    let task = task.advance(Reply::Listing(Vec::new()));
    assert!(task.over());
    assert_eq!(task.status, "No dotfiles were found to unstow.");
    let hidden_only = listed(vec![dir(".git"), file("LICENSE")]);
    assert_eq!(hidden_only.status, "No dotfiles were found to unstow.");
    assert_eq!(hidden_only.request(), Request::Finished);
}

#[test]
fn unlink_reports_an_unreadable_repository() {
    let task = UnlinkTask::begin()
        .advance(exited(true, ""))
        .advance(home())
        .advance(Reply::Flag(true))
        .advance(Reply::Failed("Permission denied (os error 13)".to_string()));
    assert_eq!(task.stage, UnlinkStage::Done);
    assert_eq!(task.status, "Failed to read dotfiles directory: Permission denied (os error 13)");
}

#[test]
fn unlink_counts_successes_and_lists_failures() {
    let task = listed(vec![dir("a"), dir(".git"), dir("b")]);
    assert_eq!(task.stage, UnlinkStage::Each);
    assert_eq!(task.request(), unstow("a"));
    let task = task.advance(exited(true, ""));
    assert_eq!(task.request(), unstow("b"));
    let task = task.advance(exited(false, "simulated failure"));
    assert!(task.over());
    let result = task.result();
    assert_eq!(result.successes, 1);
    assert_eq!(
        result.failures,
        vec![Failure {
            package: "b".to_string(),
            reason: "Failed to unstow b: simulated failure".to_string(),
        }]
    );
    assert_eq!(
        task.status,
        "Successfully unstowed 1 dotfile directories.\n\nErrors encountered:\n- Failed to unstow b: simulated failure"
    );
    assert_eq!(task.request(), Request::Finished);
}

#[test]
fn unlink_goes_on_after_a_failure() {
    let task = listed(vec![dir("x"), dir("y"), dir("z")]);
    let task = task.advance(unstarted("gone"));
    assert_eq!(task.stage, UnlinkStage::Each);
    assert_eq!(task.request(), unstow("y"));
    let task = task.advance(exited(false, "no"));
    assert_eq!(task.request(), unstow("z"));
    let task = task.advance(exited(false, "nope"));
    assert!(task.over());
    let result = task.result();
    assert_eq!(result.successes, 0);
    assert_eq!(
        result.failures.iter().map(|f| f.package.as_str()).collect::<Vec<_>>(),
        vec!["x", "y", "z"]
    );
    assert_eq!(
        task.status,
        "Failed to unstow dotfiles. Errors encountered:\n- Command error for x: gone\n- Failed to unstow y: no\n- Failed to unstow z: nope"
    );
}

#[test]
fn unlink_of_all_packages_says_how_many() {
    let mut task = listed((0..12).map(|i| dir(&format!("p{i}"))).collect());
    for _ in 0..12 {
        assert!(!task.over());
        task = task.advance(exited(true, ""));
    }
    assert!(task.over());
    assert_eq!(task.status, "Successfully unstowed 12 dotfile directories.");
    assert_eq!(task.result(), BatchResult { successes: 12, failures: Vec::new() });
}

#[test]
fn unlink_ignores_replies_of_the_wrong_kind() {
    let task = listed(vec![dir("a")]);
    let task = task.advance(Reply::Flag(true)).advance(Reply::Done);
    assert_eq!(task.stage, UnlinkStage::Each);
    assert_eq!(task.request(), unstow("a"));
    let task = task.advance(exited(true, "")).advance(exited(false, "late"));
    assert_eq!(task.status, "Successfully unstowed 1 dotfile directories.");
}

#[test]
fn tally_pairs_packages_with_outcomes() {
    let packages = texts(&["a", "b", "c"]);
    let outcomes = vec![
        ProcessOutcome::Exited { success: false, stderr: "e1".to_string() },
        ProcessOutcome::Exited { success: true, stderr: String::new() },
    ];
    let result = BatchResult::tally(&packages, &outcomes);
    assert_eq!(result.successes, 1);
    assert_eq!(result.failures.len(), 1);
    assert_eq!(result.failures[0].package, "a");
    assert_eq!(result.failures[0].reason, "Failed to unstow a: e1");
}

#[test]
fn batch_status_has_three_shapes() {
    let none = BatchResult { successes: 0, failures: Vec::new() };
    assert_eq!(none.status(), "No dotfiles were found to unstow.");
    let good = BatchResult { successes: 3, failures: Vec::new() };
    assert_eq!(good.status(), "Successfully unstowed 3 dotfile directories.");
    let failure = Failure { package: "p".to_string(), reason: "why".to_string() };
    let mixed = BatchResult { successes: 10, failures: vec![failure.clone(), failure.clone()] };
    assert_eq!(
        mixed.status(),
        "Successfully unstowed 10 dotfile directories.\n\nErrors encountered:\n- why\n- why"
    );
    let bad = BatchResult { successes: 0, failures: vec![failure] };
    assert_eq!(bad.status(), "Failed to unstow dotfiles. Errors encountered:\n- why");
}
