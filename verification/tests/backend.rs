use dotfiles_sync::backend::{command_for, detect, status_for};
use dotfiles_sync::backend::{Backend, PackageAction, PackageSet, PackageStage, PackageTask};
use dotfiles_sync::host::{Command, ProcessOutcome, Reply, Request};

fn words(items: &[&str]) -> Vec<String> {
    items.iter().map(|s| s.to_string()).collect()
}

fn set() -> PackageSet {
    PackageSet { base: words(&["bash", "stow"]), auxiliary: words(&["bat", "fzf"]) }
}

fn ok() -> Reply {
    Reply::Process(ProcessOutcome::Exited { success: true, stderr: String::new() })
}

fn bad(stderr: &str) -> Reply {
    Reply::Process(ProcessOutcome::Exited { success: false, stderr: stderr.to_string() })
}

fn absent() -> Reply {
    Reply::Process(ProcessOutcome::NotStarted("No such file or directory".to_string()))
}

fn run(program: &str, args: &[&str]) -> Request {
    Request::Run(Command { program: program.to_string(), args: words(args), dir: None })
}

fn launch(program: &str, args: &[&str]) -> Request {
    Request::Launch(Command { program: program.to_string(), args: words(args), dir: None })
}

fn probed(action: PackageAction, apt: Reply, aur: Reply, pacman: Reply) -> PackageTask {
    PackageTask::begin(action, set()).advance(apt).advance(aur).advance(pacman)
}

#[test]
fn detect_returns_the_only_backend_that_answers() {
    assert_eq!(detect(true, false, false), Backend::AptLike);
    assert_eq!(detect(false, true, false), Backend::AurHelperLike);
    assert_eq!(detect(false, false, true), Backend::PacmanLike);
    assert_eq!(detect(false, false, false), Backend::Missing);
}

#[test]
fn detect_respects_the_priority_order() {
    assert_eq!(detect(true, true, true), Backend::AptLike);
    assert_eq!(detect(true, false, true), Backend::AptLike);
    assert_eq!(detect(true, true, false), Backend::AptLike);
    assert_eq!(detect(false, true, true), Backend::AurHelperLike);
}

#[test]
fn probes_are_version_queries_in_priority_order() {
    let task = PackageTask::begin(PackageAction::Update, set());
    assert_eq!(task.request(), run("dpkg", &["--version"]));
    let task = task.advance(absent());
    assert_eq!(task.request(), run("yay", &["--version"]));
    let task = task.advance(absent());
    assert_eq!(task.request(), run("pacman", &["--version"]));
}

#[test]
fn task_detects_each_backend_alone() {
    let task = probed(PackageAction::Update, ok(), absent(), absent());
    assert_eq!(task.backend, Backend::AptLike);
    let task = probed(PackageAction::Update, absent(), ok(), absent());
    assert_eq!(task.backend, Backend::AurHelperLike);
    let task = probed(PackageAction::Update, absent(), absent(), ok());
    assert_eq!(task.backend, Backend::PacmanLike);
}

#[test]
fn a_probe_that_ends_badly_does_not_count() {
    let task = probed(PackageAction::Update, bad("dpkg: error"), ok(), ok());
    assert_eq!(task.backend, Backend::AurHelperLike);
}

#[test]
fn no_backend_is_fatal_with_a_clear_status() {
    let task = probed(PackageAction::Upgrade, absent(), bad(""), absent());
    assert_eq!(task.backend, Backend::Missing);
    assert_eq!(task.stage, PackageStage::Fatal);
    assert_eq!(task.status, "No valid package manager found!");
    assert_eq!(task.request(), Request::Abort);
    assert!(task.over());
}

#[test]
fn update_commands_follow_the_backend() {
    let s = set();
    assert_eq!(
        command_for(PackageAction::Update, Backend::AptLike, &s).unwrap(),
        Command { program: "sudo".into(), args: words(&["apt", "update", "-y"]), dir: None }
    );
    assert_eq!(
        command_for(PackageAction::Update, Backend::AurHelperLike, &s).unwrap(),
        Command { program: "yay".into(), args: words(&["-Sy"]), dir: None }
    );
    assert_eq!(
        command_for(PackageAction::Update, Backend::PacmanLike, &s).unwrap(),
        Command { program: "sudo".into(), args: words(&["pacman", "-Sy"]), dir: None }
    );
    assert_eq!(command_for(PackageAction::Update, Backend::Missing, &s), None);
}

#[test]
fn upgrade_commands_follow_the_backend() {
    let s = set();
    assert_eq!(
        command_for(PackageAction::Upgrade, Backend::AptLike, &s).unwrap(),
        Command { program: "sudo".into(), args: words(&["apt", "upgrade", "-y"]), dir: None }
    );
    assert_eq!(
        command_for(PackageAction::Upgrade, Backend::AurHelperLike, &s).unwrap(),
        Command { program: "yay".into(), args: words(&["-Syu"]), dir: None }
    );
    assert_eq!(
        command_for(PackageAction::Upgrade, Backend::PacmanLike, &s).unwrap(),
        Command { program: "sudo".into(), args: words(&["pacman", "-Syu"]), dir: None }
    );
    assert_eq!(command_for(PackageAction::Upgrade, Backend::Missing, &s), None);
}

#[test]
fn install_commands_carry_the_package_sets() {
    let s = set();
    assert_eq!(
        command_for(PackageAction::Install, Backend::AptLike, &s).unwrap(),
        Command {
            program: "sudo".into(),
            args: words(&["apt", "install", "-y", "bash", "stow"]),
            dir: None
        }
    );
    assert_eq!(
        command_for(PackageAction::Install, Backend::AurHelperLike, &s).unwrap(),
        Command {
            program: "yay".into(),
            args: words(&["-S", "--noconfirm", "bash", "stow", "bat", "fzf"]),
            dir: None
        }
    );
    assert_eq!(
        command_for(PackageAction::Install, Backend::PacmanLike, &s).unwrap(),
        Command {
            program: "sudo".into(),
            args: words(&["pacman", "-S", "--noconfirm", "bash", "stow", "bat", "fzf"]),
            dir: None
        }
    );
    assert_eq!(command_for(PackageAction::Install, Backend::Missing, &s), None);
}

#[test]
fn statuses_of_successful_actions() {
    let done = ProcessOutcome::Exited { success: true, stderr: "warning".to_string() };
    assert_eq!(
        status_for(PackageAction::Update, Backend::AptLike, &done),
        "Packages updated successfully with apt!"
    );
    assert_eq!(
        status_for(PackageAction::Update, Backend::AurHelperLike, &done),
        "Packages updated successfully with yay!"
    );
    assert_eq!(
        status_for(PackageAction::Update, Backend::PacmanLike, &done),
        "Packages updated successfully with pacman!"
    );
    assert_eq!(
        status_for(PackageAction::Upgrade, Backend::PacmanLike, &done),
        "Packages upgraded successfully!"
    );
    assert_eq!(status_for(PackageAction::Install, Backend::AptLike, &done), "Packages Installed!");
}

#[test]
fn statuses_of_failed_actions_are_their_complaints() {
    let unstarted = ProcessOutcome::NotStarted("permission denied".to_string());
    let failed = ProcessOutcome::Exited { success: false, stderr: "E: locked".to_string() };
    assert_eq!(status_for(PackageAction::Update, Backend::AptLike, &unstarted), "permission denied");
    assert_eq!(status_for(PackageAction::Upgrade, Backend::AptLike, &failed), "E: locked");
    assert_eq!(status_for(PackageAction::Install, Backend::PacmanLike, &failed), "E: locked");
}

#[test]
fn a_failure_without_a_word_still_has_a_status() {
    let silent = ProcessOutcome::Exited { success: false, stderr: String::new() };
    let unstarted = ProcessOutcome::NotStarted(String::new());
    let sentence = "The command failed without an error message.";
    assert_eq!(silent.failure_status(), sentence);
    assert_eq!(unstarted.failure_status(), sentence);
    for action in [PackageAction::Update, PackageAction::Upgrade, PackageAction::Install] {
        assert_eq!(status_for(action, Backend::AptLike, &silent), sentence);
        assert_eq!(status_for(action, Backend::PacmanLike, &unstarted), sentence);
    }
    let loud = ProcessOutcome::Exited { success: false, stderr: "E: locked".to_string() };
    assert_eq!(loud.failure_status(), "E: locked");
}

#[test]
fn status_without_backend_says_so() {
    let done = ProcessOutcome::Exited { success: true, stderr: String::new() };
    for action in [PackageAction::Update, PackageAction::Upgrade, PackageAction::Install] {
        assert_eq!(status_for(action, Backend::Missing, &done), "No valid package manager found!");
    }
}

#[test]
fn update_runs_to_its_status() {
    let task = probed(PackageAction::Update, absent(), absent(), ok());
    assert_eq!(task.stage, PackageStage::Act);
    assert_eq!(task.request(), run("sudo", &["pacman", "-Sy"]));
    let task = task.advance(ok());
    assert!(task.over());
    assert_eq!(task.stage, PackageStage::Done);
    assert_eq!(task.status, "Packages updated successfully with pacman!");
    assert_eq!(task.request(), Request::Finished);
}

#[test]
fn install_on_apt_bootstraps_the_prompt_first() {
    let task = probed(PackageAction::Install, ok(), absent(), absent());
    assert_eq!(
        task.request(),
        launch("curl", &["-fsSL", "https://starship.rs/install.sh", "-o", "/tmp/starship.sh"])
    );
    let task = task.advance(Reply::Done);
    assert_eq!(task.request(), launch("bash", &["/tmp/starship.sh"]));
    let task = task.advance(Reply::Done);
    assert_eq!(task.request(), run("sudo", &["apt", "install", "-y", "bash", "stow"]));
    let task = task.advance(ok());
    assert_eq!(task.status, "Packages Installed!");
}

#[test]
fn install_elsewhere_has_no_bootstrap() {
    let task = probed(PackageAction::Install, absent(), ok(), ok());
    assert_eq!(task.request(), run("yay", &["-S", "--noconfirm", "bash", "stow", "bat", "fzf"]));
    let task = probed(PackageAction::Install, absent(), absent(), ok());
    assert_eq!(
        task.request(),
        run("sudo", &["pacman", "-S", "--noconfirm", "bash", "stow", "bat", "fzf"])
    );
}

#[test]
fn failed_bootstrap_leaves_the_install_outcome_alone() {
    let with = probed(PackageAction::Install, ok(), absent(), absent())
        .advance(Reply::Done)
        .advance(Reply::Done);
    let without = probed(PackageAction::Install, ok(), absent(), absent())
        .advance(Reply::Failed("curl: not found".to_string()))
        .advance(Reply::Failed("bash: not found".to_string()));
    assert_eq!(with.request(), without.request());
    assert_eq!(without.request(), run("sudo", &["apt", "install", "-y", "bash", "stow"]));
    assert_eq!(without.advance(ok()).status, "Packages Installed!");
    let failed = probed(PackageAction::Install, ok(), absent(), absent())
        .advance(Reply::Failed("curl: not found".to_string()))
        .advance(Reply::Done)
        .advance(bad("E: unable to locate package"));
    assert_eq!(failed.status, "E: unable to locate package");
    let same = probed(PackageAction::Install, ok(), absent(), absent())
        .advance(Reply::Done)
        .advance(Reply::Done)
        .advance(bad("E: unable to locate package"));
    assert_eq!(same.status, failed.status);
}

#[test]
fn package_task_ignores_replies_of_the_wrong_kind() {
    let task = PackageTask::begin(PackageAction::Update, set());
    let task = task.advance(Reply::Flag(true));
    assert_eq!(task.stage, PackageStage::ProbeApt);
    let task = task.advance(Reply::Done);
    assert_eq!(task.stage, PackageStage::ProbeApt);
    assert_eq!(task.request(), run("dpkg", &["--version"]));
    let task = probed(PackageAction::Update, ok(), ok(), ok()).advance(ok());
    assert_eq!(task.stage, PackageStage::Done);
    let task = task.advance(bad("late"));
    assert_eq!(task.status, "Packages updated successfully with apt!");
}

#[test]
fn outcome_success_and_complaint() {
    let ok = ProcessOutcome::Exited { success: true, stderr: "w".to_string() };
    let bad = ProcessOutcome::Exited { success: false, stderr: "boom".to_string() };
    let none = ProcessOutcome::NotStarted("enoent".to_string());
    assert!(ok.succeeded());
    assert!(!bad.succeeded());
    assert!(!none.succeeded());
    assert_eq!(bad.complaint(), "boom");
    assert_eq!(none.complaint(), "enoent");
    assert_eq!(ok.complaint(), "w");
}
