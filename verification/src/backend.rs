//! Package-manager backends: which one the host has, and what each action
//! means for it.

use crate::host::{lemma_failure_status_says_something, Command, CommandView};
use crate::host::{ProcessOutcome, ProcessOutcomeView};
use crate::host::{Reply, ReplyView, Request, RequestView};
use crate::text::{extend_texts, push_text, texts};
use vstd::prelude::*;
use vstd::string::StringExecFns;

verus! {

/// A family of package-management tools.
#[derive(Debug, Clone, Copy, PartialEq, Eq)]
pub enum Backend {
    /// Debian style: `apt`, with `sudo`.
    AptLike,
    /// Arch style: `pacman`, with `sudo`.
    PacmanLike,
    /// An AUR helper: `yay`, which asks for privileges itself.
    AurHelperLike,
    /// No supported tool was found.
    Missing,
}

/// What can be asked of a backend.
#[derive(Debug, Clone, Copy, PartialEq, Eq)]
pub enum PackageAction {
    /// Refresh the package lists.
    Update,
    /// Bring the installed packages up to date.
    Upgrade,
    /// Install the configured package set.
    Install,
}

/// The packages to install: a base set that every backend installs, and an
/// auxiliary set that only backends with access to community packages add.
#[derive(Debug, Clone, PartialEq, Eq)]
pub struct PackageSet {
    pub base: Vec<String>,
    pub auxiliary: Vec<String>,
}

/// What a [`PackageSet`] stands for in contracts.
pub struct PackageSetView {
    pub base: Seq<Seq<char>>,
    pub auxiliary: Seq<Seq<char>>,
}

impl View for PackageSet {
    type V = PackageSetView;

    open spec fn view(&self) -> PackageSetView {
        PackageSetView { base: texts(self.base@), auxiliary: texts(self.auxiliary@) }
    }
}

/// The backend that detection settles on, given which of the three probes
/// succeeded. The order is fixed: the Debian tool first, then the AUR helper,
/// then the native Arch tool; the first that succeeded wins.
pub open spec fn detected(apt: bool, aur: bool, pacman: bool) -> Backend {
    if apt {
        Backend::AptLike
    } else if aur {
        Backend::AurHelperLike
    } else if pacman {
        Backend::PacmanLike
    } else {
        Backend::Missing
    }
}

/// Picks the backend from the results of the three probes.
pub fn detect(apt: bool, aur: bool, pacman: bool) -> (backend: Backend)
    ensures
        backend == detected(apt, aur, pacman),
{
    if apt {
        Backend::AptLike
    } else if aur {
        Backend::AurHelperLike
    } else if pacman {
        Backend::PacmanLike
    } else {
        Backend::Missing
    }
}

/// The backends in the order in which detection prefers them.
pub open spec fn priority() -> Seq<Backend> {
    seq![Backend::AptLike, Backend::AurHelperLike, Backend::PacmanLike]
}

/// Whether the probe of `backend` succeeded.
pub open spec fn answered(backend: Backend, apt: bool, aur: bool, pacman: bool) -> bool {
    match backend {
        Backend::AptLike => apt,
        Backend::AurHelperLike => aur,
        Backend::PacmanLike => pacman,
        Backend::Missing => false,
    }
}

/// The first answer wins: detection settles on the backend whose probe
/// succeeded and before which, in the order of preference, no probe did;
/// and on none exactly when no probe succeeded.
pub proof fn lemma_first_answer_wins(apt: bool, aur: bool, pacman: bool)
    ensures
        detected(apt, aur, pacman) is Missing <==> forall|i: int|
            0 <= i < priority().len() ==> !answered(#[trigger] priority()[i], apt, aur, pacman),
        !(detected(apt, aur, pacman) is Missing) ==> exists|i: int|
            {
                &&& 0 <= i < priority().len()
                &&& #[trigger] priority()[i] == detected(apt, aur, pacman)
                &&& answered(priority()[i], apt, aur, pacman)
                &&& forall|j: int|
                    0 <= j < i ==> !answered(#[trigger] priority()[j], apt, aur, pacman)
            },
{
    let choice = detected(apt, aur, pacman);
    if choice is AptLike {
        assert(priority()[0] == choice);
    } else if choice is AurHelperLike {
        assert(priority()[1] == choice);
        assert(!answered(priority()[0], apt, aur, pacman));
    } else if choice is PacmanLike {
        assert(priority()[2] == choice);
        assert(!answered(priority()[0], apt, aur, pacman));
        assert(!answered(priority()[1], apt, aur, pacman));
    } else {
        assert(!answered(priority()[0], apt, aur, pacman));
        assert(!answered(priority()[1], apt, aur, pacman));
        assert(!answered(priority()[2], apt, aur, pacman));
    }
    if apt {
        assert(answered(priority()[0], apt, aur, pacman));
    }
    if aur {
        assert(answered(priority()[1], apt, aur, pacman));
    }
    if pacman {
        assert(answered(priority()[2], apt, aur, pacman));
    }
}

/// A command without a working directory.
pub open spec fn plain(program: Seq<char>, args: Seq<Seq<char>>) -> CommandView {
    CommandView { program, args, dir: None }
}

/// The version query that probes for the Debian tool.
pub open spec fn apt_probe() -> CommandView {
    plain("dpkg"@, seq!["--version"@])
}

/// The version query that probes for the AUR helper.
pub open spec fn aur_probe() -> CommandView {
    plain("yay"@, seq!["--version"@])
}

/// The version query that probes for the native Arch tool.
pub open spec fn pacman_probe() -> CommandView {
    plain("pacman"@, seq!["--version"@])
}

/// The command that fetches the prompt's install script.
pub open spec fn bootstrap_fetch() -> CommandView {
    plain(
        "curl"@,
        seq!["-fsSL"@, "https://starship.rs/install.sh"@, "-o"@, "/tmp/starship.sh"@],
    )
}

/// The command that runs the fetched install script.
pub open spec fn bootstrap_run() -> CommandView {
    plain("bash"@, seq!["/tmp/starship.sh"@])
}

/// The command that carries out `action` on `backend`, or `None` where there
/// is no backend. The Debian and the native Arch tool are run through `sudo`;
/// the AUR helper is run as it is. Only the Debian tool leaves the auxiliary
/// set out of an install.
pub open spec fn command_of(
    action: PackageAction,
    backend: Backend,
    set: PackageSetView,
) -> Option<CommandView> {
    match (backend, action) {
        (Backend::Missing, _) => None,
        (Backend::AptLike, PackageAction::Update) => Some(
            plain("sudo"@, seq!["apt"@, "update"@, "-y"@]),
        ),
        (Backend::AptLike, PackageAction::Upgrade) => Some(
            plain("sudo"@, seq!["apt"@, "upgrade"@, "-y"@]),
        ),
        (Backend::AptLike, PackageAction::Install) => Some(
            plain("sudo"@, seq!["apt"@, "install"@, "-y"@] + set.base),
        ),
        (Backend::AurHelperLike, PackageAction::Update) => Some(plain("yay"@, seq!["-Sy"@])),
        (Backend::AurHelperLike, PackageAction::Upgrade) => Some(plain("yay"@, seq!["-Syu"@])),
        (Backend::AurHelperLike, PackageAction::Install) => Some(
            plain("yay"@, seq!["-S"@, "--noconfirm"@] + set.base + set.auxiliary),
        ),
        (Backend::PacmanLike, PackageAction::Update) => Some(
            plain("sudo"@, seq!["pacman"@, "-Sy"@]),
        ),
        (Backend::PacmanLike, PackageAction::Upgrade) => Some(
            plain("sudo"@, seq!["pacman"@, "-Syu"@]),
        ),
        (Backend::PacmanLike, PackageAction::Install) => Some(
            plain("sudo"@, seq!["pacman"@, "-S"@, "--noconfirm"@] + set.base + set.auxiliary),
        ),
    }
}

/// Whether `action` on `backend` starts with the bootstrap of the prompt:
/// only an install through the Debian tool does, whose package set lacks it.
pub open spec fn bootstraps(action: PackageAction, backend: Backend) -> bool {
    action is Install && backend is AptLike
}

/// The name a backend goes by in a status line.
pub open spec fn backend_name(backend: Backend) -> Seq<char> {
    match backend {
        Backend::AptLike => "apt"@,
        Backend::AurHelperLike => "yay"@,
        Backend::PacmanLike => "pacman"@,
        Backend::Missing => Seq::empty(),
    }
}

/// The status that says no backend is there.
pub open spec fn no_backend() -> Seq<char> {
    "No valid package manager found!"@
}

/// The status of `action` on `backend`, given how the command came out.
/// Without a backend it says so. A failed command's status is its complaint,
/// or a sentence that says as much where it left none. Otherwise each action
/// has its own line.
pub open spec fn status_of(
    action: PackageAction,
    backend: Backend,
    outcome: ProcessOutcomeView,
) -> Seq<char> {
    if backend is Missing {
        no_backend()
    } else if !outcome.succeeded() {
        outcome.failure_status()
    } else {
        match action {
            PackageAction::Update => "Packages updated successfully with "@ + backend_name(backend)
                + "!"@,
            PackageAction::Upgrade => "Packages upgraded successfully!"@,
            PackageAction::Install => "Packages Installed!"@,
        }
    }
}

fn plain_command(program: &str, args: Vec<String>) -> (r: Command)
    ensures
        r@ == plain(program@, texts(args@)),
{
    Command { program: String::from_str(program), args, dir: None }
}

/// A command with one argument.
pub(crate) fn command1(program: &str, a: &str) -> (r: Command)
    ensures
        r@ == plain(program@, seq![a@]),
{
    let mut args: Vec<String> = Vec::new();
    push_text(&mut args, a);
    assert(texts(args@) =~= seq![a@]);
    plain_command(program, args)
}

fn words2(a: &str, b: &str) -> (r: Vec<String>)
    ensures
        texts(r@) == seq![a@, b@],
{
    let mut args: Vec<String> = Vec::new();
    push_text(&mut args, a);
    push_text(&mut args, b);
    assert(texts(args@) =~= seq![a@, b@]);
    args
}

fn words3(a: &str, b: &str, c: &str) -> (r: Vec<String>)
    ensures
        texts(r@) == seq![a@, b@, c@],
{
    let mut args: Vec<String> = Vec::new();
    push_text(&mut args, a);
    push_text(&mut args, b);
    push_text(&mut args, c);
    assert(texts(args@) =~= seq![a@, b@, c@]);
    args
}

fn probe_command(program: &str) -> (r: Command)
    ensures
        r@ == plain(program@, seq!["--version"@]),
{
    command1(program, "--version")
}

fn fetch_command() -> (r: Command)
    ensures
        r@ == bootstrap_fetch(),
{
    let mut args = words3("-fsSL", "https://starship.rs/install.sh", "-o");
    push_text(&mut args, "/tmp/starship.sh");
    assert(texts(args@) =~= bootstrap_fetch().args);
    plain_command("curl", args)
}

/// Builds the command that carries out `action` on `backend`.
pub fn command_for(action: PackageAction, backend: Backend, set: &PackageSet) -> (r: Option<
    Command,
>)
    ensures
        r is Some == command_of(action, backend, set@) is Some,
        r matches Some(c) ==> Some(c@) == command_of(action, backend, set@),
{
    match backend {
        Backend::Missing => None,
        Backend::AptLike => {
            let args = match action {
                PackageAction::Update => words3("apt", "update", "-y"),
                PackageAction::Upgrade => words3("apt", "upgrade", "-y"),
                PackageAction::Install => {
                    let mut args = words3("apt", "install", "-y");
                    extend_texts(&mut args, &set.base);
                    args
                },
            };
            Some(plain_command("sudo", args))
        },
        Backend::AurHelperLike => {
            let args = match action {
                PackageAction::Update => {
                    let mut args: Vec<String> = Vec::new();
                    push_text(&mut args, "-Sy");
                    assert(texts(args@) =~= seq!["-Sy"@]);
                    args
                },
                PackageAction::Upgrade => {
                    let mut args: Vec<String> = Vec::new();
                    push_text(&mut args, "-Syu");
                    assert(texts(args@) =~= seq!["-Syu"@]);
                    args
                },
                PackageAction::Install => {
                    let mut args = words2("-S", "--noconfirm");
                    extend_texts(&mut args, &set.base);
                    extend_texts(&mut args, &set.auxiliary);
                    args
                },
            };
            Some(plain_command("yay", args))
        },
        Backend::PacmanLike => {
            let args = match action {
                PackageAction::Update => words2("pacman", "-Sy"),
                PackageAction::Upgrade => words2("pacman", "-Syu"),
                PackageAction::Install => {
                    let mut args = words3("pacman", "-S", "--noconfirm");
                    extend_texts(&mut args, &set.base);
                    extend_texts(&mut args, &set.auxiliary);
                    args
                },
            };
            Some(plain_command("sudo", args))
        },
    }
}

/// Words the status of `action` on `backend`, given how the command came out.
pub fn status_for(action: PackageAction, backend: Backend, outcome: &ProcessOutcome) -> (r: String)
    ensures
        r@ == status_of(action, backend, outcome@),
{
    match backend {
        Backend::Missing => String::from_str("No valid package manager found!"),
        _ => {
            if !outcome.succeeded() {
                outcome.failure_status()
            } else {
                match action {
                    PackageAction::Update => {
                        let name = match backend {
                            Backend::AptLike => "apt",
                            Backend::AurHelperLike => "yay",
                            _ => "pacman",
                        };
                        String::from_str("Packages updated successfully with ").concat(
                            name,
                        ).concat("!")
                    },
                    PackageAction::Upgrade => String::from_str("Packages upgraded successfully!"),
                    PackageAction::Install => String::from_str("Packages Installed!"),
                }
            }
        },
    }
}

/// Where a package task stands.
#[derive(Debug, Clone, Copy, PartialEq, Eq)]
pub enum PackageStage {
    /// Waiting for the probe of the Debian tool.
    ProbeApt,
    /// Waiting for the probe of the AUR helper.
    ProbeAur,
    /// Waiting for the probe of the native Arch tool.
    ProbePacman,
    /// The fetch of the install script was handed to the host.
    FetchBootstrap,
    /// The run of the install script was handed to the host.
    RunBootstrap,
    /// Waiting for the action's own command.
    Act,
    /// Over; `status` is final.
    Done,
    /// Over for want of a backend; `status` says so.
    Fatal,
}

/// A package action in progress: detection of the backend, then the action.
///
/// All three probes are made, in the order of their priority. The bootstrap
/// of the prompt is deliberately fire and forget: its two programs are
/// started, not waited for, and whether they could be started has no part in
/// what follows.
#[derive(Debug, PartialEq, Eq)]
pub struct PackageTask {
    pub action: PackageAction,
    pub set: PackageSet,
    pub stage: PackageStage,
    /// Whether the probe of the Debian tool succeeded.
    pub apt: bool,
    /// Whether the probe of the AUR helper succeeded.
    pub aur: bool,
    /// The backend, once detection is over.
    pub backend: Backend,
    /// The status, once the task is over.
    pub status: String,
}

/// What a [`PackageTask`] stands for in contracts.
pub struct PackageTaskView {
    pub action: PackageAction,
    pub set: PackageSetView,
    pub stage: PackageStage,
    pub apt: bool,
    pub aur: bool,
    pub backend: Backend,
    pub status: Seq<char>,
}

impl View for PackageTask {
    type V = PackageTaskView;

    open spec fn view(&self) -> PackageTaskView {
        PackageTaskView {
            action: self.action,
            set: self.set@,
            stage: self.stage,
            apt: self.apt,
            aur: self.aur,
            backend: self.backend,
            status: self.status@,
        }
    }
}

impl PackageTaskView {
    /// The task before anything was asked.
    pub open spec fn begin(action: PackageAction, set: PackageSetView) -> PackageTaskView {
        PackageTaskView {
            action,
            set,
            stage: PackageStage::ProbeApt,
            apt: false,
            aur: false,
            backend: Backend::Missing,
            status: Seq::empty(),
        }
    }

    /// Whether the task is over.
    pub open spec fn over(self) -> bool {
        self.stage is Done || self.stage is Fatal
    }

    /// What the task is waiting for.
    pub open spec fn request(self) -> RequestView {
        match self.stage {
            PackageStage::ProbeApt => RequestView::Run(apt_probe()),
            PackageStage::ProbeAur => RequestView::Run(aur_probe()),
            PackageStage::ProbePacman => RequestView::Run(pacman_probe()),
            PackageStage::FetchBootstrap => RequestView::Launch(bootstrap_fetch()),
            PackageStage::RunBootstrap => RequestView::Launch(bootstrap_run()),
            PackageStage::Act => match command_of(self.action, self.backend, self.set) {
                Some(command) => RequestView::Run(command),
                None => RequestView::Abort,
            },
            PackageStage::Done => RequestView::Finished,
            PackageStage::Fatal => RequestView::Abort,
        }
    }

    /// The task once detection has settled on `backend`: over at once where
    /// there is none, else on its way to the action, through the bootstrap
    /// where the action has one.
    pub open spec fn settle(self, backend: Backend) -> PackageTaskView {
        if backend is Missing {
            PackageTaskView { stage: PackageStage::Fatal, backend, status: no_backend(), ..self }
        } else if bootstraps(self.action, backend) {
            PackageTaskView { stage: PackageStage::FetchBootstrap, backend, ..self }
        } else {
            PackageTaskView { stage: PackageStage::Act, backend, ..self }
        }
    }

    /// The task after the host's reply. A reply that does not answer what
    /// the task is waiting for leaves the task as it is.
    pub open spec fn advance(self, reply: ReplyView) -> PackageTaskView {
        match (self.stage, reply) {
            (PackageStage::ProbeApt, ReplyView::Process(outcome)) => PackageTaskView {
                stage: PackageStage::ProbeAur,
                apt: outcome.succeeded(),
                ..self
            },
            (PackageStage::ProbeAur, ReplyView::Process(outcome)) => PackageTaskView {
                stage: PackageStage::ProbePacman,
                aur: outcome.succeeded(),
                ..self
            },
            (PackageStage::ProbePacman, ReplyView::Process(outcome)) => self.settle(
                detected(self.apt, self.aur, outcome.succeeded()),
            ),
            (PackageStage::FetchBootstrap, ReplyView::Done)
            | (PackageStage::FetchBootstrap, ReplyView::Failed(_)) => PackageTaskView {
                stage: PackageStage::RunBootstrap,
                ..self
            },
            (PackageStage::RunBootstrap, ReplyView::Done)
            | (PackageStage::RunBootstrap, ReplyView::Failed(_)) => PackageTaskView {
                stage: PackageStage::Act,
                ..self
            },
            (PackageStage::Act, ReplyView::Process(outcome)) => PackageTaskView {
                stage: if self.backend is Missing {
                    PackageStage::Fatal
                } else {
                    PackageStage::Done
                },
                status: status_of(self.action, self.backend, outcome),
                ..self
            },
            _ => self,
        }
    }
}

impl PackageTask {
    /// Starts a package action: the first thing asked is the first probe.
    pub fn begin(action: PackageAction, set: PackageSet) -> (task: PackageTask)
        ensures
            task@ == PackageTaskView::begin(action, set@),
    {
        PackageTask {
            action,
            set,
            stage: PackageStage::ProbeApt,
            apt: false,
            aur: false,
            backend: Backend::Missing,
            status: String::new(),
        }
    }

    /// Tells whether the task is over.
    pub fn over(&self) -> (r: bool)
        ensures
            r == self@.over(),
    {
        match self.stage {
            PackageStage::Done | PackageStage::Fatal => true,
            _ => false,
        }
    }

    /// What the host has to do next.
    pub fn request(&self) -> (r: Request)
        ensures
            r@ == self@.request(),
    {
        match self.stage {
            PackageStage::ProbeApt => Request::Run(probe_command("dpkg")),
            PackageStage::ProbeAur => Request::Run(probe_command("yay")),
            PackageStage::ProbePacman => Request::Run(probe_command("pacman")),
            PackageStage::FetchBootstrap => Request::Launch(fetch_command()),
            PackageStage::RunBootstrap => Request::Launch(command1("bash", "/tmp/starship.sh")),
            PackageStage::Act => match command_for(self.action, self.backend, &self.set) {
                Some(command) => Request::Run(command),
                None => Request::Abort,
            },
            PackageStage::Done => Request::Finished,
            PackageStage::Fatal => Request::Abort,
        }
    }

    fn settle(self, backend: Backend) -> (task: PackageTask)
        ensures
            task@ == self@.settle(backend),
    {
        match backend {
            Backend::Missing => PackageTask {
                stage: PackageStage::Fatal,
                backend,
                status: String::from_str("No valid package manager found!"),
                ..self
            },
            Backend::AptLike => match self.action {
                PackageAction::Install => PackageTask {
                    stage: PackageStage::FetchBootstrap,
                    backend,
                    ..self
                },
                _ => PackageTask { stage: PackageStage::Act, backend, ..self },
            },
            _ => PackageTask { stage: PackageStage::Act, backend, ..self },
        }
    }

    /// Takes the host's reply and moves on.
    pub fn advance(self, reply: Reply) -> (task: PackageTask)
        ensures
            task@ == self@.advance(reply@),
    {
        match self.stage {
            PackageStage::ProbeApt => match reply {
                Reply::Process(outcome) => PackageTask {
                    stage: PackageStage::ProbeAur,
                    apt: outcome.succeeded(),
                    ..self
                },
                _ => self,
            },
            PackageStage::ProbeAur => match reply {
                Reply::Process(outcome) => PackageTask {
                    stage: PackageStage::ProbePacman,
                    aur: outcome.succeeded(),
                    ..self
                },
                _ => self,
            },
            PackageStage::ProbePacman => match reply {
                Reply::Process(outcome) => {
                    let backend = detect(self.apt, self.aur, outcome.succeeded());
                    self.settle(backend)
                },
                _ => self,
            },
            PackageStage::FetchBootstrap => match reply {
                Reply::Done | Reply::Failed(_) => PackageTask {
                    stage: PackageStage::RunBootstrap,
                    ..self
                },
                _ => self,
            },
            PackageStage::RunBootstrap => match reply {
                Reply::Done | Reply::Failed(_) => PackageTask { stage: PackageStage::Act, ..self },
                _ => self,
            },
            PackageStage::Act => match reply {
                Reply::Process(outcome) => {
                    let status = status_for(self.action, self.backend, &outcome);
                    let stage = match self.backend {
                        Backend::Missing => PackageStage::Fatal,
                        _ => PackageStage::Done,
                    };
                    PackageTask { stage, status, ..self }
                },
                _ => self,
            },
            _ => self,
        }
    }
}

/// Detection settles on the backend whose probe succeeded and, when more
/// than one did, on the first of them in the order Debian tool, AUR helper,
/// native Arch tool. The three probes are asked for in that order, and what
/// comes after them is fixed by the backend alone: the end where there is
/// none, the bootstrap where the action has one, else the action's command.
pub proof fn lemma_detection(
    action: PackageAction,
    set: PackageSetView,
    apt: ProcessOutcomeView,
    aur: ProcessOutcomeView,
    pacman: ProcessOutcomeView,
)
    ensures
        ({
            let first = PackageTaskView::begin(action, set);
            let second = first.advance(ReplyView::Process(apt));
            let third = second.advance(ReplyView::Process(aur));
            let settled = third.advance(ReplyView::Process(pacman));
            &&& first.request() == RequestView::Run(apt_probe())
            &&& second.request() == RequestView::Run(aur_probe())
            &&& third.request() == RequestView::Run(pacman_probe())
            &&& settled.backend == detected(apt.succeeded(), aur.succeeded(), pacman.succeeded())
            &&& apt.succeeded() ==> settled.backend is AptLike
            &&& !apt.succeeded() && aur.succeeded() ==> settled.backend is AurHelperLike
            &&& !apt.succeeded() && !aur.succeeded() && pacman.succeeded()
                ==> settled.backend is PacmanLike
            &&& !apt.succeeded() && !aur.succeeded() && !pacman.succeeded() ==> {
                &&& settled.backend is Missing
                &&& settled.stage is Fatal
                &&& settled.status == no_backend()
                &&& settled.request() == RequestView::Abort
            }
            &&& !(settled.backend is Missing) ==> settled.request() == if bootstraps(
                action,
                settled.backend,
            ) {
                RequestView::Launch(bootstrap_fetch())
            } else {
                RequestView::Run(command_of(action, settled.backend, set)->0)
            }
        }),
{
}

/// An answer to a program that was started without being waited for.
pub open spec fn launch_reply(reply: ReplyView) -> bool {
    reply is Done || reply is Failed
}

/// The bootstrap and the installation of the base set are independent:
/// whatever comes of the two programs of the bootstrap, the same install
/// command is asked for afterwards, and the status at the end is that of the
/// install command alone.
pub proof fn lemma_bootstrap_independent(
    task: PackageTaskView,
    fetch: ReplyView,
    run: ReplyView,
    other_fetch: ReplyView,
    other_run: ReplyView,
    install: ProcessOutcomeView,
)
    requires
        task.stage is FetchBootstrap,
        launch_reply(fetch),
        launch_reply(run),
        launch_reply(other_fetch),
        launch_reply(other_run),
    ensures
        task.advance(fetch).advance(run) == task.advance(other_fetch).advance(other_run),
        task.advance(fetch).request() == RequestView::Launch(bootstrap_run()),
        task.advance(fetch).advance(run).request() == (PackageTaskView {
            stage: PackageStage::Act,
            ..task
        }).request(),
        task.advance(fetch).advance(run).advance(ReplyView::Process(install)).status == status_of(
            task.action,
            task.backend,
            install,
        ),
{
}

/// An action never runs a command without a backend, and with one it always
/// has a command to run.
pub proof fn lemma_command_needs_backend(
    action: PackageAction,
    backend: Backend,
    set: PackageSetView,
)
    ensures
        command_of(action, backend, set) is None <==> backend is Missing,
        backend is Missing ==> forall|outcome: ProcessOutcomeView|
            #[trigger] status_of(action, backend, outcome) == no_backend(),
{
}

/// The backend is settled once: no reply changes it after the last probe,
/// and none ever changes the action or the package set.
pub proof fn lemma_backend_is_settled_once(task: PackageTaskView, reply: ReplyView)
    ensures
        task.advance(reply).action == task.action,
        task.advance(reply).set == task.set,
        !(task.stage is ProbePacman) ==> task.advance(reply).backend == task.backend,
{
}

/// A package task never ends without a word: whatever brings it to its
/// end leaves a status that is not empty.
pub proof fn lemma_package_status_says_something(task: PackageTaskView, reply: ReplyView)
    requires
        !task.over(),
        task.advance(reply).over(),
    ensures
        task.advance(reply).status.len() > 0,
{
    reveal_strlit("No valid package manager found!");
    reveal_strlit("Packages updated successfully with ");
    reveal_strlit("Packages upgraded successfully!");
    reveal_strlit("Packages Installed!");
    match reply {
        ReplyView::Process(outcome) => {
            lemma_failure_status_says_something(outcome);
        },
        _ => {},
    }
}

} // verus!
