//! The symlink tree: linking the configured packages into the home
//! directory, and unlinking whatever the repository holds.

use crate::backend::{command1, plain};
use crate::batch::{attempts, lemma_batch_status_says_something, outcome_views, tally};
use crate::batch::{BatchResult, BatchResultView};
use crate::host::lemma_failure_status_says_something;
use crate::host::{entries, no_home, no_home_status, repository_path, repository_path_of};
use crate::host::{Command, CommandView, DirEntry, DirEntryView, EntryKind, ProcessOutcome};
use crate::host::{ProcessOutcomeView, Reply, ReplyView, Request, RequestView};
use crate::text::{copy_texts, hidden, is_hidden, push_text, texts};
use vstd::prelude::*;
use vstd::string::StringExecFns;

verus! {

/// The version query that tells whether the symlink tool is there.
pub open spec fn tool_probe() -> CommandView {
    plain("stow"@, seq!["--version"@])
}

/// The first place the tree to link is looked for.
pub open spec fn first_root(home: Seq<char>) -> Seq<char> {
    home + "/dotfiles"@
}

/// The second place the tree to link is looked for.
pub open spec fn second_root(home: Seq<char>) -> Seq<char> {
    home + "/.dotfiles"@
}

/// The packages that are linked.
pub open spec fn linked() -> Seq<Seq<char>> {
    seq![
        "bash"@,
        "bat"@,
        "btop"@,
        "fastfetch"@,
        "kitty"@,
        "nvim"@,
        "starship"@,
        "tmux"@,
        "vimrc"@,
        "zsh"@,
    ]
}

/// The names of the packages that are linked.
pub fn linked_packages() -> (r: Vec<String>)
    ensures
        texts(r@) == linked(),
{
    let mut r: Vec<String> = Vec::new();
    push_text(&mut r, "bash");
    push_text(&mut r, "bat");
    push_text(&mut r, "btop");
    push_text(&mut r, "fastfetch");
    push_text(&mut r, "kitty");
    push_text(&mut r, "nvim");
    push_text(&mut r, "starship");
    push_text(&mut r, "tmux");
    push_text(&mut r, "vimrc");
    push_text(&mut r, "zsh");
    assert(texts(r@) =~= linked());
    r
}

/// The one command that links all of `packages` from `root`.
pub open spec fn link_command(root: Seq<char>, packages: Seq<Seq<char>>) -> CommandView {
    CommandView { program: "stow"@, args: packages, dir: Some(root) }
}

/// Where a link task stands.
#[derive(Debug, Clone, Copy, PartialEq, Eq)]
pub enum LinkStage {
    /// Waiting for the probe of the symlink tool.
    Tool,
    /// Waiting for the home directory.
    Home,
    /// Waiting to hear whether the first candidate is a directory.
    First,
    /// Waiting to hear whether the second candidate is a directory.
    Second,
    /// Waiting for the symlink tool.
    Stow,
    /// Over; `status` is final.
    Done,
    /// Over for want of a precondition; `status` says which.
    Fatal,
}

/// Linking in progress. The packages are linked by one command, so the batch
/// succeeds or fails as a whole.
#[derive(Debug, PartialEq, Eq)]
pub struct LinkTask {
    pub stage: LinkStage,
    pub packages: Vec<String>,
    /// The home directory, once known.
    pub home: String,
    /// The tree to link from, once found.
    pub root: String,
    /// The status, once the task is over.
    pub status: String,
}

/// What a [`LinkTask`] stands for in contracts.
pub struct LinkTaskView {
    pub stage: LinkStage,
    pub packages: Seq<Seq<char>>,
    pub home: Seq<char>,
    pub root: Seq<char>,
    pub status: Seq<char>,
}

impl View for LinkTask {
    type V = LinkTaskView;

    open spec fn view(&self) -> LinkTaskView {
        LinkTaskView {
            stage: self.stage,
            packages: texts(self.packages@),
            home: self.home@,
            root: self.root@,
            status: self.status@,
        }
    }
}

impl LinkTaskView {
    /// The task before anything was asked.
    pub open spec fn begin(packages: Seq<Seq<char>>) -> LinkTaskView {
        LinkTaskView {
            stage: LinkStage::Tool,
            packages,
            home: Seq::empty(),
            root: Seq::empty(),
            status: Seq::empty(),
        }
    }

    /// Whether the task is over.
    pub open spec fn over(self) -> bool {
        self.stage is Done || self.stage is Fatal
    }

    /// What the task is waiting for.
    pub open spec fn request(self) -> RequestView {
        match self.stage {
            LinkStage::Tool => RequestView::Run(tool_probe()),
            LinkStage::Home => RequestView::HomeDir,
            LinkStage::First => RequestView::IsDir(first_root(self.home)),
            LinkStage::Second => RequestView::IsDir(second_root(self.home)),
            LinkStage::Stow => RequestView::Run(link_command(self.root, self.packages)),
            LinkStage::Done => RequestView::Finished,
            LinkStage::Fatal => RequestView::Abort,
        }
    }

    /// The task, over with `status`.
    pub open spec fn done(self, status: Seq<char>) -> LinkTaskView {
        LinkTaskView { stage: LinkStage::Done, status, ..self }
    }

    /// The task, over for want of a precondition.
    pub open spec fn fatal(self, status: Seq<char>) -> LinkTaskView {
        LinkTaskView { stage: LinkStage::Fatal, status, ..self }
    }

    /// The task after the host's reply. Without the tool nothing is tried.
    /// The tree is the first of the two candidates that is a directory; that
    /// neither is cannot be repaired here. A failed link's status is the
    /// tool's complaint, or a sentence that says as much where it left none.
    /// A reply that does not answer what the task is waiting for leaves the
    /// task as it is.
    pub open spec fn advance(self, reply: ReplyView) -> LinkTaskView {
        match (self.stage, reply) {
            (LinkStage::Tool, ReplyView::Process(outcome)) => if outcome.succeeded() {
                LinkTaskView { stage: LinkStage::Home, ..self }
            } else {
                self.done("Stow package doesn't exists."@)
            },
            (LinkStage::Home, ReplyView::Home(Some(home))) => LinkTaskView {
                stage: LinkStage::First,
                home,
                ..self
            },
            (LinkStage::Home, ReplyView::Home(None)) => self.fatal(no_home()),
            (LinkStage::First, ReplyView::Flag(found)) => if found {
                LinkTaskView { stage: LinkStage::Stow, root: first_root(self.home), ..self }
            } else {
                LinkTaskView { stage: LinkStage::Second, ..self }
            },
            (LinkStage::Second, ReplyView::Flag(found)) => if found {
                LinkTaskView { stage: LinkStage::Stow, root: second_root(self.home), ..self }
            } else {
                self.fatal("Dotfiles directory not found in $HOME/.dotfiles"@)
            },
            (LinkStage::Stow, ReplyView::Process(outcome)) => if outcome.succeeded() {
                self.done("Packages stowed succesfully."@)
            } else {
                self.done(outcome.failure_status())
            },
            _ => self,
        }
    }
}

impl LinkTask {
    /// Starts linking `packages`: the first thing asked is the probe of the
    /// symlink tool.
    pub fn begin(packages: Vec<String>) -> (task: LinkTask)
        ensures
            task@ == LinkTaskView::begin(texts(packages@)),
    {
        LinkTask {
            stage: LinkStage::Tool,
            packages,
            home: String::new(),
            root: String::new(),
            status: String::new(),
        }
    }

    /// Tells whether the task is over.
    pub fn over(&self) -> (r: bool)
        ensures
            r == self@.over(),
    {
        match self.stage {
            LinkStage::Done | LinkStage::Fatal => true,
            _ => false,
        }
    }

    /// What the host has to do next.
    pub fn request(&self) -> (r: Request)
        ensures
            r@ == self@.request(),
    {
        match self.stage {
            LinkStage::Tool => Request::Run(command1("stow", "--version")),
            LinkStage::Home => Request::HomeDir,
            LinkStage::First => Request::IsDir(self.home.clone().concat("/dotfiles")),
            LinkStage::Second => Request::IsDir(self.home.clone().concat("/.dotfiles")),
            LinkStage::Stow => Request::Run(
                Command {
                    program: String::from_str("stow"),
                    args: copy_texts(&self.packages),
                    dir: Some(self.root.clone()),
                },
            ),
            LinkStage::Done => Request::Finished,
            LinkStage::Fatal => Request::Abort,
        }
    }

    /// Takes the host's reply and moves on.
    pub fn advance(self, reply: Reply) -> (task: LinkTask)
        ensures
            task@ == self@.advance(reply@),
    {
        match self.stage {
            LinkStage::Tool => match reply {
                Reply::Process(outcome) => if outcome.succeeded() {
                    LinkTask { stage: LinkStage::Home, ..self }
                } else {
                    LinkTask {
                        stage: LinkStage::Done,
                        status: String::from_str("Stow package doesn't exists."),
                        ..self
                    }
                },
                _ => self,
            },
            LinkStage::Home => match reply {
                Reply::Home(Some(home)) => LinkTask { stage: LinkStage::First, home, ..self },
                Reply::Home(None) => LinkTask {
                    stage: LinkStage::Fatal,
                    status: no_home_status(),
                    ..self
                },
                _ => self,
            },
            LinkStage::First => match reply {
                Reply::Flag(found) => if found {
                    let root = self.home.clone().concat("/dotfiles");
                    LinkTask { stage: LinkStage::Stow, root, ..self }
                } else {
                    LinkTask { stage: LinkStage::Second, ..self }
                },
                _ => self,
            },
            LinkStage::Second => match reply {
                Reply::Flag(found) => if found {
                    let root = self.home.clone().concat("/.dotfiles");
                    LinkTask { stage: LinkStage::Stow, root, ..self }
                } else {
                    LinkTask {
                        stage: LinkStage::Fatal,
                        status: String::from_str("Dotfiles directory not found in $HOME/.dotfiles"),
                        ..self
                    }
                },
                _ => self,
            },
            LinkStage::Stow => match reply {
                Reply::Process(outcome) => {
                    let status = if outcome.succeeded() {
                        String::from_str("Packages stowed succesfully.")
                    } else {
                        outcome.failure_status()
                    };
                    LinkTask { stage: LinkStage::Done, status, ..self }
                },
                _ => self,
            },
            _ => self,
        }
    }
}

/// Whether a directory entry is a package: a directory with a readable name
/// that is not hidden.
pub open spec fn is_package(entry: DirEntryView) -> bool {
    entry.kind is Directory && entry.name is Some && !hidden(entry.name->0)
}

/// The packages among the entries of a directory, in the order of the
/// listing.
pub open spec fn packages_in(listing: Seq<DirEntryView>) -> Seq<Seq<char>> {
    listing.filter(|e: DirEntryView| is_package(e)).map_values(|e: DirEntryView| e.name->0)
}

/// One more entry adds its name at the end if it is a package, and nothing
/// if it is not.
pub proof fn lemma_packages_push(listing: Seq<DirEntryView>, next: DirEntryView)
    ensures
        packages_in(listing.push(next)) == if is_package(next) {
            packages_in(listing).push(next.name->0)
        } else {
            packages_in(listing)
        },
{
    let longer = listing.push(next);
    assert(longer.drop_last() =~= listing);
    reveal(Seq::filter);
    let keep = |e: DirEntryView| is_package(e);
    if is_package(next) {
        assert(longer.filter(keep) =~= listing.filter(keep).push(next));
        assert(packages_in(longer) =~= packages_in(listing).push(next.name->0));
    } else {
        assert(longer.filter(keep) =~= listing.filter(keep));
    }
}

/// Picks the packages out of a directory listing.
pub fn discover(listing: &Vec<DirEntry>) -> (r: Vec<String>)
    ensures
        texts(r@) == packages_in(entries(listing@)),
{
    let mut r: Vec<String> = Vec::new();
    let ghost all = entries(listing@);
    let mut i: usize = 0;
    proof {
        reveal(Seq::filter);
        assert(texts(r@) =~= packages_in(all.take(0)));
    }
    while i < listing.len()
        invariant
            i <= listing.len(),
            all == entries(listing@),
            texts(r@) == packages_in(all.take(i as int)),
        decreases listing.len() - i,
    {
        proof {
            lemma_packages_push(all.take(i as int), all[i as int]);
            assert(all.take(i as int).push(all[i as int]) =~= all.take(i + 1));
        }
        let entry = &listing[i];
        match entry.kind {
            EntryKind::Directory => match &entry.name {
                Some(name) => {
                    if !is_hidden(name.as_str()) {
                        let ghost before = r@;
                        r.push(name.clone());
                        assert(texts(r@) =~= texts(before).push(name@));
                    }
                },
                None => {},
            },
            _ => {},
        }
        i += 1;
    }
    assert(all.take(listing.len() as int) =~= all);
    r
}

/// The command that unlinks `package` of the repository at `path` from
/// `home`.
pub open spec fn unlink_command(path: Seq<char>, home: Seq<char>, package: Seq<char>)
    -> CommandView {
    plain("stow"@, seq!["-D"@, "-v"@, "-d"@, path, "-t"@, home, package])
}

/// Where an unlink task stands.
#[derive(Debug, Clone, Copy, PartialEq, Eq)]
pub enum UnlinkStage {
    /// Waiting for the probe of the symlink tool.
    Tool,
    /// Waiting for the home directory.
    Home,
    /// Waiting to hear whether the repository is there.
    Exists,
    /// Waiting for the repository's entries.
    List,
    /// Waiting for the symlink tool on the next package.
    Each,
    /// Over; `status` is final.
    Done,
    /// Over for want of a precondition; `status` says which.
    Fatal,
}

/// Unlinking in progress. Every package that the repository holds gets a
/// command of its own, and what one of them comes to has no part in whether
/// the others are tried.
#[derive(Debug, PartialEq, Eq)]
pub struct UnlinkTask {
    pub stage: UnlinkStage,
    /// The home directory, once known.
    pub home: String,
    /// The repository, once the home directory is known.
    pub path: String,
    /// The packages found in the repository, in the order of its listing.
    pub packages: Vec<String>,
    /// How the commands came out so far: one outcome for each package that
    /// was tried, in the same order.
    pub outcomes: Vec<ProcessOutcome>,
    /// The status, once the task is over.
    pub status: String,
}

/// What a [`UnlinkTask`] stands for in contracts.
pub struct UnlinkTaskView {
    pub stage: UnlinkStage,
    pub home: Seq<char>,
    pub path: Seq<char>,
    pub packages: Seq<Seq<char>>,
    pub outcomes: Seq<ProcessOutcomeView>,
    pub status: Seq<char>,
}

impl View for UnlinkTask {
    type V = UnlinkTaskView;

    open spec fn view(&self) -> UnlinkTaskView {
        UnlinkTaskView {
            stage: self.stage,
            home: self.home@,
            path: self.path@,
            packages: texts(self.packages@),
            outcomes: outcome_views(self.outcomes@),
            status: self.status@,
        }
    }
}

impl UnlinkTaskView {
    /// The task before anything was asked.
    pub open spec fn begin() -> UnlinkTaskView {
        UnlinkTaskView {
            stage: UnlinkStage::Tool,
            home: Seq::empty(),
            path: Seq::empty(),
            packages: Seq::empty(),
            outcomes: Seq::empty(),
            status: Seq::empty(),
        }
    }

    /// Whether the task is over.
    pub open spec fn over(self) -> bool {
        self.stage is Done || self.stage is Fatal
    }

    /// What the batch has come to so far.
    pub open spec fn result(self) -> BatchResultView {
        tally(attempts(self.packages, self.outcomes))
    }

    /// What the task is waiting for.
    pub open spec fn request(self) -> RequestView {
        match self.stage {
            UnlinkStage::Tool => RequestView::Run(tool_probe()),
            UnlinkStage::Home => RequestView::HomeDir,
            UnlinkStage::Exists => RequestView::Exists(self.path),
            UnlinkStage::List => RequestView::ListDir(self.path),
            UnlinkStage::Each => if self.outcomes.len() < self.packages.len() {
                RequestView::Run(
                    unlink_command(self.path, self.home, self.packages[self.outcomes.len() as int]),
                )
            } else {
                RequestView::Finished
            },
            UnlinkStage::Done => RequestView::Finished,
            UnlinkStage::Fatal => RequestView::Abort,
        }
    }

    /// The task, over with `status`.
    pub open spec fn done(self, status: Seq<char>) -> UnlinkTaskView {
        UnlinkTaskView { stage: UnlinkStage::Done, status, ..self }
    }

    /// The task with `packages` to handle and `outcomes` in hand: over with
    /// the batch's status once every package has its outcome, else waiting
    /// for the next.
    pub open spec fn proceed(
        self,
        packages: Seq<Seq<char>>,
        outcomes: Seq<ProcessOutcomeView>,
    ) -> UnlinkTaskView {
        let next = UnlinkTaskView { stage: UnlinkStage::Each, packages, outcomes, ..self };
        if outcomes.len() < packages.len() {
            next
        } else {
            next.done(next.result().status())
        }
    }

    /// The task after the host's reply. Without the tool, or without the
    /// repository, nothing is tried. Each outcome is recorded and the next
    /// package is tried whatever the outcome was. A reply that does not
    /// answer what the task is waiting for leaves the task as it is.
    pub open spec fn advance(self, reply: ReplyView) -> UnlinkTaskView {
        match (self.stage, reply) {
            (UnlinkStage::Tool, ReplyView::Process(outcome)) => if outcome.succeeded() {
                UnlinkTaskView { stage: UnlinkStage::Home, ..self }
            } else {
                self.done("stow is not installed. Install it first."@)
            },
            (UnlinkStage::Home, ReplyView::Home(Some(home))) => UnlinkTaskView {
                stage: UnlinkStage::Exists,
                home,
                path: repository_path(home),
                ..self
            },
            (UnlinkStage::Home, ReplyView::Home(None)) => UnlinkTaskView {
                stage: UnlinkStage::Fatal,
                status: no_home(),
                ..self
            },
            (UnlinkStage::Exists, ReplyView::Flag(found)) => if found {
                UnlinkTaskView { stage: UnlinkStage::List, ..self }
            } else {
                self.done("Dotfiles directory not found. Clone the repository first."@)
            },
            (UnlinkStage::List, ReplyView::Listing(listing)) => self.proceed(
                packages_in(listing),
                Seq::empty(),
            ),
            (UnlinkStage::List, ReplyView::Failed(reason)) => self.done(
                "Failed to read dotfiles directory: "@ + reason,
            ),
            (UnlinkStage::Each, ReplyView::Process(outcome)) => if self.outcomes.len()
                < self.packages.len() {
                self.proceed(self.packages, self.outcomes.push(outcome))
            } else {
                self.proceed(self.packages, self.outcomes)
            },
            _ => self,
        }
    }
}

fn unlink_command_for(path: &String, home: &String, package: &String) -> (r: Command)
    ensures
        r@ == unlink_command(path@, home@, package@),
{
    let mut args: Vec<String> = Vec::new();
    push_text(&mut args, "-D");
    push_text(&mut args, "-v");
    push_text(&mut args, "-d");
    push_text(&mut args, path.as_str());
    push_text(&mut args, "-t");
    push_text(&mut args, home.as_str());
    push_text(&mut args, package.as_str());
    assert(texts(args@) =~= unlink_command(path@, home@, package@).args);
    Command { program: String::from_str("stow"), args, dir: None }
}

impl UnlinkTask {
    /// Starts unlinking: the first thing asked is the probe of the symlink
    /// tool.
    pub fn begin() -> (task: UnlinkTask)
        ensures
            task@ == UnlinkTaskView::begin(),
    {
        let task = UnlinkTask {
            stage: UnlinkStage::Tool,
            home: String::new(),
            path: String::new(),
            packages: Vec::new(),
            outcomes: Vec::new(),
            status: String::new(),
        };
        assert(task@.packages =~= Seq::<Seq<char>>::empty());
        assert(task@.outcomes =~= Seq::<ProcessOutcomeView>::empty());
        task
    }

    /// Tells whether the task is over.
    pub fn over(&self) -> (r: bool)
        ensures
            r == self@.over(),
    {
        match self.stage {
            UnlinkStage::Done | UnlinkStage::Fatal => true,
            _ => false,
        }
    }

    /// What the batch has come to so far.
    pub fn result(&self) -> (r: BatchResult)
        ensures
            r@ == self@.result(),
    {
        BatchResult::tally(&self.packages, &self.outcomes)
    }

    /// What the host has to do next.
    pub fn request(&self) -> (r: Request)
        ensures
            r@ == self@.request(),
    {
        match self.stage {
            UnlinkStage::Tool => Request::Run(command1("stow", "--version")),
            UnlinkStage::Home => Request::HomeDir,
            UnlinkStage::Exists => Request::Exists(self.path.clone()),
            UnlinkStage::List => Request::ListDir(self.path.clone()),
            UnlinkStage::Each => if self.outcomes.len() < self.packages.len() {
                Request::Run(
                    unlink_command_for(
                        &self.path,
                        &self.home,
                        &self.packages[self.outcomes.len()],
                    ),
                )
            } else {
                Request::Finished
            },
            UnlinkStage::Done => Request::Finished,
            UnlinkStage::Fatal => Request::Abort,
        }
    }

    fn done(self, status: String) -> (task: UnlinkTask)
        ensures
            task@ == self@.done(status@),
    {
        UnlinkTask { stage: UnlinkStage::Done, status, ..self }
    }

    fn proceed(self, packages: Vec<String>, outcomes: Vec<ProcessOutcome>) -> (task: UnlinkTask)
        ensures
            task@ == self@.proceed(texts(packages@), outcome_views(outcomes@)),
    {
        let finished = outcomes.len() >= packages.len();
        let next = UnlinkTask { stage: UnlinkStage::Each, packages, outcomes, ..self };
        if finished {
            let status = next.result().status();
            next.done(status)
        } else {
            next
        }
    }

    /// Takes the host's reply and moves on.
    pub fn advance(self, reply: Reply) -> (task: UnlinkTask)
        ensures
            task@ == self@.advance(reply@),
    {
        match self.stage {
            UnlinkStage::Tool => match reply {
                Reply::Process(outcome) => if outcome.succeeded() {
                    UnlinkTask { stage: UnlinkStage::Home, ..self }
                } else {
                    self.done(String::from_str("stow is not installed. Install it first."))
                },
                _ => self,
            },
            UnlinkStage::Home => match reply {
                Reply::Home(Some(home)) => {
                    let path = repository_path_of(&home);
                    UnlinkTask { stage: UnlinkStage::Exists, home, path, ..self }
                },
                Reply::Home(None) => UnlinkTask {
                    stage: UnlinkStage::Fatal,
                    status: no_home_status(),
                    ..self
                },
                _ => self,
            },
            UnlinkStage::Exists => match reply {
                Reply::Flag(found) => if found {
                    UnlinkTask { stage: UnlinkStage::List, ..self }
                } else {
                    self.done(
                        String::from_str(
                            "Dotfiles directory not found. Clone the repository first.",
                        ),
                    )
                },
                _ => self,
            },
            UnlinkStage::List => match reply {
                Reply::Listing(listing) => {
                    let packages = discover(&listing);
                    let outcomes: Vec<ProcessOutcome> = Vec::new();
                    assert(outcome_views(outcomes@) =~= Seq::<ProcessOutcomeView>::empty());
                    self.proceed(packages, outcomes)
                },
                Reply::Failed(reason) => {
                    let status = String::from_str("Failed to read dotfiles directory: ").concat(
                        reason.as_str(),
                    );
                    self.done(status)
                },
                _ => self,
            },
            UnlinkStage::Each => match reply {
                Reply::Process(outcome) => {
                    let UnlinkTask { stage, home, path, packages, outcomes, status } = self;
                    let mut outcomes = outcomes;
                    if outcomes.len() < packages.len() {
                        let ghost before = outcomes@;
                        outcomes.push(outcome);
                        assert(outcome_views(outcomes@) =~= outcome_views(before).push(outcome@));
                    }
                    let rest = UnlinkTask {
                        stage,
                        home,
                        path,
                        packages: Vec::new(),
                        outcomes: Vec::new(),
                        status,
                    };
                    rest.proceed(packages, outcomes)
                },
                _ => self,
            },
            _ => self,
        }
    }
}

impl UnlinkTaskView {
    /// The task after the outcomes of as many commands, one after another.
    pub open spec fn feed(self, outcomes: Seq<ProcessOutcomeView>) -> UnlinkTaskView
        decreases outcomes.len(),
    {
        if outcomes.len() == 0 {
            self
        } else {
            self.advance(ReplyView::Process(outcomes[0])).feed(outcomes.drop_first())
        }
    }
}

/// No package's outcome stops the batch: while packages are left, every
/// outcome, good or bad, is recorded in its place and the next package is
/// asked for; after the last one the task is over, and its status is that of
/// the batch as a whole.
pub proof fn lemma_unlink_batch(task: UnlinkTaskView, outcomes: Seq<ProcessOutcomeView>)
    requires
        task.stage is Each,
        task.outcomes.len() < task.packages.len(),
        task.outcomes.len() + outcomes.len() <= task.packages.len(),
    ensures
        ({
            let all = task.outcomes + outcomes;
            let end = task.feed(outcomes);
            &&& end.packages == task.packages
            &&& end.outcomes == all
            &&& end.home == task.home
            &&& end.path == task.path
            &&& all.len() < task.packages.len() ==> {
                &&& end.stage is Each
                &&& end.request() == RequestView::Run(
                    unlink_command(task.path, task.home, task.packages[all.len() as int]),
                )
            }
            &&& all.len() == task.packages.len() ==> {
                &&& end.stage is Done
                &&& end.request() == RequestView::Finished
                &&& end.status == tally(attempts(task.packages, all)).status()
            }
        }),
    decreases outcomes.len(),
{
    if outcomes.len() == 0 {
        assert(task.outcomes + outcomes =~= task.outcomes);
    } else {
        let next = task.advance(ReplyView::Process(outcomes[0]));
        let rest = outcomes.drop_first();
        assert(task.outcomes.push(outcomes[0]) + rest =~= task.outcomes + outcomes);
        if next.outcomes.len() < next.packages.len() {
            lemma_unlink_batch(next, rest);
        } else {
            assert(rest.len() == 0);
            assert(next.outcomes + rest =~= next.outcomes);
        }
    }
}

/// A repository that is not there, and one that holds no package, each have
/// a status of their own: nothing is tried and nothing is called a success.
pub proof fn lemma_nothing_to_unlink(task: UnlinkTaskView, listing: Seq<DirEntryView>)
    ensures
        task.stage is Exists ==> {
            let end = task.advance(ReplyView::Flag(false));
            &&& end.stage is Done
            &&& end.status == "Dotfiles directory not found. Clone the repository first."@
            &&& end.request() == RequestView::Finished
        },
        task.stage is List && packages_in(listing).len() == 0 ==> {
            let end = task.advance(ReplyView::Listing(listing));
            &&& end.stage is Done
            &&& end.status == "No dotfiles were found to unstow."@
            &&& end.request() == RequestView::Finished
        },
{
    let none = attempts(packages_in(listing), Seq::empty());
    assert(none =~= Seq::empty());
    reveal(Seq::filter);
    assert(tally(none).successes == 0);
    assert(tally(none).failures =~= Seq::empty());
}

/// Whether `name` is the name of a package among the entries of `listing`.
pub open spec fn holds_package(listing: Seq<DirEntryView>, name: Seq<char>) -> bool {
    exists|j: int|
        0 <= j < listing.len() && is_package(#[trigger] listing[j]) && listing[j].name == Some(
            name,
        )
}

/// The hidden entries of a repository, its plain files and whatever the host
/// could not read are no packages: every package is a directory of the
/// listing with a name that is not hidden.
pub proof fn lemma_packages_are_visible_directories(listing: Seq<DirEntryView>)
    ensures
        packages_in(listing).len() <= listing.len(),
        forall|i: int|
            0 <= i < packages_in(listing).len() ==> holds_package(
                listing,
                #[trigger] packages_in(listing)[i],
            ),
    decreases listing.len(),
{
    reveal(Seq::filter);
    if listing.len() > 0 {
        let front = listing.drop_last();
        lemma_packages_are_visible_directories(front);
        assert(front.push(listing.last()) =~= listing);
        lemma_packages_push(front, listing.last());
        assert forall|i: int| 0 <= i < packages_in(listing).len() implies holds_package(
            listing,
            #[trigger] packages_in(listing)[i],
        ) by {
            if i < packages_in(front).len() {
                assert(holds_package(front, packages_in(front)[i]));
                let j = choose|j: int|
                    0 <= j < front.len() && is_package(#[trigger] front[j]) && front[j].name
                        == Some(packages_in(front)[i]);
                assert(listing[j] == front[j]);
            } else {
                let j = listing.len() - 1;
                assert(is_package(listing[j]));
            }
        }
    } else {
        assert(packages_in(listing) =~= Seq::empty());
    }
}

/// Without the symlink tool neither operation tries anything: each ends at
/// once, with a status of its own, and asks for nothing more.
pub proof fn lemma_tool_comes_first(outcome: ProcessOutcomeView, packages: Seq<Seq<char>>)
    requires
        !outcome.succeeded(),
    ensures
        ({
            let link = LinkTaskView::begin(packages);
            let end = link.advance(ReplyView::Process(outcome));
            &&& link.request() == RequestView::Run(tool_probe())
            &&& end.stage is Done
            &&& end.status == "Stow package doesn't exists."@
            &&& end.request() == RequestView::Finished
        }),
        ({
            let unlink = UnlinkTaskView::begin();
            let end = unlink.advance(ReplyView::Process(outcome));
            &&& unlink.request() == RequestView::Run(tool_probe())
            &&& end.stage is Done
            &&& end.status == "stow is not installed. Install it first."@
            &&& end.request() == RequestView::Finished
        }),
{
}

/// The tree to link is looked for in two places below the home directory,
/// in a fixed order: the first that is a directory is taken; the second is
/// not even asked about when the first is one; and with neither the task
/// stops for good. All packages are then linked by one command, run in the
/// tree.
pub proof fn lemma_link_root(task: LinkTaskView, first: bool, second: bool)
    requires
        task.stage is First,
    ensures
        task.request() == RequestView::IsDir(first_root(task.home)),
        first ==> task.advance(ReplyView::Flag(true)).request() == RequestView::Run(
            link_command(first_root(task.home), task.packages),
        ),
        !first ==> task.advance(ReplyView::Flag(false)).request() == RequestView::IsDir(
            second_root(task.home),
        ),
        !first && second ==> task.advance(ReplyView::Flag(false)).advance(
            ReplyView::Flag(true),
        ).request() == RequestView::Run(link_command(second_root(task.home), task.packages)),
        !first && !second ==> {
            let end = task.advance(ReplyView::Flag(false)).advance(ReplyView::Flag(false));
            &&& end.stage is Fatal
            &&& end.request() == RequestView::Abort
            &&& end.status == "Dotfiles directory not found in $HOME/.dotfiles"@
        },
{
}

/// Linking succeeds or fails as a whole: one outcome of one command gives
/// the status, which is the tool's complaint if it failed and left one.
pub proof fn lemma_link_is_one_batch(task: LinkTaskView, outcome: ProcessOutcomeView)
    requires
        task.stage is Stow,
    ensures
        ({
            let end = task.advance(ReplyView::Process(outcome));
            &&& end.stage is Done
            &&& end.request() == RequestView::Finished
            &&& outcome.succeeded() ==> end.status == "Packages stowed succesfully."@
            &&& !outcome.succeeded() ==> end.status == outcome.failure_status()
        }),
{
}

/// Neither operation ever ends without a word: whatever brings the task to
/// its end leaves a status that is not empty.
pub proof fn lemma_stow_status_says_something(
    link: LinkTaskView,
    unlink: UnlinkTaskView,
    reply: ReplyView,
)
    ensures
        !link.over() && link.advance(reply).over() ==> link.advance(reply).status.len() > 0,
        !unlink.over() && unlink.advance(reply).over() ==> unlink.advance(reply).status.len() > 0,
{
    reveal_strlit("Stow package doesn't exists.");
    reveal_strlit("Dotfiles directory not found in $HOME/.dotfiles");
    reveal_strlit("Packages stowed succesfully.");
    reveal_strlit("stow is not installed. Install it first.");
    reveal_strlit("Dotfiles directory not found. Clone the repository first.");
    reveal_strlit("Failed to read dotfiles directory: ");
    match reply {
        ReplyView::Process(outcome) => {
            lemma_failure_status_says_something(outcome);
        },
        _ => {
            lemma_failure_status_says_something(ProcessOutcomeView::NotStarted(Seq::empty()));
        },
    }
    let next = unlink.advance(reply);
    if !unlink.over() && next.over() && next.stage is Done {
        lemma_batch_status_says_something(tally(attempts(next.packages, next.outcomes)));
    }
}

} // verus!
