//! The boundary between the engine and its host.
//!
//! The engine never starts a program, touches the file system or talks to a
//! remote. It hands the host a [`Request`], and the host hands back a
//! [`Reply`] that holds the answer as plain values.

use crate::text::texts;
use vstd::prelude::*;
use vstd::string::StringExecFns;

verus! {

/// The view of an optional string.
pub open spec fn maybe_text(s: Option<String>) -> Option<Seq<char>> {
    match s {
        Some(t) => Some(t@),
        None => None,
    }
}

/// An external program with its arguments and, optionally, the directory it
/// is to be started in.
#[derive(Debug, Clone, PartialEq, Eq)]
pub struct Command {
    pub program: String,
    pub args: Vec<String>,
    pub dir: Option<String>,
}

/// What a [`Command`] stands for in contracts.
pub struct CommandView {
    pub program: Seq<char>,
    pub args: Seq<Seq<char>>,
    pub dir: Option<Seq<char>>,
}

impl View for Command {
    type V = CommandView;

    open spec fn view(&self) -> CommandView {
        CommandView { program: self.program@, args: texts(self.args@), dir: maybe_text(self.dir) }
    }
}

/// How a program that the host was asked to run and wait for came out.
#[derive(Debug, Clone, PartialEq, Eq)]
pub enum ProcessOutcome {
    /// The program could not be started; the text is the system's reason.
    NotStarted(String),
    /// The program ran to its end. `success` tells whether its exit code was
    /// zero, `stderr` is what it wrote to standard error.
    Exited { success: bool, stderr: String },
}

/// What a [`ProcessOutcome`] stands for in contracts.
pub enum ProcessOutcomeView {
    NotStarted(Seq<char>),
    Exited { success: bool, stderr: Seq<char> },
}

impl View for ProcessOutcome {
    type V = ProcessOutcomeView;

    open spec fn view(&self) -> ProcessOutcomeView {
        match self {
            ProcessOutcome::NotStarted(reason) => ProcessOutcomeView::NotStarted(reason@),
            ProcessOutcome::Exited { success, stderr } => ProcessOutcomeView::Exited {
                success: *success,
                stderr: stderr@,
            },
        }
    }
}

impl ProcessOutcomeView {
    /// A program succeeded when it was started and ended with exit code zero.
    /// Nothing else counts as a failure signal, and nothing else as success.
    pub open spec fn succeeded(self) -> bool {
        self matches ProcessOutcomeView::Exited { success, .. } && success
    }

    /// What a failed program has to say for itself: the system's reason when
    /// it could not be started, its standard error when it ended badly.
    pub open spec fn complaint(self) -> Seq<char> {
        match self {
            ProcessOutcomeView::NotStarted(reason) => reason,
            ProcessOutcomeView::Exited { stderr, .. } => stderr,
        }
    }

    /// The status line of a failed program: its complaint, and a sentence
    /// that says as much where it left none.
    pub open spec fn failure_status(self) -> Seq<char> {
        if self.complaint().len() == 0 {
            silent_failure()
        } else {
            self.complaint()
        }
    }
}

/// The status line of a program that failed without a word.
pub open spec fn silent_failure() -> Seq<char> {
    "The command failed without an error message."@
}

impl ProcessOutcome {
    /// Tells whether the program was started and ended with exit code zero.
    pub fn succeeded(&self) -> (r: bool)
        ensures
            r == self@.succeeded(),
    {
        match self {
            ProcessOutcome::NotStarted(_) => false,
            ProcessOutcome::Exited { success, .. } => *success,
        }
    }

    /// The text that goes with a failure: the reason the program could not be
    /// started, or what it wrote to standard error.
    pub fn complaint(&self) -> (r: String)
        ensures
            r@ == self@.complaint(),
    {
        match self {
            ProcessOutcome::NotStarted(reason) => reason.clone(),
            ProcessOutcome::Exited { stderr, .. } => stderr.clone(),
        }
    }

    /// Words the status line of a failed program: its complaint, and a
    /// sentence that says as much where it left none.
    pub fn failure_status(&self) -> (r: String)
        ensures
            r@ == self@.failure_status(),
    {
        let complaint = self.complaint();
        if complaint.as_str().unicode_len() == 0 {
            String::from_str("The command failed without an error message.")
        } else {
            complaint
        }
    }
}

/// What kind of thing a directory entry is, as far as the host could tell.
#[derive(Debug, Clone, Copy, PartialEq, Eq)]
pub enum EntryKind {
    Directory,
    Other,
    /// The host could not read the entry or its type.
    Unknown,
}

/// One entry of a directory listing. `name` is `None` when the entry's name
/// is not valid UTF-8 or could not be read.
#[derive(Debug, Clone, PartialEq, Eq)]
pub struct DirEntry {
    pub name: Option<String>,
    pub kind: EntryKind,
}

/// What a [`DirEntry`] stands for in contracts.
pub struct DirEntryView {
    pub name: Option<Seq<char>>,
    pub kind: EntryKind,
}

impl View for DirEntry {
    type V = DirEntryView;

    open spec fn view(&self) -> DirEntryView {
        DirEntryView { name: maybe_text(self.name), kind: self.kind }
    }
}

/// The views of a directory listing, entry by entry.
pub open spec fn entries(items: Seq<DirEntry>) -> Seq<DirEntryView> {
    items.map_values(|e: DirEntry| e@)
}

/// The state a repository is in with respect to operations that span
/// several steps, as the version-control library reports it.
#[derive(Debug, Clone, Copy, PartialEq, Eq)]
pub enum RepositoryState {
    Clean,
    Merge,
    Revert,
    RevertSequence,
    CherryPick,
    CherryPickSequence,
    Bisect,
    Rebase,
    RebaseInteractive,
    RebaseMerge,
    ApplyMailbox,
    ApplyMailboxOrRebase,
}

/// Who makes a commit, and when: what the version-control library calls a
/// signature, as plain values.
#[derive(Debug, Clone, PartialEq, Eq)]
pub struct Identity {
    pub name: String,
    pub email: String,
    /// The time in seconds since the epoch.
    pub seconds: i64,
    /// The offset of the time zone, in minutes.
    pub offset: i32,
}

/// What an [`Identity`] stands for in contracts.
pub struct IdentityView {
    pub name: Seq<char>,
    pub email: Seq<char>,
    pub seconds: i64,
    pub offset: i32,
}

impl View for Identity {
    type V = IdentityView;

    open spec fn view(&self) -> IdentityView {
        IdentityView {
            name: self.name@,
            email: self.email@,
            seconds: self.seconds,
            offset: self.offset,
        }
    }
}

impl Identity {
    /// A copy of the identity.
    pub fn copy(&self) -> (r: Identity)
        ensures
            r@ == self@,
    {
        Identity {
            name: self.name.clone(),
            email: self.email.clone(),
            seconds: self.seconds,
            offset: self.offset,
        }
    }
}

/// A primitive of the version-control library. The host keeps the handles
/// (repository, remote, reference, annotated commit, index) that earlier
/// primitives of the same operation produced and uses them for later ones.
/// Commits, trees and signatures go back and forth as plain values.
#[derive(Debug, PartialEq, Eq)]
pub enum GitRequest {
    /// Clone `url` into `path`.
    Clone { url: String, path: String },
    /// Open the repository at the given path.
    Open(String),
    /// Look up the remote of the given name.
    FindRemote(String),
    /// Fetch from the remote with the given refspec.
    Fetch(String),
    /// Resolve `HEAD`. Answered with [`Reply::Head`].
    Head,
    /// Look up the reference of the given full name.
    FindReference(String),
    /// Turn the reference found last into an annotated commit.
    AnnotatedCommit,
    /// Peel the reference found last to its commit. Answered with
    /// [`Reply::Id`].
    PeelToCommit,
    /// Load the repository's index.
    Index,
    /// Merge the annotated commit into the working tree and the index, with
    /// the library's normal handling of conflicting files.
    Merge,
    /// Ask the index loaded before the merge whether it holds conflicts.
    /// Answered with [`Reply::Flag`].
    HasConflicts,
    /// Ask for the repository's state. Answered with [`Reply::State`].
    State,
    /// Tell whether `ancestor` is an ancestor of `commit`. A commit is no
    /// ancestor of itself. Answered with [`Reply::Flag`].
    DescendantOf { commit: String, ancestor: String },
    /// Make the signature that the repository's configuration gives.
    /// Answered with [`Reply::Identity`].
    Signature,
    /// Write the index to disk.
    WriteIndex,
    /// Write the index as a tree. Answered with [`Reply::Id`], the id of
    /// the tree.
    WriteTree,
    /// Look up the tree of the given id.
    FindTree(String),
    /// Peel `HEAD` to its commit. Answered with [`Reply::Id`].
    HeadCommit,
    /// Commit the tree of the id `tree`, in the name of `author` and
    /// `committer`, on top of `parents`, and move `reference` to the result.
    Commit {
        reference: String,
        message: String,
        tree: String,
        author: Identity,
        committer: Identity,
        parents: Vec<String>,
    },
    /// Remove what marks the repository as being in the middle of a merge.
    CleanupState,
}

/// What a [`GitRequest`] stands for in contracts.
pub enum GitRequestView {
    Clone { url: Seq<char>, path: Seq<char> },
    Open(Seq<char>),
    FindRemote(Seq<char>),
    Fetch(Seq<char>),
    Head,
    FindReference(Seq<char>),
    AnnotatedCommit,
    PeelToCommit,
    Index,
    Merge,
    HasConflicts,
    State,
    DescendantOf { commit: Seq<char>, ancestor: Seq<char> },
    Signature,
    WriteIndex,
    WriteTree,
    FindTree(Seq<char>),
    HeadCommit,
    Commit {
        reference: Seq<char>,
        message: Seq<char>,
        tree: Seq<char>,
        author: IdentityView,
        committer: IdentityView,
        parents: Seq<Seq<char>>,
    },
    CleanupState,
}

impl View for GitRequest {
    type V = GitRequestView;

    open spec fn view(&self) -> GitRequestView {
        match self {
            GitRequest::Clone { url, path } => GitRequestView::Clone { url: url@, path: path@ },
            GitRequest::Open(path) => GitRequestView::Open(path@),
            GitRequest::FindRemote(name) => GitRequestView::FindRemote(name@),
            GitRequest::Fetch(refspec) => GitRequestView::Fetch(refspec@),
            GitRequest::Head => GitRequestView::Head,
            GitRequest::FindReference(name) => GitRequestView::FindReference(name@),
            GitRequest::AnnotatedCommit => GitRequestView::AnnotatedCommit,
            GitRequest::PeelToCommit => GitRequestView::PeelToCommit,
            GitRequest::Index => GitRequestView::Index,
            GitRequest::Merge => GitRequestView::Merge,
            GitRequest::HasConflicts => GitRequestView::HasConflicts,
            GitRequest::State => GitRequestView::State,
            GitRequest::DescendantOf { commit, ancestor } => GitRequestView::DescendantOf {
                commit: commit@,
                ancestor: ancestor@,
            },
            GitRequest::Signature => GitRequestView::Signature,
            GitRequest::WriteIndex => GitRequestView::WriteIndex,
            GitRequest::WriteTree => GitRequestView::WriteTree,
            GitRequest::FindTree(tree) => GitRequestView::FindTree(tree@),
            GitRequest::HeadCommit => GitRequestView::HeadCommit,
            GitRequest::Commit {
                reference,
                message,
                tree,
                author,
                committer,
                parents,
            } => GitRequestView::Commit {
                reference: reference@,
                message: message@,
                tree: tree@,
                author: author@,
                committer: committer@,
                parents: texts(parents@),
            },
            GitRequest::CleanupState => GitRequestView::CleanupState,
        }
    }
}

/// What the engine wants the host to do next.
#[derive(Debug, PartialEq, Eq)]
pub enum Request {
    /// Start the program, wait until it ends and capture its standard error.
    /// Answered with [`Reply::Process`].
    Run(Command),
    /// Start the program and do not wait for it. Answered with
    /// [`Reply::Done`] when it was started and [`Reply::Failed`] when not.
    Launch(Command),
    /// Read the home directory from the environment. Answered with
    /// [`Reply::Home`].
    HomeDir,
    /// Tell whether the path is a directory. Answered with [`Reply::Flag`].
    IsDir(String),
    /// Tell whether the path exists. Answered with [`Reply::Flag`].
    Exists(String),
    /// List the entries of the directory. Answered with [`Reply::Listing`],
    /// or with [`Reply::Failed`] when the directory could not be read.
    ListDir(String),
    /// Call into the version-control library. Answered with [`Reply::Done`]
    /// or [`Reply::Failed`] unless the primitive says otherwise.
    Git(GitRequest),
    /// Nothing is left to do: the status is final.
    Finished,
    /// A precondition that nothing can repair does not hold; the status says
    /// which. The host is expected to stop.
    Abort,
}

/// What a [`Request`] stands for in contracts.
pub enum RequestView {
    Run(CommandView),
    Launch(CommandView),
    HomeDir,
    IsDir(Seq<char>),
    Exists(Seq<char>),
    ListDir(Seq<char>),
    Git(GitRequestView),
    Finished,
    Abort,
}

impl View for Request {
    type V = RequestView;

    open spec fn view(&self) -> RequestView {
        match self {
            Request::Run(command) => RequestView::Run(command@),
            Request::Launch(command) => RequestView::Launch(command@),
            Request::HomeDir => RequestView::HomeDir,
            Request::IsDir(path) => RequestView::IsDir(path@),
            Request::Exists(path) => RequestView::Exists(path@),
            Request::ListDir(path) => RequestView::ListDir(path@),
            Request::Git(call) => RequestView::Git(call@),
            Request::Finished => RequestView::Finished,
            Request::Abort => RequestView::Abort,
        }
    }
}

impl RequestView {
    /// Whether the request ends an operation.
    pub open spec fn terminal(self) -> bool {
        self is Finished || self is Abort
    }
}

/// The host's answer to a request.
#[derive(Debug, PartialEq, Eq)]
pub enum Reply {
    /// How a program that was run came out.
    Process(ProcessOutcome),
    /// The home directory, or `None` when the environment names none.
    Home(Option<String>),
    /// The answer to a yes-or-no question.
    Flag(bool),
    /// The entries of a directory, in the order the system gave them.
    Listing(Vec<DirEntry>),
    /// The step was carried out.
    Done,
    /// The step failed; the text is the reason exactly as the system or the
    /// version-control library worded it.
    Failed(String),
    /// What `HEAD` resolves to: the short name of the branch, if it has one,
    /// and the id of the commit it points at, if it points at one.
    Head { branch: Option<String>, target: Option<String> },
    /// The id of a commit or of a tree.
    Id(String),
    /// The repository's state.
    State(RepositoryState),
    /// The signature that was made.
    Identity(Identity),
}

/// What a [`Reply`] stands for in contracts.
pub enum ReplyView {
    Process(ProcessOutcomeView),
    Home(Option<Seq<char>>),
    Flag(bool),
    Listing(Seq<DirEntryView>),
    Done,
    Failed(Seq<char>),
    Head { branch: Option<Seq<char>>, target: Option<Seq<char>> },
    Id(Seq<char>),
    State(RepositoryState),
    Identity(IdentityView),
}

impl View for Reply {
    type V = ReplyView;

    open spec fn view(&self) -> ReplyView {
        match self {
            Reply::Process(outcome) => ReplyView::Process(outcome@),
            Reply::Home(home) => ReplyView::Home(maybe_text(*home)),
            Reply::Flag(flag) => ReplyView::Flag(*flag),
            Reply::Listing(items) => ReplyView::Listing(entries(items@)),
            Reply::Done => ReplyView::Done,
            Reply::Failed(reason) => ReplyView::Failed(reason@),
            Reply::Head { branch, target } => ReplyView::Head {
                branch: maybe_text(*branch),
                target: maybe_text(*target),
            },
            Reply::Id(id) => ReplyView::Id(id@),
            Reply::State(state) => ReplyView::State(*state),
            Reply::Identity(who) => ReplyView::Identity(who@),
        }
    }
}

/// The status of an operation that needs the home directory when the
/// environment names none.
pub open spec fn no_home() -> Seq<char> {
    "$HOME envirenment variable is not set!"@
}

/// Words [`no_home`].
pub fn no_home_status() -> (r: String)
    ensures
        r@ == no_home(),
{
    String::from_str("$HOME envirenment variable is not set!")
}

/// The dotfiles repository's place below the home directory.
pub open spec fn repository_path(home: Seq<char>) -> Seq<char> {
    home + "/.dotfiles"@
}

/// Builds [`repository_path`].
pub fn repository_path_of(home: &String) -> (r: String)
    ensures
        r@ == repository_path(home@),
{
    home.clone().concat("/.dotfiles")
}

/// Whether a reply tells of a failure without giving a reason.
pub open spec fn wordless(reply: ReplyView) -> bool {
    reply matches ReplyView::Failed(reason) && reason.len() == 0
}

/// A failed program always has a status line, and one that begins as its
/// complaint does if it has any.
pub proof fn lemma_failure_status_says_something(outcome: ProcessOutcomeView)
    ensures
        outcome.failure_status().len() > 0,
        outcome.complaint().len() > 0 ==> outcome.failure_status() == outcome.complaint(),
        no_home().len() > 0,
{
    reveal_strlit("The command failed without an error message.");
    reveal_strlit("$HOME envirenment variable is not set!");
}

} // verus!
