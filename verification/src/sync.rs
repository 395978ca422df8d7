//! The dotfiles repository: cloning it, and bringing it up to date with its
//! remote.

use crate::host::{lemma_failure_status_says_something, wordless, ProcessOutcomeView};
use crate::host::{maybe_text, no_home, no_home_status, repository_path, repository_path_of};
use crate::host::{GitRequest, GitRequestView, Identity, IdentityView, Reply, ReplyView};
use crate::host::{RepositoryState, Request, RequestView};
use crate::text::{push_text, texts};
use vstd::prelude::*;
use vstd::string::StringExecFns;

verus! {

/// Where the dotfiles come from.
pub open spec fn remote_url() -> Seq<char> {
    "https://github.com/farukerdem34/dotfiles.git"@
}

/// Where a clone task stands.
#[derive(Debug, Clone, Copy, PartialEq, Eq)]
pub enum CloneStage {
    /// Waiting for the home directory.
    Home,
    /// Waiting for the clone.
    Clone,
    /// Over: the repository is there.
    Cloned,
    /// Over: the clone failed and no repository is there on its account.
    Failed,
    /// Over for want of a home directory.
    Fatal,
}

/// Cloning in progress.
#[derive(Debug, PartialEq, Eq)]
pub struct CloneTask {
    pub stage: CloneStage,
    /// Where the repository goes, once the home directory is known.
    pub path: String,
    /// The status, once the task is over.
    pub status: String,
}

/// What a [`CloneTask`] stands for in contracts.
pub struct CloneTaskView {
    pub stage: CloneStage,
    pub path: Seq<char>,
    pub status: Seq<char>,
}

impl View for CloneTask {
    type V = CloneTaskView;

    open spec fn view(&self) -> CloneTaskView {
        CloneTaskView { stage: self.stage, path: self.path@, status: self.status@ }
    }
}

impl CloneTaskView {
    /// The task before anything was asked.
    pub open spec fn begin() -> CloneTaskView {
        CloneTaskView { stage: CloneStage::Home, path: Seq::empty(), status: Seq::empty() }
    }

    /// Whether the task is over.
    pub open spec fn over(self) -> bool {
        self.stage is Cloned || self.stage is Failed || self.stage is Fatal
    }

    /// What the task is waiting for.
    pub open spec fn request(self) -> RequestView {
        match self.stage {
            CloneStage::Home => RequestView::HomeDir,
            CloneStage::Clone => RequestView::Git(
                GitRequestView::Clone { url: remote_url(), path: self.path },
            ),
            CloneStage::Cloned | CloneStage::Failed => RequestView::Finished,
            CloneStage::Fatal => RequestView::Abort,
        }
    }

    /// The task after the host's reply. A failed clone's status is the
    /// library's reason, word for word. A reply that does not answer what the
    /// task is waiting for leaves the task as it is.
    pub open spec fn advance(self, reply: ReplyView) -> CloneTaskView {
        match (self.stage, reply) {
            (CloneStage::Home, ReplyView::Home(Some(home))) => CloneTaskView {
                stage: CloneStage::Clone,
                path: repository_path(home),
                ..self
            },
            (CloneStage::Home, ReplyView::Home(None)) => CloneTaskView {
                stage: CloneStage::Fatal,
                status: no_home(),
                ..self
            },
            (CloneStage::Clone, ReplyView::Done) => CloneTaskView {
                stage: CloneStage::Cloned,
                status: "Repository cloned successfully!"@,
                ..self
            },
            (CloneStage::Clone, ReplyView::Failed(reason)) => CloneTaskView {
                stage: CloneStage::Failed,
                status: reason,
                ..self
            },
            _ => self,
        }
    }
}

impl CloneTask {
    /// Starts cloning: the first thing asked is the home directory.
    pub fn begin() -> (task: CloneTask)
        ensures
            task@ == CloneTaskView::begin(),
    {
        CloneTask { stage: CloneStage::Home, path: String::new(), status: String::new() }
    }

    /// Tells whether the task is over.
    pub fn over(&self) -> (r: bool)
        ensures
            r == self@.over(),
    {
        match self.stage {
            CloneStage::Cloned | CloneStage::Failed | CloneStage::Fatal => true,
            _ => false,
        }
    }

    /// What the host has to do next.
    pub fn request(&self) -> (r: Request)
        ensures
            r@ == self@.request(),
    {
        match self.stage {
            CloneStage::Home => Request::HomeDir,
            CloneStage::Clone => Request::Git(
                GitRequest::Clone {
                    url: String::from_str("https://github.com/farukerdem34/dotfiles.git"),
                    path: self.path.clone(),
                },
            ),
            CloneStage::Cloned | CloneStage::Failed => Request::Finished,
            CloneStage::Fatal => Request::Abort,
        }
    }

    /// Takes the host's reply and moves on.
    pub fn advance(self, reply: Reply) -> (task: CloneTask)
        ensures
            task@ == self@.advance(reply@),
    {
        match self.stage {
            CloneStage::Home => match reply {
                Reply::Home(Some(home)) => CloneTask {
                    stage: CloneStage::Clone,
                    path: repository_path_of(&home),
                    ..self
                },
                Reply::Home(None) => CloneTask {
                    stage: CloneStage::Fatal,
                    status: no_home_status(),
                    ..self
                },
                _ => self,
            },
            CloneStage::Clone => match reply {
                Reply::Done => CloneTask {
                    stage: CloneStage::Cloned,
                    status: String::from_str("Repository cloned successfully!"),
                    ..self
                },
                Reply::Failed(reason) => CloneTask {
                    stage: CloneStage::Failed,
                    status: reason,
                    ..self
                },
                _ => self,
            },
            _ => self,
        }
    }
}

/// What an attempt to bring the repository up to date came to.
#[derive(Debug, Clone, PartialEq, Eq)]
pub enum SyncOutcome {
    /// Nothing to commit, and the remote had nothing new: its commit is the
    /// one `HEAD` was at, or an ancestor of it.
    UpToDate,
    /// Nothing to commit, and the remote had something new: its commit is
    /// neither the one `HEAD` was at nor an ancestor of it.
    FastForwarded,
    /// The merge called for a commit, and the commit was made.
    MergedClean,
    /// The merge left conflicts. Nothing was committed.
    MergedWithConflicts,
    /// A step failed; the reason names the step and gives the library's own
    /// words.
    Failed(String),
}

/// What a [`SyncOutcome`] stands for in contracts.
pub enum SyncOutcomeView {
    UpToDate,
    FastForwarded,
    MergedClean,
    MergedWithConflicts,
    Failed(Seq<char>),
}

impl View for SyncOutcome {
    type V = SyncOutcomeView;

    open spec fn view(&self) -> SyncOutcomeView {
        match self {
            SyncOutcome::UpToDate => SyncOutcomeView::UpToDate,
            SyncOutcome::FastForwarded => SyncOutcomeView::FastForwarded,
            SyncOutcome::MergedClean => SyncOutcomeView::MergedClean,
            SyncOutcome::MergedWithConflicts => SyncOutcomeView::MergedWithConflicts,
            SyncOutcome::Failed(reason) => SyncOutcomeView::Failed(reason@),
        }
    }
}

/// The view of an optional outcome.
pub open spec fn maybe_outcome(outcome: Option<SyncOutcome>) -> Option<SyncOutcomeView> {
    match outcome {
        Some(o) => Some(o@),
        None => None,
    }
}

impl SyncOutcomeView {
    /// The status line of the outcome. The three ways of success share one
    /// line; conflicts have their own; a failure is shown by its reason.
    pub open spec fn status(self) -> Seq<char> {
        match self {
            SyncOutcomeView::UpToDate
            | SyncOutcomeView::FastForwarded
            | SyncOutcomeView::MergedClean => "Dotfiles repository updated successfully!"@,
            SyncOutcomeView::MergedWithConflicts =>
                "Merge conflicts detected. Please resolve them manually."@,
            SyncOutcomeView::Failed(reason) => reason,
        }
    }
}

impl SyncOutcome {
    /// Words the status line of the outcome.
    pub fn status(&self) -> (r: String)
        ensures
            r@ == self@.status(),
    {
        match self {
            SyncOutcome::UpToDate | SyncOutcome::FastForwarded | SyncOutcome::MergedClean => {
                String::from_str("Dotfiles repository updated successfully!")
            },
            SyncOutcome::MergedWithConflicts => String::from_str(
                "Merge conflicts detected. Please resolve them manually.",
            ),
            SyncOutcome::Failed(reason) => reason.clone(),
        }
    }
}

/// Where a sync task stands: the step whose answer it is waiting for.
#[derive(Debug, Clone, Copy, PartialEq, Eq)]
pub enum SyncStage {
    Home,
    Exists,
    Open,
    FindRemote,
    Fetch,
    Head,
    FindReference,
    Annotate,
    PeelRemote,
    Index,
    Merge,
    Conflicts,
    State,
    /// Waiting to hear whether the remote had anything new. Only a merge
    /// that called for no commit comes here.
    Ancestry,
    Signature,
    WriteIndex,
    WriteTree,
    FindTree,
    HeadCommit,
    Commit,
    Cleanup,
    /// Over; `outcome` and `status` are final.
    Finished,
    /// Over for want of a home directory.
    Fatal,
}

impl SyncStage {
    /// Whether the step is answered by a bare "done".
    pub open spec fn plain(self) -> bool {
        match self {
            SyncStage::Open
            | SyncStage::FindRemote
            | SyncStage::Fetch
            | SyncStage::FindReference
            | SyncStage::Annotate
            | SyncStage::Index
            | SyncStage::Merge
            | SyncStage::WriteIndex
            | SyncStage::FindTree
            | SyncStage::Commit
            | SyncStage::Cleanup => true,
            _ => false,
        }
    }

    /// Whether the step can fail with a reason of the library's.
    pub open spec fn fallible(self) -> bool {
        match self {
            SyncStage::Head
            | SyncStage::PeelRemote
            | SyncStage::Ancestry
            | SyncStage::Signature
            | SyncStage::WriteTree
            | SyncStage::HeadCommit => true,
            _ => self.plain(),
        }
    }

    /// The step that follows a plain step that was carried out. The last
    /// one, the cleanup, is followed by the end.
    pub open spec fn following(self) -> SyncStage {
        match self {
            SyncStage::Open => SyncStage::FindRemote,
            SyncStage::FindRemote => SyncStage::Fetch,
            SyncStage::Fetch => SyncStage::Head,
            SyncStage::FindReference => SyncStage::Annotate,
            SyncStage::Annotate => SyncStage::PeelRemote,
            SyncStage::Index => SyncStage::Merge,
            SyncStage::Merge => SyncStage::Conflicts,
            SyncStage::WriteIndex => SyncStage::WriteTree,
            SyncStage::FindTree => SyncStage::HeadCommit,
            SyncStage::Commit => SyncStage::Cleanup,
            _ => SyncStage::Finished,
        }
    }

    /// How the reason of a failure of the step begins: it names the step.
    pub open spec fn complaint(self) -> Seq<char> {
        match self {
            SyncStage::Open => "Failed to open repository: "@,
            SyncStage::FindRemote => "Failed to find remote 'origin': "@,
            SyncStage::Fetch => "Failed to fetch from remote: "@,
            SyncStage::Head => "Failed to get HEAD reference: "@,
            SyncStage::FindReference => "Failed to find remote reference: "@,
            SyncStage::Annotate => "Failed to get annotated commit: "@,
            SyncStage::PeelRemote => "Failed to get remote commit: "@,
            SyncStage::Index => "Failed to get repository index: "@,
            SyncStage::Merge => "Failed to merge updates: "@,
            SyncStage::Ancestry => "Failed to compare HEAD with remote commit: "@,
            SyncStage::Signature => "Failed to create signature: "@,
            SyncStage::WriteIndex => "Failed to write index: "@,
            SyncStage::WriteTree => "Failed to write tree: "@,
            SyncStage::FindTree => "Failed to find tree: "@,
            SyncStage::HeadCommit => "Failed to get HEAD commit: "@,
            SyncStage::Commit => "Failed to commit merge: "@,
            SyncStage::Cleanup => "Failed to cleanup repository state: "@,
            _ => Seq::empty(),
        }
    }

    /// Tells whether the step is answered by a bare "done".
    pub fn is_plain(self) -> (r: bool)
        ensures
            r == self.plain(),
    {
        match self {
            SyncStage::Open
            | SyncStage::FindRemote
            | SyncStage::Fetch
            | SyncStage::FindReference
            | SyncStage::Annotate
            | SyncStage::Index
            | SyncStage::Merge
            | SyncStage::WriteIndex
            | SyncStage::FindTree
            | SyncStage::Commit
            | SyncStage::Cleanup => true,
            _ => false,
        }
    }

    /// Tells whether the step can fail with a reason of the library's.
    pub fn is_fallible(self) -> (r: bool)
        ensures
            r == self.fallible(),
    {
        match self {
            SyncStage::Head
            | SyncStage::PeelRemote
            | SyncStage::Ancestry
            | SyncStage::Signature
            | SyncStage::WriteTree
            | SyncStage::HeadCommit => true,
            _ => self.is_plain(),
        }
    }

    /// The step after a plain step.
    pub fn next(self) -> (r: SyncStage)
        ensures
            r == self.following(),
    {
        match self {
            SyncStage::Open => SyncStage::FindRemote,
            SyncStage::FindRemote => SyncStage::Fetch,
            SyncStage::Fetch => SyncStage::Head,
            SyncStage::FindReference => SyncStage::Annotate,
            SyncStage::Annotate => SyncStage::PeelRemote,
            SyncStage::Index => SyncStage::Merge,
            SyncStage::Merge => SyncStage::Conflicts,
            SyncStage::WriteIndex => SyncStage::WriteTree,
            SyncStage::FindTree => SyncStage::HeadCommit,
            SyncStage::Commit => SyncStage::Cleanup,
            _ => SyncStage::Finished,
        }
    }

    /// The words that name the step in the reason of its failure.
    pub fn complaint_text(self) -> (r: &'static str)
        ensures
            r@ == self.complaint(),
    {
        match self {
            SyncStage::Open => "Failed to open repository: ",
            SyncStage::FindRemote => "Failed to find remote 'origin': ",
            SyncStage::Fetch => "Failed to fetch from remote: ",
            SyncStage::Head => "Failed to get HEAD reference: ",
            SyncStage::FindReference => "Failed to find remote reference: ",
            SyncStage::Annotate => "Failed to get annotated commit: ",
            SyncStage::PeelRemote => "Failed to get remote commit: ",
            SyncStage::Index => "Failed to get repository index: ",
            SyncStage::Merge => "Failed to merge updates: ",
            SyncStage::Ancestry => "Failed to compare HEAD with remote commit: ",
            SyncStage::Signature => "Failed to create signature: ",
            SyncStage::WriteIndex => "Failed to write index: ",
            SyncStage::WriteTree => "Failed to write tree: ",
            SyncStage::FindTree => "Failed to find tree: ",
            SyncStage::HeadCommit => "Failed to get HEAD commit: ",
            SyncStage::Commit => "Failed to commit merge: ",
            SyncStage::Cleanup => "Failed to cleanup repository state: ",
            _ => {
                proof {
                    reveal_strlit("");
                }
                assert(""@ =~= Seq::<char>::empty());
                ""
            },
        }
    }
}

/// A sync in progress: fetch, merge, and a merge commit where the merge
/// calls for one. The steps come in one fixed order; the first that fails
/// ends the task with its own reason.
#[derive(Debug, PartialEq, Eq)]
pub struct SyncTask {
    pub stage: SyncStage,
    /// The repository, once the home directory is known.
    pub path: String,
    /// The short name of the current branch, once `HEAD` is resolved.
    pub branch: String,
    /// The commit `HEAD` pointed at when it was resolved, if any.
    pub head: Option<String>,
    /// The commit of the remote-tracking reference, once peeled.
    pub fetched: String,
    /// The signature for the merge commit, once made.
    pub identity: Identity,
    /// The tree for the merge commit, once written.
    pub tree: String,
    /// The commit `HEAD` peels to after the merge, once asked for.
    pub parent: String,
    /// What the attempt came to, once the task has finished.
    pub outcome: Option<SyncOutcome>,
    /// The status, once the task is over.
    pub status: String,
}

/// What a [`SyncTask`] stands for in contracts.
pub struct SyncTaskView {
    pub stage: SyncStage,
    pub path: Seq<char>,
    pub branch: Seq<char>,
    pub head: Option<Seq<char>>,
    pub fetched: Seq<char>,
    pub identity: IdentityView,
    pub tree: Seq<char>,
    pub parent: Seq<char>,
    pub outcome: Option<SyncOutcomeView>,
    pub status: Seq<char>,
}

impl View for SyncTask {
    type V = SyncTaskView;

    open spec fn view(&self) -> SyncTaskView {
        SyncTaskView {
            stage: self.stage,
            path: self.path@,
            branch: self.branch@,
            head: maybe_text(self.head),
            fetched: self.fetched@,
            identity: self.identity@,
            tree: self.tree@,
            parent: self.parent@,
            outcome: maybe_outcome(self.outcome),
            status: self.status@,
        }
    }
}

/// The remote that is fetched from.
pub open spec fn remote_name() -> Seq<char> {
    "origin"@
}

/// What is fetched: every branch of the remote, into its remote-tracking
/// reference.
pub open spec fn refspec() -> Seq<char> {
    "refs/heads/*:refs/remotes/origin/*"@
}

/// The remote-tracking reference of a branch.
pub open spec fn tracking_reference(branch: Seq<char>) -> Seq<char> {
    "refs/remotes/origin/"@ + branch
}

/// The identity before a signature was made.
pub open spec fn nobody() -> IdentityView {
    IdentityView { name: Seq::empty(), email: Seq::empty(), seconds: 0, offset: 0 }
}

/// The merge commit: it moves `HEAD`, holds `tree`, is made in the name of
/// `who` as author and as committer, and its parents are the commit that
/// `HEAD` was at and the fetched commit, in this order.
pub open spec fn merge_commit(
    tree: Seq<char>,
    who: IdentityView,
    parent: Seq<char>,
    fetched: Seq<char>,
) -> GitRequestView {
    GitRequestView::Commit {
        reference: "HEAD"@,
        message: "Merge remote changes"@,
        tree,
        author: who,
        committer: who,
        parents: seq![parent, fetched],
    }
}

impl SyncTaskView {
    /// The task before anything was asked.
    pub open spec fn begin() -> SyncTaskView {
        SyncTaskView {
            stage: SyncStage::Home,
            path: Seq::empty(),
            branch: Seq::empty(),
            head: None,
            fetched: Seq::empty(),
            identity: nobody(),
            tree: Seq::empty(),
            parent: Seq::empty(),
            outcome: None,
            status: Seq::empty(),
        }
    }

    /// Whether the task is over.
    pub open spec fn over(self) -> bool {
        self.stage is Finished || self.stage is Fatal
    }

    /// The commit `HEAD` was at; nothing where it was at none.
    pub open spec fn head_id(self) -> Seq<char> {
        match self.head {
            Some(id) => id,
            None => Seq::empty(),
        }
    }

    /// What the task is waiting for.
    pub open spec fn request(self) -> RequestView {
        match self.stage {
            SyncStage::Home => RequestView::HomeDir,
            SyncStage::Exists => RequestView::Exists(self.path),
            SyncStage::Open => RequestView::Git(GitRequestView::Open(self.path)),
            SyncStage::FindRemote => RequestView::Git(GitRequestView::FindRemote(remote_name())),
            SyncStage::Fetch => RequestView::Git(GitRequestView::Fetch(refspec())),
            SyncStage::Head => RequestView::Git(GitRequestView::Head),
            SyncStage::FindReference => RequestView::Git(
                GitRequestView::FindReference(tracking_reference(self.branch)),
            ),
            SyncStage::Annotate => RequestView::Git(GitRequestView::AnnotatedCommit),
            SyncStage::PeelRemote => RequestView::Git(GitRequestView::PeelToCommit),
            SyncStage::Index => RequestView::Git(GitRequestView::Index),
            SyncStage::Merge => RequestView::Git(GitRequestView::Merge),
            SyncStage::Conflicts => RequestView::Git(GitRequestView::HasConflicts),
            SyncStage::State => RequestView::Git(GitRequestView::State),
            SyncStage::Ancestry => RequestView::Git(
                GitRequestView::DescendantOf { commit: self.head_id(), ancestor: self.fetched },
            ),
            SyncStage::Signature => RequestView::Git(GitRequestView::Signature),
            SyncStage::WriteIndex => RequestView::Git(GitRequestView::WriteIndex),
            SyncStage::WriteTree => RequestView::Git(GitRequestView::WriteTree),
            SyncStage::FindTree => RequestView::Git(GitRequestView::FindTree(self.tree)),
            SyncStage::HeadCommit => RequestView::Git(GitRequestView::HeadCommit),
            SyncStage::Commit => RequestView::Git(
                merge_commit(self.tree, self.identity, self.parent, self.fetched),
            ),
            SyncStage::Cleanup => RequestView::Git(GitRequestView::CleanupState),
            SyncStage::Finished => RequestView::Finished,
            SyncStage::Fatal => RequestView::Abort,
        }
    }

    /// The task, finished with `outcome`.
    pub open spec fn finish(self, outcome: SyncOutcomeView) -> SyncTaskView {
        SyncTaskView {
            stage: SyncStage::Finished,
            outcome: Some(outcome),
            status: outcome.status(),
            ..self
        }
    }

    /// What a merge that called for no commit came to, given whether the
    /// fetched commit was already contained in the one `HEAD` was at: up to
    /// date if it was, for then the remote had nothing new; fast-forwarded
    /// if it was not, for a merge that brings something in without calling
    /// for a commit is one of a branch that had not diverged.
    pub open spec fn settled(contained: bool) -> SyncOutcomeView {
        if contained {
            SyncOutcomeView::UpToDate
        } else {
            SyncOutcomeView::FastForwarded
        }
    }

    /// The task after a merge that called for no commit. A commit contains
    /// itself, and where `HEAD` was at no commit, nothing was contained in
    /// it; in both cases the task is over. In every other case the host is
    /// asked whether the fetched commit is an ancestor of the one `HEAD`
    /// was at.
    pub open spec fn uncommitted(self) -> SyncTaskView {
        match self.head {
            Some(id) => if id == self.fetched {
                self.finish(Self::settled(true))
            } else {
                SyncTaskView { stage: SyncStage::Ancestry, ..self }
            },
            None => self.finish(Self::settled(false)),
        }
    }

    /// The task after the host's reply.
    ///
    /// A step that fails ends the task with the step's complaint followed by
    /// the library's reason. A missing repository and a `HEAD` without a
    /// branch name end it likewise. Conflicts end it before anything is
    /// committed. Whether a commit is called for is read from the
    /// repository's state after the merge, not from the kind of merge; only
    /// then, and only where none is called for, is it asked whether the
    /// remote had anything new. A reply that does not answer what the task
    /// is waiting for leaves the task as it is.
    pub open spec fn advance(self, reply: ReplyView) -> SyncTaskView {
        match (self.stage, reply) {
            (SyncStage::Home, ReplyView::Home(Some(home))) => SyncTaskView {
                stage: SyncStage::Exists,
                path: repository_path(home),
                ..self
            },
            (SyncStage::Home, ReplyView::Home(None)) => SyncTaskView {
                stage: SyncStage::Fatal,
                status: no_home(),
                ..self
            },
            (SyncStage::Exists, ReplyView::Flag(found)) => if found {
                SyncTaskView { stage: SyncStage::Open, ..self }
            } else {
                self.finish(
                    SyncOutcomeView::Failed(
                        "Dotfiles directory not found. Try cloning the repository first."@,
                    ),
                )
            },
            (stage, ReplyView::Failed(reason)) => if stage.fallible() {
                self.finish(SyncOutcomeView::Failed(stage.complaint() + reason))
            } else {
                self
            },
            (stage, ReplyView::Done) => if stage is Cleanup {
                self.finish(SyncOutcomeView::MergedClean)
            } else if stage.plain() {
                SyncTaskView { stage: stage.following(), ..self }
            } else {
                self
            },
            (SyncStage::Head, ReplyView::Head { branch: Some(branch), target }) => SyncTaskView {
                stage: SyncStage::FindReference,
                branch,
                head: target,
                ..self
            },
            (SyncStage::Head, ReplyView::Head { branch: None, .. }) => self.finish(
                SyncOutcomeView::Failed("Failed to determine current branch name"@),
            ),
            (SyncStage::PeelRemote, ReplyView::Id(id)) => SyncTaskView {
                stage: SyncStage::Index,
                fetched: id,
                ..self
            },
            (SyncStage::Conflicts, ReplyView::Flag(conflicts)) => if conflicts {
                self.finish(SyncOutcomeView::MergedWithConflicts)
            } else {
                SyncTaskView { stage: SyncStage::State, ..self }
            },
            (SyncStage::State, ReplyView::State(state)) => if state is Merge {
                SyncTaskView { stage: SyncStage::Signature, ..self }
            } else {
                self.uncommitted()
            },
            (SyncStage::Ancestry, ReplyView::Flag(contained)) => self.finish(
                Self::settled(contained),
            ),
            (SyncStage::Signature, ReplyView::Identity(who)) => SyncTaskView {
                stage: SyncStage::WriteIndex,
                identity: who,
                ..self
            },
            (SyncStage::WriteTree, ReplyView::Id(id)) => SyncTaskView {
                stage: SyncStage::FindTree,
                tree: id,
                ..self
            },
            (SyncStage::HeadCommit, ReplyView::Id(id)) => SyncTaskView {
                stage: SyncStage::Commit,
                parent: id,
                ..self
            },
            _ => self,
        }
    }
}

impl SyncTask {
    /// Starts a sync: the first thing asked is the home directory.
    pub fn begin() -> (task: SyncTask)
        ensures
            task@ == SyncTaskView::begin(),
    {
        SyncTask {
            stage: SyncStage::Home,
            path: String::new(),
            branch: String::new(),
            head: None,
            fetched: String::new(),
            identity: Identity { name: String::new(), email: String::new(), seconds: 0, offset: 0 },
            tree: String::new(),
            parent: String::new(),
            outcome: None,
            status: String::new(),
        }
    }

    /// Tells whether the task is over.
    pub fn over(&self) -> (r: bool)
        ensures
            r == self@.over(),
    {
        match self.stage {
            SyncStage::Finished | SyncStage::Fatal => true,
            _ => false,
        }
    }

    /// What the host has to do next.
    pub fn request(&self) -> (r: Request)
        ensures
            r@ == self@.request(),
    {
        match self.stage {
            SyncStage::Home => Request::HomeDir,
            SyncStage::Exists => Request::Exists(self.path.clone()),
            SyncStage::Open => Request::Git(GitRequest::Open(self.path.clone())),
            SyncStage::FindRemote => Request::Git(
                GitRequest::FindRemote(String::from_str("origin")),
            ),
            SyncStage::Fetch => Request::Git(
                GitRequest::Fetch(String::from_str("refs/heads/*:refs/remotes/origin/*")),
            ),
            SyncStage::Head => Request::Git(GitRequest::Head),
            SyncStage::FindReference => Request::Git(
                GitRequest::FindReference(
                    String::from_str("refs/remotes/origin/").concat(self.branch.as_str()),
                ),
            ),
            SyncStage::Annotate => Request::Git(GitRequest::AnnotatedCommit),
            SyncStage::PeelRemote => Request::Git(GitRequest::PeelToCommit),
            SyncStage::Index => Request::Git(GitRequest::Index),
            SyncStage::Merge => Request::Git(GitRequest::Merge),
            SyncStage::Conflicts => Request::Git(GitRequest::HasConflicts),
            SyncStage::State => Request::Git(GitRequest::State),
            SyncStage::Ancestry => {
                let commit = match &self.head {
                    Some(id) => id.clone(),
                    None => String::new(),
                };
                Request::Git(GitRequest::DescendantOf { commit, ancestor: self.fetched.clone() })
            },
            SyncStage::Signature => Request::Git(GitRequest::Signature),
            SyncStage::WriteIndex => Request::Git(GitRequest::WriteIndex),
            SyncStage::WriteTree => Request::Git(GitRequest::WriteTree),
            SyncStage::FindTree => Request::Git(GitRequest::FindTree(self.tree.clone())),
            SyncStage::HeadCommit => Request::Git(GitRequest::HeadCommit),
            SyncStage::Commit => {
                let mut parents: Vec<String> = Vec::new();
                push_text(&mut parents, self.parent.as_str());
                push_text(&mut parents, self.fetched.as_str());
                assert(texts(parents@) =~= seq![self.parent@, self.fetched@]);
                Request::Git(
                    GitRequest::Commit {
                        reference: String::from_str("HEAD"),
                        message: String::from_str("Merge remote changes"),
                        tree: self.tree.clone(),
                        author: self.identity.copy(),
                        committer: self.identity.copy(),
                        parents,
                    },
                )
            },
            SyncStage::Cleanup => Request::Git(GitRequest::CleanupState),
            SyncStage::Finished => Request::Finished,
            SyncStage::Fatal => Request::Abort,
        }
    }

    fn finish(self, outcome: SyncOutcome) -> (task: SyncTask)
        ensures
            task@ == self@.finish(outcome@),
    {
        let status = outcome.status();
        SyncTask { stage: SyncStage::Finished, outcome: Some(outcome), status, ..self }
    }

    /// Names what a merge that called for no commit came to, given whether
    /// the fetched commit was already contained in the one `HEAD` was at.
    pub fn settled(contained: bool) -> (r: SyncOutcome)
        ensures
            r@ == SyncTaskView::settled(contained),
    {
        if contained {
            SyncOutcome::UpToDate
        } else {
            SyncOutcome::FastForwarded
        }
    }

    fn uncommitted(self) -> (task: SyncTask)
        ensures
            task@ == self@.uncommitted(),
    {
        let same = match &self.head {
            Some(head) => Some(*head == self.fetched),
            None => None,
        };
        match same {
            Some(true) => self.finish(Self::settled(true)),
            Some(false) => SyncTask { stage: SyncStage::Ancestry, ..self },
            None => self.finish(Self::settled(false)),
        }
    }

    /// Takes the host's reply and moves on.
    pub fn advance(self, reply: Reply) -> (task: SyncTask)
        ensures
            task@ == self@.advance(reply@),
    {
        let stage = self.stage;
        match reply {
            Reply::Home(home) => match stage {
                SyncStage::Home => match home {
                    Some(home) => SyncTask {
                        stage: SyncStage::Exists,
                        path: repository_path_of(&home),
                        ..self
                    },
                    None => SyncTask { stage: SyncStage::Fatal, status: no_home_status(), ..self },
                },
                _ => self,
            },
            Reply::Flag(flag) => match stage {
                SyncStage::Exists => if flag {
                    SyncTask { stage: SyncStage::Open, ..self }
                } else {
                    self.finish(
                        SyncOutcome::Failed(
                            String::from_str(
                                "Dotfiles directory not found. Try cloning the repository first.",
                            ),
                        ),
                    )
                },
                SyncStage::Conflicts => if flag {
                    self.finish(SyncOutcome::MergedWithConflicts)
                } else {
                    SyncTask { stage: SyncStage::State, ..self }
                },
                SyncStage::Ancestry => self.finish(Self::settled(flag)),
                _ => self,
            },
            Reply::Failed(reason) => if stage.is_fallible() {
                let text = String::from_str(stage.complaint_text()).concat(reason.as_str());
                self.finish(SyncOutcome::Failed(text))
            } else {
                self
            },
            Reply::Done => match stage {
                SyncStage::Cleanup => self.finish(SyncOutcome::MergedClean),
                _ => if stage.is_plain() {
                    SyncTask { stage: stage.next(), ..self }
                } else {
                    self
                },
            },
            Reply::Head { branch, target } => match stage {
                SyncStage::Head => match branch {
                    Some(branch) => SyncTask {
                        stage: SyncStage::FindReference,
                        branch,
                        head: target,
                        ..self
                    },
                    None => self.finish(
                        SyncOutcome::Failed(
                            String::from_str("Failed to determine current branch name"),
                        ),
                    ),
                },
                _ => self,
            },
            Reply::Id(id) => match stage {
                SyncStage::PeelRemote => SyncTask { stage: SyncStage::Index, fetched: id, ..self },
                SyncStage::WriteTree => SyncTask { stage: SyncStage::FindTree, tree: id, ..self },
                SyncStage::HeadCommit => SyncTask { stage: SyncStage::Commit, parent: id, ..self },
                _ => self,
            },
            Reply::State(state) => match stage {
                SyncStage::State => match state {
                    RepositoryState::Merge => SyncTask { stage: SyncStage::Signature, ..self },
                    _ => self.uncommitted(),
                },
                _ => self,
            },
            Reply::Identity(who) => match stage {
                SyncStage::Signature => SyncTask {
                    stage: SyncStage::WriteIndex,
                    identity: who,
                    ..self
                },
                _ => self,
            },
            _ => self,
        }
    }
}

impl SyncStage {
    /// The place of the step in the fixed order of steps. Both ends come
    /// after every step.
    pub open spec fn order(self) -> nat {
        match self {
            SyncStage::Home => 0,
            SyncStage::Exists => 1,
            SyncStage::Open => 2,
            SyncStage::FindRemote => 3,
            SyncStage::Fetch => 4,
            SyncStage::Head => 5,
            SyncStage::FindReference => 6,
            SyncStage::Annotate => 7,
            SyncStage::PeelRemote => 8,
            SyncStage::Index => 9,
            SyncStage::Merge => 10,
            SyncStage::Conflicts => 11,
            SyncStage::State => 12,
            SyncStage::Ancestry => 13,
            SyncStage::Signature => 14,
            SyncStage::WriteIndex => 15,
            SyncStage::WriteTree => 16,
            SyncStage::FindTree => 17,
            SyncStage::HeadCommit => 18,
            SyncStage::Commit => 19,
            SyncStage::Cleanup => 20,
            SyncStage::Finished => 21,
            SyncStage::Fatal => 21,
        }
    }
}

/// Whether a request asks for a commit.
pub open spec fn asks_commit(request: RequestView) -> bool {
    request matches RequestView::Git(call) && call is Commit
}

impl SyncTaskView {
    /// The task after the host's replies, one after another.
    pub open spec fn run(self, replies: Seq<ReplyView>) -> SyncTaskView
        decreases replies.len(),
    {
        if replies.len() == 0 {
            self
        } else {
            self.advance(replies[0]).run(replies.drop_first())
        }
    }

    /// What the host is asked over a run: what the task is waiting for at
    /// first, and then after each reply.
    pub open spec fn asked(self, replies: Seq<ReplyView>) -> Seq<RequestView>
        decreases replies.len(),
    {
        if replies.len() == 0 {
            seq![self.request()]
        } else {
            seq![self.request()] + self.advance(replies[0]).asked(replies.drop_first())
        }
    }

    /// A task on its way for which no commit was found to be called for, be
    /// it that the question was not come to yet.
    pub open spec fn uncommitting(self) -> bool {
        !self.over() && self.outcome is None && self.stage.order() <= SyncStage::Ancestry.order()
    }

    /// A task on its way for which a commit was found to be called for.
    pub open spec fn committing(self) -> bool {
        !self.over() && self.outcome is None && self.stage.order() > SyncStage::Ancestry.order()
    }
}

/// The steps come in one fixed order: a reply leaves the task where it is,
/// moves it to a later step, or ends it; and the only steps ever passed over
/// are the question about the remote's news, where a commit is called for
/// or the answer is plain without asking, and the steps of the commit,
/// where none is. A task that is over stays as it is.
pub proof fn lemma_steps_in_order(task: SyncTaskView, reply: ReplyView)
    ensures
        ({
            let next = task.advance(reply);
            ||| next == task
            ||| !task.over() && next.over()
            ||| !task.over() && next.stage.order() == task.stage.order() + 1
            ||| task.stage is State && next.stage is Signature
        }),
        task.over() ==> task.advance(reply) == task,
{
}

/// The first step that fails ends the task: the reason names the step and
/// then gives the library's own words, nothing is asked any more, and the
/// reason is the status.
pub proof fn lemma_failure_ends(task: SyncTaskView, reason: Seq<char>)
    requires
        task.stage.fallible(),
    ensures
        ({
            let end = task.advance(ReplyView::Failed(reason));
            &&& end.outcome == Some(SyncOutcomeView::Failed(task.stage.complaint() + reason))
            &&& end.status == task.stage.complaint() + reason
            &&& end.request() == RequestView::Finished
        }),
{
}

/// Conflicts are final: the task ends at once, asks for nothing more, and
/// says that the conflicts are to be resolved by hand.
pub proof fn lemma_conflicts_end(task: SyncTaskView)
    requires
        task.stage is Conflicts,
    ensures
        ({
            let end = task.advance(ReplyView::Flag(true));
            &&& end.outcome == Some(SyncOutcomeView::MergedWithConflicts)
            &&& end.request() == RequestView::Finished
            &&& end.status == "Merge conflicts detected. Please resolve them manually."@
        }),
{
}

/// Whether the fetched commit was already contained in the commit `HEAD`
/// was at, given the host's answer to whether it is an ancestor of it: a
/// commit contains itself and its ancestors, and nothing else.
pub open spec fn contained(head: Option<Seq<char>>, fetched: Seq<char>, ancestor: bool) -> bool {
    match head {
        Some(id) => id == fetched || ancestor,
        None => false,
    }
}

/// A merge that calls for no commit ends up to date exactly when the remote
/// had nothing new, that is, when the fetched commit is the one `HEAD` was
/// at or an ancestor of it, and fast-forwarded exactly when it is not. The
/// status is that of a success either way, nothing is committed, and the
/// host is asked about the ancestry only where the two commits differ.
pub proof fn lemma_remote_news_decide(
    task: SyncTaskView,
    state: RepositoryState,
    ancestor: bool,
)
    requires
        task.stage is State,
        !(state is Merge),
    ensures
        ({
            let next = task.advance(ReplyView::State(state));
            let end = if next.over() {
                next
            } else {
                next.advance(ReplyView::Flag(ancestor))
            };
            &&& next.over() <==> task.head is None || task.head == Some(task.fetched)
            &&& !next.over() ==> next.request() == RequestView::Git(
                GitRequestView::DescendantOf { commit: task.head->0, ancestor: task.fetched },
            )
            &&& end.request() == RequestView::Finished
            &&& end.status == "Dotfiles repository updated successfully!"@
            &&& contained(task.head, task.fetched, ancestor) ==> end.outcome == Some(
                SyncOutcomeView::UpToDate,
            )
            &&& !contained(task.head, task.fetched, ancestor) ==> end.outcome == Some(
                SyncOutcomeView::FastForwarded,
            )
        }),
{
}

/// The merge commit is made of what the host gave on the way: the tree is
/// the one written from the index; author and committer are the signature
/// that the repository's configuration gave; and the parents are exactly
/// two, first the commit that `HEAD` peels to, then the fetched commit.
pub proof fn lemma_commit_parents(task: SyncTaskView, id: Seq<char>, who: IdentityView)
    ensures
        task.stage is PeelRemote ==> task.advance(ReplyView::Id(id)).fetched == id,
        task.stage is Signature ==> task.advance(ReplyView::Identity(who)).identity == who,
        task.stage is WriteTree ==> {
            let next = task.advance(ReplyView::Id(id));
            &&& next.tree == id
            &&& next.request() == RequestView::Git(GitRequestView::FindTree(id))
        },
        task.stage is HeadCommit ==> {
            let next = task.advance(ReplyView::Id(id));
            &&& next.request() == RequestView::Git(
                merge_commit(task.tree, task.identity, id, task.fetched),
            )
            &&& merge_commit(task.tree, task.identity, id, task.fetched)->parents.len() == 2
        },
        asks_commit(task.request()) ==> task.request() == RequestView::Git(
            merge_commit(task.tree, task.identity, task.parent, task.fetched),
        ),
{
}

/// A task that is over asks for nothing but its end, whatever it is told.
pub proof fn lemma_over_is_final(task: SyncTaskView, replies: Seq<ReplyView>)
    requires
        task.over(),
    ensures
        task.run(replies) == task,
        task.asked(replies).len() == replies.len() + 1,
        forall|i: int|
            0 <= i < task.asked(replies).len() ==> #[trigger] task.asked(replies)[i]
                == task.request(),
    decreases replies.len(),
{
    if replies.len() > 0 {
        lemma_over_is_final(task, replies.drop_first());
    }
}

/// Once a commit was found to be called for, the attempt ends with the
/// commit made or with a failure, if it ends.
pub proof fn lemma_committing_outcomes(task: SyncTaskView, replies: Seq<ReplyView>)
    requires
        task.committing(),
    ensures
        ({
            let end = task.run(replies);
            ||| end.outcome is None
            ||| end.outcome == Some(SyncOutcomeView::MergedClean)
            ||| end.outcome matches Some(SyncOutcomeView::Failed(_))
        }),
    decreases replies.len(),
{
    if replies.len() > 0 {
        let next = task.advance(replies[0]);
        if next.over() {
            lemma_over_is_final(next, replies.drop_first());
        } else {
            lemma_committing_outcomes(next, replies.drop_first());
        }
    }
}

/// No commit without need: an attempt that finds the repository up to date
/// or fast-forwarded, and one that ends in conflicts, never asks for a
/// commit.
pub proof fn lemma_no_commit_without_need(task: SyncTaskView, replies: Seq<ReplyView>)
    requires
        task.uncommitting(),
        ({
            let end = task.run(replies);
            ||| end.outcome == Some(SyncOutcomeView::UpToDate)
            ||| end.outcome == Some(SyncOutcomeView::FastForwarded)
            ||| end.outcome == Some(SyncOutcomeView::MergedWithConflicts)
        }),
    ensures
        forall|i: int|
            0 <= i < task.asked(replies).len() ==> !asks_commit(#[trigger] task.asked(replies)[i]),
    decreases replies.len(),
{
    if replies.len() > 0 {
        let next = task.advance(replies[0]);
        let rest = replies.drop_first();
        assert(task.run(replies) == next.run(rest));
        if next.over() {
            lemma_over_is_final(next, rest);
        } else if next.uncommitting() {
            lemma_no_commit_without_need(next, rest);
        } else {
            lemma_committing_outcomes(next, rest);
        }
        assert forall|i: int| 0 <= i < task.asked(replies).len() implies !asks_commit(
            #[trigger] task.asked(replies)[i],
        ) by {
            if i > 0 {
                assert(task.asked(replies)[i] == next.asked(rest)[i - 1]);
            }
        }
    }
}

/// From the commit on, what the commit is made of stays what it is.
pub proof fn lemma_parents_stay(task: SyncTaskView, replies: Seq<ReplyView>)
    requires
        task.stage.order() >= SyncStage::Commit.order(),
    ensures
        task.run(replies).parent == task.parent,
        task.run(replies).fetched == task.fetched,
        task.run(replies).tree == task.tree,
        task.run(replies).identity == task.identity,
    decreases replies.len(),
{
    if replies.len() > 0 {
        lemma_parents_stay(task.advance(replies[0]), replies.drop_first());
    }
}

/// The merge commit of the task as it stands at the end of a run.
pub open spec fn commit_of(end: SyncTaskView) -> RequestView {
    RequestView::Git(merge_commit(end.tree, end.identity, end.parent, end.fetched))
}

/// An attempt that ends with the commit made has asked for that commit:
/// for the merge commit on top of the commit of `HEAD` and the fetched
/// commit.
pub proof fn lemma_merged_clean_committed(task: SyncTaskView, replies: Seq<ReplyView>)
    requires
        !task.over(),
        task.outcome is None,
        task.stage.order() <= SyncStage::Commit.order(),
        task.run(replies).outcome == Some(SyncOutcomeView::MergedClean),
    ensures
        exists|i: int|
            0 <= i < task.asked(replies).len() && #[trigger] task.asked(replies)[i] == commit_of(
                task.run(replies),
            ),
    decreases replies.len(),
{
    if task.stage is Commit {
        lemma_parents_stay(task, replies);
        assert(task.asked(replies)[0] == task.request());
    } else {
        let next = task.advance(replies[0]);
        let rest = replies.drop_first();
        if next.over() {
            lemma_over_is_final(next, rest);
        } else {
            lemma_merged_clean_committed(next, rest);
            let i = choose|i: int|
                0 <= i < next.asked(rest).len() && #[trigger] next.asked(rest)[i] == commit_of(
                    next.run(rest),
                );
            assert(task.asked(replies)[i + 1] == next.asked(rest)[i]);
        }
    }
}

/// A whole attempt, from its beginning: it asks for no commit unless it
/// ends with the commit made or with a failure, and if it ends with the
/// commit made, it has asked for the merge commit with its two parents.
pub proof fn lemma_sync_commits_when_called_for(replies: Seq<ReplyView>)
    ensures
        ({
            let end = SyncTaskView::begin().run(replies);
            let asked = SyncTaskView::begin().asked(replies);
            &&& (end.outcome == Some(SyncOutcomeView::UpToDate) || end.outcome == Some(
                SyncOutcomeView::FastForwarded,
            ) || end.outcome == Some(SyncOutcomeView::MergedWithConflicts)) ==> forall|i: int|
                0 <= i < asked.len() ==> !asks_commit(#[trigger] asked[i])
            &&& end.outcome == Some(SyncOutcomeView::MergedClean) ==> exists|i: int|
                0 <= i < asked.len() && #[trigger] asked[i] == commit_of(end)
        }),
{
    let task = SyncTaskView::begin();
    let end = task.run(replies);
    if end.outcome == Some(SyncOutcomeView::MergedClean) {
        lemma_merged_clean_committed(task, replies);
    } else if end.outcome == Some(SyncOutcomeView::UpToDate) || end.outcome == Some(
        SyncOutcomeView::FastForwarded,
    ) || end.outcome == Some(SyncOutcomeView::MergedWithConflicts) {
        lemma_no_commit_without_need(task, replies);
    }
}

/// A clone that fails ends with the library's reason as status, word for
/// word, and not as a clone that was made.
pub proof fn lemma_clone_failure(task: CloneTaskView, reason: Seq<char>)
    requires
        task.stage is Clone,
    ensures
        ({
            let end = task.advance(ReplyView::Failed(reason));
            &&& end.stage is Failed
            &&& !(end.stage is Cloned)
            &&& end.status == reason
            &&& end.request() == RequestView::Finished
        }),
{
}

/// A sync never ends without a word, and a clone only where it fails and
/// the library gives no reason, for a failed clone's status is the
/// library's reason and nothing else.
pub proof fn lemma_sync_status_says_something(
    sync: SyncTaskView,
    clone: CloneTaskView,
    reply: ReplyView,
)
    ensures
        !sync.over() && sync.advance(reply).over() ==> sync.advance(reply).status.len() > 0,
        !clone.over() && clone.advance(reply).over() && !wordless(reply) ==> clone.advance(
            reply,
        ).status.len() > 0,
{
    lemma_failure_status_says_something(ProcessOutcomeView::NotStarted(Seq::empty()));
    reveal_strlit("Repository cloned successfully!");
    reveal_strlit("Dotfiles repository updated successfully!");
    reveal_strlit("Merge conflicts detected. Please resolve them manually.");
    reveal_strlit("Dotfiles directory not found. Try cloning the repository first.");
    reveal_strlit("Failed to determine current branch name");
    reveal_strlit("Failed to open repository: ");
    reveal_strlit("Failed to find remote 'origin': ");
    reveal_strlit("Failed to fetch from remote: ");
    reveal_strlit("Failed to get HEAD reference: ");
    reveal_strlit("Failed to find remote reference: ");
    reveal_strlit("Failed to get annotated commit: ");
    reveal_strlit("Failed to get remote commit: ");
    reveal_strlit("Failed to get repository index: ");
    reveal_strlit("Failed to merge updates: ");
    reveal_strlit("Failed to compare HEAD with remote commit: ");
    reveal_strlit("Failed to create signature: ");
    reveal_strlit("Failed to write index: ");
    reveal_strlit("Failed to write tree: ");
    reveal_strlit("Failed to find tree: ");
    reveal_strlit("Failed to get HEAD commit: ");
    reveal_strlit("Failed to commit merge: ");
    reveal_strlit("Failed to cleanup repository state: ");
}

} // verus!
