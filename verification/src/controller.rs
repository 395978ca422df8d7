//! The controller: the menu, the selected action, the operation in flight
//! and the one status line that the user sees.

use crate::backend::{lemma_package_status_says_something, PackageAction, PackageSet};
use crate::backend::{PackageSetView, PackageTask, PackageTaskView};
use crate::host::{wordless, Reply, ReplyView, Request, RequestView};
use crate::stow::{lemma_stow_status_says_something, linked, linked_packages, LinkTask};
use crate::stow::{LinkTaskView, UnlinkTask, UnlinkTaskView};
use crate::sync::{lemma_sync_status_says_something, CloneTask, CloneTaskView, SyncTask};
use crate::sync::SyncTaskView;
use crate::text::{literals, texts};
use vstd::prelude::*;
use vstd::string::StringExecFns;

verus! {

/// An action of the main menu.
#[derive(Debug, Clone, Copy, PartialEq, Eq)]
pub enum MenuItem {
    UpdatePackages,
    CloneRepo,
    UpgradePackages,
    InstallPackages,
    LinkDotFiles,
    UnLinkDotFiles,
    SyncDotFiles,
    NeoVimMenu,
    Quit,
}

/// An action of the editor's submenu. Only the way back does anything.
#[derive(Debug, Clone, Copy, PartialEq, Eq)]
pub enum NeoVimItem {
    BackUpState,
    BackUpShare,
    BackupCache,
    BackToMainMenu,
}

/// The operation in flight, if any.
#[derive(Debug, PartialEq, Eq)]
pub enum Task {
    Idle,
    Package(PackageTask),
    Link(LinkTask),
    Unlink(UnlinkTask),
    Clone(CloneTask),
    Sync(SyncTask),
}

/// What a [`Task`] stands for in contracts.
pub enum TaskView {
    Idle,
    Package(PackageTaskView),
    Link(LinkTaskView),
    Unlink(UnlinkTaskView),
    Clone(CloneTaskView),
    Sync(SyncTaskView),
}

impl View for Task {
    type V = TaskView;

    open spec fn view(&self) -> TaskView {
        match self {
            Task::Idle => TaskView::Idle,
            Task::Package(task) => TaskView::Package(task@),
            Task::Link(task) => TaskView::Link(task@),
            Task::Unlink(task) => TaskView::Unlink(task@),
            Task::Clone(task) => TaskView::Clone(task@),
            Task::Sync(task) => TaskView::Sync(task@),
        }
    }
}

impl TaskView {
    /// Whether an operation has just come to its end.
    pub open spec fn over(self) -> bool {
        match self {
            TaskView::Idle => false,
            TaskView::Package(task) => task.over(),
            TaskView::Link(task) => task.over(),
            TaskView::Unlink(task) => task.over(),
            TaskView::Clone(task) => task.over(),
            TaskView::Sync(task) => task.over(),
        }
    }

    /// The operation's status.
    pub open spec fn status(self) -> Seq<char> {
        match self {
            TaskView::Idle => Seq::empty(),
            TaskView::Package(task) => task.status,
            TaskView::Link(task) => task.status,
            TaskView::Unlink(task) => task.status,
            TaskView::Clone(task) => task.status,
            TaskView::Sync(task) => task.status,
        }
    }

    /// What the operation is waiting for. With nothing in flight, nothing
    /// is left to do.
    pub open spec fn request(self) -> RequestView {
        match self {
            TaskView::Idle => RequestView::Finished,
            TaskView::Package(task) => task.request(),
            TaskView::Link(task) => task.request(),
            TaskView::Unlink(task) => task.request(),
            TaskView::Clone(task) => task.request(),
            TaskView::Sync(task) => task.request(),
        }
    }

    /// The operation after the host's reply.
    pub open spec fn advance(self, reply: ReplyView) -> TaskView {
        match self {
            TaskView::Idle => TaskView::Idle,
            TaskView::Package(task) => TaskView::Package(task.advance(reply)),
            TaskView::Link(task) => TaskView::Link(task.advance(reply)),
            TaskView::Unlink(task) => TaskView::Unlink(task.advance(reply)),
            TaskView::Clone(task) => TaskView::Clone(task.advance(reply)),
            TaskView::Sync(task) => TaskView::Sync(task.advance(reply)),
        }
    }
}

impl Task {
    /// Tells whether an operation has just come to its end.
    pub fn over(&self) -> (r: bool)
        ensures
            r == self@.over(),
    {
        match self {
            Task::Idle => false,
            Task::Package(task) => task.over(),
            Task::Link(task) => task.over(),
            Task::Unlink(task) => task.over(),
            Task::Clone(task) => task.over(),
            Task::Sync(task) => task.over(),
        }
    }

    /// The operation's status.
    pub fn status(&self) -> (r: String)
        ensures
            r@ == self@.status(),
    {
        match self {
            Task::Idle => String::new(),
            Task::Package(task) => task.status.clone(),
            Task::Link(task) => task.status.clone(),
            Task::Unlink(task) => task.status.clone(),
            Task::Clone(task) => task.status.clone(),
            Task::Sync(task) => task.status.clone(),
        }
    }

    /// What the host has to do next.
    pub fn request(&self) -> (r: Request)
        ensures
            r@ == self@.request(),
    {
        match self {
            Task::Idle => Request::Finished,
            Task::Package(task) => task.request(),
            Task::Link(task) => task.request(),
            Task::Unlink(task) => task.request(),
            Task::Clone(task) => task.request(),
            Task::Sync(task) => task.request(),
        }
    }

    /// Takes the host's reply and moves on.
    pub fn advance(self, reply: Reply) -> (task: Task)
        ensures
            task@ == self@.advance(reply@),
    {
        match self {
            Task::Idle => Task::Idle,
            Task::Package(task) => Task::Package(task.advance(reply)),
            Task::Link(task) => Task::Link(task.advance(reply)),
            Task::Unlink(task) => Task::Unlink(task.advance(reply)),
            Task::Clone(task) => Task::Clone(task.advance(reply)),
            Task::Sync(task) => Task::Sync(task.advance(reply)),
        }
    }
}

/// A key, as far as the controller tells keys apart.
#[derive(Debug, Clone, Copy, PartialEq, Eq)]
pub enum Key {
    Char(char),
    Down,
    Up,
    Enter,
    Esc,
    Other,
}

/// What the host does after a key.
#[derive(Debug, PartialEq, Eq)]
pub enum Flow {
    /// Draw again and wait for the next key.
    Stay,
    /// Leave the program.
    Leave,
    /// Carry out the operation that was started, beginning with this
    /// request, then draw again.
    Perform(Request),
}

/// What a [`Flow`] stands for in contracts.
pub enum FlowView {
    Stay,
    Leave,
    Perform(RequestView),
}

impl View for Flow {
    type V = FlowView;

    open spec fn view(&self) -> FlowView {
        match self {
            Flow::Stay => FlowView::Stay,
            Flow::Leave => FlowView::Leave,
            Flow::Perform(request) => FlowView::Perform(request@),
        }
    }
}

/// The controller's state.
pub struct App {
    pub menu_state: usize,
    pub menu_items: Vec<(&'static str, MenuItem)>,
    pub output: String,
    pub packages: Vec<&'static str>,
    pub aur_packages: Vec<&'static str>,
    pub neovim_menu_items: Vec<(&'static str, NeoVimItem)>,
    pub neovim_menu_state: usize,
    pub is_in_neovim_menu: bool,
    pub task: Task,
}

/// What a [`App`] stands for in contracts.
pub struct AppView {
    pub menu_state: usize,
    pub menu_items: Seq<(Seq<char>, MenuItem)>,
    pub output: Seq<char>,
    pub packages: Seq<Seq<char>>,
    pub aur_packages: Seq<Seq<char>>,
    pub neovim_menu_items: Seq<(Seq<char>, NeoVimItem)>,
    pub neovim_menu_state: usize,
    pub is_in_neovim_menu: bool,
    pub task: TaskView,
}

/// A menu with the views of its labels.
pub open spec fn labelled<T>(items: Seq<(&'static str, T)>) -> Seq<(Seq<char>, T)> {
    items.map_values(|item: (&'static str, T)| (item.0@, item.1))
}

impl View for App {
    type V = AppView;

    open spec fn view(&self) -> AppView {
        AppView {
            menu_state: self.menu_state,
            menu_items: labelled(self.menu_items@),
            output: self.output@,
            packages: literals(self.packages@),
            aur_packages: literals(self.aur_packages@),
            neovim_menu_items: labelled(self.neovim_menu_items@),
            neovim_menu_state: self.neovim_menu_state,
            is_in_neovim_menu: self.is_in_neovim_menu,
            task: self.task@,
        }
    }
}

/// The main menu, in the order in which it is shown.
pub open spec fn main_menu() -> Seq<(Seq<char>, MenuItem)> {
    seq![
        ("Update Packages"@, MenuItem::UpdatePackages),
        ("Upgrade Packages"@, MenuItem::UpgradePackages),
        ("Install Packages"@, MenuItem::InstallPackages),
        ("Clone Repository"@, MenuItem::CloneRepo),
        ("Link Dotfiles"@, MenuItem::LinkDotFiles),
        ("Unlink Dotfiles"@, MenuItem::UnLinkDotFiles),
        ("Sync Dotfiles"@, MenuItem::SyncDotFiles),
        ("NeoVim"@, MenuItem::NeoVimMenu),
        ("Quit"@, MenuItem::Quit),
    ]
}

/// The editor's submenu, in the order in which it is shown.
pub open spec fn neovim_menu() -> Seq<(Seq<char>, NeoVimItem)> {
    seq![
        ("Back Up State"@, NeoVimItem::BackUpState),
        ("Back Up Share"@, NeoVimItem::BackUpShare),
        ("Back Up Cache"@, NeoVimItem::BackupCache),
        ("Back To Main Menu"@, NeoVimItem::BackToMainMenu),
    ]
}

/// The base set of packages.
pub open spec fn base_packages() -> Seq<Seq<char>> {
    seq![
        "bash"@,
        "btop"@,
        "fastfetch"@,
        "kitty"@,
        "nvim"@,
        "starship"@,
        "tmux"@,
        "vim"@,
        "zsh"@,
        "zoxide"@,
        "stow"@,
    ]
}

/// The auxiliary set of packages.
pub open spec fn auxiliary_packages() -> Seq<Seq<char>> {
    seq!["bat"@, "fzf"@, "starship"@]
}

impl AppView {
    /// The controller as it starts: the cursor on the first item of the main
    /// menu, a welcome as status, nothing in flight.
    pub open spec fn initial() -> AppView {
        AppView {
            menu_state: 0,
            menu_items: main_menu(),
            output: "Welcome! Select an option and press Enter to execute."@,
            packages: base_packages(),
            aur_packages: auxiliary_packages(),
            neovim_menu_items: neovim_menu(),
            neovim_menu_state: 0,
            is_in_neovim_menu: false,
            task: TaskView::Idle,
        }
    }

    /// The number of items of the menu that is shown.
    pub open spec fn shown(self) -> nat {
        if self.is_in_neovim_menu {
            self.neovim_menu_items.len()
        } else {
            self.menu_items.len()
        }
    }

    /// The cursor of the menu that is shown.
    pub open spec fn cursor(self) -> usize {
        if self.is_in_neovim_menu {
            self.neovim_menu_state
        } else {
            self.menu_state
        }
    }

    /// The controller with the cursor of the menu that is shown at `at`.
    pub open spec fn with_cursor(self, at: usize) -> AppView {
        if self.is_in_neovim_menu {
            AppView { neovim_menu_state: at, ..self }
        } else {
            AppView { menu_state: at, ..self }
        }
    }

    /// Whether the cursor is on an item of the menu that is shown.
    pub open spec fn valid(self) -> bool {
        self.cursor() < self.shown()
    }

    /// The cursor one item further down, and at the top after the last.
    pub open spec fn next(self) -> AppView {
        self.with_cursor(((self.cursor() + 1) % (self.shown() as int)) as usize)
    }

    /// The cursor one item further up, and at the bottom after the first.
    pub open spec fn previous(self) -> AppView {
        if self.cursor() > 0 {
            self.with_cursor((self.cursor() - 1) as usize)
        } else {
            self.with_cursor((self.shown() - 1) as usize)
        }
    }

    /// The configured package set.
    pub open spec fn set(self) -> PackageSetView {
        PackageSetView { base: self.packages, auxiliary: self.aur_packages }
    }

    /// The controller with `task` in flight.
    pub open spec fn start(self, task: TaskView) -> AppView {
        AppView { task, ..self }
    }

    /// The controller with `output` as status.
    pub open spec fn say(self, output: Seq<char>) -> AppView {
        AppView { output, ..self }
    }

    /// The controller after the main-menu action `item` was chosen. The
    /// seven operations are started, two of them with a word on what is
    /// going on; nothing else touches anything outside the controller.
    pub open spec fn pick(self, item: MenuItem) -> AppView {
        match item {
            MenuItem::UpdatePackages => self.start(
                TaskView::Package(PackageTaskView::begin(PackageAction::Update, self.set())),
            ),
            MenuItem::UpgradePackages => self.start(
                TaskView::Package(PackageTaskView::begin(PackageAction::Upgrade, self.set())),
            ),
            MenuItem::InstallPackages => self.start(
                TaskView::Package(PackageTaskView::begin(PackageAction::Install, self.set())),
            ),
            MenuItem::CloneRepo => self.say("Cloning repository..."@).start(
                TaskView::Clone(CloneTaskView::begin()),
            ),
            MenuItem::LinkDotFiles => self.start(TaskView::Link(LinkTaskView::begin(linked()))),
            MenuItem::UnLinkDotFiles => self.start(TaskView::Unlink(UnlinkTaskView::begin())),
            MenuItem::SyncDotFiles => self.say("Updating dotfiles repository..."@).start(
                TaskView::Sync(SyncTaskView::begin()),
            ),
            MenuItem::NeoVimMenu => AppView {
                is_in_neovim_menu: true,
                output: "Welcome to NeoVim Menu!"@,
                ..self
            },
            MenuItem::Quit => self,
        }
    }

    /// The controller after the submenu action `item` was chosen.
    pub open spec fn pick_neovim(self, item: NeoVimItem) -> AppView {
        match item {
            NeoVimItem::BackToMainMenu => AppView { is_in_neovim_menu: false, ..self },
            _ => self,
        }
    }

    /// The controller after the action under the cursor was chosen. What was
    /// in flight before is dropped.
    pub open spec fn execute(self) -> AppView {
        let idle = self.start(TaskView::Idle);
        if self.is_in_neovim_menu {
            idle.pick_neovim(self.neovim_menu_items[self.neovim_menu_state as int].1)
        } else {
            idle.pick(self.menu_items[self.menu_state as int].1)
        }
    }

    /// The controller after the host's reply to what the operation in flight
    /// was waiting for. When the operation comes to its end, its status
    /// replaces the status line and nothing is in flight any more.
    pub open spec fn resume(self, reply: ReplyView) -> AppView {
        let task = self.task.advance(reply);
        if task.over() {
            self.say(task.status()).start(TaskView::Idle)
        } else {
            self.start(task)
        }
    }

    /// What the host has to do after its reply was taken.
    pub open spec fn asks(self, reply: ReplyView) -> RequestView {
        self.task.advance(reply).request()
    }

    /// The controller back in the main menu, with a word on it.
    pub open spec fn leave_submenu(self) -> AppView {
        AppView {
            is_in_neovim_menu: false,
            output: "Returned to main menu. Select an option."@,
            ..self
        }
    }

    /// Whether the cursor is on the main menu's way out.
    pub open spec fn on_quit(self) -> bool {
        !self.is_in_neovim_menu && self.menu_items[self.menu_state as int].1 is Quit
    }

    /// Whether the controller can take `key`: moving the cursor needs a
    /// menu with an item to move to, and enter needs the cursor on an item.
    pub open spec fn takes(self, key: Key) -> bool {
        match key {
            Key::Down | Key::Char('j') => self.shown() > 0 && self.cursor() < usize::MAX,
            Key::Up | Key::Char('k') => self.cursor() > 0 || self.shown() > 0,
            Key::Enter => self.valid(),
            _ => true,
        }
    }

    /// The controller after a key. `q` and escape lead out of the submenu;
    /// `j`, `k` and the arrows move the cursor; enter chooses, unless the
    /// cursor is on the way out.
    pub open spec fn after_key(self, key: Key) -> AppView {
        match key {
            Key::Char('q') | Key::Esc => if self.is_in_neovim_menu {
                self.leave_submenu()
            } else {
                self
            },
            Key::Down | Key::Char('j') => self.next(),
            Key::Up | Key::Char('k') => self.previous(),
            Key::Enter => if self.on_quit() {
                self
            } else {
                self.execute()
            },
            _ => self,
        }
    }

    /// What the host does after a key: it leaves on `q` in the main menu
    /// and on enter on the way out, and carries out what enter started.
    pub open spec fn flow(self, key: Key) -> FlowView {
        match key {
            Key::Char('q') => if self.is_in_neovim_menu {
                FlowView::Stay
            } else {
                FlowView::Leave
            },
            Key::Enter => if self.on_quit() {
                FlowView::Leave
            } else {
                FlowView::Perform(self.execute().task.request())
            },
            _ => FlowView::Stay,
        }
    }
}

fn owned(items: &Vec<&'static str>) -> (r: Vec<String>)
    ensures
        texts(r@) == literals(items@),
{
    let mut r: Vec<String> = Vec::new();
    let mut i: usize = 0;
    assert(texts(r@) =~= literals(items@).take(0));
    while i < items.len()
        invariant
            i <= items.len(),
            texts(r@) == literals(items@).take(i as int),
        decreases items.len() - i,
    {
        let ghost before = r@;
        r.push(String::from_str(items[i]));
        i += 1;
        assert(texts(r@) =~= texts(before).push(items@[i - 1]@));
        assert(literals(items@).take(i as int) =~= literals(items@).take(i - 1).push(
            items@[i - 1]@,
        ));
    }
    assert(literals(items@).take(items.len() as int) =~= literals(items@));
    r
}

impl App {
    /// The controller as it starts.
    pub fn new() -> (app: App)
        ensures
            app@ == AppView::initial(),
    {
        let mut menu_items: Vec<(&'static str, MenuItem)> = Vec::new();
        menu_items.push(("Update Packages", MenuItem::UpdatePackages));
        menu_items.push(("Upgrade Packages", MenuItem::UpgradePackages));
        menu_items.push(("Install Packages", MenuItem::InstallPackages));
        menu_items.push(("Clone Repository", MenuItem::CloneRepo));
        menu_items.push(("Link Dotfiles", MenuItem::LinkDotFiles));
        menu_items.push(("Unlink Dotfiles", MenuItem::UnLinkDotFiles));
        menu_items.push(("Sync Dotfiles", MenuItem::SyncDotFiles));
        menu_items.push(("NeoVim", MenuItem::NeoVimMenu));
        menu_items.push(("Quit", MenuItem::Quit));
        assert(labelled(menu_items@) =~= main_menu());
        let mut packages: Vec<&'static str> = Vec::new();
        packages.push("bash");
        packages.push("btop");
        packages.push("fastfetch");
        packages.push("kitty");
        packages.push("nvim");
        packages.push("starship");
        packages.push("tmux");
        packages.push("vim");
        packages.push("zsh");
        packages.push("zoxide");
        packages.push("stow");
        assert(literals(packages@) =~= base_packages());
        let mut aur_packages: Vec<&'static str> = Vec::new();
        aur_packages.push("bat");
        aur_packages.push("fzf");
        aur_packages.push("starship");
        assert(literals(aur_packages@) =~= auxiliary_packages());
        let mut neovim_menu_items: Vec<(&'static str, NeoVimItem)> = Vec::new();
        neovim_menu_items.push(("Back Up State", NeoVimItem::BackUpState));
        neovim_menu_items.push(("Back Up Share", NeoVimItem::BackUpShare));
        neovim_menu_items.push(("Back Up Cache", NeoVimItem::BackupCache));
        neovim_menu_items.push(("Back To Main Menu", NeoVimItem::BackToMainMenu));
        assert(labelled(neovim_menu_items@) =~= neovim_menu());
        App {
            menu_state: 0,
            menu_items,
            output: String::from_str("Welcome! Select an option and press Enter to execute."),
            packages,
            aur_packages,
            neovim_menu_items,
            neovim_menu_state: 0,
            is_in_neovim_menu: false,
            task: Task::Idle,
        }
    }

    /// Moves the cursor one item down, and to the top after the last.
    pub fn next(&mut self)
        requires
            old(self)@.shown() > 0,
            old(self)@.cursor() < usize::MAX,
        ensures
            final(self)@ == old(self)@.next(),
    {
        if self.is_in_neovim_menu {
            self.neovim_menu_state = (self.neovim_menu_state + 1) % self.neovim_menu_items.len();
        } else {
            self.menu_state = (self.menu_state + 1) % self.menu_items.len();
        }
    }

    /// Moves the cursor one item up, and to the bottom after the first.
    pub fn previous(&mut self)
        requires
            old(self)@.cursor() > 0 || old(self)@.shown() > 0,
        ensures
            final(self)@ == old(self)@.previous(),
    {
        if self.is_in_neovim_menu {
            if self.neovim_menu_state > 0 {
                self.neovim_menu_state -= 1;
            } else {
                self.neovim_menu_state = self.neovim_menu_items.len() - 1;
            }
        } else {
            if self.menu_state > 0 {
                self.menu_state -= 1;
            } else {
                self.menu_state = self.menu_items.len() - 1;
            }
        }
    }

    /// What the host has to do for the operation in flight.
    pub fn request(&self) -> (r: Request)
        ensures
            r@ == self@.task.request(),
    {
        self.task.request()
    }

    fn package_set(&self) -> (r: PackageSet)
        ensures
            r@ == self@.set(),
    {
        PackageSet { base: owned(&self.packages), auxiliary: owned(&self.aur_packages) }
    }

    fn start_package(&mut self, action: PackageAction)
        ensures
            final(self)@ == old(self)@.start(
                TaskView::Package(PackageTaskView::begin(action, old(self)@.set())),
            ),
    {
        self.task = Task::Package(PackageTask::begin(action, self.package_set()));
    }

    /// Starts the update of the package lists.
    pub fn update_pkgs(&mut self)
        ensures
            final(self)@ == old(self)@.pick(MenuItem::UpdatePackages),
    {
        self.start_package(PackageAction::Update);
    }

    /// Starts the upgrade of the installed packages.
    pub fn upgrade_packages(&mut self)
        ensures
            final(self)@ == old(self)@.pick(MenuItem::UpgradePackages),
    {
        self.start_package(PackageAction::Upgrade);
    }

    /// Starts the installation of the configured package set.
    pub fn install_packages(&mut self)
        ensures
            final(self)@ == old(self)@.pick(MenuItem::InstallPackages),
    {
        self.start_package(PackageAction::Install);
    }

    /// Starts the clone of the dotfiles repository and says so.
    pub fn clone_repository(&mut self)
        ensures
            final(self)@ == old(self)@.pick(MenuItem::CloneRepo),
    {
        self.output = String::from_str("Cloning repository...");
        self.task = Task::Clone(CloneTask::begin());
    }

    /// Starts linking the dotfiles into the home directory.
    pub fn link_dot_files(&mut self)
        ensures
            final(self)@ == old(self)@.pick(MenuItem::LinkDotFiles),
    {
        self.task = Task::Link(LinkTask::begin(linked_packages()));
    }

    /// Starts unlinking whatever the repository holds.
    pub fn unstow_dot_files(&mut self)
        ensures
            final(self)@ == old(self)@.pick(MenuItem::UnLinkDotFiles),
    {
        self.task = Task::Unlink(UnlinkTask::begin());
    }

    /// Starts bringing the repository up to date and says so.
    pub fn update_dotfiles(&mut self)
        ensures
            final(self)@ == old(self)@.pick(MenuItem::SyncDotFiles),
    {
        self.output = String::from_str("Updating dotfiles repository...");
        self.task = Task::Sync(SyncTask::begin());
    }

    /// Backs up the editor's shared data. Nothing is done so far.
    pub fn backup_share(&mut self)
        ensures
            final(self)@ == old(self)@.pick_neovim(NeoVimItem::BackUpShare),
    {
    }

    /// Backs up the editor's state. Nothing is done so far.
    pub fn backup_state(&mut self)
        ensures
            final(self)@ == old(self)@.pick_neovim(NeoVimItem::BackUpState),
    {
    }

    /// Backs up the editor's cache. Nothing is done so far.
    pub fn backup_cache(&mut self)
        ensures
            final(self)@ == old(self)@.pick_neovim(NeoVimItem::BackupCache),
    {
    }

    /// Chooses the action under the cursor and tells what the host has to do
    /// first for it: `Finished` where the action needs nothing from the
    /// host.
    pub fn execute_current(&mut self) -> (request: Request)
        requires
            old(self)@.valid(),
        ensures
            final(self)@ == old(self)@.execute(),
            request@ == final(self)@.task.request(),
    {
        self.task = Task::Idle;
        if self.is_in_neovim_menu {
            match self.neovim_menu_items[self.neovim_menu_state].1 {
                NeoVimItem::BackUpState => self.backup_state(),
                NeoVimItem::BackUpShare => self.backup_share(),
                NeoVimItem::BackupCache => self.backup_cache(),
                NeoVimItem::BackToMainMenu => self.is_in_neovim_menu = false,
            }
        } else {
            match self.menu_items[self.menu_state].1 {
                MenuItem::UpdatePackages => self.update_pkgs(),
                MenuItem::CloneRepo => self.clone_repository(),
                MenuItem::UpgradePackages => self.upgrade_packages(),
                MenuItem::InstallPackages => self.install_packages(),
                MenuItem::LinkDotFiles => self.link_dot_files(),
                MenuItem::UnLinkDotFiles => self.unstow_dot_files(),
                MenuItem::SyncDotFiles => self.update_dotfiles(),
                MenuItem::Quit => {},
                MenuItem::NeoVimMenu => {
                    self.is_in_neovim_menu = true;
                    self.output = String::from_str("Welcome to NeoVim Menu!");
                },
            }
        }
        self.task.request()
    }

    /// Takes the host's reply to the last request and tells what the host
    /// has to do next. At the end of the operation the status line holds
    /// the operation's status, and the request is `Finished`, or `Abort`
    /// where the operation met a precondition that nothing can repair.
    pub fn resume(&mut self, reply: Reply) -> (request: Request)
        ensures
            final(self)@ == old(self)@.resume(reply@),
            request@ == old(self)@.asks(reply@),
    {
        let mut task = Task::Idle;
        core::mem::swap(&mut self.task, &mut task);
        let task = task.advance(reply);
        let request = task.request();
        if task.over() {
            self.output = task.status();
        } else {
            self.task = task;
        }
        request
    }

    /// Tells whether the controller can take `key`.
    pub fn accepts(&self, key: Key) -> (r: bool)
        ensures
            r == self@.takes(key),
    {
        let (cursor, shown) = if self.is_in_neovim_menu {
            (self.neovim_menu_state, self.neovim_menu_items.len())
        } else {
            (self.menu_state, self.menu_items.len())
        };
        match key {
            Key::Char(c) => {
                if c == 'j' {
                    shown > 0 && cursor < usize::MAX
                } else if c == 'k' {
                    cursor > 0 || shown > 0
                } else {
                    true
                }
            },
            Key::Down => shown > 0 && cursor < usize::MAX,
            Key::Up => cursor > 0 || shown > 0,
            Key::Enter => cursor < shown,
            _ => true,
        }
    }

    /// Takes a key and tells the host how to go on.
    pub fn handle_key(&mut self, key: Key) -> (flow: Flow)
        requires
            old(self)@.takes(key),
        ensures
            final(self)@ == old(self)@.after_key(key),
            flow@ == old(self)@.flow(key),
    {
        match key {
            Key::Char(c) => {
                if c == 'q' {
                    if self.is_in_neovim_menu {
                        self.leave_submenu();
                        Flow::Stay
                    } else {
                        Flow::Leave
                    }
                } else if c == 'j' {
                    self.next();
                    Flow::Stay
                } else if c == 'k' {
                    self.previous();
                    Flow::Stay
                } else {
                    Flow::Stay
                }
            },
            Key::Down => {
                self.next();
                Flow::Stay
            },
            Key::Up => {
                self.previous();
                Flow::Stay
            },
            Key::Enter => {
                let quit = !self.is_in_neovim_menu && match self.menu_items[self.menu_state].1 {
                    MenuItem::Quit => true,
                    _ => false,
                };
                if quit {
                    Flow::Leave
                } else {
                    Flow::Perform(self.execute_current())
                }
            },
            Key::Esc => {
                if self.is_in_neovim_menu {
                    self.leave_submenu();
                }
                Flow::Stay
            },
            Key::Other => Flow::Stay,
        }
    }

    fn leave_submenu(&mut self)
        ensures
            final(self)@ == old(self)@.leave_submenu(),
    {
        self.is_in_neovim_menu = false;
        self.output = String::from_str("Returned to main menu. Select an option.");
    }
}

impl AppView {
    /// The controller after the host's replies, one after another.
    pub open spec fn run(self, replies: Seq<ReplyView>) -> AppView
        decreases replies.len(),
    {
        if replies.len() == 0 {
            self
        } else {
            self.resume(replies[0]).run(replies.drop_first())
        }
    }

    /// Whether the cursor is on one of the operations of the main menu.
    pub open spec fn on_operation(self) -> bool {
        &&& self.valid()
        &&& !self.is_in_neovim_menu
        &&& !(self.menu_items[self.menu_state as int].1 is Quit)
        &&& !(self.menu_items[self.menu_state as int].1 is NeoVimMenu)
    }
}

/// Moving the cursor keeps it on the menu that is shown and touches nothing
/// else. The menu is one that fits in memory.
pub proof fn lemma_cursor_stays_valid(app: AppView)
    requires
        app.valid(),
        app.shown() <= usize::MAX,
    ensures
        app.next().valid(),
        app.previous().valid(),
        app.next() == app.with_cursor(app.next().cursor()),
        app.previous() == app.with_cursor(app.previous().cursor()),
        app.cursor() + 1 < app.shown() ==> app.next().cursor() == app.cursor() + 1,
        app.cursor() + 1 == app.shown() ==> app.next().cursor() == 0,
        app.cursor() > 0 ==> app.previous().cursor() == app.cursor() - 1,
        app.cursor() == 0 ==> app.previous().cursor() == app.shown() - 1,
{
    let n = app.shown() as int;
    let c = app.cursor() as int;
    if c + 1 < n {
        assert((c + 1) % n == c + 1) by (nonlinear_arith)
            requires
                0 <= c + 1 < n,
        ;
    } else {
        assert((c + 1) % n == 0) by (nonlinear_arith)
            requires
                c + 1 == n,
                n > 0,
        ;
    }
}

/// The way out, the way into the submenu and everything in the submenu
/// start no operation: nothing is asked of the host.
pub proof fn lemma_navigation_is_inert(app: AppView)
    requires
        app.valid(),
        !app.on_operation(),
    ensures
        app.execute().task is Idle,
        app.execute().task.request() == RequestView::Finished,
        app.execute().menu_items == app.menu_items,
        app.execute().neovim_menu_items == app.neovim_menu_items,
        app.execute().menu_state == app.menu_state,
        app.execute().neovim_menu_state == app.neovim_menu_state,
{
}

/// Every operation ends with exactly one status: at the reply that brings
/// the operation in flight to its end, its status replaces the status line
/// and nothing is in flight any more; until then the status line stays.
pub proof fn lemma_status_at_the_end(app: AppView, reply: ReplyView)
    ensures
        app.task.advance(reply).over() ==> {
            &&& app.resume(reply).output == app.task.advance(reply).status()
            &&& app.resume(reply).task is Idle
            &&& app.asks(reply).terminal()
        },
        !app.task.advance(reply).over() ==> {
            &&& app.resume(reply).output == app.output
            &&& app.resume(reply).task == app.task.advance(reply)
        },
        app.resume(reply).say(app.output) == app.start(app.resume(reply).task),
{
}

/// Two controllers that differ in nothing but the status line stay so over
/// the same replies, and once an operation that was in flight has come to
/// its end they do not differ at all.
pub proof fn lemma_status_is_overwritten(a: AppView, b: AppView, replies: Seq<ReplyView>)
    requires
        b.say(a.output) == a,
    ensures
        b.run(replies).say(a.run(replies).output) == a.run(replies),
        !(a.task is Idle) && a.run(replies).task is Idle ==> a.run(replies) == b.run(replies),
    decreases replies.len(),
{
    if replies.len() > 0 {
        lemma_status_is_overwritten(
            a.resume(replies[0]),
            b.resume(replies[0]),
            replies.drop_first(),
        );
    }
}

/// Replies change the operation in flight and the status line, nothing
/// else.
pub proof fn lemma_run_keeps_menu(app: AppView, replies: Seq<ReplyView>)
    ensures
        app.run(replies).say(app.output).start(app.task) == app,
    decreases replies.len(),
{
    if replies.len() > 0 {
        lemma_run_keeps_menu(app.resume(replies[0]), replies.drop_first());
    }
}

/// Running an operation again, with the host giving the same replies, ends
/// as it ended the first time: with the same status and in the same state.
/// What the status line held before has no part in it.
pub proof fn lemma_rerun_same_result(app: AppView, replies: Seq<ReplyView>)
    requires
        app.on_operation(),
        app.execute().run(replies).task is Idle,
    ensures
        ({
            let once = app.execute().run(replies);
            let twice = once.execute().run(replies);
            twice == once
        }),
{
    let first = app.execute();
    let once = first.run(replies);
    lemma_run_keeps_menu(first, replies);
    let second = once.execute();
    assert(second.say(first.output) == first);
    lemma_status_is_overwritten(first, second, replies);
}

/// No operation ends without a word: the status line that an operation
/// leaves at its end is never empty. The one exception is a clone that
/// fails without a reason from the library, whose status is that reason.
pub proof fn lemma_status_is_never_empty(app: AppView, reply: ReplyView)
    requires
        !app.task.over(),
        app.task.advance(reply).over(),
        !(app.task is Clone && wordless(reply)),
    ensures
        app.resume(reply).output.len() > 0,
{
    match app.task {
        TaskView::Idle => {},
        TaskView::Package(task) => {
            lemma_package_status_says_something(task, reply);
        },
        TaskView::Link(task) => {
            lemma_stow_status_says_something(task, UnlinkTaskView::begin(), reply);
        },
        TaskView::Unlink(task) => {
            lemma_stow_status_says_something(LinkTaskView::begin(Seq::empty()), task, reply);
        },
        TaskView::Clone(task) => {
            lemma_sync_status_says_something(SyncTaskView::begin(), task, reply);
        },
        TaskView::Sync(task) => {
            lemma_sync_status_says_something(task, CloneTaskView::begin(), reply);
        },
    }
}

} // verus!
