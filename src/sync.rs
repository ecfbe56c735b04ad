//! One invocation as a state machine.
//!
//! A [`Session`] decides; its caller acts. Each [`Step`] names one thing to do
//! (run git, make directories, create a link, ask the user, exit) and maybe a
//! line to print first; the caller does it and hands back the [`Event`] that
//! came of it. With no files the session stages, commits and pushes every
//! change under the dotfile root, setting up a remote on the first push. With
//! files it links each one under the dotfile root and commits it.

use vstd::prelude::*;
use vstd::string::*;
use crate::path::{dest_parent, get_dest, resolve, dest_path, parent_path, resolved};
use crate::text::{contains, contains_text};

verus! {

/// Branch that the first push sets as upstream, unless told otherwise.
pub const DEFAULT_BRANCH: &'static str = "master";

/// Phrases by which git's commit output says that nothing was staged.
pub const NOTHING_TO_COMMIT: &'static str = "nothing to commit";
pub const UP_TO_DATE: &'static str = "up to date";

/// The answer that accepts a question.
pub const YES: &'static str = "y";

pub const INIT_QUESTION: &'static str =
    "No git repo found at DOTFILE_PATH, would you like to create one? (y/n) ";
pub const REMOTE_QUESTION: &'static str =
    "No remote repository found. What is the URL of the remote to push to? ";
pub const NOTHING_TO_UPDATE: &'static str = "Nothing to update, exiting...";
pub const UPDATED: &'static str = "Successfully updated dotfile git repo.";
pub const UPDATE_FAILED: &'static str = "Error updating dotfile git repo: ";
pub const STAGE_FAILED: &'static str = "could not add updated files to git";
pub const COMMIT_FAILED: &'static str = "could not commit changes";
pub const REMOTE_FAILED: &'static str = "could not add the new remote repo";
pub const PUSH_FAILED: &'static str = "could not push changes";
pub const UPSTREAM_FAILED: &'static str = "could not push changes to new remote repo";
pub const INIT_FAILED: &'static str = "Couldn't create a new git repo with DOTFILE_PATH";
pub const DIRS_FAILED: &'static str = "Couldn't create the directory ";
pub const DIRS_FAILED_SEP: &'static str = ": ";
pub const GIT_FAILED: &'static str = "git operation failed: ";
pub const LINKED: &'static str = " has been successfully hard-linked to dotfiles directory.";
pub const LINK_ERROR: &'static str = "Error: ";
pub const UNEXPECTED: &'static str = "Unexpected report for the step in progress";

/// What the caller is asked to do.
#[derive(Clone, Debug, PartialEq, Eq)]
pub enum Action {
    /// Run `git` with these arguments, its output shown, wait for it, and
    /// report `Status`.
    Git(Vec<String>),
    /// Run `git` with these arguments, its output captured and dropped, and
    /// report `Status`.
    GitQuiet(Vec<String>),
    /// Run `git` with these arguments and report `Output` with whether it
    /// exited with success and its standard output, or `Output(None)` if it
    /// could not be started.
    GitOutput(Vec<String>),
    /// Count the remotes of the repository at the dotfile root; report `Remotes`.
    CountRemotes,
    /// Open the dotfile root as a git repository; report `Ran` with whether it is one.
    OpenRepo,
    /// Create a git repository at the dotfile root; report `Ran`.
    InitRepo,
    /// Print the question, read a line, and report `Answer`.
    Ask(String),
    /// Create this directory and its parents; report `Ran(true)`, or
    /// `Failed` with the system's error text.
    MakeDirs(String),
    /// Hardlink the first path at the second; report `Linked` or `LinkFailed`.
    Link(String, String),
    /// End the invocation with this exit status.
    Exit(u8),
}

/// What an [`Action`] stands for.
pub enum Act {
    Git(Seq<Seq<char>>),
    GitQuiet(Seq<Seq<char>>),
    GitOutput(Seq<Seq<char>>),
    CountRemotes,
    OpenRepo,
    InitRepo,
    Ask(Seq<char>),
    MakeDirs(Seq<char>),
    Link(Seq<char>, Seq<char>),
    Exit(u8),
}

impl View for Action {
    type V = Act;

    open spec fn view(&self) -> Act {
        match self {
            Action::Git(a) => Act::Git(a.deep_view()),
            Action::GitQuiet(a) => Act::GitQuiet(a.deep_view()),
            Action::GitOutput(a) => Act::GitOutput(a.deep_view()),
            Action::CountRemotes => Act::CountRemotes,
            Action::OpenRepo => Act::OpenRepo,
            Action::InitRepo => Act::InitRepo,
            Action::Ask(q) => Act::Ask(q@),
            Action::MakeDirs(d) => Act::MakeDirs(d@),
            Action::Link(a, b) => Act::Link(a@, b@),
            Action::Exit(c) => Act::Exit(*c),
        }
    }
}

/// What came of an [`Action`].
#[derive(Clone, Debug, PartialEq, Eq)]
pub enum Event {
    Ran(bool),
    /// A git run: `None` when it could not be started, else whether it
    /// exited with success.
    Status(Option<bool>),
    /// A captured git run: `None` when it could not be started, else whether
    /// it exited with success and its standard output.
    Output(Option<(bool, String)>),
    /// The action failed, with the system's error text.
    Failed(String),
    Remotes(usize),
    Answer(String),
    Linked,
    LinkFailed(String),
}

/// What an [`Event`] stands for.
pub enum Happened {
    Ran(bool),
    Status(Option<bool>),
    Output(Option<(bool, Seq<char>)>),
    Failed(Seq<char>),
    Remotes(nat),
    Answer(Seq<char>),
    Linked,
    LinkFailed(Seq<char>),
}

impl View for Event {
    type V = Happened;

    open spec fn view(&self) -> Happened {
        match self {
            Event::Ran(b) => Happened::Ran(*b),
            Event::Status(st) => Happened::Status(*st),
            Event::Output(None) => Happened::Output(None),
            Event::Output(Some((ok, o))) => Happened::Output(Some((*ok, o@))),
            Event::Failed(e) => Happened::Failed(e@),
            Event::Remotes(n) => Happened::Remotes(*n as nat),
            Event::Answer(a) => Happened::Answer(a@),
            Event::Linked => Happened::Linked,
            Event::LinkFailed(e) => Happened::LinkFailed(e@),
        }
    }
}

/// A line to print, if any, and then an action.
#[derive(Clone, Debug, PartialEq, Eq)]
pub struct Step {
    pub say: Option<String>,
    pub action: Action,
}

pub struct StepView {
    pub say: Option<Seq<char>>,
    pub act: Act,
}

impl View for Step {
    type V = StepView;

    open spec fn view(&self) -> StepView {
        StepView {
            say: match self.say {
                Some(s) => Some(s@),
                None => None,
            },
            act: self.action@,
        }
    }
}

/// Where a session stands: which action's report it waits for.
#[derive(Clone, Copy, Debug, PartialEq, Eq, Structural)]
pub enum Phase {
    Staging,
    Committing,
    ListingRemotes,
    AskingRemote,
    AddingRemote,
    Pushing,
    PushingUpstream,
    OpeningRepo,
    AskingInit,
    Initializing,
    MakingDirs(usize),
    Linking(usize),
    AddingFile(usize),
    CommittingFile(usize),
    Finished(u8),
}

/// One invocation: its settings, the files it links and where each goes.
pub struct Session {
    pub home: String,
    pub root: String,
    pub branch: String,
    pub stamp: String,
    pub cwd: String,
    pub names: Vec<String>,
    pub sources: Vec<String>,
    pub dests: Vec<String>,
    pub parents: Vec<String>,
    pub phase: Phase,
}

/// The same session in another phase.
pub open spec fn in_phase(s: Session, p: Phase) -> Session {
    Session { phase: p, ..s }
}

impl Session {
    /// Every file has its resolved source, its destination and the directory
    /// that holds the destination, and a phase at a file names one of them.
    pub open spec fn wf(&self) -> bool {
        let n = self.names.len();
        &&& self.sources.len() == n
        &&& self.dests.len() == n
        &&& self.parents.len() == n
        &&& forall|i: int|
            0 <= i < n ==> {
                &&& #[trigger] self.sources[i]@ == resolved(self.cwd@, self.names[i]@)
                &&& self.dests[i]@ == dest_path(self.sources[i]@, self.home@, self.root@)
                &&& self.parents[i]@ == parent_path(self.sources[i]@, self.home@, self.root@)
            }
        &&& match self.phase {
            Phase::MakingDirs(i) => i < n,
            Phase::Linking(i) => i < n,
            Phase::AddingFile(i) => i < n,
            Phase::CommittingFile(i) => i < n,
            _ => true,
        }
    }
}

/// Arguments that run a git subcommand in the repository at `root`.
pub open spec fn git_in(root: Seq<char>, rest: Seq<Seq<char>>) -> Seq<Seq<char>> {
    seq!["-C"@, root] + rest
}

/// Commit message of an update.
pub open spec fn update_message(stamp: Seq<char>) -> Seq<char> {
    "\"update changes: "@ + stamp + "\""@
}

/// Commit message for a newly linked file.
pub open spec fn add_message(name: Seq<char>) -> Seq<char> {
    "\"add "@ + name + "\""@
}

/// Commit output that says nothing was staged.
pub open spec fn nothing_committed(out: Seq<char>) -> bool {
    contains_text(out, NOTHING_TO_COMMIT@) && contains_text(out, UP_TO_DATE@)
}

pub open spec fn quiet(act: Act) -> StepView {
    StepView { say: None, act }
}

pub open spec fn saying(msg: Seq<char>, act: Act) -> StepView {
    StepView { say: Some(msg), act }
}

/// An update that fails: the reason is printed and the invocation ends with 1.
pub open spec fn update_failed(reason: Seq<char>) -> (Phase, StepView) {
    (Phase::Finished(1), saying(UPDATE_FAILED@ + reason, Act::Exit(1)))
}

/// An update whose git command `op` started but exited with a failure.
pub open spec fn git_failed(op: Seq<char>) -> (Phase, StepView) {
    update_failed(GIT_FAILED@ + op)
}

pub open spec fn unexpected() -> (Phase, StepView) {
    (Phase::Finished(1), saying(UNEXPECTED@, Act::Exit(1)))
}

/// Turning to the file at index `i`, after printing `note` if there is one;
/// past the last file the invocation ends with 0.
pub open spec fn to_file(s: Session, i: nat, note: Option<Seq<char>>) -> (Phase, StepView) {
    if i < s.names.len() {
        (
            Phase::MakingDirs(i as usize),
            StepView { say: note, act: Act::MakeDirs(s.parents[i as int]@) },
        )
    } else {
        (Phase::Finished(0), StepView { say: note, act: Act::Exit(0) })
    }
}

/// The first step of a session: an update when no file is given, else a
/// look for the repository before the first file.
pub open spec fn first_step(s: Session) -> (Phase, StepView) {
    if s.names.len() == 0 {
        (Phase::Staging, quiet(Act::Git(git_in(s.root@, seq!["add"@, "."@]))))
    } else {
        (Phase::OpeningRepo, quiet(Act::OpenRepo))
    }
}

/// The next phase and step of session `s` once `e` is reported.
pub open spec fn transition(s: Session, e: Happened) -> (Phase, StepView) {
    match s.phase {
        Phase::Staging => match e {
            Happened::Status(Some(true)) => (
                Phase::Committing,
                quiet(
                    Act::GitOutput(
                        git_in(s.root@, seq!["commit"@, "-m"@, update_message(s.stamp@)]),
                    ),
                ),
            ),
            Happened::Status(Some(false)) => git_failed("add"@),
            Happened::Status(None) => update_failed(STAGE_FAILED@),
            _ => unexpected(),
        },
        Phase::Committing => match e {
            Happened::Output(Some((ok, out))) => if nothing_committed(out) {
                (Phase::Finished(0), saying(NOTHING_TO_UPDATE@, Act::Exit(0)))
            } else if !ok {
                git_failed("commit"@)
            } else {
                (Phase::ListingRemotes, quiet(Act::CountRemotes))
            },
            Happened::Output(None) => update_failed(COMMIT_FAILED@),
            _ => unexpected(),
        },
        Phase::ListingRemotes => match e {
            Happened::Remotes(n) => if n > 0 {
                (Phase::Pushing, quiet(Act::Git(git_in(s.root@, seq!["push"@]))))
            } else {
                (Phase::AskingRemote, quiet(Act::Ask(REMOTE_QUESTION@)))
            },
            _ => unexpected(),
        },
        Phase::AskingRemote => match e {
            Happened::Answer(url) => (
                Phase::AddingRemote,
                quiet(Act::Git(git_in(s.root@, seq!["remote"@, "add"@, "origin"@, url]))),
            ),
            _ => unexpected(),
        },
        Phase::AddingRemote => match e {
            Happened::Status(Some(true)) => (
                Phase::PushingUpstream,
                quiet(Act::Git(git_in(s.root@, seq!["push"@, "-u"@, "origin"@, s.branch@]))),
            ),
            Happened::Status(Some(false)) => git_failed("remote add"@),
            Happened::Status(None) => update_failed(REMOTE_FAILED@),
            _ => unexpected(),
        },
        Phase::Pushing => match e {
            Happened::Status(Some(true)) => (Phase::Finished(0), saying(UPDATED@, Act::Exit(0))),
            Happened::Status(Some(false)) => git_failed("push"@),
            Happened::Status(None) => update_failed(PUSH_FAILED@),
            _ => unexpected(),
        },
        Phase::PushingUpstream => match e {
            Happened::Status(Some(true)) => (Phase::Finished(0), saying(UPDATED@, Act::Exit(0))),
            Happened::Status(Some(false)) => git_failed("push"@),
            Happened::Status(None) => update_failed(UPSTREAM_FAILED@),
            _ => unexpected(),
        },
        Phase::OpeningRepo => match e {
            Happened::Ran(true) => to_file(s, 0, None),
            Happened::Ran(false) => (Phase::AskingInit, quiet(Act::Ask(INIT_QUESTION@))),
            _ => unexpected(),
        },
        Phase::AskingInit => match e {
            Happened::Answer(a) => if a == YES@ {
                (Phase::Initializing, quiet(Act::InitRepo))
            } else {
                (Phase::Finished(0), quiet(Act::Exit(0)))
            },
            _ => unexpected(),
        },
        Phase::Initializing => match e {
            Happened::Ran(true) => to_file(s, 0, None),
            Happened::Ran(false) => (Phase::Finished(1), saying(INIT_FAILED@, Act::Exit(1))),
            _ => unexpected(),
        },
        Phase::MakingDirs(i) => match e {
            Happened::Ran(true) => (
                Phase::Linking(i),
                quiet(Act::Link(s.sources[i as int]@, s.dests[i as int]@)),
            ),
            Happened::Failed(err) => (
                Phase::Finished(1),
                saying(DIRS_FAILED@ + s.parents[i as int]@ + DIRS_FAILED_SEP@ + err, Act::Exit(1)),
            ),
            _ => unexpected(),
        },
        Phase::Linking(i) => match e {
            Happened::Linked => (
                Phase::AddingFile(i),
                saying(
                    s.names[i as int]@ + LINKED@,
                    Act::GitQuiet(git_in(s.root@, seq!["add"@, s.dests[i as int]@])),
                ),
            ),
            Happened::LinkFailed(err) => to_file(s, (i + 1) as nat, Some(LINK_ERROR@ + err)),
            _ => unexpected(),
        },
        Phase::AddingFile(i) => match e {
            Happened::Status(_) => (
                Phase::CommittingFile(i),
                quiet(
                    Act::GitQuiet(
                        git_in(s.root@, seq!["commit"@, "-m"@, add_message(s.names[i as int]@)]),
                    ),
                ),
            ),
            _ => unexpected(),
        },
        Phase::CommittingFile(i) => match e {
            Happened::Status(_) => to_file(s, (i + 1) as nat, None),
            _ => unexpected(),
        },
        Phase::Finished(c) => (Phase::Finished(c), quiet(Act::Exit(c))),
    }
}

/// Given no files, a session takes the update path: its first action stages
/// every change under the dotfile root.
pub proof fn lemma_no_files_updates(s: Session)
    requires
        s.names.len() == 0,
    ensures
        first_step(s).0 == Phase::Staging,
        first_step(s).1.act == Act::Git(git_in(s.root@, seq!["add"@, "."@])),
{
}

/// When the commit output says both that there is nothing to commit and that
/// the branch is up to date, the session ends with status 0, and nothing it
/// does afterwards is a push: every later step is that same exit.
pub proof fn lemma_nothing_to_commit_ends(s: Session, ok: bool, out: Seq<char>, later: Happened)
    requires
        s.phase == Phase::Committing,
        contains_text(out, NOTHING_TO_COMMIT@),
        contains_text(out, UP_TO_DATE@),
    ensures
        transition(s, Happened::Output(Some((ok, out)))) == (
            Phase::Finished(0),
            saying(NOTHING_TO_UPDATE@, Act::Exit(0)),
        ),
        transition(in_phase(s, Phase::Finished(0)), later) == (
            Phase::Finished(0),
            quiet(Act::Exit(0)),
        ),
{
}

/// With no remote configured, the session registers a remote named `origin`
/// at the URL the user gives before it pushes, and that push sets `origin`
/// as upstream for the configured branch.
pub proof fn lemma_no_remote_registers_origin(s: Session, url: Seq<char>)
    requires
        s.phase == Phase::ListingRemotes,
    ensures
        ({
            let (p1, st1) = transition(s, Happened::Remotes(0));
            let (p2, st2) = transition(in_phase(s, p1), Happened::Answer(url));
            let (p3, st3) = transition(in_phase(s, p2), Happened::Status(Some(true)));
            &&& p1 == Phase::AskingRemote
            &&& st1.act == Act::Ask(REMOTE_QUESTION@)
            &&& p2 == Phase::AddingRemote
            &&& st2.act == Act::Git(git_in(s.root@, seq!["remote"@, "add"@, "origin"@, url]))
            &&& p3 == Phase::PushingUpstream
            &&& st3.act == Act::Git(git_in(s.root@, seq!["push"@, "-u"@, "origin"@, s.branch@]))
        }),
{
}

/// A git command of the update that starts but exits with a failure ends the
/// session with status 1 and an error of its own kind, naming the command.
pub proof fn lemma_failed_git_run_is_an_error(s: Session)
    requires
        s.phase == Phase::Staging || s.phase == Phase::AddingRemote || s.phase == Phase::Pushing
            || s.phase == Phase::PushingUpstream,
    ensures
        ({
            let (p, st) = transition(s, Happened::Status(Some(false)));
            &&& p == Phase::Finished(1)
            &&& st.act == Act::Exit(1)
            &&& st.say == Some(
                UPDATE_FAILED@ + GIT_FAILED@ + (if s.phase == Phase::Staging {
                    "add"@
                } else if s.phase == Phase::AddingRemote {
                    "remote add"@
                } else {
                    "push"@
                }),
            )
        }),
{
}

/// With a remote configured, the session pushes plainly.
pub proof fn lemma_remote_pushes(s: Session, n: nat)
    requires
        s.phase == Phase::ListingRemotes,
        n > 0,
    ensures
        transition(s, Happened::Remotes(n)) == (
            Phase::Pushing,
            quiet(Act::Git(git_in(s.root@, seq!["push"@]))),
        ),
{
}

/// A file whose link fails does not end the batch: the error is printed and
/// the session goes on to the next file.
pub proof fn lemma_link_failure_continues(s: Session, i: usize, err: Seq<char>)
    requires
        s.wf(),
        s.phase == Phase::Linking(i),
        i + 1 < s.names.len(),
    ensures
        transition(s, Happened::LinkFailed(err)) == (
            Phase::MakingDirs((i + 1) as usize),
            StepView {
                say: Some(LINK_ERROR@ + err),
                act: Act::MakeDirs(s.parents[i + 1]@),
            },
        ),
{
}

fn own(s: &str) -> (r: String)
    ensures
        r@ == s@,
{
    String::from_str(s)
}

fn join3(a: &str, b: &str, c: &str) -> (r: String)
    ensures
        r@ == a@ + b@ + c@,
{
    String::from_str(a).concat(b).concat(c)
}

/// Arguments that run the git subcommand `rest` in the repository at `root`.
fn git(root: &str, rest: &Vec<&str>) -> (r: Vec<String>)
    ensures
        r.deep_view() == git_in(root@, rest@.map_values(|p: &str| p@)),
{
    let mut v: Vec<String> = Vec::new();
    v.push(own("-C"));
    v.push(own(root));
    let mut i: usize = 0;
    assert(v.deep_view() =~= seq!["-C"@, root@] + rest@.subrange(0, 0).map_values(|p: &str| p@));
    while i < rest.len()
        invariant
            i <= rest.len(),
            v.deep_view() == seq!["-C"@, root@] + rest@.subrange(0, i as int).map_values(
                |p: &str| p@,
            ),
        decreases rest.len() - i,
    {
        let ghost before = v.deep_view();
        v.push(own(rest[i]));
        assert(v.deep_view() =~= before.push(rest@[i as int]@));
        assert(rest@.subrange(0, i + 1).map_values(|p: &str| p@) =~= rest@.subrange(
            0,
            i as int,
        ).map_values(|p: &str| p@).push(rest@[i as int]@));
        i = i + 1;
    }
    assert(rest@.subrange(0, rest.len() as int) =~= rest@);
    v
}

fn quiet_step(action: Action) -> (r: Step)
    ensures
        r@ == quiet(action@),
{
    Step { say: None, action }
}

fn saying_step(msg: String, action: Action) -> (r: Step)
    ensures
        r@ == saying(msg@, action@),
{
    Step { say: Some(msg), action }
}

fn update_failed_step(reason: &str) -> (r: (Phase, Step))
    ensures
        (r.0, r.1@) == update_failed(reason@),
{
    (Phase::Finished(1), saying_step(String::from_str(UPDATE_FAILED).concat(reason), Action::Exit(1)))
}

fn git_failed_step(op: &str) -> (r: (Phase, Step))
    ensures
        (r.0, r.1@) == git_failed(op@),
{
    let msg = String::from_str(UPDATE_FAILED).concat(GIT_FAILED).concat(op);
    assert(msg@ =~= UPDATE_FAILED@ + (GIT_FAILED@ + op@));
    (Phase::Finished(1), saying_step(msg, Action::Exit(1)))
}

fn unexpected_step() -> (r: (Phase, Step))
    ensures
        (r.0, r.1@) == unexpected(),
{
    (Phase::Finished(1), saying_step(own(UNEXPECTED), Action::Exit(1)))
}

/// Tells whether commit output says that nothing was staged.
pub fn says_nothing_committed(out: &str) -> (r: bool)
    ensures
        r == nothing_committed(out@),
{
    contains(out, NOTHING_TO_COMMIT) && contains(out, UP_TO_DATE)
}

impl Session {
    /// Starts a session that links the files `names` (as given, relative to
    /// `cwd` or absolute), or updates the repository when there are none.
    pub fn new(
        home: String,
        root: String,
        branch: String,
        stamp: String,
        cwd: String,
        names: Vec<String>,
    ) -> (r: (Session, Step))
        ensures
            r.0.wf(),
            r.0.home == home,
            r.0.root == root,
            r.0.branch == branch,
            r.0.stamp == stamp,
            r.0.cwd == cwd,
            r.0.names == names,
            (r.0.phase, r.1@) == first_step(r.0),
    {
        let mut sources: Vec<String> = Vec::new();
        let mut dests: Vec<String> = Vec::new();
        let mut parents: Vec<String> = Vec::new();
        let mut i: usize = 0;
        while i < names.len()
            invariant
                i <= names.len(),
                sources.len() == i,
                dests.len() == i,
                parents.len() == i,
                forall|j: int|
                    0 <= j < i ==> {
                        &&& #[trigger] sources[j]@ == resolved(cwd@, names[j]@)
                        &&& dests[j]@ == dest_path(sources[j]@, home@, root@)
                        &&& parents[j]@ == parent_path(sources[j]@, home@, root@)
                    },
            decreases names.len() - i,
        {
            let src = resolve(cwd.as_str(), names[i].as_str());
            dests.push(get_dest(src.as_str(), home.as_str(), root.as_str()));
            parents.push(dest_parent(src.as_str(), home.as_str(), root.as_str()));
            sources.push(src);
            i = i + 1;
        }
        let step = if names.len() == 0 {
            let rest = vec!["add", "."];
            assert(rest@.map_values(|p: &str| p@) =~= seq!["add"@, "."@]);
            quiet_step(Action::Git(git(root.as_str(), &rest)))
        } else {
            quiet_step(Action::OpenRepo)
        };
        let phase = if names.len() == 0 {
            Phase::Staging
        } else {
            Phase::OpeningRepo
        };
        let s = Session { home, root, branch, stamp, cwd, names, sources, dests, parents, phase };
        (s, step)
    }

    fn to_file_step(&self, i: usize, note: Option<String>) -> (r: (Phase, Step))
        requires
            self.wf(),
            i <= self.names.len(),
        ensures
            (r.0, r.1@) == to_file(
                *self,
                i as nat,
                match note {
                    Some(n) => Some(n@),
                    None => None,
                },
            ),
    {
        if i < self.names.len() {
            (
                Phase::MakingDirs(i),
                Step { say: note, action: Action::MakeDirs(self.parents[i].clone()) },
            )
        } else {
            (Phase::Finished(0), Step { say: note, action: Action::Exit(0) })
        }
    }

    fn decide(&self, event: Event) -> (r: (Phase, Step))
        requires
            self.wf(),
        ensures
            (r.0, r.1@) == transition(*self, event@),
    {
        let root = self.root.as_str();
        match self.phase {
            Phase::Staging => match event {
                Event::Status(Some(ok)) => if ok {
                    let msg = join3("\"update changes: ", self.stamp.as_str(), "\"");
                    let rest = vec!["commit", "-m", msg.as_str()];
                    assert(rest@.map_values(|p: &str| p@) =~= seq!["commit"@, "-m"@, msg@]);
                    (Phase::Committing, quiet_step(Action::GitOutput(git(root, &rest))))
                } else {
                    git_failed_step("add")
                },
                Event::Status(None) => update_failed_step(STAGE_FAILED),
                _ => unexpected_step(),
            },
            Phase::Committing => match event {
                Event::Output(Some((ok, out))) => if says_nothing_committed(out.as_str()) {
                    (Phase::Finished(0), saying_step(own(NOTHING_TO_UPDATE), Action::Exit(0)))
                } else if !ok {
                    git_failed_step("commit")
                } else {
                    (Phase::ListingRemotes, quiet_step(Action::CountRemotes))
                },
                Event::Output(None) => update_failed_step(COMMIT_FAILED),
                _ => unexpected_step(),
            },
            Phase::ListingRemotes => match event {
                Event::Remotes(n) => if n > 0 {
                    let rest = vec!["push"];
                    assert(rest@.map_values(|p: &str| p@) =~= seq!["push"@]);
                    (Phase::Pushing, quiet_step(Action::Git(git(root, &rest))))
                } else {
                    (Phase::AskingRemote, quiet_step(Action::Ask(own(REMOTE_QUESTION))))
                },
                _ => unexpected_step(),
            },
            Phase::AskingRemote => match event {
                Event::Answer(url) => {
                    let rest = vec!["remote", "add", "origin", url.as_str()];
                    assert(rest@.map_values(|p: &str| p@) =~= seq![
                        "remote"@,
                        "add"@,
                        "origin"@,
                        url@,
                    ]);
                    (Phase::AddingRemote, quiet_step(Action::Git(git(root, &rest))))
                },
                _ => unexpected_step(),
            },
            Phase::AddingRemote => match event {
                Event::Status(Some(ok)) => if ok {
                    let rest = vec!["push", "-u", "origin", self.branch.as_str()];
                    assert(rest@.map_values(|p: &str| p@) =~= seq![
                        "push"@,
                        "-u"@,
                        "origin"@,
                        self.branch@,
                    ]);
                    (Phase::PushingUpstream, quiet_step(Action::Git(git(root, &rest))))
                } else {
                    git_failed_step("remote add")
                },
                Event::Status(None) => update_failed_step(REMOTE_FAILED),
                _ => unexpected_step(),
            },
            Phase::Pushing => match event {
                Event::Status(Some(ok)) => if ok {
                    (Phase::Finished(0), saying_step(own(UPDATED), Action::Exit(0)))
                } else {
                    git_failed_step("push")
                },
                Event::Status(None) => update_failed_step(PUSH_FAILED),
                _ => unexpected_step(),
            },
            Phase::PushingUpstream => match event {
                Event::Status(Some(ok)) => if ok {
                    (Phase::Finished(0), saying_step(own(UPDATED), Action::Exit(0)))
                } else {
                    git_failed_step("push")
                },
                Event::Status(None) => update_failed_step(UPSTREAM_FAILED),
                _ => unexpected_step(),
            },
            Phase::OpeningRepo => match event {
                Event::Ran(ok) => if ok {
                    self.to_file_step(0, None)
                } else {
                    (Phase::AskingInit, quiet_step(Action::Ask(own(INIT_QUESTION))))
                },
                _ => unexpected_step(),
            },
            Phase::AskingInit => match event {
                Event::Answer(a) => {
                    let yes = own(YES);
                    if a == yes {
                        (Phase::Initializing, quiet_step(Action::InitRepo))
                    } else {
                        (Phase::Finished(0), quiet_step(Action::Exit(0)))
                    }
                },
                _ => unexpected_step(),
            },
            Phase::Initializing => match event {
                Event::Ran(ok) => if ok {
                    self.to_file_step(0, None)
                } else {
                    (Phase::Finished(1), saying_step(own(INIT_FAILED), Action::Exit(1)))
                },
                _ => unexpected_step(),
            },
            Phase::MakingDirs(i) => match event {
                Event::Ran(ok) => if ok {
                    (
                        Phase::Linking(i),
                        quiet_step(Action::Link(self.sources[i].clone(), self.dests[i].clone())),
                    )
                } else {
                    unexpected_step()
                },
                Event::Failed(err) => {
                    let msg = String::from_str(DIRS_FAILED).concat(self.parents[i].as_str()).concat(
                        DIRS_FAILED_SEP,
                    ).concat(err.as_str());
                    (Phase::Finished(1), saying_step(msg, Action::Exit(1)))
                },
                _ => unexpected_step(),
            },
            Phase::Linking(i) => match event {
                Event::Linked => {
                    let msg = self.names[i].clone().concat(LINKED);
                    let rest = vec!["add", self.dests[i].as_str()];
                    assert(rest@.map_values(|p: &str| p@) =~= seq!["add"@, self.dests[i as int]@]);
                    (Phase::AddingFile(i), saying_step(msg, Action::GitQuiet(git(root, &rest))))
                },
                Event::LinkFailed(err) => {
                    let note = String::from_str(LINK_ERROR).concat(err.as_str());
                    self.to_file_step(i + 1, Some(note))
                },
                _ => unexpected_step(),
            },
            Phase::AddingFile(i) => match event {
                Event::Status(_) => {
                    let msg = join3("\"add ", self.names[i].as_str(), "\"");
                    let rest = vec!["commit", "-m", msg.as_str()];
                    assert(rest@.map_values(|p: &str| p@) =~= seq!["commit"@, "-m"@, msg@]);
                    (Phase::CommittingFile(i), quiet_step(Action::GitQuiet(git(root, &rest))))
                },
                _ => unexpected_step(),
            },
            Phase::CommittingFile(i) => match event {
                Event::Status(_) => self.to_file_step(i + 1, None),
                _ => unexpected_step(),
            },
            Phase::Finished(c) => (Phase::Finished(c), quiet_step(Action::Exit(c))),
        }
    }

    /// Takes in what came of the last action and returns the next step.
    pub fn step(&mut self, event: Event) -> (r: Step)
        requires
            old(self).wf(),
        ensures
            final(self).wf(),
            *final(self) == in_phase(*old(self), transition(*old(self), event@).0),
            r@ == transition(*old(self), event@).1,
    {
        let (phase, step) = self.decide(event);
        self.phase = phase;
        step
    }
}

} // verus!
