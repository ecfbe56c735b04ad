use dfile::sync::{Phase, DEFAULT_BRANCH};
use dfile::{Action, Event, Session, Step};

fn strings(parts: &[&str]) -> Vec<String> {
    parts.iter().map(|p| p.to_string()).collect()
}

fn session(names: &[&str]) -> (Session, Step) {
    Session::new(
        "/home/alice".to_string(),
        "/home/alice/.dotfiles".to_string(),
        DEFAULT_BRANCH.to_string(),
        "Jan 05, 2020 (07:08:09)".to_string(),
        "/home/alice".to_string(),
        strings(names),
    )
}

#[test]
fn no_files_selects_update() {
    let (s, step) = session(&[]);
    assert_eq!(s.phase, Phase::Staging);
    assert_eq!(step.say, None);
    assert_eq!(step.action, Action::Git(strings(&["-C", "/home/alice/.dotfiles", "add", "."])));
}

#[test]
fn update_commits_with_stamp() {
    let (mut s, _) = session(&[]);
    let step = s.step(Event::Status(Some(true)));
    assert_eq!(
        step.action,
        Action::GitOutput(strings(&[
            "-C",
            "/home/alice/.dotfiles",
            "commit",
            "-m",
            "\"update changes: Jan 05, 2020 (07:08:09)\"",
        ]))
    );
}

#[test]
fn nothing_to_commit_exits_without_push() {
    let (mut s, _) = session(&[]);
    s.step(Event::Status(Some(true)));
    let out = "On branch master\nYour branch is up to date with 'origin/master'.\n\nnothing to commit, working tree clean\n";
    let step = s.step(Event::Output(Some((false, out.to_string()))));
    assert_eq!(step.action, Action::Exit(0));
    assert_eq!(step.say, Some("Nothing to update, exiting...".to_string()));
    let again = s.step(Event::Status(Some(true)));
    assert_eq!(again.action, Action::Exit(0));
}

#[test]
fn only_one_phrase_goes_on_to_push() {
    let (mut s, _) = session(&[]);
    s.step(Event::Status(Some(true)));
    let step = s.step(Event::Output(Some((true, "nothing to commit".to_string()))));
    assert_eq!(step.action, Action::CountRemotes);
}

#[test]
fn existing_remote_pushes() {
    let (mut s, _) = session(&[]);
    s.step(Event::Status(Some(true)));
    s.step(Event::Output(Some((true, "[master 1a2b3c] update".to_string()))));
    let step = s.step(Event::Remotes(1));
    assert_eq!(step.action, Action::Git(strings(&["-C", "/home/alice/.dotfiles", "push"])));
    let done = s.step(Event::Status(Some(true)));
    assert_eq!(done.action, Action::Exit(0));
    assert_eq!(done.say, Some("Successfully updated dotfile git repo.".to_string()));
}

#[test]
fn no_remote_registers_origin_then_pushes_upstream() {
    let (mut s, _) = session(&[]);
    s.step(Event::Status(Some(true)));
    s.step(Event::Output(Some((true, "[master 1a2b3c] update".to_string()))));
    let ask = s.step(Event::Remotes(0));
    assert!(matches!(ask.action, Action::Ask(_)));
    let add = s.step(Event::Answer("git@example.com:alice/dots.git".to_string()));
    assert_eq!(
        add.action,
        Action::Git(strings(&[
            "-C",
            "/home/alice/.dotfiles",
            "remote",
            "add",
            "origin",
            "git@example.com:alice/dots.git",
        ]))
    );
    let push = s.step(Event::Status(Some(true)));
    assert_eq!(
        push.action,
        Action::Git(strings(&["-C", "/home/alice/.dotfiles", "push", "-u", "origin", "master"]))
    );
    assert_eq!(s.step(Event::Status(Some(true))).action, Action::Exit(0));
}

#[test]
fn stage_failure_exits_with_one() {
    let (mut s, _) = session(&[]);
    let step = s.step(Event::Status(None));
    assert_eq!(step.action, Action::Exit(1));
    assert_eq!(
        step.say,
        Some("Error updating dotfile git repo: could not add updated files to git".to_string())
    );
}

#[test]
fn commit_failure_exits_with_one() {
    let (mut s, _) = session(&[]);
    s.step(Event::Status(Some(true)));
    let step = s.step(Event::Output(None));
    assert_eq!(step.action, Action::Exit(1));
    assert_eq!(step.say, Some("Error updating dotfile git repo: could not commit changes".to_string()));
}

#[test]
fn push_failures_exit_with_one() {
    let (mut s, _) = session(&[]);
    s.step(Event::Status(Some(true)));
    s.step(Event::Output(Some((true, String::new()))));
    s.step(Event::Remotes(2));
    let step = s.step(Event::Status(None));
    assert_eq!(step.action, Action::Exit(1));
    assert_eq!(step.say, Some("Error updating dotfile git repo: could not push changes".to_string()));

    let (mut s, _) = session(&[]);
    s.step(Event::Status(Some(true)));
    s.step(Event::Output(Some((true, String::new()))));
    s.step(Event::Remotes(0));
    s.step(Event::Answer("u".to_string()));
    let step = s.step(Event::Status(None));
    assert_eq!(step.action, Action::Exit(1));
    let (mut s, _) = session(&[]);
    s.step(Event::Status(Some(true)));
    s.step(Event::Output(Some((true, String::new()))));
    s.step(Event::Remotes(0));
    s.step(Event::Answer("u".to_string()));
    s.step(Event::Status(Some(true)));
    let step = s.step(Event::Status(None));
    assert_eq!(
        step.say,
        Some("Error updating dotfile git repo: could not push changes to new remote repo".to_string())
    );
}

#[test]
fn unexpected_event_ends_with_one() {
    let (mut s, _) = session(&[]);
    let step = s.step(Event::Linked);
    assert_eq!(step.action, Action::Exit(1));
}

#[test]
fn files_link_add_and_commit() {
    let (mut s, first) = session(&[".config/vimrc"]);
    assert_eq!(first.action, Action::OpenRepo);
    let dirs = s.step(Event::Ran(true));
    assert_eq!(dirs.action, Action::MakeDirs("/home/alice/dotfiles/config".to_string()));
    let link = s.step(Event::Ran(true));
    assert_eq!(
        link.action,
        Action::Link(
            "/home/alice/.config/vimrc".to_string(),
            "/home/alice/dotfiles/config/vimrc".to_string()
        )
    );
    let add = s.step(Event::Linked);
    assert_eq!(
        add.say,
        Some(".config/vimrc has been successfully hard-linked to dotfiles directory.".to_string())
    );
    assert_eq!(
        add.action,
        Action::GitQuiet(strings(&["-C", "/home/alice/.dotfiles", "add", "/home/alice/dotfiles/config/vimrc"]))
    );
    let commit = s.step(Event::Status(Some(false)));
    assert_eq!(
        commit.action,
        Action::GitQuiet(strings(&["-C", "/home/alice/.dotfiles", "commit", "-m", "\"add .config/vimrc\""]))
    );
    let end = s.step(Event::Status(Some(true)));
    assert_eq!(end.action, Action::Exit(0));
}

#[test]
fn link_failure_goes_on_to_next_file() {
    let (mut s, _) = session(&[".bashrc", ".zshrc", ".vimrc"]);
    s.step(Event::Ran(true));
    s.step(Event::Ran(true));
    let next = s.step(Event::LinkFailed("ln: File exists".to_string()));
    assert_eq!(next.say, Some("Error: ln: File exists".to_string()));
    assert_eq!(next.action, Action::MakeDirs("/home/alice/dotfiles".to_string()));
    assert_eq!(s.phase, Phase::MakingDirs(1));
    let link = s.step(Event::Ran(true));
    assert_eq!(
        link.action,
        Action::Link("/home/alice/.zshrc".to_string(), "/home/alice/dotfiles/zshrc".to_string())
    );
}

#[test]
fn link_failure_of_last_file_ends_with_zero() {
    let (mut s, _) = session(&[".bashrc"]);
    s.step(Event::Ran(true));
    s.step(Event::Ran(true));
    let end = s.step(Event::LinkFailed("boom".to_string()));
    assert_eq!(end.action, Action::Exit(0));
}

#[test]
fn missing_repo_asks_and_declining_exits_with_zero() {
    let (mut s, _) = session(&[".bashrc"]);
    let ask = s.step(Event::Ran(false));
    assert_eq!(
        ask.action,
        Action::Ask("No git repo found at DOTFILE_PATH, would you like to create one? (y/n) ".to_string())
    );
    let end = s.step(Event::Answer("n".to_string()));
    assert_eq!(end.action, Action::Exit(0));
}

#[test]
fn missing_repo_accepted_inits_then_links() {
    let (mut s, _) = session(&[".bashrc"]);
    s.step(Event::Ran(false));
    let init = s.step(Event::Answer("y".to_string()));
    assert_eq!(init.action, Action::InitRepo);
    let dirs = s.step(Event::Ran(true));
    assert_eq!(dirs.action, Action::MakeDirs("/home/alice/dotfiles".to_string()));
}

#[test]
fn failed_init_exits_with_one() {
    let (mut s, _) = session(&[".bashrc"]);
    s.step(Event::Ran(false));
    s.step(Event::Answer("y".to_string()));
    let end = s.step(Event::Ran(false));
    assert_eq!(end.action, Action::Exit(1));
}

#[test]
fn failed_directory_creation_exits_with_one() {
    let (mut s, _) = session(&[".config/vimrc"]);
    s.step(Event::Ran(true));
    let end = s.step(Event::Failed("Permission denied (os error 13)".to_string()));
    assert_eq!(end.action, Action::Exit(1));
    assert_eq!(
        end.say,
        Some(
            "Couldn't create the directory /home/alice/dotfiles/config: Permission denied (os error 13)"
                .to_string()
        )
    );
}

#[test]
fn failing_git_runs_are_their_own_error() {
    let (mut s, _) = session(&[]);
    let step = s.step(Event::Status(Some(false)));
    assert_eq!(step.action, Action::Exit(1));
    assert_eq!(
        step.say,
        Some("Error updating dotfile git repo: git operation failed: add".to_string())
    );

    let (mut s, _) = session(&[]);
    s.step(Event::Status(Some(true)));
    let step = s.step(Event::Output(Some((false, "error: could not commit".to_string()))));
    assert_eq!(
        step.say,
        Some("Error updating dotfile git repo: git operation failed: commit".to_string())
    );

    let (mut s, _) = session(&[]);
    s.step(Event::Status(Some(true)));
    s.step(Event::Output(Some((true, String::new()))));
    s.step(Event::Remotes(1));
    let step = s.step(Event::Status(Some(false)));
    assert_eq!(step.action, Action::Exit(1));
    assert_eq!(
        step.say,
        Some("Error updating dotfile git repo: git operation failed: push".to_string())
    );

    let (mut s, _) = session(&[]);
    s.step(Event::Status(Some(true)));
    s.step(Event::Output(Some((true, String::new()))));
    s.step(Event::Remotes(0));
    s.step(Event::Answer("u".to_string()));
    let step = s.step(Event::Status(Some(false)));
    assert_eq!(
        step.say,
        Some("Error updating dotfile git repo: git operation failed: remote add".to_string())
    );
}

#[test]
fn failed_per_file_commit_goes_on() {
    let (mut s, _) = session(&[".bashrc", ".zshrc"]);
    s.step(Event::Ran(true));
    s.step(Event::Ran(true));
    s.step(Event::Linked);
    s.step(Event::Status(Some(false)));
    let next = s.step(Event::Status(None));
    assert_eq!(next.action, Action::MakeDirs("/home/alice/dotfiles".to_string()));
    assert_eq!(s.phase, Phase::MakingDirs(1));
}
