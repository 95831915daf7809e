use dev_session::action::{Action, Kind, Program};
use dev_session::config::{default_windows, Session, Window};
use dev_session::environment::Environment;
use dev_session::orchestrator::{
    attach_session, complete_tmux, create_window, initiate_tmux, materialize, session_created,
    Attempt,
};

const RENAME_KEYS: &str = r#"tmux rename-window "$(nix --quiet develop --quiet -c bash -c 'env | awk -F= '\''{ if ($1 == "name") print $2 }'\'')" ; clear"#;

fn window(title: &str, nix_shell: &str, nix_rename: bool) -> Window {
    Window { title: title.to_string(), nix_shell: nix_shell.to_string(), nix_rename }
}

fn session(title: &str, windows: Vec<Window>, attach: bool, git: bool) -> Session {
    Session { windows, path: "/tmp/proj".to_string(), title: title.to_string(), git, attach }
}

fn count(actions: &[Action], kind: Kind) -> usize {
    actions.iter().filter(|a| a.kind() == kind).count()
}

fn say(line: &str) -> Action {
    Action::Say(line.to_string())
}

fn keys(target: &str, keys: &str) -> Action {
    Action::SendKeys { target: target.to_string(), keys: keys.to_string() }
}

#[test]
fn first_window_is_not_created() {
    let w = window("", "", false);
    assert_eq!(create_window(1, &w, "work", 0, Environment::Missing), vec![]);
    assert_eq!(create_window(1, &w, "work", 3, Environment::FlakeBased), vec![]);
}

#[test]
fn later_window_is_created_at_its_index() {
    let w = window("", "", false);
    assert_eq!(
        create_window(2, &w, "work", 0, Environment::Missing),
        vec![Action::NewWindow { target: "work:2".to_string() }]
    );
    assert_eq!(
        create_window(12, &w, "work", 1, Environment::Missing),
        vec![
            say("Creating window work:12"),
            Action::NewWindow { target: "work:12".to_string() },
        ]
    );
}

#[test]
fn window_zero_is_created_too() {
    let w = window("", "", false);
    assert_eq!(
        create_window(0, &w, "s", 0, Environment::Missing),
        vec![Action::NewWindow { target: "s:0".to_string() }]
    );
}

#[test]
fn explicit_title_wins_over_environment_rename() {
    for rename in [false, true] {
        for env in [
            Environment::FlakeBased,
            Environment::LegacyNixShell,
            Environment::LegacyDefaultNix,
            Environment::Missing,
        ] {
            let w = window("editor", "", rename);
            assert_eq!(
                create_window(1, &w, "work", 0, env),
                vec![Action::RenameWindow {
                    target: "work:1".to_string(),
                    title: "editor".to_string(),
                }]
            );
        }
    }
}

#[test]
fn untitled_window_is_renamed_from_a_flake_only() {
    let w = window("", "", true);
    assert_eq!(
        create_window(1, &w, "work", 0, Environment::FlakeBased),
        vec![keys("work:1", RENAME_KEYS)]
    );
    assert_eq!(
        create_window(1, &w, "work", 1, Environment::FlakeBased),
        vec![say("Using nix to rename the window"), keys("work:1", RENAME_KEYS)]
    );
    assert_eq!(create_window(1, &w, "work", 0, Environment::LegacyNixShell), vec![]);
    assert_eq!(create_window(1, &w, "work", 0, Environment::LegacyDefaultNix), vec![]);
    assert_eq!(create_window(1, &w, "work", 0, Environment::Missing), vec![]);
    let unasked = window("", "", false);
    assert_eq!(create_window(1, &unasked, "work", 0, Environment::FlakeBased), vec![]);
}

#[test]
fn profile_is_entered_by_name_in_a_flake() {
    let w = window("", "rust", false);
    assert_eq!(
        create_window(1, &w, "work", 0, Environment::FlakeBased),
        vec![keys("work:1", "nix develop --impure .#rust")]
    );
}

#[test]
fn profile_name_is_ignored_in_a_legacy_environment() {
    let w = window("", "rust", false);
    assert_eq!(
        create_window(1, &w, "work", 0, Environment::LegacyNixShell),
        vec![keys("work:1", "nix-shell --impure")]
    );
    assert_eq!(
        create_window(1, &w, "work", 0, Environment::LegacyDefaultNix),
        vec![keys("work:1", "nix-shell --impure")]
    );
}

#[test]
fn missing_descriptor_is_reported_and_the_plan_goes_on() {
    let s = session("work", vec![window("", "rust", false), window("b", "", false)], false, false);
    assert_eq!(
        complete_tmux(&s, 0, true, Environment::Missing, false),
        vec![
            Action::Complain("No nix shell file detected".to_string()),
            Action::NewWindow { target: "work:2".to_string() },
            Action::RenameWindow { target: "work:2".to_string(), title: "b".to_string() },
        ]
    );
}

#[test]
fn full_pass_in_order_with_notes() {
    let w = window("editor", "rust", true);
    assert_eq!(
        create_window(3, &w, "work", 1, Environment::FlakeBased),
        vec![
            say("Creating window work:3"),
            Action::NewWindow { target: "work:3".to_string() },
            say("Setting window title"),
            Action::RenameWindow { target: "work:3".to_string(), title: "editor".to_string() },
            say("Starting nix shell"),
            keys("work:3", "nix develop --impure .#rust"),
        ]
    );
}

#[test]
fn attach_is_a_no_op_when_not_requested() {
    let s = session("work", default_windows(), false, false);
    for inside in [false, true] {
        for created in [false, true] {
            assert_eq!(attach_session(&s, 2, inside, created), vec![]);
        }
    }
}

#[test]
fn inside_a_client_the_client_is_switched() {
    let s = session("work", default_windows(), true, false);
    let plan = attach_session(&s, 0, true, false);
    assert_eq!(plan, vec![Action::SwitchClient { target: "work:1".to_string() }]);
    assert_eq!(count(&plan, Kind::AttachSession), 0);
    assert_eq!(
        attach_session(&s, 1, true, false),
        vec![
            say("Already inside tmux, changig client"),
            Action::SwitchClient { target: "work:1".to_string() },
        ]
    );
}

#[test]
fn outside_a_client_a_client_is_attached() {
    let s = session("work", default_windows(), true, false);
    let plan = attach_session(&s, 0, false, false);
    assert_eq!(plan, vec![Action::AttachSession { target: "work:1".to_string() }]);
    assert_eq!(count(&plan, Kind::SwitchClient), 0);
    assert_eq!(
        attach_session(&s, 1, false, false),
        vec![say("Attaching to session"), Action::AttachSession { target: "work:1".to_string() }]
    );
}

#[test]
fn a_new_session_is_entered_as_a_whole() {
    let s = session("work", default_windows(), true, false);
    assert_eq!(
        attach_session(&s, 0, false, true),
        vec![Action::AttachSession { target: "work".to_string() }]
    );
    assert_eq!(
        attach_session(&s, 0, true, true),
        vec![Action::SwitchClient { target: "work".to_string() }]
    );
    assert_eq!(
        attach_session(&s, 1, true, true),
        vec![
            say("Already inside tmux, changig client"),
            Action::SwitchClient { target: "work".to_string() },
        ]
    );
}

#[test]
fn a_running_session_is_entered_at_its_first_window() {
    let s = session("work", default_windows(), true, false);
    assert_eq!(
        attach_session(&s, 0, false, false),
        vec![Action::AttachSession { target: "work:1".to_string() }]
    );
    assert_eq!(
        attach_session(&s, 0, true, false),
        vec![Action::SwitchClient { target: "work:1".to_string() }]
    );
}

#[test]
fn only_success_counts_as_created() {
    assert!(session_created(Attempt::Succeeded));
    assert!(!session_created(Attempt::Failed));
    assert!(!session_created(Attempt::NotStarted));
}

#[test]
fn an_attempt_that_could_not_start_sets_up_nothing() {
    let s = session("work", vec![window("a", "p", true), window("", "q", true)], true, true);
    let created = session_created(Attempt::NotStarted);
    assert_eq!(
        complete_tmux(&s, 0, created, Environment::FlakeBased, false),
        vec![
            say("Session 'work' already exists or failed to create."),
            Action::AttachSession { target: "work:1".to_string() },
        ]
    );
    assert_eq!(
        complete_tmux(&s, 0, created, Environment::FlakeBased, false),
        complete_tmux(&s, 0, session_created(Attempt::Failed), Environment::FlakeBased, false)
    );
}

#[test]
fn opening_creates_the_session_detached() {
    let s = session("work", default_windows(), true, false);
    assert_eq!(initiate_tmux(&s, 0), vec![Action::NewSession { title: "work".to_string() }]);
    assert_eq!(
        initiate_tmux(&s, 1),
        vec![
            say("Starting tmux session (detached)"),
            Action::NewSession { title: "work".to_string() },
        ]
    );
}

#[test]
fn opening_fetches_first_when_asked() {
    let s = session("work", default_windows(), true, true);
    assert_eq!(
        initiate_tmux(&s, 0),
        vec![Action::FetchRemote, Action::NewSession { title: "work".to_string() }]
    );
    assert_eq!(
        initiate_tmux(&s, 1),
        vec![
            say("Fetching updates from git remote"),
            Action::FetchRemote,
            say("Starting tmux session (detached)"),
            Action::NewSession { title: "work".to_string() },
        ]
    );
}

#[test]
fn n_windows_give_n_minus_one_creations() {
    for n in 1..=12usize {
        let windows: Vec<Window> = (0..n).map(|_| window("w", "p", true)).collect();
        let s = session("work", windows, true, true);
        for env in [Environment::FlakeBased, Environment::LegacyNixShell, Environment::Missing] {
            let plan = materialize(&s, 1, true, env, false);
            assert_eq!(count(&plan, Kind::NewWindow), n - 1);
            assert_eq!(count(&plan, Kind::RenameWindow), n);
            assert_eq!(count(&plan, Kind::NewSession), 1);
            let rest = complete_tmux(&s, 0, true, env, true);
            assert_eq!(count(&rest, Kind::NewWindow), n - 1);
            assert_eq!(count(&rest, Kind::RenameWindow), n);
        }
    }
}

#[test]
fn passes_follow_the_windows_in_order() {
    let s = session(
        "work",
        vec![window("a", "", false), window("", "", false), window("c", "env", false)],
        true,
        false,
    );
    let mut expected: Vec<Action> = Vec::new();
    for (i, w) in s.windows.iter().enumerate() {
        expected.extend(create_window(i + 1, w, "work", 0, Environment::LegacyDefaultNix));
    }
    expected.extend(attach_session(&s, 0, false, true));
    assert_eq!(complete_tmux(&s, 0, true, Environment::LegacyDefaultNix, false), expected);
    assert_eq!(
        expected,
        vec![
            Action::RenameWindow { target: "work:1".to_string(), title: "a".to_string() },
            Action::NewWindow { target: "work:2".to_string() },
            Action::NewWindow { target: "work:3".to_string() },
            Action::RenameWindow { target: "work:3".to_string(), title: "c".to_string() },
            keys("work:3", "nix-shell --impure"),
            Action::AttachSession { target: "work".to_string() },
        ]
    );
}

#[test]
fn session_without_windows_only_attaches() {
    let s = session("work", vec![], true, false);
    assert_eq!(
        complete_tmux(&s, 0, true, Environment::FlakeBased, false),
        vec![Action::AttachSession { target: "work".to_string() }]
    );
}

#[test]
fn conflict_sets_up_nothing() {
    let s = session(
        "work",
        vec![window("a", "p", true), window("", "q", true), window("c", "", false)],
        true,
        true,
    );
    for env in [
        Environment::FlakeBased,
        Environment::LegacyNixShell,
        Environment::LegacyDefaultNix,
        Environment::Missing,
    ] {
        for verbose in [0u8, 1, 2] {
            let plan = complete_tmux(&s, verbose, false, env, false);
            assert_eq!(count(&plan, Kind::NewWindow), 0);
            assert_eq!(count(&plan, Kind::RenameWindow), 0);
            assert_eq!(count(&plan, Kind::SendKeys), 0);
            assert_eq!(count(&plan, Kind::Complain), 0);
            assert_eq!(count(&plan, Kind::AttachSession), 1);
            assert_eq!(plan[0], say("Session 'work' already exists or failed to create."));
        }
    }
}

#[test]
fn conflict_without_attach_only_says_so() {
    let s = session("work", vec![window("a", "p", true)], false, false);
    assert_eq!(
        complete_tmux(&s, 0, false, Environment::FlakeBased, true),
        vec![say("Session 'work' already exists or failed to create.")]
    );
}

#[test]
fn whole_plan_is_opening_then_completion() {
    let s = session("work", vec![window("a", "p", true), window("", "q", true)], true, true);
    for created in [false, true] {
        for inside in [false, true] {
            let mut expected = initiate_tmux(&s, 1);
            expected.extend(complete_tmux(&s, 1, created, Environment::FlakeBased, inside));
            assert_eq!(materialize(&s, 1, created, Environment::FlakeBased, inside), expected);
        }
    }
}

#[test]
fn exactly_one_way_in_when_attach_is_requested() {
    let s = session("work", vec![window("a", "p", true)], true, false);
    for created in [false, true] {
        for inside in [false, true] {
            let plan = materialize(&s, 2, created, Environment::Missing, inside);
            let switched = count(&plan, Kind::SwitchClient);
            let attached = count(&plan, Kind::AttachSession);
            assert_eq!(switched + attached, 1);
            assert_eq!(switched == 1, inside);
        }
    }
}

#[test]
fn command_lines() {
    let cases: Vec<(Action, Option<Program>, Vec<&str>)> = vec![
        (say("hello"), None, vec![]),
        (Action::Complain("oops".to_string()), None, vec![]),
        (Action::FetchRemote, Some(Program::VersionControl), vec!["fetch", "--all", "--prune"]),
        (
            Action::NewSession { title: "work".to_string() },
            Some(Program::Multiplexer),
            vec!["new-session", "-d", "-s", "work"],
        ),
        (
            Action::NewWindow { target: "work:2".to_string() },
            Some(Program::Multiplexer),
            vec!["new-window", "-t", "work:2"],
        ),
        (
            Action::RenameWindow { target: "work:2".to_string(), title: "ed".to_string() },
            Some(Program::Multiplexer),
            vec!["rename-window", "-t", "work:2", "ed"],
        ),
        (
            keys("work:2", "nix-shell --impure"),
            Some(Program::Multiplexer),
            vec!["send-keys", "-t", "work:2", "nix-shell --impure", "Enter"],
        ),
        (
            Action::SwitchClient { target: "work:1".to_string() },
            Some(Program::Multiplexer),
            vec!["switch-client", "-t", "work:1"],
        ),
        (
            Action::AttachSession { target: "work:1".to_string() },
            Some(Program::Multiplexer),
            vec!["attach-session", "-t", "work:1"],
        ),
    ];
    for (action, program, arguments) in cases {
        assert_eq!(action.program(), program);
        assert_eq!(action.arguments(), arguments);
    }
    assert_eq!(Program::Multiplexer.name(), "tmux");
    assert_eq!(Program::VersionControl.name(), "git");
}

#[test]
fn kinds() {
    assert_eq!(say("x").kind(), Kind::Say);
    assert_eq!(Action::Complain("x".to_string()).kind(), Kind::Complain);
    assert_eq!(Action::FetchRemote.kind(), Kind::FetchRemote);
    assert_eq!(Action::NewSession { title: "t".to_string() }.kind(), Kind::NewSession);
    assert_eq!(Action::NewWindow { target: "t".to_string() }.kind(), Kind::NewWindow);
    assert_eq!(keys("t", "k").kind(), Kind::SendKeys);
    assert_eq!(Action::SwitchClient { target: "t".to_string() }.kind(), Kind::SwitchClient);
    assert_eq!(Action::AttachSession { target: "t".to_string() }.kind(), Kind::AttachSession);
    assert_eq!(
        Action::RenameWindow { target: "t".to_string(), title: "n".to_string() }.kind(),
        Kind::RenameWindow
    );
}

#[test]
fn only_the_creation_of_the_session_decides() {
    let s = session("work", vec![window("a", "p", true), window("", "q", true)], true, true);
    let opening = initiate_tmux(&s, 1);
    assert!(opening.last().unwrap().decides());
    assert_eq!(opening.iter().filter(|a| a.decides()).count(), 1);
    for created in [false, true] {
        let rest = complete_tmux(&s, 1, created, Environment::FlakeBased, false);
        assert_eq!(rest.iter().filter(|a| a.decides()).count(), 0);
    }
}
