//! The plan that realises a session: which actions, in which order.
//!
//! Only one fact is learned while a plan runs: whether the session could be
//! created. So a plan comes in two parts, the opening that ends with the
//! attempt to create the session, and the completion that depends on how
//! that attempt went.

use vstd::prelude::*;
use vstd::string::*;
use crate::action::{action_views, Action, ActionView};
use crate::config::{Session, SessionView, Window, WindowView};
use crate::environment::Environment;
use crate::text::{target, target_text};

verus! {

/// What is typed into a window so that it takes its name from the `name`
/// variable of its environment, and then clears the screen.
pub open spec fn rename_keys_text() -> Seq<char> {
    r#"tmux rename-window "$(nix --quiet develop --quiet -c bash -c 'env | awk -F= '\''{ if ($1 == "name") print $2 }'\'')" ; clear"#@
}

/// What is typed into a window to enter the profile `profile` of a flake.
pub open spec fn flake_keys_text(profile: Seq<char>) -> Seq<char> {
    "nix develop --impure .#"@ + profile
}

/// What is typed into a window to enter a legacy environment.
pub open spec fn legacy_keys_text() -> Seq<char> {
    "nix-shell --impure"@
}

/// The line printed when a session cannot be created.
pub open spec fn conflict_text(title: Seq<char>) -> Seq<char> {
    "Session '"@ + title + "' already exists or failed to create."@
}

/// How the attempt to create the session went.
#[derive(Clone, Copy, Debug, PartialEq, Eq, Structural)]
pub enum Attempt {
    /// The multiplexer ran and reported success.
    Succeeded,
    /// The multiplexer ran and reported failure: the session exists already,
    /// or could not be created.
    Failed,
    /// The multiplexer could not be started at all.
    NotStarted,
}

impl Attempt {
    /// Whether the session was newly created. An attempt that could not be
    /// started counts like one that failed.
    pub open spec fn created(self) -> bool {
        self == Attempt::Succeeded
    }
}

/// A progress line, printed only when verbosity is at least one.
pub open spec fn note(verbose: u8, line: Seq<char>) -> Seq<ActionView> {
    if verbose >= 1 {
        seq![ActionView::Say(line)]
    } else {
        Seq::empty()
    }
}

/// Creating window `index`: nothing for the first window, which comes with
/// the session.
pub open spec fn creation_steps(index: nat, title: Seq<char>, verbose: u8) -> Seq<ActionView> {
    if index != 1 {
        note(verbose, "Creating window "@ + target_text(title, index)) + seq![
            ActionView::NewWindow { target: target_text(title, index) },
        ]
    } else {
        Seq::empty()
    }
}

/// Naming window `index`: its own title if it has one; else, in a flake
/// environment and if the window asks for it, the name the environment
/// gives; else nothing.
pub open spec fn naming_steps(
    index: nat,
    window: WindowView,
    title: Seq<char>,
    verbose: u8,
    env: Environment,
) -> Seq<ActionView> {
    if window.title.len() != 0 {
        note(verbose, "Setting window title"@) + seq![
            ActionView::RenameWindow { target: target_text(title, index), title: window.title },
        ]
    } else if env == Environment::FlakeBased && window.nix_rename {
        note(verbose, "Using nix to rename the window"@) + seq![
            ActionView::SendKeys { target: target_text(title, index), keys: rename_keys_text() },
        ]
    } else {
        Seq::empty()
    }
}

/// The action that enters the environment with profile `profile` in window
/// `index`: by profile in a flake environment, without one in a legacy
/// environment, and a complaint where no descriptor is found.
pub open spec fn bootstrap_action(
    index: nat,
    profile: Seq<char>,
    title: Seq<char>,
    env: Environment,
) -> ActionView {
    match env {
        Environment::FlakeBased => ActionView::SendKeys {
            target: target_text(title, index),
            keys: flake_keys_text(profile),
        },
        Environment::LegacyNixShell => ActionView::SendKeys {
            target: target_text(title, index),
            keys: legacy_keys_text(),
        },
        Environment::LegacyDefaultNix => ActionView::SendKeys {
            target: target_text(title, index),
            keys: legacy_keys_text(),
        },
        Environment::Missing => ActionView::Complain("No nix shell file detected"@),
    }
}

/// Entering the environment in window `index`, if the window names a
/// profile.
pub open spec fn bootstrap_steps(
    index: nat,
    window: WindowView,
    title: Seq<char>,
    verbose: u8,
    env: Environment,
) -> Seq<ActionView> {
    if window.nix_shell.len() != 0 {
        note(verbose, "Starting nix shell"@) + seq![
            bootstrap_action(index, window.nix_shell, title, env),
        ]
    } else {
        Seq::empty()
    }
}

/// One setup pass: everything done for window `index` of session `title`.
pub open spec fn window_steps(
    index: nat,
    window: WindowView,
    title: Seq<char>,
    verbose: u8,
    env: Environment,
) -> Seq<ActionView> {
    creation_steps(index, title, verbose) + naming_steps(index, window, title, verbose, env)
        + bootstrap_steps(index, window, title, verbose, env)
}

/// The setup passes of a session, one per window, in the order of the
/// windows; windows are numbered from one.
pub open spec fn window_passes(session: SessionView, verbose: u8, env: Environment) -> Seq<
    Seq<ActionView>,
> {
    Seq::new(
        session.windows.len(),
        |i: int| window_steps((i + 1) as nat, session.windows[i], session.title, verbose, env),
    )
}

/// Where a client enters the session: the session as a whole once it was
/// newly created, and its first window where it was already running.
pub open spec fn entry_target(session: SessionView, created: bool) -> Seq<char> {
    if created {
        session.title
    } else {
        target_text(session.title, 1)
    }
}

/// Bringing a client to the session, if the session asks for one: the
/// current client is switched when the caller sits inside the multiplexer,
/// a new one is attached when not. `created` says whether the session was
/// newly created, which decides the target.
pub open spec fn attach_steps(
    session: SessionView,
    verbose: u8,
    inside: bool,
    created: bool,
) -> Seq<ActionView> {
    if !session.attach {
        Seq::empty()
    } else if inside {
        note(verbose, "Already inside tmux, changig client"@) + seq![
            ActionView::SwitchClient { target: entry_target(session, created) },
        ]
    } else {
        note(verbose, "Attaching to session"@) + seq![
            ActionView::AttachSession { target: entry_target(session, created) },
        ]
    }
}

/// The opening of a plan: the remote fetch if the session asks for it, then
/// the attempt to create the session, detached.
pub open spec fn opening_steps(session: SessionView, verbose: u8) -> Seq<ActionView> {
    (if session.git {
        note(verbose, "Fetching updates from git remote"@) + seq![ActionView::FetchRemote]
    } else {
        Seq::empty()
    }) + note(verbose, "Starting tmux session (detached)"@) + seq![
        ActionView::NewSession { title: session.title },
    ]
}

/// The completion of a plan. Where the session was created, every window is
/// set up and then the client is brought in. Where it was not, the session
/// is taken to be running already: a line says so and only the client is
/// brought in.
pub open spec fn completion_steps(
    session: SessionView,
    verbose: u8,
    created: bool,
    env: Environment,
    inside: bool,
) -> Seq<ActionView> {
    if created {
        window_passes(session, verbose, env).flatten() + attach_steps(
            session,
            verbose,
            inside,
            true,
        )
    } else {
        seq![ActionView::Say(conflict_text(session.title))] + attach_steps(
            session,
            verbose,
            inside,
            false,
        )
    }
}

/// The whole plan, opening and completion.
pub open spec fn materialize_steps(
    session: SessionView,
    verbose: u8,
    created: bool,
    env: Environment,
    inside: bool,
) -> Seq<ActionView> {
    opening_steps(session, verbose) + completion_steps(session, verbose, created, env, inside)
}

fn push_action(out: &mut Vec<Action>, action: Action)
    ensures
        action_views(final(out)@) == action_views(old(out)@).push(action@),
{
    out.push(action);
    assert(action_views(out@) =~= action_views(old(out)@).push(action@));
}

fn push_note(out: &mut Vec<Action>, verbose: u8, line: String)
    ensures
        action_views(final(out)@) == action_views(old(out)@) + note(verbose, line@),
{
    if verbose >= 1 {
        push_action(out, Action::Say(line));
    }
    assert(action_views(out@) =~= action_views(old(out)@) + note(verbose, line@));
}

fn push_creation(out: &mut Vec<Action>, index: usize, title: &str, verbose: u8)
    ensures
        action_views(final(out)@) == action_views(old(out)@) + creation_steps(
            index as nat,
            title@,
            verbose,
        ),
{
    if index != 1 {
        let mut line = String::from_str("Creating window ");
        line.append(target(title, index).as_str());
        push_note(out, verbose, line);
        push_action(out, Action::NewWindow { target: target(title, index) });
    }
    assert(action_views(out@) =~= action_views(old(out)@) + creation_steps(
        index as nat,
        title@,
        verbose,
    ));
}

fn push_naming(
    out: &mut Vec<Action>,
    index: usize,
    window: &Window,
    title: &str,
    verbose: u8,
    env: Environment,
)
    ensures
        action_views(final(out)@) == action_views(old(out)@) + naming_steps(
            index as nat,
            window@,
            title@,
            verbose,
            env,
        ),
{
    if !window.title.as_str().is_empty() {
        push_note(out, verbose, String::from_str("Setting window title"));
        push_action(
            out,
            Action::RenameWindow { target: target(title, index), title: window.title.clone() },
        );
    } else if env == Environment::FlakeBased && window.nix_rename {
        push_note(out, verbose, String::from_str("Using nix to rename the window"));
        push_action(
            out,
            Action::SendKeys {
                target: target(title, index),
                keys: String::from_str(
                    r#"tmux rename-window "$(nix --quiet develop --quiet -c bash -c 'env | awk -F= '\''{ if ($1 == "name") print $2 }'\'')" ; clear"#,
                ),
            },
        );
    }
    assert(action_views(out@) =~= action_views(old(out)@) + naming_steps(
        index as nat,
        window@,
        title@,
        verbose,
        env,
    ));
}

fn enter_environment(index: usize, profile: &str, title: &str, env: Environment) -> (r: Action)
    ensures
        r@ == bootstrap_action(index as nat, profile@, title@, env),
{
    match env {
        Environment::FlakeBased => {
            let mut keys = String::from_str("nix develop --impure .#");
            keys.append(profile);
            Action::SendKeys { target: target(title, index), keys }
        },
        Environment::LegacyNixShell => Action::SendKeys {
            target: target(title, index),
            keys: String::from_str("nix-shell --impure"),
        },
        Environment::LegacyDefaultNix => Action::SendKeys {
            target: target(title, index),
            keys: String::from_str("nix-shell --impure"),
        },
        Environment::Missing => Action::Complain(String::from_str("No nix shell file detected")),
    }
}

fn push_bootstrap(
    out: &mut Vec<Action>,
    index: usize,
    window: &Window,
    title: &str,
    verbose: u8,
    env: Environment,
)
    ensures
        action_views(final(out)@) == action_views(old(out)@) + bootstrap_steps(
            index as nat,
            window@,
            title@,
            verbose,
            env,
        ),
{
    if !window.nix_shell.as_str().is_empty() {
        push_note(out, verbose, String::from_str("Starting nix shell"));
        push_action(out, enter_environment(index, window.nix_shell.as_str(), title, env));
    }
    assert(action_views(out@) =~= action_views(old(out)@) + bootstrap_steps(
        index as nat,
        window@,
        title@,
        verbose,
        env,
    ));
}

fn push_window(
    out: &mut Vec<Action>,
    index: usize,
    window: &Window,
    title: &str,
    verbose: u8,
    env: Environment,
)
    ensures
        action_views(final(out)@) == action_views(old(out)@) + window_steps(
            index as nat,
            window@,
            title@,
            verbose,
            env,
        ),
{
    push_creation(out, index, title, verbose);
    push_naming(out, index, window, title, verbose, env);
    push_bootstrap(out, index, window, title, verbose, env);
    assert(action_views(out@) =~= action_views(old(out)@) + window_steps(
        index as nat,
        window@,
        title@,
        verbose,
        env,
    ));
}

fn entry(session: &Session, created: bool) -> (r: String)
    ensures
        r@ == entry_target(session@, created),
{
    if created {
        session.title.clone()
    } else {
        target(session.title.as_str(), 1)
    }
}

fn push_attach(
    out: &mut Vec<Action>,
    session: &Session,
    verbose: u8,
    inside: bool,
    created: bool,
)
    ensures
        action_views(final(out)@) == action_views(old(out)@) + attach_steps(
            session@,
            verbose,
            inside,
            created,
        ),
{
    if session.attach {
        if inside {
            push_note(out, verbose, String::from_str("Already inside tmux, changig client"));
            push_action(out, Action::SwitchClient { target: entry(session, created) });
        } else {
            push_note(out, verbose, String::from_str("Attaching to session"));
            push_action(out, Action::AttachSession { target: entry(session, created) });
        }
    }
    assert(action_views(out@) =~= action_views(old(out)@) + attach_steps(
        session@,
        verbose,
        inside,
        created,
    ));
}

fn push_opening(out: &mut Vec<Action>, session: &Session, verbose: u8)
    ensures
        action_views(final(out)@) == action_views(old(out)@) + opening_steps(session@, verbose),
{
    if session.git {
        push_note(out, verbose, String::from_str("Fetching updates from git remote"));
        push_action(out, Action::FetchRemote);
    }
    push_note(out, verbose, String::from_str("Starting tmux session (detached)"));
    push_action(out, Action::NewSession { title: session.title.clone() });
    assert(action_views(out@) =~= action_views(old(out)@) + opening_steps(session@, verbose));
}

fn push_completion(
    out: &mut Vec<Action>,
    session: &Session,
    verbose: u8,
    created: bool,
    env: Environment,
    inside: bool,
)
    ensures
        action_views(final(out)@) == action_views(old(out)@) + completion_steps(
            session@,
            verbose,
            created,
            env,
            inside,
        ),
{
    let ghost start = action_views(out@);
    if !created {
        let mut line = String::from_str("Session '");
        line.append(session.title.as_str());
        line.append("' already exists or failed to create.");
        push_action(out, Action::Say(line));
    } else {
        let ghost passes = window_passes(session@, verbose, env);
        let mut idx: usize = 0;
        assert(passes.take(0) =~= Seq::<Seq<ActionView>>::empty());
        while idx < session.windows.len()
            invariant
                idx <= session.windows@.len(),
                passes == window_passes(session@, verbose, env),
                passes.len() == session.windows@.len(),
                action_views(out@) == start + passes.take(idx as int).flatten(),
            decreases session.windows@.len() - idx,
        {
            let ghost before = action_views(out@);
            push_window(out, idx + 1, &session.windows[idx], session.title.as_str(), verbose, env);
            proof {
                let done = passes.take(idx as int);
                assert(passes.take(idx + 1) =~= done.push(passes[idx as int]));
                done.lemma_flatten_push(passes[idx as int]);
                assert(action_views(out@) =~= start + passes.take(idx + 1).flatten());
            }
            idx = idx + 1;
        }
        assert(passes.take(idx as int) =~= passes);
    }
    push_attach(out, session, verbose, inside, created);
    assert(action_views(out@) =~= start + completion_steps(
        session@,
        verbose,
        created,
        env,
        inside,
    ));
}

/// Whether the session was newly created, from how the attempt went. Only
/// success counts; an attempt that failed or could not be started leaves
/// the plan on the path of a session that is already running.
pub fn session_created(attempt: Attempt) -> (r: bool)
    ensures
        r == attempt.created(),
        r == (attempt == Attempt::Succeeded),
{
    match attempt {
        Attempt::Succeeded => true,
        Attempt::Failed => false,
        Attempt::NotStarted => false,
    }
}

/// The setup pass of one window: creates it unless it is the first, names
/// it, and enters its environment.
pub fn create_window(index: usize, window: &Window, title: &str, verbose: u8, env: Environment) -> (r:
    Vec<Action>)
    ensures
        action_views(r@) == window_steps(index as nat, window@, title@, verbose, env),
{
    let mut out: Vec<Action> = Vec::new();
    push_window(&mut out, index, window, title, verbose, env);
    assert(action_views(out@) =~= window_steps(index as nat, window@, title@, verbose, env));
    out
}

/// The actions that bring a client to the session; none when the session
/// does not ask for one. `inside` says whether the caller already sits in a
/// client of the multiplexer, `created` whether the session was newly
/// created: a new session is entered as a whole, a running one at its first
/// window.
pub fn attach_session(session: &Session, verbose: u8, inside: bool, created: bool) -> (r: Vec<
    Action,
>)
    ensures
        action_views(r@) == attach_steps(session@, verbose, inside, created),
{
    let mut out: Vec<Action> = Vec::new();
    push_attach(&mut out, session, verbose, inside, created);
    assert(action_views(out@) =~= attach_steps(session@, verbose, inside, created));
    out
}

/// The opening of the plan. Its last action tries to create the session;
/// whether that succeeded is what `complete_tmux` needs to know.
pub fn initiate_tmux(session: &Session, verbose: u8) -> (r: Vec<Action>)
    ensures
        action_views(r@) == opening_steps(session@, verbose),
{
    let mut out: Vec<Action> = Vec::new();
    push_opening(&mut out, session, verbose);
    assert(action_views(out@) =~= opening_steps(session@, verbose));
    out
}

/// The rest of the plan, once it is known whether the session was created,
/// which environment the working directory holds and whether the caller
/// sits inside the multiplexer.
pub fn complete_tmux(
    session: &Session,
    verbose: u8,
    created: bool,
    env: Environment,
    inside: bool,
) -> (r: Vec<Action>)
    ensures
        action_views(r@) == completion_steps(session@, verbose, created, env, inside),
{
    let mut out: Vec<Action> = Vec::new();
    push_completion(&mut out, session, verbose, created, env, inside);
    assert(action_views(out@) =~= completion_steps(session@, verbose, created, env, inside));
    out
}

/// The whole plan for a caller that knows all the facts beforehand.
pub fn materialize(
    session: &Session,
    verbose: u8,
    created: bool,
    env: Environment,
    inside: bool,
) -> (r: Vec<Action>)
    ensures
        action_views(r@) == materialize_steps(session@, verbose, created, env, inside),
{
    let mut out: Vec<Action> = Vec::new();
    push_opening(&mut out, session, verbose);
    push_completion(&mut out, session, verbose, created, env, inside);
    assert(action_views(out@) =~= materialize_steps(session@, verbose, created, env, inside));
    out
}

} // verus!
