//! What holds of every plan.

use vstd::prelude::*;
use crate::action::{ActionView, Kind};
use crate::cli::new_session_view;
use crate::config::{specialized, SessionView, WindowView};
use crate::environment::Environment;
use crate::orchestrator::{
    Attempt, attach_steps, bootstrap_steps, completion_steps, conflict_text, creation_steps, entry_target,
    materialize_steps, naming_steps, note, opening_steps, window_passes, window_steps,
};
use crate::text::target_text;

verus! {

/// How many actions of one kind a list holds.
pub open spec fn count(steps: Seq<ActionView>, kind: Kind) -> nat
    decreases steps.len(),
{
    if steps.len() == 0 {
        0
    } else {
        count(steps.drop_last(), kind) + if steps.last().kind() == kind {
            1nat
        } else {
            0nat
        }
    }
}

/// Counting goes through concatenation.
pub proof fn lemma_count_add(a: Seq<ActionView>, b: Seq<ActionView>, kind: Kind)
    ensures
        count(a + b, kind) == count(a, kind) + count(b, kind),
    decreases b.len(),
{
    if b.len() == 0 {
        assert(a + b =~= a);
    } else {
        assert((a + b).drop_last() =~= a + b.drop_last());
        assert((a + b).last() == b.last());
        lemma_count_add(a, b.drop_last(), kind);
    }
}

/// A list of one action counts one or none.
pub proof fn lemma_count_single(action: ActionView, kind: Kind)
    ensures
        count(seq![action], kind) == if action.kind() == kind {
            1nat
        } else {
            0nat
        },
{
    reveal_with_fuel(count, 2);
}

/// A list without an action of some kind counts none of it.
pub proof fn lemma_count_none(steps: Seq<ActionView>, kind: Kind)
    requires
        forall|i: int| 0 <= i < steps.len() ==> (#[trigger] steps[i]).kind() != kind,
    ensures
        count(steps, kind) == 0,
    decreases steps.len(),
{
    if steps.len() > 0 {
        lemma_count_none(steps.drop_last(), kind);
    }
}

/// A setup pass creates a window exactly when it is not the first.
pub proof fn lemma_pass_creations(
    index: nat,
    window: WindowView,
    title: Seq<char>,
    verbose: u8,
    env: Environment,
)
    ensures
        count(window_steps(index, window, title, verbose, env), Kind::NewWindow) == if index
            != 1 {
            1nat
        } else {
            0nat
        },
{
    let creation = creation_steps(index, title, verbose);
    let naming = naming_steps(index, window, title, verbose, env);
    let bootstrap = bootstrap_steps(index, window, title, verbose, env);
    lemma_count_add(creation + naming, bootstrap, Kind::NewWindow);
    lemma_count_add(creation, naming, Kind::NewWindow);
    lemma_count_none(naming, Kind::NewWindow);
    lemma_count_none(bootstrap, Kind::NewWindow);
    if index != 1 {
        let line = "Creating window "@ + target_text(title, index);
        let made = seq![ActionView::NewWindow { target: target_text(title, index) }];
        lemma_count_add(note(verbose, line), made, Kind::NewWindow);
        lemma_count_none(note(verbose, line), Kind::NewWindow);
        lemma_count_single(made[0], Kind::NewWindow);
    }
}

/// The first `upto` setup passes create one window less than there are
/// passes, and none where there is no pass.
pub proof fn lemma_passes_creations(
    session: SessionView,
    verbose: u8,
    env: Environment,
    upto: int,
)
    requires
        0 <= upto <= session.windows.len(),
    ensures
        count(window_passes(session, verbose, env).take(upto).flatten(), Kind::NewWindow) == if upto
            == 0 {
            0
        } else {
            upto - 1
        },
    decreases upto,
{
    let passes = window_passes(session, verbose, env);
    if upto == 0 {
        assert(passes.take(0) =~= Seq::<Seq<ActionView>>::empty());
    } else {
        let done = passes.take(upto - 1);
        assert(passes.take(upto) =~= done.push(passes[upto - 1]));
        done.lemma_flatten_push(passes[upto - 1]);
        lemma_count_add(done.flatten(), passes[upto - 1], Kind::NewWindow);
        lemma_passes_creations(session, verbose, env, upto - 1);
        lemma_pass_creations(
            upto as nat,
            session.windows[upto - 1],
            session.title,
            verbose,
            env,
        );
    }
}

/// A session with N windows, N at least one, that could be created gets
/// exactly N setup passes, which together create exactly N - 1 windows;
/// nothing else in the plan creates one.
pub proof fn law_one_pass_per_window(
    session: SessionView,
    verbose: u8,
    env: Environment,
    inside: bool,
)
    requires
        session.windows.len() >= 1,
    ensures
        window_passes(session, verbose, env).len() == session.windows.len(),
        forall|i: int|
            0 <= i < session.windows.len() ==> #[trigger] window_passes(session, verbose, env)[i]
                == window_steps((i + 1) as nat, session.windows[i], session.title, verbose, env),
        completion_steps(session, verbose, true, env, inside) == window_passes(
            session,
            verbose,
            env,
        ).flatten() + attach_steps(session, verbose, inside, true),
        count(completion_steps(session, verbose, true, env, inside), Kind::NewWindow)
            == session.windows.len() - 1,
        count(materialize_steps(session, verbose, true, env, inside), Kind::NewWindow)
            == session.windows.len() - 1,
{
    let passes = window_passes(session, verbose, env);
    let attach = attach_steps(session, verbose, inside, true);
    let opening = opening_steps(session, verbose);
    let completion = completion_steps(session, verbose, true, env, inside);
    assert(passes.take(passes.len() as int) =~= passes);
    lemma_passes_creations(session, verbose, env, session.windows.len() as int);
    lemma_count_none(attach, Kind::NewWindow);
    lemma_count_add(passes.flatten(), attach, Kind::NewWindow);
    lemma_count_none(opening, Kind::NewWindow);
    lemma_count_add(opening, completion, Kind::NewWindow);
}

/// Where the session could not be created it is taken to be running: the
/// completion says so and brings the client in, and does nothing else. It
/// creates no window, names none and types into none, whatever the windows
/// and the environment are.
pub proof fn law_conflict_only_attaches(
    session: SessionView,
    verbose: u8,
    env: Environment,
    inside: bool,
)
    ensures
        completion_steps(session, verbose, false, env, inside) == seq![
            ActionView::Say(conflict_text(session.title)),
        ] + attach_steps(session, verbose, inside, false),
        count(completion_steps(session, verbose, false, env, inside), Kind::NewWindow) == 0,
        count(completion_steps(session, verbose, false, env, inside), Kind::RenameWindow) == 0,
        count(completion_steps(session, verbose, false, env, inside), Kind::SendKeys) == 0,
        count(completion_steps(session, verbose, false, env, inside), Kind::Complain) == 0,
        count(completion_steps(session, verbose, false, env, inside), Kind::NewSession) == 0,
        count(completion_steps(session, verbose, false, env, inside), Kind::FetchRemote) == 0,
        count(materialize_steps(session, verbose, false, env, inside), Kind::NewWindow) == 0,
        count(materialize_steps(session, verbose, false, env, inside), Kind::RenameWindow) == 0,
        count(materialize_steps(session, verbose, false, env, inside), Kind::SendKeys) == 0,
        count(materialize_steps(session, verbose, false, env, inside), Kind::Complain) == 0,
{
    let steps = completion_steps(session, verbose, false, env, inside);
    lemma_count_none(steps, Kind::NewWindow);
    lemma_count_none(steps, Kind::RenameWindow);
    lemma_count_none(steps, Kind::SendKeys);
    lemma_count_none(steps, Kind::Complain);
    lemma_count_none(steps, Kind::NewSession);
    lemma_count_none(steps, Kind::FetchRemote);
    let whole = materialize_steps(session, verbose, false, env, inside);
    lemma_count_none(whole, Kind::NewWindow);
    lemma_count_none(whole, Kind::RenameWindow);
    lemma_count_none(whole, Kind::SendKeys);
    lemma_count_none(whole, Kind::Complain);
}

/// A window with a title of its own is given that title, and nothing is
/// typed into it to rename it, whether or not it asks to be renamed from
/// the environment and whatever the environment is.
pub proof fn law_explicit_title_wins(
    index: nat,
    window: WindowView,
    title: Seq<char>,
    verbose: u8,
    env: Environment,
    rename: bool,
    other_env: Environment,
)
    requires
        window.title.len() > 0,
    ensures
        naming_steps(index, window, title, verbose, env).last() == (ActionView::RenameWindow {
            target: target_text(title, index),
            title: window.title,
        }),
        count(naming_steps(index, window, title, verbose, env), Kind::RenameWindow) == 1,
        count(naming_steps(index, window, title, verbose, env), Kind::SendKeys) == 0,
        naming_steps(
            index,
            WindowView { nix_rename: rename, ..window },
            title,
            verbose,
            other_env,
        ) == naming_steps(index, window, title, verbose, env),
{
    let line = note(verbose, "Setting window title"@);
    let named = seq![
        ActionView::RenameWindow { target: target_text(title, index), title: window.title },
    ];
    lemma_count_add(line, named, Kind::RenameWindow);
    lemma_count_none(line, Kind::RenameWindow);
    lemma_count_single(named[0], Kind::RenameWindow);
    lemma_count_none(naming_steps(index, window, title, verbose, env), Kind::SendKeys);
}

/// A session that asks for a client gets exactly one of the two ways in:
/// the current client is switched when the caller sits inside the
/// multiplexer, a new client is attached when not. A session that does not
/// ask gets neither. The client enters a newly created session as a whole
/// and a session that was already running at its first window.
pub proof fn law_attach_exclusive(session: SessionView, verbose: u8, inside: bool, created: bool)
    ensures
        count(attach_steps(session, verbose, inside, created), Kind::SwitchClient)
            == if session.attach && inside {
            1nat
        } else {
            0nat
        },
        count(attach_steps(session, verbose, inside, created), Kind::AttachSession)
            == if session.attach && !inside {
            1nat
        } else {
            0nat
        },
        !session.attach ==> attach_steps(session, verbose, inside, created) == Seq::<
            ActionView,
        >::empty(),
        session.attach && inside ==> attach_steps(session, verbose, inside, created).last() == (
        ActionView::SwitchClient { target: entry_target(session, created) }),
        session.attach && !inside ==> attach_steps(session, verbose, inside, created).last() == (
        ActionView::AttachSession { target: entry_target(session, created) }),
        entry_target(session, true) == session.title,
        entry_target(session, false) == target_text(session.title, 1),
{
    let steps = attach_steps(session, verbose, inside, created);
    if !session.attach {
    } else if inside {
        let line = note(verbose, "Already inside tmux, changig client"@);
        let entered = seq![ActionView::SwitchClient { target: entry_target(session, created) }];
        lemma_count_add(line, entered, Kind::SwitchClient);
        lemma_count_none(line, Kind::SwitchClient);
        lemma_count_single(entered[0], Kind::SwitchClient);
        lemma_count_none(steps, Kind::AttachSession);
    } else {
        let line = note(verbose, "Attaching to session"@);
        let entered = seq![ActionView::AttachSession { target: entry_target(session, created) }];
        lemma_count_add(line, entered, Kind::AttachSession);
        lemma_count_none(line, Kind::AttachSession);
        lemma_count_single(entered[0], Kind::AttachSession);
        lemma_count_none(steps, Kind::SwitchClient);
    }
}

/// Whether a kind of action occurs only outside the setup passes.
pub open spec fn outside_passes(kind: Kind) -> bool {
    kind == Kind::FetchRemote || kind == Kind::NewSession || kind == Kind::SwitchClient || kind
        == Kind::AttachSession
}

/// The setup passes fetch nothing, create no session and bring no client in.
pub proof fn lemma_passes_stay_inside(
    session: SessionView,
    verbose: u8,
    env: Environment,
    upto: int,
    kind: Kind,
)
    requires
        0 <= upto <= session.windows.len(),
        outside_passes(kind),
    ensures
        count(window_passes(session, verbose, env).take(upto).flatten(), kind) == 0,
    decreases upto,
{
    let passes = window_passes(session, verbose, env);
    if upto == 0 {
        assert(passes.take(0) =~= Seq::<Seq<ActionView>>::empty());
    } else {
        let done = passes.take(upto - 1);
        assert(passes.take(upto) =~= done.push(passes[upto - 1]));
        done.lemma_flatten_push(passes[upto - 1]);
        lemma_count_add(done.flatten(), passes[upto - 1], kind);
        lemma_passes_stay_inside(session, verbose, env, upto - 1, kind);
        lemma_count_none(passes[upto - 1], kind);
    }
}

/// Of the kinds that the setup passes never hold, the completion holds as
/// many actions as its last part, which brings the client in.
pub proof fn lemma_completion_counts(
    session: SessionView,
    verbose: u8,
    created: bool,
    env: Environment,
    inside: bool,
    kind: Kind,
)
    requires
        outside_passes(kind),
    ensures
        count(completion_steps(session, verbose, created, env, inside), kind) == count(
            attach_steps(session, verbose, inside, created),
            kind,
        ),
{
    let attach = attach_steps(session, verbose, inside, created);
    let passes = window_passes(session, verbose, env);
    if created {
        assert(passes.take(passes.len() as int) =~= passes);
        lemma_passes_stay_inside(session, verbose, env, session.windows.len() as int, kind);
        lemma_count_add(passes.flatten(), attach, kind);
    } else {
        let line = seq![ActionView::Say(conflict_text(session.title))];
        lemma_count_none(line, kind);
        lemma_count_add(line, attach, kind);
    }
}

/// In every plan the session is created once, the remote is fetched once
/// if the session asks for it and never otherwise, and a client is brought
/// in exactly once if the session asks for one: by switching when the
/// caller sits inside the multiplexer, by attaching when not.
pub proof fn law_plan_enters_once(
    session: SessionView,
    verbose: u8,
    created: bool,
    env: Environment,
    inside: bool,
)
    ensures
        count(materialize_steps(session, verbose, created, env, inside), Kind::NewSession) == 1,
        count(materialize_steps(session, verbose, created, env, inside), Kind::FetchRemote)
            == if session.git {
            1nat
        } else {
            0nat
        },
        count(materialize_steps(session, verbose, created, env, inside), Kind::SwitchClient)
            == if session.attach && inside {
            1nat
        } else {
            0nat
        },
        count(materialize_steps(session, verbose, created, env, inside), Kind::AttachSession)
            == if session.attach && !inside {
            1nat
        } else {
            0nat
        },
{
    let opening = opening_steps(session, verbose);
    let completion = completion_steps(session, verbose, created, env, inside);
    let attach = attach_steps(session, verbose, inside, created);
    law_attach_exclusive(session, verbose, inside, created);
    lemma_count_none(attach, Kind::NewSession);
    lemma_count_none(attach, Kind::FetchRemote);
    lemma_opening_counts(session, verbose);
    lemma_completion_counts(session, verbose, created, env, inside, Kind::NewSession);
    lemma_completion_counts(session, verbose, created, env, inside, Kind::FetchRemote);
    lemma_completion_counts(session, verbose, created, env, inside, Kind::SwitchClient);
    lemma_completion_counts(session, verbose, created, env, inside, Kind::AttachSession);
    lemma_count_add(opening, completion, Kind::NewSession);
    lemma_count_add(opening, completion, Kind::FetchRemote);
    lemma_count_add(opening, completion, Kind::SwitchClient);
    lemma_count_add(opening, completion, Kind::AttachSession);
}

/// The opening creates the session once, fetches once if asked, and brings
/// no client in.
pub proof fn lemma_opening_counts(session: SessionView, verbose: u8)
    ensures
        count(opening_steps(session, verbose), Kind::NewSession) == 1,
        count(opening_steps(session, verbose), Kind::FetchRemote) == if session.git {
            1nat
        } else {
            0nat
        },
        count(opening_steps(session, verbose), Kind::SwitchClient) == 0,
        count(opening_steps(session, verbose), Kind::AttachSession) == 0,
{
    let fetch = if session.git {
        note(verbose, "Fetching updates from git remote"@) + seq![ActionView::FetchRemote]
    } else {
        Seq::<ActionView>::empty()
    };
    let line = note(verbose, "Starting tmux session (detached)"@);
    let made = seq![ActionView::NewSession { title: session.title }];
    let opening = opening_steps(session, verbose);
    assert(opening == fetch + line + made);
    lemma_count_none(opening, Kind::SwitchClient);
    lemma_count_none(opening, Kind::AttachSession);
    lemma_count_add(fetch + line, made, Kind::NewSession);
    lemma_count_none(fetch + line, Kind::NewSession);
    lemma_count_single(made[0], Kind::NewSession);
    lemma_count_add(fetch + line, made, Kind::FetchRemote);
    lemma_count_add(fetch, line, Kind::FetchRemote);
    lemma_count_none(line, Kind::FetchRemote);
    lemma_count_none(made, Kind::FetchRemote);
    if session.git {
        let said = note(verbose, "Fetching updates from git remote"@);
        lemma_count_add(said, seq![ActionView::FetchRemote], Kind::FetchRemote);
        lemma_count_none(said, Kind::FetchRemote);
        lemma_count_single(ActionView::FetchRemote, Kind::FetchRemote);
    }
}

/// Only one action of a plan decides how it goes on: the attempt to create
/// the session, which is the last action of the opening. The completion
/// holds no such action, so nothing that fails there changes the plan.
pub proof fn law_only_creation_decides(
    session: SessionView,
    verbose: u8,
    created: bool,
    env: Environment,
    inside: bool,
)
    ensures
        opening_steps(session, verbose).last() == (ActionView::NewSession {
            title: session.title,
        }),
        forall|i: int|
            0 <= i < opening_steps(session, verbose).len() - 1 ==> !(#[trigger] opening_steps(
                session,
                verbose,
            )[i]).decides(),
        count(completion_steps(session, verbose, created, env, inside), Kind::NewSession) == 0,
{
    lemma_completion_counts(session, verbose, created, env, inside, Kind::NewSession);
    lemma_count_none(attach_steps(session, verbose, inside, created), Kind::NewSession);
}

/// A session made from the flags alone can be built as soon as it has a
/// name, and a session of the catalog as soon as it has a window and either
/// a title of its own or a directory with a name.
pub proof fn law_sessions_made_are_valid(
    title: Option<Seq<char>>,
    dir_name: Seq<char>,
    no_attach: bool,
    nix_shell: bool,
    nix_rename: bool,
    template: SessionView,
)
    ensures
        new_session_view(title, dir_name, no_attach, nix_shell, nix_rename).wf() <==> match title {
            Some(t) => t.len() > 0,
            None => dir_name.len() > 0,
        },
        specialized(template, dir_name, no_attach).wf() <==> template.windows.len() >= 1 && (
        template.title.len() > 0 || dir_name.len() > 0),
        specialized(template, dir_name, no_attach).windows == template.windows,
{
}

/// An attempt to create the session that failed or could not even be
/// started is absorbed in the same way: the completion says that the
/// session is taken to be running and brings the client to its first
/// window, and sets up no window.
pub proof fn law_unsuccessful_attempt_only_attaches(
    session: SessionView,
    verbose: u8,
    attempt: Attempt,
    env: Environment,
    inside: bool,
)
    requires
        attempt != Attempt::Succeeded,
    ensures
        !attempt.created(),
        completion_steps(session, verbose, attempt.created(), env, inside) == seq![
            ActionView::Say(conflict_text(session.title)),
        ] + attach_steps(session, verbose, inside, false),
        count(completion_steps(session, verbose, attempt.created(), env, inside), Kind::NewWindow)
            == 0,
        count(
            completion_steps(session, verbose, attempt.created(), env, inside),
            Kind::RenameWindow,
        ) == 0,
        count(completion_steps(session, verbose, attempt.created(), env, inside), Kind::SendKeys)
            == 0,
{
    law_conflict_only_attaches(session, verbose, env, inside);
}

} // verus!
