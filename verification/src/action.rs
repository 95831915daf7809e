//! The actions a plan is made of, and the command line of each.

use vstd::prelude::*;
use vstd::string::*;

verus! {

/// One step of a plan. The caller performs it; whether it succeeds matters
/// only for `NewSession`.
#[derive(Debug, PartialEq, Eq)]
pub enum Action {
    /// Print a line on standard output.
    Say(String),
    /// Print a line on standard error.
    Complain(String),
    /// Fetch updates from every remote of the working directory.
    FetchRemote,
    /// Create a detached session under `title`.
    NewSession { title: String },
    /// Create a window at `target`.
    NewWindow { target: String },
    /// Give the window at `target` the name `title`.
    RenameWindow { target: String, title: String },
    /// Type `keys` into the window at `target` and press Enter.
    SendKeys { target: String, keys: String },
    /// Move the current client to `target`.
    SwitchClient { target: String },
    /// Attach a new client to `target`.
    AttachSession { target: String },
}

/// The mathematical value of an [`Action`].
pub enum ActionView {
    Say(Seq<char>),
    Complain(Seq<char>),
    FetchRemote,
    NewSession { title: Seq<char> },
    NewWindow { target: Seq<char> },
    RenameWindow { target: Seq<char>, title: Seq<char> },
    SendKeys { target: Seq<char>, keys: Seq<char> },
    SwitchClient { target: Seq<char> },
    AttachSession { target: Seq<char> },
}

impl View for Action {
    type V = ActionView;

    open spec fn view(&self) -> ActionView {
        match self {
            Action::Say(line) => ActionView::Say(line@),
            Action::Complain(line) => ActionView::Complain(line@),
            Action::FetchRemote => ActionView::FetchRemote,
            Action::NewSession { title } => ActionView::NewSession { title: title@ },
            Action::NewWindow { target } => ActionView::NewWindow { target: target@ },
            Action::RenameWindow { target, title } => ActionView::RenameWindow {
                target: target@,
                title: title@,
            },
            Action::SendKeys { target, keys } => ActionView::SendKeys {
                target: target@,
                keys: keys@,
            },
            Action::SwitchClient { target } => ActionView::SwitchClient { target: target@ },
            Action::AttachSession { target } => ActionView::AttachSession { target: target@ },
        }
    }
}

/// The values of a list of actions, in order.
pub open spec fn action_views(actions: Seq<Action>) -> Seq<ActionView> {
    actions.map_values(|a: Action| a@)
}

/// The values of a list of texts, in order.
pub open spec fn text_views(texts: Seq<String>) -> Seq<Seq<char>> {
    texts.map_values(|t: String| t@)
}

/// Which program carries out an action.
#[derive(Clone, Copy, Debug, PartialEq, Eq, Structural)]
pub enum Program {
    /// The terminal multiplexer.
    Multiplexer,
    /// The version-control tool.
    VersionControl,
}

impl Program {
    /// The name under which the program is run.
    pub open spec fn name_text(self) -> Seq<char> {
        match self {
            Program::Multiplexer => "tmux"@,
            Program::VersionControl => "git"@,
        }
    }

    /// The name under which the program is run.
    pub fn name(self) -> (r: &'static str)
        ensures
            r@ == self.name_text(),
    {
        match self {
            Program::Multiplexer => "tmux",
            Program::VersionControl => "git",
        }
    }
}

/// What an action does, without its texts.
#[derive(Clone, Copy, Debug, PartialEq, Eq, Structural)]
pub enum Kind {
    Say,
    Complain,
    FetchRemote,
    NewSession,
    NewWindow,
    RenameWindow,
    SendKeys,
    SwitchClient,
    AttachSession,
}

impl ActionView {
    /// What the action does.
    pub open spec fn kind(self) -> Kind {
        match self {
            ActionView::Say(_) => Kind::Say,
            ActionView::Complain(_) => Kind::Complain,
            ActionView::FetchRemote => Kind::FetchRemote,
            ActionView::NewSession { .. } => Kind::NewSession,
            ActionView::NewWindow { .. } => Kind::NewWindow,
            ActionView::RenameWindow { .. } => Kind::RenameWindow,
            ActionView::SendKeys { .. } => Kind::SendKeys,
            ActionView::SwitchClient { .. } => Kind::SwitchClient,
            ActionView::AttachSession { .. } => Kind::AttachSession,
        }
    }

    /// Whether the plan depends on how the action went. Only the attempt to
    /// create the session does; every other action is best effort.
    pub open spec fn decides(self) -> bool {
        self.kind() == Kind::NewSession
    }

    /// The program that carries the action out; none for a printed line.
    pub open spec fn program(self) -> Option<Program> {
        match self {
            ActionView::Say(_) => None,
            ActionView::Complain(_) => None,
            ActionView::FetchRemote => Some(Program::VersionControl),
            _ => Some(Program::Multiplexer),
        }
    }

    /// The arguments handed to the program; none for a printed line.
    pub open spec fn arguments(self) -> Seq<Seq<char>> {
        match self {
            ActionView::Say(_) => Seq::empty(),
            ActionView::Complain(_) => Seq::empty(),
            ActionView::FetchRemote => seq!["fetch"@, "--all"@, "--prune"@],
            ActionView::NewSession { title } => seq!["new-session"@, "-d"@, "-s"@, title],
            ActionView::NewWindow { target } => seq!["new-window"@, "-t"@, target],
            ActionView::RenameWindow { target, title } => seq![
                "rename-window"@,
                "-t"@,
                target,
                title,
            ],
            ActionView::SendKeys { target, keys } => seq![
                "send-keys"@,
                "-t"@,
                target,
                keys,
                "Enter"@,
            ],
            ActionView::SwitchClient { target } => seq!["switch-client"@, "-t"@, target],
            ActionView::AttachSession { target } => seq!["attach-session"@, "-t"@, target],
        }
    }
}

fn two(a: &str, b: &str) -> (r: Vec<String>)
    ensures
        text_views(r@) == seq![a@, b@],
{
    let mut out: Vec<String> = Vec::new();
    out.push(String::from_str(a));
    out.push(String::from_str(b));
    assert(text_views(out@) =~= seq![a@, b@]);
    out
}

fn with(list: Vec<String>, text: &str) -> (r: Vec<String>)
    ensures
        text_views(r@) == text_views(list@).push(text@),
{
    let mut out = list;
    out.push(String::from_str(text));
    assert(text_views(out@) =~= text_views(list@).push(text@));
    out
}

impl Action {
    /// What the action does.
    pub fn kind(&self) -> (r: Kind)
        ensures
            r == self@.kind(),
    {
        match self {
            Action::Say(_) => Kind::Say,
            Action::Complain(_) => Kind::Complain,
            Action::FetchRemote => Kind::FetchRemote,
            Action::NewSession { .. } => Kind::NewSession,
            Action::NewWindow { .. } => Kind::NewWindow,
            Action::RenameWindow { .. } => Kind::RenameWindow,
            Action::SendKeys { .. } => Kind::SendKeys,
            Action::SwitchClient { .. } => Kind::SwitchClient,
            Action::AttachSession { .. } => Kind::AttachSession,
        }
    }

    /// Whether the plan depends on how the action went: true of the attempt
    /// to create the session, false of every other action, whose failure
    /// is passed over.
    pub fn decides(&self) -> (r: bool)
        ensures
            r == self@.decides(),
    {
        match self {
            Action::NewSession { .. } => true,
            _ => false,
        }
    }

    /// The program that carries the action out; `None` for a line that is
    /// only printed.
    pub fn program(&self) -> (r: Option<Program>)
        ensures
            r == self@.program(),
    {
        match self {
            Action::Say(_) => None,
            Action::Complain(_) => None,
            Action::FetchRemote => Some(Program::VersionControl),
            _ => Some(Program::Multiplexer),
        }
    }

    /// The arguments of the command that carries the action out; empty for
    /// a line that is only printed.
    pub fn arguments(&self) -> (r: Vec<String>)
        ensures
            text_views(r@) == self@.arguments(),
    {
        let out = match self {
            Action::Say(_) => Vec::new(),
            Action::Complain(_) => Vec::new(),
            Action::FetchRemote => with(two("fetch", "--all"), "--prune"),
            Action::NewSession { title } => with(
                with(two("new-session", "-d"), "-s"),
                title.as_str(),
            ),
            Action::NewWindow { target } => with(two("new-window", "-t"), target.as_str()),
            Action::RenameWindow { target, title } => with(
                with(two("rename-window", "-t"), target.as_str()),
                title.as_str(),
            ),
            Action::SendKeys { target, keys } => with(
                with(with(two("send-keys", "-t"), target.as_str()), keys.as_str()),
                "Enter",
            ),
            Action::SwitchClient { target } => with(two("switch-client", "-t"), target.as_str()),
            Action::AttachSession { target } => with(
                two("attach-session", "-t"),
                target.as_str(),
            ),
        };
        assert(text_views(out@) =~= self@.arguments());
        out
    }
}

} // verus!
