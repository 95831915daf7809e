//! The command line as data, and the session that a command asks for.

use vstd::prelude::*;
use vstd::string::*;
use crate::config::{
    default_window_view, specialized, window_views, Config, Session, SessionView, Window,
    WindowView,
};

verus! {

/// Where the configuration is read from when the command line names no
/// other place.
pub const DEFAULT_CONFIG_PATH: &'static str = "$XDG_CONFIG_HOME/dev/config.toml";

/// The parsed command line.
#[derive(Debug)]
pub struct Cli {
    /// Path of the configuration file, as written.
    pub config: String,
    /// How often the verbosity flag was given.
    pub verbose: u8,
    /// What to do.
    pub command: Commands,
}

/// The two commands.
#[derive(Debug)]
pub enum Commands {
    /// Make a session from the flags alone.
    New(NewSession),
    /// Make a session from an entry of the catalog.
    Load(LoadSession),
}

/// Create a new session from a directory.
#[derive(Debug)]
pub struct NewSession {
    /// Title of the session; the directory's base name where absent.
    pub title: Option<String>,
    /// Directory in which the session starts.
    pub directory: String,
    /// Do not bring a client to the session.
    pub no_attach: bool,
    /// Enter the environment named like the session.
    pub nix_shell: bool,
    /// Let the window take its name from the environment.
    pub nix_rename: bool,
}

/// Load a session from the catalog.
#[derive(Debug)]
pub struct LoadSession {
    /// Name of the session in the catalog.
    pub name: String,
    /// Do not bring a client to the session.
    pub no_attach: bool,
    /// Accepted on the command line; the catalog decides.
    pub nix_shell: bool,
    /// Accepted on the command line; the catalog decides.
    pub nix_rename: bool,
}

/// Why no session can be made. Each of these ends the program.
#[derive(Clone, Copy, Debug, PartialEq, Eq, Structural)]
pub enum Fatal {
    /// The working directory does not exist.
    InvalidDirectory,
    /// The catalog has no session under the name asked for.
    UnknownSession,
}

impl Fatal {
    /// The line that tells the user what went wrong.
    pub open spec fn message_text(self) -> Seq<char> {
        match self {
            Fatal::InvalidDirectory => "Invalid directory"@,
            Fatal::UnknownSession => "No session with that name in the config file"@,
        }
    }

    /// The line that tells the user what went wrong.
    pub fn message(self) -> (r: String)
        ensures
            r@ == self.message_text(),
    {
        match self {
            Fatal::InvalidDirectory => String::from_str("Invalid directory"),
            Fatal::UnknownSession => String::from_str(
                "No session with that name in the config file",
            ),
        }
    }

    /// The status with which the program ends.
    pub fn exit_code(self) -> (r: u8)
        ensures
            r == 1,
    {
        1
    }
}

/// The title of a new session: the one given, or else the base name of
/// its directory.
pub open spec fn new_title(title: Option<Seq<char>>, dir_name: Seq<char>) -> Seq<char> {
    match title {
        Some(t) => t,
        None => dir_name,
    }
}

/// The session that the flags of `new` describe: one untitled window, which
/// enters the environment named like the session if that is asked for.
pub open spec fn new_session_view(
    title: Option<Seq<char>>,
    dir_name: Seq<char>,
    no_attach: bool,
    nix_shell: bool,
    nix_rename: bool,
) -> SessionView {
    SessionView {
        windows: seq![
            WindowView {
                nix_shell: if nix_shell {
                    new_title(title, dir_name)
                } else {
                    Seq::empty()
                },
                nix_rename: nix_rename,
                ..default_window_view()
            },
        ],
        path: Seq::empty(),
        title: new_title(title, dir_name),
        git: false,
        attach: !no_attach,
    }
}

impl NewSession {
    /// The title as a mathematical value.
    pub open spec fn title_view(&self) -> Option<Seq<char>> {
        match self.title {
            Some(t) => Some(t@),
            None => None,
        }
    }

    /// The session that these flags describe, in the directory whose base
    /// name is `dir_name`.
    pub fn session(&self, dir_name: &str) -> (r: Session)
        ensures
            r@ == new_session_view(
                self.title_view(),
                dir_name@,
                self.no_attach,
                self.nix_shell,
                self.nix_rename,
            ),
    {
        let title = match &self.title {
            Some(t) => t.clone(),
            None => String::from_str(dir_name),
        };
        let profile = if self.nix_shell {
            title.clone()
        } else {
            String::new()
        };
        let mut windows: Vec<Window> = Vec::new();
        windows.push(Window { title: String::new(), nix_shell: profile, nix_rename: self.nix_rename });
        let made = Session {
            windows,
            path: String::new(),
            title,
            git: false,
            attach: !self.no_attach,
        };
        assert(made@.windows =~= new_session_view(
            self.title_view(),
            dir_name@,
            self.no_attach,
            self.nix_shell,
            self.nix_rename,
        ).windows);
        made
    }
}

impl Commands {
    /// The directory that the command works in, as the user wrote it: the
    /// one given to `new`, or the path of the entry that `load` names.
    pub fn directory(&self, config: &Config) -> (r: Result<String, Fatal>)
        ensures
            match *self {
                Commands::New(flags) => r is Ok && r->Ok_0@ == flags.directory@,
                Commands::Load(flags) => match config.lookup(flags.name@) {
                    Some(session) => r is Ok && r->Ok_0@ == session.path,
                    None => r == Err::<String, Fatal>(Fatal::UnknownSession),
                },
            },
    {
        match self {
            Commands::New(flags) => Ok(flags.directory.clone()),
            Commands::Load(flags) => match config.get(flags.name.as_str()) {
                Some(session) => Ok(session.path.clone()),
                None => Err(Fatal::UnknownSession),
            },
        }
    }

    /// The session that the command asks for. `resolved` is the base name
    /// of the command's directory once that directory is found to exist,
    /// and `None` when it does not exist. An unknown name is reported
    /// before a missing directory. `load` keeps the session it hands out in
    /// the catalog; in every other case the catalog stays as it is.
    pub fn session(&self, config: &mut Config, resolved: Option<&str>) -> (r: Result<
        Session,
        Fatal,
    >)
        ensures
            match (*self, resolved) {
                (Commands::New(flags), Some(dir_name)) => {
                    &&& r is Ok
                    &&& r->Ok_0@ == new_session_view(
                        flags.title_view(),
                        dir_name@,
                        flags.no_attach,
                        flags.nix_shell,
                        flags.nix_rename,
                    )
                    &&& final(config).sessions@ == old(config).sessions@
                },
                (Commands::New(flags), None) => {
                    &&& r == Err::<Session, Fatal>(Fatal::InvalidDirectory)
                    &&& final(config).sessions@ == old(config).sessions@
                },
                (Commands::Load(flags), _) => match (old(config).lookup(flags.name@), resolved) {
                    (Some(session), Some(dir_name)) => {
                        &&& r is Ok
                        &&& r->Ok_0@ == specialized(session, dir_name@, flags.no_attach)
                        &&& final(config).lookup(flags.name@) == Some(r->Ok_0@)
                        &&& final(config).sessions@.len() == old(config).sessions@.len()
                        &&& forall|j: int|
                            0 <= j < old(config).sessions@.len() ==> {
                                ||| old(config).first_named(j, flags.name@)
                                ||| #[trigger] final(config).sessions@[j] == old(
                                    config,
                                ).sessions@[j]
                            }
                    },
                    (Some(session), None) => {
                        &&& r == Err::<Session, Fatal>(Fatal::InvalidDirectory)
                        &&& final(config).sessions@ == old(config).sessions@
                    },
                    (None, _) => {
                        &&& r == Err::<Session, Fatal>(Fatal::UnknownSession)
                        &&& final(config).sessions@ == old(config).sessions@
                    },
                },
            },
            old(config).wf() ==> final(config).wf(),
    {
        match self {
            Commands::New(flags) => match resolved {
                Some(dir_name) => Ok(flags.session(dir_name)),
                None => Err(Fatal::InvalidDirectory),
            },
            Commands::Load(flags) => {
                if config.find(flags.name.as_str()).is_none() {
                    return Err(Fatal::UnknownSession);
                }
                match resolved {
                    Some(dir_name) => match config.load(
                        flags.name.as_str(),
                        dir_name,
                        flags.no_attach,
                    ) {
                        Some(session) => Ok(session),
                        None => Err(Fatal::UnknownSession),
                    },
                    None => {
                        proof {
                            let i = choose|i: int| config.first_named(i, flags.name@);
                            config.lemma_lookup(i, flags.name@);
                        }
                        Err(Fatal::InvalidDirectory)
                    },
                }
            },
        }
    }
}

} // verus!
