//! The declarative description of sessions and the catalog of named ones.

use vstd::prelude::*;
use vstd::string::*;
use vstd::pervasive::VecAdditionalExecFns;

verus! {

/// One window of a session.
#[derive(Debug, PartialEq, Eq)]
pub struct Window {
    /// Display title; empty when the window keeps its default title.
    pub title: String,
    /// Name of the bootstrap profile to enter; empty for none.
    pub nix_shell: String,
    /// Whether the window may take its title from the environment.
    pub nix_rename: bool,
}

/// The mathematical value of a [`Window`].
pub struct WindowView {
    pub title: Seq<char>,
    pub nix_shell: Seq<char>,
    pub nix_rename: bool,
}

impl View for Window {
    type V = WindowView;

    open spec fn view(&self) -> WindowView {
        WindowView { title: self.title@, nix_shell: self.nix_shell@, nix_rename: self.nix_rename }
    }
}

impl Clone for Window {
    fn clone(&self) -> (r: Self)
        ensures
            r@ == self@,
    {
        Window {
            title: self.title.clone(),
            nix_shell: self.nix_shell.clone(),
            nix_rename: self.nix_rename,
        }
    }
}

/// One session: its windows, where it lives and how it is entered.
#[derive(Debug, PartialEq, Eq)]
pub struct Session {
    /// The windows, in the order in which they are set up.
    pub windows: Vec<Window>,
    /// The working directory as the user wrote it.
    pub path: String,
    /// The name by which the multiplexer knows the session.
    pub title: String,
    /// Whether remote updates are fetched before the session is built.
    pub git: bool,
    /// Whether a client is attached once the session stands.
    pub attach: bool,
}

/// The mathematical value of a [`Session`].
pub struct SessionView {
    pub windows: Seq<WindowView>,
    pub path: Seq<char>,
    pub title: Seq<char>,
    pub git: bool,
    pub attach: bool,
}

/// The values of a sequence of windows, in order.
pub open spec fn window_views(windows: Seq<Window>) -> Seq<WindowView> {
    windows.map_values(|w: Window| w@)
}

impl View for Session {
    type V = SessionView;

    open spec fn view(&self) -> SessionView {
        SessionView {
            windows: window_views(self.windows@),
            path: self.path@,
            title: self.title@,
            git: self.git,
            attach: self.attach,
        }
    }
}

impl SessionView {
    /// A session can be built when it has a name and at least one window.
    pub open spec fn wf(self) -> bool {
        self.title.len() > 0 && self.windows.len() >= 1
    }
}

/// Copies a list of windows.
pub fn clone_windows(windows: &Vec<Window>) -> (r: Vec<Window>)
    ensures
        window_views(r@) == window_views(windows@),
{
    let mut out: Vec<Window> = Vec::new();
    let mut i: usize = 0;
    while i < windows.len()
        invariant
            i <= windows.len(),
            out@.len() == i,
            forall|j: int| 0 <= j < i ==> (#[trigger] out@[j])@ == windows@[j]@,
        decreases windows.len() - i,
    {
        out.push(windows[i].clone());
        i = i + 1;
    }
    assert(window_views(out@) =~= window_views(windows@));
    out
}

impl Clone for Session {
    fn clone(&self) -> (r: Self)
        ensures
            r@ == self@,
    {
        Session {
            windows: clone_windows(&self.windows),
            path: self.path.clone(),
            title: self.title.clone(),
            git: self.git,
            attach: self.attach,
        }
    }
}

/// A session of the catalog made ready for use in a directory: a session
/// without a title takes the directory's base name, and the client is
/// attached unless the caller declines.
pub open spec fn specialized(session: SessionView, dir_name: Seq<char>, no_attach: bool)
    -> SessionView {
    SessionView {
        title: if session.title.len() == 0 {
            dir_name
        } else {
            session.title
        },
        attach: !no_attach,
        ..session
    }
}

impl Session {
    /// A copy made ready for use in the directory whose base name is
    /// `dir_name`.
    pub fn specialize(&self, dir_name: &str, no_attach: bool) -> (r: Session)
        ensures
            r@ == specialized(self@, dir_name@, no_attach),
    {
        let title = if self.title.as_str().is_empty() {
            String::from_str(dir_name)
        } else {
            self.title.clone()
        };
        Session {
            windows: clone_windows(&self.windows),
            path: self.path.clone(),
            title,
            git: self.git,
            attach: !no_attach,
        }
    }

    /// Whether the session has a name and at least one window.
    pub fn is_valid(&self) -> (r: bool)
        ensures
            r == self@.wf(),
    {
        assert(window_views(self.windows@).len() == self.windows@.len());
        !self.title.as_str().is_empty() && self.windows.len() >= 1
    }
}

/// The value of the window that a session has when none is configured.
pub open spec fn default_window_view() -> WindowView {
    WindowView { title: Seq::empty(), nix_shell: Seq::empty(), nix_rename: false }
}

/// The windows of a session that configures none: a single window without
/// title or profile, which keeps its default name.
pub fn default_windows() -> (r: Vec<Window>)
    ensures
        window_views(r@) == seq![default_window_view()],
{
    let mut out: Vec<Window> = Vec::new();
    out.push(
        Window {
            title: default_title(),
            nix_shell: default_nix_shell_name(),
            nix_rename: default_nix_rename(),
        },
    );
    assert(window_views(out@) =~= seq![default_window_view()]);
    out
}

/// The title of a window or session that configures none: empty.
pub fn default_title() -> (r: String)
    ensures
        r@ == Seq::<char>::empty(),
{
    String::new()
}

/// Whether a window is renamed from its environment when nothing is
/// configured: it is not.
pub fn default_nix_rename() -> (r: bool)
    ensures
        !r,
{
    false
}

/// The profile of a window that configures none: empty.
pub fn default_nix_shell_name() -> (r: String)
    ensures
        r@ == Seq::<char>::empty(),
{
    String::new()
}

/// A session of the catalog under its name.
#[derive(Debug, PartialEq, Eq)]
pub struct Entry {
    pub name: String,
    pub session: Session,
}

/// The catalog of named sessions. A name is looked up from the front, so
/// of two entries under one name only the first is ever seen; `insert`
/// keeps names unique.
#[derive(Debug)]
pub struct Config {
    pub sessions: Vec<Entry>,
}

impl Config {
    /// Whether entry `i` exists and carries `name`.
    pub open spec fn named(&self, i: int, name: Seq<char>) -> bool {
        0 <= i < self.sessions@.len() && self.sessions@[i].name@ == name
    }

    /// Whether some entry carries `name`.
    pub open spec fn contains(&self, name: Seq<char>) -> bool {
        exists|i: int| self.named(i, name)
    }

    /// Whether `i` is the first entry that carries `name`.
    pub open spec fn first_named(&self, i: int, name: Seq<char>) -> bool {
        self.named(i, name) && forall|j: int| 0 <= j < i ==> !self.named(j, name)
    }

    /// No two entries share a name.
    pub open spec fn wf(&self) -> bool {
        forall|i: int, j: int|
            0 <= i < j < self.sessions@.len() ==> self.sessions@[i].name@
                != self.sessions@[j].name@
    }

    /// The session that a name stands for, if any.
    pub open spec fn lookup(&self, name: Seq<char>) -> Option<SessionView> {
        if self.contains(name) {
            Some(self.sessions@[choose|i: int| self.first_named(i, name)].session@)
        } else {
            None
        }
    }

    /// An empty catalog.
    pub fn new() -> (r: Config)
        ensures
            r.sessions@.len() == 0,
            r.wf(),
    {
        Config { sessions: Vec::new() }
    }

    /// The session under `name`, if the catalog has one.
    pub fn get(&self, name: &str) -> (r: Option<&Session>)
        ensures
            match r {
                Some(session) => {
                    &&& self.lookup(name@) == Some(session@)
                    &&& exists|i: int|
                        self.first_named(i, name@) && *session == self.sessions@[i].session
                },
                None => !self.contains(name@),
            },
    {
        match self.find(name) {
            Some(i) => {
                proof {
                    self.lemma_lookup(i as int, name@);
                }
                Some(&self.sessions[i].session)
            },
            None => None,
        }
    }

    /// Where some entry carries a name, one of them is the first.
    pub proof fn lemma_first_exists(&self, name: Seq<char>, i: int)
        requires
            self.named(i, name),
        ensures
            exists|k: int| self.first_named(k, name),
        decreases i,
    {
        if exists|j: int| 0 <= j < i && self.named(j, name) {
            let j = choose|j: int| 0 <= j < i && self.named(j, name);
            self.lemma_first_exists(name, j);
        } else {
            assert(self.first_named(i, name));
        }
    }

    /// The first entry under a name is the one that `lookup` gives.
    pub proof fn lemma_lookup(&self, i: int, name: Seq<char>)
        requires
            self.first_named(i, name),
        ensures
            self.contains(name),
            self.lookup(name) == Some(self.sessions@[i].session@),
    {
        assert(self.named(i, name));
        let k = choose|k: int| self.first_named(k, name);
        assert(self.first_named(k, name));
        assert(k == i) by {
            if k < i {
                assert(!self.named(k, name));
            } else if i < k {
                assert(!self.named(i, name));
            }
        }
    }

    /// Puts `session` under `name`, in place of the session that was there
    /// if there was one, and as a new entry at the end if not. Sessions
    /// under other names stay as they are.
    pub fn insert(&mut self, name: String, session: Session)
        requires
            old(self).wf(),
        ensures
            final(self).wf(),
            final(self).lookup(name@) == Some(session@),
            forall|other: Seq<char>|
                other != name@ ==> final(self).lookup(other) == old(self).lookup(other),
            final(self).sessions@.len() == old(self).sessions@.len() + if old(self).contains(
                name@,
            ) {
                0int
            } else {
                1int
            },
            forall|j: int|
                0 <= j < old(self).sessions@.len() ==> {
                    ||| old(self).first_named(j, name@)
                    ||| #[trigger] final(self).sessions@[j] == old(self).sessions@[j]
                },
    {
        let ghost key = name@;
        let ghost value = session@;
        let found = self.find(name.as_str());
        let ghost place: int = match found {
            Some(i) => i as int,
            None => self.sessions@.len() as int,
        };
        match found {
            Some(i) => {
                self.sessions.set(i, Entry { name, session });
            },
            None => {
                assert forall|j: int| 0 <= j < self.sessions@.len() implies self.sessions@[j].name@
                    != key by {
                    assert(!self.named(j, key));
                }
                self.sessions.push(Entry { name, session });
            },
        }
        proof {
            assert(self.first_named(place, key)) by {
                assert forall|j: int| 0 <= j < place implies !self.named(j, key) by {
                    assert(!old(self).named(j, key));
                }
            }
            self.lemma_lookup(place, key);
            assert forall|other: Seq<char>| other != key implies self.lookup(other) == old(
                self,
            ).lookup(other) by {
                if old(self).contains(other) {
                    let w = choose|w: int| old(self).named(w, other);
                    old(self).lemma_first_exists(other, w);
                    let k = choose|k: int| old(self).first_named(k, other);
                    assert(old(self).named(k, other));
                    assert(self.first_named(k, other)) by {
                        assert(self.named(k, other));
                        assert forall|j: int| 0 <= j < k implies !self.named(j, other) by {
                            assert(!old(self).named(j, other));
                        }
                    }
                    self.lemma_lookup(k, other);
                    old(self).lemma_lookup(k, other);
                } else {
                    if self.contains(other) {
                        let k = choose|k: int| self.named(k, other);
                        assert(old(self).named(k, other));
                    }
                }
            }
        }
    }

    /// Looks `name` up and makes its session ready for use in the directory
    /// whose base name is `dir_name`. The catalog keeps the result in place
    /// of the session it held; a catalog without the name is left as it is.
    pub fn load(&mut self, name: &str, dir_name: &str, no_attach: bool) -> (r: Option<Session>)
        ensures
            r is Some <==> old(self).contains(name@),
            match r {
                Some(session) => {
                    &&& old(self).lookup(name@) is Some
                    &&& session@ == specialized(
                        old(self).lookup(name@).unwrap(),
                        dir_name@,
                        no_attach,
                    )
                    &&& final(self).lookup(name@) == Some(session@)
                    &&& final(self).sessions@.len() == old(self).sessions@.len()
                    &&& forall|j: int|
                        0 <= j < old(self).sessions@.len() ==> {
                            ||| old(self).first_named(j, name@)
                            ||| #[trigger] final(self).sessions@[j] == old(self).sessions@[j]
                        }
                },
                None => final(self).sessions@ == old(self).sessions@,
            },
            old(self).wf() ==> final(self).wf(),
    {
        match self.find(name) {
            Some(i) => {
                proof {
                    self.lemma_lookup(i as int, name@);
                }
                let ready = self.sessions[i].session.specialize(dir_name, no_attach);
                let kept = ready.clone();
                self.sessions.set(i, Entry { name: String::from_str(name), session: kept });
                proof {
                    assert(self.first_named(i as int, name@)) by {
                        assert forall|j: int| 0 <= j < i implies !self.named(j, name@) by {
                            assert(!old(self).named(j, name@));
                        }
                    }
                    self.lemma_lookup(i as int, name@);
                }
                Some(ready)
            },
            None => None,
        }
    }

    /// The position of the first entry under `name`.
    pub fn find(&self, name: &str) -> (r: Option<usize>)
        ensures
            match r {
                Some(i) => self.first_named(i as int, name@),
                None => !self.contains(name@),
            },
    {
        let wanted = String::from_str(name);
        let mut i: usize = 0;
        while i < self.sessions.len()
            invariant
                i <= self.sessions@.len(),
                wanted@ == name@,
                forall|j: int| 0 <= j < i ==> !self.named(j, name@),
            decreases self.sessions@.len() - i,
        {
            if self.sessions[i].name == wanted {
                return Some(i);
            }
            i = i + 1;
        }
        None
    }
}

} // verus!
