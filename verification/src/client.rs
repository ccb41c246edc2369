use vstd::prelude::*;

use crate::config::Config;
use crate::error::{spec_message, Error};
use crate::messages::{render_message, spec_render};
use crate::util::NoteRef;

verus! {

/// The session state of the dispatch core: whether setup has run, and the
/// directory the notes live in.
#[derive(Debug)]
pub struct State {
    pub did_setup: bool,
    pub notes_dir: String,
}

impl State {
    pub fn new() -> (s: State)
        ensures
            !s.did_setup,
            s.notes_dir@ == "./"@,
    {
        State { did_setup: false, notes_dir: crate::config::default_notes_dir() }
    }
}

impl Default for State {
    fn default() -> (s: State)
        ensures
            !s.did_setup,
            s.notes_dir@ == "./"@,
    {
        State::new()
    }
}

/// The mathematical value of a session handle.
pub struct ClientView {
    pub did_setup: bool,
    pub notes_dir: Seq<char>,
}

/// A handle on the session state. The host glue may share one underlying
/// state between many command callbacks; the library describes the state a
/// handle sees and how each operation changes it.
#[derive(Debug)]
pub struct Client {
    state: State,
}

impl View for Client {
    type V = ClientView;

    closed spec fn view(&self) -> ClientView {
        ClientView { did_setup: self.state.did_setup, notes_dir: self.state.notes_dir@ }
    }
}

impl Default for Client {
    fn default() -> (c: Client)
        ensures
            !c@.did_setup,
            c@.notes_dir == "./"@,
    {
        Client { state: State::new() }
    }
}

/// A directory path joined with a file name: a `/` is inserted unless the
/// directory is empty or already ends with one.
pub open spec fn spec_join_path(dir: Seq<char>, file: Seq<char>) -> Seq<char> {
    if dir.len() == 0 {
        file
    } else if dir[dir.len() - 1] == '/' {
        dir + file
    } else {
        dir + "/"@ + file
    }
}

impl Client {
    /// Creates a new session handle with setup not yet run and the default
    /// notes directory.
    pub fn new() -> (c: Client)
        ensures
            !c@.did_setup,
            c@.notes_dir == "./"@,
    {
        Client { state: State::new() }
    }

    /// Whether setup already ran in this session.
    pub fn already_setup(&self) -> (r: bool)
        ensures
            r == self@.did_setup,
    {
        self.state.did_setup
    }

    /// Record that setup has run.
    pub fn did_setup(&mut self)
        ensures
            final(self)@.did_setup,
            final(self)@.notes_dir == old(self)@.notes_dir,
    {
        self.state.did_setup = true;
    }

    /// Commit a built configuration into the session state.
    pub fn set_config(&mut self, config: Config)
        ensures
            final(self)@.did_setup == old(self)@.did_setup,
            final(self)@.notes_dir == config.notes_dir@,
    {
        self.state.notes_dir = config.notes_dir;
    }

    /// The configured notes directory.
    pub fn notes_dir(&self) -> (r: &String)
        ensures
            r@ == self@.notes_dir,
    {
        &self.state.notes_dir
    }

    /// The path of the note file a reference points at: the notes directory
    /// joined with the reference's file name.
    pub fn path_for(&self, note_ref: &NoteRef) -> (r: String)
        ensures
            r@ == spec_join_path(self@.notes_dir, note_ref@.id + ".md"@),
    {
        let file = note_ref.filename();
        let dir = &self.state.notes_dir;
        let n = dir.as_str().unicode_len();
        let mut s = dir.clone();
        if n == 0 {
            return file;
        }
        if dir.as_str().get_char(n - 1) != '/' {
            s.append("/");
        }
        s.append(file.as_str());
        s
    }
}

/// The outcome of dispatching a handler's result at the host boundary.
#[derive(Debug, PartialEq, Eq)]
pub enum Dispatched<R> {
    /// The handler succeeded: its value goes back to the host unchanged.
    Return(R),
    /// The handler failed with a domain error: the rendered message to
    /// echo, and the default value returned in the error's place.
    Rendered(String, R),
    /// The handler failed with a host error: re-raised to the host
    /// unchanged, carrying the host's own reason.
    Raised(String),
}

/// Classify a handler's result at the single host boundary point: a success
/// returns unchanged; a host error is re-raised unchanged; every domain
/// error is rendered as a tagged message and replaced by the default value,
/// so that it never unwinds past the dispatcher.
pub fn dispatch<R>(result: Result<R, Error>, default: R) -> (d: Dispatched<R>)
    ensures
        match result {
            Ok(v) => d == Dispatched::<R>::Return(v),
            Err(e) => match e {
                Error::HostError { why } => d == Dispatched::<R>::Raised(why),
                _ => d matches Dispatched::Rendered(m, v) && m@ == spec_render(spec_message(e))
                    && v == default,
            },
        },
{
    match result {
        Ok(v) => Dispatched::Return(v),
        Err(e) => match e {
            Error::HostError { why } => Dispatched::Raised(why),
            other => {
                let msg = render_message(other.message().as_str());
                Dispatched::Rendered(msg, default)
            },
        },
    }
}

/// The error-channel law: a result dispatched at the host boundary is
/// re-raised exactly when it is a host error; every domain error, a missing
/// reference included, is rendered and swallowed.
pub proof fn lemma_error_channel_separation<R>(result: Result<R, Error>, default: R, d: Dispatched<
    R,
>)
    requires
        match result {
            Ok(v) => d == Dispatched::<R>::Return(v),
            Err(e) => match e {
                Error::HostError { why } => d == Dispatched::<R>::Raised(why),
                _ => d matches Dispatched::Rendered(m, v) && m@ == spec_render(spec_message(e))
                    && v == default,
            },
        },
    ensures
        (d is Raised) <==> (result matches Err(e) && e is HostError),
        match result {
            Err(e) => !(e is HostError) ==> (d matches Dispatched::Rendered(m, v) && m@
                == spec_render(spec_message(e)) && v == default),
            Ok(v) => d == Dispatched::<R>::Return(v),
        },
{
}

} // verus!
