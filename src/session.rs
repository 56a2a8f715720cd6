//! The per-connection protocol: a session's state, the events that reach
//! it, and what it does in answer.

use vstd::prelude::*;

use crate::command::{command_of, int_of, parse_command, tokens, Command};
use crate::database::{get_line, holds_id, line_text, Store};
use crate::lines::{lemma_lines_of_len, lines_of, views};

verus! {

/// Where a session is in its life.
#[derive(Debug, Clone, Copy, PartialEq, Eq, Structural)]
pub enum SessionState {
    /// The transport's opening handshake has not completed yet.
    Handshaking,
    /// Commands are read and answered.
    Active,
    /// The session is over; nothing more is read.
    Closed,
}

/// What happens on a connection.
pub enum Event {
    /// The opening handshake succeeded.
    Opened,
    /// The opening handshake failed.
    OpenFailed,
    /// A text frame arrived.
    Text(String),
    /// A frame that is not text arrived.
    NonText,
    /// The peer ended the connection.
    Ended,
    /// Reading from or writing to the connection failed.
    Failed,
}

/// What the connection's owner is to do next.
#[derive(Debug, PartialEq, Eq)]
pub enum Action {
    /// Send these text frames, in order (none: send nothing).
    Send(Vec<String>),
    /// Close this connection.
    Close,
    /// End the whole process, and with it every connection.
    Shutdown,
}

/// The meaning of an `Action`.
pub enum Outcome {
    Send(Seq<Seq<char>>),
    Close,
    Shutdown,
}

impl View for Action {
    type V = Outcome;

    open spec fn view(&self) -> Outcome {
        match self {
            Action::Send(v) => Outcome::Send(views(v@)),
            Action::Close => Outcome::Close,
            Action::Shutdown => Outcome::Shutdown,
        }
    }
}

/// The reply that acknowledges a found line.
pub open spec fn ok_text() -> Seq<char> {
    "OK"@
}

/// The reply to a `GET` that names no line.
pub open spec fn err_text() -> Seq<char> {
    "ERR"@
}

/// The reply to an unrecognized command.
pub open spec fn help_text() -> Seq<char> {
    "Command not recognized, try GET n, QUIT, or SHUTDOWN"@
}

/// The frames that answer `GET` with the id `id`: `OK` then the line's
/// text when the store holds that id, else `ERR` alone.
pub open spec fn get_reply(lines: Seq<Seq<char>>, id: Option<i64>) -> Seq<Seq<char>> {
    match id {
        Some(n) => if holds_id(lines, n as int) {
            seq![ok_text(), line_text(lines, n as int)]
        } else {
            seq![err_text()]
        },
        None => seq![err_text()],
    }
}

/// The next state and outcome of an active session that receives the text
/// frame `frame`.
pub open spec fn on_frame(lines: Seq<Seq<char>>, frame: Seq<char>) -> (SessionState, Outcome) {
    match command_of(frame) {
        Command::Get(id) => (SessionState::Active, Outcome::Send(get_reply(lines, id))),
        Command::Quit => (SessionState::Closed, Outcome::Close),
        Command::Shutdown => (SessionState::Closed, Outcome::Shutdown),
        Command::Unrecognized => (SessionState::Active, Outcome::Send(seq![help_text()])),
    }
}

/// The next state and outcome of a session in state `state` on `event`.
pub open spec fn transition(state: SessionState, lines: Seq<Seq<char>>, event: Event) -> (
    SessionState,
    Outcome,
) {
    match state {
        SessionState::Handshaking => match event {
            Event::Opened => (SessionState::Active, Outcome::Send(seq![])),
            _ => (SessionState::Closed, Outcome::Close),
        },
        SessionState::Active => match event {
            Event::Text(t) => on_frame(lines, t@),
            Event::Ended => (SessionState::Closed, Outcome::Close),
            Event::Failed => (SessionState::Closed, Outcome::Close),
            _ => (SessionState::Active, Outcome::Send(seq![])),
        },
        SessionState::Closed => (SessionState::Closed, Outcome::Close),
    }
}

/// The frames that answer a `GET` of `id` on `store`.
pub fn reply_to_get(store: &Store, id: Option<i64>) -> (r: Vec<String>)
    ensures
        views(r@) == get_reply(store@, id),
{
    let mut out: Vec<String> = Vec::new();
    match id {
        Some(n) => match get_line(n, store) {
            Ok(line) => {
                out.push(String::from_str("OK"));
                out.push(line.data);
            },
            Err(_) => {
                out.push(String::from_str("ERR"));
            },
        },
        None => {
            out.push(String::from_str("ERR"));
        },
    }
    assert(views(out@) == get_reply(store@, id));
    out
}

/// What an active session does with the text frame `frame`.
pub fn respond(store: &Store, frame: &str) -> (r: (SessionState, Action))
    ensures
        r.0 == on_frame(store@, frame@).0,
        r.1@ == on_frame(store@, frame@).1,
{
    match parse_command(frame) {
        Command::Get(id) => (SessionState::Active, Action::Send(reply_to_get(store, id))),
        Command::Quit => (SessionState::Closed, Action::Close),
        Command::Shutdown => (SessionState::Closed, Action::Shutdown),
        Command::Unrecognized => {
            let mut out: Vec<String> = Vec::new();
            out.push(String::from_str("Command not recognized, try GET n, QUIT, or SHUTDOWN"));
            assert(views(out@) == seq![help_text()]);
            (SessionState::Active, Action::Send(out))
        },
    }
}

/// The next state of a session in state `state` on `event`, and what to do.
pub fn step(state: SessionState, store: &Store, event: &Event) -> (r: (SessionState, Action))
    ensures
        r.0 == transition(state, store@, *event).0,
        r.1@ == transition(state, store@, *event).1,
{
    let nothing: Vec<String> = Vec::new();
    assert(views(nothing@) == Seq::<Seq<char>>::empty());
    match state {
        SessionState::Handshaking => match event {
            Event::Opened => (SessionState::Active, Action::Send(nothing)),
            _ => (SessionState::Closed, Action::Close),
        },
        SessionState::Active => match event {
            Event::Text(t) => respond(store, t.as_str()),
            Event::Ended => (SessionState::Closed, Action::Close),
            Event::Failed => (SessionState::Closed, Action::Close),
            _ => (SessionState::Active, Action::Send(nothing)),
        },
        SessionState::Closed => (SessionState::Closed, Action::Close),
    }
}

/// One connection's session: the peer it serves and where it stands.
pub struct Session {
    peer: String,
    state: SessionState,
}

impl Session {
    /// A session with `peer`, waiting for the handshake.
    pub fn new(peer: String) -> (r: Session)
        ensures
            r.spec_peer() == peer@,
            r.state() == SessionState::Handshaking,
    {
        Session { peer, state: SessionState::Handshaking }
    }

    pub closed spec fn spec_peer(&self) -> Seq<char> {
        self.peer@
    }

    pub closed spec fn spec_state(&self) -> SessionState {
        self.state
    }

    /// The peer's identifier.
    pub fn peer(&self) -> (r: &String)
        ensures
            r@ == self.spec_peer(),
    {
        &self.peer
    }

    /// Where the session stands.
    #[verifier::when_used_as_spec(spec_state)]
    pub fn state(&self) -> (r: SessionState)
        ensures
            r == self.spec_state(),
    {
        self.state
    }

    /// Whether the session is over.
    pub fn is_closed(&self) -> (r: bool)
        ensures
            r == (self.state() == SessionState::Closed),
    {
        self.state == SessionState::Closed
    }

    /// Takes `event` and moves to the next state; the result says what to do.
    pub fn handle(&mut self, store: &Store, event: &Event) -> (r: Action)
        ensures
            final(self).spec_peer() == old(self).spec_peer(),
            final(self).state() == transition(old(self).state(), store@, *event).0,
            r@ == transition(old(self).state(), store@, *event).1,
    {
        let (next, action) = step(self.state, store, event);
        self.state = next;
        action
    }
}

/// Every line of a text can be fetched: in the store built from `text`, a
/// `GET` whose argument writes an id `i` in `[1, N]` is answered with `OK`,
/// then the exact text of line `i`, and the session stays active.
pub proof fn lemma_get_returns_line(text: Seq<char>, frame: Seq<char>, i: int)
    requires
        text.len() <= i64::MAX,
        1 <= i <= lines_of(text).len(),
        tokens(frame).len() >= 2,
        tokens(frame)[0] == "GET"@,
        int_of(tokens(frame)[1]) == Some(i),
    ensures
        on_frame(lines_of(text), frame) == (
            SessionState::Active,
            Outcome::Send(seq![ok_text(), lines_of(text)[i - 1]]),
        ),
{
    lemma_lines_of_len(text);
}

/// A `GET` whose argument is missing, is no integer, or is an integer
/// outside `[1, N]` is answered with exactly `ERR`, and the session stays
/// active for the commands that follow.
pub proof fn lemma_get_bad_id_errs(lines: Seq<Seq<char>>, frame: Seq<char>)
    requires
        tokens(frame).len() >= 1,
        tokens(frame)[0] == "GET"@,
        tokens(frame).len() < 2 || match int_of(tokens(frame)[1]) {
            Some(v) => v < 1 || v > lines.len(),
            None => true,
        },
    ensures
        on_frame(lines, frame) == (SessionState::Active, Outcome::Send(seq![err_text()])),
{
}

/// `QUIT` ends the session that sends it: the session is closed and the
/// outcome is the closing of that one connection, not of the process.
pub proof fn lemma_quit_closes_its_session(lines: Seq<Seq<char>>, frame: Seq<char>)
    requires
        command_of(frame) == Command::Quit,
    ensures
        on_frame(lines, frame) == (SessionState::Closed, Outcome::Close),
{
}

/// `SHUTDOWN` ends the process, whatever the store holds: its outcome is
/// the process-wide shutdown, and the session that sent it is over.
pub proof fn lemma_shutdown_ends_process(lines: Seq<Seq<char>>, frame: Seq<char>)
    requires
        command_of(frame) == Command::Shutdown,
    ensures
        on_frame(lines, frame) == (SessionState::Closed, Outcome::Shutdown),
{
}

/// Any verb but `GET`, `QUIT` and `SHUTDOWN` (or no verb at all) is answered
/// with the help text alone, and the session stays active.
pub proof fn lemma_unknown_verb_gets_help(lines: Seq<Seq<char>>, frame: Seq<char>)
    requires
        tokens(frame).len() == 0 || (tokens(frame)[0] != "GET"@ && tokens(frame)[0] != "QUIT"@
            && tokens(frame)[0] != "SHUTDOWN"@),
    ensures
        on_frame(lines, frame) == (SessionState::Active, Outcome::Send(seq![help_text()])),
{
}

} // verus!
