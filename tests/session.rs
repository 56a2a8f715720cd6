use line_server::database::build_database;
use line_server::session::{respond, step, Action, Event, Session, SessionState};

const HELP: &str = "Command not recognized, try GET n, QUIT, or SHUTDOWN";

fn send(frames: &[&str]) -> Action {
    Action::Send(frames.iter().map(|s| s.to_string()).collect())
}

#[test]
fn fruit_store_round_trip() {
    let store = build_database("apple\nbanana\ncherry\n");
    assert_eq!(respond(&store, "GET 1"), (SessionState::Active, send(&["OK", "apple"])));
    assert_eq!(respond(&store, "GET 2"), (SessionState::Active, send(&["OK", "banana"])));
    assert_eq!(respond(&store, "GET 3"), (SessionState::Active, send(&["OK", "cherry"])));
    assert_eq!(respond(&store, "GET 4"), (SessionState::Active, send(&["ERR"])));
    assert_eq!(respond(&store, "GET 0"), (SessionState::Active, send(&["ERR"])));
    assert_eq!(respond(&store, "FOO"), (SessionState::Active, send(&[HELP])));
}

#[test]
fn every_line_is_served_exactly() {
    let text = "first line\n  indented\t\n\nlast";
    let store = build_database(text);
    for (i, line) in text.lines().enumerate() {
        let frame = format!("GET {}", i + 1);
        assert_eq!(respond(&store, &frame), (SessionState::Active, send(&["OK", line])));
    }
}

#[test]
fn bad_get_arguments_answer_err_and_keep_the_session() {
    let store = build_database("only\n");
    for f in ["GET", "GET x", "GET -1", "GET 0", "GET 2", "GET 1.0", "GET 99999999999999999999"] {
        assert_eq!(respond(&store, f), (SessionState::Active, send(&["ERR"])), "frame {:?}", f);
    }
    let mut s = Session::new("peer".to_string());
    s.handle(&store, &Event::Opened);
    assert_eq!(s.handle(&store, &Event::Text("GET zero".to_string())), send(&["ERR"]));
    assert_eq!(s.handle(&store, &Event::Text("GET 1".to_string())), send(&["OK", "only"]));
    assert_eq!(s.state(), SessionState::Active);
}

#[test]
fn unknown_verbs_get_help_and_keep_the_session() {
    let store = build_database("x\n");
    for f in ["FOO", "", "get 1", "HELP me"] {
        assert_eq!(respond(&store, f), (SessionState::Active, send(&[HELP])), "frame {:?}", f);
    }
}

#[test]
fn quit_closes_only_its_session() {
    let store = build_database("a\nb\n");
    let mut one = Session::new("one".to_string());
    let mut two = Session::new("two".to_string());
    one.handle(&store, &Event::Opened);
    two.handle(&store, &Event::Opened);
    assert_eq!(one.handle(&store, &Event::Text("QUIT".to_string())), Action::Close);
    assert!(one.is_closed());
    assert!(!two.is_closed());
    assert_eq!(two.handle(&store, &Event::Text("GET 2".to_string())), send(&["OK", "b"]));
    assert_eq!(one.peer(), "one");
}

#[test]
fn shutdown_ends_the_process() {
    let store = build_database("a\n");
    assert_eq!(respond(&store, "SHUTDOWN"), (SessionState::Closed, Action::Shutdown));
    assert_eq!(respond(&store, "SHUTDOWN now"), (SessionState::Closed, Action::Shutdown));
}

#[test]
fn session_lifecycle() {
    let store = build_database("a\n");
    let mut s = Session::new("p".to_string());
    assert_eq!(s.state(), SessionState::Handshaking);
    assert_eq!(s.handle(&store, &Event::Opened), send(&[]));
    assert_eq!(s.state(), SessionState::Active);
    assert_eq!(s.handle(&store, &Event::NonText), send(&[]));
    assert_eq!(s.state(), SessionState::Active);
    assert_eq!(s.handle(&store, &Event::Ended), Action::Close);
    assert_eq!(s.state(), SessionState::Closed);
    assert_eq!(s.handle(&store, &Event::Text("GET 1".to_string())), Action::Close);
    assert_eq!(s.state(), SessionState::Closed);
}

#[test]
fn failed_handshake_or_transport_closes() {
    let store = build_database("a\n");
    assert_eq!(step(SessionState::Handshaking, &store, &Event::OpenFailed), (SessionState::Closed, Action::Close));
    assert_eq!(step(SessionState::Handshaking, &store, &Event::Text("GET 1".to_string())), (SessionState::Closed, Action::Close));
    assert_eq!(step(SessionState::Active, &store, &Event::Failed), (SessionState::Closed, Action::Close));
}
