use rust_websocket::session::{
    Next, Outgoing, Reaction, SendOutcome, Session, SessionEvent, LAST_RESORT_PING_TIMEOUT_SECS,
};
use rust_websocket::stats::WebSocketStats;
use rust_websocket::users::UserSet;

struct World {
    users: UserSet,
    stats: WebSocketStats,
}

impl World {
    fn new() -> World {
        World { users: UserSet::new(), stats: WebSocketStats::new() }
    }

    fn step(&mut self, session: &mut Session, event: SessionEvent) -> Reaction {
        session.step(event, &mut self.users, &mut self.stats)
    }
}

fn text(s: &str) -> SessionEvent {
    SessionEvent::Text(s.to_string())
}

fn is_text(o: &Outgoing, expected: &str) -> bool {
    matches!(o, Outgoing::Text(t) if t == expected)
}

#[test]
fn first_text_is_the_username() {
    let mut world = World::new();
    let mut s = Session::new(25);
    let r = world.step(&mut s, text("alice"));
    assert_eq!(r.broadcast.as_deref(), Some("alice joined."));
    assert!(r.replies.is_empty());
    assert_eq!(r.next, Next::Continue);
    assert_eq!(s.username(), "alice");
    assert!(world.users.contains(&"alice".to_string()));
}

#[test]
fn later_texts_are_broadcast_with_the_username() {
    let mut world = World::new();
    let mut s = Session::new(25);
    world.step(&mut s, text("alice"));
    let r = world.step(&mut s, text("hello there"));
    assert_eq!(r.broadcast.as_deref(), Some("alice: hello there"));
    assert!(r.replies.is_empty());
    assert_eq!(r.next, Next::Continue);
    assert_eq!(s.username(), "alice");
}

#[test]
fn ping_text_is_answered_with_pong() {
    let mut world = World::new();
    let mut s = Session::new(25);
    world.step(&mut s, text("alice"));
    let r = world.step(&mut s, text("PING"));
    assert!(r.broadcast.is_none());
    assert_eq!(r.replies.len(), 1);
    assert!(is_text(&r.replies[0], "PONG"));
    assert_eq!(r.next, Next::Continue);
}

#[test]
fn ping_as_first_message_is_a_username() {
    let mut world = World::new();
    let mut s = Session::new(25);
    let r = world.step(&mut s, text("PING"));
    assert_eq!(r.broadcast.as_deref(), Some("PING joined."));
    assert_eq!(s.username(), "PING");
}

#[test]
fn taken_username_is_refused_and_closed() {
    let mut world = World::new();
    let mut first = Session::new(25);
    let mut second = Session::new(25);
    world.step(&mut first, text("alice"));
    let r = world.step(&mut second, text("alice"));
    assert!(r.broadcast.is_none());
    assert_eq!(r.replies.len(), 2);
    assert!(is_text(&r.replies[0], "Username alice is taken"));
    assert!(matches!(r.replies[1], Outgoing::Close));
    assert_eq!(r.next, Next::Stop);
    assert_eq!(second.username(), "");
}

#[test]
fn leaving_frees_the_username() {
    let mut world = World::new();
    let mut first = Session::new(25);
    world.step(&mut first, text("alice"));
    let left = first.finish(&mut world.users);
    assert_eq!(first.username(), "");
    assert_eq!(left.as_deref(), Some("alice left."));
    assert!(!world.users.contains(&"alice".to_string()));
    let mut second = Session::new(25);
    let r = world.step(&mut second, text("alice"));
    assert_eq!(r.next, Next::Continue);
    assert_eq!(r.broadcast.as_deref(), Some("alice joined."));
}

#[test]
fn leaving_without_username_announces_nothing() {
    let mut world = World::new();
    let mut s = Session::new(25);
    assert!(s.finish(&mut world.users).is_none());
}

#[test]
fn empty_username_claims_the_empty_name_but_stays_unnamed() {
    let mut world = World::new();
    let mut s = Session::new(25);
    let r = world.step(&mut s, text(""));
    assert_eq!(r.broadcast.as_deref(), Some(" joined."));
    assert_eq!(r.next, Next::Continue);
    assert_eq!(s.username(), "");
    assert!(world.users.contains(&String::new()));
    let r = world.step(&mut s, text("bob"));
    assert_eq!(r.broadcast.as_deref(), Some("bob joined."));
    assert_eq!(s.username(), "bob");
    let left = s.finish(&mut world.users);
    assert_eq!(left.as_deref(), Some("bob left."));
    assert!(!world.users.contains(&String::new()));
    assert!(!world.users.contains(&"bob".to_string()));
}

#[test]
fn empty_name_is_freed_when_its_client_leaves() {
    let mut world = World::new();
    let mut s = Session::new(25);
    world.step(&mut s, text(""));
    assert!(s.finish(&mut world.users).is_none());
    assert!(!world.users.contains(&String::new()));
    let mut other = Session::new(25);
    let r = world.step(&mut other, text(""));
    assert_eq!(r.next, Next::Continue);
    assert_eq!(r.broadcast.as_deref(), Some(" joined."));
}

#[test]
fn close_frame_stops_and_is_counted() {
    let mut world = World::new();
    let mut s = Session::new(25);
    let r = world.step(&mut s, SessionEvent::Close);
    assert_eq!(r.next, Next::Stop);
    assert!(r.replies.is_empty() && r.broadcast.is_none());
    assert_eq!(world.stats.report().connections_closed_by_client, 1);
}

#[test]
fn receive_error_stops_and_is_counted() {
    let mut world = World::new();
    let mut s = Session::new(25);
    let r = world.step(&mut s, SessionEvent::RecvError);
    assert_eq!(r.next, Next::Stop);
    assert_eq!(world.stats.report().connections_recv_error, 1);
}

#[test]
fn end_of_stream_stops_uncounted() {
    let mut world = World::new();
    let mut s = Session::new(25);
    let r = world.step(&mut s, SessionEvent::StreamEnded);
    assert_eq!(r.next, Next::Stop);
    let rep = world.stats.report();
    assert_eq!(rep.connections_recv_error + rep.connections_closed_by_client + rep.connections_timed_out, 0);
}

#[test]
fn other_messages_are_ignored() {
    let mut world = World::new();
    let mut s = Session::new(25);
    let r = world.step(&mut s, SessionEvent::Other);
    assert_eq!(r.next, Next::Continue);
    assert!(r.replies.is_empty() && r.broadcast.is_none());
    assert_eq!(s.timeout_secs(), 25);
}

#[test]
fn silent_client_is_pinged_then_closed() {
    let mut world = World::new();
    let mut s = Session::new(25);
    assert_eq!(s.timeout_secs(), 25);
    let r = world.step(&mut s, SessionEvent::TimedOut);
    assert_eq!(r.replies.len(), 1);
    assert!(matches!(r.replies[0], Outgoing::Ping));
    assert_eq!(r.next, Next::StopIfSendFails);
    assert_eq!(s.timeout_secs(), LAST_RESORT_PING_TIMEOUT_SECS);
    assert_eq!(world.stats.report().connections_timed_out, 0);
    let r = world.step(&mut s, SessionEvent::TimedOut);
    assert_eq!(r.next, Next::Stop);
    assert!(r.replies.is_empty());
    assert_eq!(world.stats.report().connections_timed_out, 1);
}

#[test]
fn pong_restores_the_configured_timeout() {
    let mut world = World::new();
    let mut s = Session::new(30);
    world.step(&mut s, SessionEvent::TimedOut);
    assert_eq!(s.timeout_secs(), 5);
    let r = world.step(&mut s, SessionEvent::Pong);
    assert_eq!(r.next, Next::Continue);
    assert_eq!(s.timeout_secs(), 30);
    let r = world.step(&mut s, SessionEvent::TimedOut);
    assert_eq!(r.next, Next::StopIfSendFails);
}

#[test]
fn configured_timeout_of_five_seconds_pings_first() {
    let mut world = World::new();
    let mut s = Session::new(5);
    let r = world.step(&mut s, SessionEvent::TimedOut);
    assert_eq!(r.next, Next::StopIfSendFails);
    assert!(matches!(r.replies[0], Outgoing::Ping));
    assert_eq!(world.stats.report().connections_timed_out, 0);
    let r = world.step(&mut s, SessionEvent::TimedOut);
    assert_eq!(r.next, Next::Stop);
    assert_eq!(world.stats.report().connections_timed_out, 1);
}

#[test]
fn any_message_after_a_ping_restarts_the_wait() {
    let mut world = World::new();
    let mut s = Session::new(30);
    world.step(&mut s, text("alice"));
    world.step(&mut s, SessionEvent::TimedOut);
    assert_eq!(s.timeout_secs(), LAST_RESORT_PING_TIMEOUT_SECS);
    let r = world.step(&mut s, text("hi"));
    assert_eq!(r.broadcast.as_deref(), Some("alice: hi"));
    assert_eq!(s.timeout_secs(), 30);
    let r = world.step(&mut s, SessionEvent::TimedOut);
    assert_eq!(r.next, Next::StopIfSendFails);
    assert!(matches!(r.replies[0], Outgoing::Ping));
    world.step(&mut s, SessionEvent::Other);
    assert_eq!(s.timeout_secs(), 30);
    assert_eq!(world.stats.report().connections_timed_out, 0);
}

#[test]
fn a_connection_is_counted_under_one_reason_only() {
    let mut world = World::new();
    let mut s = Session::new(25);
    world.step(&mut s, text("alice"));
    world.step(&mut s, text("PING"));
    assert!(!s.record_send(&mut world.stats, SendOutcome::Failed));
    assert!(!s.record_send(&mut world.stats, SendOutcome::TimedOut));
    world.step(&mut s, SessionEvent::Close);
    world.step(&mut s, SessionEvent::RecvError);
    let r = world.stats.report();
    assert_eq!(r.connections_send_error, 1);
    assert_eq!(r.connections_timed_out, 0);
    assert_eq!(r.connections_closed_by_client, 0);
    assert_eq!(r.connections_recv_error, 0);
}

#[test]
fn send_outcomes_are_counted() {
    let mut stats = WebSocketStats::new();
    let mut s = Session::new(25);
    assert!(s.record_send(&mut stats, SendOutcome::Sent));
    assert_eq!(stats.report().connections_send_error, 0);
    assert!(!s.record_send(&mut stats, SendOutcome::Failed));
    assert_eq!(stats.report().connections_send_error, 1);
    let mut slow = Session::new(25);
    assert!(!slow.record_send(&mut stats, SendOutcome::TimedOut));
    let r = stats.report();
    assert_eq!(r.connections_send_error, 1);
    assert_eq!(r.connections_timed_out, 1);
}

#[test]
fn taken_name_replies_failing_count_one_send_error() {
    let mut world = World::new();
    let mut first = Session::new(25);
    let mut second = Session::new(25);
    world.step(&mut first, text("alice"));
    let r = world.step(&mut second, text("alice"));
    for _ in r.replies {
        second.record_send(&mut world.stats, SendOutcome::Failed);
    }
    assert_eq!(world.stats.report().connections_send_error, 1);
}
