//! The message protocol of one WebSocket connection, as a state machine.
//!
//! The first text message a client sends is its username; every later text message is
//! broadcast to the chat with the username in front, except `PING`, which is answered
//! with `PONG`. When no message arrives for the configured timeout, the server pings the
//! client; when still no message arrives within [`LAST_RESORT_PING_TIMEOUT_SECS`] more
//! seconds, the connection is closed. Any message restarts the configured wait.
//!
//! Each connection is counted under at most one of the reasons the statistics keep (a
//! close frame, a receive error, a send that failed, a send or a ping that timed out):
//! the first one that happens to it.
//!
//! [`Session::step`] decides what one received event does, and [`Session::record_send`]
//! what the outcome of one send does; the caller performs the sends and the broadcast
//! they ask for, and stops when they say so.

use vstd::prelude::*;
use vstd::string::*;
use vstd::wrapping::u64_specs::wrapping_add;

use crate::stats::{StatsView, WebSocketStats};
use crate::users::{check_username, UserSet};

verus! {

/// After the configured timeout the server sends a ping to the client. If it still
/// receives nothing within this many seconds, it closes the connection.
pub const LAST_RESORT_PING_TIMEOUT_SECS: u64 = 5;

/// What the connection delivered next.
pub enum SessionEvent {
    /// The client sent a close frame.
    Close,
    /// The client sent a text message.
    Text(String),
    /// The client answered a ping.
    Pong,
    /// The client sent a binary message or a ping of its own.
    Other,
    /// Receiving failed.
    RecvError,
    /// The stream of messages ended.
    StreamEnded,
    /// Nothing arrived within the current timeout.
    TimedOut,
}

/// A message for the server to send to this client.
pub enum Outgoing {
    Text(String),
    Ping,
    Close,
}

/// The abstract value of an [`Outgoing`] message.
pub enum OutgoingView {
    Text(Seq<char>),
    Ping,
    Close,
}

impl View for Outgoing {
    type V = OutgoingView;

    open spec fn view(&self) -> OutgoingView {
        match self {
            Outgoing::Text(t) => OutgoingView::Text(t@),
            Outgoing::Ping => OutgoingView::Ping,
            Outgoing::Close => OutgoingView::Close,
        }
    }
}

/// Whether the connection goes on after an event.
#[derive(PartialEq, Eq, Structural, Clone, Copy, Debug)]
pub enum Next {
    /// Keep reading.
    Continue,
    /// Stop reading and close the connection.
    Stop,
    /// Keep reading if every reply was sent; stop if sending one failed.
    StopIfSendFails,
}

/// What the server does in answer to one event.
pub struct Reaction {
    /// A message to broadcast to every connected client.
    pub broadcast: Option<String>,
    /// Messages to send to this client, in order.
    pub replies: Vec<Outgoing>,
    pub next: Next,
}

/// The abstract value of a [`Reaction`].
pub struct ReactionView {
    pub broadcast: Option<Seq<char>>,
    pub replies: Seq<OutgoingView>,
    pub next: Next,
}

impl View for Reaction {
    type V = ReactionView;

    open spec fn view(&self) -> ReactionView {
        ReactionView {
            broadcast: match self.broadcast {
                Some(b) => Some(b@),
                None => None,
            },
            replies: self.replies@.map_values(|o: Outgoing| o@),
            next: self.next,
        }
    }
}
/// The state of one connection.
pub struct Session {
    username: String,
    timeout_secs: u64,
    configured_timeout_secs: u64,
    pinged: bool,
    holds_empty_name: bool,
    cause_counted: bool,
}

/// The abstract value of a [`Session`].
pub struct SessionView {
    /// The client's username; empty until it has claimed a non-empty one.
    pub username: Seq<char>,
    /// How long to wait for the next message, in seconds.
    pub timeout_secs: u64,
    /// The server's configured WebSocket timeout, in seconds.
    pub configured_timeout_secs: u64,
    /// Whether the server has pinged the client since the last message it received.
    pub pinged: bool,
    /// Whether this client has claimed the empty username.
    pub holds_empty_name: bool,
    /// Whether the reason this connection ends has been counted in the statistics.
    pub cause_counted: bool,
}

impl View for Session {
    type V = SessionView;

    closed spec fn view(&self) -> SessionView {
        SessionView {
            username: self.username@,
            timeout_secs: self.timeout_secs,
            configured_timeout_secs: self.configured_timeout_secs,
            pinged: self.pinged,
            holds_empty_name: self.holds_empty_name,
            cause_counted: self.cause_counted,
        }
    }
}

/// Broadcast when a client takes the username `name`.
pub open spec fn joined_message(name: Seq<char>) -> Seq<char> {
    name + " joined."@
}

/// Sent to a client whose requested username `name` is taken.
pub open spec fn taken_message(name: Seq<char>) -> Seq<char> {
    "Username "@ + name + " is taken"@
}

/// Broadcast for a chat message `text` from `name`.
pub open spec fn chat_message(name: Seq<char>, text: Seq<char>) -> Seq<char> {
    name + ": "@ + text
}

/// Broadcast when the client named `name` leaves.
pub open spec fn left_message(name: Seq<char>) -> Seq<char> {
    name + " left."@
}

/// The session once a message has been received: it waits the configured time again.
pub open spec fn message_received(s: SessionView) -> SessionView {
    SessionView { timeout_secs: s.configured_timeout_secs, pinged: false, ..s }
}

/// The session after `event`, given the usernames taken before it.
pub open spec fn session_after(s: SessionView, users: Set<Seq<char>>, event: SessionEvent) -> SessionView {
    match event {
        SessionEvent::Close => SessionView { cause_counted: true, ..message_received(s) },
        SessionEvent::Text(t) => {
            if s.username.len() == 0 && !users.contains(t@) {
                SessionView {
                    username: t@,
                    holds_empty_name: s.holds_empty_name || t@.len() == 0,
                    ..message_received(s)
                }
            } else {
                message_received(s)
            }
        },
        SessionEvent::Pong => message_received(s),
        SessionEvent::Other => message_received(s),
        SessionEvent::RecvError => SessionView { cause_counted: true, ..s },
        SessionEvent::StreamEnded => s,
        SessionEvent::TimedOut => {
            if s.pinged {
                SessionView { cause_counted: true, ..s }
            } else {
                SessionView { timeout_secs: LAST_RESORT_PING_TIMEOUT_SECS, pinged: true, ..s }
            }
        },
    }
}

/// The usernames taken after `event`.
pub open spec fn users_after(s: SessionView, users: Set<Seq<char>>, event: SessionEvent) -> Set<Seq<char>> {
    match event {
        SessionEvent::Text(t) => {
            if s.username.len() == 0 {
                users.insert(t@)
            } else {
                users
            }
        },
        _ => users,
    }
}

/// The statistics after `event`. An event that ends the connection for a counted reason
/// counts it, unless a reason has been counted already.
pub open spec fn stats_after(s: SessionView, stats: StatsView, event: SessionEvent) -> StatsView {
    if s.cause_counted {
        stats
    } else {
        match event {
            SessionEvent::Close => StatsView { closed_by_client: wrapping_add(stats.closed_by_client, 1), ..stats },
            SessionEvent::RecvError => StatsView { recv_error: wrapping_add(stats.recv_error, 1), ..stats },
            SessionEvent::TimedOut => {
                if s.pinged {
                    StatsView { timed_out: wrapping_add(stats.timed_out, 1), ..stats }
                } else {
                    stats
                }
            },
            _ => stats,
        }
    }
}

/// What the server does in answer to `event`.
pub open spec fn reaction_to(s: SessionView, users: Set<Seq<char>>, event: SessionEvent) -> ReactionView {
    match event {
        SessionEvent::Close => ReactionView { broadcast: None, replies: seq![], next: Next::Stop },
        SessionEvent::Text(t) => {
            if s.username.len() == 0 {
                if !users.contains(t@) {
                    ReactionView { broadcast: Some(joined_message(t@)), replies: seq![], next: Next::Continue }
                } else {
                    ReactionView {
                        broadcast: None,
                        replies: seq![OutgoingView::Text(taken_message(t@)), OutgoingView::Close],
                        next: Next::Stop,
                    }
                }
            } else if t@ == "PING"@ {
                ReactionView { broadcast: None, replies: seq![OutgoingView::Text("PONG"@)], next: Next::Continue }
            } else {
                ReactionView { broadcast: Some(chat_message(s.username, t@)), replies: seq![], next: Next::Continue }
            }
        },
        SessionEvent::Pong => ReactionView { broadcast: None, replies: seq![], next: Next::Continue },
        SessionEvent::Other => ReactionView { broadcast: None, replies: seq![], next: Next::Continue },
        SessionEvent::RecvError => ReactionView { broadcast: None, replies: seq![], next: Next::Stop },
        SessionEvent::StreamEnded => ReactionView { broadcast: None, replies: seq![], next: Next::Stop },
        SessionEvent::TimedOut => {
            if s.pinged {
                ReactionView { broadcast: None, replies: seq![], next: Next::Stop }
            } else {
                ReactionView { broadcast: None, replies: seq![OutgoingView::Ping], next: Next::StopIfSendFails }
            }
        },
    }
}

/// How sending one message to the client ended.
pub enum SendOutcome {
    /// The message was sent.
    Sent,
    /// Sending failed.
    Failed,
    /// The send did not finish within the WebSocket timeout: the client's send buffer
    /// stayed full, it is too slow to keep up with the server.
    TimedOut,
}

/// The session after a send ended with `outcome`: a send that did not go through is
/// counted as the connection's reason for ending, unless one has been counted already.
pub open spec fn session_after_send(s: SessionView, outcome: SendOutcome) -> SessionView {
    match outcome {
        SendOutcome::Sent => s,
        _ => SessionView { cause_counted: true, ..s },
    }
}

/// The statistics after a send ended with `outcome`: a failed send is counted as an error
/// in send, and a send that did not finish in time as a timeout (the client is too slow
/// to keep up), unless a reason has been counted already.
pub open spec fn stats_after_send(s: SessionView, stats: StatsView, outcome: SendOutcome) -> StatsView {
    if s.cause_counted {
        stats
    } else {
        match outcome {
            SendOutcome::Sent => stats,
            SendOutcome::Failed => StatsView { send_error: wrapping_add(stats.send_error, 1), ..stats },
            SendOutcome::TimedOut => StatsView { timed_out: wrapping_add(stats.timed_out, 1), ..stats },
        }
    }
}

/// The usernames that are still taken once the client of `s` has left.
pub open spec fn users_after_leaving(s: SessionView, users: Set<Seq<char>>) -> Set<Seq<char>> {
    let named = if s.username.len() != 0 {
        users.remove(s.username)
    } else {
        users
    };
    if s.holds_empty_name {
        named.remove(Seq::<char>::empty())
    } else {
        named
    }
}

impl Session {
    /// A new connection: no username yet, waiting `web_socket_timeout_secs` for a message.
    pub fn new(web_socket_timeout_secs: u64) -> (s: Self)
        ensures
            s@ == (SessionView {
                username: Seq::<char>::empty(),
                timeout_secs: web_socket_timeout_secs,
                configured_timeout_secs: web_socket_timeout_secs,
                pinged: false,
                holds_empty_name: false,
                cause_counted: false,
            }),
    {
        Session {
            username: String::new(),
            timeout_secs: web_socket_timeout_secs,
            configured_timeout_secs: web_socket_timeout_secs,
            pinged: false,
            holds_empty_name: false,
            cause_counted: false,
        }
    }

    /// The client's username; empty until it has claimed a non-empty one.
    pub fn username(&self) -> (name: &String)
        ensures
            name@ == self@.username,
    {
        &self.username
    }

    /// How long to wait for the next message, in seconds.
    pub fn timeout_secs(&self) -> (secs: u64)
        ensures
            secs == self@.timeout_secs,
    {
        self.timeout_secs
    }

    fn empty_reaction(next: Next) -> (r: Reaction)
        ensures
            r@ == (ReactionView { broadcast: None, replies: seq![], next: next }),
    {
        let r = Reaction { broadcast: None, replies: Vec::new(), next: next };
        assert(r@.replies =~= seq![]);
        r
    }

    /// A message arrived: wait the configured time again.
    fn restart_wait(&mut self)
        ensures
            final(self)@ == message_received(old(self)@),
    {
        self.timeout_secs = self.configured_timeout_secs;
        self.pinged = false;
    }

    fn on_text(&mut self, text: String, users: &mut UserSet) -> (r: Reaction)
        ensures
            final(self)@ == session_after(old(self)@, old(users)@, SessionEvent::Text(text)),
            final(users)@ == users_after(old(self)@, old(users)@, SessionEvent::Text(text)),
            r@ == reaction_to(old(self)@, old(users)@, SessionEvent::Text(text)),
    {
        self.restart_wait();
        if self.username.as_str().is_empty() {
            if check_username(users, &text) {
                let mut msg = text.clone();
                msg.append(" joined.");
                if text.as_str().is_empty() {
                    self.holds_empty_name = true;
                }
                self.username = text;
                let r = Reaction { broadcast: Some(msg), replies: Vec::new(), next: Next::Continue };
                assert(r@.replies =~= seq![]);
                r
            } else {
                let mut msg = String::from_str("Username ");
                msg.append(text.as_str());
                msg.append(" is taken");
                let mut replies: Vec<Outgoing> = Vec::new();
                replies.push(Outgoing::Text(msg));
                replies.push(Outgoing::Close);
                let r = Reaction { broadcast: None, replies: replies, next: Next::Stop };
                assert(r@.replies =~= seq![OutgoingView::Text(taken_message(text@)), OutgoingView::Close]);
                r
            }
        } else {
            let ping = String::from_str("PING");
            if text == ping {
                let mut replies: Vec<Outgoing> = Vec::new();
                replies.push(Outgoing::Text(String::from_str("PONG")));
                let r = Reaction { broadcast: None, replies: replies, next: Next::Continue };
                assert(r@.replies =~= seq![OutgoingView::Text("PONG"@)]);
                r
            } else {
                let mut msg = self.username.clone();
                msg.append(": ");
                msg.append(text.as_str());
                let r = Reaction { broadcast: Some(msg), replies: Vec::new(), next: Next::Continue };
                assert(r@.replies =~= seq![]);
                r
            }
        }
    }

    /// Handles one received event: updates the session, the taken usernames and the
    /// statistics, and says what to send, what to broadcast and whether to go on.
    pub fn step(&mut self, event: SessionEvent, users: &mut UserSet, stats: &mut WebSocketStats) -> (r: Reaction)
        ensures
            final(self)@ == session_after(old(self)@, old(users)@, event),
            final(users)@ == users_after(old(self)@, old(users)@, event),
            final(stats)@ == stats_after(old(self)@, old(stats)@, event),
            r@ == reaction_to(old(self)@, old(users)@, event),
    {
        match event {
            SessionEvent::Close => {
                if !self.cause_counted {
                    stats.track_client_close();
                }
                self.restart_wait();
                self.cause_counted = true;
                Self::empty_reaction(Next::Stop)
            },
            SessionEvent::Text(text) => self.on_text(text, users),
            SessionEvent::Pong => {
                self.restart_wait();
                Self::empty_reaction(Next::Continue)
            },
            SessionEvent::Other => {
                self.restart_wait();
                Self::empty_reaction(Next::Continue)
            },
            SessionEvent::RecvError => {
                if !self.cause_counted {
                    stats.track_recv_error();
                }
                self.cause_counted = true;
                Self::empty_reaction(Next::Stop)
            },
            SessionEvent::StreamEnded => Self::empty_reaction(Next::Stop),
            SessionEvent::TimedOut => {
                if self.pinged {
                    if !self.cause_counted {
                        stats.track_timeout();
                    }
                    self.cause_counted = true;
                    Self::empty_reaction(Next::Stop)
                } else {
                    self.timeout_secs = LAST_RESORT_PING_TIMEOUT_SECS;
                    self.pinged = true;
                    let mut replies: Vec<Outgoing> = Vec::new();
                    replies.push(Outgoing::Ping);
                    let r = Reaction { broadcast: None, replies: replies, next: Next::StopIfSendFails };
                    assert(r@.replies =~= seq![OutgoingView::Ping]);
                    r
                }
            },
        }
    }

    /// Handles how sending one message ended: a failed send is counted as an error in
    /// send, and a send that did not finish in time as a timeout, unless a reason has been
    /// counted already for this connection. Returns whether the message was sent.
    pub fn record_send(&mut self, stats: &mut WebSocketStats, outcome: SendOutcome) -> (sent: bool)
        ensures
            sent == (outcome is Sent),
            final(self)@ == session_after_send(old(self)@, outcome),
            final(stats)@ == stats_after_send(old(self)@, old(stats)@, outcome),
    {
        match outcome {
            SendOutcome::Sent => true,
            SendOutcome::Failed => {
                if !self.cause_counted {
                    stats.track_send_error();
                }
                self.cause_counted = true;
                false
            },
            SendOutcome::TimedOut => {
                if !self.cause_counted {
                    stats.track_timeout();
                }
                self.cause_counted = true;
                false
            },
        }
    }

    /// Ends the session. The client frees every username it claimed, so that new clients
    /// can take them again, and, if it had a username, the returned message announces that
    /// it left.
    pub fn finish(&mut self, users: &mut UserSet) -> (left: Option<String>)
        ensures
            final(users)@ == users_after_leaving(old(self)@, old(users)@),
            final(self)@ == (SessionView { username: Seq::<char>::empty(), holds_empty_name: false, ..old(self)@ }),
            old(self)@.username.len() == 0 ==> left is None,
            old(self)@.username.len() != 0 ==> (left matches Some(m) && m@ == left_message(old(self)@.username)),
    {
        let left = if self.username.as_str().is_empty() {
            None
        } else {
            let mut msg = self.username.clone();
            msg.append(" left.");
            users.remove(&self.username);
            Some(msg)
        };
        if self.holds_empty_name {
            users.remove(&String::new());
        }
        self.username = String::new();
        self.holds_empty_name = false;
        left
    }
}

/// Once a client has taken a username, no event changes it.
pub proof fn lemma_username_kept(s: SessionView, users: Set<Seq<char>>, event: SessionEvent)
    requires
        s.username.len() != 0,
    ensures
        session_after(s, users, event).username == s.username,
        users_after(s, users, event) == users,
{
}

/// Usernames are unique: once one client has taken a name, another client that asks
/// for the same name is told it is taken, is disconnected, and gets no name.
pub proof fn lemma_username_unique(
    first: SessionView,
    second: SessionView,
    users: Set<Seq<char>>,
    name: String,
    same_name: String,
)
    requires
        first.username.len() == 0,
        second.username.len() == 0,
        !users.contains(name@),
        same_name@ == name@,
    ensures
        session_after(first, users, SessionEvent::Text(name)).username == name@,
        ({
            let taken = users_after(first, users, SessionEvent::Text(name));
            &&& reaction_to(second, taken, SessionEvent::Text(same_name)) == (ReactionView {
                broadcast: None,
                replies: seq![OutgoingView::Text(taken_message(name@)), OutgoingView::Close],
                next: Next::Stop,
            })
            &&& session_after(second, taken, SessionEvent::Text(same_name)).username.len() == 0
            &&& users_after(second, taken, SessionEvent::Text(same_name)) == taken
        }),
{
    let taken = users_after(first, users, SessionEvent::Text(name));
    assert(taken.contains(same_name@));
    assert(taken.insert(same_name@) =~= taken);
}

/// A client that leaves holds no username any more: each name it claimed, the empty one
/// included, can be taken by a new client.
pub proof fn lemma_freed_name_claimable(
    leaving: SessionView,
    newcomer: SessionView,
    users: Set<Seq<char>>,
    name: String,
)
    requires
        newcomer.username.len() == 0,
        (leaving.username.len() != 0 && name@ == leaving.username) || (leaving.holds_empty_name && name@.len() == 0),
    ensures
        ({
            let freed = users_after_leaving(leaving, users);
            &&& reaction_to(newcomer, freed, SessionEvent::Text(name)) == (ReactionView {
                broadcast: Some(joined_message(name@)),
                replies: seq![],
                next: Next::Continue,
            })
            &&& session_after(newcomer, freed, SessionEvent::Text(name)).username == name@
            &&& users_after(newcomer, freed, SessionEvent::Text(name)).contains(name@)
        }),
{
    if name@.len() == 0 {
        assert(name@ =~= Seq::<char>::empty());
    }
}

/// A client that sends nothing is pinged once after the configured wait; if it is still
/// silent at the next timeout, the connection is closed and counted as timed out.
pub proof fn lemma_silent_client_closed(s: SessionView, users: Set<Seq<char>>, stats: StatsView)
    requires
        !s.pinged,
        !s.cause_counted,
    ensures
        reaction_to(s, users, SessionEvent::TimedOut) == (ReactionView {
            broadcast: None,
            replies: seq![OutgoingView::Ping],
            next: Next::StopIfSendFails,
        }),
        stats_after(s, stats, SessionEvent::TimedOut) == stats,
        ({
            let pinged = session_after(s, users, SessionEvent::TimedOut);
            &&& pinged.timeout_secs == LAST_RESORT_PING_TIMEOUT_SECS
            &&& reaction_to(pinged, users, SessionEvent::TimedOut).next == Next::Stop
            &&& stats_after(pinged, stats, SessionEvent::TimedOut) == (StatsView {
                timed_out: wrapping_add(stats.timed_out, 1),
                ..stats
            })
        }),
{
}

/// Every message from the client restarts the configured wait: the next silence is
/// answered with a fresh ping, not with closing the connection.
pub proof fn lemma_message_restarts_wait(s: SessionView, users: Set<Seq<char>>, event: SessionEvent)
    requires
        event is Text || event is Pong || event is Other,
    ensures
        session_after(s, users, event).timeout_secs == s.configured_timeout_secs,
        !session_after(s, users, event).pinged,
        reaction_to(session_after(s, users, event), users, SessionEvent::TimedOut).replies
            == seq![OutgoingView::Ping],
        reaction_to(s, users, event).next != Next::Stop || (event is Text && s.username.len() == 0),
{
}

/// A pong is answered with nothing: no reply, no broadcast, and the connection goes on;
/// it changes neither the taken usernames nor the statistics.
pub proof fn lemma_pong_sends_nothing(s: SessionView, users: Set<Seq<char>>, stats: StatsView)
    ensures
        reaction_to(s, users, SessionEvent::Pong).replies.len() == 0,
        reaction_to(s, users, SessionEvent::Pong).broadcast is None,
        reaction_to(s, users, SessionEvent::Pong).next == Next::Continue,
        users_after(s, users, SessionEvent::Pong) == users,
        stats_after(s, stats, SessionEvent::Pong) == stats,
{
}

/// Leaving frees exactly the names the leaving client claimed: its username and, if it
/// claimed it, the empty name. Every other name stays as taken or as free as it was, so
/// the names of the clients still connected stay theirs.
pub proof fn lemma_leaving_frees_only_own_names(s: SessionView, users: Set<Seq<char>>, name: Seq<char>)
    ensures
        !(s.username.len() != 0 && name == s.username) && !(s.holds_empty_name && name.len() == 0)
            ==> users_after_leaving(s, users).contains(name) == users.contains(name),
        s.username.len() != 0 ==> !users_after_leaving(s, users).contains(s.username),
        s.holds_empty_name ==> !users_after_leaving(s, users).contains(Seq::<char>::empty()),
{
    if name.len() == 0 {
        assert(name =~= Seq::<char>::empty());
    }
}

/// Whether every happening in `happenings` is a send that went through.
pub open spec fn all_sent(happenings: Seq<Happening>) -> bool {
    forall|i: int| 0 <= i < happenings.len() ==> #[trigger] happenings[i] matches Happening::SendEnded(SendOutcome::Sent)
}

/// Sends that go through change nothing: the session, the taken usernames and the
/// statistics are as they were before them.
pub proof fn lemma_sends_change_nothing(
    s: SessionView,
    users: Set<Seq<char>>,
    stats: StatsView,
    before: Seq<Happening>,
    sends: Seq<Happening>,
)
    requires
        all_sent(sends),
    ensures
        run(s, users, stats, before + sends) == run(s, users, stats, before),
    decreases sends.len(),
{
    if sends.len() == 0 {
        assert(before + sends =~= before);
    } else {
        let rest = sends.drop_last();
        assert((before + sends).drop_last() =~= before + rest);
        assert((before + sends).last() == sends[sends.len() - 1]);
        assert(all_sent(rest)) by {
            assert forall|i: int| 0 <= i < rest.len() implies #[trigger] rest[i] matches Happening::SendEnded(SendOutcome::Sent) by {
                assert(rest[i] == sends[i]);
            }
        }
        lemma_sends_change_nothing(s, users, stats, before, rest);
    }
}

/// After the server pings a silent client, messages it sends to the client (answers to
/// other clients' chat, for instance) do not count as hearing from the client: if the
/// client is still silent at the next timeout, the connection is closed and counted as
/// timed out.
pub proof fn lemma_sends_do_not_restart_wait(
    s: SessionView,
    users: Set<Seq<char>>,
    stats: StatsView,
    sends: Seq<Happening>,
)
    requires
        !s.pinged,
        !s.cause_counted,
        all_sent(sends),
    ensures
        ({
            let (s1, u1, st1) = run(s, users, stats, seq![Happening::Received(SessionEvent::TimedOut)] + sends);
            &&& reaction_to(s1, u1, SessionEvent::TimedOut).next == Next::Stop
            &&& stats_after(s1, st1, SessionEvent::TimedOut) == (StatsView {
                timed_out: wrapping_add(stats.timed_out, 1),
                ..stats
            })
        }),
{
    let ping = seq![Happening::Received(SessionEvent::TimedOut)];
    lemma_sends_change_nothing(s, users, stats, ping, sends);
    assert(ping.drop_last() =~= Seq::<Happening>::empty());
    assert(run(s, users, stats, Seq::<Happening>::empty()) == (s, users, stats));
}

/// A close frame, a receive error and the end of the stream each end the connection,
/// in every state, and leave the taken usernames as they are.
pub proof fn lemma_end_events_stop(s: SessionView, users: Set<Seq<char>>, event: SessionEvent)
    requires
        event is Close || event is RecvError || event is StreamEnded,
    ensures
        reaction_to(s, users, event).next == Next::Stop,
        users_after(s, users, event) == users,
{
}

/// Something that happens on a connection: a received event, or the end of a send.
pub enum Happening {
    Received(SessionEvent),
    SendEnded(SendOutcome),
}

/// The session, the taken usernames and the statistics after the connection alone goes
/// through `happenings`, in order.
pub open spec fn run(
    s: SessionView,
    users: Set<Seq<char>>,
    stats: StatsView,
    happenings: Seq<Happening>,
) -> (SessionView, Set<Seq<char>>, StatsView)
    decreases happenings.len(),
{
    if happenings.len() == 0 {
        (s, users, stats)
    } else {
        let (s1, u1, st1) = run(s, users, stats, happenings.drop_last());
        match happenings.last() {
            Happening::Received(e) => (session_after(s1, u1, e), users_after(s1, u1, e), stats_after(s1, st1, e)),
            Happening::SendEnded(o) => (session_after_send(s1, o), u1, stats_after_send(s1, st1, o)),
        }
    }
}

/// The counters of the reasons a connection ends are the same in `a` and `b`.
pub open spec fn same_causes(a: StatsView, b: StatsView) -> bool {
    &&& b.closed_by_client == a.closed_by_client
    &&& b.recv_error == a.recv_error
    &&& b.send_error == a.send_error
    &&& b.timed_out == a.timed_out
}

/// Exactly one of the counters of the reasons a connection ends is one higher (modulo
/// 2^64) in `b` than in `a`; the others are the same.
pub open spec fn one_cause_added(a: StatsView, b: StatsView) -> bool {
    ||| same_causes(StatsView { closed_by_client: wrapping_add(a.closed_by_client, 1), ..a }, b)
    ||| same_causes(StatsView { recv_error: wrapping_add(a.recv_error, 1), ..a }, b)
    ||| same_causes(StatsView { send_error: wrapping_add(a.send_error, 1), ..a }, b)
    ||| same_causes(StatsView { timed_out: wrapping_add(a.timed_out, 1), ..a }, b)
}

/// A connection is counted under at most one reason for ending: whatever happens on a
/// connection that starts with no reason counted, either no reason counter has moved, or
/// exactly one has moved by one and the session knows its reason is counted.
pub proof fn lemma_one_cause_per_connection(
    s: SessionView,
    users: Set<Seq<char>>,
    stats: StatsView,
    happenings: Seq<Happening>,
)
    requires
        !s.cause_counted,
    ensures
        ({
            let (s1, u1, st1) = run(s, users, stats, happenings);
            &&& !s1.cause_counted ==> same_causes(stats, st1)
            &&& s1.cause_counted ==> one_cause_added(stats, st1)
        }),
    decreases happenings.len(),
{
    if happenings.len() > 0 {
        lemma_one_cause_per_connection(s, users, stats, happenings.drop_last());
    }
}

} // verus!
