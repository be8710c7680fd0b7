//! Realtime statistics about the WebSocket connections of the server.

use vstd::prelude::*;
use vstd::wrapping::u64_specs::{wrapping_add, wrapping_sub};
use tokio::time::Instant;

use crate::clock::{duration_as_millis, duration_between, instant_now};

verus! {

/// 2^64: every counter wraps around at this value.
pub open spec fn counter_modulus() -> int {
    0x1_0000_0000_0000_0000
}

/// The abstract value of [`WebSocketStats`]: one counter per field, the number of
/// connections opened on these statistics and not yet closed, and an identity that ties
/// each [`ConnectionTracker`] to the statistics it belongs to.
///
/// Every counter wraps around at 2^64.
pub struct StatsView {
    pub established: u64,
    pub closed: u64,
    pub closed_by_client: u64,
    pub recv_error: u64,
    pub send_error: u64,
    pub timed_out: u64,
    pub total_duration_ms: u64,
    /// Connections opened by [`WebSocketStats::track_new_connection`] on these
    /// statistics, minus the trackers closed into them.
    pub live_trackers: int,
    /// Which statistics these are.
    pub id: int,
}

impl StatsView {
    /// All counters at zero, and no tracker open.
    pub open spec fn zero() -> StatsView {
        StatsView {
            established: 0,
            closed: 0,
            closed_by_client: 0,
            recv_error: 0,
            send_error: 0,
            timed_out: 0,
            total_duration_ms: 0,
            live_trackers: 0,
            id: 0,
        }
    }

    /// All counters at zero and no connection open, with identity `id`.
    pub open spec fn fresh(id: int) -> StatsView {
        StatsView { id: id, ..StatsView::zero() }
    }

    /// The average duration in milliseconds of the connections that have been closed,
    /// `0` when none has.
    pub open spec fn average_duration_ms(self) -> u64 {
        if self.closed == 0 {
            0
        } else {
            (self.total_duration_ms / self.closed) as u64
        }
    }

    /// The number of connections that are open: established minus closed, modulo 2^64.
    pub open spec fn active(self) -> u64 {
        wrapping_sub(self.established, self.closed)
    }

    /// Established minus closed is the number of open connections, modulo 2^64.
    pub open spec fn counts_live_trackers(self) -> bool {
        self.active() as int == self.live_trackers % counter_modulus()
    }

    /// These statistics after a connection is opened.
    pub open spec fn opened(self) -> StatsView {
        StatsView {
            established: wrapping_add(self.established, 1),
            live_trackers: self.live_trackers + 1,
            ..self
        }
    }
}

/// Remembers when a connection started, and on which statistics, so that its duration can
/// be counted there when it closes.
pub struct ConnectionTracker {
    start_time: Instant,
    owner: Ghost<int>,
}

impl ConnectionTracker {
    /// The identity of the statistics this tracker belongs to.
    pub closed spec fn owner(&self) -> int {
        self.owner@
    }

    /// Starts tracking a connection on `stats` at the current time. Counts nothing.
    pub fn new(stats: &WebSocketStats) -> (tracker: Self)
        ensures
            tracker.owner() == stats@.id,
    {
        ConnectionTracker { start_time: instant_now(), owner: Ghost(stats@.id) }
    }

    /// Ends the tracked connection on `stats`, the statistics it belongs to: counts it as
    /// closed there, and adds the whole number of milliseconds the connection lasted, taken
    /// modulo 2^64, to the total duration. Returns that number of milliseconds, as the
    /// clock measured it: the total grows by exactly it, once.
    pub fn close(self, stats: &mut WebSocketStats) -> (elapsed_ms: u128)
        requires
            self.owner() == old(stats)@.id,
        ensures
            final(stats)@ == (StatsView {
                closed: wrapping_add(old(stats)@.closed, 1),
                total_duration_ms: wrapping_add(old(stats)@.total_duration_ms, elapsed_ms as u64),
                live_trackers: old(stats)@.live_trackers - 1,
                ..old(stats)@
            }),
    {
        let end_time = instant_now();
        let duration = duration_between(end_time, self.start_time);
        let ms = duration_as_millis(&duration);
        stats.track_close_connection(ms as u64);
        ms
    }
}

pub struct WebSocketStats {
    /// The total number of connections established since the server started
    connections_established: u64,
    /// The total number of connections closed since the server started
    connections_closed: u64,
    /// The number of connections closed by the client, where we received a close message
    connections_closed_by_client: u64,
    /// The number of connections aborted because there was an error in recv
    connections_recv_error: u64,
    /// The number of connections aborted because there was an error in send
    connections_send_error: u64,
    /// The number of connections aborted because there was no message received before the timeout elapsed
    connections_timed_out: u64,
    /// The total number of milliseconds spent in all connections since the server started
    total_duration_ms: u64,
    /// Connections opened on these statistics and not yet closed
    live_trackers: Ghost<int>,
    /// Which statistics these are
    id: Ghost<int>,
}

impl View for WebSocketStats {
    type V = StatsView;

    closed spec fn view(&self) -> StatsView {
        StatsView {
            established: self.connections_established,
            closed: self.connections_closed,
            closed_by_client: self.connections_closed_by_client,
            recv_error: self.connections_recv_error,
            send_error: self.connections_send_error,
            timed_out: self.connections_timed_out,
            total_duration_ms: self.total_duration_ms,
            live_trackers: self.live_trackers@,
            id: self.id@,
        }
    }
}

/// Adding one to a counter and to the number it stands for keeps them equal modulo 2^64;
/// so does taking one from both.
proof fn lemma_step_keeps_count(established: u64, closed: u64, live: int)
    requires
        wrapping_sub(established, closed) as int == live % counter_modulus(),
    ensures
        wrapping_sub(wrapping_add(established, 1), closed) as int == (live + 1) % counter_modulus(),
        wrapping_sub(established, wrapping_add(closed, 1)) as int == (live - 1) % counter_modulus(),
{
    vstd::arithmetic::div_mod::lemma_mod_bound(live, counter_modulus());
    vstd::arithmetic::div_mod::lemma_add_mod_noop(live, 1, counter_modulus());
    vstd::arithmetic::div_mod::lemma_sub_mod_noop(live, 1, counter_modulus());
}

impl WebSocketStats {
    #[verifier::type_invariant]
    spec fn active_counts_live_trackers(self) -> bool {
        self@.counts_live_trackers()
    }

    /// New statistics: every counter at zero and no connection open. Their identity is
    /// left open, so no tracker of other statistics can be closed into them.
    pub fn new() -> (s: Self)
        ensures
            s@ == StatsView::fresh(s@.id),
    {
        WebSocketStats {
            connections_established: 0,
            connections_closed: 0,
            connections_closed_by_client: 0,
            connections_recv_error: 0,
            connections_send_error: 0,
            connections_timed_out: 0,
            total_duration_ms: 0,
            live_trackers: Ghost(0),
            id: Ghost(0),
        }
    }

    /// Counts an established connection, with a tracker for it.
    fn count_opened(&mut self)
        ensures
            final(self)@ == old(self)@.opened(),
    {
        proof {
            use_type_invariant(&*self);
            lemma_step_keeps_count(self.connections_established, self.connections_closed, self.live_trackers@);
        }
        *self = WebSocketStats {
            connections_established: self.connections_established.wrapping_add(1),
            connections_closed: self.connections_closed,
            connections_closed_by_client: self.connections_closed_by_client,
            connections_recv_error: self.connections_recv_error,
            connections_send_error: self.connections_send_error,
            connections_timed_out: self.connections_timed_out,
            total_duration_ms: self.total_duration_ms,
            live_trackers: Ghost(self.live_trackers@ + 1),
            id: self.id,
        };
    }

    /// Increments the number of connections established and returns a [`ConnectionTracker`]
    /// that counts the connection as closed when [`ConnectionTracker::close`] is called.
    pub fn track_new_connection(&mut self) -> (tracker: ConnectionTracker)
        ensures
            final(self)@ == old(self)@.opened(),
            tracker.owner() == final(self)@.id,
    {
        self.count_opened();
        ConnectionTracker::new(self)
    }

    /// Counts the closing of a tracked connection that lasted `duration_ms` milliseconds.
    fn track_close_connection(&mut self, duration_ms: u64)
        ensures
            final(self)@ == (StatsView {
                closed: wrapping_add(old(self)@.closed, 1),
                total_duration_ms: wrapping_add(old(self)@.total_duration_ms, duration_ms),
                live_trackers: old(self)@.live_trackers - 1,
                ..old(self)@
            }),
    {
        proof {
            use_type_invariant(&*self);
            lemma_step_keeps_count(self.connections_established, self.connections_closed, self.live_trackers@);
        }
        *self = WebSocketStats {
            connections_established: self.connections_established,
            connections_closed: self.connections_closed.wrapping_add(1),
            connections_closed_by_client: self.connections_closed_by_client,
            connections_recv_error: self.connections_recv_error,
            connections_send_error: self.connections_send_error,
            connections_timed_out: self.connections_timed_out,
            total_duration_ms: self.total_duration_ms.wrapping_add(duration_ms),
            live_trackers: Ghost(self.live_trackers@ - 1),
            id: self.id,
        };
    }

    pub fn track_client_close(&mut self)
        ensures
            final(self)@ == (StatsView {
                closed_by_client: wrapping_add(old(self)@.closed_by_client, 1),
                ..old(self)@
            }),
    {
        proof {
            use_type_invariant(&*self);
        }
        self.connections_closed_by_client = self.connections_closed_by_client.wrapping_add(1);
    }

    pub fn track_recv_error(&mut self)
        ensures
            final(self)@ == (StatsView { recv_error: wrapping_add(old(self)@.recv_error, 1), ..old(self)@ }),
    {
        proof {
            use_type_invariant(&*self);
        }
        self.connections_recv_error = self.connections_recv_error.wrapping_add(1);
    }

    pub fn track_send_error(&mut self)
        ensures
            final(self)@ == (StatsView { send_error: wrapping_add(old(self)@.send_error, 1), ..old(self)@ }),
    {
        proof {
            use_type_invariant(&*self);
        }
        self.connections_send_error = self.connections_send_error.wrapping_add(1);
    }

    pub fn track_timeout(&mut self)
        ensures
            final(self)@ == (StatsView { timed_out: wrapping_add(old(self)@.timed_out, 1), ..old(self)@ }),
    {
        proof {
            use_type_invariant(&*self);
        }
        self.connections_timed_out = self.connections_timed_out.wrapping_add(1);
    }

    /// Returns the average duration in milliseconds of all connections that have been closed.
    pub fn average_duration_ms(&self) -> (ms: u64)
        ensures
            ms == self@.average_duration_ms(),
    {
        if self.connections_closed == 0 {
            0
        } else {
            self.total_duration_ms / self.connections_closed
        }
    }
}

/// Opening a connection raises the number of active connections by one, and closing one
/// lowers it by one, modulo 2^64; a new set of statistics has none active and an
/// average duration of zero.
pub proof fn lemma_active_connections(v: StatsView, duration_ms: u64)
    ensures
        v.opened().active() == wrapping_add(v.active(), 1),
        (StatsView {
            closed: wrapping_add(v.closed, 1),
            total_duration_ms: wrapping_add(v.total_duration_ms, duration_ms),
            live_trackers: v.live_trackers - 1,
            ..v
        }).active() == wrapping_sub(v.active(), 1),
        StatsView::fresh(v.id).active() == 0,
        StatsView::fresh(v.id).average_duration_ms() == 0,
{
}

/// The average duration is the total duration divided by the number of closed
/// connections, rounded down: it is the largest whole number of milliseconds whose
/// product with the closed connections does not exceed the total. Connections that are
/// still open play no part in it, so opening one leaves the average as it was.
pub proof fn lemma_average_over_closed(v: StatsView)
    ensures
        v.closed != 0 ==> v.average_duration_ms() * v.closed <= v.total_duration_ms,
        v.closed != 0 ==> v.total_duration_ms < (v.average_duration_ms() + 1) * v.closed,
        v.closed == 0 ==> v.average_duration_ms() == 0,
        v.opened().average_duration_ms() == v.average_duration_ms(),
{
    if v.closed != 0 {
        let t = v.total_duration_ms as int;
        let c = v.closed as int;
        vstd::arithmetic::div_mod::lemma_fundamental_div_mod(t, c);
        vstd::arithmetic::div_mod::lemma_mod_bound(t, c);
        let q = t / c;
        assert(q * c <= t && t < (q + 1) * c) by (nonlinear_arith)
            requires
                t == c * q + t % c,
                0 <= t % c < c,
        ;
    }
}

/// The values that the status endpoint publishes about the WebSocket connections.
#[derive(Debug, Clone, Copy, PartialEq, Eq)]
pub struct WebSocketReport {
    pub connections_active: u64,
    pub connections_established: u64,
    pub connections_closed: u64,
    pub connections_closed_by_client: u64,
    pub connections_recv_error: u64,
    pub connections_send_error: u64,
    pub connections_timed_out: u64,
    /// Average duration of the closed connections, in whole milliseconds.
    pub average_duration_ms: u64,
}

impl WebSocketReport {
    /// Whether this report publishes the counters `v`.
    pub open spec fn describes(self, v: StatsView) -> bool {
        &&& self.connections_active == v.active()
        &&& self.connections_established == v.established
        &&& self.connections_closed == v.closed
        &&& self.connections_closed_by_client == v.closed_by_client
        &&& self.connections_recv_error == v.recv_error
        &&& self.connections_send_error == v.send_error
        &&& self.connections_timed_out == v.timed_out
        &&& self.average_duration_ms == v.average_duration_ms()
    }
}

impl WebSocketStats {
    /// Reads every counter once and derives the published values from them. The number
    /// of active connections it publishes is the number of connections opened on these
    /// statistics and not yet closed, modulo 2^64.
    pub fn report(&self) -> (r: WebSocketReport)
        ensures
            r.describes(self@),
            r.connections_active as int == self@.live_trackers % counter_modulus(),
    {
        proof {
            use_type_invariant(self);
        }
        let established = self.connections_established;
        let closed = self.connections_closed;
        WebSocketReport {
            connections_active: established.wrapping_sub(closed),
            connections_established: established,
            connections_closed: closed,
            connections_closed_by_client: self.connections_closed_by_client,
            connections_recv_error: self.connections_recv_error,
            connections_send_error: self.connections_send_error,
            connections_timed_out: self.connections_timed_out,
            average_duration_ms: self.average_duration_ms(),
        }
    }
}

/// Realtime statistics about the server.
pub struct Stats {
    pub web_socket: WebSocketStats,
}

impl Stats {
    pub fn new() -> (s: Self)
        ensures
            s.web_socket@ == StatsView::fresh(s.web_socket@.id),
    {
        Stats { web_socket: WebSocketStats::new() }
    }
}

} // verus!
