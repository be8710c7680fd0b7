use rust_websocket::stats::{ConnectionTracker, Stats, WebSocketReport, WebSocketStats};

fn wait_ms(ms: u64) {
    let start = std::time::Instant::now();
    while start.elapsed() < std::time::Duration::from_millis(ms) {}
}

fn report(stats: &WebSocketStats) -> WebSocketReport {
    stats.report()
}

#[test]
fn new_stats_are_zero() {
    let stats = WebSocketStats::new();
    let r = report(&stats);
    assert_eq!(r.connections_active, 0);
    assert_eq!(r.connections_established, 0);
    assert_eq!(r.connections_closed, 0);
    assert_eq!(r.connections_closed_by_client, 0);
    assert_eq!(r.connections_recv_error, 0);
    assert_eq!(r.connections_send_error, 0);
    assert_eq!(r.connections_timed_out, 0);
    assert_eq!(r.average_duration_ms, 0);
}

#[test]
fn stats_new_wraps_zeroed_websocket_stats() {
    let stats = Stats::new();
    let r = stats.web_socket.report();
    assert_eq!(r.connections_established, 0);
    assert_eq!(r.average_duration_ms, 0);
}

#[test]
fn each_tracker_counts_only_its_own_counter() {
    let mut stats = WebSocketStats::new();
    stats.track_client_close();
    stats.track_recv_error();
    stats.track_recv_error();
    stats.track_send_error();
    stats.track_send_error();
    stats.track_send_error();
    stats.track_timeout();
    let r = report(&stats);
    assert_eq!(r.connections_closed_by_client, 1);
    assert_eq!(r.connections_recv_error, 2);
    assert_eq!(r.connections_send_error, 3);
    assert_eq!(r.connections_timed_out, 1);
    assert_eq!(r.connections_established, 0);
    assert_eq!(r.connections_closed, 0);
}

#[test]
fn active_connections_rise_and_fall() {
    let mut stats = WebSocketStats::new();
    let first = stats.track_new_connection();
    let second = stats.track_new_connection();
    assert_eq!(report(&stats).connections_active, 2);
    assert_eq!(report(&stats).connections_established, 2);
    first.close(&mut stats);
    let r = report(&stats);
    assert_eq!(r.connections_active, 1);
    assert_eq!(r.connections_closed, 1);
    second.close(&mut stats);
    let r = report(&stats);
    assert_eq!(r.connections_active, 0);
    assert_eq!(r.connections_closed, 2);
    assert_eq!(r.connections_established, 2);
}

#[test]
fn tracker_new_counts_nothing_and_close_counts_a_close() {
    let mut stats = WebSocketStats::new();
    let tracker = ConnectionTracker::new(&stats);
    assert_eq!(report(&stats), WebSocketStats::new().report());
    tracker.close(&mut stats);
    let r = report(&stats);
    assert_eq!(r.connections_closed, 1);
    assert_eq!(r.connections_established, 0);
    assert_eq!(r.connections_active, u64::MAX);
}

#[test]
fn active_connections_count_live_trackers() {
    let mut stats = WebSocketStats::new();
    let mut trackers = Vec::new();
    for _ in 0..5 {
        trackers.push(stats.track_new_connection());
    }
    for _ in 0..3 {
        trackers.pop().unwrap().close(&mut stats);
    }
    assert_eq!(report(&stats).connections_active, trackers.len() as u64);
}

#[test]
fn quick_connections_average_below_a_second() {
    let mut stats = WebSocketStats::new();
    for _ in 0..3 {
        let t = stats.track_new_connection();
        t.close(&mut stats);
    }
    // connections closed at once last well under a second each
    assert!(stats.average_duration_ms() < 1000);
    assert_eq!(report(&stats).average_duration_ms, stats.average_duration_ms());
}

#[test]
fn average_duration_without_closed_connections_is_zero() {
    let mut stats = WebSocketStats::new();
    let _open = stats.track_new_connection();
    assert_eq!(stats.average_duration_ms(), 0);
}

#[test]
fn average_duration_is_total_over_closed() {
    let mut stats = WebSocketStats::new();
    let short = stats.track_new_connection();
    let long = stats.track_new_connection();
    wait_ms(40);
    short.close(&mut stats);
    wait_ms(80);
    long.close(&mut stats);
    // about (40 + 120) / 2 = 80 ms
    let avg = stats.average_duration_ms();
    assert!(avg >= 80 && avg < 2000, "average {}", avg);
}
