use rust_websocket::stats::Stats;
use rust_websocket::status::{status, StatusOptions, StatusReply};

fn opts(key: &str) -> StatusOptions {
    StatusOptions { key: key.to_string() }
}

#[test]
fn without_status_key_anyone_reads_stats() {
    let mut stats = Stats::new();
    stats.web_socket.track_timeout();
    match status(&String::new(), &opts(""), &stats) {
        StatusReply::Stats(r) => assert_eq!(r.web_socket.connections_timed_out, 1),
        StatusReply::Forbidden(_) => panic!("refused without a status key"),
    }
    assert!(matches!(status(&String::new(), &opts("anything"), &stats), StatusReply::Stats(_)));
}

#[test]
fn matching_key_reads_stats() {
    let stats = Stats::new();
    assert!(matches!(status(&"secret".to_string(), &opts("secret"), &stats), StatusReply::Stats(_)));
}

#[test]
fn wrong_or_missing_key_is_forbidden() {
    let stats = Stats::new();
    match status(&"secret".to_string(), &opts("Secret"), &stats) {
        StatusReply::Forbidden(m) => assert_eq!(m, "key doesn't match STATUS_KEY"),
        StatusReply::Stats(_) => panic!("wrong key accepted"),
    }
    assert!(matches!(status(&"secret".to_string(), &opts(""), &stats), StatusReply::Forbidden(_)));
}
