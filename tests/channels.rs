use backend_supervisor::heartbeat::{ProbeTracker, ProcessProbe, PushMonitor};
use backend_supervisor::rpc::{response_outcome, PendingRequests};

#[test]
fn reversed_responses_reach_their_own_callers() {
    let mut t = PendingRequests::new();
    let a = t.register().unwrap();
    let b = t.register().unwrap();
    assert_eq!((a, b), (1, 2));
    assert_eq!(t.complete(Some(b)), Some(b));
    assert!(t.is_pending(a));
    assert!(!t.is_pending(b));
    assert_eq!(t.complete(Some(a)), Some(a));
    assert_eq!(t.len(), 0);
    assert_eq!(t.complete(Some(b)), None);
}

#[test]
fn unmatched_responses_satisfy_nobody() {
    let mut t = PendingRequests::new();
    let a = t.register().unwrap();
    assert_eq!(t.complete(None), None);
    assert_eq!(t.complete(Some(99)), None);
    assert_eq!(t.len(), 1);
    assert!(t.is_pending(a));
}

#[test]
fn drain_hands_back_every_pending_id_and_ids_keep_rising() {
    let mut t = PendingRequests::new();
    let ids: Vec<u64> = (0..3).map(|_| t.register().unwrap()).collect();
    let mut drained = t.drain();
    drained.sort();
    assert_eq!(drained, ids);
    assert_eq!(t.len(), 0);
    assert_eq!(t.register(), Some(4));
}

#[test]
fn response_outcome_picks_data_or_error() {
    assert_eq!(response_outcome(Some(true), "[1,2]".to_string(), None), Ok("[1,2]".to_string()));
    assert_eq!(
        response_outcome(Some(false), "null".to_string(), Some("bad sheet".to_string())),
        Err("bad sheet".to_string())
    );
    assert_eq!(response_outcome(None, "null".to_string(), None), Err("Unknown error".to_string()));
}

#[test]
fn three_failed_probes_in_a_row_mean_dead() {
    let mut p = ProbeTracker::new();
    assert!(!p.record(false));
    assert!(!p.record(false));
    assert!(!p.record(true));
    assert_eq!(p.consecutive_failures(), 0);
    assert!(!p.record(false));
    assert!(!p.record(false));
    assert!(p.record(false));
    assert_eq!(p.consecutive_failures(), 3);
}

#[test]
fn push_monitor_expires_after_window() {
    let mut m = PushMonitor::new(1000, 15000);
    assert!(!m.is_expired(16000));
    assert!(m.is_expired(16001));
    assert_eq!(m.on_token(16001), b"HEARTBEAT_ACK".to_vec());
    assert!(!m.is_expired(20000));
    assert!(!m.is_expired(500));
}

#[test]
fn only_a_running_process_is_alive() {
    assert!(ProcessProbe::StillRunning.is_alive());
    assert!(!ProcessProbe::Exited.is_alive());
    assert!(!ProcessProbe::ProbeError.is_alive());
    assert!(!ProcessProbe::Absent.is_alive());
}
