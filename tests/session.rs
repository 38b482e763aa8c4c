use cube_scrambler::codec::encode;
use cube_scrambler::face_rotation::FaceRotation;
use cube_scrambler::session::{
    advertisement_matches, pick_moves, Action, ConnParams, Event, Session, SessionConfig,
    SessionError, SessionState,
};

fn config(wait: bool) -> SessionConfig {
    SessionConfig::new(b"GAN-a7f13".to_vec(), 8, wait).unwrap()
}

fn ad(name: &[u8], elapsed_ms: u64) -> Event {
    Event::Advertisement { name: Some(name.to_vec()), elapsed_ms }
}

fn connected(wait: bool) -> Session {
    let mut s = Session::new(config(wait));
    s.step(Event::Start);
    s.step(ad(b"GAN-a7f13-xyz", 10));
    s.step(Event::Done);
    s.step(Event::Done);
    assert_eq!(s.state, SessionState::Connected);
    s
}

fn is_write(a: &Action) -> bool {
    matches!(a, Action::Write { .. })
}

#[test]
fn config_uses_default_timings() {
    let c = config(true);
    assert_eq!(c.scan_timeout_ms, 10000);
    assert_eq!(c.scan_interval, 100);
    assert_eq!(c.scan_window, 99);
    assert_eq!(
        c.conn,
        ConnParams { min_interval: 120, max_interval: 120, latency: 0, supervision_timeout: 60 }
    );
    assert_eq!(c.poll_interval_ms, 100);
    assert_eq!(c.batch_size, 8);
    assert!(c.wait_for_completion);
}

#[test]
fn oversized_batch_is_refused() {
    assert_eq!(
        SessionConfig::new(b"x".to_vec(), 9, true).err(),
        Some(SessionError::EncodingPrecondition)
    );
}

#[test]
fn names_match_by_substring() {
    assert!(advertisement_matches(Some(b"GAN-a7f13"), b"GAN-a7f13"));
    assert!(advertisement_matches(Some(b"my GAN-a7f13 cube"), b"GAN-a7f13"));
    assert!(!advertisement_matches(Some(b"GAN-a7f1"), b"GAN-a7f13"));
    assert!(!advertisement_matches(Some(b"other"), b"GAN-a7f13"));
    assert!(!advertisement_matches(None, b"GAN-a7f13"));
    assert!(advertisement_matches(Some(b"anything"), b""));
}

#[test]
fn draws_become_moves() {
    assert_eq!(
        pick_moves(&[0, 21, 39, 7]),
        vec![FaceRotation::R, FaceRotation::R2, FaceRotation::BPrime, FaceRotation::FPrime]
    );
    assert!(pick_moves(&[]).is_empty());
}

#[test]
fn scan_connect_and_ready() {
    let mut s = Session::new(config(true));
    assert_eq!(s.state, SessionState::Idle);
    match s.step(Event::Start) {
        Action::StartScan { timeout_ms, interval, window } => {
            assert_eq!((timeout_ms, interval, window), (10000, 100, 99));
        }
        other => panic!("unexpected {:?}", other),
    }
    assert_eq!(s.state, SessionState::Scanning);
    assert!(matches!(s.step(ad(b"Speaker", 5)), Action::KeepScanning));
    assert!(matches!(
        s.step(Event::Advertisement { name: None, elapsed_ms: 6 }),
        Action::KeepScanning
    ));
    assert_eq!(s.state, SessionState::Scanning);
    assert!(matches!(s.step(ad(b"GAN-a7f13", 700)), Action::StopScan));
    assert_eq!(s.state, SessionState::Found);
    match s.step(Event::Done) {
        Action::Connect { params } => assert_eq!(params, config(true).conn),
        other => panic!("unexpected {:?}", other),
    }
    assert_eq!(s.state, SessionState::Connecting);
    assert!(matches!(s.step(Event::Done), Action::Ready { poll_ms: 100 }));
    assert_eq!(s.state, SessionState::Connected);
}

#[test]
fn scan_timeout_fails_discovery() {
    let mut s = Session::new(config(true));
    s.step(Event::Start);
    assert!(matches!(
        s.step(Event::ScanTimeout),
        Action::Fail { error: SessionError::DiscoveryTimeout }
    ));
    assert_eq!(s.state, SessionState::Idle);
}

#[test]
fn late_match_is_a_timeout() {
    let mut s = Session::new(config(true));
    s.step(Event::Start);
    assert!(matches!(
        s.step(ad(b"GAN-a7f13", 10001)),
        Action::Fail { error: SessionError::DiscoveryTimeout }
    ));
    assert_ne!(s.state, SessionState::Found);
    assert_eq!(s.state, SessionState::Idle);
}

#[test]
fn trigger_writes_once_then_waits_for_status() {
    let mut s = connected(true);
    assert!(matches!(
        s.step(Event::Tick { trigger: false, draws: vec![] }),
        Action::Ready { poll_ms: 100 }
    ));
    let draws = vec![4, 9, 1, 19, 0, 7, 13, 2];
    let moves = pick_moves(&draws);
    match s.step(Event::Tick { trigger: true, draws }) {
        Action::Write { bytes, moves: sent } => {
            assert_eq!(bytes, encode(&moves));
            assert_eq!(sent, moves);
        }
        other => panic!("unexpected {:?}", other),
    }
    assert_eq!(s.state, SessionState::WritingMoves);
    // further triggers do not write again
    let again = s.step(Event::Tick { trigger: true, draws: vec![1, 2] });
    assert!(!is_write(&again));
    // durations: F 150, D2 250, R2 250, B' 150, R 150, F' 150, L2 250, R2' 250
    assert!(matches!(s.step(Event::Done), Action::PollStatus { delay_ms: 1200 }));
    assert_eq!(s.state, SessionState::AwaitingCompletion);
    let again = s.step(Event::Tick { trigger: true, draws: vec![3] });
    assert!(!is_write(&again));
    assert!(matches!(
        s.step(Event::Status { payload: vec![1, 0] }),
        Action::PollStatus { delay_ms: 100 }
    ));
    assert_eq!(s.state, SessionState::AwaitingCompletion);
    assert!(matches!(
        s.step(Event::Status { payload: vec![0] }),
        Action::Ready { poll_ms: 100 }
    ));
    assert_eq!(s.state, SessionState::Connected);
    assert!(is_write(&s.step(Event::Tick { trigger: true, draws: vec![5] })));
}

#[test]
fn fire_and_forget_returns_to_ready() {
    let mut s = connected(false);
    assert!(is_write(&s.step(Event::Tick { trigger: true, draws: vec![1, 2, 3] })));
    assert!(matches!(s.step(Event::Done), Action::Ready { poll_ms: 100 }));
    assert_eq!(s.state, SessionState::Connected);
}

#[test]
fn too_many_draws_fail_encoding() {
    let mut s = connected(true);
    assert!(matches!(
        s.step(Event::Tick { trigger: true, draws: vec![0; 9] }),
        Action::Fail { error: SessionError::EncodingPrecondition }
    ));
    assert_eq!(s.state, SessionState::Idle);
}

#[test]
fn transport_failure_ends_session() {
    let mut s = connected(true);
    assert!(matches!(
        s.step(Event::TransportFailure),
        Action::Fail { error: SessionError::TransportFailure }
    ));
    assert_eq!(s.state, SessionState::Idle);
}

#[test]
fn empty_status_is_a_transport_failure() {
    let mut s = connected(true);
    s.step(Event::Tick { trigger: true, draws: vec![0] });
    s.step(Event::Done);
    assert!(matches!(
        s.step(Event::Status { payload: vec![] }),
        Action::Fail { error: SessionError::TransportFailure }
    ));
}

#[test]
fn unexpected_events_change_nothing() {
    let mut s = Session::new(config(true));
    assert!(matches!(s.step(Event::Done), Action::Nothing));
    assert!(matches!(s.step(Event::ScanTimeout), Action::Nothing));
    assert!(matches!(s.step(Event::Status { payload: vec![0] }), Action::Nothing));
    assert_eq!(s.state, SessionState::Idle);
}
