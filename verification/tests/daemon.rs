use hs_gen::daemon::{
    derive_epoch_keys, Command, DaemonAction, DaemonInput, DaemonState, Event, MIN_VALIDITY,
};
use hs_gen::i2p::generate_i2p_keys;
use hs_gen::kdf::{derive_epoch_seed, derive_master_key, NetworkTag};
use hs_gen::tor::generate_tor_keys;

fn state() -> DaemonState {
    DaemonState::new(120, 1_000_000)
}

#[test]
fn new_state_starts_in_current_epoch() {
    let s = state();
    assert_eq!(s.current_epoch, 1_000_000 / 120);
    assert_eq!(s.validity, 120);
    assert!(s.pending_validity.is_none());
    assert!(s.tor_onion.is_none() && s.i2p_b32.is_none());
    match s.started_event() {
        Event::Started { epoch, validity } => {
            assert_eq!(epoch, 8333);
            assert_eq!(validity, 120);
        }
        _ => panic!("expected Started"),
    }
}

#[test]
fn timeout_within_epoch_is_idle() {
    let mut s = state();
    let action = s.step(DaemonInput::Timeout { now: 8333 * 120 + 119 });
    assert!(matches!(action, DaemonAction::Idle));
    assert_eq!(s.current_epoch, 8333);
}

#[test]
fn timeout_in_later_epoch_rotates_and_applies_pending() {
    let mut s = state();
    let a = s.step(DaemonInput::Received { cmd: Command::SetValidity { seconds: 300 }, now: 0 });
    match a {
        DaemonAction::Emit { event: Event::ValidityChanged { new_validity, effective_epoch } } => {
            assert_eq!(new_validity, 300);
            assert_eq!(effective_epoch, 8334);
        }
        _ => panic!("expected ValidityChanged"),
    }
    assert_eq!(s.validity, 120);
    assert_eq!(s.pending_validity, Some(300));
    let a = s.step(DaemonInput::Timeout { now: 8334 * 120 + 5 });
    assert!(matches!(a, DaemonAction::Rotate { epoch: 8334 }));
    assert_eq!(s.current_epoch, 8334);
    assert_eq!(s.validity, 300);
    assert!(s.pending_validity.is_none());
}

#[test]
fn short_validity_is_refused() {
    let mut s = state();
    let a = s.step(DaemonInput::Received { cmd: Command::SetValidity { seconds: MIN_VALIDITY - 1 }, now: 0 });
    match a {
        DaemonAction::Emit { event: Event::Error { msg } } => {
            assert_eq!(msg, "validity must be >= 60 seconds")
        }
        _ => panic!("expected Error"),
    }
    assert!(s.pending_validity.is_none());
}

#[test]
fn force_rotate_moves_one_epoch() {
    let mut s = state();
    let a = s.step(DaemonInput::Received { cmd: Command::ForceRotate, now: 0 });
    assert!(matches!(a, DaemonAction::Rotate { epoch: 8334 }));
    assert_eq!(s.current_epoch, 8334);
    let ev = s.rotated(Some("x.onion".to_string()), None, Some("/out/8334".to_string()));
    match ev {
        Event::Rotated { epoch, validity, tor_onion, i2p_b32, path } => {
            assert_eq!(epoch, 8334);
            assert_eq!(validity, 120);
            assert_eq!(tor_onion.as_deref(), Some("x.onion"));
            assert!(i2p_b32.is_none());
            assert_eq!(path.as_deref(), Some("/out/8334"));
        }
        _ => panic!("expected Rotated"),
    }
    assert_eq!(s.tor_onion.as_deref(), Some("x.onion"));
}

#[test]
fn status_reports_time_to_next_rotation() {
    let mut s = state();
    let now = 8333 * 120 + 20;
    let a = s.step(DaemonInput::Received { cmd: Command::Status, now });
    match a {
        DaemonAction::Report { event: Event::Status { epoch, validity, next_rotation_in }, now: t } => {
            assert_eq!(epoch, 8333);
            assert_eq!(validity, 120);
            assert_eq!(next_rotation_in, 100);
            assert_eq!(t, now);
        }
        _ => panic!("expected Status report"),
    }
    let rec = s.status_record(8334 * 120 + 1);
    assert_eq!(rec.next_rotation_in, 0);
    assert_eq!(rec.epoch, 8333);
    assert_eq!(s.sleep_secs(8334 * 120 + 1), 1);
    assert_eq!(s.sleep_secs(8333 * 120), 120);
}

#[test]
fn shutdown_and_disconnect_stop() {
    let mut s = state();
    assert!(matches!(s.step(DaemonInput::Received { cmd: Command::Shutdown, now: 0 }), DaemonAction::Stop));
    assert!(matches!(s.step(DaemonInput::Disconnected), DaemonAction::Stop));
    assert_eq!(s.current_epoch, 8333);
}

#[test]
fn next_epoch_start_detects_overflow() {
    let s = DaemonState::new(u64::MAX, u64::MAX);
    assert_eq!(s.current_epoch, 1);
    assert_eq!(s.next_epoch_start(), None);
    let s = state();
    assert_eq!(s.next_epoch_start(), Some(8334 * 120));
}

#[test]
fn epoch_keys_follow_requested_networks() {
    let master = derive_master_key(b"test").unwrap();
    let (tor, i2p) = derive_epoch_keys(&master, 3, true, false);
    assert!(i2p.is_none());
    let seed = derive_epoch_seed(&master, 3, NetworkTag::Tor);
    let expected = generate_tor_keys(seed.as_slice().try_into().unwrap());
    assert_eq!(tor.unwrap().hostname, expected.hostname);
    let (tor, i2p) = derive_epoch_keys(&master, 3, false, true);
    assert!(tor.is_none());
    let seed = derive_epoch_seed(&master, 3, NetworkTag::I2p);
    let expected = generate_i2p_keys(seed.as_slice().try_into().unwrap());
    assert_eq!(i2p.unwrap().destination_dat, expected.destination_dat);
}

#[test]
fn end_of_input_stops_without_change() {
    let mut s = state();
    assert!(matches!(s.step(DaemonInput::InputClosed), DaemonAction::Stop));
    assert_eq!(s.current_epoch, 8333);
    assert_eq!(s.validity, 120);
    assert!(s.pending_validity.is_none());
}

#[test]
fn run_rotations_increase_and_stop_ends() {
    let mut s = state();
    let inputs = vec![
        DaemonInput::Received { cmd: Command::ForceRotate, now: 1_000_001 },
        DaemonInput::Received { cmd: Command::SetValidity { seconds: 600 }, now: 1_000_002 },
        DaemonInput::Timeout { now: 1_000_100 },
        DaemonInput::Timeout { now: 8340 * 120 },
        DaemonInput::Received { cmd: Command::Status, now: 8340 * 120 + 1 },
        DaemonInput::Received { cmd: Command::ForceRotate, now: 8340 * 120 + 2 },
        DaemonInput::InputClosed,
    ];
    let mut rotations = Vec::new();
    let mut stopped_at = None;
    for (k, input) in inputs.into_iter().enumerate() {
        assert!(s.next_epoch_start().is_some());
        assert!(s.validity >= 60);
        match s.step(input) {
            DaemonAction::Rotate { epoch } => rotations.push(epoch),
            DaemonAction::Stop => {
                stopped_at = Some(k);
                break;
            }
            _ => {}
        }
    }
    assert_eq!(rotations, vec![8334, 8340, 8341]);
    assert_eq!(s.validity, 600);
    assert_eq!(stopped_at, Some(6));
}

#[test]
fn long_epochs_still_schedule() {
    let mut s = DaemonState::new(1u64 << 32, (1u64 << 32) - 1);
    assert_eq!(s.current_epoch, 0);
    for k in 1..=1000u64 {
        assert!(s.next_epoch_start().is_some());
        assert!(matches!(
            s.step(DaemonInput::Received { cmd: Command::ForceRotate, now: 5 }),
            DaemonAction::Rotate { epoch } if epoch == k
        ));
    }
    assert_eq!(s.next_epoch_start(), Some(1001u64 << 32));
}
