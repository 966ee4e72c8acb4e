//! Unit tests for the event pipeline: normalization, long-press
//! synthesis, read-error classification, haptic reports, the haptics
//! worker, and the persisted config format.

use surface_dial_daemon::config::Config;
use surface_dial_daemon::device::{classify_read_error, DialDevice, RecvOutcome};
use surface_dial_daemon::error::Error;
use surface_dial_daemon::event::{
    emits_session_markers, matches_dial_name, DialEvent, DialEventKind, DialInputKind, EventTime,
    RawEvent, BTN_0, EV_KEY, EV_MSC, EV_REL, EV_SYN, REL_DIAL,
};
use surface_dial_daemon::haptics::{
    buzz_report, set_mode_report, DialHapticsWorker, HapticsCommand, HapticsWorkerState, HidAction,
};

fn raw(etype: u16, code: u16, value: i32) -> RawEvent {
    RawEvent {
        time: EventTime {
            tv_sec: 7,
            tv_usec: 11,
        },
        etype,
        code,
        value,
    }
}

#[test]
fn normalize_button_and_dial() {
    let press = DialEvent::from_raw_evt(&raw(EV_KEY, BTN_0, 1)).unwrap();
    assert_eq!(press.kind, DialEventKind::ButtonPress);
    assert_eq!(press.time, EventTime { tv_sec: 7, tv_usec: 11 });

    let release = DialEvent::from_raw_evt(&raw(EV_KEY, BTN_0, 0)).unwrap();
    assert_eq!(release.kind, DialEventKind::ButtonRelease);

    let dial = DialEvent::from_raw_evt(&raw(EV_REL, REL_DIAL, -3)).unwrap();
    assert_eq!(dial.kind, DialEventKind::Dial(-3));
}

#[test]
fn normalize_ignored_and_unexpected() {
    assert_eq!(
        DialEvent::from_raw_evt(&raw(EV_SYN, 0, 0)).unwrap().kind,
        DialEventKind::Ignored
    );
    assert_eq!(
        DialEvent::from_raw_evt(&raw(EV_MSC, 4, 12)).unwrap().kind,
        DialEventKind::Ignored
    );
    // An unknown key, a double-press value, an unknown axis, an unknown
    // type: all unclassifiable.
    assert!(DialEvent::from_raw_evt(&raw(EV_KEY, 30, 1)).is_none());
    assert!(DialEvent::from_raw_evt(&raw(EV_KEY, BTN_0, 2)).is_none());
    assert!(DialEvent::from_raw_evt(&raw(EV_REL, 0, 1)).is_none());
    assert!(DialEvent::from_raw_evt(&raw(3, 0, 1)).is_none());
}

#[test]
fn long_press_synthesized_once() {
    let mut dev = DialDevice::new();
    assert!(!dev.wants_timeout());

    let evt = dev.next_event(RecvOutcome::Raw(raw(EV_KEY, BTN_0, 1))).unwrap();
    assert_eq!(evt.kind, DialEventKind::ButtonPress);
    assert!(dev.wants_timeout());

    // A dial step does not disarm the timer.
    let evt = dev.next_event(RecvOutcome::Raw(raw(EV_REL, REL_DIAL, 1))).unwrap();
    assert_eq!(evt.kind, DialEventKind::Dial(1));
    assert!(dev.wants_timeout());

    let evt = dev.next_event(RecvOutcome::Timeout).unwrap();
    assert_eq!(evt.kind, DialEventKind::ButtonLongPress);
    assert!(!dev.wants_timeout());

    // The trailing release is still delivered normally.
    let evt = dev.next_event(RecvOutcome::Raw(raw(EV_KEY, BTN_0, 0))).unwrap();
    assert_eq!(evt.kind, DialEventKind::ButtonRelease);
    assert!(!dev.wants_timeout());
}

#[test]
fn release_within_timeout_disarms() {
    let mut dev = DialDevice::new();
    dev.next_event(RecvOutcome::Raw(raw(EV_KEY, BTN_0, 1))).unwrap();
    assert!(dev.wants_timeout());
    dev.next_event(RecvOutcome::Raw(raw(EV_KEY, BTN_0, 0))).unwrap();
    assert!(!dev.wants_timeout());
}

#[test]
fn connect_and_disconnect_pass_through() {
    let mut dev = DialDevice::new();
    assert_eq!(
        dev.next_event(RecvOutcome::Connect).unwrap().kind,
        DialEventKind::Connect
    );
    assert_eq!(
        dev.next_event(RecvOutcome::Disconnect).unwrap().kind,
        DialEventKind::Disconnect
    );
}

#[test]
fn unexpected_event_is_an_error() {
    let mut dev = DialDevice::new();
    match dev.next_event(RecvOutcome::Raw(raw(EV_KEY, 30, 1))) {
        Err(Error::UnexpectedEvent(r)) => assert_eq!(r.code, 30),
        _ => panic!("expected the unexpected-event error"),
    }
}

#[test]
fn enodev_is_a_clean_disconnect() {
    assert!(classify_read_error(19).is_ok());
    match classify_read_error(5) {
        Err(e) => {
            assert!(!e.is_clean_disconnect());
            match e {
                Error::Evdev(errno) => assert_eq!(errno, 5),
                _ => panic!("expected an evdev error"),
            }
        }
        Ok(()) => panic!("errno 5 must be fatal"),
    }
    assert!(Error::Evdev(19).is_clean_disconnect());
    assert!(!Error::MissingDial.is_clean_disconnect());
}

#[test]
fn dial_name_matching() {
    let control = "\"Surface Dial System Control\"".to_string();
    let axis = "\"Surface Dial System Multi Axis\"".to_string();
    let other = "\"Some Keyboard\"".to_string();
    let unquoted = "Surface Dial System Control".to_string();
    assert!(matches_dial_name(DialInputKind::Control, &control));
    assert!(!matches_dial_name(DialInputKind::Control, &axis));
    assert!(!matches_dial_name(DialInputKind::Control, &unquoted));
    assert!(matches_dial_name(DialInputKind::MultiAxis, &axis));
    assert!(!matches_dial_name(DialInputKind::MultiAxis, &other));

    assert!(emits_session_markers(DialInputKind::MultiAxis));
    assert!(!emits_session_markers(DialInputKind::Control));
}

#[test]
fn set_mode_report_layout() {
    // 3600 = 0x0e10: low byte 0x10, high byte 0x0e.
    assert_eq!(
        set_mode_report(true, 3600),
        vec![0x01, 0x10, 0x0e, 0x00, 0x03, 0x00, 0x00, 0x00]
    );
    assert_eq!(
        set_mode_report(false, 36),
        vec![0x01, 36, 0x00, 0x00, 0x02, 0x00, 0x00, 0x00]
    );
    assert_eq!(
        set_mode_report(true, 0),
        vec![0x01, 0x00, 0x00, 0x00, 0x03, 0x00, 0x00, 0x00]
    );
}

#[test]
fn buzz_report_layout() {
    assert_eq!(buzz_report(1), vec![0x01, 0x01, 0x03, 0x00, 0x00]);
    assert_eq!(buzz_report(0), vec![0x01, 0x00, 0x03, 0x00, 0x00]);
    assert_eq!(buzz_report(255), vec![0x01, 0xff, 0x03, 0x00, 0x00]);
}

#[test]
fn haptics_worker_drops_commands_while_idle() {
    let mut w = DialHapticsWorker::new();
    assert_eq!(w.state, HapticsWorkerState::Idle);

    let actions = w.step(HapticsCommand::SetMode {
        auto_haptics: true,
        steps: 36,
    });
    assert!(actions.is_empty());
    assert_eq!(w.state, HapticsWorkerState::Idle);

    let actions = w.step(HapticsCommand::Buzz { repeat: 1 });
    assert!(actions.is_empty());
    assert_eq!(w.state, HapticsWorkerState::Idle);

    let actions = w.step(HapticsCommand::DialDisconnected);
    assert!(actions.is_empty());
    assert_eq!(w.state, HapticsWorkerState::Idle);
}

#[test]
fn haptics_worker_session_cycle() {
    let mut w = DialHapticsWorker::new();

    let actions = w.step(HapticsCommand::DialConnected);
    assert_eq!(actions.len(), 1);
    assert!(matches!(actions[0], HidAction::Open));
    assert_eq!(w.state, HapticsWorkerState::Connected);

    // A repeated connect is tolerated.
    let actions = w.step(HapticsCommand::DialConnected);
    assert!(actions.is_empty());
    assert_eq!(w.state, HapticsWorkerState::Connected);

    let actions = w.step(HapticsCommand::SetMode {
        auto_haptics: false,
        steps: 90,
    });
    assert_eq!(actions.len(), 1);
    match &actions[0] {
        HidAction::SendFeature(b) => {
            assert_eq!(b, &vec![0x01, 90, 0x00, 0x00, 0x02, 0x00, 0x00, 0x00])
        }
        _ => panic!("expected a feature report"),
    }

    let actions = w.step(HapticsCommand::Buzz { repeat: 2 });
    assert_eq!(actions.len(), 1);
    match &actions[0] {
        HidAction::Write(b) => assert_eq!(b, &vec![0x01, 0x02, 0x03, 0x00, 0x00]),
        _ => panic!("expected an output report"),
    }

    // Unplug: the handle closes and everything is dropped again until
    // the next session opens.
    let actions = w.step(HapticsCommand::DialDisconnected);
    assert_eq!(actions.len(), 1);
    assert!(matches!(actions[0], HidAction::Close));
    assert_eq!(w.state, HapticsWorkerState::Idle);

    let actions = w.step(HapticsCommand::Buzz { repeat: 1 });
    assert!(actions.is_empty());

    // Re-plug: the worker reopens and serves again.
    let actions = w.step(HapticsCommand::DialConnected);
    assert!(matches!(actions[0], HidAction::Open));
    let actions = w.step(HapticsCommand::SetMode {
        auto_haptics: true,
        steps: 36,
    });
    assert!(matches!(actions[0], HidAction::SendFeature(_)));
}

#[test]
fn config_round_trips() {
    for k in [0usize, 1, 9, 10, 42, 6, 3600, usize::MAX] {
        let cfg = Config { last_mode: k };
        let bytes = cfg.serialize();
        let back = Config::parse(&bytes).unwrap();
        assert_eq!(back.last_mode, k);
    }
}

#[test]
fn config_serialize_is_plain_decimal() {
    assert_eq!(Config { last_mode: 0 }.serialize(), b"0".to_vec());
    assert_eq!(Config { last_mode: 7 }.serialize(), b"7".to_vec());
    assert_eq!(Config { last_mode: 120 }.serialize(), b"120".to_vec());
}

#[test]
fn config_parse_rejects_garbage() {
    assert!(Config::parse(b"").is_none());
    assert!(Config::parse(b"12a").is_none());
    assert!(Config::parse(b"-1").is_none());
    assert!(Config::parse(b" 3").is_none());
    assert!(Config::parse(b"3\n").is_none());
    // Far beyond any machine's usize.
    assert!(Config::parse(b"999999999999999999999999999999").is_none());
    // Leading zeros are accepted.
    assert_eq!(Config::parse(b"007").unwrap().last_mode, 7);
}
