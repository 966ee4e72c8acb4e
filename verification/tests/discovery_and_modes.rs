//! Tests for device discovery, the exit classifier, the mode
//! descriptors, and the keyboard emission builders.

use surface_dial_daemon::controls::standard_modes;
use surface_dial_daemon::error::{exit_kind, Error, ExitKind};
use surface_dial_daemon::event::discover_dial;
use surface_dial_daemon::fake_input::{
    key_click, key_press, key_release, OutputEvent, KEY_LEFTCTRL, KEY_MINUS,
};

const CONTROL: &str = "\"Surface Dial System Control\"";
const AXIS: &str = "\"Surface Dial System Multi Axis\"";

fn names(list: &[&str]) -> Vec<String> {
    list.iter().map(|s| s.to_string()).collect()
}

#[test]
fn discovery_finds_both_channels() {
    let (c, a) = discover_dial(&names(&["\"kbd\"", AXIS, "", CONTROL])).unwrap();
    assert_eq!(c, 3);
    assert_eq!(a, 1);
}

#[test]
fn discovery_misses_the_dial() {
    match discover_dial(&names(&["\"kbd\"", "\"mouse\""])) {
        Err(Error::MissingDial) => {}
        _ => panic!("expected the missing-dial error"),
    }
    // One channel alone is not a dial either.
    match discover_dial(&names(&[CONTROL])) {
        Err(Error::MissingDial) => {}
        _ => panic!("expected the missing-dial error"),
    }
    match discover_dial(&names(&[])) {
        Err(Error::MissingDial) => {}
        _ => panic!("expected the missing-dial error"),
    }
}

#[test]
fn discovery_refuses_two_dials() {
    match discover_dial(&names(&[CONTROL, AXIS, AXIS])) {
        Err(Error::MultipleDials) => {}
        _ => panic!("expected the multiple-dials error"),
    }
    match discover_dial(&names(&[CONTROL, CONTROL])) {
        Err(Error::MultipleDials) => {}
        _ => panic!("expected the multiple-dials error"),
    }
}

#[test]
fn exit_classification() {
    assert_eq!(exit_kind(&Error::TermSig), ExitKind::Terminated);
    assert_eq!(exit_kind(&Error::Evdev(19)), ExitKind::Silent);
    assert_eq!(exit_kind(&Error::Evdev(5)), ExitKind::Fault);
    assert_eq!(exit_kind(&Error::MissingDial), ExitKind::Fault);
    assert_eq!(exit_kind(&Error::ConfigFile), ExitKind::Fault);
}

#[test]
fn mode_descriptors() {
    let modes = standard_modes();
    let metas: Vec<_> = modes.iter().map(|m| m.meta()).collect();

    let expected: [(&str, &str, bool, u16); 7] = [
        ("Scroll", "input-mouse", false, 90),
        ("Scroll (Fake Multitouch)", "input-mouse", false, 3600),
        ("Zoom", "zoom-in", true, 36),
        ("Volume", "audio-volume-high", true, 72),
        ("Media", "applications-multimedia", true, 36),
        ("Media + Volume", "applications-multimedia", true, 72),
        ("Paddle", "input-gaming", false, 3600),
    ];
    assert_eq!(metas.len(), expected.len());
    for (meta, (name, icon, haptics, steps)) in metas.iter().zip(expected) {
        assert_eq!(meta.name, name);
        assert_eq!(meta.icon, icon);
        assert_eq!(meta.haptics, haptics);
        assert_eq!(meta.steps, steps);
        assert!(meta.steps <= 3600);
    }
}

#[test]
fn key_builders_compose() {
    let ev = |code: u16, value: i32| OutputEvent {
        etype: 1,
        code,
        value,
    };
    let syn = OutputEvent {
        etype: 0,
        code: 0,
        value: 0,
    };

    let press = key_press(&[KEY_LEFTCTRL, KEY_MINUS]);
    assert_eq!(press, vec![ev(KEY_LEFTCTRL, 1), ev(KEY_MINUS, 1), syn]);

    let release = key_release(&[KEY_LEFTCTRL, KEY_MINUS]);
    assert_eq!(release, vec![ev(KEY_LEFTCTRL, 0), ev(KEY_MINUS, 0), syn]);

    // A click is the presses followed by the releases.
    let click = key_click(&[KEY_LEFTCTRL, KEY_MINUS]);
    let mut both = press.clone();
    both.extend(release.clone());
    assert_eq!(click, both);

    // The empty sequence still closes its report.
    assert_eq!(key_press(&[]), vec![syn]);
}
