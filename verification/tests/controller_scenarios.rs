//! End-to-end scenarios through the controller, the modes and their
//! workers, against the exact event sequences the virtual devices must
//! inject.

use surface_dial_daemon::controller::{ActiveMode, DialController, MetaMode};
use surface_dial_daemon::controls::paddle::{PaddleEvent, Worker};
use surface_dial_daemon::controls::media_with_volume::{
    DetectorEvent, DetectorWait, DoubleClickDetector,
};
use surface_dial_daemon::controls::scroll_mt::ScrollMT;
use surface_dial_daemon::controls::{standard_modes, Media, Mode, Volume};
use surface_dial_daemon::effects::{NoticeAction, PaddleMsg};
use surface_dial_daemon::event::{
    DialEvent, DialEventKind, EventTime, EV_ABS, EV_KEY, EV_REL, EV_SYN,
};
use surface_dial_daemon::fake_input::{
    key_click, scroll_mt_end, scroll_mt_start, scroll_mt_step, OutputEvent, ABS_MT_POSITION_Y,
    ABS_MT_SLOT, ABS_MT_TRACKING_ID, ABS_Y, KEY_LEFT, KEY_LEFTSHIFT, KEY_NEXTSONG, KEY_PLAYPAUSE,
    KEY_RIGHT, KEY_VOLUMEUP, MT_BASELINE, REL_WHEEL, REL_WHEEL_HI_RES,
};
use surface_dial_daemon::haptics::HapticsCommand;

fn ev(etype: u16, code: u16, value: i32) -> OutputEvent {
    OutputEvent { etype, code, value }
}

fn syn() -> OutputEvent {
    ev(EV_SYN, 0, 0)
}

fn at(kind: DialEventKind) -> DialEvent {
    DialEvent {
        time: EventTime {
            tv_sec: 0,
            tv_usec: 0,
        },
        kind,
    }
}

#[test]
fn s1_volume_up() {
    // Volume active; one positive dial step emits Shift+VolumeUp, each
    // report closed by a synchronization marker, and no haptics beyond
    // the profile already installed.
    let modes = standard_modes();
    let mut c = DialController::new(3, modes);
    let fx = c.step(at(DialEventKind::Dial(1)));
    assert_eq!(
        fx.keys,
        vec![
            ev(EV_KEY, KEY_LEFTSHIFT, 1),
            ev(EV_KEY, KEY_VOLUMEUP, 1),
            syn(),
            ev(EV_KEY, KEY_LEFTSHIFT, 0),
            ev(EV_KEY, KEY_VOLUMEUP, 0),
            syn(),
        ]
    );
    assert!(fx.haptics.is_empty());
    assert!(fx.touch.is_empty());
    assert!(fx.notices.is_empty());
}

#[test]
fn s2_long_press_enters_meta_mode() {
    // Media active. The long press runs the mode's exit work (none for
    // Media), enters meta-mode, opens the resident notification naming
    // the selection's starting mode, buzzes once, and installs
    // meta-mode's haptic profile.
    let modes = vec![
        Mode::Media(Media::new()),
        Mode::Volume(Volume::new()),
    ];
    let mut c = DialController::new(0, modes);
    let fx = c.step(at(DialEventKind::ButtonLongPress));

    assert!(matches!(c.active_mode, ActiveMode::Meta));
    assert_eq!(fx.notices.len(), 1);
    match &fx.notices[0] {
        NoticeAction::Open { body, icon } => {
            assert_eq!(body, "Entered Meta Mode (From Mode: Media)");
            assert_eq!(icon, "emblem-system");
        }
        _ => panic!("expected the notification to open"),
    }
    assert_eq!(
        fx.haptics,
        vec![
            HapticsCommand::Buzz { repeat: 1 },
            HapticsCommand::SetMode {
                auto_haptics: true,
                steps: 36
            },
        ]
    );
    assert!(fx.keys.is_empty());
}

#[test]
fn s3_select_new_mode() {
    // Continuing from the meta-mode entry: a dial step retargets the
    // notification, the first release is swallowed, a second dial step
    // wraps around, and the next release commits, buzzes, closes the
    // notification, and the next iteration re-enters the selected mode
    // with its profile re-applied.
    let modes = vec![
        Mode::Media(Media::new()),
        Mode::Volume(Volume::new()),
    ];
    let mut c = DialController::new(0, modes);
    c.step(at(DialEventKind::ButtonLongPress));

    let fx = c.step(at(DialEventKind::Dial(1)));
    match &fx.notices[0] {
        NoticeAction::Update { body, .. } => assert_eq!(body, "New Mode: Volume"),
        _ => panic!("expected the notification to update"),
    }

    // The release from the long press itself is swallowed.
    let fx = c.step(at(DialEventKind::ButtonRelease));
    assert!(fx.notices.is_empty());
    assert!(fx.haptics.is_empty());
    assert!(c.new_mode.is_none());

    let fx = c.step(at(DialEventKind::Dial(1)));
    match &fx.notices[0] {
        NoticeAction::Update { body, .. } => assert_eq!(body, "New Mode: Media"),
        _ => panic!("expected the notification to update"),
    }

    // The second release commits Media (index 0 after the wrap).
    let fx = c.step(at(DialEventKind::ButtonRelease));
    assert_eq!(fx.save_mode, Some(0));
    assert!(fx.select_mode.is_none(), "the selection stays in the mailbox");
    assert!(matches!(fx.notices[0], NoticeAction::Close));
    assert_eq!(fx.haptics, vec![HapticsCommand::Buzz { repeat: 1 }]);
    assert_eq!(c.new_mode, Some(0));

    // The next iteration consumes the mailbox: Media re-entered, its
    // profile re-applied, exactly once.
    let fx = c.step(at(DialEventKind::Ignored));
    assert!(matches!(c.active_mode, ActiveMode::Normal(0)));
    assert!(c.new_mode.is_none());
    assert_eq!(
        fx.haptics,
        vec![HapticsCommand::SetMode {
            auto_haptics: true,
            steps: 36
        }]
    );

    // And only once: the following iteration is silent.
    let fx = c.step(at(DialEventKind::Ignored));
    assert!(fx.haptics.is_empty());
    assert!(fx.keys.is_empty());

    // Media is live again.
    let fx = c.step(at(DialEventKind::Dial(1)));
    assert_eq!(fx.keys, key_click(&[KEY_NEXTSONG]));
}

#[test]
fn s4_pinch_zoom_sequence() {
    // Two positive dial steps in the multitouch scroll mode move both
    // fingers to the accumulated displacement.
    let mut m = Mode::ScrollMT(ScrollMT::new());

    let fx = m.on_dial(100);
    assert_eq!(
        fx.touch,
        vec![
            ev(EV_ABS, ABS_MT_SLOT, 0),
            ev(EV_ABS, ABS_MT_POSITION_Y, MT_BASELINE + 100),
            ev(EV_ABS, ABS_MT_SLOT, 1),
            ev(EV_ABS, ABS_MT_POSITION_Y, MT_BASELINE + 100),
            ev(EV_ABS, ABS_Y, MT_BASELINE + 100),
            syn(),
        ]
    );

    let fx = m.on_dial(50);
    assert_eq!(fx.touch, scroll_mt_step(150));
    match m {
        Mode::ScrollMT(s) => assert_eq!(s.acc_delta, 150),
        _ => unreachable!(),
    }
}

#[test]
fn s6_paddle_sign_flip() {
    // Two positive deltas accumulate; the negative delta resets the
    // velocity before accumulating, and -5 is inside the deadzone, so
    // both arrows are released.
    let mut w = Worker::new();
    w.step(PaddleEvent::Msg(PaddleMsg::Enabled(true)));

    let keys = w.step(PaddleEvent::Msg(PaddleMsg::Delta(30)));
    assert_eq!(w.velocity, 30);
    assert_eq!(keys, vec![ev(EV_KEY, KEY_RIGHT, 1), syn()]);

    w.step(PaddleEvent::Msg(PaddleMsg::Delta(30)));
    assert_eq!(w.velocity, 60);

    let keys = w.step(PaddleEvent::Msg(PaddleMsg::Delta(-5)));
    assert_eq!(w.velocity, -5);
    assert_eq!(
        keys,
        vec![ev(EV_KEY, KEY_LEFT, 0), ev(EV_KEY, KEY_RIGHT, 0), syn()]
    );
}

#[test]
fn paddle_decay_and_cap() {
    let mut w = Worker::new();
    w.step(PaddleEvent::Msg(PaddleMsg::Enabled(true)));

    // The cap holds the velocity at 250.
    w.step(PaddleEvent::Msg(PaddleMsg::Delta(1000)));
    assert_eq!(w.velocity, 250);

    // One decay tick: 250 loses 250/10 + 1 = 26.
    w.step(PaddleEvent::Timeout);
    assert_eq!(w.velocity, 224);

    // Decay walks the velocity to zero without overshooting.
    let mut guard = 0;
    while w.velocity != 0 {
        assert!(w.velocity > 0);
        w.step(PaddleEvent::Timeout);
        guard += 1;
        assert!(guard < 1000);
    }
}

#[test]
fn paddle_button_holds_space() {
    let mut w = Worker::new();
    w.step(PaddleEvent::Msg(PaddleMsg::Enabled(true)));
    let keys = w.step(PaddleEvent::Msg(PaddleMsg::ButtonDown));
    assert_eq!(keys[0], ev(EV_KEY, 57, 1));
    let keys = w.step(PaddleEvent::Msg(PaddleMsg::ButtonUp));
    assert_eq!(keys[0], ev(EV_KEY, 57, 0));

    // Disabling releases space and both arrows.
    let keys = w.step(PaddleEvent::Msg(PaddleMsg::Enabled(false)));
    assert_eq!(
        &keys[..4],
        &[
            ev(EV_KEY, 57, 0),
            ev(EV_KEY, KEY_LEFT, 0),
            ev(EV_KEY, KEY_RIGHT, 0),
            syn(),
        ]
    );
}

#[test]
fn meta_mode_wraps_both_ways() {
    let modes = standard_modes();
    let metas: Vec<_> = modes.iter().map(|m| m.meta()).collect();
    let mut meta = MetaMode::new(0, metas);
    meta.on_start();

    // Down from the first wraps to the last of the 7 modes.
    meta.on_dial(-1);
    assert_eq!(meta.current_mode, 6);
    meta.on_dial(1);
    assert_eq!(meta.current_mode, 0);

    // Seven steps up return to the start: the traversal is a bijection.
    for _ in 0..7 {
        meta.on_dial(1);
    }
    assert_eq!(meta.current_mode, 0);
}

#[test]
fn scroll_and_zoom_directions() {
    let modes = standard_modes();
    let mut c = DialController::new(0, modes);

    // Scroll: positive is a tick down, negative a tick up.
    let fx = c.step(at(DialEventKind::Dial(2)));
    assert_eq!(
        fx.keys,
        vec![ev(EV_REL, REL_WHEEL, -1), ev(EV_REL, REL_WHEEL_HI_RES, -120), syn()]
    );
    let fx = c.step(at(DialEventKind::Dial(-2)));
    assert_eq!(
        fx.keys,
        vec![ev(EV_REL, REL_WHEEL, 1), ev(EV_REL, REL_WHEEL_HI_RES, 120), syn()]
    );
}

#[test]
fn connect_applies_profile_and_entry_work() {
    // A connect re-applies the active mode's haptic profile and runs
    // its entry work exactly once.
    let modes = vec![Mode::Media(Media::new())];
    let mut c = DialController::new(0, modes);
    let fx = c.step(at(DialEventKind::Connect));
    assert_eq!(
        fx.haptics,
        vec![HapticsCommand::SetMode {
            auto_haptics: true,
            steps: 36
        }]
    );
    assert!(fx.keys.is_empty());
}

#[test]
fn double_click_detector_paths() {
    // Single click: press, release, then the short window expires.
    let mut d = DoubleClickDetector::new();
    assert_eq!(d.wait_on(), DetectorWait::ClickBlocking);
    assert!(d.step(DetectorEvent::Click).is_empty());
    assert_eq!(d.wait_on(), DetectorWait::ReleaseWithinLongWindow);
    assert!(d.step(DetectorEvent::Release).is_empty());
    assert_eq!(d.wait_on(), DetectorWait::ClickWithinShortWindow);
    let keys = d.step(DetectorEvent::Timeout);
    assert_eq!(keys, key_click(&[KEY_PLAYPAUSE]));
    assert_eq!(d.wait_on(), DetectorWait::ClickBlocking);

    // Double click: a second press within the window, then its release.
    assert!(d.step(DetectorEvent::Click).is_empty());
    assert!(d.step(DetectorEvent::Release).is_empty());
    assert!(d.step(DetectorEvent::Click).is_empty());
    assert_eq!(d.wait_on(), DetectorWait::ReleaseBlocking);
    let keys = d.step(DetectorEvent::Release);
    assert_eq!(keys, key_click(&[KEY_NEXTSONG]));

    // Long press: no release within the long window; ignored, reset.
    assert!(d.step(DetectorEvent::Click).is_empty());
    let keys = d.step(DetectorEvent::Timeout);
    assert!(keys.is_empty());
    assert_eq!(d.wait_on(), DetectorWait::ClickBlocking);
}

#[test]
fn gesture_tracking_ids_balance() {
    // Over a whole gesture, exactly two tracking ids are allocated and
    // exactly two are released, whatever steps happen in between.
    let mut all = scroll_mt_start();
    for d in [5, -3, 120] {
        all.extend(scroll_mt_step(d));
    }
    all.extend(scroll_mt_end());

    let allocs = all
        .iter()
        .filter(|e| e.etype == EV_ABS && e.code == ABS_MT_TRACKING_ID && e.value >= 0)
        .count();
    let releases = all
        .iter()
        .filter(|e| e.etype == EV_ABS && e.code == ABS_MT_TRACKING_ID && e.value == -1)
        .count();
    assert_eq!(allocs, 2);
    assert_eq!(releases, 2);
}

#[test]
fn button_release_per_mode() {
    // Scroll gives the button no meaning: its release emits nothing.
    let modes = standard_modes();
    let mut c = DialController::new(0, modes);
    let fx = c.step(at(DialEventKind::ButtonRelease));
    assert!(fx.keys.is_empty());
    assert!(fx.touch.is_empty());
    assert!(fx.haptics.is_empty());

    // The multitouch scroll mode's release clicks the left button,
    // through the keyboard/mouse device.
    let mut m = Mode::ScrollMT(ScrollMT::new());
    let fx = m.on_btn_release();
    assert_eq!(fx.keys, key_click(&[272]));
}

#[test]
fn scroll_mt_restart_on_entry() {
    // Entering the multitouch mode resets the accumulator and asks for
    // the detached gesture restart.
    let mut m = Mode::ScrollMT(ScrollMT { acc_delta: 77 });
    let fx = m.on_start();
    assert!(fx.mt_restart);
    match m {
        Mode::ScrollMT(s) => assert_eq!(s.acc_delta, 0),
        _ => unreachable!(),
    }
}
