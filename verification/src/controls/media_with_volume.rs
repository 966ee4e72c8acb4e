//! Media-with-volume mode: the dial changes the volume; the button goes
//! through a double-click detector that distinguishes a single click
//! (play/pause) from a double click (next song) and ignores long
//! presses.

use vstd::prelude::*;

use crate::effects::{DetectorMsg, EffectsSpec};
use crate::fake_input::{
    spec_key_click, OutputEvent, KEY_NEXTSONG, KEY_PLAYPAUSE, KEY_VOLUMEDOWN, KEY_VOLUMEUP,
};

verus! {

/// A second press within this window of the first release makes a
/// double click (milliseconds).
pub const DOUBLE_CLICK_WINDOW_MS: u64 = 250;

/// A press without a release within this window is a long press and is
/// ignored (milliseconds).
pub const LONG_PRESS_WINDOW_MS: u64 = 1000;

/// The media + volume mode: stateless, it forwards the button to the
/// detector.
#[derive(Clone, Copy, Debug, PartialEq, Eq, Structural)]
pub struct MediaWithVolume {}

impl MediaWithVolume {
    pub fn new() -> MediaWithVolume {
        MediaWithVolume {  }
    }
}

/// Where the double-click detector stands in a click cycle.
#[derive(Clone, Copy, Debug, PartialEq, Eq, Structural)]
pub enum DetectorState {
    /// Before any press: waiting, with no timer, for a first click.
    AwaitClick,
    /// A press arrived: waiting for its release within the long-press
    /// window.
    AwaitRelease,
    /// The first click completed: waiting for a second press within the
    /// double-click window.
    AwaitSecondClick,
    /// A second press arrived: waiting, with no timer, for its release.
    AwaitSecondRelease,
}

/// What the detector's wait produced: a forwarded press or release, or
/// the expiry of the window it was waiting in.
#[derive(Clone, Copy, Debug, PartialEq, Eq, Structural)]
pub enum DetectorEvent {
    Click,
    Release,
    Timeout,
}

/// Which wait the caller must make for the detector next.
#[derive(Clone, Copy, Debug, PartialEq, Eq, Structural)]
pub enum DetectorWait {
    /// Block on the click channel, after draining both channels.
    ClickBlocking,
    /// Wait on the release channel for [`LONG_PRESS_WINDOW_MS`].
    ReleaseWithinLongWindow,
    /// Wait on the click channel for [`DOUBLE_CLICK_WINDOW_MS`].
    ClickWithinShortWindow,
    /// Block on the release channel.
    ReleaseBlocking,
}

/// The double-click detector.
#[derive(Clone, Copy, Debug, PartialEq, Eq, Structural)]
pub struct DoubleClickDetector {
    pub state: DetectorState,
}

/// Which events a wait in each state can produce.
pub open spec fn spec_detector_event_fits(state: DetectorState, ev: DetectorEvent) -> bool {
    match state {
        DetectorState::AwaitClick => ev is Click,
        DetectorState::AwaitRelease => ev is Release || ev is Timeout,
        DetectorState::AwaitSecondClick => ev is Click || ev is Timeout,
        DetectorState::AwaitSecondRelease => ev is Release,
    }
}

/// The detector state after one event: a completed single click (the
/// short window expires) or a completed double click (second release)
/// starts a new cycle, as does an ignored long press (the long window
/// expires).
pub open spec fn spec_detector_after(state: DetectorState, ev: DetectorEvent) -> DetectorState {
    match (state, ev) {
        (DetectorState::AwaitClick, DetectorEvent::Click) => DetectorState::AwaitRelease,
        (DetectorState::AwaitRelease, DetectorEvent::Release) => DetectorState::AwaitSecondClick,
        (DetectorState::AwaitRelease, DetectorEvent::Timeout) => DetectorState::AwaitClick,
        (DetectorState::AwaitSecondClick, DetectorEvent::Click) => DetectorState::AwaitSecondRelease,
        (DetectorState::AwaitSecondClick, DetectorEvent::Timeout) => DetectorState::AwaitClick,
        (DetectorState::AwaitSecondRelease, DetectorEvent::Release) => DetectorState::AwaitClick,
        _ => state,
    }
}

/// What one detector event emits: play/pause when a single click's short
/// window expires, next-song when a double click's second release lands,
/// nothing otherwise.
pub open spec fn spec_detector_fx(state: DetectorState, ev: DetectorEvent) -> Seq<OutputEvent> {
    match (state, ev) {
        (DetectorState::AwaitSecondClick, DetectorEvent::Timeout) => spec_key_click(
            seq![KEY_PLAYPAUSE],
        ),
        (DetectorState::AwaitSecondRelease, DetectorEvent::Release) => spec_key_click(
            seq![KEY_NEXTSONG],
        ),
        _ => Seq::empty(),
    }
}

impl DoubleClickDetector {
    /// A fresh detector, waiting for a first click.
    pub fn new() -> (r: DoubleClickDetector)
        ensures
            r.state is AwaitClick,
    {
        DoubleClickDetector { state: DetectorState::AwaitClick }
    }

    /// Which wait the caller must make next.
    pub fn wait_on(&self) -> (r: DetectorWait)
        ensures
            r == match self.state {
                DetectorState::AwaitClick => DetectorWait::ClickBlocking,
                DetectorState::AwaitRelease => DetectorWait::ReleaseWithinLongWindow,
                DetectorState::AwaitSecondClick => DetectorWait::ClickWithinShortWindow,
                DetectorState::AwaitSecondRelease => DetectorWait::ReleaseBlocking,
            },
    {
        match self.state {
            DetectorState::AwaitClick => DetectorWait::ClickBlocking,
            DetectorState::AwaitRelease => DetectorWait::ReleaseWithinLongWindow,
            DetectorState::AwaitSecondClick => DetectorWait::ClickWithinShortWindow,
            DetectorState::AwaitSecondRelease => DetectorWait::ReleaseBlocking,
        }
    }

    /// Consumes one event and returns the keyboard events to inject.
    pub fn step(&mut self, ev: DetectorEvent) -> (keys: Vec<OutputEvent>)
        requires
            spec_detector_event_fits(old(self).state, ev),
        ensures
            final(self).state == spec_detector_after(old(self).state, ev),
            keys@ == spec_detector_fx(old(self).state, ev),
    {
        match (self.state, ev) {
            (DetectorState::AwaitClick, DetectorEvent::Click) => {
                self.state = DetectorState::AwaitRelease;
                Vec::new()
            },
            (DetectorState::AwaitRelease, DetectorEvent::Release) => {
                self.state = DetectorState::AwaitSecondClick;
                Vec::new()
            },
            (DetectorState::AwaitRelease, DetectorEvent::Timeout) => {
                // A long press: ignored, the cycle restarts.
                self.state = DetectorState::AwaitClick;
                Vec::new()
            },
            (DetectorState::AwaitSecondClick, DetectorEvent::Click) => {
                self.state = DetectorState::AwaitSecondRelease;
                Vec::new()
            },
            (DetectorState::AwaitSecondClick, DetectorEvent::Timeout) => {
                // No second click in time: a single click.
                self.state = DetectorState::AwaitClick;
                crate::fake_input::key_click(&[KEY_PLAYPAUSE])
            },
            (DetectorState::AwaitSecondRelease, DetectorEvent::Release) => {
                // The second click completed: a double click.
                self.state = DetectorState::AwaitClick;
                crate::fake_input::key_click(&[KEY_NEXTSONG])
            },
            _ => Vec::new(),
        }
    }
}

/// Turning the dial changes the volume: a positive delta clicks
/// volume-up, any other delta volume-down.
pub open spec fn spec_mwv_dial_fx(delta: i32) -> EffectsSpec {
    EffectsSpec::keys_only(
        spec_key_click(
            if delta > 0 {
                seq![KEY_VOLUMEUP]
            } else {
                seq![KEY_VOLUMEDOWN]
            },
        ),
    )
}

/// Pressing the button forwards a click to the detector.
pub open spec fn spec_mwv_press_fx() -> EffectsSpec {
    EffectsSpec::detector_only(seq![DetectorMsg::Click])
}

/// Releasing the button forwards a release to the detector.
pub open spec fn spec_mwv_release_fx() -> EffectsSpec {
    EffectsSpec::detector_only(seq![DetectorMsg::Release])
}

} // verus!
