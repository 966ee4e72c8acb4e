//! Multitouch scroll mode: the dial drives a simulated two-finger
//! gesture on the virtual touchpad.

use vstd::prelude::*;

use crate::effects::EffectsSpec;
use crate::fake_input::{
    spec_key_click, spec_scroll_mt_end, spec_scroll_mt_step, BTN_LEFT, MT_BASELINE,
};

verus! {

/// How long the detached restart worker sleeps between closing and
/// reopening the gesture (milliseconds). Restarting with a pause works
/// around stale gesture state when this mode is the startup mode; the
/// root cause is not established.
pub const MT_RESTART_DELAY_MS: u64 = 200;

/// The experimental two-finger pinch-scroll mode. It accumulates dial
/// deltas into a finger displacement.
#[derive(Clone, Copy, Debug, PartialEq, Eq, Structural)]
pub struct ScrollMT {
    /// The accumulated displacement, kept within the touchpad's axis
    /// range: the fingers sit at `MT_BASELINE + acc_delta`.
    pub acc_delta: i32,
}

impl ScrollMT {
    pub fn new() -> (r: ScrollMT)
        ensures
            r.acc_delta == 0,
    {
        ScrollMT { acc_delta: 0 }
    }
}

/// The accumulated displacement stays within the axis range, so the
/// fingers never leave the touchpad.
pub open spec fn spec_mt_clamp(x: int) -> int {
    if x > MT_BASELINE {
        MT_BASELINE as int
    } else if x < -MT_BASELINE {
        -MT_BASELINE
    } else {
        x
    }
}

/// Entering the mode resets the displacement and restarts the gesture
/// from a detached worker.
pub open spec fn spec_scroll_mt_start_fx() -> EffectsSpec {
    EffectsSpec { mt_restart: true, ..EffectsSpec::nil() }
}

/// Leaving the mode closes the gesture.
pub open spec fn spec_scroll_mt_end_fx() -> EffectsSpec {
    EffectsSpec::touch_only(spec_scroll_mt_end())
}

/// Releasing the button clicks the left mouse button. The click goes
/// out through the keyboard/mouse device, which declares `BTN_LEFT`;
/// the touchpad model offers no click operation of its own.
pub open spec fn spec_scroll_mt_release_fx() -> EffectsSpec {
    EffectsSpec::keys_only(spec_key_click(seq![BTN_LEFT]))
}

/// Turning the dial adds the delta to the displacement (clamped to the
/// axis range) and moves both fingers there.
pub open spec fn spec_scroll_mt_dial_fx(acc_after: i32) -> EffectsSpec {
    EffectsSpec::touch_only(spec_scroll_mt_step(acc_after))
}

} // verus!
