//! Paddle mode: the dial's velocity holds the left or right arrow key,
//! the button holds space.
//!
//! The behavior is time-driven: a worker receives the mode's messages
//! with a bounded timeout and decays the velocity on every expiry. The
//! worker's decisions live here, verified; the caller runs the loop,
//! waiting on the message channel with a timeout exactly while the
//! worker is enabled.

use vstd::prelude::*;

use crate::effects::{EffectsSpec, PaddleMsg};
use crate::fake_input::{
    spec_key_press, spec_key_release, OutputEvent, KEY_LEFT, KEY_RIGHT, KEY_SPACE,
};
use vstd::math::abs;

verus! {

/// The decay timer of the enabled worker (milliseconds): every wait
/// that expires costs the velocity one falloff step.
pub const PADDLE_TICK_MS: u64 = 0;

/// The velocity loses a tenth of itself, plus one, on every decay tick.
pub const PADDLE_FALLOFF_DIVISOR: i32 = 10;

/// The velocity never exceeds this magnitude.
pub const PADDLE_CAP: i32 = 250;

/// Below this magnitude the velocity holds no key.
pub const PADDLE_DEADZONE: i32 = 10;

/// The paddle mode itself: stateless, it only forwards messages to the
/// worker.
#[derive(Clone, Copy, Debug, PartialEq, Eq, Structural)]
pub struct Paddle {}

impl Paddle {
    pub fn new() -> Paddle {
        Paddle {  }
    }
}

/// What the paddle worker received in one wait: a message from the mode,
/// or the expiry of its decay timer.
#[derive(Clone, Copy, Debug, PartialEq, Eq, Structural)]
pub enum PaddleEvent {
    Msg(PaddleMsg),
    Timeout,
}

/// The worker that turns dial velocity into held keys.
#[derive(Clone, Copy, Debug, PartialEq, Eq, Structural)]
pub struct Worker {
    /// While disabled the worker waits without a timeout: no decay runs.
    pub enabled: bool,
    /// The previous delta, for the abrupt-direction-change rule.
    pub last_delta: i32,
    /// The current velocity, within `-PADDLE_CAP ..= PADDLE_CAP`.
    pub velocity: i32,
}

/// Velocities are kept within the cap.
pub open spec fn spec_paddle_clamp(x: int) -> int {
    if x > PADDLE_CAP {
        PADDLE_CAP as int
    } else if x < -PADDLE_CAP {
        -PADDLE_CAP
    } else {
        x
    }
}

/// The decay amount for a velocity: a tenth of its magnitude, plus one.
pub open spec fn spec_paddle_falloff(v: int) -> int {
    (abs(v) as int) / (PADDLE_FALLOFF_DIVISOR as int) + 1
}

/// The worker state after one event, before clamping: the sign-flip rule
/// resets the velocity, a delta accumulates, a timer expiry decays.
pub open spec fn spec_paddle_velocity_raw(s: Worker, ev: PaddleEvent) -> int {
    match ev {
        PaddleEvent::Msg(PaddleMsg::Delta(delta)) => {
            let base: int = if (delta < 0) != (s.last_delta < 0) {
                0
            } else {
                s.velocity as int
            };
            base + delta
        },
        PaddleEvent::Timeout => if s.velocity < 0 {
            s.velocity + spec_paddle_falloff(s.velocity as int)
        } else if s.velocity > 0 {
            s.velocity - spec_paddle_falloff(s.velocity as int)
        } else {
            0
        },
        _ => s.velocity as int,
    }
}

/// The worker state after one event.
pub open spec fn spec_paddle_after(s: Worker, ev: PaddleEvent) -> Worker {
    Worker {
        enabled: match ev {
            PaddleEvent::Msg(PaddleMsg::Enabled(b)) => b,
            _ => s.enabled,
        },
        last_delta: match ev {
            PaddleEvent::Msg(PaddleMsg::Delta(delta)) => delta,
            _ => s.last_delta,
        },
        velocity: spec_paddle_clamp(spec_paddle_velocity_raw(s, ev)) as i32,
    }
}

/// The immediate emission of an event, before the velocity is looked at:
/// disabling releases everything held, the button holds and releases
/// space.
pub open spec fn spec_paddle_head_fx(ev: PaddleEvent) -> Seq<OutputEvent> {
    match ev {
        PaddleEvent::Msg(PaddleMsg::Enabled(b)) => if b {
            Seq::empty()
        } else {
            spec_key_release(seq![KEY_SPACE, KEY_LEFT, KEY_RIGHT])
        },
        PaddleEvent::Msg(PaddleMsg::ButtonDown) => spec_key_press(seq![KEY_SPACE]),
        PaddleEvent::Msg(PaddleMsg::ButtonUp) => spec_key_release(seq![KEY_SPACE]),
        _ => Seq::empty(),
    }
}

/// What the new velocity holds: inside the deadzone both arrows are
/// released; otherwise the arrow matching the sign is pressed.
pub open spec fn spec_paddle_tail_fx(v: int) -> Seq<OutputEvent> {
    if abs(v) < PADDLE_DEADZONE {
        spec_key_release(seq![KEY_LEFT, KEY_RIGHT])
    } else if v < 0 {
        spec_key_press(seq![KEY_LEFT])
    } else {
        spec_key_press(seq![KEY_RIGHT])
    }
}

/// Everything one worker iteration emits.
pub open spec fn spec_paddle_fx(s: Worker, ev: PaddleEvent) -> Seq<OutputEvent> {
    spec_paddle_head_fx(ev) + spec_paddle_tail_fx(spec_paddle_after(s, ev).velocity as int)
}

impl Worker {
    /// The velocity invariant the cap enforces.
    pub open spec fn wf(&self) -> bool {
        -PADDLE_CAP <= self.velocity <= PADDLE_CAP
    }

    /// A fresh worker: disabled, at rest.
    pub fn new() -> (r: Worker)
        ensures
            r.wf(),
            !r.enabled,
            r.last_delta == 0,
            r.velocity == 0,
    {
        Worker { enabled: false, last_delta: 0, velocity: 0 }
    }

    /// Which wait the caller must make next: a bounded one (so decay
    /// runs) while enabled, an unbounded one while disabled.
    pub fn wants_timeout(&self) -> (r: bool)
        ensures
            r == self.enabled,
    {
        self.enabled
    }

    /// Consumes one event and returns the keyboard events to inject.
    ///
    /// A delta whose sign differs from the previous delta resets the
    /// velocity before accumulating; the velocity is then clamped to the
    /// cap; within the deadzone both arrows are released, outside it the
    /// matching arrow is held.
    pub fn step(&mut self, ev: PaddleEvent) -> (keys: Vec<OutputEvent>)
        requires
            old(self).wf(),
            ev is Timeout ==> old(self).enabled,
        ensures
            final(self).wf(),
            *final(self) == spec_paddle_after(*old(self), ev),
            keys@ == spec_paddle_fx(*old(self), ev),
    {
        let mut keys: Vec<OutputEvent> = Vec::new();
        let mut raw: i64 = self.velocity as i64;
        match ev {
            PaddleEvent::Msg(PaddleMsg::Enabled(b)) => {
                self.enabled = b;
                if !b {
                    let mut rel = crate::fake_input::key_release(
                        &[KEY_SPACE, KEY_LEFT, KEY_RIGHT],
                    );
                    keys.append(&mut rel);
                }
            },
            PaddleEvent::Msg(PaddleMsg::ButtonDown) => {
                let mut prs = crate::fake_input::key_press(&[KEY_SPACE]);
                keys.append(&mut prs);
            },
            PaddleEvent::Msg(PaddleMsg::ButtonUp) => {
                let mut rel = crate::fake_input::key_release(&[KEY_SPACE]);
                keys.append(&mut rel);
            },
            PaddleEvent::Msg(PaddleMsg::Delta(delta)) => {
                if (delta < 0) != (self.last_delta < 0) {
                    raw = 0;
                }
                self.last_delta = delta;
                raw = raw + delta as i64;
            },
            PaddleEvent::Timeout => {
                let falloff = (if self.velocity < 0 {
                    -self.velocity
                } else {
                    self.velocity
                }) / PADDLE_FALLOFF_DIVISOR + 1;
                if self.velocity < 0 {
                    raw = raw + falloff as i64;
                } else if self.velocity > 0 {
                    raw = raw - falloff as i64;
                }
            },
        }
        let clamped: i32 = if raw > PADDLE_CAP as i64 {
            PADDLE_CAP
        } else if raw < -(PADDLE_CAP as i64) {
            -PADDLE_CAP
        } else {
            raw as i32
        };
        self.velocity = clamped;
        let v_neg = clamped < 0;
        let magnitude: i32 = if v_neg {
            -clamped
        } else {
            clamped
        };
        if magnitude < PADDLE_DEADZONE {
            let mut rel = crate::fake_input::key_release(&[KEY_LEFT, KEY_RIGHT]);
            keys.append(&mut rel);
        } else if v_neg {
            let mut prs = crate::fake_input::key_press(&[KEY_LEFT]);
            keys.append(&mut prs);
        } else {
            let mut prs = crate::fake_input::key_press(&[KEY_RIGHT]);
            keys.append(&mut prs);
        }
        proof {
            assert(keys@ =~= spec_paddle_fx(*old(self), ev));
            assert(*self =~= spec_paddle_after(*old(self), ev));
        }
        keys
    }
}

/// The abrupt-direction-change rule: when a delta's sign differs from the
/// previous one, the velocity at that step is zero before the new delta
/// is added, so the resulting velocity is the new delta alone (clamped).
pub proof fn lemma_paddle_sign_flip(s: Worker, delta: i32)
    requires
        s.wf(),
        (delta < 0) != (s.last_delta < 0),
    ensures
        spec_paddle_after(s, PaddleEvent::Msg(PaddleMsg::Delta(delta))).velocity
            == spec_paddle_clamp(delta as int),
{
}

/// Entering the mode enables the worker.
pub open spec fn spec_paddle_start_fx() -> EffectsSpec {
    EffectsSpec::paddle_only(seq![PaddleMsg::Enabled(true)])
}

/// Leaving the mode disables the worker, which releases every held key.
pub open spec fn spec_paddle_end_fx() -> EffectsSpec {
    EffectsSpec::paddle_only(seq![PaddleMsg::Enabled(false)])
}

/// Pressing the button holds space.
pub open spec fn spec_paddle_press_fx() -> EffectsSpec {
    EffectsSpec::paddle_only(seq![PaddleMsg::ButtonDown])
}

/// Releasing the button releases space.
pub open spec fn spec_paddle_release_fx() -> EffectsSpec {
    EffectsSpec::paddle_only(seq![PaddleMsg::ButtonUp])
}

/// Turning the dial feeds the worker's velocity.
pub open spec fn spec_paddle_dial_fx(delta: i32) -> EffectsSpec {
    EffectsSpec::paddle_only(seq![PaddleMsg::Delta(delta)])
}

} // verus!
