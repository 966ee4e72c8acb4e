//! The compiled-in control modes and their dispatch.

pub mod media;
pub mod media_with_volume;
pub mod paddle;
pub mod scroll;
pub mod scroll_mt;
pub mod volume;
pub mod zoom;

use vstd::prelude::*;

use crate::controller::{ControlModeMeta, ControlModeMetaSpec};
use crate::effects::{DetectorMsg, Effects, EffectsSpec, PaddleMsg};
use crate::fake_input::{
    key_click, scroll_mt_end, scroll_mt_step, scroll_step, ScrollStep, KEY_EQUAL, KEY_LEFTCTRL,
    KEY_LEFTSHIFT, KEY_MINUS, KEY_NEXTSONG, KEY_PLAYPAUSE, KEY_PREVIOUSSONG, KEY_VOLUMEDOWN,
    KEY_VOLUMEUP, BTN_LEFT, MT_BASELINE,
};
use crate::haptics::HapticsCommand;

pub use media::Media;
pub use media_with_volume::MediaWithVolume;
pub use paddle::Paddle;
pub use scroll::Scroll;
pub use scroll_mt::ScrollMT;
pub use volume::Volume;
pub use zoom::Zoom;

use media::{spec_media_dial_fx, spec_media_release_fx};
use media_with_volume::{spec_mwv_dial_fx, spec_mwv_press_fx, spec_mwv_release_fx};
use paddle::{
    spec_paddle_dial_fx, spec_paddle_end_fx, spec_paddle_press_fx, spec_paddle_release_fx,
    spec_paddle_start_fx,
};
use scroll::spec_scroll_dial_fx;
use scroll_mt::{
    spec_mt_clamp, spec_scroll_mt_dial_fx, spec_scroll_mt_end_fx, spec_scroll_mt_release_fx,
    spec_scroll_mt_start_fx,
};
use volume::{spec_volume_dial_fx, spec_volume_release_fx};
use zoom::spec_zoom_dial_fx;

verus! {

/// One of the compiled-in control modes, with its state.
#[derive(Clone, Copy, Debug, PartialEq, Eq, Structural)]
pub enum Mode {
    Scroll(Scroll),
    ScrollMT(ScrollMT),
    Zoom(Zoom),
    Volume(Volume),
    Media(Media),
    MediaWithVolume(MediaWithVolume),
    Paddle(Paddle),
}

impl Mode {
    /// The mode's descriptor.
    pub open spec fn spec_meta(self) -> ControlModeMetaSpec {
        match self {
            Mode::Scroll(_) => ControlModeMetaSpec {
                name: "Scroll"@,
                icon: "input-mouse"@,
                haptics: false,
                steps: 90,
            },
            Mode::ScrollMT(_) => ControlModeMetaSpec {
                name: "Scroll (Fake Multitouch)"@,
                icon: "input-mouse"@,
                haptics: false,
                steps: 3600,
            },
            Mode::Zoom(_) => ControlModeMetaSpec {
                name: "Zoom"@,
                icon: "zoom-in"@,
                haptics: true,
                steps: 36,
            },
            Mode::Volume(_) => ControlModeMetaSpec {
                name: "Volume"@,
                icon: "audio-volume-high"@,
                haptics: true,
                steps: 72,
            },
            Mode::Media(_) => ControlModeMetaSpec {
                name: "Media"@,
                icon: "applications-multimedia"@,
                haptics: true,
                steps: 36,
            },
            Mode::MediaWithVolume(_) => ControlModeMetaSpec {
                name: "Media + Volume"@,
                icon: "applications-multimedia"@,
                haptics: true,
                steps: 72,
            },
            Mode::Paddle(_) => ControlModeMetaSpec {
                name: "Paddle"@,
                icon: "input-gaming"@,
                haptics: false,
                steps: 3600,
            },
        }
    }

    /// The haptics command that installs this mode's profile.
    pub open spec fn spec_profile_cmd(self) -> HapticsCommand {
        HapticsCommand::SetMode {
            auto_haptics: self.spec_meta().haptics,
            steps: self.spec_meta().steps,
        }
    }

    /// The mode state after its `on_start`: the multitouch accumulator
    /// resets, everything else is untouched.
    pub open spec fn spec_after_start(self) -> Mode {
        match self {
            Mode::ScrollMT(_) => Mode::ScrollMT(ScrollMT { acc_delta: 0 }),
            _ => self,
        }
    }

    /// What `on_start` emits.
    pub open spec fn spec_start_fx(self) -> EffectsSpec {
        match self {
            Mode::ScrollMT(_) => spec_scroll_mt_start_fx(),
            Mode::Paddle(_) => spec_paddle_start_fx(),
            _ => EffectsSpec::nil(),
        }
    }

    /// What `on_end` emits.
    pub open spec fn spec_end_fx(self) -> EffectsSpec {
        match self {
            Mode::ScrollMT(_) => spec_scroll_mt_end_fx(),
            Mode::Paddle(_) => spec_paddle_end_fx(),
            _ => EffectsSpec::nil(),
        }
    }

    /// What `on_btn_press` emits.
    pub open spec fn spec_press_fx(self) -> EffectsSpec {
        match self {
            Mode::MediaWithVolume(_) => spec_mwv_press_fx(),
            Mode::Paddle(_) => spec_paddle_press_fx(),
            _ => EffectsSpec::nil(),
        }
    }

    /// What `on_btn_release` emits. Scroll and Zoom give the button no
    /// meaning, so their releases emit nothing.
    pub open spec fn spec_release_fx(self) -> EffectsSpec {
        match self {
            Mode::Scroll(_) => EffectsSpec::nil(),
            Mode::ScrollMT(_) => spec_scroll_mt_release_fx(),
            Mode::Zoom(_) => EffectsSpec::nil(),
            Mode::Volume(_) => spec_volume_release_fx(),
            Mode::Media(_) => spec_media_release_fx(),
            Mode::MediaWithVolume(_) => spec_mwv_release_fx(),
            Mode::Paddle(_) => spec_paddle_release_fx(),
        }
    }

    /// The mode state after `on_dial`: the multitouch accumulator adds
    /// the delta (kept within the axis range), everything else is
    /// untouched.
    pub open spec fn spec_after_dial(self, delta: i32) -> Mode {
        match self {
            Mode::ScrollMT(m) => Mode::ScrollMT(
                ScrollMT { acc_delta: spec_mt_clamp(m.acc_delta + delta) as i32 },
            ),
            _ => self,
        }
    }

    /// What `on_dial` emits.
    pub open spec fn spec_dial_fx(self, delta: i32) -> EffectsSpec {
        match self {
            Mode::Scroll(_) => spec_scroll_dial_fx(delta),
            Mode::ScrollMT(m) => spec_scroll_mt_dial_fx(
                spec_mt_clamp(m.acc_delta + delta) as i32,
            ),
            Mode::Zoom(_) => spec_zoom_dial_fx(delta),
            Mode::Volume(_) => spec_volume_dial_fx(delta),
            Mode::Media(_) => spec_media_dial_fx(delta),
            Mode::MediaWithVolume(_) => spec_mwv_dial_fx(delta),
            Mode::Paddle(_) => spec_paddle_dial_fx(delta),
        }
    }

    /// The multitouch accumulator is the only per-mode state, and it
    /// stays within the touchpad's axis range.
    pub open spec fn wf(self) -> bool {
        self matches Mode::ScrollMT(m) ==> -MT_BASELINE <= m.acc_delta <= MT_BASELINE
    }

    /// Returns the mode's descriptor.
    pub fn meta(&self) -> (r: ControlModeMeta)
        ensures
            r@ == self.spec_meta(),
    {
        match self {
            Mode::Scroll(_) => ControlModeMeta {
                name: "Scroll".to_owned(),
                icon: "input-mouse".to_owned(),
                haptics: false,
                steps: 90,
            },
            Mode::ScrollMT(_) => ControlModeMeta {
                name: "Scroll (Fake Multitouch)".to_owned(),
                icon: "input-mouse".to_owned(),
                haptics: false,
                steps: 3600,
            },
            Mode::Zoom(_) => ControlModeMeta {
                name: "Zoom".to_owned(),
                icon: "zoom-in".to_owned(),
                haptics: true,
                steps: 36,
            },
            Mode::Volume(_) => ControlModeMeta {
                name: "Volume".to_owned(),
                icon: "audio-volume-high".to_owned(),
                haptics: true,
                steps: 72,
            },
            Mode::Media(_) => ControlModeMeta {
                name: "Media".to_owned(),
                icon: "applications-multimedia".to_owned(),
                haptics: true,
                steps: 36,
            },
            Mode::MediaWithVolume(_) => ControlModeMeta {
                name: "Media + Volume".to_owned(),
                icon: "applications-multimedia".to_owned(),
                haptics: true,
                steps: 72,
            },
            Mode::Paddle(_) => ControlModeMeta {
                name: "Paddle".to_owned(),
                icon: "input-gaming".to_owned(),
                haptics: false,
                steps: 3600,
            },
        }
    }

    /// The mode became active: reset its state and emit its entry work.
    pub fn on_start(&mut self) -> (fx: Effects)
        ensures
            *final(self) == old(self).spec_after_start(),
            fx@ == old(self).spec_start_fx(),
    {
        let mut fx = Effects::nil();
        match self {
            Mode::ScrollMT(m) => {
                m.acc_delta = 0;
                fx.mt_restart = true;
            },
            Mode::Paddle(_) => {
                fx.paddle.push(PaddleMsg::Enabled(true));
            },
            _ => {},
        }
        proof {
            assert(fx@ =~= old(self).spec_start_fx());
        }
        fx
    }

    /// The mode stops being active: emit its exit work.
    pub fn on_end(&mut self) -> (fx: Effects)
        ensures
            *final(self) == *old(self),
            fx@ == old(self).spec_end_fx(),
    {
        let mut fx = Effects::nil();
        match self {
            Mode::ScrollMT(_) => {
                fx.touch = scroll_mt_end();
            },
            Mode::Paddle(_) => {
                fx.paddle.push(PaddleMsg::Enabled(false));
            },
            _ => {},
        }
        proof {
            assert(fx@ =~= old(self).spec_end_fx());
        }
        fx
    }

    /// The dial's button went down.
    pub fn on_btn_press(&mut self) -> (fx: Effects)
        ensures
            *final(self) == *old(self),
            fx@ == old(self).spec_press_fx(),
    {
        let mut fx = Effects::nil();
        match self {
            Mode::MediaWithVolume(_) => {
                fx.detector.push(DetectorMsg::Click);
            },
            Mode::Paddle(_) => {
                fx.paddle.push(PaddleMsg::ButtonDown);
            },
            _ => {},
        }
        proof {
            assert(fx@ =~= old(self).spec_press_fx());
        }
        fx
    }

    /// The dial's button came up.
    pub fn on_btn_release(&mut self) -> (fx: Effects)
        ensures
            *final(self) == *old(self),
            fx@ == old(self).spec_release_fx(),
    {
        let mut fx = Effects::nil();
        match self {
            Mode::Scroll(_) => {},
            Mode::ScrollMT(_) => {
                // The click travels on the keyboard/mouse device, which
                // declares BTN_LEFT; the touchpad has no click operation.
                fx.keys = key_click(&[BTN_LEFT]);
            },
            Mode::Zoom(_) => {},
            Mode::Volume(_) => {
                fx.keys = key_click(&[KEY_PLAYPAUSE]);
            },
            Mode::Media(_) => {
                fx.keys = key_click(&[KEY_PLAYPAUSE]);
            },
            Mode::MediaWithVolume(_) => {
                fx.detector.push(DetectorMsg::Release);
            },
            Mode::Paddle(_) => {
                fx.paddle.push(PaddleMsg::ButtonUp);
            },
        }
        proof {
            assert(fx@ =~= old(self).spec_release_fx());
        }
        fx
    }

    /// The dial turned by `delta`.
    pub fn on_dial(&mut self, delta: i32) -> (fx: Effects)
        requires
            old(self).wf(),
        ensures
            final(self).wf(),
            *final(self) == old(self).spec_after_dial(delta),
            fx@ == old(self).spec_dial_fx(delta),
    {
        let mut fx = Effects::nil();
        match self {
            Mode::Scroll(_) => {
                fx.keys = scroll_step(
                    if delta > 0 {
                        ScrollStep::Down
                    } else {
                        ScrollStep::Up
                    },
                );
            },
            Mode::ScrollMT(m) => {
                let raw: i64 = m.acc_delta as i64 + delta as i64;
                let acc: i32 = if raw > MT_BASELINE as i64 {
                    MT_BASELINE
                } else if raw < -(MT_BASELINE as i64) {
                    -MT_BASELINE
                } else {
                    raw as i32
                };
                m.acc_delta = acc;
                fx.touch = scroll_mt_step(acc);
            },
            Mode::Zoom(_) => {
                fx.keys = if delta > 0 {
                    key_click(&[KEY_LEFTCTRL, KEY_EQUAL])
                } else {
                    key_click(&[KEY_LEFTCTRL, KEY_MINUS])
                };
            },
            Mode::Volume(_) => {
                fx.keys = if delta > 0 {
                    key_click(&[KEY_LEFTSHIFT, KEY_VOLUMEUP])
                } else {
                    key_click(&[KEY_LEFTSHIFT, KEY_VOLUMEDOWN])
                };
            },
            Mode::Media(_) => {
                fx.keys = if delta > 0 {
                    key_click(&[KEY_NEXTSONG])
                } else {
                    key_click(&[KEY_PREVIOUSSONG])
                };
            },
            Mode::MediaWithVolume(_) => {
                fx.keys = if delta > 0 {
                    key_click(&[KEY_VOLUMEUP])
                } else {
                    key_click(&[KEY_VOLUMEDOWN])
                };
            },
            Mode::Paddle(_) => {
                fx.paddle.push(PaddleMsg::Delta(delta));
            },
        }
        proof {
            assert(fx@ =~= old(self).spec_dial_fx(delta));
        }
        fx
    }
}

/// The compiled-in mode list, in the order the daemon installs it.
pub fn standard_modes() -> (r: Vec<Mode>)
    ensures
        r@.len() == 7,
        r@[0] == Mode::Scroll(Scroll {  }),
        r@[1] == Mode::ScrollMT(ScrollMT { acc_delta: 0 }),
        r@[2] == Mode::Zoom(Zoom {  }),
        r@[3] == Mode::Volume(Volume {  }),
        r@[4] == Mode::Media(Media {  }),
        r@[5] == Mode::MediaWithVolume(MediaWithVolume {  }),
        r@[6] == Mode::Paddle(Paddle {  }),
        forall|i: int| 0 <= i < r@.len() ==> (#[trigger] r@[i]).wf(),
{
    let mut r: Vec<Mode> = Vec::new();
    r.push(Mode::Scroll(Scroll::new()));
    r.push(Mode::ScrollMT(ScrollMT::new()));
    r.push(Mode::Zoom(Zoom::new()));
    r.push(Mode::Volume(Volume::new()));
    r.push(Mode::Media(Media::new()));
    r.push(Mode::MediaWithVolume(MediaWithVolume::new()));
    r.push(Mode::Paddle(Paddle::new()));
    r
}

} // verus!
