//! Volume mode: the dial drives the volume keys; the button toggles
//! play/pause.

use vstd::prelude::*;

use crate::effects::EffectsSpec;
use crate::fake_input::{
    spec_key_click, KEY_LEFTSHIFT, KEY_PLAYPAUSE, KEY_VOLUMEDOWN, KEY_VOLUMEUP,
};

verus! {

/// The volume mode.
#[derive(Clone, Copy, Debug, PartialEq, Eq, Structural)]
pub struct Volume {}

impl Volume {
    pub fn new() -> Volume {
        Volume {  }
    }
}

/// Turning the dial changes the volume: a positive delta clicks
/// Shift+VolumeUp, any other delta Shift+VolumeDown.
pub open spec fn spec_volume_dial_fx(delta: i32) -> EffectsSpec {
    EffectsSpec::keys_only(
        spec_key_click(
            if delta > 0 {
                seq![KEY_LEFTSHIFT, KEY_VOLUMEUP]
            } else {
                seq![KEY_LEFTSHIFT, KEY_VOLUMEDOWN]
            },
        ),
    )
}

/// Releasing the button clicks play/pause.
pub open spec fn spec_volume_release_fx() -> EffectsSpec {
    EffectsSpec::keys_only(spec_key_click(seq![KEY_PLAYPAUSE]))
}

} // verus!
