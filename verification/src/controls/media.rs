//! Media mode: the dial skips tracks; the button toggles play/pause.

use vstd::prelude::*;

use crate::effects::EffectsSpec;
use crate::fake_input::{spec_key_click, KEY_NEXTSONG, KEY_PLAYPAUSE, KEY_PREVIOUSSONG};

verus! {

/// The media-control mode.
#[derive(Clone, Copy, Debug, PartialEq, Eq, Structural)]
pub struct Media {}

impl Media {
    pub fn new() -> Media {
        Media {  }
    }
}

/// Turning the dial skips: a positive delta clicks the next-song key,
/// any other delta the previous-song key.
pub open spec fn spec_media_dial_fx(delta: i32) -> EffectsSpec {
    EffectsSpec::keys_only(
        spec_key_click(
            if delta > 0 {
                seq![KEY_NEXTSONG]
            } else {
                seq![KEY_PREVIOUSSONG]
            },
        ),
    )
}

/// Releasing the button clicks play/pause.
pub open spec fn spec_media_release_fx() -> EffectsSpec {
    EffectsSpec::keys_only(spec_key_click(seq![KEY_PLAYPAUSE]))
}

} // verus!
