//! Zoom mode: the dial drives Ctrl-Plus / Ctrl-Minus.

use vstd::prelude::*;

use crate::effects::EffectsSpec;
use crate::fake_input::{spec_key_click, KEY_EQUAL, KEY_LEFTCTRL, KEY_MINUS};

verus! {

/// The zooming mode.
#[derive(Clone, Copy, Debug, PartialEq, Eq, Structural)]
pub struct Zoom {}

impl Zoom {
    pub fn new() -> Zoom {
        Zoom {  }
    }
}

/// Turning the dial zooms: a positive delta clicks Ctrl+Equal (zoom in),
/// any other delta Ctrl+Minus (zoom out).
pub open spec fn spec_zoom_dial_fx(delta: i32) -> EffectsSpec {
    EffectsSpec::keys_only(
        spec_key_click(
            if delta > 0 {
                seq![KEY_LEFTCTRL, KEY_EQUAL]
            } else {
                seq![KEY_LEFTCTRL, KEY_MINUS]
            },
        ),
    )
}

} // verus!
