//! Scroll mode: the dial turns the mouse wheel; the button does
//! nothing.

use vstd::prelude::*;

use crate::effects::EffectsSpec;
use crate::fake_input::{spec_scroll_step, ScrollStep};

verus! {

/// The plain wheel-scrolling mode.
#[derive(Clone, Copy, Debug, PartialEq, Eq, Structural)]
pub struct Scroll {}

impl Scroll {
    pub fn new() -> Scroll {
        Scroll {  }
    }
}

/// Turning the dial scrolls: a positive delta is one tick down, any
/// other delta one tick up.
pub open spec fn spec_scroll_dial_fx(delta: i32) -> EffectsSpec {
    EffectsSpec::keys_only(
        spec_scroll_step(
            if delta > 0 {
                ScrollStep::Down
            } else {
                ScrollStep::Up
            },
        ),
    )
}

} // verus!
