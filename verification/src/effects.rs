//! What a dispatch step asks the outside world to do.
//!
//! Mode callbacks and the controller are pure: instead of touching
//! devices they return an [`Effects`] value listing, in order, the events
//! to inject, the haptics commands to enqueue, the notification actions
//! to perform, and the bookkeeping to carry out.

use vstd::prelude::*;

use crate::fake_input::OutputEvent;
use crate::haptics::HapticsCommand;

verus! {

/// An action on the meta-mode notification.
pub enum NoticeAction {
    /// Show a resident notification with this body and icon.
    Open { body: String, icon: String },
    /// Change the body and icon of the open notification.
    Update { body: String, icon: String },
    /// Close the notification.
    Close,
}

/// The mathematical image of a [`NoticeAction`].
pub enum NoticeSpec {
    Open { body: Seq<char>, icon: Seq<char> },
    Update { body: Seq<char>, icon: Seq<char> },
    Close,
}

impl View for NoticeAction {
    type V = NoticeSpec;

    open spec fn view(&self) -> NoticeSpec {
        match self {
            NoticeAction::Open { body, icon } => NoticeSpec::Open { body: body@, icon: icon@ },
            NoticeAction::Update { body, icon } => NoticeSpec::Update {
                body: body@,
                icon: icon@,
            },
            NoticeAction::Close => NoticeSpec::Close,
        }
    }
}

impl DeepView for NoticeAction {
    type V = NoticeSpec;

    open spec fn deep_view(&self) -> NoticeSpec {
        self.view()
    }
}

/// A message for the paddle worker.
#[derive(Clone, Copy, Debug, PartialEq, Eq, Structural)]
pub enum PaddleMsg {
    /// Enable or disable the time-driven decay.
    Enabled(bool),
    /// The dial's button went down.
    ButtonDown,
    /// The dial's button came up.
    ButtonUp,
    /// The dial turned by this delta.
    Delta(i32),
}

/// A message for the double-click detector worker.
#[derive(Clone, Copy, Debug, PartialEq, Eq, Structural)]
pub enum DetectorMsg {
    /// The dial's button went down.
    Click,
    /// The dial's button came up.
    Release,
}

/// The mathematical image of an [`Effects`] value.
#[verifier::ext_equal]
pub struct EffectsSpec {
    pub keys: Seq<OutputEvent>,
    pub touch: Seq<OutputEvent>,
    pub haptics: Seq<HapticsCommand>,
    pub notices: Seq<NoticeSpec>,
    pub select_mode: Option<int>,
    pub save_mode: Option<int>,
    pub mt_restart: bool,
    pub paddle: Seq<PaddleMsg>,
    pub detector: Seq<DetectorMsg>,
}

impl EffectsSpec {
    /// No effect at all.
    pub open spec fn nil() -> EffectsSpec {
        EffectsSpec {
            keys: Seq::empty(),
            touch: Seq::empty(),
            haptics: Seq::empty(),
            notices: Seq::empty(),
            select_mode: None,
            save_mode: None,
            mt_restart: false,
            paddle: Seq::empty(),
            detector: Seq::empty(),
        }
    }

    /// Only keyboard/mouse events.
    pub open spec fn keys_only(keys: Seq<OutputEvent>) -> EffectsSpec {
        EffectsSpec { keys, ..EffectsSpec::nil() }
    }

    /// Only touchpad events.
    pub open spec fn touch_only(touch: Seq<OutputEvent>) -> EffectsSpec {
        EffectsSpec { touch, ..EffectsSpec::nil() }
    }

    /// Only messages to the paddle worker.
    pub open spec fn paddle_only(paddle: Seq<PaddleMsg>) -> EffectsSpec {
        EffectsSpec { paddle, ..EffectsSpec::nil() }
    }

    /// Only messages to the double-click detector.
    pub open spec fn detector_only(detector: Seq<DetectorMsg>) -> EffectsSpec {
        EffectsSpec { detector, ..EffectsSpec::nil() }
    }

    /// Two effect batches one after the other: the lists concatenate and
    /// the later of two mailbox or save writes wins.
    pub open spec fn followed_by(self, other: EffectsSpec) -> EffectsSpec {
        EffectsSpec {
            keys: self.keys + other.keys,
            touch: self.touch + other.touch,
            haptics: self.haptics + other.haptics,
            notices: self.notices + other.notices,
            select_mode: if other.select_mode is Some {
                other.select_mode
            } else {
                self.select_mode
            },
            save_mode: if other.save_mode is Some {
                other.save_mode
            } else {
                self.save_mode
            },
            mt_restart: self.mt_restart || other.mt_restart,
            paddle: self.paddle + other.paddle,
            detector: self.detector + other.detector,
        }
    }
}

/// One dispatch step's worth of outside work, in order within each list.
pub struct Effects {
    /// Events for the virtual keyboard/mouse.
    pub keys: Vec<OutputEvent>,
    /// Events for the virtual touchpad.
    pub touch: Vec<OutputEvent>,
    /// Commands for the haptics worker.
    pub haptics: Vec<HapticsCommand>,
    /// Actions on the meta-mode notification.
    pub notices: Vec<NoticeAction>,
    /// A new mode index for the pending-mode mailbox.
    pub select_mode: Option<usize>,
    /// A mode index to persist to the config store.
    pub save_mode: Option<usize>,
    /// Restart the touchpad gesture from a detached worker: close it,
    /// wait 200 ms, open it again. Works around stale gesture state when
    /// the multitouch scroll mode is the startup mode.
    pub mt_restart: bool,
    /// Messages for the paddle worker.
    pub paddle: Vec<PaddleMsg>,
    /// Messages for the double-click detector worker.
    pub detector: Vec<DetectorMsg>,
}

impl View for Effects {
    type V = EffectsSpec;

    open spec fn view(&self) -> EffectsSpec {
        EffectsSpec {
            keys: self.keys@,
            touch: self.touch@,
            haptics: self.haptics@,
            notices: self.notices.deep_view(),
            select_mode: match self.select_mode {
                Some(k) => Some(k as int),
                None => None,
            },
            save_mode: match self.save_mode {
                Some(k) => Some(k as int),
                None => None,
            },
            mt_restart: self.mt_restart,
            paddle: self.paddle@,
            detector: self.detector@,
        }
    }
}

impl Effects {
    /// No effect at all.
    pub fn nil() -> (r: Effects)
        ensures
            r@ == EffectsSpec::nil(),
    {
        let r = Effects {
            keys: Vec::new(),
            touch: Vec::new(),
            haptics: Vec::new(),
            notices: Vec::new(),
            select_mode: None,
            save_mode: None,
            mt_restart: false,
            paddle: Vec::new(),
            detector: Vec::new(),
        };
        proof {
            assert(r@ =~= EffectsSpec::nil());
        }
        r
    }

    /// Appends another batch, which is drained.
    pub fn push_all(&mut self, other: &mut Effects)
        ensures
            final(self)@ == old(self)@.followed_by(old(other)@),
    {
        self.keys.append(&mut other.keys);
        self.touch.append(&mut other.touch);
        self.haptics.append(&mut other.haptics);
        self.notices.append(&mut other.notices);
        if let Some(k) = other.select_mode {
            self.select_mode = Some(k);
        }
        if let Some(k) = other.save_mode {
            self.save_mode = Some(k);
        }
        if other.mt_restart {
            self.mt_restart = true;
        }
        self.paddle.append(&mut other.paddle);
        self.detector.append(&mut other.detector);
        proof {
            assert(self@ =~= old(self)@.followed_by(old(other)@));
        }
    }
}

} // verus!
