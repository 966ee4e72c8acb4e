//! The per-device event stream: session bracketing, read-error
//! classification, and the long-press synthesizer.

use vstd::prelude::*;

use crate::error::{Error, ENODEV};
use crate::event::{spec_normalize, DialEvent, DialEventKind, EventTime, RawEvent};

verus! {

/// How long a press may go unreleased before the synthetic long press
/// fires (milliseconds).
pub const LONG_PRESS_TIMEOUT_MS: u64 = 750;

/// What one wait on the raw-event channel produced. `Timeout` occurs only
/// when the wait was made with the long-press timeout armed.
#[derive(Clone, Copy, Debug, PartialEq, Eq, Structural)]
pub enum RecvOutcome {
    /// A raw kernel event arrived.
    Raw(RawEvent),
    /// The events worker opened a session.
    Connect,
    /// The events worker closed its session.
    Disconnect,
    /// The long-press timeout expired before anything arrived.
    Timeout,
}

/// The zero timestamp given to synthetic events, which carry no kernel time.
pub open spec fn spec_synthetic_time() -> EventTime {
    EventTime { tv_sec: 0, tv_usec: 0 }
}

/// What `DialDevice::next_event` returns for one receive outcome.
pub open spec fn spec_next_event(outcome: RecvOutcome) -> Result<DialEvent, Error> {
    match outcome {
        RecvOutcome::Raw(raw) => match spec_normalize(raw) {
            Some(kind) => Ok(DialEvent { time: raw.time, kind }),
            None => Err(Error::UnexpectedEvent(raw)),
        },
        RecvOutcome::Connect => Ok(
            DialEvent { time: spec_synthetic_time(), kind: DialEventKind::Connect },
        ),
        RecvOutcome::Disconnect => Ok(
            DialEvent { time: spec_synthetic_time(), kind: DialEventKind::Disconnect },
        ),
        RecvOutcome::Timeout => Ok(
            DialEvent { time: spec_synthetic_time(), kind: DialEventKind::ButtonLongPress },
        ),
    }
}

/// Whether a long press is pending after one receive outcome was handled.
/// A press arms it, a release or the expiry of the timer disarms it; all
/// other events leave it alone.
pub open spec fn spec_awaiting_after(awaiting: bool, outcome: RecvOutcome) -> bool {
    match outcome {
        RecvOutcome::Raw(raw) => match spec_normalize(raw) {
            Some(DialEventKind::ButtonPress) => true,
            Some(DialEventKind::ButtonRelease) => false,
            Some(_) => awaiting,
            None => awaiting,
        },
        RecvOutcome::Timeout => false,
        _ => awaiting,
    }
}

/// The event-stream view of the dial: it turns raw receive outcomes into
/// normalized events and synthesizes `ButtonLongPress`.
///
/// The caller drives it: it blocks on the raw-event channel, with the
/// long-press timeout exactly when [`DialDevice::wants_timeout`] says so,
/// and hands each outcome to [`DialDevice::next_event`].
pub struct DialDevice {
    /// Set while a press has been seen whose release is still outstanding;
    /// while set, the next wait is made with the long-press timeout.
    pub possible_long_press: bool,
}

impl DialDevice {
    /// A fresh stream: no press is outstanding.
    pub fn new() -> (r: DialDevice)
        ensures
            !r.possible_long_press,
    {
        DialDevice { possible_long_press: false }
    }

    /// Whether the next wait on the raw-event channel must be made with
    /// the long-press timeout.
    pub fn wants_timeout(&self) -> (r: bool)
        ensures
            r == self.possible_long_press,
    {
        self.possible_long_press
    }

    /// Turns one receive outcome into the next dial event.
    ///
    /// A raw event is normalized (an unclassifiable one is the error
    /// `UnexpectedEvent`); `Connect`/`Disconnect` pass through; a timeout
    /// becomes the synthetic `ButtonLongPress` and disarms the timer, so a
    /// press yields at most one long press.
    pub fn next_event(&mut self, outcome: RecvOutcome) -> (r: Result<DialEvent, Error>)
        requires
            outcome is Timeout ==> old(self).possible_long_press,
        ensures
            r == spec_next_event(outcome),
            final(self).possible_long_press == spec_awaiting_after(
                old(self).possible_long_press,
                outcome,
            ),
    {
        match outcome {
            RecvOutcome::Raw(raw) => {
                match DialEvent::from_raw_evt(&raw) {
                    Some(event) => {
                        match event.kind {
                            DialEventKind::ButtonPress => {
                                self.possible_long_press = true;
                            },
                            DialEventKind::ButtonRelease => {
                                self.possible_long_press = false;
                            },
                            _ => {},
                        }
                        Ok(event)
                    },
                    None => Err(Error::UnexpectedEvent(raw)),
                }
            },
            RecvOutcome::Connect => Ok(
                DialEvent { time: EventTime { tv_sec: 0, tv_usec: 0 }, kind: DialEventKind::Connect },
            ),
            RecvOutcome::Disconnect => Ok(
                DialEvent {
                    time: EventTime { tv_sec: 0, tv_usec: 0 },
                    kind: DialEventKind::Disconnect,
                },
            ),
            RecvOutcome::Timeout => {
                self.possible_long_press = false;
                Ok(
                    DialEvent {
                        time: EventTime { tv_sec: 0, tv_usec: 0 },
                        kind: DialEventKind::ButtonLongPress,
                    },
                )
            },
        }
    }
}

/// Classifies the `errno` of a failed blocking read on the dial's event
/// node: `ENODEV` means the device was unplugged and the session ends
/// cleanly; anything else is fatal.
pub fn classify_read_error(errno: i32) -> (r: Result<(), Error>)
    ensures
        errno == ENODEV <==> r is Ok,
        r matches Err(e) ==> e == Error::Evdev(errno),
{
    if errno == ENODEV {
        Ok(())
    } else {
        Err(Error::Evdev(errno))
    }
}

/// A receive outcome that delivers a button press.
pub open spec fn spec_is_press_outcome(o: RecvOutcome) -> bool {
    o matches RecvOutcome::Raw(r) && spec_normalize(r) == Some(DialEventKind::ButtonPress)
}

/// Whether any outcome of the trace delivers a button press.
pub open spec fn spec_has_press(outs: Seq<RecvOutcome>) -> bool {
    exists|i: int| 0 <= i < outs.len() && spec_is_press_outcome(#[trigger] outs[i])
}

/// A trace the caller's loop can produce: a timeout outcome occurs only
/// while a press is outstanding, because only then is the wait made with
/// the long-press timeout.
pub open spec fn spec_valid_trace(awaiting: bool, outs: Seq<RecvOutcome>) -> bool
    decreases outs.len(),
{
    outs.len() == 0 || {
        &&& (outs[0] is Timeout ==> awaiting)
        &&& spec_valid_trace(spec_awaiting_after(awaiting, outs[0]), outs.drop_first())
    }
}

/// How many synthetic long presses a trace delivers: one per timeout
/// outcome.
pub open spec fn spec_count_long_presses(outs: Seq<RecvOutcome>) -> nat
    decreases outs.len(),
{
    if outs.len() == 0 {
        0
    } else {
        (if outs[0] is Timeout {
            1nat
        } else {
            0nat
        }) + spec_count_long_presses(outs.drop_first())
    }
}

/// While no press is outstanding and none arrives, no long press can be
/// synthesized: the timeout wait is never armed.
proof fn lemma_no_press_no_long_press(outs: Seq<RecvOutcome>)
    requires
        spec_valid_trace(false, outs),
        !spec_has_press(outs),
    ensures
        spec_count_long_presses(outs) == 0,
    decreases outs.len(),
{
    if outs.len() > 0 {
        assert(!spec_is_press_outcome(outs[0]));
        assert(spec_awaiting_after(false, outs[0]) == false);
        assert(!spec_has_press(outs.drop_first())) by {
            assert forall|i: int|
                0 <= i < outs.drop_first().len() implies !spec_is_press_outcome(
                #[trigger] outs.drop_first()[i],
            ) by {
                assert(outs.drop_first()[i] == outs[i + 1]);
            }
        }
        lemma_no_press_no_long_press(outs.drop_first());
    }
}

/// A press whose release does not arrive within the long-press timeout
/// is followed by exactly one synthetic `ButtonLongPress`: the expiring
/// timeout delivers it — before any later dial step or press reaches
/// the controller — and no second one can fire until another press
/// arms the timer again.
pub proof fn lemma_long_press_exactly_once(outs: Seq<RecvOutcome>)
    requires
        outs.len() >= 2,
        spec_is_press_outcome(outs[0]),
        outs[1] is Timeout,
        spec_valid_trace(false, outs),
        !spec_has_press(outs.subrange(2, outs.len() as int)),
    ensures
        spec_next_event(outs[1]) == Ok::<DialEvent, Error>(
            DialEvent { time: spec_synthetic_time(), kind: DialEventKind::ButtonLongPress },
        ),
        spec_count_long_presses(outs) == 1,
{
    let tail1 = outs.drop_first();
    let tail2 = tail1.drop_first();
    assert(spec_awaiting_after(false, outs[0]) == true);
    assert(tail1[0] == outs[1]);
    assert(spec_valid_trace(true, tail1));
    assert(spec_awaiting_after(true, outs[1]) == false);
    assert(spec_valid_trace(false, tail2));
    assert(tail2 =~= outs.subrange(2, outs.len() as int));
    lemma_no_press_no_long_press(tail2);
    assert(spec_count_long_presses(outs) == 0 + spec_count_long_presses(tail1));
    assert(spec_count_long_presses(tail1) == 1 + spec_count_long_presses(tail2));
}

} // verus!
