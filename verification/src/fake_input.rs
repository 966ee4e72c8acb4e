//! The emission model of the two virtual output devices.
//!
//! Each operation here computes the exact sequence of input events the
//! corresponding virtual device must inject, ending every logical
//! operation with a `SYN_REPORT`. The caller owns the uinput handles and
//! writes the events out in order, under the device's re-entrant lock.

use vstd::prelude::*;

use crate::event::{EV_ABS, EV_KEY, EV_REL, EV_SYN, SYN_REPORT};

verus! {

// Key codes of the Linux input ABI used by the keyboard/mouse device.
pub const KEY_MINUS: u16 = 12;
pub const KEY_EQUAL: u16 = 13;
pub const KEY_LEFTCTRL: u16 = 29;
pub const KEY_LEFTSHIFT: u16 = 42;
pub const KEY_SPACE: u16 = 57;
pub const KEY_LEFT: u16 = 105;
pub const KEY_RIGHT: u16 = 106;
pub const KEY_MUTE: u16 = 113;
pub const KEY_VOLUMEDOWN: u16 = 114;
pub const KEY_VOLUMEUP: u16 = 115;
pub const KEY_NEXTSONG: u16 = 163;
pub const KEY_PLAYPAUSE: u16 = 164;
pub const KEY_PREVIOUSSONG: u16 = 165;
pub const BTN_LEFT: u16 = 272;
pub const BTN_TOUCH: u16 = 330;
pub const BTN_TOOL_FINGER: u16 = 325;
pub const BTN_TOOL_DOUBLETAP: u16 = 333;

// Axis codes used by the two devices.
pub const REL_WHEEL: u16 = 8;
pub const REL_WHEEL_HI_RES: u16 = 11;
pub const ABS_X: u16 = 0;
pub const ABS_Y: u16 = 1;
pub const ABS_MT_SLOT: u16 = 47;
pub const ABS_MT_TRACKING_ID: u16 = 57;
pub const ABS_MT_POSITION_X: u16 = 53;
pub const ABS_MT_POSITION_Y: u16 = 54;

/// The centre of the touchpad's axes; the declared range is
/// `0 ..= 2 * MT_BASELINE`.
pub const MT_BASELINE: i32 = 0x0fff_ffff;

/// The axis resolution of the virtual touchpad; higher means slower
/// scrolling.
pub const MT_SENSITIVITY: i32 = 48;

/// One event to inject into a virtual device.
#[derive(Clone, Copy, Debug, PartialEq, Eq, Structural)]
pub struct OutputEvent {
    pub etype: u16,
    pub code: u16,
    pub value: i32,
}

/// A key event with the given state (1 pressed, 0 released).
pub open spec fn spec_key_ev(code: u16, value: i32) -> OutputEvent {
    OutputEvent { etype: EV_KEY, code, value }
}

/// An absolute-axis event.
pub open spec fn spec_abs_ev(code: u16, value: i32) -> OutputEvent {
    OutputEvent { etype: EV_ABS, code, value }
}

/// The synchronization marker that ends every logical operation.
pub open spec fn spec_syn_report() -> OutputEvent {
    OutputEvent { etype: EV_SYN, code: SYN_REPORT, value: 0 }
}

/// What `key_press` emits: each key pressed, then one report.
pub open spec fn spec_key_press(keys: Seq<u16>) -> Seq<OutputEvent> {
    keys.map_values(|k: u16| spec_key_ev(k, 1)).push(spec_syn_report())
}

/// What `key_release` emits: each key released, then one report.
pub open spec fn spec_key_release(keys: Seq<u16>) -> Seq<OutputEvent> {
    keys.map_values(|k: u16| spec_key_ev(k, 0)).push(spec_syn_report())
}

/// What `key_click` emits: the presses, then the releases.
pub open spec fn spec_key_click(keys: Seq<u16>) -> Seq<OutputEvent> {
    spec_key_press(keys) + spec_key_release(keys)
}

/// Presses a sequence of keys (a modifier followed by a key is the usual
/// shape) and ends the report.
pub fn key_press(keys: &[u16]) -> (r: Vec<OutputEvent>)
    ensures
        r@ == spec_key_press(keys@),
{
    let mut out: Vec<OutputEvent> = Vec::new();
    let mut i: usize = 0;
    while i < keys.len()
        invariant
            i <= keys@.len(),
            out@ =~= keys@.take(i as int).map_values(|k: u16| spec_key_ev(k, 1)),
        decreases keys@.len() - i,
    {
        out.push(OutputEvent { etype: EV_KEY, code: keys[i], value: 1 });
        proof {
            assert(keys@.take(i + 1 as int).drop_last() =~= keys@.take(i as int));
        }
        i = i + 1;
    }
    out.push(OutputEvent { etype: EV_SYN, code: SYN_REPORT, value: 0 });
    proof {
        assert(keys@.take(keys@.len() as int) =~= keys@);
        assert(out@ =~= spec_key_press(keys@));
    }
    out
}

/// Releases a sequence of keys and ends the report.
pub fn key_release(keys: &[u16]) -> (r: Vec<OutputEvent>)
    ensures
        r@ == spec_key_release(keys@),
{
    let mut out: Vec<OutputEvent> = Vec::new();
    let mut i: usize = 0;
    while i < keys.len()
        invariant
            i <= keys@.len(),
            out@ =~= keys@.take(i as int).map_values(|k: u16| spec_key_ev(k, 0)),
        decreases keys@.len() - i,
    {
        out.push(OutputEvent { etype: EV_KEY, code: keys[i], value: 0 });
        proof {
            assert(keys@.take(i + 1 as int).drop_last() =~= keys@.take(i as int));
        }
        i = i + 1;
    }
    out.push(OutputEvent { etype: EV_SYN, code: SYN_REPORT, value: 0 });
    proof {
        assert(keys@.take(keys@.len() as int) =~= keys@);
        assert(out@ =~= spec_key_release(keys@));
    }
    out
}

/// Presses then releases a sequence of keys.
pub fn key_click(keys: &[u16]) -> (r: Vec<OutputEvent>)
    ensures
        r@ == spec_key_click(keys@),
{
    let mut out = key_press(keys);
    let mut rel = key_release(keys);
    out.append(&mut rel);
    out
}

/// One direction of the mouse wheel.
#[derive(Clone, Copy, Debug, PartialEq, Eq, Structural)]
pub enum ScrollStep {
    Up,
    Down,
}

/// What `scroll_step` emits: one wheel tick, the matching high-resolution
/// tick, and the report.
pub open spec fn spec_scroll_step(dir: ScrollStep) -> Seq<OutputEvent> {
    let tick: i32 = if dir is Up {
        1
    } else {
        -1i32
    };
    let hi_res: i32 = if dir is Up {
        120
    } else {
        -120i32
    };
    seq![
        OutputEvent { etype: EV_REL, code: REL_WHEEL, value: tick },
        OutputEvent { etype: EV_REL, code: REL_WHEEL_HI_RES, value: hi_res },
        spec_syn_report(),
    ]
}

/// Emits one scroll tick on the wheel axis (±1) with its high-resolution
/// counterpart (±120).
pub fn scroll_step(dir: ScrollStep) -> (r: Vec<OutputEvent>)
    ensures
        r@ == spec_scroll_step(dir),
{
    let (tick, hi_res): (i32, i32) = match dir {
        ScrollStep::Up => (1, 120),
        ScrollStep::Down => (-1, -120),
    };
    let mut out: Vec<OutputEvent> = Vec::new();
    out.push(OutputEvent { etype: EV_REL, code: REL_WHEEL, value: tick });
    out.push(OutputEvent { etype: EV_REL, code: REL_WHEEL_HI_RES, value: hi_res });
    out.push(OutputEvent { etype: EV_SYN, code: SYN_REPORT, value: 0 });
    proof {
        assert(out@ =~= spec_scroll_step(dir));
    }
    out
}

/// What `scroll_mt_start` emits: slot 0 gets tracking id 1 at the centre
/// with the touch and single-finger tools down, then slot 1 gets tracking
/// id 2 off-centre and the tools are upgraded to a two-finger gesture;
/// each half ends with a report.
pub open spec fn spec_scroll_mt_start() -> Seq<OutputEvent> {
    seq![
        spec_abs_ev(ABS_MT_SLOT, 0),
        spec_abs_ev(ABS_MT_TRACKING_ID, 1),
        spec_abs_ev(ABS_MT_POSITION_X, MT_BASELINE),
        spec_abs_ev(ABS_MT_POSITION_Y, MT_BASELINE),
        spec_key_ev(BTN_TOUCH, 1),
        spec_key_ev(BTN_TOOL_FINGER, 1),
        spec_abs_ev(ABS_X, MT_BASELINE),
        spec_abs_ev(ABS_Y, MT_BASELINE),
        spec_syn_report(),
        spec_abs_ev(ABS_MT_SLOT, 1),
        spec_abs_ev(ABS_MT_TRACKING_ID, 2),
        spec_abs_ev(ABS_MT_POSITION_X, (MT_BASELINE / 2) as i32),
        spec_abs_ev(ABS_MT_POSITION_Y, MT_BASELINE),
        spec_key_ev(BTN_TOOL_FINGER, 0),
        spec_key_ev(BTN_TOOL_DOUBLETAP, 1),
        spec_syn_report(),
    ]
}

/// Opens the simulated two-finger gesture on the virtual touchpad.
pub fn scroll_mt_start() -> (r: Vec<OutputEvent>)
    ensures
        r@ == spec_scroll_mt_start(),
{
    let mut out: Vec<OutputEvent> = Vec::new();
    out.push(OutputEvent { etype: EV_ABS, code: ABS_MT_SLOT, value: 0 });
    out.push(OutputEvent { etype: EV_ABS, code: ABS_MT_TRACKING_ID, value: 1 });
    out.push(OutputEvent { etype: EV_ABS, code: ABS_MT_POSITION_X, value: MT_BASELINE });
    out.push(OutputEvent { etype: EV_ABS, code: ABS_MT_POSITION_Y, value: MT_BASELINE });
    out.push(OutputEvent { etype: EV_KEY, code: BTN_TOUCH, value: 1 });
    out.push(OutputEvent { etype: EV_KEY, code: BTN_TOOL_FINGER, value: 1 });
    out.push(OutputEvent { etype: EV_ABS, code: ABS_X, value: MT_BASELINE });
    out.push(OutputEvent { etype: EV_ABS, code: ABS_Y, value: MT_BASELINE });
    out.push(OutputEvent { etype: EV_SYN, code: SYN_REPORT, value: 0 });
    out.push(OutputEvent { etype: EV_ABS, code: ABS_MT_SLOT, value: 1 });
    out.push(OutputEvent { etype: EV_ABS, code: ABS_MT_TRACKING_ID, value: 2 });
    out.push(OutputEvent { etype: EV_ABS, code: ABS_MT_POSITION_X, value: MT_BASELINE / 2 });
    out.push(OutputEvent { etype: EV_ABS, code: ABS_MT_POSITION_Y, value: MT_BASELINE });
    out.push(OutputEvent { etype: EV_KEY, code: BTN_TOOL_FINGER, value: 0 });
    out.push(OutputEvent { etype: EV_KEY, code: BTN_TOOL_DOUBLETAP, value: 1 });
    out.push(OutputEvent { etype: EV_SYN, code: SYN_REPORT, value: 0 });
    proof {
        assert(out@ =~= spec_scroll_mt_start());
    }
    out
}

/// What `scroll_mt_step` emits: both slots' Y set to the centre plus the
/// accumulated delta, the legacy Y axis likewise, and the report.
pub open spec fn spec_scroll_mt_step(delta: i32) -> Seq<OutputEvent> {
    seq![
        spec_abs_ev(ABS_MT_SLOT, 0),
        spec_abs_ev(ABS_MT_POSITION_Y, (MT_BASELINE + delta) as i32),
        spec_abs_ev(ABS_MT_SLOT, 1),
        spec_abs_ev(ABS_MT_POSITION_Y, (MT_BASELINE + delta) as i32),
        spec_abs_ev(ABS_Y, (MT_BASELINE + delta) as i32),
        spec_syn_report(),
    ]
}

/// Moves both fingers of the gesture to `MT_BASELINE + delta`. The delta
/// is bounded so the position stays within the declared axis range
/// `0 ..= 2 * MT_BASELINE`.
pub fn scroll_mt_step(delta: i32) -> (r: Vec<OutputEvent>)
    requires
        -MT_BASELINE <= delta <= MT_BASELINE,
    ensures
        r@ == spec_scroll_mt_step(delta),
{
    let y = MT_BASELINE + delta;
    let mut out: Vec<OutputEvent> = Vec::new();
    out.push(OutputEvent { etype: EV_ABS, code: ABS_MT_SLOT, value: 0 });
    out.push(OutputEvent { etype: EV_ABS, code: ABS_MT_POSITION_Y, value: y });
    out.push(OutputEvent { etype: EV_ABS, code: ABS_MT_SLOT, value: 1 });
    out.push(OutputEvent { etype: EV_ABS, code: ABS_MT_POSITION_Y, value: y });
    out.push(OutputEvent { etype: EV_ABS, code: ABS_Y, value: y });
    out.push(OutputEvent { etype: EV_SYN, code: SYN_REPORT, value: 0 });
    proof {
        assert(out@ =~= spec_scroll_mt_step(delta));
    }
    out
}

/// What `scroll_mt_end` emits: both tracking ids released, touch and
/// two-finger tool lifted, and the report.
pub open spec fn spec_scroll_mt_end() -> Seq<OutputEvent> {
    seq![
        spec_abs_ev(ABS_MT_SLOT, 0),
        spec_abs_ev(ABS_MT_TRACKING_ID, -1i32),
        spec_abs_ev(ABS_MT_SLOT, 1),
        spec_abs_ev(ABS_MT_TRACKING_ID, -1i32),
        spec_key_ev(BTN_TOUCH, 0),
        spec_key_ev(BTN_TOOL_DOUBLETAP, 0),
        spec_syn_report(),
    ]
}

/// Closes the simulated two-finger gesture.
pub fn scroll_mt_end() -> (r: Vec<OutputEvent>)
    ensures
        r@ == spec_scroll_mt_end(),
{
    let mut out: Vec<OutputEvent> = Vec::new();
    out.push(OutputEvent { etype: EV_ABS, code: ABS_MT_SLOT, value: 0 });
    out.push(OutputEvent { etype: EV_ABS, code: ABS_MT_TRACKING_ID, value: -1 });
    out.push(OutputEvent { etype: EV_ABS, code: ABS_MT_SLOT, value: 1 });
    out.push(OutputEvent { etype: EV_ABS, code: ABS_MT_TRACKING_ID, value: -1 });
    out.push(OutputEvent { etype: EV_KEY, code: BTN_TOUCH, value: 0 });
    out.push(OutputEvent { etype: EV_KEY, code: BTN_TOOL_DOUBLETAP, value: 0 });
    out.push(OutputEvent { etype: EV_SYN, code: SYN_REPORT, value: 0 });
    proof {
        assert(out@ =~= spec_scroll_mt_end());
    }
    out
}

/// A tracking-id allocation: a contact comes into existence.
pub open spec fn spec_is_tracking_alloc(e: OutputEvent) -> bool {
    e.etype == EV_ABS && e.code == ABS_MT_TRACKING_ID && e.value >= 0
}

/// A tracking-id release: a contact is lifted.
pub open spec fn spec_is_tracking_release(e: OutputEvent) -> bool {
    e.etype == EV_ABS && e.code == ABS_MT_TRACKING_ID && e.value == -1
}

/// The emissions of a whole gesture: the opening, one step per delta, in
/// order, and the close.
pub open spec fn spec_mt_steps(deltas: Seq<i32>) -> Seq<OutputEvent>
    decreases deltas.len(),
{
    if deltas.len() == 0 {
        Seq::empty()
    } else {
        spec_mt_steps(deltas.drop_last()) + spec_scroll_mt_step(deltas.last())
    }
}

/// How many events from position `i` on satisfy `pred`.
pub open spec fn spec_count_from(
    s: Seq<OutputEvent>,
    pred: spec_fn(OutputEvent) -> bool,
    i: int,
) -> nat
    decreases s.len() - i,
{
    if 0 <= i < s.len() {
        (if pred(s[i]) {
            1nat
        } else {
            0nat
        }) + spec_count_from(s, pred, i + 1)
    } else {
        0
    }
}

/// How many events of the sequence satisfy `pred`.
pub open spec fn spec_count_events(s: Seq<OutputEvent>, pred: spec_fn(OutputEvent) -> bool) -> nat {
    spec_count_from(s, pred, 0)
}

/// Counting the tail of a concatenation counts the second part.
proof fn lemma_count_shift(
    a: Seq<OutputEvent>,
    b: Seq<OutputEvent>,
    pred: spec_fn(OutputEvent) -> bool,
    j: int,
)
    requires
        0 <= j,
    ensures
        spec_count_from(a + b, pred, a.len() + j) == spec_count_from(b, pred, j),
    decreases b.len() - j,
{
    if j < b.len() {
        assert((a + b)[a.len() + j] == b[j]);
        lemma_count_shift(a, b, pred, j + 1);
    }
}

/// Counting from `i` within the first part of a concatenation splits.
proof fn lemma_count_concat_from(
    a: Seq<OutputEvent>,
    b: Seq<OutputEvent>,
    pred: spec_fn(OutputEvent) -> bool,
    i: int,
)
    requires
        0 <= i <= a.len(),
    ensures
        spec_count_from(a + b, pred, i) == spec_count_from(a, pred, i) + spec_count_events(
            b,
            pred,
        ),
    decreases a.len() - i,
{
    if i < a.len() {
        assert((a + b)[i] == a[i]);
        lemma_count_concat_from(a, b, pred, i + 1);
    } else {
        lemma_count_shift(a, b, pred, 0);
    }
}

/// The count of a concatenation is the sum of the counts.
pub proof fn lemma_count_concat(
    a: Seq<OutputEvent>,
    b: Seq<OutputEvent>,
    pred: spec_fn(OutputEvent) -> bool,
)
    ensures
        spec_count_events(a + b, pred) == spec_count_events(a, pred) + spec_count_events(b, pred),
{
    lemma_count_concat_from(a, b, pred, 0);
}

/// Steps move fingers but never touch a tracking id.
proof fn lemma_mt_steps_no_tracking(deltas: Seq<i32>)
    ensures
        spec_count_events(spec_mt_steps(deltas), |e: OutputEvent| spec_is_tracking_alloc(e)) == 0,
        spec_count_events(spec_mt_steps(deltas), |e: OutputEvent| spec_is_tracking_release(e))
            == 0,
    decreases deltas.len(),
{
    reveal_with_fuel(spec_count_from, 8);
    if deltas.len() == 0 {
    } else {
        lemma_mt_steps_no_tracking(deltas.drop_last());
        let step = spec_scroll_mt_step(deltas.last());
        lemma_count_concat(
            spec_mt_steps(deltas.drop_last()),
            step,
            |e: OutputEvent| spec_is_tracking_alloc(e),
        );
        lemma_count_concat(
            spec_mt_steps(deltas.drop_last()),
            step,
            |e: OutputEvent| spec_is_tracking_release(e),
        );
    }
}

/// The opening allocates exactly the two tracking ids and releases none.
proof fn lemma_mt_start_counts()
    ensures
        spec_count_events(spec_scroll_mt_start(), |e: OutputEvent| spec_is_tracking_alloc(e)) == 2,
        spec_count_events(spec_scroll_mt_start(), |e: OutputEvent| spec_is_tracking_release(e))
            == 0,
{
    reveal_with_fuel(spec_count_from, 18);
}

/// The close releases exactly the two tracking ids and allocates none.
proof fn lemma_mt_end_counts()
    ensures
        spec_count_events(spec_scroll_mt_end(), |e: OutputEvent| spec_is_tracking_alloc(e)) == 0,
        spec_count_events(spec_scroll_mt_end(), |e: OutputEvent| spec_is_tracking_release(e)) == 2,
{
    reveal_with_fuel(spec_count_from, 9);
}

/// The opening and the close of the simulated gesture are balanced: over
/// the whole sequence `start, step(x1), …, step(xn), end`, exactly two
/// tracking ids are allocated and exactly two are released, whatever the
/// steps in between.
pub proof fn lemma_scroll_mt_balanced(deltas: Seq<i32>)
    ensures
        spec_count_events(
            spec_scroll_mt_start() + spec_mt_steps(deltas) + spec_scroll_mt_end(),
            |e: OutputEvent| spec_is_tracking_alloc(e),
        ) == 2,
        spec_count_events(
            spec_scroll_mt_start() + spec_mt_steps(deltas) + spec_scroll_mt_end(),
            |e: OutputEvent| spec_is_tracking_release(e),
        ) == 2,
{
    lemma_mt_steps_no_tracking(deltas);
    lemma_mt_start_counts();
    lemma_mt_end_counts();
    let alloc = |e: OutputEvent| spec_is_tracking_alloc(e);
    let release = |e: OutputEvent| spec_is_tracking_release(e);
    lemma_count_concat(spec_scroll_mt_start(), spec_mt_steps(deltas), alloc);
    lemma_count_concat(spec_scroll_mt_start() + spec_mt_steps(deltas), spec_scroll_mt_end(), alloc);
    lemma_count_concat(spec_scroll_mt_start(), spec_mt_steps(deltas), release);
    lemma_count_concat(
        spec_scroll_mt_start() + spec_mt_steps(deltas),
        spec_scroll_mt_end(),
        release,
    );
}

} // verus!
