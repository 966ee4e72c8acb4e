//! Haptic feedback: the commands modes may send, the exact HID report
//! layouts the dial understands, and the worker state machine that owns
//! the fragile HID handle across disconnects.

use vstd::prelude::*;

verus! {

/// The dial's USB vendor id.
pub const DIAL_VENDOR_ID: u16 = 0x045e;

/// The dial's USB product id.
pub const DIAL_PRODUCT_ID: u16 = 0x091b;

/// The largest subdivision count the dial's firmware accepts.
pub const MAX_STEPS: u16 = 3600;

/// A command for the haptics worker, delivered over an ordered channel.
#[derive(Clone, Copy, Debug, PartialEq, Eq, Structural)]
pub enum HapticsCommand {
    /// The dial's event session opened: acquire the HID handle.
    DialConnected,
    /// The dial's event session closed: release the HID handle.
    DialDisconnected,
    /// Install a haptic profile: automatic buzzing on or off, and the
    /// number of subdivisions per revolution (at most [`MAX_STEPS`]).
    SetMode { auto_haptics: bool, steps: u16 },
    /// Trigger the motor manually, `repeat` times.
    Buzz { repeat: u8 },
}

impl HapticsCommand {
    /// A command is well-formed when its subdivision count, if it has
    /// one, is within the firmware's range.
    pub open spec fn wf(&self) -> bool {
        self matches HapticsCommand::SetMode { steps, .. } ==> steps <= MAX_STEPS
    }
}

/// The 8-byte feature report that installs a haptic profile.
pub open spec fn spec_set_mode_report(auto_haptics: bool, steps: u16) -> Seq<u8> {
    seq![
        1u8,
        (steps & 0xff) as u8,
        (steps >> 8) as u8,
        0u8,
        if auto_haptics { 3u8 } else { 2u8 },
        0u8,
        0u8,
        0u8,
    ]
}

/// The 5-byte output report that triggers the motor manually.
pub open spec fn spec_buzz_report(repeat: u8) -> Seq<u8> {
    seq![1u8, repeat, 3u8, 0u8, 0u8]
}

/// Builds the feature report for a haptic profile: report id 1, the
/// subdivision count split into its low and high bytes, and the automatic
/// trigger switched on (3) or off (2).
pub fn set_mode_report(auto_haptics: bool, steps: u16) -> (r: Vec<u8>)
    requires
        steps <= MAX_STEPS,
    ensures
        r@ == spec_set_mode_report(auto_haptics, steps),
{
    let steps_lo = (steps & 0xff) as u8;
    let steps_hi = (steps >> 8) as u8;
    let auto: u8 = if auto_haptics {
        3
    } else {
        2
    };
    let mut buf: Vec<u8> = Vec::new();
    buf.push(1);
    buf.push(steps_lo);
    buf.push(steps_hi);
    buf.push(0);
    buf.push(auto);
    buf.push(0);
    buf.push(0);
    buf.push(0);
    proof {
        assert(buf@ =~= spec_set_mode_report(auto_haptics, steps));
    }
    buf
}

/// Builds the output report for a manual buzz: report id 1, the repeat
/// count, and the manual trigger (3).
pub fn buzz_report(repeat: u8) -> (r: Vec<u8>)
    ensures
        r@ == spec_buzz_report(repeat),
{
    let mut buf: Vec<u8> = Vec::new();
    buf.push(1);
    buf.push(repeat);
    buf.push(3);
    buf.push(0);
    buf.push(0);
    proof {
        assert(buf@ =~= spec_buzz_report(repeat));
    }
    buf
}

/// The two states of the haptics worker. It starts `Idle`; the HID handle
/// is open exactly while it is `Connected`.
#[derive(Clone, Copy, Debug, PartialEq, Eq, Structural)]
pub enum HapticsWorkerState {
    Idle,
    Connected,
}

/// One thing the worker asks its caller to do to the HID channel.
pub enum HidAction {
    /// Open the dial's HID device (vendor [`DIAL_VENDOR_ID`], product
    /// [`DIAL_PRODUCT_ID`]).
    Open,
    /// Close the HID handle.
    Close,
    /// Send these bytes as a feature report.
    SendFeature(Vec<u8>),
    /// Write these bytes as an output report.
    Write(Vec<u8>),
}

/// The worker state machine that owns the HID channel.
///
/// The caller runs the loop: it blocks on the command channel, hands each
/// command to [`DialHapticsWorker::step`], and performs the actions
/// returned, in order.
pub struct DialHapticsWorker {
    pub state: HapticsWorkerState,
}

/// The state after one command. Only `DialConnected` leaves `Idle`; only
/// `DialDisconnected` leaves `Connected`.
pub open spec fn spec_haptics_state_after(
    state: HapticsWorkerState,
    cmd: HapticsCommand,
) -> HapticsWorkerState {
    match state {
        HapticsWorkerState::Idle => if cmd is DialConnected {
            HapticsWorkerState::Connected
        } else {
            HapticsWorkerState::Idle
        },
        HapticsWorkerState::Connected => if cmd is DialDisconnected {
            HapticsWorkerState::Idle
        } else {
            HapticsWorkerState::Connected
        },
    }
}

impl DialHapticsWorker {
    /// A fresh worker, before any session: `Idle`.
    pub fn new() -> (r: DialHapticsWorker)
        ensures
            r.state is Idle,
    {
        DialHapticsWorker { state: HapticsWorkerState::Idle }
    }

    /// Consumes one command.
    ///
    /// While `Idle`, every command but `DialConnected` is dropped without
    /// any HID action, so nothing is ever written to a closed handle.
    /// While `Connected`, `SetMode` and `Buzz` are served with their exact
    /// report bytes, a repeated `DialConnected` is tolerated, and
    /// `DialDisconnected` closes the handle and returns to `Idle`.
    pub fn step(&mut self, cmd: HapticsCommand) -> (actions: Vec<HidAction>)
        requires
            cmd.wf(),
        ensures
            final(self).state == spec_haptics_state_after(old(self).state, cmd),
            old(self).state is Idle && !(cmd is DialConnected) ==> actions@ =~= Seq::<
                HidAction,
            >::empty(),
            old(self).state is Idle && cmd is DialConnected ==> actions@ =~= seq![
                HidAction::Open,
            ],
            old(self).state is Connected ==> match cmd {
                HapticsCommand::DialConnected => actions@ =~= Seq::<HidAction>::empty(),
                HapticsCommand::DialDisconnected => actions@ =~= seq![HidAction::Close],
                HapticsCommand::SetMode { auto_haptics, steps } => {
                    &&& actions@.len() == 1
                    &&& actions@[0] matches HidAction::SendFeature(b)
                        && b@ == spec_set_mode_report(auto_haptics, steps)
                },
                HapticsCommand::Buzz { repeat } => {
                    &&& actions@.len() == 1
                    &&& actions@[0] matches HidAction::Write(b) && b@ == spec_buzz_report(repeat)
                },
            },
    {
        let mut actions: Vec<HidAction> = Vec::new();
        match self.state {
            HapticsWorkerState::Idle => {
                if let HapticsCommand::DialConnected = cmd {
                    self.state = HapticsWorkerState::Connected;
                    actions.push(HidAction::Open);
                }
            },
            HapticsWorkerState::Connected => {
                match cmd {
                    HapticsCommand::DialConnected => {},
                    HapticsCommand::DialDisconnected => {
                        self.state = HapticsWorkerState::Idle;
                        actions.push(HidAction::Close);
                    },
                    HapticsCommand::SetMode { auto_haptics, steps } => {
                        actions.push(HidAction::SendFeature(set_mode_report(auto_haptics, steps)));
                    },
                    HapticsCommand::Buzz { repeat } => {
                        actions.push(HidAction::Write(buzz_report(repeat)));
                    },
                }
            },
        }
        actions
    }
}

/// The worker state after a whole command sequence.
pub open spec fn spec_haptics_run(
    state: HapticsWorkerState,
    cmds: Seq<HapticsCommand>,
) -> HapticsWorkerState
    decreases cmds.len(),
{
    if cmds.len() == 0 {
        state
    } else {
        spec_haptics_run(spec_haptics_state_after(state, cmds[0]), cmds.drop_first())
    }
}

/// Whether one step writes to the HID channel: only a profile or a buzz
/// served while connected does.
pub open spec fn spec_haptics_step_writes(state: HapticsWorkerState, cmd: HapticsCommand) -> bool {
    state is Connected && (cmd is SetMode || cmd is Buzz)
}

/// Whether the HID handle is open after one step, given whether it was
/// before: it opens on `DialConnected` out of `Idle` and closes on
/// `DialDisconnected` out of `Connected`, exactly as the step's `Open`
/// and `Close` actions say.
pub open spec fn spec_handle_open_after(
    open: bool,
    state: HapticsWorkerState,
    cmd: HapticsCommand,
) -> bool {
    if state is Idle && cmd is DialConnected {
        true
    } else if state is Connected && cmd is DialDisconnected {
        false
    } else {
        open
    }
}

/// Whether the HID handle is open after a whole command sequence.
pub open spec fn spec_handle_open_run(
    open: bool,
    state: HapticsWorkerState,
    cmds: Seq<HapticsCommand>,
) -> bool
    decreases cmds.len(),
{
    if cmds.len() == 0 {
        open
    } else {
        spec_handle_open_run(
            spec_handle_open_after(open, state, cmds[0]),
            spec_haptics_state_after(state, cmds[0]),
            cmds.drop_first(),
        )
    }
}

/// The handle is open exactly while the worker is `Connected`, in every
/// run that starts consistent.
proof fn lemma_handle_tracks_state(
    open: bool,
    state: HapticsWorkerState,
    cmds: Seq<HapticsCommand>,
)
    requires
        open == (state is Connected),
    ensures
        spec_handle_open_run(open, state, cmds) == (spec_haptics_run(state, cmds) is Connected),
    decreases cmds.len(),
{
    if cmds.len() > 0 {
        lemma_handle_tracks_state(
            spec_handle_open_after(open, state, cmds[0]),
            spec_haptics_state_after(state, cmds[0]),
            cmds.drop_first(),
        );
    }
}

/// The worker never writes to a closed HID handle: in any run that
/// starts `Idle` with the handle closed, whenever a command is about to
/// be served with a feature report or an output report, the handle is
/// open. (Commands other than `DialConnected` arriving while `Idle` are
/// dropped without any HID action, by `DialHapticsWorker::step`.)
pub proof fn lemma_haptics_never_writes_closed(cmds: Seq<HapticsCommand>, i: int)
    requires
        0 <= i < cmds.len(),
        spec_haptics_step_writes(spec_haptics_run(HapticsWorkerState::Idle, cmds.take(i)), cmds[i]),
    ensures
        spec_handle_open_run(false, HapticsWorkerState::Idle, cmds.take(i)),
{
    lemma_handle_tracks_state(false, HapticsWorkerState::Idle, cmds.take(i));
}

} // verus!
