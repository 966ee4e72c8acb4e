//! Raw kernel input events and their normalization into dial events.

use vstd::prelude::*;

use crate::error::Error;

verus! {

// Event type codes of the Linux input ABI.
pub const EV_SYN: u16 = 0;
pub const EV_KEY: u16 = 1;
pub const EV_REL: u16 = 2;
pub const EV_ABS: u16 = 3;
pub const EV_MSC: u16 = 4;

/// Event code of the synchronization marker that ends every report.
pub const SYN_REPORT: u16 = 0;

/// Key code of the dial's push button.
pub const BTN_0: u16 = 256;

/// Relative-axis code of the dial's rotation.
pub const REL_DIAL: u16 = 7;

/// A kernel timestamp, carried through unchanged.
#[derive(Clone, Copy, Debug, PartialEq, Eq, Structural)]
pub struct EventTime {
    pub tv_sec: i64,
    pub tv_usec: i64,
}

/// A raw evdev event, reduced to the plain values the engine reads.
#[derive(Clone, Copy, Debug, PartialEq, Eq, Structural)]
pub struct RawEvent {
    pub time: EventTime,
    pub etype: u16,
    pub code: u16,
    pub value: i32,
}

/// A normalized dial event.
#[derive(Clone, Copy, Debug, PartialEq, Eq, Structural)]
pub struct DialEvent {
    pub time: EventTime,
    pub kind: DialEventKind,
}

/// What a normalized dial event means.
///
/// `Connect`, `Disconnect` and `ButtonLongPress` are synthetic: they are
/// produced by the session bracketing and the long-press timer, never by
/// the dial itself.
#[derive(Clone, Copy, Debug, PartialEq, Eq, Structural)]
pub enum DialEventKind {
    Connect,
    Disconnect,
    Ignored,
    ButtonPress,
    ButtonRelease,
    Dial(i32),
    ButtonLongPress,
}

/// The normalization table: synchronization and miscellaneous events are
/// ignored; the dial button maps to press/release; rotation maps to
/// `Dial(delta)`; everything else is unclassifiable (`None`).
pub open spec fn spec_normalize(evt: RawEvent) -> Option<DialEventKind> {
    if evt.etype == EV_SYN || evt.etype == EV_MSC {
        Some(DialEventKind::Ignored)
    } else if evt.etype == EV_KEY {
        if evt.code == BTN_0 {
            if evt.value == 0 {
                Some(DialEventKind::ButtonRelease)
            } else if evt.value == 1 {
                Some(DialEventKind::ButtonPress)
            } else {
                None
            }
        } else {
            None
        }
    } else if evt.etype == EV_REL {
        if evt.code == REL_DIAL {
            Some(DialEventKind::Dial(evt.value))
        } else {
            None
        }
    } else {
        None
    }
}

impl DialEvent {
    /// Maps a raw kernel event to a dial event, keeping its timestamp;
    /// `None` on anything outside the normalization table.
    pub fn from_raw_evt(evt: &RawEvent) -> (r: Option<DialEvent>)
        ensures
            match r {
                Some(d) => spec_normalize(*evt) == Some(d.kind) && d.time == evt.time,
                None => spec_normalize(*evt) is None,
            },
    {
        let kind = if evt.etype == EV_SYN || evt.etype == EV_MSC {
            DialEventKind::Ignored
        } else if evt.etype == EV_KEY && evt.code == BTN_0 && evt.value == 0 {
            DialEventKind::ButtonRelease
        } else if evt.etype == EV_KEY && evt.code == BTN_0 && evt.value == 1 {
            DialEventKind::ButtonPress
        } else if evt.etype == EV_REL && evt.code == REL_DIAL {
            DialEventKind::Dial(evt.value)
        } else {
            return None;
        };
        Some(DialEvent { time: evt.time, kind })
    }
}

/// Which of the dial's two input channels a device node belongs to.
#[derive(Clone, Copy, Debug, PartialEq, Eq, Structural)]
pub enum DialInputKind {
    Control,
    MultiAxis,
}

/// The kernel-reported parent device name that identifies each channel,
/// in its quoted form.
pub open spec fn spec_channel_name(kind: DialInputKind) -> Seq<char> {
    match kind {
        DialInputKind::Control => "\"Surface Dial System Control\""@,
        DialInputKind::MultiAxis => "\"Surface Dial System Multi Axis\""@,
    }
}

/// Decides whether a device with parent name `name` is the dial channel
/// `kind`. Matching is by exact string equality against the quoted name.
pub fn matches_dial_name(kind: DialInputKind, name: &String) -> (r: bool)
    ensures
        r == (name@ == spec_channel_name(kind)),
{
    let expected: String = match kind {
        DialInputKind::Control => "\"Surface Dial System Control\"".to_owned(),
        DialInputKind::MultiAxis => "\"Surface Dial System Multi Axis\"".to_owned(),
    };
    *name == expected
}

/// Only the Multi-Axis channel brackets its sessions with `Connect` and
/// `Disconnect` markers; emitting them from both channels would duplicate
/// the synthetic events downstream.
pub fn emits_session_markers(kind: DialInputKind) -> (r: bool)
    ensures
        r == (kind is MultiAxis),
{
    match kind {
        DialInputKind::Control => false,
        DialInputKind::MultiAxis => true,
    }
}

/// How many of the names belong to the given dial channel.
pub open spec fn spec_count_channel(kind: DialInputKind, names: Seq<Seq<char>>) -> nat
    decreases names.len(),
{
    if names.len() == 0 {
        0
    } else {
        spec_count_channel(kind, names.drop_last()) + (if names.last() == spec_channel_name(kind) {
            1nat
        } else {
            0nat
        })
    }
}

/// Counting a prefix one longer adds the new name's contribution.
proof fn lemma_count_channel_take(kind: DialInputKind, names: Seq<Seq<char>>, i: int)
    requires
        0 <= i < names.len(),
    ensures
        spec_count_channel(kind, names.take(i + 1)) == spec_count_channel(kind, names.take(i)) + (
        if names[i] == spec_channel_name(kind) {
            1nat
        } else {
            0nat
        }),
{
    assert(names.take(i + 1).drop_last() =~= names.take(i));
    assert(names.take(i + 1).last() == names[i]);
}

/// Eager discovery over the parent names of the enumerated input
/// devices, in enumeration order: returns the positions of the Control
/// and Multi-Axis nodes.
///
/// More than one device on either channel is the distinguished
/// multiple-dials error; a dial with either channel missing is the
/// missing-dial error.
pub fn discover_dial(names: &Vec<String>) -> (r: Result<(usize, usize), Error>)
    ensures
        match r {
            Ok((c, a)) => {
                &&& spec_count_channel(DialInputKind::Control, names.deep_view()) == 1
                &&& spec_count_channel(DialInputKind::MultiAxis, names.deep_view()) == 1
                &&& c < names@.len() && names@[c as int]@ == spec_channel_name(
                    DialInputKind::Control,
                )
                &&& a < names@.len() && names@[a as int]@ == spec_channel_name(
                    DialInputKind::MultiAxis,
                )
            },
            Err(Error::MultipleDials) => spec_count_channel(
                DialInputKind::Control,
                names.deep_view(),
            ) > 1 || spec_count_channel(DialInputKind::MultiAxis, names.deep_view()) > 1,
            Err(Error::MissingDial) => {
                &&& spec_count_channel(DialInputKind::Control, names.deep_view()) <= 1
                &&& spec_count_channel(DialInputKind::MultiAxis, names.deep_view()) <= 1
                &&& (spec_count_channel(DialInputKind::Control, names.deep_view()) == 0
                    || spec_count_channel(DialInputKind::MultiAxis, names.deep_view()) == 0)
            },
            Err(_) => false,
        },
{
    let ghost all = names.deep_view();
    let mut control: Option<usize> = None;
    let mut axis: Option<usize> = None;
    let mut i: usize = 0;
    while i < names.len()
        invariant
            i <= names@.len(),
            all == names.deep_view(),
            all.len() == names@.len(),
            forall|j: int| 0 <= j < all.len() ==> all[j] == names@[j]@,
            match control {
                Some(c) => c < i && all[c as int] == spec_channel_name(DialInputKind::Control)
                    && spec_count_channel(DialInputKind::Control, all.take(i as int)) == 1,
                None => spec_count_channel(DialInputKind::Control, all.take(i as int)) == 0,
            },
            match axis {
                Some(a) => a < i && all[a as int] == spec_channel_name(DialInputKind::MultiAxis)
                    && spec_count_channel(DialInputKind::MultiAxis, all.take(i as int)) == 1,
                None => spec_count_channel(DialInputKind::MultiAxis, all.take(i as int)) == 0,
            },
        decreases names@.len() - i,
    {
        proof {
            lemma_count_channel_take(DialInputKind::Control, all, i as int);
            lemma_count_channel_take(DialInputKind::MultiAxis, all, i as int);
            reveal_strlit("\"Surface Dial System Control\"");
            reveal_strlit("\"Surface Dial System Multi Axis\"");
            assert(spec_channel_name(DialInputKind::Control).len() == 29);
            assert(spec_channel_name(DialInputKind::MultiAxis).len() == 32);
        }
        if matches_dial_name(DialInputKind::Control, &names[i]) {
            if control.is_some() {
                proof {
                    lemma_count_channel_monotonic(DialInputKind::Control, all, i + 1);
                }
                return Err(Error::MultipleDials);
            }
            control = Some(i);
        } else if matches_dial_name(DialInputKind::MultiAxis, &names[i]) {
            if axis.is_some() {
                proof {
                    lemma_count_channel_monotonic(DialInputKind::MultiAxis, all, i + 1);
                }
                return Err(Error::MultipleDials);
            }
            axis = Some(i);
        }
        i = i + 1;
    }
    proof {
        assert(all.take(names@.len() as int) =~= all);
    }
    match (control, axis) {
        (Some(c), Some(a)) => Ok((c, a)),
        _ => Err(Error::MissingDial),
    }
}

/// A whole sequence counts at least as much as any prefix.
proof fn lemma_count_channel_monotonic(kind: DialInputKind, names: Seq<Seq<char>>, i: int)
    requires
        0 <= i <= names.len(),
    ensures
        spec_count_channel(kind, names) >= spec_count_channel(kind, names.take(i)),
    decreases names.len() - i,
{
    if i < names.len() {
        lemma_count_channel_monotonic(kind, names, i + 1);
        lemma_count_channel_take(kind, names, i);
        assert(names.take(names.len() as int) =~= names);
    } else {
        assert(names.take(i) =~= names);
    }
}

} // verus!
