//! The controller: mode descriptors, the meta-mode that selects modes,
//! and the dispatch state machine that drives everything.

use vstd::prelude::*;

use crate::controls::Mode;
use crate::effects::{Effects, EffectsSpec, NoticeAction, NoticeSpec};
use crate::event::{DialEvent, DialEventKind};
use crate::haptics::HapticsCommand;
use vstd::arithmetic::div_mod::{
    lemma_add_mod_noop_right, lemma_mod_multiples_vanish, lemma_small_mod,
};
use vstd::string::StringExecFns;

verus! {

/// The immutable descriptor of a control mode.
pub struct ControlModeMeta {
    /// Mode name, as displayed in the meta-mode selection menu.
    pub name: String,
    /// Mode icon: a freedesktop icon name or a file URI.
    pub icon: String,
    /// Whether the dial buzzes automatically at each subdivision.
    pub haptics: bool,
    /// How many subdivisions the dial is divided into (0 to 3600).
    pub steps: u16,
}

/// The mathematical image of a [`ControlModeMeta`].
#[verifier::ext_equal]
pub struct ControlModeMetaSpec {
    pub name: Seq<char>,
    pub icon: Seq<char>,
    pub haptics: bool,
    pub steps: u16,
}

impl View for ControlModeMeta {
    type V = ControlModeMetaSpec;

    open spec fn view(&self) -> ControlModeMetaSpec {
        ControlModeMetaSpec {
            name: self.name@,
            icon: self.icon@,
            haptics: self.haptics,
            steps: self.steps,
        }
    }
}

impl DeepView for ControlModeMeta {
    type V = ControlModeMetaSpec;

    open spec fn deep_view(&self) -> ControlModeMetaSpec {
        self.view()
    }
}

/// Which mode receives events: an installed mode, or the meta-mode that
/// selects one.
#[derive(Clone, Copy, Debug, PartialEq, Eq, Structural)]
pub enum ActiveMode {
    Normal(usize),
    Meta,
}

/// The index after one meta-mode dial step: a positive delta moves up by
/// one, anything else down by one, wrapping in both directions over the
/// `n` installed modes.
pub open spec fn spec_meta_next(c: int, delta: i32, n: int) -> int {
    let stepped: int = if delta > 0 {
        c + 1
    } else if c == 0 {
        n - 1
    } else {
        c - 1
    };
    stepped % n
}

/// The mathematical image of the meta-mode state.
#[verifier::ext_equal]
pub struct MetaSpec {
    pub metas: Seq<ControlModeMetaSpec>,
    pub current: int,
    pub first_release: bool,
    pub notif_open: bool,
}

impl MetaSpec {
    /// The candidate index stays within the installed modes.
    pub open spec fn wf(self) -> bool {
        self.metas.len() > 0 && 0 <= self.current < self.metas.len()
    }

    /// The notification body announcing meta-mode, naming the mode the
    /// selection starts from.
    pub open spec fn spec_enter_body(self) -> Seq<char> {
        "Entered Meta Mode (From Mode: "@ + self.metas[self.current].name + ")"@
    }

    /// Entering meta-mode arms the swallow of the long-press's release
    /// and opens the selection notification.
    pub open spec fn spec_after_start(self) -> MetaSpec {
        MetaSpec { first_release: true, notif_open: true, ..self }
    }

    /// What entering meta-mode emits: the resident notification, one
    /// buzz, and meta-mode's own haptic profile (automatic buzzing over
    /// 36 subdivisions).
    pub open spec fn spec_start_fx(self) -> EffectsSpec {
        EffectsSpec {
            notices: seq![
                NoticeSpec::Open { body: self.spec_enter_body(), icon: "emblem-system"@ },
            ],
            haptics: seq![
                HapticsCommand::Buzz { repeat: 1 },
                HapticsCommand::SetMode { auto_haptics: true, steps: 36 },
            ],
            ..EffectsSpec::nil()
        }
    }

    /// A release either is the long-press's own trailing release, which
    /// is swallowed, or commits the selection and closes the
    /// notification.
    pub open spec fn spec_after_release(self) -> MetaSpec {
        if self.first_release {
            MetaSpec { first_release: false, ..self }
        } else {
            MetaSpec { notif_open: false, ..self }
        }
    }

    /// What a release emits: nothing for the swallowed first release;
    /// for a commit, the selected index goes to the mailbox and the
    /// config store, the notification closes, and the dial buzzes once.
    pub open spec fn spec_release_fx(self) -> EffectsSpec {
        if self.first_release {
            EffectsSpec::nil()
        } else {
            EffectsSpec {
                select_mode: Some(self.current),
                save_mode: Some(self.current),
                notices: if self.notif_open {
                    seq![NoticeSpec::Close]
                } else {
                    Seq::empty()
                },
                haptics: seq![HapticsCommand::Buzz { repeat: 1 }],
                ..EffectsSpec::nil()
            }
        }
    }

    /// A dial step moves the candidate index, wrapping around.
    pub open spec fn spec_after_dial(self, delta: i32) -> MetaSpec {
        MetaSpec { current: spec_meta_next(self.current, delta, self.metas.len() as int), ..self }
    }

    /// What a dial step emits: the open notification is retargeted at
    /// the new candidate's name and icon.
    pub open spec fn spec_dial_fx(self, delta: i32) -> EffectsSpec {
        let c = spec_meta_next(self.current, delta, self.metas.len() as int);
        if self.notif_open {
            EffectsSpec {
                notices: seq![
                    NoticeSpec::Update {
                        body: "New Mode: "@ + self.metas[c].name,
                        icon: self.metas[c].icon,
                    },
                ],
                ..EffectsSpec::nil()
            }
        } else {
            EffectsSpec::nil()
        }
    }
}

/// The mode that selects modes: its dial steps through the installed
/// descriptors, its button release commits the candidate.
pub struct MetaMode {
    /// The descriptors of the installed modes, in order.
    pub metas: Vec<ControlModeMeta>,
    /// The candidate index; it persists across meta-mode sessions.
    pub current_mode: usize,
    /// Whether the next release is the long-press's own and must be
    /// swallowed.
    pub first_release: bool,
    /// Whether the selection notification is showing.
    pub notif_open: bool,
}

impl View for MetaMode {
    type V = MetaSpec;

    open spec fn view(&self) -> MetaSpec {
        MetaSpec {
            metas: self.metas.deep_view(),
            current: self.current_mode as int,
            first_release: self.first_release,
            notif_open: self.notif_open,
        }
    }
}

impl MetaMode {
    /// A fresh meta-mode over the installed descriptors, starting its
    /// selection at `current_mode`.
    pub fn new(current_mode: usize, metas: Vec<ControlModeMeta>) -> (r: MetaMode)
        ensures
            r@ == (MetaSpec {
                metas: metas.deep_view(),
                current: current_mode as int,
                first_release: true,
                notif_open: false,
            }),
    {
        let r = MetaMode { metas, current_mode, first_release: true, notif_open: false };
        proof {
            assert(r@ =~= MetaSpec {
                metas: r.metas.deep_view(),
                current: current_mode as int,
                first_release: true,
                notif_open: false,
            });
        }
        r
    }

    /// Enters meta-mode: opens the notification and announces itself.
    pub fn on_start(&mut self) -> (fx: Effects)
        requires
            old(self)@.wf(),
        ensures
            final(self)@ == old(self)@.spec_after_start(),
            fx@ == old(self)@.spec_start_fx(),
    {
        let mut body = "Entered Meta Mode (From Mode: ".to_owned();
        body.append(self.metas[self.current_mode].name.as_str());
        body.append(")");
        let mut fx = Effects::nil();
        fx.notices.push(NoticeAction::Open { body, icon: "emblem-system".to_owned() });
        fx.haptics.push(HapticsCommand::Buzz { repeat: 1 });
        fx.haptics.push(HapticsCommand::SetMode { auto_haptics: true, steps: 36 });
        self.first_release = true;
        self.notif_open = true;
        proof {
            assert(self@ =~= old(self)@.spec_after_start());
            assert(fx@ =~= old(self)@.spec_start_fx());
        }
        fx
    }

    /// The button going down means nothing to meta-mode.
    pub fn on_btn_press(&mut self) -> (fx: Effects)
        ensures
            final(self)@ == old(self)@,
            fx@ == EffectsSpec::nil(),
    {
        Effects::nil()
    }

    /// The button coming up: swallow the long-press's own release, or
    /// commit the candidate.
    pub fn on_btn_release(&mut self) -> (fx: Effects)
        ensures
            final(self)@ == old(self)@.spec_after_release(),
            fx@ == old(self)@.spec_release_fx(),
    {
        let mut fx = Effects::nil();
        if self.first_release {
            self.first_release = false;
        } else {
            fx.select_mode = Some(self.current_mode);
            fx.save_mode = Some(self.current_mode);
            if self.notif_open {
                fx.notices.push(NoticeAction::Close);
                self.notif_open = false;
            }
            fx.haptics.push(HapticsCommand::Buzz { repeat: 1 });
        }
        proof {
            assert(self@ =~= old(self)@.spec_after_release());
            assert(fx@ =~= old(self)@.spec_release_fx());
        }
        fx
    }

    /// A dial step: move the candidate and retarget the notification.
    pub fn on_dial(&mut self, delta: i32) -> (fx: Effects)
        requires
            old(self)@.wf(),
        ensures
            final(self)@ == old(self)@.spec_after_dial(delta),
            final(self)@.wf(),
            fx@ == old(self)@.spec_dial_fx(delta),
    {
        let n = self.metas.len();
        if delta > 0 {
            self.current_mode = self.current_mode + 1;
        } else {
            if self.current_mode == 0 {
                self.current_mode = n - 1;
            } else {
                self.current_mode = self.current_mode - 1;
            }
        }
        self.current_mode = self.current_mode % n;
        let mut fx = Effects::nil();
        if self.notif_open {
            let mut body = "New Mode: ".to_owned();
            body.append(self.metas[self.current_mode].name.as_str());
            let icon = self.metas[self.current_mode].icon.clone();
            fx.notices.push(NoticeAction::Update { body, icon });
        }
        proof {
            assert(self@ =~= old(self)@.spec_after_dial(delta));
            assert(fx@ =~= old(self)@.spec_dial_fx(delta));
        }
        fx
    }
}

/// The mathematical image of the controller.
#[verifier::ext_equal]
pub struct ControllerSpec {
    pub modes: Seq<Mode>,
    pub active: ActiveMode,
    pub pending: Option<int>,
    pub meta: MetaSpec,
}

impl ControllerSpec {
    /// Indices in range, descriptors matching the modes, per-mode state
    /// within bounds; and while meta-mode is receiving events with no
    /// commit pending, its selection notification is showing (only a
    /// commit closes it, and a commit fills the mailbox).
    pub open spec fn wf(self) -> bool {
        &&& self.modes.len() > 0
        &&& self.meta.metas.len() == self.modes.len()
        &&& 0 <= self.meta.current < self.modes.len()
        &&& (self.active matches ActiveMode::Normal(i) ==> i < self.modes.len())
        &&& (self.pending matches Some(k) ==> 0 <= k < self.modes.len())
        &&& (forall|i: int|
            0 <= i < self.modes.len() ==> (#[trigger] self.modes[i]).wf())
        &&& (forall|i: int|
            0 <= i < self.modes.len() ==> #[trigger] self.meta.metas[i]
                == self.modes[i].spec_meta())
        &&& (self.active is Meta && self.pending is None ==> self.meta.notif_open)
    }

    /// Phase one of a dispatch iteration: an index left in the mailbox
    /// becomes the active mode and the mailbox empties.
    pub open spec fn spec_consumed(self) -> ControllerSpec {
        match self.pending {
            Some(k) => ControllerSpec {
                active: ActiveMode::Normal(k as usize),
                pending: None,
                modes: self.modes.update(k, self.modes[k].spec_after_start()),
                ..self
            },
            None => self,
        }
    }

    /// What phase one emits: the new mode's haptic profile, then its
    /// entry work.
    pub open spec fn spec_consume_fx(self) -> EffectsSpec {
        match self.pending {
            Some(k) => EffectsSpec {
                haptics: seq![self.modes[k].spec_profile_cmd()],
                ..EffectsSpec::nil()
            }.followed_by(self.modes[k].spec_start_fx()),
            None => EffectsSpec::nil(),
        }
    }

    /// Phase two: the event goes to the active mode. A long press leaves
    /// the current mode and enters meta-mode; a commit in meta-mode
    /// fills the mailbox.
    pub open spec fn spec_dispatched(self, kind: DialEventKind) -> ControllerSpec {
        match kind {
            DialEventKind::Ignored => self,
            DialEventKind::Connect => match self.active {
                ActiveMode::Normal(i) => ControllerSpec {
                    modes: self.modes.update(i as int, self.modes[i as int].spec_after_start()),
                    ..self
                },
                ActiveMode::Meta => ControllerSpec { meta: self.meta.spec_after_start(), ..self },
            },
            DialEventKind::Disconnect => self,
            DialEventKind::ButtonPress => self,
            DialEventKind::ButtonRelease => match self.active {
                ActiveMode::Normal(_) => self,
                ActiveMode::Meta => ControllerSpec {
                    meta: self.meta.spec_after_release(),
                    pending: if self.meta.first_release {
                        self.pending
                    } else {
                        Some(self.meta.current)
                    },
                    ..self
                },
            },
            DialEventKind::Dial(delta) => match self.active {
                ActiveMode::Normal(i) => ControllerSpec {
                    modes: self.modes.update(
                        i as int,
                        self.modes[i as int].spec_after_dial(delta),
                    ),
                    ..self
                },
                ActiveMode::Meta => ControllerSpec {
                    meta: self.meta.spec_after_dial(delta),
                    ..self
                },
            },
            DialEventKind::ButtonLongPress => match self.active {
                ActiveMode::Normal(_) => ControllerSpec {
                    active: ActiveMode::Meta,
                    meta: self.meta.spec_after_start(),
                    ..self
                },
                ActiveMode::Meta => self,
            },
        }
    }

    /// What phase two emits.
    pub open spec fn spec_dispatch_fx(self, kind: DialEventKind) -> EffectsSpec {
        match kind {
            DialEventKind::Ignored => EffectsSpec::nil(),
            DialEventKind::Connect => match self.active {
                ActiveMode::Normal(i) => EffectsSpec {
                    haptics: seq![self.modes[i as int].spec_profile_cmd()],
                    ..EffectsSpec::nil()
                }.followed_by(self.modes[i as int].spec_start_fx()),
                ActiveMode::Meta => self.meta.spec_start_fx(),
            },
            DialEventKind::Disconnect => match self.active {
                ActiveMode::Normal(i) => self.modes[i as int].spec_end_fx(),
                ActiveMode::Meta => EffectsSpec::nil(),
            },
            DialEventKind::ButtonPress => match self.active {
                ActiveMode::Normal(i) => self.modes[i as int].spec_press_fx(),
                ActiveMode::Meta => EffectsSpec::nil(),
            },
            DialEventKind::ButtonRelease => match self.active {
                ActiveMode::Normal(i) => self.modes[i as int].spec_release_fx(),
                ActiveMode::Meta => self.meta.spec_release_fx(),
            },
            DialEventKind::Dial(delta) => match self.active {
                ActiveMode::Normal(i) => self.modes[i as int].spec_dial_fx(delta),
                ActiveMode::Meta => self.meta.spec_dial_fx(delta),
            },
            DialEventKind::ButtonLongPress => match self.active {
                ActiveMode::Normal(i) => self.modes[i as int].spec_end_fx().followed_by(
                    self.meta.spec_start_fx(),
                ),
                ActiveMode::Meta => EffectsSpec::nil(),
            },
        }
    }

    /// A whole dispatch iteration: consume the mailbox, then dispatch.
    pub open spec fn spec_step(self, kind: DialEventKind) -> ControllerSpec {
        self.spec_consumed().spec_dispatched(kind)
    }

    /// What a whole iteration hands to the outside world. A committed
    /// selection stays in the controller's mailbox, so the returned
    /// effects never carry one.
    pub open spec fn spec_step_fx(self, kind: DialEventKind) -> EffectsSpec {
        EffectsSpec {
            select_mode: None,
            ..self.spec_consume_fx().followed_by(self.spec_consumed().spec_dispatch_fx(kind))
        }
    }
}

/// A mode's descriptor, and with it its haptic profile and whether its
/// state is within bounds, survives every mode transition.
proof fn lemma_mode_transitions_stable(m: Mode, delta: i32)
    ensures
        m.spec_after_start().spec_meta() == m.spec_meta(),
        m.spec_after_dial(delta).spec_meta() == m.spec_meta(),
        m.spec_after_start().wf(),
        m.wf() ==> m.spec_after_dial(delta).wf(),
{
}

/// Delivering `Connect` runs the current mode's entry work exactly once:
/// the step's effects are precisely the mode's haptic profile followed
/// by its `on_start` emissions, and an `Ignored` event (the only kind
/// between kernel reports) emits nothing at all.
///
/// The lemma asks for an empty pending-mode mailbox: an iteration that
/// consumes a committed selection runs that mode's entry work for the
/// consumption as well, so a `Connect` arriving in the same iteration
/// starts the mode twice.
pub proof fn lemma_connect_runs_on_start(c: ControllerSpec, i: usize)
    requires
        c.wf(),
        c.pending is None,
        c.active == ActiveMode::Normal(i),
    ensures
        c.spec_step_fx(DialEventKind::Connect) == (EffectsSpec {
            haptics: seq![c.modes[i as int].spec_profile_cmd()],
            ..EffectsSpec::nil()
        }).followed_by(c.modes[i as int].spec_start_fx()),
        c.spec_step(DialEventKind::Connect).active == c.active,
        c.spec_step_fx(DialEventKind::Ignored) == EffectsSpec::nil(),
{
    assert(c.spec_step_fx(DialEventKind::Connect) =~= (EffectsSpec {
        haptics: seq![c.modes[i as int].spec_profile_cmd()],
        ..EffectsSpec::nil()
    }).followed_by(c.modes[i as int].spec_start_fx()));
    assert(c.spec_step_fx(DialEventKind::Ignored) =~= EffectsSpec::nil());
}

/// The pending-mode mailbox holds at most one value by construction,
/// and a value left there is consumed by exactly one iteration: that
/// iteration activates the selected mode, applies its haptic profile,
/// runs its entry work, and leaves the mailbox empty (no event
/// dispatched from a normal mode can refill it).
pub proof fn lemma_mailbox_consumed_exactly_once(c: ControllerSpec, k: int, kind: DialEventKind)
    requires
        c.wf(),
        c.pending == Some(k),
    ensures
        c.spec_consumed().active == ActiveMode::Normal(k as usize),
        c.spec_consumed().pending is None,
        c.spec_consume_fx() == (EffectsSpec {
            haptics: seq![c.modes[k].spec_profile_cmd()],
            ..EffectsSpec::nil()
        }).followed_by(c.modes[k].spec_start_fx()),
        c.spec_step(kind).pending is None,
{
    assert(c.spec_consume_fx() =~= (EffectsSpec {
        haptics: seq![c.modes[k].spec_profile_cmd()],
        ..EffectsSpec::nil()
    }).followed_by(c.modes[k].spec_start_fx()));
}

/// Meta-mode's candidate index after `k` positive dial steps.
pub open spec fn spec_meta_dial_iter(m: MetaSpec, k: nat) -> MetaSpec
    decreases k,
{
    if k == 0 {
        m
    } else {
        spec_meta_dial_iter(m, (k - 1) as nat).spec_after_dial(1)
    }
}

/// After `k` positive dial steps the candidate has moved `k` places,
/// modulo the number of installed modes.
proof fn lemma_meta_dial_iter_current(m: MetaSpec, k: nat)
    requires
        m.wf(),
    ensures
        spec_meta_dial_iter(m, k).metas == m.metas,
        spec_meta_dial_iter(m, k).current == (m.current + k) % (m.metas.len() as int),
    decreases k,
{
    let n = m.metas.len() as int;
    if k == 0 {
        lemma_small_mod(m.current as nat, m.metas.len());
    } else {
        lemma_meta_dial_iter_current(m, (k - 1) as nat);
        let prev = spec_meta_dial_iter(m, (k - 1) as nat);
        assert(prev.current == (m.current + k - 1) % n);
        lemma_add_mod_noop_right(1, m.current + k - 1, n);
        assert((1 + (m.current + k - 1) % n) % n == (m.current + k) % n);
    }
}

/// Meta-mode's dial traversal is a bijection on the mode indices:
/// starting anywhere, as many positive steps as there are modes come
/// back to the start.
pub proof fn lemma_meta_traversal_bijection(m: MetaSpec)
    requires
        m.wf(),
    ensures
        spec_meta_dial_iter(m, m.metas.len()).current == m.current,
{
    let n = m.metas.len() as int;
    lemma_meta_dial_iter_current(m, m.metas.len());
    lemma_mod_multiples_vanish(1, m.current, n);
    lemma_small_mod(m.current as nat, m.metas.len());
}

/// The controller: it owns the installed modes, the active-mode
/// selector, the pending-mode mailbox, and the meta-mode.
///
/// The caller runs the loop: it waits for the next dial event and hands
/// it to [`DialController::step`], then performs the returned effects.
pub struct DialController {
    /// The installed modes, in menu order.
    pub modes: Vec<Mode>,
    /// Who receives events.
    pub active_mode: ActiveMode,
    /// The pending-mode mailbox: at most one selected index, written by
    /// meta-mode's commit and consumed at the top of the next iteration.
    pub new_mode: Option<usize>,
    /// The mode that selects modes.
    pub meta_mode: MetaMode,
}

impl View for DialController {
    type V = ControllerSpec;

    open spec fn view(&self) -> ControllerSpec {
        ControllerSpec {
            modes: self.modes@,
            active: self.active_mode,
            pending: match self.new_mode {
                Some(k) => Some(k as int),
                None => None,
            },
            meta: self.meta_mode@,
        }
    }
}

impl DialController {
    /// Builds a controller over the given modes, starting in the mode
    /// the config named. The meta-mode selection starts at the first
    /// mode.
    pub fn new(initial_mode: usize, modes: Vec<Mode>) -> (r: DialController)
        requires
            modes@.len() > 0,
            initial_mode < modes@.len(),
            forall|i: int| 0 <= i < modes@.len() ==> (#[trigger] modes@[i]).wf(),
        ensures
            r@.wf(),
            r@.modes == modes@,
            r@.active == ActiveMode::Normal(initial_mode),
            r@.pending is None,
            r@.meta.current == 0,
            r@.meta.first_release,
            !r@.meta.notif_open,
    {
        let mut metas: Vec<ControlModeMeta> = Vec::new();
        let mut i: usize = 0;
        while i < modes.len()
            invariant
                i <= modes@.len(),
                metas.deep_view().len() == i as int,
                forall|j: int|
                    0 <= j < i ==> metas.deep_view()[j] == (#[trigger] modes@[j]).spec_meta(),
            decreases modes@.len() - i,
        {
            let m = modes[i].meta();
            metas.push(m);
            i = i + 1;
        }
        let r = DialController {
            modes,
            active_mode: ActiveMode::Normal(initial_mode),
            new_mode: None,
            meta_mode: MetaMode::new(0, metas),
        };
        r
    }

    /// On startup the controller runs the active mode's entry work once
    /// before any event arrives.
    pub fn start(&mut self) -> (fx: Effects)
        requires
            old(self)@.wf(),
            old(self)@.active matches ActiveMode::Normal(_),
        ensures
            final(self)@.wf(),
            ({
                let i = old(self)@.active->Normal_0 as int;
                &&& final(self)@ == (ControllerSpec {
                    modes: old(self)@.modes.update(i, old(self)@.modes[i].spec_after_start()),
                    ..old(self)@
                })
                &&& fx@ == old(self)@.modes[i].spec_start_fx()
            }),
    {
        let i = match self.active_mode {
            ActiveMode::Normal(i) => i,
            ActiveMode::Meta => 0,
        };
        let mut m = self.modes[i];
        let fx = m.on_start();
        self.modes.set(i, m);
        proof {
            let iv = i as int;
            lemma_mode_transitions_stable(old(self)@.modes[iv], 0);
            assert(self@ =~= ControllerSpec {
                modes: old(self)@.modes.update(iv, old(self)@.modes[iv].spec_after_start()),
                ..old(self)@
            });
        }
        fx
    }

    /// One dispatch iteration.
    ///
    /// First, an index left in the mailbox by meta-mode is consumed: it
    /// becomes the active mode, its haptic profile is applied and its
    /// entry work runs — so each committed selection is honoured by
    /// exactly one iteration. Then the event is dispatched: `Ignored`
    /// does nothing; `Connect` re-applies the active mode's profile and
    /// entry work; `Disconnect` runs its exit work; presses, releases
    /// and dial steps go to its callbacks; a long press leaves the
    /// active mode and enters meta-mode, which announces itself.
    pub fn step(&mut self, evt: DialEvent) -> (fx: Effects)
        requires
            old(self)@.wf(),
        ensures
            final(self)@.wf(),
            final(self)@ == old(self)@.spec_step(evt.kind),
            fx@ == old(self)@.spec_step_fx(evt.kind),
    {
        let mut fx = Effects::nil();

        // Consume the pending-mode mailbox.
        if let Some(k) = self.new_mode {
            self.new_mode = None;
            self.active_mode = ActiveMode::Normal(k);
            let mut m = self.modes[k];
            let meta = m.meta();
            fx.haptics.push(
                HapticsCommand::SetMode { auto_haptics: meta.haptics, steps: meta.steps },
            );
            let mut sfx = m.on_start();
            self.modes.set(k, m);
            fx.push_all(&mut sfx);
            proof {
                lemma_mode_transitions_stable(old(self)@.modes[k as int], 0);
                assert(self@ =~= old(self)@.spec_consumed());
                assert(fx@ =~= old(self)@.spec_consume_fx());
            }
        }
        proof {
            assert(self@ =~= old(self)@.spec_consumed());
            assert(fx@ =~= old(self)@.spec_consume_fx());
        }

        let ghost mid = old(self)@.spec_consumed();

        // Dispatch the event to the active mode.
        let mut dfx = match evt.kind {
            DialEventKind::Ignored => Effects::nil(),
            DialEventKind::Connect => {
                match self.active_mode {
                    ActiveMode::Normal(i) => {
                        let mut m = self.modes[i];
                        let meta = m.meta();
                        let mut cfx = Effects::nil();
                        cfx.haptics.push(
                            HapticsCommand::SetMode {
                                auto_haptics: meta.haptics,
                                steps: meta.steps,
                            },
                        );
                        let mut sfx = m.on_start();
                        self.modes.set(i, m);
                        cfx.push_all(&mut sfx);
                        cfx
                    },
                    ActiveMode::Meta => self.meta_mode.on_start(),
                }
            },
            DialEventKind::Disconnect => {
                match self.active_mode {
                    ActiveMode::Normal(i) => {
                        let mut m = self.modes[i];
                        let efx = m.on_end();
                        self.modes.set(i, m);
                        efx
                    },
                    ActiveMode::Meta => Effects::nil(),
                }
            },
            DialEventKind::ButtonPress => {
                match self.active_mode {
                    ActiveMode::Normal(i) => {
                        let mut m = self.modes[i];
                        let pfx = m.on_btn_press();
                        self.modes.set(i, m);
                        pfx
                    },
                    ActiveMode::Meta => self.meta_mode.on_btn_press(),
                }
            },
            DialEventKind::ButtonRelease => {
                match self.active_mode {
                    ActiveMode::Normal(i) => {
                        let mut m = self.modes[i];
                        let rfx = m.on_btn_release();
                        self.modes.set(i, m);
                        rfx
                    },
                    ActiveMode::Meta => self.meta_mode.on_btn_release(),
                }
            },
            DialEventKind::Dial(delta) => {
                match self.active_mode {
                    ActiveMode::Normal(i) => {
                        let mut m = self.modes[i];
                        let dlfx = m.on_dial(delta);
                        self.modes.set(i, m);
                        dlfx
                    },
                    ActiveMode::Meta => self.meta_mode.on_dial(delta),
                }
            },
            DialEventKind::ButtonLongPress => {
                match self.active_mode {
                    ActiveMode::Normal(i) => {
                        let mut m = self.modes[i];
                        let mut efx = m.on_end();
                        self.modes.set(i, m);
                        self.active_mode = ActiveMode::Meta;
                        let mut sfx = self.meta_mode.on_start();
                        efx.push_all(&mut sfx);
                        efx
                    },
                    ActiveMode::Meta => Effects::nil(),
                }
            },
        };
        proof {
            assert(dfx@ =~= mid.spec_dispatch_fx(evt.kind));
        }

        // A committed selection moves into the mailbox; the outside
        // world never sees it.
        if let Some(k) = dfx.select_mode {
            self.new_mode = Some(k);
            dfx.select_mode = None;
        }
        fx.push_all(&mut dfx);

        proof {
            match evt.kind {
                DialEventKind::Dial(d) => match mid.active {
                    ActiveMode::Normal(i) => {
                        lemma_mode_transitions_stable(mid.modes[i as int], d);
                    },
                    ActiveMode::Meta => {},
                },
                _ => {},
            }
            assert(self@ =~= old(self)@.spec_step(evt.kind));
            assert(fx@ =~= old(self)@.spec_step_fx(evt.kind));
        }
        fx
    }
}

} // verus!
