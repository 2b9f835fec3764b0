//! The per-event decision step of the main loop.
//!
//! Each iteration of the cooperative main loop hands the engine exactly one
//! input — a key transition from the multiplexed device feed, a coarse
//! hotplug signal, or a cancellation — and the engine answers with the one
//! action the loop performs: request a pulse, rebuild the multiplexer, shut
//! down, or nothing. All mutable state (held keys, the enable flag, the
//! multiplexer generation) lives in the engine and is touched only through
//! this step.

use vstd::prelude::*;
use crate::actuator::PulseLine;
use crate::keys::{activation_combo_set, spec_normalize, KeyClasses, KeyState};

verus! {

/// A key transition: pressed or released.
#[derive(Clone, Copy, Debug, PartialEq, Eq, Structural)]
pub enum Transition {
    /// The key went down.
    Down,
    /// The key came up.
    Up,
}

/// One key event from the multiplexed feed, tagged with the identity of the
/// source it arrived from. Sources share one held-key set, so the tag does
/// not influence the step; it is carried for diagnostics.
#[derive(Clone, Copy, Debug, PartialEq, Eq, Structural)]
pub struct KeyEvent {
    /// Identity of the device stream the event arrived from.
    pub source: usize,
    /// The raw key code, not yet normalized.
    pub code: u16,
    /// Whether the key went down or came up.
    pub transition: Transition,
}

/// One input of a main-loop iteration.
#[derive(Clone, Copy, Debug, PartialEq, Eq, Structural)]
pub enum EngineInput {
    /// A key transition from the multiplexed device feed.
    Key(KeyEvent),
    /// A coarse "topology changed" signal; it never says which device.
    Hotplug,
    /// An interactive interrupt or termination signal.
    Cancel,
}

/// The one action the loop performs in response to an input.
#[derive(Clone, Copy, Debug, PartialEq, Eq, Structural)]
pub enum Action {
    /// Issue a non-blocking acquisition request against the actuation line.
    RequestPulse,
    /// Discard the multiplexer and rebuild it from a fresh device scan.
    Rebuild,
    /// Leave the loop and drain outstanding pulse units.
    Shutdown,
    /// Nothing to do for this input.
    Continue,
}

/// The engine state owned by the main loop.
pub struct Engine {
    /// The fixed key-classification policy.
    pub classes: KeyClasses,
    /// The held keys and the activation combination.
    pub keys: KeyState,
    /// Whether actuation is enabled; toggled by an exact combination match.
    pub plopp_active: bool,
    /// How many times the multiplexer has been (re)built. The feed the loop
    /// reads always belongs to the newest generation.
    pub generation: u64,
    /// False once a cancellation has been taken; the loop then stops.
    pub running: bool,
}

/// What a Down transition does: the normalized code joins the held set, and
/// nothing else moves — in particular, the enable flag never toggles on a
/// press.
pub open spec fn down_step(pre: Engine, post: Engine, code: u16) -> bool {
    &&& post.keys.held_keys() == pre.keys.held_keys().insert(spec_normalize(code))
    &&& post.keys.wf()
    &&& post.plopp_active == pre.plopp_active
    &&& post.classes == pre.classes
    &&& post.generation == pre.generation
    &&& post.running == pre.running
}

/// What an Up transition does: the enable flag toggles exactly when the held
/// set — still counting the key being released — equals the activation
/// combination; then the normalized code leaves the held set.
pub open spec fn up_step(pre: Engine, post: Engine, code: u16) -> bool {
    &&& post.keys.held_keys() == pre.keys.held_keys().remove(spec_normalize(code))
    &&& post.keys.wf()
    &&& post.plopp_active == (if pre.keys.held_keys() == activation_combo_set() {
        !pre.plopp_active
    } else {
        pre.plopp_active
    })
    &&& post.classes == pre.classes
    &&& post.generation == pre.generation
    &&& post.running == pre.running
}

/// What a hotplug signal does: the generation advances — the loop must
/// rebuild — and everything else is preserved. A key held across a hotplug
/// stays in the held set: the rebuild deliberately preserves entries rather
/// than clearing them, since no release was observed.
pub open spec fn rebuild_step(pre: Engine, post: Engine) -> bool {
    &&& post.keys == pre.keys
    &&& post.plopp_active == pre.plopp_active
    &&& post.classes == pre.classes
    &&& post.generation == pre.generation + 1
    &&& post.running == pre.running
}

/// What a cancellation does: the loop stops; nothing else moves.
pub open spec fn cancel_step(pre: Engine, post: Engine) -> bool {
    &&& post.keys == pre.keys
    &&& post.plopp_active == pre.plopp_active
    &&& post.classes == pre.classes
    &&& post.generation == pre.generation
    &&& !post.running
}

impl Engine {
    /// Well-formedness of the engine state.
    pub open spec fn wf(self) -> bool {
        self.keys.wf()
    }

    /// Whether a Down event for `code` issues an acquisition request:
    /// actuation must be enabled and the policy must accept the code.
    pub open spec fn fires(self, code: u16) -> bool {
        self.plopp_active && self.classes.spec_is_plopping(code)
    }

    /// A fresh engine: no key held, no rebuild yet, running, with the given
    /// policy and initial enable state.
    pub fn new(no_dead_keys: bool, start_inactive: bool) -> (r: Engine)
        ensures
            r.wf(),
            r.classes.no_dead_keys == no_dead_keys,
            r.keys.held_keys() == Set::<u16>::empty(),
            r.plopp_active == !start_inactive,
            r.generation == 0,
            r.running,
    {
        Engine {
            classes: KeyClasses::new(no_dead_keys),
            keys: KeyState::new(),
            plopp_active: !start_inactive,
            generation: 0,
            running: true,
        }
    }

    /// One main-loop decision. A Down event answers `RequestPulse` exactly
    /// when the engine fires for its code; an Up event applies the toggle
    /// rule; a hotplug signal always answers `Rebuild`; a cancellation
    /// always answers `Shutdown`.
    pub fn step(&mut self, input: EngineInput) -> (r: Action)
        requires
            old(self).wf(),
            old(self).running,
            input is Hotplug ==> old(self).generation < u64::MAX,
        ensures
            final(self).wf(),
            input matches EngineInput::Key(ev) ==> match ev.transition {
                Transition::Down => down_step(*old(self), *final(self), ev.code) && r == (
                if old(self).fires(ev.code) {
                    Action::RequestPulse
                } else {
                    Action::Continue
                }),
                Transition::Up => up_step(*old(self), *final(self), ev.code) && r
                    == Action::Continue,
            },
            input is Hotplug ==> rebuild_step(*old(self), *final(self)) && r == Action::Rebuild,
            input is Cancel ==> cancel_step(*old(self), *final(self)) && r == Action::Shutdown,
            r is RequestPulse ==> old(self).plopp_active,
    {
        match input {
            EngineInput::Key(ev) => match ev.transition {
                Transition::Down => {
                    let fire = self.plopp_active && self.classes.is_plopping(ev.code);
                    self.keys.insert(ev.code);
                    if fire {
                        Action::RequestPulse
                    } else {
                        Action::Continue
                    }
                },
                Transition::Up => {
                    if self.keys.is_activation_combo() {
                        self.plopp_active = !self.plopp_active;
                    }
                    self.keys.remove(ev.code);
                    Action::Continue
                },
            },
            EngineInput::Hotplug => {
                self.generation = self.generation + 1;
                Action::Rebuild
            },
            EngineInput::Cancel => {
                self.running = false;
                Action::Shutdown
            },
        }
    }
}

/// What became of one key event's acquisition request.
#[derive(Clone, Copy, Debug, PartialEq, Eq, Structural)]
pub enum PulseOutcome {
    /// The request was granted; a pulse unit is now running.
    Fired,
    /// The line was busy; the request was dropped.
    Busy,
    /// No request was issued for this event.
    Skipped,
}

/// One main-loop iteration for a key event, wired to the actuation line:
/// apply the decision step, and issue the non-blocking acquisition request
/// exactly when the step asks for a pulse. A Down event while actuation is
/// disabled — and any event that issues no request — leaves the line exactly
/// as it was.
pub fn handle_key(engine: &mut Engine, line: &mut PulseLine, ev: KeyEvent, now: u64) -> (r:
    PulseOutcome)
    requires
        old(engine).wf(),
        old(engine).running,
    ensures
        final(engine).wf(),
        match ev.transition {
            Transition::Down => down_step(*old(engine), *final(engine), ev.code),
            Transition::Up => up_step(*old(engine), *final(engine), ev.code),
        },
        ev.transition is Down && old(engine).fires(ev.code) ==> (if old(line).busy_at(now) {
            r is Busy && *final(line) == *old(line)
        } else {
            r is Fired && *final(line) == old(line).after_grant(now)
        }),
        !(ev.transition is Down && old(engine).fires(ev.code)) ==> r is Skipped && *final(line)
            == *old(line),
        !old(engine).plopp_active ==> r is Skipped && *final(line) == *old(line),
{
    let action = engine.step(EngineInput::Key(ev));
    match action {
        Action::RequestPulse => {
            if line.request(now) {
                PulseOutcome::Fired
            } else {
                PulseOutcome::Busy
            }
        },
        _ => PulseOutcome::Skipped,
    }
}

/// The enable flag toggles if and only if an Up transition finds the held
/// set — still counting the key being released — equal to the activation
/// combination; a Down transition never toggles it.
pub proof fn lemma_toggle_exactly_on_combo_release(pre: Engine, post: Engine, ev: KeyEvent)
    requires
        ev.transition is Down ==> down_step(pre, post, ev.code),
        ev.transition is Up ==> up_step(pre, post, ev.code),
    ensures
        (post.plopp_active != pre.plopp_active) <==> (ev.transition is Up
            && pre.keys.held_keys() == activation_combo_set()),
{
}

/// Cumulative number of Down events whose normalized code is `c`.
pub open spec fn downs(s: Seq<KeyEvent>, c: u16) -> nat
    decreases s.len(),
{
    if s.len() == 0 {
        0
    } else {
        downs(s.drop_last(), c) + (if spec_normalize(s.last().code) == c && s.last().transition
            is Down {
            1nat
        } else {
            0nat
        })
    }
}

/// Cumulative number of Up events whose normalized code is `c`.
pub open spec fn ups(s: Seq<KeyEvent>, c: u16) -> nat
    decreases s.len(),
{
    if s.len() == 0 {
        0
    } else {
        ups(s.drop_last(), c) + (if spec_normalize(s.last().code) == c && s.last().transition
            is Up {
            1nat
        } else {
            0nat
        })
    }
}

/// The held set that results from applying an event sequence to `init`: a
/// Down inserts the normalized code, an Up removes it. This is exactly what
/// [`KeyState::insert`] and [`KeyState::remove`] do to the held set.
pub open spec fn held_after(init: Set<u16>, s: Seq<KeyEvent>) -> Set<u16>
    decreases s.len(),
{
    if s.len() == 0 {
        init
    } else {
        if s.last().transition is Down {
            held_after(init, s.drop_last()).insert(spec_normalize(s.last().code))
        } else {
            held_after(init, s.drop_last()).remove(spec_normalize(s.last().code))
        }
    }
}

/// Whether the transitions of normalized code `c` alternate properly in
/// `s`: at every prefix, `c` has been released at most as often as pressed,
/// and pressed at most once more than released — no second press of a key
/// already down, no release of a key not down.
pub open spec fn alternating(s: Seq<KeyEvent>, c: u16) -> bool {
    forall|i: int|
        0 <= i <= s.len() ==> ups(#[trigger] s.subrange(0, i), c) <= downs(s.subrange(0, i), c)
            <= ups(s.subrange(0, i), c) + 1
}

/// For any interleaving of Down and Up events in which each key's
/// transitions alternate, the held set built from the empty set equals the
/// set of normalized codes with more cumulative Downs than Ups.
pub proof fn lemma_held_tracks_counts(s: Seq<KeyEvent>)
    requires
        forall|c: u16| #[trigger] alternating(s, c),
    ensures
        held_after(Set::empty(), s) =~= Set::new(|c: u16| downs(s, c) > ups(s, c)),
    decreases s.len(),
{
    if s.len() == 0 {
    } else {
        let t = s.drop_last();
        let e = s.last();
        let c0 = spec_normalize(e.code);
        assert(s.subrange(0, t.len() as int) =~= t);
        assert(s.subrange(0, s.len() as int) =~= s);
        assert forall|c: u16| #[trigger] alternating(t, c) by {
            assert(alternating(s, c));
            assert forall|i: int|
                0 <= i <= t.len() implies ups(#[trigger] t.subrange(0, i), c) <= downs(
                t.subrange(0, i),
                c,
            ) <= ups(t.subrange(0, i), c) + 1 by {
                assert(t.subrange(0, i) =~= s.subrange(0, i));
                assert(ups(s.subrange(0, i), c) <= downs(s.subrange(0, i), c) <= ups(
                    s.subrange(0, i),
                    c,
                ) + 1);
            }
        }
        lemma_held_tracks_counts(t);
        let held = held_after(Set::empty(), s);
        assert(alternating(s, c0));
        assert(ups(t, c0) <= downs(t, c0) <= ups(t, c0) + 1) by {
            assert(ups(s.subrange(0, t.len() as int), c0) <= downs(
                s.subrange(0, t.len() as int),
                c0,
            ) <= ups(s.subrange(0, t.len() as int), c0) + 1);
        }
        assert forall|c: u16| held.contains(c) implies downs(s, c) > ups(s, c) by {
            if c != c0 {
                assert(held_after(Set::empty(), t).contains(c));
            }
        }
        assert forall|c: u16| downs(s, c) > ups(s, c) implies held.contains(c) by {
            if c != c0 {
                assert(held_after(Set::empty(), t).contains(c));
            }
        }
    }
}

/// Feed a whole event sequence through the held-key set: each Down inserts,
/// each Up removes, exactly as the main loop does event by event.
pub fn apply_events(keys: &mut KeyState, events: &Vec<KeyEvent>)
    requires
        old(keys).wf(),
    ensures
        final(keys).wf(),
        final(keys).held_keys() == held_after(old(keys).held_keys(), events@),
        final(keys).activation_combo@ == old(keys).activation_combo@,
{
    let mut idx: usize = 0;
    while idx < events.len()
        invariant
            idx <= events@.len(),
            keys.wf(),
            keys.held_keys() == held_after(old(keys).held_keys(), events@.subrange(0, idx as int)),
            keys.activation_combo@ == old(keys).activation_combo@,
        decreases events@.len() - idx,
    {
        let ev = events[idx];
        match ev.transition {
            Transition::Down => keys.insert(ev.code),
            Transition::Up => keys.remove(ev.code),
        }
        proof {
            let p = events@.subrange(0, idx as int).push(events@[idx as int]);
            assert(events@.subrange(0, idx as int + 1) =~= p);
            assert(p.drop_last() =~= events@.subrange(0, idx as int));
            assert(p.last() == events@[idx as int]);
        }
        idx += 1;
    }
    proof {
        assert(events@.subrange(0, events@.len() as int) =~= events@);
    }
}

} // verus!
