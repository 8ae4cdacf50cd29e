//! The cooperative schedule: how the single-threaded loop interleaves
//! the dispatcher's events with the background blinker's ticks, and what
//! holds of every such interleaving.

use vstd::prelude::*;

use crate::blinker::{level_after_ticks, lemma_level_negate};
use crate::buffer::report_result;
use crate::dispatcher::{handler_effect, selected_handler, Phase};
use crate::trigger::Color;

verus! {

/// An event the cooperative loop delivers to the dispatcher at one of
/// its suspension points: a multiplexer resolution, or the end of the
/// debounce delay it armed.
#[derive(Clone, Copy, PartialEq, Eq, Structural, Debug)]
pub enum DispatchEvent {
    Trigger(Color),
    DebounceElapsed,
}

/// The delivery protocol the loop obeys: a trigger reaches the
/// dispatcher only while it is idle and awaiting the multiplexer, and
/// the elapsed delay only while it is debouncing — the loop suspends on
/// exactly one wait per phase, so no other pairing can arise.
pub open spec fn event_allowed(p: Phase, ev: DispatchEvent) -> bool {
    match ev {
        DispatchEvent::Trigger(_) => p == Phase::Idle,
        DispatchEvent::DebounceElapsed => p is Debouncing,
    }
}

/// The dispatcher's phase after one delivered event, as the contracts of
/// `on_trigger` and `on_debounce_elapsed` pin it.
pub open spec fn phase_after(p: Phase, ev: DispatchEvent) -> Phase {
    match ev {
        DispatchEvent::Trigger(c) => Phase::Debouncing(c),
        DispatchEvent::DebounceElapsed => Phase::Idle,
    }
}

/// Whether a step dispatches, that is, runs one handler: exactly the
/// delivery of the elapsed delay to a debouncing dispatcher.
pub open spec fn step_dispatches(p: Phase, ev: DispatchEvent) -> bool {
    p is Debouncing && ev is DebounceElapsed
}

/// The phase after a whole run of delivered events.
pub open spec fn phase_after_run(p0: Phase, evs: Seq<DispatchEvent>) -> Phase
    decreases evs.len(),
{
    if evs.len() == 0 {
        p0
    } else {
        phase_after_run(phase_after(p0, evs[0]), evs.skip(1))
    }
}

/// A run is valid when every event is allowed in the phase it meets.
pub open spec fn valid_run(p0: Phase, evs: Seq<DispatchEvent>) -> bool
    decreases evs.len(),
{
    evs.len() == 0 || (event_allowed(p0, evs[0]) && valid_run(
        phase_after(p0, evs[0]),
        evs.skip(1),
    ))
}

/// A run's final phase is the last event's successor phase.
proof fn lemma_phase_after_run_last(p0: Phase, evs: Seq<DispatchEvent>)
    requires
        evs.len() > 0,
    ensures
        phase_after_run(p0, evs) == phase_after(phase_after_run(p0, evs.drop_last()), evs.last()),
    decreases evs.len(),
{
    if evs.len() == 1 {
        assert(evs.drop_last() =~= Seq::<DispatchEvent>::empty());
        assert(evs.skip(1) =~= Seq::<DispatchEvent>::empty());
    } else {
        let p1 = phase_after(p0, evs[0]);
        lemma_phase_after_run_last(p1, evs.skip(1));
        assert(evs.skip(1).drop_last() =~= evs.drop_last().skip(1));
        assert(evs.skip(1).last() == evs.last());
        assert(evs.drop_last()[0] == evs[0]);
    }
}

/// Index form of validity: in a valid run, each event is allowed in the
/// phase it meets.
proof fn lemma_valid_run_index(p0: Phase, evs: Seq<DispatchEvent>, i: int)
    requires
        valid_run(p0, evs),
        0 <= i < evs.len(),
    ensures
        event_allowed(phase_after_run(p0, evs.take(i)), evs[i]),
    decreases i,
{
    if i == 0 {
        assert(evs.take(0) =~= Seq::<DispatchEvent>::empty());
    } else {
        let p1 = phase_after(p0, evs[0]);
        lemma_valid_run_index(p1, evs.skip(1), i - 1);
        assert(evs.skip(1)[i - 1] == evs[i]);
        assert(evs.skip(1).take(i - 1) =~= evs.take(i).skip(1));
        assert(evs.take(i)[0] == evs[0]);
    }
}

/// The debounce window is not re-armed: while the dispatcher debounces,
/// the only event the loop can deliver is the end of the armed delay.
/// No further trigger reaches the dispatcher until the handler has run
/// and it is idle again, so input activity during the wait neither
/// restarts nor extends the fixed delay.
pub proof fn lemma_no_retrigger_while_debouncing(evs: Seq<DispatchEvent>, i: int)
    requires
        valid_run(Phase::Idle, evs),
        0 <= i < evs.len(),
        phase_after_run(Phase::Idle, evs.take(i)) is Debouncing,
    ensures
        evs[i] is DebounceElapsed,
{
    lemma_valid_run_index(Phase::Idle, evs, i);
}

/// The debounce delay separates every trigger from its dispatch: in any
/// valid run from Idle, a step that dispatches is never first, and the
/// step immediately before it is exactly the trigger that put the
/// dispatcher into the debouncing phase the handler is selected from.
/// Together with `on_trigger`'s contract — the armed delay is the full
/// `DEBOUNCE_MS`, whichever line fired — every handler execution is
/// preceded by that whole delay.
pub proof fn lemma_debounce_precedes_dispatch(evs: Seq<DispatchEvent>, i: int)
    requires
        valid_run(Phase::Idle, evs),
        0 <= i < evs.len(),
        step_dispatches(phase_after_run(Phase::Idle, evs.take(i)), evs[i]),
    ensures
        i >= 1,
        evs[i - 1] matches DispatchEvent::Trigger(c) && phase_after_run(
            Phase::Idle,
            evs.take(i),
        ) == Phase::Debouncing(c),
{
    if i == 0 {
        assert(evs.take(0) =~= Seq::<DispatchEvent>::empty());
    } else {
        let prefix = evs.take(i);
        lemma_phase_after_run_last(Phase::Idle, prefix);
        assert(prefix.drop_last() =~= evs.take(i - 1));
        assert(prefix.last() == evs[i - 1]);
    }
}

/// The buffer contents after one delivered event: a dispatching step
/// applies the effect of the one handler its trigger selects, as the
/// contract of `on_debounce_elapsed` pins it; every other step leaves
/// the buffer alone.
pub open spec fn entries_after(
    p: Phase,
    entries: Seq<bool>,
    capacity: nat,
    ev: DispatchEvent,
) -> Seq<bool> {
    if step_dispatches(p, ev) {
        handler_effect(selected_handler(p->0), entries, capacity)
    } else {
        entries
    }
}

/// The buffer contents after a whole run of delivered events.
pub open spec fn entries_after_run(
    p0: Phase,
    entries: Seq<bool>,
    capacity: nat,
    evs: Seq<DispatchEvent>,
) -> Seq<bool>
    decreases evs.len(),
{
    if evs.len() == 0 {
        entries
    } else {
        entries_after_run(
            phase_after(p0, evs[0]),
            entries_after(p0, entries, capacity, evs[0]),
            capacity,
            evs.skip(1),
        )
    }
}

/// Runs compose: phase, contents and validity over a concatenation are
/// those of the second part, started where the first part ended.
proof fn lemma_run_concat(
    p0: Phase,
    entries: Seq<bool>,
    capacity: nat,
    s1: Seq<DispatchEvent>,
    s2: Seq<DispatchEvent>,
)
    ensures
        phase_after_run(p0, s1 + s2) == phase_after_run(phase_after_run(p0, s1), s2),
        entries_after_run(p0, entries, capacity, s1 + s2) == entries_after_run(
            phase_after_run(p0, s1),
            entries_after_run(p0, entries, capacity, s1),
            capacity,
            s2,
        ),
        valid_run(p0, s1 + s2) <==> (valid_run(p0, s1) && valid_run(
            phase_after_run(p0, s1),
            s2,
        )),
    decreases s1.len(),
{
    if s1.len() == 0 {
        assert(s1 + s2 =~= s2);
    } else {
        assert((s1 + s2)[0] == s1[0]);
        assert((s1 + s2).skip(1) =~= s1.skip(1) + s2);
        lemma_run_concat(
            phase_after(p0, s1[0]),
            entries_after(p0, entries, capacity, s1[0]),
            capacity,
            s1.skip(1),
            s2,
        );
    }
}

/// The trigger that makes the dispatcher record `v`.
pub open spec fn record_color(v: bool) -> Color {
    if v {
        Color::Blue
    } else {
        Color::White
    }
}

/// One full dispatch cycle: the trigger, then the end of its debounce.
pub open spec fn cycle(c: Color) -> Seq<DispatchEvent> {
    seq![DispatchEvent::Trigger(c), DispatchEvent::DebounceElapsed]
}

/// The record cycles that log `values`, one cycle per value, in order.
pub open spec fn record_cycles(values: Seq<bool>) -> Seq<DispatchEvent>
    decreases values.len(),
{
    if values.len() == 0 {
        Seq::<DispatchEvent>::empty()
    } else {
        cycle(record_color(values[0])) + record_cycles(values.skip(1))
    }
}

/// One full dispatch cycle from Idle is valid, ends Idle, and changes
/// the buffer by exactly the selected handler's effect.
proof fn lemma_cycle(entries: Seq<bool>, capacity: nat, c: Color)
    ensures
        valid_run(Phase::Idle, cycle(c)),
        phase_after_run(Phase::Idle, cycle(c)) == Phase::Idle,
        entries_after_run(Phase::Idle, entries, capacity, cycle(c)) == handler_effect(
            selected_handler(c),
            entries,
            capacity,
        ),
{
    let evs = cycle(c);
    let rest = seq![DispatchEvent::DebounceElapsed];
    let none = Seq::<DispatchEvent>::empty();
    assert(evs[0] == DispatchEvent::Trigger(c));
    assert(evs.skip(1) =~= rest);
    assert(rest[0] == DispatchEvent::DebounceElapsed);
    assert(rest.skip(1) =~= none);
    let mid = Phase::Debouncing(c);
    assert(phase_after(Phase::Idle, evs[0]) == mid);
    assert(phase_after_run(Phase::Idle, evs) == phase_after_run(mid, rest));
    assert(phase_after_run(mid, rest) == phase_after_run(Phase::Idle, none));
    let changed = handler_effect(selected_handler(c), entries, capacity);
    assert(entries_after(Phase::Idle, entries, capacity, evs[0]) == entries);
    assert(entries_after_run(Phase::Idle, entries, capacity, evs) == entries_after_run(
        mid,
        entries,
        capacity,
        rest,
    ));
    assert(entries_after(mid, entries, capacity, rest[0]) == changed);
    assert(entries_after_run(mid, entries, capacity, rest) == entries_after_run(
        Phase::Idle,
        changed,
        capacity,
        none,
    ));
    assert(valid_run(mid, rest) == (event_allowed(mid, rest[0]) && valid_run(
        Phase::Idle,
        rest.skip(1),
    )));
}

/// Record cycles, run back to back while the region has room, keep the
/// dispatcher cycling back to Idle and append exactly the logged values.
proof fn lemma_record_cycles(entries: Seq<bool>, capacity: nat, values: Seq<bool>)
    requires
        entries.len() + values.len() <= capacity,
    ensures
        valid_run(Phase::Idle, record_cycles(values)),
        phase_after_run(Phase::Idle, record_cycles(values)) == Phase::Idle,
        entries_after_run(Phase::Idle, entries, capacity, record_cycles(values)) == entries
            + values,
    decreases values.len(),
{
    if values.len() == 0 {
        assert(entries + values =~= entries);
    } else {
        let head = cycle(record_color(values[0]));
        let tail = record_cycles(values.skip(1));
        lemma_cycle(entries, capacity, record_color(values[0]));
        lemma_run_concat(Phase::Idle, entries, capacity, head, tail);
        lemma_record_cycles(entries.push(values[0]), capacity, values.skip(1));
        assert(entries.push(values[0]) + values.skip(1) =~= entries + values);
    }
}

/// Round trip across whole dispatch cycles: from an idle dispatcher
/// holding `entries`, the cycles that record `values` followed by one
/// report cycle form a valid run; the report handed out at its final
/// dispatch is `entries` followed by `values`, in call order and in
/// full, and the run ends idle with an empty buffer.
pub proof fn lemma_dispatch_round_trip(entries: Seq<bool>, capacity: nat, values: Seq<bool>)
    requires
        entries.len() + values.len() <= capacity,
    ensures
        valid_run(Phase::Idle, record_cycles(values) + cycle(Color::Green)),
        phase_after_run(Phase::Idle, record_cycles(values) + cycle(Color::Green)) == Phase::Idle,
        report_result(entries_after_run(Phase::Idle, entries, capacity, record_cycles(values)))
            == entries + values,
        entries_after_run(
            Phase::Idle,
            entries,
            capacity,
            record_cycles(values) + cycle(Color::Green),
        ) == Seq::<bool>::empty(),
{
    lemma_record_cycles(entries, capacity, values);
    lemma_run_concat(Phase::Idle, entries, capacity, record_cycles(values), cycle(Color::Green));
    lemma_cycle(entries + values, capacity, Color::Green);
}

/// One unit of cooperative work: either the dispatcher handles one of
/// its events, or the blinker completes one half-period. The scheduler
/// interleaves these in some order; no step belongs to both tasks.
#[derive(Clone, Copy, PartialEq, Eq, Structural, Debug)]
pub enum SystemEvent {
    DispatcherStep(DispatchEvent),
    BlinkTick,
}

/// How many of the interleaved steps are blinker half-periods.
pub open spec fn blink_ticks(evs: Seq<SystemEvent>) -> nat
    decreases evs.len(),
{
    if evs.len() == 0 {
        0
    } else {
        (if evs[0] is BlinkTick {
            1nat
        } else {
            0nat
        }) + blink_ticks(evs.skip(1))
    }
}

/// The blinker's level after the loop has processed an interleaving:
/// only blink ticks touch it; dispatcher steps leave it alone, because
/// the blinker's output line is owned by the blinker task exclusively.
pub open spec fn blink_level_after(init: bool, evs: Seq<SystemEvent>) -> bool
    decreases evs.len(),
{
    if evs.len() == 0 {
        init
    } else {
        blink_level_after(
            if evs[0] is BlinkTick {
                !init
            } else {
                init
            },
            evs.skip(1),
        )
    }
}

/// Background-task independence: under every interleaving of dispatcher
/// activity and blink ticks — including interleavings where the
/// dispatcher sits in a debounce wait for many steps — the blinker's
/// level is a function of its own tick count alone, alternating once per
/// tick. Dispatcher steps neither change the level nor shift its
/// alternation, so scheduling the two tasks together never perturbs the
/// cadence the blinker's own steps establish.
pub proof fn lemma_blinker_independent(init: bool, evs: Seq<SystemEvent>)
    ensures
        blink_level_after(init, evs) == level_after_ticks(init, blink_ticks(evs)),
    decreases evs.len(),
{
    if evs.len() > 0 {
        if evs[0] is BlinkTick {
            lemma_blinker_independent(!init, evs.skip(1));
            lemma_level_negate(init, blink_ticks(evs.skip(1)));
        } else {
            lemma_blinker_independent(init, evs.skip(1));
        }
    }
}

} // verus!
