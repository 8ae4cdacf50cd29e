//! The Action Dispatcher: a debounced, finite-state reaction loop that
//! runs exactly one handler per trigger and owns the Event Buffer.

use vstd::prelude::*;

use crate::buffer::{
    after_clear, after_record, record_accepted, report_result, AllocationFault, BackingRegion,
    EventBuffer,
};
use crate::trigger::Color;

verus! {

/// The fixed debounce delay, in milliseconds: the settle time between a
/// trigger and its dispatch, inserted to ignore electrical bounce. It is
/// not cancellable and is not re-armed by further input activity.
pub const DEBOUNCE_MS: u64 = 300;

/// The dispatcher's state between suspension points. `Idle` awaits the
/// next multiplexer resolution; `Debouncing` holds the trigger while the
/// fixed delay runs. The third state of the reaction loop, Dispatch, is
/// transient: it selects and runs one handler without suspending, so it
/// is entered and left within a single call of `on_debounce_elapsed` and
/// is never observable between calls.
#[derive(Clone, Copy, PartialEq, Eq, Structural, Debug)]
pub enum Phase {
    Idle,
    Debouncing(Color),
}

/// The three mutually exclusive action handlers.
#[derive(Clone, Copy, PartialEq, Eq, Structural, Debug)]
pub enum Handler {
    /// Emit the full Event Buffer to the log sink, then clear it.
    ReportClear,
    /// Append a true-valued entry to the Event Buffer.
    RecordTrue,
    /// Append a false-valued entry to the Event Buffer.
    RecordFalse,
}

/// Which handler the Dispatch state selects: a total function of the
/// trigger discriminant alone.
pub open spec fn selected_handler(c: Color) -> Handler {
    match c {
        Color::Green => Handler::ReportClear,
        Color::Blue => Handler::RecordTrue,
        Color::White => Handler::RecordFalse,
    }
}

/// The effect of one handler on the buffer contents.
pub open spec fn handler_effect(h: Handler, entries: Seq<bool>, capacity: nat) -> Seq<bool> {
    match h {
        Handler::ReportClear => after_clear(entries),
        Handler::RecordTrue => after_record(entries, capacity, true),
        Handler::RecordFalse => after_record(entries, capacity, false),
    }
}

/// The observable outcome of one dispatch cycle: what the one handler
/// that ran did.
#[derive(Debug)]
pub enum DispatchOutcome {
    /// The report/clear handler ran; the carried sequence is the full
    /// buffer contents it emitted, for the surrounding log sink.
    Reported(Vec<bool>),
    /// A record handler ran and appended the carried value.
    Recorded(bool),
    /// A record handler ran and hit the fatal allocation fault; the
    /// surrounding program must halt, not drop the entry silently.
    Fault(AllocationFault),
}

/// What `on_debounce_elapsed` must hand back when it dispatches trigger
/// `c` over buffer contents `entries`: the outcome of exactly the handler
/// that `c` selects.
pub open spec fn dispatch_outcome_ok(
    c: Color,
    entries: Seq<bool>,
    capacity: nat,
    outcome: DispatchOutcome,
) -> bool {
    match c {
        Color::Green => outcome matches DispatchOutcome::Reported(r) && r@ == report_result(
            entries,
        ),
        Color::Blue => if record_accepted(entries, capacity) {
            outcome matches DispatchOutcome::Recorded(v) && v == true
        } else {
            outcome is Fault
        },
        Color::White => if record_accepted(entries, capacity) {
            outcome matches DispatchOutcome::Recorded(v) && v == false
        } else {
            outcome is Fault
        },
    }
}

/// The Action Dispatcher: the reaction loop's phase plus the Event
/// Buffer it owns exclusively. The surrounding cooperative loop performs
/// the waits and feeds back the trigger and the elapsed-delay events;
/// between those suspension points nothing else mutates this state.
pub struct Dispatcher {
    phase: Phase,
    buffer: EventBuffer,
}

impl Dispatcher {
    /// The current phase of the reaction loop.
    pub closed spec fn phase(self) -> Phase {
        self.phase
    }

    /// The Event Buffer's logical contents.
    pub closed spec fn entries(self) -> Seq<bool> {
        self.buffer@
    }

    /// The entry capacity of the buffer's backing region.
    pub closed spec fn capacity(self) -> nat {
        self.buffer.capacity()
    }

    /// The buffer stays within its backing region.
    pub open spec fn wf(self) -> bool {
        self.entries().len() <= self.capacity()
    }

    /// Start the dispatcher: idle, with an empty buffer over the given
    /// backing region, consumed here so it is established exactly once.
    pub fn new(region: BackingRegion) -> (d: Dispatcher)
        ensures
            d.phase() == Phase::Idle,
            d.entries() == Seq::<bool>::empty(),
            d.capacity() == region.capacity(),
            d.wf(),
    {
        Dispatcher { phase: Phase::Idle, buffer: EventBuffer::new(region) }
    }

    /// The current phase, for the surrounding loop to follow the
    /// protocol: a trigger is delivered only when idle, an elapsed delay
    /// only while debouncing.
    pub fn current_phase(&self) -> (p: Phase)
        ensures
            p == self.phase(),
    {
        self.phase
    }

    /// The buffer's logical length.
    pub fn buffer_len(&self) -> (n: usize)
        ensures
            n == self.entries().len(),
    {
        self.buffer.len()
    }

    /// Idle to Debouncing: a multiplexer resolution arms the fixed
    /// debounce delay. The buffer is untouched; the returned duration is
    /// the full delay the caller must let elapse, whichever line fired,
    /// before delivering the elapsed event.
    pub fn on_trigger(&mut self, c: Color) -> (delay_ms: u64)
        requires
            old(self).phase() == Phase::Idle,
        ensures
            final(self).phase() == Phase::Debouncing(c),
            final(self).entries() == old(self).entries(),
            final(self).capacity() == old(self).capacity(),
            delay_ms == DEBOUNCE_MS,
    {
        self.phase = Phase::Debouncing(c);
        DEBOUNCE_MS
    }

    /// Debouncing to Idle, through the transient Dispatch state: once the
    /// full delay has elapsed, select and run exactly the one handler the
    /// held trigger names, then return to Idle. The buffer changes by
    /// that handler's effect and by nothing else.
    pub fn on_debounce_elapsed(&mut self) -> (outcome: DispatchOutcome)
        requires
            old(self).phase() is Debouncing,
        ensures
            final(self).phase() == Phase::Idle,
            final(self).capacity() == old(self).capacity(),
            old(self).phase() matches Phase::Debouncing(c) ==> final(self).entries()
                == handler_effect(selected_handler(c), old(self).entries(), old(self).capacity()),
            old(self).phase() matches Phase::Debouncing(c) ==> dispatch_outcome_ok(
                c,
                old(self).entries(),
                old(self).capacity(),
                outcome,
            ),
            old(self).wf() ==> final(self).wf(),
    {
        let c = match self.phase {
            Phase::Debouncing(color) => color,
            Phase::Idle => vstd::pervasive::unreached(),
        };
        self.phase = Phase::Idle;
        match c {
            Color::Green => {
                let report = self.buffer.report_and_clear();
                DispatchOutcome::Reported(report)
            },
            Color::Blue => match self.buffer.record(true) {
                Ok(_) => DispatchOutcome::Recorded(true),
                Err(fault) => DispatchOutcome::Fault(fault),
            },
            Color::White => match self.buffer.record(false) {
                Ok(_) => DispatchOutcome::Recorded(false),
                Err(fault) => DispatchOutcome::Fault(fault),
            },
        }
    }
}

/// Handler mutual exclusion, over the selection function that the
/// dispatch contract pins: every trigger selects exactly one handler —
/// one of the three is selected, and each is selected for exactly one
/// discriminant, so no two handlers ever run for the same trigger and no
/// cycle runs without a handler.
pub proof fn lemma_handler_mutual_exclusion(c: Color)
    ensures
        selected_handler(c) is ReportClear <==> c == Color::Green,
        selected_handler(c) is RecordTrue <==> c == Color::Blue,
        selected_handler(c) is RecordFalse <==> c == Color::White,
{
}

} // verus!
