//! The Shared Event Buffer: a growable log of boolean entries, owned
//! exclusively by the dispatcher task, bounded by its backing region.

use vstd::prelude::*;

verus! {

/// The fatal allocation fault: a record action would grow the Event
/// Buffer beyond its backing region. The control loop never recovers from
/// it; the surrounding program halts with a diagnostic.
#[derive(Clone, Copy, PartialEq, Eq, Structural, Debug)]
pub struct AllocationFault;

/// The startup-phase description of the dynamic-memory region that backs
/// the Event Buffer, measured in entries. It is consumed when the buffer
/// is created, so each region backs exactly one buffer and the backing
/// store is established exactly once, before any record action.
pub struct BackingRegion {
    entry_capacity: usize,
}

impl BackingRegion {
    /// How many entries the region can hold.
    pub closed spec fn capacity(self) -> nat {
        self.entry_capacity as nat
    }

    /// Describe a region able to hold `entry_capacity` entries.
    pub fn new(entry_capacity: usize) -> (r: BackingRegion)
        ensures
            r.capacity() == entry_capacity as nat,
    {
        BackingRegion { entry_capacity }
    }
}

/// Whether a buffer holding `entries` within a region of `capacity`
/// entries accepts one more record.
pub open spec fn record_accepted(entries: Seq<bool>, capacity: nat) -> bool {
    entries.len() < capacity
}

/// The buffer contents after one record of `value`: grown by one entry
/// when the region still has room, unchanged when the record faults.
pub open spec fn after_record(entries: Seq<bool>, capacity: nat, value: bool) -> Seq<bool> {
    if record_accepted(entries, capacity) {
        entries.push(value)
    } else {
        entries
    }
}

/// What a report hands out: the full current contents, in record order.
pub open spec fn report_result(entries: Seq<bool>) -> Seq<bool> {
    entries
}

/// The buffer contents after a clear: empty, whatever was recorded.
pub open spec fn after_clear(entries: Seq<bool>) -> Seq<bool> {
    Seq::<bool>::empty()
}

/// The ordered, growable sequence of recorded events. Append-only except
/// for the explicit clear of a report; created empty at dispatcher start.
pub struct EventBuffer {
    entries: Vec<bool>,
    region_capacity: usize,
}

impl View for EventBuffer {
    type V = Seq<bool>;

    /// The logical contents: the recorded entries in record order.
    closed spec fn view(&self) -> Seq<bool> {
        self.entries@
    }
}

impl EventBuffer {
    /// How many entries the backing region can hold.
    pub closed spec fn capacity(self) -> nat {
        self.region_capacity as nat
    }

    /// The buffer never outgrows its backing region.
    pub open spec fn wf(self) -> bool {
        self@.len() <= self.capacity()
    }

    /// Create the buffer, empty, over the given backing region. The
    /// region is consumed: its store can back no second buffer.
    pub fn new(region: BackingRegion) -> (b: EventBuffer)
        ensures
            b@ == Seq::<bool>::empty(),
            b.capacity() == region.capacity(),
            b.wf(),
    {
        EventBuffer { entries: Vec::new(), region_capacity: region.entry_capacity }
    }

    /// The logical length of the recorded sequence.
    pub fn len(&self) -> (n: usize)
        ensures
            n == self@.len(),
    {
        self.entries.len()
    }

    /// Record one entry. Growth beyond the backing region is the fatal
    /// allocation fault, reported deterministically and without dropping
    /// or truncating anything: on a fault the contents are unchanged.
    pub fn record(&mut self, value: bool) -> (r: Result<(), AllocationFault>)
        ensures
            final(self).capacity() == old(self).capacity(),
            final(self)@ == after_record(old(self)@, old(self).capacity(), value),
            r is Ok <==> record_accepted(old(self)@, old(self).capacity()),
            old(self).wf() ==> final(self).wf(),
    {
        if self.entries.len() < self.region_capacity {
            self.entries.push(value);
            Ok(())
        } else {
            Err(AllocationFault)
        }
    }

    /// Report and clear: hand back the full current contents in record
    /// order and reset the logical length to zero. The backing region is
    /// kept for reuse, so later records allocate from the same store.
    pub fn report_and_clear(&mut self) -> (r: Vec<bool>)
        ensures
            r@ == report_result(old(self)@),
            final(self)@ == after_clear(old(self)@),
            final(self).capacity() == old(self).capacity(),
            final(self).wf(),
    {
        let mut report: Vec<bool> = Vec::new();
        core::mem::swap(&mut report, &mut self.entries);
        report
    }
}

/// The contents after recording `values` in order, starting from
/// `entries`, each record subject to the same region capacity.
pub open spec fn after_records(entries: Seq<bool>, capacity: nat, values: Seq<bool>) -> Seq<bool>
    decreases values.len(),
{
    if values.len() == 0 {
        entries
    } else {
        after_records(after_record(entries, capacity, values[0]), capacity, values.skip(1))
    }
}

/// While the region has room for all of them, records append: the
/// contents after recording `values` are the old contents followed by
/// `values`, in call order, nothing lost and nothing reordered.
pub proof fn lemma_records_append(entries: Seq<bool>, capacity: nat, values: Seq<bool>)
    requires
        entries.len() + values.len() <= capacity,
    ensures
        after_records(entries, capacity, values) == entries + values,
    decreases values.len(),
{
    if values.len() == 0 {
        assert(entries + values =~= entries);
    } else {
        lemma_records_append(entries.push(values[0]), capacity, values.skip(1));
        assert(entries.push(values[0]) + values.skip(1) =~= entries + values);
    }
}

/// Event Buffer round trip: recording any sequence of values into an
/// empty buffer whose region can hold them, then reporting, reports
/// exactly those values in call order, and the clear of that report
/// leaves the logical length at zero.
pub proof fn lemma_record_report_round_trip(capacity: nat, values: Seq<bool>)
    requires
        values.len() <= capacity,
    ensures
        report_result(after_records(Seq::<bool>::empty(), capacity, values)) == values,
        after_clear(after_records(Seq::<bool>::empty(), capacity, values)).len() == 0,
{
    lemma_records_append(Seq::<bool>::empty(), capacity, values);
    assert(Seq::<bool>::empty() + values =~= values);
}

/// Idempotence of clear: a report right after a report, with no record in
/// between, reports the empty sequence, and clearing twice leaves the
/// same empty buffer as clearing once. (The first of the two reports
/// hands out whatever the buffer held; only when it already held nothing
/// are both reports empty.)
pub proof fn lemma_clear_idempotent(entries: Seq<bool>)
    ensures
        report_result(after_clear(entries)).len() == 0,
        after_clear(after_clear(entries)) == after_clear(entries),
        entries.len() == 0 ==> report_result(entries).len() == 0,
{
}

/// Allocation-fault scenario: once the buffer fills its backing region,
/// any further record deterministically faults and leaves the contents
/// unchanged; growth past the region is never silent truncation.
pub proof fn lemma_growth_beyond_region_faults(entries: Seq<bool>, capacity: nat, value: bool)
    requires
        entries.len() >= capacity,
    ensures
        !record_accepted(entries, capacity),
        after_record(entries, capacity, value) == entries,
{
}

} // verus!
