//! The Background Periodic Task: a blinker that alternates an output
//! level at a fixed cadence, independent of the dispatcher.

use vstd::prelude::*;

verus! {

/// The fixed half-period of the blink cadence, in milliseconds: the
/// level is held this long between consecutive toggles.
pub const BLINK_INTERVAL_MS: u64 = 100;

/// The level the blinker drives after `ticks` completed half-periods,
/// starting from `init`: each tick flips it.
pub open spec fn level_after_ticks(init: bool, ticks: nat) -> bool
    decreases ticks,
{
    if ticks == 0 {
        init
    } else {
        !level_after_ticks(init, (ticks - 1) as nat)
    }
}

/// The blink alternates: one more tick always flips the level, whatever
/// came before.
pub proof fn lemma_blink_alternates(init: bool, ticks: nat)
    ensures
        level_after_ticks(init, ticks + 1) == !level_after_ticks(init, ticks),
{
}

/// Starting from the opposite level yields the opposite level, tick for
/// tick.
pub proof fn lemma_level_negate(init: bool, ticks: nat)
    ensures
        level_after_ticks(!init, ticks) == !level_after_ticks(init, ticks),
    decreases ticks,
{
    if ticks > 0 {
        lemma_level_negate(init, (ticks - 1) as nat);
    }
}

/// The Background Periodic Task's whole state: the level it currently
/// drives on the output line it owns exclusively. The dispatcher never
/// touches that line, and the blinker touches nothing of the dispatcher.
pub struct Blinker {
    level: bool,
}

impl Blinker {
    /// The level currently driven.
    pub closed spec fn level(self) -> bool {
        self.level
    }

    /// Start with the line driven low; the first step raises it.
    pub fn new() -> (b: Blinker)
        ensures
            b.level() == false,
    {
        Blinker { level: false }
    }

    /// One half-period of the cadence: flip the driven level and report
    /// the fixed interval the caller must hold it before the next step.
    pub fn step(&mut self) -> (interval_ms: u64)
        ensures
            final(self).level() == !old(self).level(),
            final(self).level() == level_after_ticks(old(self).level(), 1),
            interval_ms == BLINK_INTERVAL_MS,
    {
        self.level = !self.level;
        proof {
            assert(level_after_ticks(!self.level, 1) == !level_after_ticks(!self.level, 0));
        }
        BLINK_INTERVAL_MS
    }

    /// The level currently driven, for the caller to put on the line.
    pub fn current_level(&self) -> (l: bool)
        ensures
            l == self.level(),
    {
        self.level
    }
}

} // verus!
