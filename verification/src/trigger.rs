//! The Input Multiplexer: which of the three monitored input lines fired.

use vstd::prelude::*;

verus! {

/// A trigger event: the discriminant identifying which monitored input
/// line caused a multiplexer resolution. Produced once per resolution and
/// consumed immediately by the dispatcher; never queued.
#[derive(Clone, Copy, PartialEq, Eq, Structural, Debug)]
pub enum Color {
    Green,
    Blue,
    White,
}

/// The observed levels of the three monitored input lines at the moment
/// the multiplexer resolves. A line's wait condition is satisfied when its
/// level is high.
#[derive(Clone, Copy, PartialEq, Eq, Structural, Debug)]
pub struct LineLevels {
    pub green: bool,
    pub blue: bool,
    pub white: bool,
}

/// Whether the wait condition of the line identified by `c` is satisfied.
pub open spec fn line_high(levels: LineLevels, c: Color) -> bool {
    match c {
        Color::Green => levels.green,
        Color::Blue => levels.blue,
        Color::White => levels.white,
    }
}

/// The discriminant the multiplexer reports for the given line levels:
/// the first satisfied line in declaration order (green, blue, white).
/// Declaration order is the documented tie-break when several lines are
/// high at once; `None` means no wait condition is satisfied, in which
/// case the multiplexer keeps the caller suspended instead of resolving.
pub open spec fn spec_resolve(levels: LineLevels) -> Option<Color> {
    if levels.green {
        Some(Color::Green)
    } else if levels.blue {
        Some(Color::Blue)
    } else if levels.white {
        Some(Color::White)
    } else {
        None
    }
}

/// Resolve one multiplexer round: given the observed line levels, report
/// the single winning discriminant, or `None` when no line is high yet.
/// The losing lines are not reported this round; they are re-armed on the
/// next call, so no resolution is lost, only deferred.
pub fn resolve_trigger(levels: LineLevels) -> (r: Option<Color>)
    ensures
        r == spec_resolve(levels),
        r is Some <==> (levels.green || levels.blue || levels.white),
        r matches Some(c) ==> line_high(levels, c),
{
    if levels.green {
        Some(Color::Green)
    } else if levels.blue {
        Some(Color::Blue)
    } else if levels.white {
        Some(Color::White)
    } else {
        None
    }
}

/// Which of the three concurrently armed waits resolved first, in the
/// order they are declared to the multiplexer: green, blue, white.
#[derive(Clone, Copy, PartialEq, Eq, Structural, Debug)]
pub enum MuxWinner {
    First,
    Second,
    Third,
}

/// The discriminant each winning wait stands for, following the
/// declaration order green, blue, white.
pub open spec fn spec_winner_color(w: MuxWinner) -> Color {
    match w {
        MuxWinner::First => Color::Green,
        MuxWinner::Second => Color::Blue,
        MuxWinner::Third => Color::White,
    }
}

/// Classify one multiplexer resolution: map the winning wait to the
/// trigger event it stands for. Exactly one discriminant per winner, so
/// each resolution yields exactly one trigger for the dispatcher.
pub fn winner_color(w: MuxWinner) -> (c: Color)
    ensures
        c == spec_winner_color(w),
{
    match w {
        MuxWinner::First => Color::Green,
        MuxWinner::Second => Color::Blue,
        MuxWinner::Third => Color::White,
    }
}

/// Every multiplexer resolution reports exactly one discriminant, and that
/// discriminant names a line whose wait condition was actually satisfied:
/// whenever any line is high, the resolution is some single `Color`, any
/// two resolutions of the same levels agree, and the reported line is high.
pub proof fn lemma_resolution_reports_satisfied_line(levels: LineLevels)
    requires
        levels.green || levels.blue || levels.white,
    ensures
        spec_resolve(levels) is Some,
        forall|c: Color| spec_resolve(levels) == Some(c) ==> line_high(levels, c),
        forall|c1: Color, c2: Color|
            spec_resolve(levels) == Some(c1) && spec_resolve(levels) == Some(c2) ==> c1 == c2,
{
}

} // verus!
