//! Choosing a span id from random draws.
//!
//! A span id is a 64-bit number with no order and no structure. The only
//! value it must never take is zero, which stands for "no span". A generator
//! therefore looks at each number its random source draws: a non-zero draw
//! becomes the span id, a zero draw is thrown away and another is drawn. The
//! span id handed out is the first draw that is not zero.
use vstd::prelude::*;

verus! {

/// How many draws a generator makes for one span id before it stops drawing.
///
/// This is a limit of the machine, not a rule: every zero draw is redrawn,
/// and the count is kept only so that the loop that draws has a number that
/// goes down. No run reaches the limit. At a draw every nanosecond it would
/// take more than five centuries of zero draws in a row.
pub const DRAWS: u64 = 0xFFFF_FFFF_FFFF_FFFF;

/// The span id handed out when [`DRAWS`] draws in a row came out zero.
pub const FALLBACK_SPAN_ID: u64 = 1;

/// What a generator does after looking at one draw.
#[derive(Clone, Copy, Debug, PartialEq, Eq, Structural)]
pub enum Verdict {
    /// Hand out this span id.
    Accept(u64),
    /// Throw the draw away and draw again.
    Redraw,
}

/// The verdict on `draw`: a draw that is not zero is the span id, a zero draw
/// is drawn again.
pub open spec fn verdict_on(draw: u64) -> Verdict {
    if draw != 0 {
        Verdict::Accept(draw)
    } else {
        Verdict::Redraw
    }
}

/// Computes [`verdict_on`]. An accepted id is the draw itself and is never
/// zero; a zero draw is always drawn again.
pub fn judge(draw: u64) -> (verdict: Verdict)
    ensures
        verdict == verdict_on(draw),
        verdict matches Verdict::Accept(id) ==> id == draw && id != 0,
        verdict == Verdict::Redraw <==> draw == 0,
{
    if draw != 0 {
        Verdict::Accept(draw)
    } else {
        Verdict::Redraw
    }
}

} // verus!
