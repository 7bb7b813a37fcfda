use vstd::prelude::*;

verus! {

/// `a - b`, or zero where `b` exceeds `a`.
pub open spec fn clamped_diff(a: u64, b: u64) -> u64 {
    if a >= b { (a - b) as u64 } else { 0 }
}

/// A counter after one increment; it stays at the largest value.
pub open spec fn bumped(x: u64) -> u64 {
    if x < u64::MAX { (x + 1) as u64 } else { x }
}

/// Items sent but not yet reported received: the clamped difference of the
/// two counters, which may transiently disagree.
pub fn undelivered(sent: u64, received: u64) -> (r: u64)
    ensures
        r == clamped_diff(sent, received),
{
    sent.saturating_sub(received)
}

pub fn bump(x: u64) -> (r: u64)
    ensures
        r == bumped(x),
{
    x.saturating_add(1)
}

} // verus!
