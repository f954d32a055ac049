//! The celebration timer: how long a celebration message stays on screen.

use vstd::prelude::*;

verus! {

/// The timer after `dt_ms` more milliseconds: it runs out once nothing is left.
pub open spec fn timer_after(t: Option<u32>, dt_ms: u32) -> Option<u32> {
    match t {
        None => None,
        Some(left) => if left <= dt_ms {
            None
        } else {
            Some((left - dt_ms) as u32)
        },
    }
}

/// Ages the timer by one frame; true when it ran out in this frame, at which
/// point the celebration message is to be taken down.
pub fn tick_timer(t: &mut Option<u32>, dt_ms: u32) -> (expired: bool)
    ensures
        *final(t) == timer_after(*old(t), dt_ms),
        expired == (old(t).is_some() && final(t).is_none()),
{
    match *t {
        None => false,
        Some(left) => {
            if left <= dt_ms {
                *t = None;
                true
            } else {
                *t = Some(left - dt_ms);
                false
            }
        },
    }
}

/// The timer after frames of `dts[k]` milliseconds each.
pub open spec fn timer_after_frames(t: Option<u32>, dts: Seq<u32>) -> Option<u32>
    decreases dts.len(),
{
    if dts.len() == 0 {
        t
    } else {
        timer_after(timer_after_frames(t, dts.drop_last()), dts.last())
    }
}

/// Total time of a run of frames.
pub open spec fn elapsed(dts: Seq<u32>) -> int
    decreases dts.len(),
{
    if dts.len() == 0 {
        0
    } else {
        elapsed(dts.drop_last()) + dts.last()
    }
}

/// A timer set to `d` milliseconds runs out on the first frame at which the
/// elapsed time reaches `d`, and not before: until then it holds what is left.
pub proof fn lemma_timer_lasts(d: u32, dts: Seq<u32>)
    requires
        d > 0,
    ensures
        timer_after_frames(Some(d), dts) == if elapsed(dts) >= d {
            None::<u32>
        } else {
            Some((d - elapsed(dts)) as u32)
        },
    decreases dts.len(),
{
    if dts.len() > 0 {
        lemma_timer_lasts(d, dts.drop_last());
        lemma_elapsed_nonnegative(dts.drop_last());
    }
}

proof fn lemma_elapsed_nonnegative(dts: Seq<u32>)
    ensures
        elapsed(dts) >= 0,
    decreases dts.len(),
{
    if dts.len() > 0 {
        lemma_elapsed_nonnegative(dts.drop_last());
    }
}

} // verus!
