//! Random draws.

use rand::Rng;
use vstd::prelude::*;

verus! {

/// Relies on rand's `thread_rng().gen_range(low..high)`: a value of the
/// half-open range `low..high`; it panics only when that range is empty.
#[verifier::external_body]
pub(crate) fn draw_between(low: i64, high: i64) -> (r: i64)
    requires
        low < high,
    ensures
        low <= r < high,
{
    rand::thread_rng().gen_range(low..high)
}

} // verus!
