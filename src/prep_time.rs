//! The preparation time that a batch of order items gets.

use vstd::prelude::*;

verus! {

/// The shortest preparation time given to an order item, in minutes.
pub const PREP_TIME_MIN: i32 = 5;

/// The longest preparation time given to an order item, in minutes.
pub const PREP_TIME_MAX: i32 = 15;

/// Whether `minutes` is a preparation time that an order item can have.
pub open spec fn valid_prep_time(minutes: i32) -> bool {
    PREP_TIME_MIN <= minutes <= PREP_TIME_MAX
}

/// Relies on rand's `Rng::gen_range` over `thread_rng()`: a value of the
/// inclusive range `low..=high`, which panics only when the range is empty.
#[verifier::external_body]
fn random_in_inclusive(low: i32, high: i32) -> (r: i32)
    requires
        low <= high,
    ensures
        low <= r <= high,
{
    rand::Rng::gen_range(&mut rand::thread_rng(), low..=high)
}

/// A preparation time drawn uniformly from `PREP_TIME_MIN..=PREP_TIME_MAX`.
pub fn get_random_prep_time_minutes() -> (r: i32)
    ensures
        valid_prep_time(r),
{
    random_in_inclusive(PREP_TIME_MIN, PREP_TIME_MAX)
}

} // verus!
