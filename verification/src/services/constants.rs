use vstd::prelude::*;

verus! {

/// A service draws a number below `DRAW_BOUND` for each booking it is first
/// asked to prepare, and refuses the booking when the number is below
/// `PERCENTAGE_ERROR`.
pub const PERCENTAGE_ERROR: u32 = 2;

pub const DRAW_BOUND: u32 = 10;

} // verus!
