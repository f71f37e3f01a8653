use vstd::prelude::*;

pub mod ids;
pub mod sampling;
pub mod survey;

verus! {

/// Smallest survey ID the allocator may hand out.
pub const MIN_ID: usize = 100000;
/// Largest survey ID the allocator may hand out.
pub const MAX_ID: usize = 999999;
/// Size of the item domain a survey draws from.
pub const PASSAGE_AMOUNT: usize = 10;
/// Number of items attached to each survey.
pub const PICK_AMOUNT: usize = 5;

/// The failures the core can report to its caller.
#[derive(Clone, Copy, Debug, PartialEq, Eq, Structural)]
pub enum SurveyError {
    /// Every ID in the configured range has already been issued.
    ExhaustedRange,
    /// A sample of more elements than the domain holds was requested.
    InvalidSampleSize,
}

} // verus!
