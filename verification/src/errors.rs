use vstd::prelude::*;

verus! {

/// The failure outcomes of the traffic engine. Every fallible operation
/// reports one of these instead of aborting; all are recoverable by the
/// caller.
#[derive(Debug, Clone, Copy, PartialEq, Eq, Structural)]
pub enum TrafficError {
    /// An intersection id is at or beyond the intersection count.
    IndexOutOfBounds,
    /// A probability value lies outside the representable range `[0, 1]`
    /// (that is, above [`crate::node::PROB_SCALE`]).
    InvalidProbability,
    /// `predict_traffic` was invoked with a view level above the fixed cap.
    MaxViewLevelReached,
    /// A requested connection disagrees with the row/column arithmetic of
    /// the grid for the given direction.
    InvalidRoadConnection,
}

impl TrafficError {
    /// A short description of the error.
    pub fn message(&self) -> (r: &'static str)
        ensures
            *self is IndexOutOfBounds ==> r@ == "Index out of bounds"@,
            *self is InvalidProbability ==> r@ == "Invalid probability value"@,
            *self is MaxViewLevelReached ==> r@ == "Maximum view level reached"@,
            *self is InvalidRoadConnection ==> r@ == "Invalid road connection"@,
    {
        match self {
            TrafficError::IndexOutOfBounds => "Index out of bounds",
            TrafficError::InvalidProbability => "Invalid probability value",
            TrafficError::MaxViewLevelReached => "Maximum view level reached",
            TrafficError::InvalidRoadConnection => "Invalid road connection",
        }
    }
}

} // verus!
