//! How a component scrolls across the display.

use vstd::prelude::*;

verus! {

/// Scrolling of a component: it moves `distance_per_tick` pixels per frame in
/// direction `direction_degrees` and repeats every `periodicity` pixels.
#[derive(Debug, PartialEq, Eq, Structural, Clone, Copy)]
pub struct MotionConfig {
    pub direction_degrees: u16,
    pub distance_per_tick: u32,
    pub periodicity: u32,
}

} // verus!
