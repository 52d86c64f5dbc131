//! Vibration mapper: converts a measured distance (millimeters) into a PWM
//! duty-cycle value for one vibration motor.
//!
//! The policy is a linear inverse ramp with two cutoffs: distances at or
//! beyond 1300 mm produce no vibration, and a raw value above 860 is snapped
//! back to zero, capping the motor drive range.

use vstd::prelude::*;

verus! {

/// Distance (mm) at and beyond which no vibration is produced.
pub const FAR_CUTOFF_MM: u16 = 1300;

/// Raw duty-cycle values above this bound are snapped to zero.
pub const STRENGTH_CLAMP: u16 = 860;

/// The raw (unclamped) duty cycle for a distance: a linear inverse ramp,
/// with the subtraction saturating at zero for far distances.
pub open spec fn raw_strength(d: u16) -> int {
    if d >= FAR_CUTOFF_MM {
        0
    } else {
        (FAR_CUTOFF_MM - d) * 2 / 3
    }
}

/// The duty cycle driven onto a motor for a measured distance: the raw ramp
/// value, unless it exceeds the clamp bound, in which case the motor is off.
pub open spec fn strength_of(d: u16) -> u16 {
    if raw_strength(d) > STRENGTH_CLAMP {
        0u16
    } else {
        raw_strength(d) as u16
    }
}

/// Converts one distance sample into the duty cycle for its motor.
pub fn vibration_strength_from(dist: u16) -> (strength: u16)
    ensures
        strength == strength_of(dist),
{
    if dist >= FAR_CUTOFF_MM {
        0
    } else {
        let raw: u16 = (FAR_CUTOFF_MM - dist) * 2 / 3;
        if raw > STRENGTH_CLAMP {
            0
        } else {
            raw
        }
    }
}

/// The mapper is a mathematical function of the distance alone: any two
/// results computed for equal distances are equal.
pub proof fn lemma_mapper_deterministic(d1: u16, d2: u16)
    requires
        d1 == d2,
    ensures
        strength_of(d1) == strength_of(d2),
{
}

/// Distances in the "no obstacle" zone produce no vibration.
pub proof fn lemma_far_distance_is_off(d: u16)
    requires
        d >= FAR_CUTOFF_MM,
    ensures
        strength_of(d) == 0,
{
}

/// Clamp boundary: whenever the raw ramp value exceeds the clamp bound,
/// the motor is driven off. In particular this holds for every distance
/// of at most 8 mm, so extremely close obstacles produce no vibration.
pub proof fn lemma_clamp_snaps_to_zero(d: u16)
    requires
        raw_strength(d) > STRENGTH_CLAMP || d <= 8,
    ensures
        strength_of(d) == 0,
{
    if d <= 8 {
        assert(raw_strength(d) >= 1292 * 2 / 3);
    }
}

} // verus!
