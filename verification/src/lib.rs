//! Antiderivative-antialiasing (ADAA) kernel for a soft-clipping waveshaper.
//!
//! The clipper's transfer curve and its antiderivatives are evaluated in
//! floating point by the caller; this crate owns everything about the kernel
//! that is exact: the piecewise region dispatch of the transfer-curve family,
//! the per-call selection among the direct, divided-difference and fallback
//! evaluation modes, and the history that the recurrence carries from one
//! sample to the next. The kernel never inspects a sample's numeric value —
//! it only routes values it is handed — so it is written over an arbitrary
//! carrier type and its routing is proved once for every carrier.

use vstd::prelude::*;

pub mod antialiasing;
pub mod waveshaper;

verus! {

/// How many antiderivatives the kernel's recurrence uses: none (plain
/// evaluation of the transfer curve), the first antiderivative, or the
/// second. Higher orders suppress more of the aliasing that the clipper's
/// harmonics would otherwise fold back into the audible band.
#[derive(Clone, Copy, Debug, PartialEq, Eq, PartialOrd, Ord, Structural)]
pub enum Antiderivative {
    Off,
    FirstDegree,
    SecondDegree,
}

/// The antialiasing order the host runs the kernel at, as a function of the
/// oversampling factor (log2 of the oversampling ratio) and of whether
/// antiderivative antialiasing is enabled at all: disabled or not oversampled
/// means plain evaluation, a single doubling uses the first-order recurrence,
/// anything higher the second-order one.
pub open spec fn order_for(antiderivative_enabled: bool, oversampling_factor: u32) -> Antiderivative {
    if !antiderivative_enabled || oversampling_factor == 0 {
        Antiderivative::Off
    } else if oversampling_factor == 1 {
        Antiderivative::FirstDegree
    } else {
        Antiderivative::SecondDegree
    }
}

/// Chooses the antialiasing order for a processing block from the host's
/// oversampling setting and the antiderivative enable flag.
pub fn select_order(antiderivative_enabled: bool, oversampling_factor: u32) -> (order: Antiderivative)
    ensures
        order == order_for(antiderivative_enabled, oversampling_factor),
{
    if !antiderivative_enabled || oversampling_factor == 0 {
        Antiderivative::Off
    } else if oversampling_factor == 1 {
        Antiderivative::FirstDegree
    } else {
        Antiderivative::SecondDegree
    }
}

} // verus!
