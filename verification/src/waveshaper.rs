//! Region dispatch for the soft-clipping transfer-curve family.
//!
//! The transfer curve `f(x, s)`, and with it both of its antiderivatives, is
//! defined piecewise over three regions of `|x|` whose boundaries depend on
//! the softness `s`: an identity region below `1 - s`, a sine-shaped knee up
//! to `1 + s * (pi/2 - 1)` (the point where the knee's slope reaches zero and
//! meets the clip region smoothly), and full clipping beyond that. The three
//! formulas themselves are floating-point work done by the caller; what is
//! fixed here, once for all of them, is which region a sample falls in, with
//! the identity region taking priority at the lower boundary exactly as the
//! curve's definition orders its cases.

use vstd::prelude::*;

verus! {

/// One of the three pieces of the transfer curve, by growing `|x|`.
#[derive(Clone, Copy, Debug, PartialEq, Eq, Structural)]
pub enum Region {
    /// `|x| < 1 - s`: the curve is the identity, no distortion.
    Linear,
    /// `1 - s <= |x| < 1 + s * (pi/2 - 1)`: the sine-shaped soft knee.
    Knee,
    /// `|x| >= 1 + s * (pi/2 - 1)`: full clipping at `sign(x)`.
    HardClip,
}

/// The region a sample falls in, given the two boundary comparisons the
/// caller has evaluated: `below_knee` is `|x| < 1 - s` and `below_clip` is
/// `|x| < 1 + s * (pi/2 - 1)`. The linear case is tested first, so for the
/// well-formed inputs (the lower boundary never exceeds the upper one for
/// `s >= 0`) the two comparisons cannot disagree with the region returned.
pub open spec fn region_of(below_knee: bool, below_clip: bool) -> Region {
    if below_knee {
        Region::Linear
    } else if below_clip {
        Region::Knee
    } else {
        Region::HardClip
    }
}

/// Dispatches a sample to the piece of the transfer curve that applies to
/// it. `below_knee` must be the comparison `|x| < 1 - s` and `below_clip`
/// the comparison `|x| < 1 + s * (pi/2 - 1)`.
pub fn classify(below_knee: bool, below_clip: bool) -> (region: Region)
    ensures
        region == region_of(below_knee, below_clip),
{
    if below_knee {
        Region::Linear
    } else if below_clip {
        Region::Knee
    } else {
        Region::HardClip
    }
}

} // verus!
