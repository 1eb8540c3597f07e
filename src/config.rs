//! Blur settings as the compositor hands them over.
use vstd::prelude::*;

verus! {

/// A floating-point value carried by its IEEE-754 bit pattern. The library
/// compares and forwards such values but does no arithmetic on them; two values
/// count as equal when their bits are.
#[derive(Clone, Copy, Debug, PartialEq, Eq, Structural)]
pub struct FloatBits {
    pub bits: u64,
}

/// Settings of a blur, fixed for the duration of one call.
#[derive(Clone, Copy, Debug, PartialEq, Eq, Structural)]
pub struct BlurConfig {
    /// Whether blur is drawn at all.
    pub on: bool,
    /// Number of downscale passes, and as many upscale passes.
    pub passes: u32,
    /// Sampling offset of each pass, in pixels.
    pub radius: u32,
    /// Amount of noise mixed into the result.
    pub noise: FloatBits,
    /// How strongly the blurred surface's own alpha is ignored.
    pub ignore_alpha: FloatBits,
    /// Whether the blur sees through to the background only.
    pub x_ray: bool,
}

impl BlurConfig {
    pub open spec fn is_disabled_spec(self) -> bool {
        !self.on || self.passes == 0 || self.radius == 0
    }

    /// Whether no blur is to be drawn with these settings: blur is off, or it
    /// has no pass, or its radius is zero.
    pub fn is_disabled(&self) -> (r: bool)
        ensures
            r == self.is_disabled_spec(),
    {
        !self.on || self.passes == 0 || self.radius == 0
    }
}

} // verus!
