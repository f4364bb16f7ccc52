//! The size of the window, and the scale that makes a unit square cover it.

use vstd::prelude::*;
use crate::scalar::Scalar;

verus! {

/// Width and height of the window, in the host's units.
///
/// The host is the authority on the size; the crate keeps whatever pair it
/// reports and asks nothing of it.
#[derive(Clone, Copy, Debug, PartialEq, Eq, Structural)]
pub struct ViewportSize {
    pub width: Scalar,
    pub height: Scalar,
}

impl ViewportSize {
    pub open spec fn spec_new(width: Scalar, height: Scalar) -> ViewportSize {
        ViewportSize { width, height }
    }

    #[verifier::when_used_as_spec(spec_new)]
    pub fn new(width: Scalar, height: Scalar) -> (size: ViewportSize)
        ensures
            size == ViewportSize::spec_new(width, height),
    {
        ViewportSize { width, height }
    }

    /// The size whose sides have the given bit patterns.
    pub fn from_bits(width: u32, height: u32) -> (size: ViewportSize)
        ensures
            size.width.bits == width,
            size.height.bits == height,
    {
        ViewportSize { width: Scalar::from_bits(width), height: Scalar::from_bits(height) }
    }
}

/// A scale along the three axes.
#[derive(Clone, Copy, Debug, PartialEq, Eq, Structural)]
pub struct Scale {
    pub x: Scalar,
    pub y: Scalar,
    pub z: Scalar,
}

impl Scale {
    /// The scale under which a unit square covers a window of the given
    /// size: the width, the height, and one along the axis of depth.
    pub open spec fn spec_covering(size: ViewportSize) -> Scale {
        Scale { x: size.width, y: size.height, z: Scalar::spec_one() }
    }

    #[verifier::when_used_as_spec(spec_covering)]
    pub fn covering(size: ViewportSize) -> (scale: Scale)
        ensures
            scale == Scale::spec_covering(size),
    {
        Scale { x: size.width, y: size.height, z: Scalar::one() }
    }

    /// Whether the scale leaves depth alone, as every covering scale does.
    pub open spec fn is_flat(self) -> bool {
        self.z == Scalar::spec_one()
    }
}

} // verus!
