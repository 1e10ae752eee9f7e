//! The packed, per-point representation of a splat.

use vstd::prelude::*;
use crate::material::spherical_harmonics::SphericalHarmonicCoefficients;

verus! {

/// Bit pattern of the number one.
pub const ONE_BITS: u32 = 0x3f80_0000;

/// Bit pattern of one half.
pub const HALF_BITS: u32 = 0x3f00_0000;

/// Bit pattern of minus one half.
pub const MINUS_HALF_BITS: u32 = 0xbf00_0000;

/// Position of a splat and its visibility flag.
#[derive(Clone, Copy, Debug, PartialEq, Eq, Default)]
pub struct PositionVisibility {
    pub position: [u32; 3],
    pub visibility: u32,
}

/// Orientation of a splat, a quaternion stored as given.
#[derive(Clone, Copy, Debug, PartialEq, Eq, Default)]
pub struct Rotation {
    pub rotation: [u32; 4],
}

/// Scale along the three axes, and opacity.
#[derive(Clone, Copy, Debug, PartialEq, Eq, Default)]
pub struct ScaleOpacity {
    pub scale: [u32; 3],
    pub opacity: u32,
}

/// One splat with all its attributes side by side.
#[derive(Clone, Copy, Debug, PartialEq, Eq)]
pub struct Gaussian {
    pub rotation: Rotation,
    pub position_visibility: PositionVisibility,
    pub scale_opacity: ScaleOpacity,
    pub spherical_harmonic: SphericalHarmonicCoefficients,
}

/// The attributes of one splat as mathematical values: what a `Gaussian`
/// holds, array by array.
pub struct Splat {
    pub rotation: Seq<u32>,
    pub position: Seq<u32>,
    pub visibility: u32,
    pub scale: Seq<u32>,
    pub opacity: u32,
    pub coefficients: Seq<u32>,
}

impl Splat {
    /// The splat whose every attribute is the all-zero bit pattern.
    pub open spec fn zero() -> Splat {
        Splat {
            rotation: Seq::new(4, |i: int| 0u32),
            position: Seq::new(3, |i: int| 0u32),
            visibility: 0,
            scale: Seq::new(3, |i: int| 0u32),
            opacity: 0,
            coefficients: Seq::new(48, |i: int| 0u32),
        }
    }

    /// Every attribute group has the length that a `Gaussian` gives it.
    pub open spec fn well_shaped(self) -> bool {
        &&& self.rotation.len() == 4
        &&& self.position.len() == 3
        &&& self.scale.len() == 3
        &&& self.coefficients.len() == 48
    }
}

impl View for Gaussian {
    type V = Splat;

    open spec fn view(&self) -> Splat {
        Splat {
            rotation: self.rotation.rotation@,
            position: self.position_visibility.position@,
            visibility: self.position_visibility.visibility,
            scale: self.scale_opacity.scale@,
            opacity: self.scale_opacity.opacity,
            coefficients: self.spherical_harmonic.coefficients@,
        }
    }
}

/// Two splats with the same attribute values are the same splat.
pub proof fn lemma_gaussian_view_injective(a: Gaussian, b: Gaussian)
    requires
        a@ == b@,
    ensures
        a == b,
{
    assert(a.rotation.rotation =~= b.rotation.rotation);
    assert(a.position_visibility.position =~= b.position_visibility.position);
    assert(a.scale_opacity.scale =~= b.scale_opacity.scale);
    assert(a.spherical_harmonic.coefficients =~= b.spherical_harmonic.coefficients);
}

impl Gaussian {
    /// This splat with its position replaced.
    pub open spec fn with_position(self, position: [u32; 3]) -> Gaussian {
        Gaussian {
            position_visibility: PositionVisibility {
                position,
                visibility: self.position_visibility.visibility,
            },
            ..self
        }
    }

    /// This splat with its visibility flag replaced.
    pub open spec fn with_visibility(self, visibility: u32) -> Gaussian {
        Gaussian {
            position_visibility: PositionVisibility {
                position: self.position_visibility.position,
                visibility,
            },
            ..self
        }
    }

    /// This splat with its quaternion replaced.
    pub open spec fn with_rotation(self, rotation: [u32; 4]) -> Gaussian {
        Gaussian { rotation: Rotation { rotation }, ..self }
    }

    /// This splat with its scale replaced.
    pub open spec fn with_scale(self, scale: [u32; 3]) -> Gaussian {
        Gaussian {
            scale_opacity: ScaleOpacity { scale, opacity: self.scale_opacity.opacity },
            ..self
        }
    }

    /// This splat with its colour coefficients replaced.
    pub open spec fn with_coefficients(self, coefficients: [u32; 48]) -> Gaussian {
        Gaussian {
            spherical_harmonic: SphericalHarmonicCoefficients { coefficients },
            ..self
        }
    }
}

impl Default for Gaussian {
    fn default() -> (g: Self)
        ensures
            g@ == Splat::zero(),
    {
        let g =
        Gaussian {
            rotation: Rotation { rotation: [0u32; 4] },
            position_visibility: PositionVisibility { position: [0u32; 3], visibility: 0 },
            scale_opacity: ScaleOpacity { scale: [0u32; 3], opacity: 0 },
            spherical_harmonic: SphericalHarmonicCoefficients { coefficients: [0u32; 48] },
        };
        proof {
            assert(g@.rotation =~= Splat::zero().rotation);
            assert(g@.position =~= Splat::zero().position);
            assert(g@.scale =~= Splat::zero().scale);
            assert(g@.coefficients =~= Splat::zero().coefficients);
        }
        g
    }
}

} // verus!
