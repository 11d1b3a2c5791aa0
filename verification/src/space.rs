//! The supported colour spaces and the families they belong to.

use vstd::prelude::*;

verus! {

/// A colour space that a colour value can be tagged with.
#[derive(Clone, Copy, Debug, PartialEq, Eq, Structural)]
pub enum ColorSpace {
    Srgb,
    Hsl,
    Hwb,
    Lab,
    Lch,
    Oklab,
    Oklch,
    SrgbLinear,
    DisplayP3,
    A98Rgb,
    ProphotoRgb,
    Rec2020,
    XyzD50,
    XyzD65,
}

impl ColorSpace {
    /// Whether the space is addressed by red, green and blue in the notation
    /// of the `rgb()` family.
    pub open spec fn rgb_like(self) -> bool {
        self is Srgb || self is DisplayP3 || self is A98Rgb || self is ProphotoRgb
            || self is Rec2020
    }

    /// Whether the space has a lightness axis and two opponent axes.
    pub open spec fn rectangular_orthogonal(self) -> bool {
        self is Lab || self is Oklab
    }

    /// Whether the space has a lightness axis, a chroma and a hue angle.
    pub open spec fn cylindrical_polar(self) -> bool {
        self is Lch || self is Oklch
    }

    /// Whether the space is a tristimulus space.
    pub open spec fn xyz_like(self) -> bool {
        self is XyzD50 || self is XyzD65
    }

    /// A space belongs to at most one of the four families.
    pub proof fn lemma_families_exclusive(self)
        ensures
            !(self.rgb_like() && self.rectangular_orthogonal()),
            !(self.rgb_like() && self.cylindrical_polar()),
            !(self.rgb_like() && self.xyz_like()),
            !(self.rectangular_orthogonal() && self.cylindrical_polar()),
            !(self.rectangular_orthogonal() && self.xyz_like()),
            !(self.cylindrical_polar() && self.xyz_like()),
    {
    }

    pub fn is_rgb_like(&self) -> (r: bool)
        ensures
            r == self.rgb_like(),
    {
        matches!(
            self,
            Self::Srgb | Self::DisplayP3 | Self::A98Rgb | Self::ProphotoRgb | Self::Rec2020
        )
    }

    pub fn is_rectangular_orthogonal(&self) -> (r: bool)
        ensures
            r == self.rectangular_orthogonal(),
    {
        matches!(self, Self::Lab | Self::Oklab)
    }

    pub fn is_cylindrical_polar(&self) -> (r: bool)
        ensures
            r == self.cylindrical_polar(),
    {
        matches!(self, Self::Lch | Self::Oklch)
    }

    pub fn is_xyz_like(&self) -> (r: bool)
        ensures
            r == self.xyz_like(),
    {
        matches!(self, Self::XyzD50 | Self::XyzD65)
    }
}

} // verus!
