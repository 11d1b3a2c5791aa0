//! The primitive transforms: one closed-form conversion between two adjacent
//! spaces each.
//!
//! A step is named by the space it reads and the space it writes. What it
//! does to the three component values is arithmetic on real numbers and is
//! not part of this crate; what it does to the marks of the unspecified
//! channels is [`Step::carry`].

use crate::flags::ChannelMarks;
use crate::flags::ColorFlags;
use crate::space::ColorSpace;
use vstd::prelude::*;

verus! {

/// A primitive transform.
#[derive(Clone, Copy, Debug, PartialEq, Eq, Structural)]
pub enum Step {
    /// Hue, saturation and lightness from red, green and blue.
    SrgbToHsl,
    /// Red, green and blue from hue, saturation and lightness.
    HslToSrgb,
    /// Hue, whiteness and blackness from red, green and blue.
    SrgbToHwb,
    /// Red, green and blue from hue, whiteness and blackness.
    HwbToSrgb,
    /// Polar to orthogonal form, in CIE Lab.
    LchToLab,
    /// Orthogonal to polar form, in CIE Lab.
    LabToLch,
    /// Polar to orthogonal form, in Oklab.
    OklchToOklab,
    /// Orthogonal to polar form, in Oklab.
    OklabToOklch,
    /// Gamma-encoded to linear-light values.
    SrgbToSrgbLinear,
    /// Linear-light to gamma-encoded values.
    SrgbLinearToSrgb,
    /// Linear-light sRGB to tristimulus values, by matrix.
    SrgbLinearToXyzD65,
    /// Tristimulus values to linear-light sRGB, by matrix.
    XyzD65ToSrgbLinear,
    /// Chromatic adaptation from D65 to D50, by matrix.
    XyzD65ToXyzD50,
    /// Chromatic adaptation from D50 to D65, by matrix.
    XyzD50ToXyzD65,
    /// CIE Lab to tristimulus values.
    LabToXyzD50,
    /// Tristimulus values to CIE Lab.
    XyzD50ToLab,
}

/// How a step hands the marks of its input channels on to its output
/// channels.
#[derive(Clone, Copy, Debug, PartialEq, Eq, Structural)]
pub enum Lineage {
    /// Every output channel is read off the input channel in the same place,
    /// or the step is a matrix: the marks pass through unchanged.
    Channelwise,
    /// Every output component is derived from all three input components: it
    /// is unspecified exactly where all three of them are.
    Mixed,
    /// The first component passes through; the other two are derived from
    /// the other two together and are unspecified exactly where both are.
    Planar,
}

impl Lineage {
    /// The marks of the output, from the marks of the input. The alpha mark
    /// always passes through.
    pub open spec fn carry(self, marks: ChannelMarks) -> ChannelMarks {
        match self {
            Lineage::Channelwise => marks,
            Lineage::Mixed => {
                let all = marks.c0 && marks.c1 && marks.c2;
                ChannelMarks { c0: all, c1: all, c2: all, alpha: marks.alpha }
            },
            Lineage::Planar => {
                let both = marks.c1 && marks.c2;
                ChannelMarks { c0: marks.c0, c1: both, c2: both, alpha: marks.alpha }
            },
        }
    }
}

impl Step {
    /// The space whose values the step reads.
    pub open spec fn spec_source(self) -> ColorSpace {
        match self {
            Step::SrgbToHsl => ColorSpace::Srgb,
            Step::HslToSrgb => ColorSpace::Hsl,
            Step::SrgbToHwb => ColorSpace::Srgb,
            Step::HwbToSrgb => ColorSpace::Hwb,
            Step::LchToLab => ColorSpace::Lch,
            Step::LabToLch => ColorSpace::Lab,
            Step::OklchToOklab => ColorSpace::Oklch,
            Step::OklabToOklch => ColorSpace::Oklab,
            Step::SrgbToSrgbLinear => ColorSpace::Srgb,
            Step::SrgbLinearToSrgb => ColorSpace::SrgbLinear,
            Step::SrgbLinearToXyzD65 => ColorSpace::SrgbLinear,
            Step::XyzD65ToSrgbLinear => ColorSpace::XyzD65,
            Step::XyzD65ToXyzD50 => ColorSpace::XyzD65,
            Step::XyzD50ToXyzD65 => ColorSpace::XyzD50,
            Step::LabToXyzD50 => ColorSpace::Lab,
            Step::XyzD50ToLab => ColorSpace::XyzD50,
        }
    }

    /// The step that undoes this one.
    pub open spec fn spec_inverse(self) -> Step {
        match self {
            Step::SrgbToHsl => Step::HslToSrgb,
            Step::HslToSrgb => Step::SrgbToHsl,
            Step::SrgbToHwb => Step::HwbToSrgb,
            Step::HwbToSrgb => Step::SrgbToHwb,
            Step::LchToLab => Step::LabToLch,
            Step::LabToLch => Step::LchToLab,
            Step::OklchToOklab => Step::OklabToOklch,
            Step::OklabToOklch => Step::OklchToOklab,
            Step::SrgbToSrgbLinear => Step::SrgbLinearToSrgb,
            Step::SrgbLinearToSrgb => Step::SrgbToSrgbLinear,
            Step::SrgbLinearToXyzD65 => Step::XyzD65ToSrgbLinear,
            Step::XyzD65ToSrgbLinear => Step::SrgbLinearToXyzD65,
            Step::XyzD65ToXyzD50 => Step::XyzD50ToXyzD65,
            Step::XyzD50ToXyzD65 => Step::XyzD65ToXyzD50,
            Step::LabToXyzD50 => Step::XyzD50ToLab,
            Step::XyzD50ToLab => Step::LabToXyzD50,
        }
    }

    /// The space whose values the step writes: the one that its inverse
    /// reads.
    pub open spec fn spec_target(self) -> ColorSpace {
        self.spec_inverse().spec_source()
    }

    /// How the step hands the marks on.
    pub open spec fn spec_lineage(self) -> Lineage {
        match self {
            Step::SrgbToHsl | Step::HslToSrgb | Step::SrgbToHwb | Step::HwbToSrgb => Lineage::Mixed,
            Step::LchToLab | Step::LabToLch | Step::OklchToOklab | Step::OklabToOklch => {
                Lineage::Planar
            },
            _ => Lineage::Channelwise,
        }
    }

    /// The marks of the step's output, from the marks of its input.
    pub open spec fn carry(self, marks: ChannelMarks) -> ChannelMarks {
        self.spec_lineage().carry(marks)
    }

    #[verifier::when_used_as_spec(spec_source)]
    pub fn source(self) -> (r: ColorSpace)
        ensures
            r == self.spec_source(),
    {
        match self {
            Step::SrgbToHsl | Step::SrgbToHwb | Step::SrgbToSrgbLinear => ColorSpace::Srgb,
            Step::HslToSrgb => ColorSpace::Hsl,
            Step::HwbToSrgb => ColorSpace::Hwb,
            Step::LchToLab => ColorSpace::Lch,
            Step::LabToLch | Step::LabToXyzD50 => ColorSpace::Lab,
            Step::OklchToOklab => ColorSpace::Oklch,
            Step::OklabToOklch => ColorSpace::Oklab,
            Step::SrgbLinearToSrgb | Step::SrgbLinearToXyzD65 => ColorSpace::SrgbLinear,
            Step::XyzD65ToSrgbLinear | Step::XyzD65ToXyzD50 => ColorSpace::XyzD65,
            Step::XyzD50ToXyzD65 | Step::XyzD50ToLab => ColorSpace::XyzD50,
        }
    }

    #[verifier::when_used_as_spec(spec_target)]
    pub fn target(self) -> (r: ColorSpace)
        ensures
            r == self.spec_target(),
    {
        match self {
            Step::HslToSrgb | Step::HwbToSrgb | Step::SrgbLinearToSrgb => ColorSpace::Srgb,
            Step::SrgbToHsl => ColorSpace::Hsl,
            Step::SrgbToHwb => ColorSpace::Hwb,
            Step::LabToLch => ColorSpace::Lch,
            Step::LchToLab | Step::XyzD50ToLab => ColorSpace::Lab,
            Step::OklabToOklch => ColorSpace::Oklch,
            Step::OklchToOklab => ColorSpace::Oklab,
            Step::SrgbToSrgbLinear | Step::XyzD65ToSrgbLinear => ColorSpace::SrgbLinear,
            Step::SrgbLinearToXyzD65 | Step::XyzD50ToXyzD65 => ColorSpace::XyzD65,
            Step::XyzD65ToXyzD50 | Step::LabToXyzD50 => ColorSpace::XyzD50,
        }
    }

    #[verifier::when_used_as_spec(spec_inverse)]
    pub fn inverse(self) -> (r: Step)
        ensures
            r == self.spec_inverse(),
    {
        match self {
            Step::SrgbToHsl => Step::HslToSrgb,
            Step::HslToSrgb => Step::SrgbToHsl,
            Step::SrgbToHwb => Step::HwbToSrgb,
            Step::HwbToSrgb => Step::SrgbToHwb,
            Step::LchToLab => Step::LabToLch,
            Step::LabToLch => Step::LchToLab,
            Step::OklchToOklab => Step::OklabToOklch,
            Step::OklabToOklch => Step::OklchToOklab,
            Step::SrgbToSrgbLinear => Step::SrgbLinearToSrgb,
            Step::SrgbLinearToSrgb => Step::SrgbToSrgbLinear,
            Step::SrgbLinearToXyzD65 => Step::XyzD65ToSrgbLinear,
            Step::XyzD65ToSrgbLinear => Step::SrgbLinearToXyzD65,
            Step::XyzD65ToXyzD50 => Step::XyzD50ToXyzD65,
            Step::XyzD50ToXyzD65 => Step::XyzD65ToXyzD50,
            Step::LabToXyzD50 => Step::XyzD50ToLab,
            Step::XyzD50ToLab => Step::LabToXyzD50,
        }
    }

    #[verifier::when_used_as_spec(spec_lineage)]
    pub fn lineage(self) -> (r: Lineage)
        ensures
            r == self.spec_lineage(),
    {
        match self {
            Step::SrgbToHsl | Step::HslToSrgb | Step::SrgbToHwb | Step::HwbToSrgb => Lineage::Mixed,
            Step::LchToLab | Step::LabToLch | Step::OklchToOklab | Step::OklabToOklch => {
                Lineage::Planar
            },
            Step::SrgbToSrgbLinear
            | Step::SrgbLinearToSrgb
            | Step::SrgbLinearToXyzD65
            | Step::XyzD65ToSrgbLinear
            | Step::XyzD65ToXyzD50
            | Step::XyzD50ToXyzD65
            | Step::LabToXyzD50
            | Step::XyzD50ToLab => Lineage::Channelwise,
        }
    }

    /// The flags of the step's output, from the flags of its input.
    pub fn propagate(self, flags: ColorFlags) -> (r: ColorFlags)
        ensures
            r@ == self.carry(flags@),
    {
        let alpha = flags.has_alpha();
        match self.lineage() {
            Lineage::Channelwise => flags,
            Lineage::Mixed => {
                let all = flags.has_c0() && flags.has_c1() && flags.has_c2();
                ColorFlags::from_marks(all, all, all, alpha)
            },
            Lineage::Planar => {
                let both = flags.has_c1() && flags.has_c2();
                ColorFlags::from_marks(flags.has_c0(), both, both, alpha)
            },
        }
    }

    /// A step and its inverse undo each other's change of space.
    pub proof fn lemma_inverse(self)
        ensures
            self.inverse().inverse() == self,
            self.inverse().source() == self.target(),
            self.inverse().target() == self.source(),
            self.inverse().lineage() == self.lineage(),
            self.source() != self.target(),
    {
    }

    /// There is one step at most between two spaces.
    pub proof fn lemma_unique(self, other: Step)
        requires
            self.source() == other.source(),
            self.target() == other.target(),
        ensures
            self == other,
    {
    }

    /// Carrying the marks never changes the alpha mark, never marks a
    /// component of a colour that had none marked, and keeps all three
    /// components marked where all three were.
    pub proof fn lemma_carry(self, marks: ChannelMarks)
        ensures
            self.carry(marks).alpha == marks.alpha,
            marks.all_components() ==> self.carry(marks).all_components(),
            !marks.c0 && !marks.c1 && !marks.c2 ==> !self.carry(marks).c0 && !self.carry(marks).c1
                && !self.carry(marks).c2,
            self.carry(self.carry(marks)) == self.carry(marks),
    {
    }
}

} // verus!
