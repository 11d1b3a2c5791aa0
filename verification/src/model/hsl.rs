//! The model of HSL.

use super::ColorSpaceModel;
use super::steps_to;
use super::transformed;
use super::Srgb;
use crate::color::Color;
use crate::color::Components;
use crate::flags::ColorFlags;
use crate::space::ColorSpace;
use crate::step::Step;
use vstd::prelude::*;

verus! {

/// A colour by hue, saturation and lightness.
pub struct Hsl {
    pub hue: u32,
    pub saturation: u32,
    pub lightness: u32,
    pub flags: ColorFlags,
}

impl Hsl {
    /// The model of the given components and marks.
    pub fn new(hue: u32, saturation: u32, lightness: u32, flags: ColorFlags) -> (r: Self)
        ensures
            r.hue == hue,
            r.saturation == saturation,
            r.lightness == lightness,
            r.flags == flags,
    {
        Self { hue, saturation, lightness, flags }
    }

    /// The same colour by red, green and blue.
    pub fn to_srgb<K: Fn(Step, Components) -> Components>(&self, kernel: K) -> (r: Srgb)
        requires
            call_requires(kernel, (Step::HslToSrgb, self.spec_components())),
        ensures
            steps_to(kernel, Step::HslToSrgb, *self, r),
    {
        transformed(self, Step::HslToSrgb, kernel)
    }
}

impl ColorSpaceModel for Hsl {
    open spec fn space() -> ColorSpace {
        ColorSpace::Hsl
    }

    fn color_space() -> (r: ColorSpace) {
        ColorSpace::Hsl
    }

    open spec fn spec_components(&self) -> Components {
        [self.hue, self.saturation, self.lightness]
    }

    open spec fn spec_flags(&self) -> ColorFlags {
        self.flags
    }

    fn components(&self) -> (r: Components) {
        [self.hue, self.saturation, self.lightness]
    }

    fn flags(&self) -> (r: ColorFlags) {
        self.flags
    }

    fn from_components(components: Components, flags: ColorFlags) -> (r: Self) {
        let r = Self::new(components[0], components[1], components[2], flags);
        proof {
            assert(r.spec_components() =~= components);
        }
        r
    }

    fn into_color(self, alpha: u32) -> (r: Color) {
        Color {
            components: [self.hue, self.saturation, self.lightness],
            flags: self.flags,
            color_space: Self::color_space(),
            alpha,
        }
    }
}

} // verus!
