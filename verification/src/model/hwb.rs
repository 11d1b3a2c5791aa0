//! The model of HWB.

use super::ColorSpaceModel;
use super::steps_to;
use super::transformed;
use super::Srgb;
use crate::color::Color;
use crate::color::Components;
use crate::flags::ColorFlags;
use crate::space::ColorSpace;
use crate::step::Step;
use vstd::prelude::*;

verus! {

/// A colour by hue, whiteness and blackness.
pub struct Hwb {
    pub hue: u32,
    pub whiteness: u32,
    pub blackness: u32,
    pub flags: ColorFlags,
}

impl Hwb {
    /// The model of the given components and marks.
    pub fn new(hue: u32, whiteness: u32, blackness: u32, flags: ColorFlags) -> (r: Self)
        ensures
            r.hue == hue,
            r.whiteness == whiteness,
            r.blackness == blackness,
            r.flags == flags,
    {
        Self { hue, whiteness, blackness, flags }
    }

    /// The same colour by red, green and blue.
    pub fn to_srgb<K: Fn(Step, Components) -> Components>(&self, kernel: K) -> (r: Srgb)
        requires
            call_requires(kernel, (Step::HwbToSrgb, self.spec_components())),
        ensures
            steps_to(kernel, Step::HwbToSrgb, *self, r),
    {
        transformed(self, Step::HwbToSrgb, kernel)
    }
}

impl ColorSpaceModel for Hwb {
    open spec fn space() -> ColorSpace {
        ColorSpace::Hwb
    }

    fn color_space() -> (r: ColorSpace) {
        ColorSpace::Hwb
    }

    open spec fn spec_components(&self) -> Components {
        [self.hue, self.whiteness, self.blackness]
    }

    open spec fn spec_flags(&self) -> ColorFlags {
        self.flags
    }

    fn components(&self) -> (r: Components) {
        [self.hue, self.whiteness, self.blackness]
    }

    fn flags(&self) -> (r: ColorFlags) {
        self.flags
    }

    fn from_components(components: Components, flags: ColorFlags) -> (r: Self) {
        let r = Self::new(components[0], components[1], components[2], flags);
        proof {
            assert(r.spec_components() =~= components);
        }
        r
    }

    fn into_color(self, alpha: u32) -> (r: Color) {
        Color {
            components: [self.hue, self.whiteness, self.blackness],
            flags: self.flags,
            color_space: Self::color_space(),
            alpha,
        }
    }
}

} // verus!
