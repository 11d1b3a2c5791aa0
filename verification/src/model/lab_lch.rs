//! The model of CIE Lab, in orthogonal and in polar form.

use super::ColorSpaceModel;
use super::steps_to;
use super::transformed;
use super::XyzD50;
use crate::color::Color;
use crate::color::Components;
use crate::flags::ColorFlags;
use crate::space::ColorSpace;
use crate::step::Step;
use vstd::prelude::*;

verus! {

/// A colour by lightness and the two opponent axes of CIE Lab.
pub struct Lab {
    pub lightness: u32,
    pub a: u32,
    pub b: u32,
    pub flags: ColorFlags,
}

impl Lab {
    /// The model of the given components and marks.
    pub fn new(lightness: u32, a: u32, b: u32, flags: ColorFlags) -> (r: Self)
        ensures
            r.lightness == lightness,
            r.a == a,
            r.b == b,
            r.flags == flags,
    {
        Self { lightness, a, b, flags }
    }

    /// The same colour by tristimulus values at the D50 white point.
    pub fn to_xyz_d50<K: Fn(Step, Components) -> Components>(&self, kernel: K) -> (r: XyzD50)
        requires
            call_requires(kernel, (Step::LabToXyzD50, self.spec_components())),
        ensures
            steps_to(kernel, Step::LabToXyzD50, *self, r),
    {
        transformed(self, Step::LabToXyzD50, kernel)
    }

    /// The same colour in polar form.
    pub fn to_lch<K: Fn(Step, Components) -> Components>(&self, kernel: K) -> (r: Lch)
        requires
            call_requires(kernel, (Step::LabToLch, self.spec_components())),
        ensures
            steps_to(kernel, Step::LabToLch, *self, r),
    {
        transformed(self, Step::LabToLch, kernel)
    }
}

impl ColorSpaceModel for Lab {
    open spec fn space() -> ColorSpace {
        ColorSpace::Lab
    }

    fn color_space() -> (r: ColorSpace) {
        ColorSpace::Lab
    }

    open spec fn spec_components(&self) -> Components {
        [self.lightness, self.a, self.b]
    }

    open spec fn spec_flags(&self) -> ColorFlags {
        self.flags
    }

    fn components(&self) -> (r: Components) {
        [self.lightness, self.a, self.b]
    }

    fn flags(&self) -> (r: ColorFlags) {
        self.flags
    }

    fn from_components(components: Components, flags: ColorFlags) -> (r: Self) {
        let r = Self::new(components[0], components[1], components[2], flags);
        proof {
            assert(r.spec_components() =~= components);
        }
        r
    }

    fn into_color(self, alpha: u32) -> (r: Color) {
        Color {
            components: [self.lightness, self.a, self.b],
            flags: self.flags,
            color_space: Self::color_space(),
            alpha,
        }
    }
}

/// A colour by lightness, chroma and hue of CIE Lab.
pub struct Lch {
    pub lightness: u32,
    pub chroma: u32,
    pub hue: u32,
    pub flags: ColorFlags,
}

impl Lch {
    /// The model of the given components and marks.
    pub fn new(lightness: u32, chroma: u32, hue: u32, flags: ColorFlags) -> (r: Self)
        ensures
            r.lightness == lightness,
            r.chroma == chroma,
            r.hue == hue,
            r.flags == flags,
    {
        Self { lightness, chroma, hue, flags }
    }

    /// The same colour in orthogonal form.
    pub fn to_lab<K: Fn(Step, Components) -> Components>(&self, kernel: K) -> (r: Lab)
        requires
            call_requires(kernel, (Step::LchToLab, self.spec_components())),
        ensures
            steps_to(kernel, Step::LchToLab, *self, r),
    {
        transformed(self, Step::LchToLab, kernel)
    }
}

impl ColorSpaceModel for Lch {
    open spec fn space() -> ColorSpace {
        ColorSpace::Lch
    }

    fn color_space() -> (r: ColorSpace) {
        ColorSpace::Lch
    }

    open spec fn spec_components(&self) -> Components {
        [self.lightness, self.chroma, self.hue]
    }

    open spec fn spec_flags(&self) -> ColorFlags {
        self.flags
    }

    fn components(&self) -> (r: Components) {
        [self.lightness, self.chroma, self.hue]
    }

    fn flags(&self) -> (r: ColorFlags) {
        self.flags
    }

    fn from_components(components: Components, flags: ColorFlags) -> (r: Self) {
        let r = Self::new(components[0], components[1], components[2], flags);
        proof {
            assert(r.spec_components() =~= components);
        }
        r
    }

    fn into_color(self, alpha: u32) -> (r: Color) {
        Color {
            components: [self.lightness, self.chroma, self.hue],
            flags: self.flags,
            color_space: Self::color_space(),
            alpha,
        }
    }
}

} // verus!
