//! The model of CIE XYZ, at the two white points.

use super::steps_to;
use super::transformed;
use super::ColorSpaceModel;
use super::Lab;
use super::SrgbLinear;
use crate::color::Color;
use crate::color::Components;
use crate::flags::ColorFlags;
use crate::space::ColorSpace;
use crate::step::Step;
use std::marker::PhantomData;
use vstd::prelude::*;

verus! {

/// A reference white.
pub trait WhitePoint {
    /// The tristimulus values of the white point, as binary32 bit patterns.
    const WHITE_POINT: Components;
}

/// The D50 white point: X = 0.9642956764295677, Y = 1, Z = 0.8251046025104602,
/// each rounded to binary32.
pub struct D50;

impl WhitePoint for D50 {
    const WHITE_POINT: Components = [0x3f76_dc15, 0x3f80_0000, 0x3f53_3a0e];
}

/// The D65 white point: X = 0.9504559270516716, Y = 1, Z = 1.0890577507598784,
/// each rounded to binary32.
pub struct D65;

impl WhitePoint for D65 {
    const WHITE_POINT: Components = [0x3f73_5114, 0x3f80_0000, 0x3f8b_663f];
}

/// A colour by tristimulus values, relative to the white point `W`.
pub struct Xyz<W: WhitePoint> {
    pub x: u32,
    pub y: u32,
    pub z: u32,
    pub flags: ColorFlags,
    pub white_point: PhantomData<W>,
}

impl<W: WhitePoint> Xyz<W> {
    /// The model of the given components and marks.
    pub fn new(x: u32, y: u32, z: u32, flags: ColorFlags) -> (r: Self)
        ensures
            r.x == x,
            r.y == y,
            r.z == z,
            r.flags == flags,
    {
        Self { x, y, z, flags, white_point: PhantomData }
    }
}

/// CIE XYZ at the D50 white point: the interchange space.
pub type XyzD50 = Xyz<D50>;

/// CIE XYZ at the D65 white point.
pub type XyzD65 = Xyz<D65>;

impl ColorSpaceModel for XyzD50 {
    open spec fn space() -> ColorSpace {
        ColorSpace::XyzD50
    }

    fn color_space() -> (r: ColorSpace) {
        ColorSpace::XyzD50
    }

    open spec fn spec_components(&self) -> Components {
        [self.x, self.y, self.z]
    }

    open spec fn spec_flags(&self) -> ColorFlags {
        self.flags
    }

    fn components(&self) -> (r: Components) {
        [self.x, self.y, self.z]
    }

    fn flags(&self) -> (r: ColorFlags) {
        self.flags
    }

    fn from_components(components: Components, flags: ColorFlags) -> (r: Self) {
        let r = Self::new(components[0], components[1], components[2], flags);
        proof {
            assert(r.spec_components() =~= components);
        }
        r
    }

    fn into_color(self, alpha: u32) -> (r: Color) {
        Color {
            components: [self.x, self.y, self.z],
            flags: self.flags,
            color_space: Self::color_space(),
            alpha,
        }
    }
}

impl ColorSpaceModel for XyzD65 {
    open spec fn space() -> ColorSpace {
        ColorSpace::XyzD65
    }

    fn color_space() -> (r: ColorSpace) {
        ColorSpace::XyzD65
    }

    open spec fn spec_components(&self) -> Components {
        [self.x, self.y, self.z]
    }

    open spec fn spec_flags(&self) -> ColorFlags {
        self.flags
    }

    fn components(&self) -> (r: Components) {
        [self.x, self.y, self.z]
    }

    fn flags(&self) -> (r: ColorFlags) {
        self.flags
    }

    fn from_components(components: Components, flags: ColorFlags) -> (r: Self) {
        let r = Self::new(components[0], components[1], components[2], flags);
        proof {
            assert(r.spec_components() =~= components);
        }
        r
    }

    fn into_color(self, alpha: u32) -> (r: Color) {
        Color {
            components: [self.x, self.y, self.z],
            flags: self.flags,
            color_space: Self::color_space(),
            alpha,
        }
    }
}

impl XyzD50 {
    /// The same colour adapted to the D65 white point.
    pub fn to_xyz_d65<K: Fn(Step, Components) -> Components>(&self, kernel: K) -> (r: XyzD65)
        requires
            call_requires(kernel, (Step::XyzD50ToXyzD65, self.spec_components())),
        ensures
            steps_to(kernel, Step::XyzD50ToXyzD65, *self, r),
    {
        transformed(self, Step::XyzD50ToXyzD65, kernel)
    }

    /// The same colour in CIE Lab.
    pub fn to_lab<K: Fn(Step, Components) -> Components>(&self, kernel: K) -> (r: Lab)
        requires
            call_requires(kernel, (Step::XyzD50ToLab, self.spec_components())),
        ensures
            steps_to(kernel, Step::XyzD50ToLab, *self, r),
    {
        transformed(self, Step::XyzD50ToLab, kernel)
    }
}

impl XyzD65 {
    /// The same colour by linear-light red, green and blue.
    pub fn to_srgb<K: Fn(Step, Components) -> Components>(&self, kernel: K) -> (r: SrgbLinear)
        requires
            call_requires(kernel, (Step::XyzD65ToSrgbLinear, self.spec_components())),
        ensures
            steps_to(kernel, Step::XyzD65ToSrgbLinear, *self, r),
    {
        transformed(self, Step::XyzD65ToSrgbLinear, kernel)
    }

    /// The same colour adapted to the D50 white point.
    pub fn to_xyz_d50<K: Fn(Step, Components) -> Components>(&self, kernel: K) -> (r: XyzD50)
        requires
            call_requires(kernel, (Step::XyzD65ToXyzD50, self.spec_components())),
        ensures
            steps_to(kernel, Step::XyzD65ToXyzD50, *self, r),
    {
        transformed(self, Step::XyzD65ToXyzD50, kernel)
    }
}

} // verus!
