//! The model of the RGB spaces.

use super::steps_to;
use super::transformed;
use super::ColorSpaceModel;
use super::Hsl;
use super::Hwb;
use super::XyzD65;
use crate::color::Color;
use crate::color::Components;
use crate::flags::ColorFlags;
use crate::space::ColorSpace;
use crate::step::Step;
use std::marker::PhantomData;
use vstd::prelude::*;

pub mod tag;

verus! {

/// A colour by red, green and blue, in the RGB space `C` and the encoding
/// `E`.
pub struct Rgb<C: tag::RgbColorSpace, E: tag::RgbEncoding> {
    pub red: u32,
    pub green: u32,
    pub blue: u32,
    pub flags: ColorFlags,
    pub color_space_tag: PhantomData<C>,
    pub encoding_tag: PhantomData<E>,
}

impl<C: tag::RgbColorSpace, E: tag::RgbEncoding> Rgb<C, E> {
    /// The model of the given components and marks.
    pub fn new(red: u32, green: u32, blue: u32, flags: ColorFlags) -> (r: Self)
        ensures
            r.red == red,
            r.green == green,
            r.blue == blue,
            r.flags == flags,
    {
        Self { red, green, blue, flags, color_space_tag: PhantomData, encoding_tag: PhantomData }
    }
}

/// Gamma-encoded sRGB.
pub type Srgb = Rgb<tag::Srgb, tag::GammaEncoded>;

/// Linear-light sRGB.
pub type SrgbLinear = Rgb<tag::Srgb, tag::LinearLight>;

impl ColorSpaceModel for Srgb {
    open spec fn space() -> ColorSpace {
        ColorSpace::Srgb
    }

    fn color_space() -> (r: ColorSpace) {
        ColorSpace::Srgb
    }

    open spec fn spec_components(&self) -> Components {
        [self.red, self.green, self.blue]
    }

    open spec fn spec_flags(&self) -> ColorFlags {
        self.flags
    }

    fn components(&self) -> (r: Components) {
        [self.red, self.green, self.blue]
    }

    fn flags(&self) -> (r: ColorFlags) {
        self.flags
    }

    fn from_components(components: Components, flags: ColorFlags) -> (r: Self) {
        let r = Self::new(components[0], components[1], components[2], flags);
        proof {
            assert(r.spec_components() =~= components);
        }
        r
    }

    fn into_color(self, alpha: u32) -> (r: Color) {
        Color {
            components: [self.red, self.green, self.blue],
            flags: self.flags,
            color_space: Self::color_space(),
            alpha,
        }
    }
}

impl ColorSpaceModel for SrgbLinear {
    open spec fn space() -> ColorSpace {
        ColorSpace::SrgbLinear
    }

    fn color_space() -> (r: ColorSpace) {
        ColorSpace::SrgbLinear
    }

    open spec fn spec_components(&self) -> Components {
        [self.red, self.green, self.blue]
    }

    open spec fn spec_flags(&self) -> ColorFlags {
        self.flags
    }

    fn components(&self) -> (r: Components) {
        [self.red, self.green, self.blue]
    }

    fn flags(&self) -> (r: ColorFlags) {
        self.flags
    }

    fn from_components(components: Components, flags: ColorFlags) -> (r: Self) {
        let r = Self::new(components[0], components[1], components[2], flags);
        proof {
            assert(r.spec_components() =~= components);
        }
        r
    }

    fn into_color(self, alpha: u32) -> (r: Color) {
        Color {
            components: [self.red, self.green, self.blue],
            flags: self.flags,
            color_space: Self::color_space(),
            alpha,
        }
    }
}

impl Srgb {
    /// The same colour with the transfer function undone.
    pub fn to_linear_light<K: Fn(Step, Components) -> Components>(&self, kernel: K) -> (r: SrgbLinear)
        requires
            call_requires(kernel, (Step::SrgbToSrgbLinear, self.spec_components())),
        ensures
            steps_to(kernel, Step::SrgbToSrgbLinear, *self, r),
    {
        transformed(self, Step::SrgbToSrgbLinear, kernel)
    }

    /// The same colour by hue, saturation and lightness.
    pub fn to_hsl<K: Fn(Step, Components) -> Components>(&self, kernel: K) -> (r: Hsl)
        requires
            call_requires(kernel, (Step::SrgbToHsl, self.spec_components())),
        ensures
            steps_to(kernel, Step::SrgbToHsl, *self, r),
    {
        transformed(self, Step::SrgbToHsl, kernel)
    }

    /// The same colour by hue, whiteness and blackness.
    pub fn to_hwb<K: Fn(Step, Components) -> Components>(&self, kernel: K) -> (r: Hwb)
        requires
            call_requires(kernel, (Step::SrgbToHwb, self.spec_components())),
        ensures
            steps_to(kernel, Step::SrgbToHwb, *self, r),
    {
        transformed(self, Step::SrgbToHwb, kernel)
    }
}

impl SrgbLinear {
    /// The same colour with the transfer function applied.
    pub fn to_gamma_encoded<K: Fn(Step, Components) -> Components>(&self, kernel: K) -> (r: Srgb)
        requires
            call_requires(kernel, (Step::SrgbLinearToSrgb, self.spec_components())),
        ensures
            steps_to(kernel, Step::SrgbLinearToSrgb, *self, r),
    {
        transformed(self, Step::SrgbLinearToSrgb, kernel)
    }

    /// The same colour by tristimulus values at the D65 white point.
    pub fn to_xyz_d65<K: Fn(Step, Components) -> Components>(&self, kernel: K) -> (r: XyzD65)
        requires
            call_requires(kernel, (Step::SrgbLinearToXyzD65, self.spec_components())),
        ensures
            steps_to(kernel, Step::SrgbLinearToXyzD65, *self, r),
    {
        transformed(self, Step::SrgbLinearToXyzD65, kernel)
    }
}

} // verus!
