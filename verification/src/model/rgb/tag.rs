//! The tags that tell the RGB models apart.

use vstd::prelude::*;

verus! {

/// A tag for an RGB colour space.
pub trait RgbColorSpace {

}

/// A tag for the encoding of RGB values.
pub trait RgbEncoding {

}

/// sRGB.
pub struct Srgb;

impl RgbColorSpace for Srgb {

}

/// Display P3.
pub struct DisplayP3;

impl RgbColorSpace for DisplayP3 {

}

/// Adobe RGB (1998).
pub struct A98Rgb;

impl RgbColorSpace for A98Rgb {

}

/// ProPhoto RGB.
pub struct ProphotoRgb;

impl RgbColorSpace for ProphotoRgb {

}

/// ITU-R BT.2020.
pub struct Rec2020;

impl RgbColorSpace for Rec2020 {

}

/// Values with the transfer function of the space applied.
pub struct GammaEncoded;

impl RgbEncoding for GammaEncoded {

}

/// Values proportional to light.
pub struct LinearLight;

impl RgbEncoding for LinearLight {

}

} // verus!
