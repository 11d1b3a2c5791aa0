//! The typed models: a colour's three components under the names that one
//! space gives them.
//!
//! A model is made from a colour only where the colour's space is the
//! model's. Each model offers the primitive transforms that read its space;
//! the arithmetic is the kernel's, as in [`crate::convert`].

use crate::color::Color;
use crate::color::Components;
use crate::flags::ColorFlags;
use crate::space::ColorSpace;
use crate::step::Step;
use vstd::prelude::*;

pub mod hsl;
pub mod hwb;
pub mod lab_lch;
pub mod rgb;
pub mod xyz;

pub use hsl::Hsl;
pub use hwb::Hwb;
pub use lab_lch::Lab;
pub use lab_lch::Lch;
pub use rgb::Rgb;
pub use rgb::Srgb;
pub use rgb::SrgbLinear;
pub use xyz::WhitePoint;
pub use xyz::Xyz;
pub use xyz::XyzD50;
pub use xyz::XyzD65;
pub use xyz::D50;
pub use xyz::D65;

verus! {

/// A typed model of the colours of one space.
pub trait ColorSpaceModel: Sized {
    /// The space that the model belongs to.
    spec fn space() -> ColorSpace;

    /// The space that the model belongs to.
    fn color_space() -> (r: ColorSpace)
        ensures
            r == Self::space(),
    ;

    /// The three components, in the order of the colour record.
    spec fn spec_components(&self) -> Components;

    /// The marks of the unspecified channels.
    spec fn spec_flags(&self) -> ColorFlags;

    /// The three components, in the order of the colour record.
    fn components(&self) -> (r: Components)
        ensures
            r == self.spec_components(),
    ;

    /// The marks of the unspecified channels.
    fn flags(&self) -> (r: ColorFlags)
        ensures
            r == self.spec_flags(),
    ;

    /// The model of the given components and marks.
    fn from_components(components: Components, flags: ColorFlags) -> (r: Self)
        ensures
            r.spec_components() == components,
            r.spec_flags() == flags,
    ;

    /// The colour of the model's space with the model's components and
    /// marks, and the given alpha value.
    fn into_color(self, alpha: u32) -> (r: Color)
        ensures
            r.color_space == Self::space(),
            r.components == self.spec_components(),
            r.flags == self.spec_flags(),
            r.alpha == alpha,
    ;
}

/// Whether `to` is a result of the step on `from`: the kernel may have
/// computed its components from those of `from`, and its marks are those of
/// `from` carried over the step.
pub open spec fn steps_to<A: ColorSpaceModel, B: ColorSpaceModel, K: Fn(Step, Components) -> Components>(
    kernel: K,
    step: Step,
    from: A,
    to: B,
) -> bool {
    &&& call_ensures(kernel, (step, from.spec_components()), to.spec_components())
    &&& to.spec_flags()@ == step.carry(from.spec_flags()@)
}

/// The model after one step: the components that the kernel computes, and
/// the marks carried over the step.
pub fn transformed<A, B, K>(from: &A, step: Step, kernel: K) -> (r: B) where
    A: ColorSpaceModel,
    B: ColorSpaceModel,
    K: Fn(Step, Components) -> Components,

    requires
        step.source() == A::space(),
        step.target() == B::space(),
        call_requires(kernel, (step, from.spec_components())),
    ensures
        steps_to(kernel, step, *from, r),
{
    let values = kernel(step, from.components());
    B::from_components(values, step.propagate(from.flags()))
}

impl Color {
    /// The colour's components and marks as the model of its space.
    ///
    /// The colour must be in the space of the model asked for.
    pub fn as_model<C: ColorSpaceModel>(&self) -> (r: C)
        requires
            self.color_space == C::space(),
        ensures
            r.spec_components() == self.components,
            r.spec_flags() == self.flags,
    {
        C::from_components(self.components, self.flags)
    }

    /// The colour's components and marks as the model of its space, where
    /// the colour is in the space of the model asked for.
    pub fn try_as_model<C: ColorSpaceModel>(&self) -> (r: Option<C>)
        ensures
            r is Some <==> self.color_space == C::space(),
            r is Some ==> r->0.spec_components() == self.components && r->0.spec_flags()
                == self.flags,
    {
        if self.color_space == C::color_space() {
            Some(self.as_model())
        } else {
            None
        }
    }
}

} // verus!
