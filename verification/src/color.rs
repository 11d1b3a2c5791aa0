//! The colour record.
//!
//! A channel value is an IEEE-754 binary32 bit pattern. The record stores and
//! compares the patterns and never interprets them; positive zero is the
//! pattern `0`.

use crate::flags::ChannelMarks;
use crate::flags::ColorFlags;
use crate::space::ColorSpace;
use vstd::prelude::*;
use vstd::std_specs::convert::IntoSpec;

verus! {

/// The three component channels of a colour.
pub type Components = [u32; 3];

/// The value that a channel stores: its own where it has one, positive zero
/// where it is unspecified.
pub open spec fn stored(channel: Option<u32>) -> u32 {
    match channel {
        Some(v) => v,
        None => 0,
    }
}

/// A colour: three components and an alpha value, the space they are to be
/// read in, and the set of channels that carry no value.
#[derive(Clone, Copy, Debug)]
pub struct Color {
    pub components: Components,
    pub flags: ColorFlags,
    pub color_space: ColorSpace,
    pub alpha: u32,
}

impl PartialEq for Color {
    /// Two colours are equal where their channels, marks and space are.
    fn eq(&self, other: &Color) -> (r: bool) {
        let r = self.components[0] == other.components[0] && self.components[1]
            == other.components[1] && self.components[2] == other.components[2] && self.flags
            == other.flags && self.color_space == other.color_space && self.alpha == other.alpha;
        proof {
            if r {
                assert(self.components =~= other.components);
            }
        }
        r
    }
}

impl vstd::std_specs::cmp::PartialEqSpecImpl for Color {
    open spec fn obeys_eq_spec() -> bool {
        true
    }

    open spec fn eq_spec(&self, other: &Color) -> bool {
        *self == *other
    }
}

/// One channel as it is handed to [`Color::new`]: a value, or the mark that
/// there is none. Its view is the `Option` it was made from.
pub struct ComponentDetails {
    value: u32,
    is_none: bool,
}

impl View for ComponentDetails {
    type V = Option<u32>;

    closed spec fn view(&self) -> Option<u32> {
        if self.is_none {
            None
        } else {
            Some(self.value)
        }
    }
}

impl ComponentDetails {
    /// Validity: a channel without a value stores zero.
    #[verifier::type_invariant]
    pub closed spec fn wf(self) -> bool {
        self.is_none ==> self.value == 0
    }

    /// The valid details of a channel.
    pub closed spec fn of(channel: Option<u32>) -> ComponentDetails {
        ComponentDetails { value: stored(channel), is_none: channel is None }
    }

    /// The details named by `of` are valid and have the view they were named by.
    pub proof fn lemma_of(channel: Option<u32>)
        ensures
            Self::of(channel).wf(),
            Self::of(channel)@ == channel,
    {
    }
}

impl From<u32> for ComponentDetails {
    /// A channel with a value.
    fn from(value: u32) -> (r: Self)
        ensures
            r@ == Some(value),
    {
        Self { value, is_none: false }
    }
}

impl vstd::std_specs::convert::FromSpecImpl<u32> for ComponentDetails {
    open spec fn obeys_from_spec() -> bool {
        true
    }

    open spec fn from_spec(value: u32) -> Self {
        Self::of(Some(value))
    }
}

impl From<Option<u32>> for ComponentDetails {
    /// A channel with a value, or an unspecified one.
    fn from(value: Option<u32>) -> (r: Self)
        ensures
            r@ == value,
    {
        if let Some(value) = value {
            Self { value, is_none: false }
        } else {
            Self { value: 0, is_none: true }
        }
    }
}

impl vstd::std_specs::convert::FromSpecImpl<Option<u32>> for ComponentDetails {
    open spec fn obeys_from_spec() -> bool {
        true
    }

    open spec fn from_spec(value: Option<u32>) -> Self {
        Self::of(value)
    }
}

impl Color {
    /// The marks of a colour whose channels are the given ones.
    pub open spec fn marks_of(
        c0: Option<u32>,
        c1: Option<u32>,
        c2: Option<u32>,
        alpha: Option<u32>,
    ) -> ChannelMarks {
        ChannelMarks { c0: c0 is None, c1: c1 is None, c2: c2 is None, alpha: alpha is None }
    }

    /// Whether this is the colour of the given space and channels: each
    /// channel without a value is marked and stores zero, each other one is
    /// unmarked and stores its value.
    pub open spec fn is_made_of(
        self,
        color_space: ColorSpace,
        c0: Option<u32>,
        c1: Option<u32>,
        c2: Option<u32>,
        alpha: Option<u32>,
    ) -> bool {
        &&& self.color_space == color_space
        &&& self.components[0] == stored(c0)
        &&& self.components[1] == stored(c1)
        &&& self.components[2] == stored(c2)
        &&& self.alpha == stored(alpha)
        &&& self.flags@ == Self::marks_of(c0, c1, c2, alpha)
    }

    /// The convention of the record: a channel that is marked as unspecified
    /// stores positive zero.
    pub open spec fn wf(self) -> bool {
        &&& self.flags.wf()
        &&& self.flags@.c0 ==> self.components[0] == 0
        &&& self.flags@.c1 ==> self.components[1] == 0
        &&& self.flags@.c2 ==> self.components[2] == 0
        &&& self.flags@.alpha ==> self.alpha == 0
    }

    /// A colour of the given space. Each channel is a value (`u32`, or `Some`)
    /// or is unspecified (`None`).
    pub fn new<A, B, C, D>(color_space: ColorSpace, c0: A, c1: B, c2: C, alpha: D) -> (r: Self) where
        A: Into<ComponentDetails>,
        B: Into<ComponentDetails>,
        C: Into<ComponentDetails>,
        D: Into<ComponentDetails>,

        ensures
            r.color_space == color_space,
            r.wf(),
            A::obeys_into_spec() && B::obeys_into_spec() && C::obeys_into_spec()
                && D::obeys_into_spec() ==> r.is_made_of(
                color_space,
                c0.into_spec()@,
                c1.into_spec()@,
                c2.into_spec()@,
                alpha.into_spec()@,
            ),
    {
        let d0: ComponentDetails = c0.into();
        let d1: ComponentDetails = c1.into();
        let d2: ComponentDetails = c2.into();
        let da: ComponentDetails = alpha.into();
        proof {
            use_type_invariant(&d0);
            use_type_invariant(&d1);
            use_type_invariant(&d2);
            use_type_invariant(&da);
        }
        let flags = ColorFlags::from_marks(d0.is_none, d1.is_none, d2.is_none, da.is_none);
        proof {
            use_type_invariant(flags);
        }
        Self { components: [d0.value, d1.value, d2.value], flags, color_space, alpha: da.value }
    }
}

} // verus!
