//! The set of channels of a colour that are marked as unspecified.
//!
//! A colour has three component channels and an alpha channel. Each of them
//! may be marked as carrying no value, which is different from carrying zero.
//! The marks are kept as four bits of a byte. Contracts speak of a set through
//! its view, a [`ChannelMarks`] of four booleans.

use vstd::prelude::*;

verus! {

/// Bit of the first component.
pub const C0_BIT: u8 = 1;

/// Bit of the second component.
pub const C1_BIT: u8 = 2;

/// Bit of the third component.
pub const C2_BIT: u8 = 4;

/// Bit of the alpha channel.
pub const ALPHA_BIT: u8 = 8;

/// All four bits.
pub const ALL_BITS: u8 = 15;

/// The mathematical content of a [`ColorFlags`]: for each channel, whether it
/// is marked as unspecified.
pub ghost struct ChannelMarks {
    pub c0: bool,
    pub c1: bool,
    pub c2: bool,
    pub alpha: bool,
}

impl ChannelMarks {
    /// No channel marked.
    pub open spec fn none() -> ChannelMarks {
        ChannelMarks { c0: false, c1: false, c2: false, alpha: false }
    }

    /// Whether all three components are marked.
    pub open spec fn all_components(self) -> bool {
        self.c0 && self.c1 && self.c2
    }

    /// The channels marked in either of two sets.
    pub open spec fn join(self, other: ChannelMarks) -> ChannelMarks {
        ChannelMarks {
            c0: self.c0 || other.c0,
            c1: self.c1 || other.c1,
            c2: self.c2 || other.c2,
            alpha: self.alpha || other.alpha,
        }
    }

    /// Whether every channel marked in `other` is marked here too.
    pub open spec fn includes(self, other: ChannelMarks) -> bool {
        &&& other.c0 ==> self.c0
        &&& other.c1 ==> self.c1
        &&& other.c2 ==> self.c2
        &&& other.alpha ==> self.alpha
    }

    /// The byte that stores the marks: one bit per marked channel.
    pub open spec fn to_bits(self) -> u8 {
        ((if self.c0 { 1int } else { 0int }) + (if self.c1 { 2int } else { 0int }) + (if self.c2 {
            4int
        } else {
            0int
        }) + (if self.alpha { 8int } else { 0int })) as u8
    }
}

/// Which of the four channels of a colour carry no value.
///
/// Only the four low bits of the byte are ever set.
#[derive(Clone, Copy, Debug, PartialEq, Eq, Structural)]
pub struct ColorFlags {
    bits: u8,
}

impl View for ColorFlags {
    type V = ChannelMarks;

    closed spec fn view(&self) -> ChannelMarks {
        ChannelMarks {
            c0: self.bits & C0_BIT != 0,
            c1: self.bits & C1_BIT != 0,
            c2: self.bits & C2_BIT != 0,
            alpha: self.bits & ALPHA_BIT != 0,
        }
    }
}

impl ColorFlags {
    /// Validity: no bit beyond the four marks is set.
    #[verifier::type_invariant]
    pub closed spec fn wf(self) -> bool {
        self.bits <= ALL_BITS
    }

    /// The valid set with the given marks.
    pub closed spec fn of(marks: ChannelMarks) -> ColorFlags {
        ColorFlags { bits: marks.to_bits() }
    }

    /// The set named by `of` is valid and has the marks it was named by.
    pub proof fn lemma_of(marks: ChannelMarks)
        ensures
            Self::of(marks).wf(),
            Self::of(marks)@ == marks,
    {
        let b = marks.to_bits();
        assert(b <= 15);
        assert(b <= 15 ==> ((b & 1 != 0) == (b % 2 == 1)) && ((b & 2 != 0) == ((b / 2) % 2 == 1))
            && ((b & 4 != 0) == ((b / 4) % 2 == 1)) && ((b & 8 != 0) == ((b / 8) % 2 == 1)))
            by (bit_vector);
    }

    /// The byte of a valid set is the one that its marks spell.
    proof fn lemma_bits_of_marks(self)
        requires
            self.wf(),
        ensures
            self.bits == self@.to_bits(),
    {
        let b = self.bits;
        assert(b <= 15 ==> b == ((if b & 1 != 0 { 1u8 } else { 0u8 }) + (if b & 2 != 0 {
            2u8
        } else {
            0u8
        }) + (if b & 4 != 0 { 4u8 } else { 0u8 }) + (if b & 8 != 0 { 8u8 } else { 0u8 })))
            by (bit_vector);
    }

    /// Two valid sets with the same marks are the same set.
    pub proof fn lemma_marks_decide(self, other: ColorFlags)
        requires
            self.wf(),
            other.wf(),
            self@ == other@,
        ensures
            self == other,
    {
        self.lemma_bits_of_marks();
        other.lemma_bits_of_marks();
    }

    /// The set of the given marks.
    pub fn from_marks(c0: bool, c1: bool, c2: bool, alpha: bool) -> (r: Self)
        ensures
            r@ == (ChannelMarks { c0, c1, c2, alpha }),
            r == Self::of(ChannelMarks { c0, c1, c2, alpha }),
    {
        let mut bits: u8 = 0;
        if c0 {
            bits = bits + C0_BIT;
        }
        if c1 {
            bits = bits + C1_BIT;
        }
        if c2 {
            bits = bits + C2_BIT;
        }
        if alpha {
            bits = bits + ALPHA_BIT;
        }
        proof {
            let m = ChannelMarks { c0, c1, c2, alpha };
            assert(bits == m.to_bits());
            Self::lemma_of(m);
        }
        ColorFlags { bits }
    }

    /// The set with no mark.
    pub fn empty() -> (r: Self)
        ensures
            r@ == ChannelMarks::none(),
    {
        Self::from_marks(false, false, false, false)
    }

    /// The set with all four marks.
    pub fn all() -> (r: Self)
        ensures
            r@ == (ChannelMarks { c0: true, c1: true, c2: true, alpha: true }),
    {
        Self::from_marks(true, true, true, true)
    }

    /// The set that marks the first component only.
    pub fn c0_is_none() -> (r: Self)
        ensures
            r@ == (ChannelMarks { c0: true, c1: false, c2: false, alpha: false }),
    {
        Self::from_marks(true, false, false, false)
    }

    /// The set that marks the second component only.
    pub fn c1_is_none() -> (r: Self)
        ensures
            r@ == (ChannelMarks { c0: false, c1: true, c2: false, alpha: false }),
    {
        Self::from_marks(false, true, false, false)
    }

    /// The set that marks the third component only.
    pub fn c2_is_none() -> (r: Self)
        ensures
            r@ == (ChannelMarks { c0: false, c1: false, c2: true, alpha: false }),
    {
        Self::from_marks(false, false, true, false)
    }

    /// The set that marks the alpha channel only.
    pub fn alpha_is_none() -> (r: Self)
        ensures
            r@ == (ChannelMarks { c0: false, c1: false, c2: false, alpha: true }),
    {
        Self::from_marks(false, false, false, true)
    }

    /// The byte behind the set: bit 0 for the first component, bit 1 for the
    /// second, bit 2 for the third, bit 3 for alpha.
    pub fn bits(&self) -> (r: u8)
        ensures
            r == self@.to_bits(),
    {
        proof {
            use_type_invariant(self);
            self.lemma_bits_of_marks();
        }
        self.bits
    }

    /// The set behind a byte. There is one exactly where the byte sets no bit
    /// beyond the four marks.
    pub fn from_bits(bits: u8) -> (r: Option<Self>)
        ensures
            bits <= ALL_BITS ==> r is Some && r->0@.to_bits() == bits,
            bits > ALL_BITS ==> r is None,
    {
        if bits <= ALL_BITS {
            let r = ColorFlags { bits };
            proof {
                r.lemma_bits_of_marks();
            }
            Some(r)
        } else {
            None
        }
    }

    /// Whether no channel is marked.
    pub fn is_empty(&self) -> (r: bool)
        ensures
            r == (self@ == ChannelMarks::none()),
    {
        proof {
            use_type_invariant(self);
            self.lemma_bits_of_marks();
        }
        self.bits == 0
    }

    /// Whether the first component is marked.
    pub fn has_c0(&self) -> (r: bool)
        ensures
            r == self@.c0,
    {
        self.bits & C0_BIT != 0
    }

    /// Whether the second component is marked.
    pub fn has_c1(&self) -> (r: bool)
        ensures
            r == self@.c1,
    {
        self.bits & C1_BIT != 0
    }

    /// Whether the third component is marked.
    pub fn has_c2(&self) -> (r: bool)
        ensures
            r == self@.c2,
    {
        self.bits & C2_BIT != 0
    }

    /// Whether the alpha channel is marked.
    pub fn has_alpha(&self) -> (r: bool)
        ensures
            r == self@.alpha,
    {
        self.bits & ALPHA_BIT != 0
    }

    /// Whether every channel that `other` marks is marked here too.
    pub fn contains(&self, other: ColorFlags) -> (r: bool)
        ensures
            r == self@.includes(other@),
    {
        proof {
            use_type_invariant(self);
            use_type_invariant(other);
            let a = self.bits;
            let b = other.bits;
            assert(a <= 15 && b <= 15 ==> ((a & b == b) == (((b & 1 != 0) ==> (a & 1 != 0)) && ((b
                & 2 != 0) ==> (a & 2 != 0)) && ((b & 4 != 0) ==> (a & 4 != 0)) && ((b & 8 != 0)
                ==> (a & 8 != 0))))) by (bit_vector);
        }
        self.bits & other.bits == other.bits
    }

    /// The channels marked in either set.
    pub fn union(self, other: ColorFlags) -> (r: Self)
        ensures
            r@ == self@.join(other@),
            r == Self::of(self@.join(other@)),
    {
        let bits = self.bits | other.bits;
        proof {
            use_type_invariant(self);
            use_type_invariant(other);
            let a = self.bits;
            let b = other.bits;
            assert(a <= 15 && b <= 15 ==> (a | b) <= 15 && (((a | b) & 1 != 0) == ((a & 1 != 0)
                || (b & 1 != 0))) && (((a | b) & 2 != 0) == ((a & 2 != 0) || (b & 2 != 0))) && (((a
                | b) & 4 != 0) == ((a & 4 != 0) || (b & 4 != 0))) && (((a | b) & 8 != 0) == ((a & 8
                != 0) || (b & 8 != 0)))) by (bit_vector);
            let r = ColorFlags { bits };
            Self::lemma_of(self@.join(other@));
            r.lemma_marks_decide(Self::of(self@.join(other@)));
        }
        ColorFlags { bits }
    }

    /// Adds the marks of `other` to this set.
    pub fn insert(&mut self, other: ColorFlags)
        ensures
            final(self)@ == old(self)@.join(other@),
    {
        *self = self.union(other);
    }
}

impl core::ops::BitOr for ColorFlags {
    type Output = ColorFlags;

    /// `a | b` is the union of the two sets.
    fn bitor(self, rhs: ColorFlags) -> (r: ColorFlags)
        ensures
            r@ == self@.join(rhs@),
    {
        self.union(rhs)
    }
}

impl vstd::std_specs::ops::BitOrSpecImpl for ColorFlags {
    open spec fn obeys_bitor_spec() -> bool {
        true
    }

    open spec fn bitor_req(self, rhs: ColorFlags) -> bool {
        true
    }

    open spec fn bitor_spec(self, rhs: ColorFlags) -> ColorFlags {
        Self::of(self@.join(rhs@))
    }
}

} // verus!
