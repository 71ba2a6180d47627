//! Flags of a call that sets an extended attribute.

use core::ops::{
    BitAnd, BitAndAssign, BitOr, BitOrAssign, BitXor, BitXorAssign, Not, Sub, SubAssign,
};
use vstd::prelude::*;
use vstd::std_specs::ops::{
    BitAndSpecImpl, BitOrSpecImpl, BitXorSpecImpl, NotSpecImpl, SubSpecImpl,
};
use crate::flags::{has_bits, lemma_known, lemma_truncated};

verus! {

/// Flags of a call that sets an extended attribute.
///
/// The view of a set is its bits.
#[derive(Debug, Clone, Copy, PartialEq, Eq, PartialOrd, Ord, Hash, Structural)]
pub struct XAttrFlags {
    bits: i32,
}

impl View for XAttrFlags {
    type V = i32;

    closed spec fn view(&self) -> i32 {
        self.bits
    }
}

proof fn lemma_xattr_flags_known()
    by (bit_vector)
    ensures
        0x0i32 & !0x3i32 == 0,
        0x1i32 & !0x3i32 == 0,
        0x2i32 & !0x3i32 == 0,
{
}

impl XAttrFlags {
    /// Every bit that a flag of this kind may set.
    pub const ALL_BITS: i32 = 0x3;

    /// No bit is set but those of the flags below.
    #[verifier::type_invariant]
    pub open spec fn wf(self) -> bool {
        self@ & !Self::ALL_BITS == 0
    }

    /// Zeroed.
    #[allow(non_snake_case)]
    pub fn SMBC_XATTR_FLAG_NONE() -> (r: XAttrFlags)
        ensures
            r@ == 0x0,
            r.wf(),
    {
        proof {
            lemma_xattr_flags_known();
        }
        XAttrFlags { bits: 0x0 }
    }

    /// Create a new attribute.
    #[allow(non_snake_case)]
    pub fn SMBC_XATTR_FLAG_CREATE() -> (r: XAttrFlags)
        ensures
            r@ == 0x1,
            r.wf(),
    {
        proof {
            lemma_xattr_flags_known();
        }
        XAttrFlags { bits: 0x1 }
    }

    /// Replace an attribute.
    #[allow(non_snake_case)]
    pub fn SMBC_XATTR_FLAG_REPLACE() -> (r: XAttrFlags)
        ensures
            r@ == 0x2,
            r.wf(),
    {
        proof {
            lemma_xattr_flags_known();
        }
        XAttrFlags { bits: 0x2 }
    }

    /// The set with these bits, unless one of them belongs to no flag.
    pub fn from_bits(bits: i32) -> (r: Option<XAttrFlags>)
        ensures
            match r {
                Some(set) => bits & !Self::ALL_BITS == 0 && set@ == bits && set.wf(),
                None => bits & !Self::ALL_BITS != 0,
            },
    {
        if bits & !Self::ALL_BITS == 0 {
            Some(XAttrFlags { bits })
        } else {
            None
        }
    }

    /// The bits of the set.
    pub fn bits(&self) -> (r: i32)
        ensures
            r == self@,
            self.wf(),
    {
        proof {
            use_type_invariant(self);
        }
        self.bits
    }

    /// Whether every flag of `other` is in this set.
    pub fn contains(&self, other: XAttrFlags) -> (r: bool)
        ensures
            r == has_bits(self@, other@),
    {
        self.bits & other.bits == other.bits
    }

    /// The set without any flag.
    pub fn empty() -> (r: XAttrFlags)
        ensures
            r@ == 0,
            r.wf(),
    {
        proof {
            lemma_truncated(0, Self::ALL_BITS);
        }
        XAttrFlags { bits: 0 }
    }

    /// The set of all flags.
    pub fn all() -> (r: XAttrFlags)
        ensures
            r@ == Self::ALL_BITS,
            r.wf(),
    {
        proof {
            lemma_truncated(0, Self::ALL_BITS);
        }
        XAttrFlags { bits: Self::ALL_BITS }
    }

    /// The set with those of the bits that belong to a flag.
    pub fn from_bits_truncate(bits: i32) -> (r: XAttrFlags)
        ensures
            r@ == bits & Self::ALL_BITS,
            r.wf(),
    {
        proof {
            lemma_truncated(bits, Self::ALL_BITS);
        }
        XAttrFlags { bits: bits & Self::ALL_BITS }
    }

    /// Whether there is no flag in this set.
    pub fn is_empty(&self) -> (r: bool)
        ensures
            r == (self@ == 0),
    {
        self.bits == 0
    }

    /// Whether every flag is in this set.
    pub fn is_all(&self) -> (r: bool)
        ensures
            r == (self@ == Self::ALL_BITS),
    {
        self.bits == Self::ALL_BITS
    }

    /// Whether the two sets have a bit in common.
    pub fn intersects(&self, other: XAttrFlags) -> (r: bool)
        ensures
            r == (self@ & other@ != 0),
    {
        self.bits & other.bits != 0
    }

    /// Adds the flags of `other`.
    pub fn insert(&mut self, other: XAttrFlags)
        ensures
            final(self)@ == old(self)@ | other@,
            final(self).wf(),
    {
        self.bitor_assign(other);
    }

    /// Takes the bits of `other` away.
    pub fn remove(&mut self, other: XAttrFlags)
        ensures
            final(self)@ == old(self)@ & !other@,
            final(self).wf(),
    {
        self.sub_assign(other);
    }

    /// Adds the bits of `other` that are not there, and takes away those that are.
    pub fn toggle(&mut self, other: XAttrFlags)
        ensures
            final(self)@ == old(self)@ ^ other@,
            final(self).wf(),
    {
        self.bitxor_assign(other);
    }

    /// Adds the flags of `other`, or takes its bits away.
    pub fn set(&mut self, other: XAttrFlags, value: bool)
        ensures
            final(self)@ == if value {
                old(self)@ | other@
            } else {
                old(self)@ & !other@
            },
            final(self).wf(),
    {
        if value {
            self.insert(other);
        } else {
            self.remove(other);
        }
    }
}

impl BitOr for XAttrFlags {
    type Output = XAttrFlags;

    fn bitor(self, other: XAttrFlags) -> (r: XAttrFlags)
        ensures
            r@ == self@ | other@,
            r.wf(),
    {
        proof {
            use_type_invariant(self);
            use_type_invariant(other);
            lemma_known(self.bits, other.bits, Self::ALL_BITS);
        }
        XAttrFlags { bits: self.bits | other.bits }
    }
}

impl BitOrSpecImpl for XAttrFlags {
    open spec fn obeys_bitor_spec() -> bool {
        true
    }

    open spec fn bitor_req(self, other: XAttrFlags) -> bool {
        true
    }

    closed spec fn bitor_spec(self, other: XAttrFlags) -> XAttrFlags {
        XAttrFlags { bits: self.bits | other.bits }
    }
}

impl BitAnd for XAttrFlags {
    type Output = XAttrFlags;

    fn bitand(self, other: XAttrFlags) -> (r: XAttrFlags)
        ensures
            r@ == self@ & other@,
            r.wf(),
    {
        let mut r = self;
        r.bitand_assign(other);
        r
    }
}

impl BitAndSpecImpl for XAttrFlags {
    open spec fn obeys_bitand_spec() -> bool {
        true
    }

    open spec fn bitand_req(self, other: XAttrFlags) -> bool {
        true
    }

    closed spec fn bitand_spec(self, other: XAttrFlags) -> XAttrFlags {
        XAttrFlags { bits: self.bits & other.bits }
    }
}

impl BitXor for XAttrFlags {
    type Output = XAttrFlags;

    fn bitxor(self, other: XAttrFlags) -> (r: XAttrFlags)
        ensures
            r@ == self@ ^ other@,
            r.wf(),
    {
        proof {
            use_type_invariant(self);
            use_type_invariant(other);
            lemma_known(self.bits, other.bits, Self::ALL_BITS);
        }
        XAttrFlags { bits: self.bits ^ other.bits }
    }
}

impl BitXorSpecImpl for XAttrFlags {
    open spec fn obeys_bitxor_spec() -> bool {
        true
    }

    open spec fn bitxor_req(self, other: XAttrFlags) -> bool {
        true
    }

    closed spec fn bitxor_spec(self, other: XAttrFlags) -> XAttrFlags {
        XAttrFlags { bits: self.bits ^ other.bits }
    }
}

impl Sub for XAttrFlags {
    type Output = XAttrFlags;

    fn sub(self, other: XAttrFlags) -> (r: XAttrFlags)
        ensures
            r@ == self@ & !other@,
            r.wf(),
    {
        proof {
            use_type_invariant(self);
            use_type_invariant(other);
            lemma_known(self.bits, other.bits, Self::ALL_BITS);
        }
        XAttrFlags { bits: self.bits & !other.bits }
    }
}

impl SubSpecImpl for XAttrFlags {
    open spec fn obeys_sub_spec() -> bool {
        true
    }

    open spec fn sub_req(self, other: XAttrFlags) -> bool {
        true
    }

    closed spec fn sub_spec(self, other: XAttrFlags) -> XAttrFlags {
        XAttrFlags { bits: self.bits & !other.bits }
    }
}

impl Not for XAttrFlags {
    type Output = XAttrFlags;

    fn not(self) -> (r: XAttrFlags)
        ensures
            r@ == !self@ & Self::ALL_BITS,
            r.wf(),
    {
        XAttrFlags::from_bits_truncate(!self.bits)
    }
}

impl NotSpecImpl for XAttrFlags {
    open spec fn obeys_not_spec() -> bool {
        true
    }

    open spec fn not_req(self) -> bool {
        true
    }

    closed spec fn not_spec(self) -> XAttrFlags {
        XAttrFlags { bits: !self.bits & XAttrFlags::ALL_BITS }
    }
}

impl BitOrAssign for XAttrFlags {
    fn bitor_assign(&mut self, other: XAttrFlags)
        ensures
            final(self)@ == old(self)@ | other@,
            final(self).wf(),
    {
        *self = *self | other;
    }
}

impl BitAndAssign for XAttrFlags {
    fn bitand_assign(&mut self, other: XAttrFlags)
        ensures
            final(self)@ == old(self)@ & other@,
            final(self).wf(),
    {
        proof {
            use_type_invariant(&*self);
            use_type_invariant(other);
            lemma_known(self.bits, other.bits, Self::ALL_BITS);
        }
        *self = XAttrFlags { bits: self.bits & other.bits };
    }
}

impl BitXorAssign for XAttrFlags {
    fn bitxor_assign(&mut self, other: XAttrFlags)
        ensures
            final(self)@ == old(self)@ ^ other@,
            final(self).wf(),
    {
        *self = *self ^ other;
    }
}

impl SubAssign for XAttrFlags {
    fn sub_assign(&mut self, other: XAttrFlags)
        ensures
            final(self)@ == old(self)@ & !other@,
            final(self).wf(),
    {
        *self = *self - other;
    }
}

/// Two sets with the same bits are the same.
pub proof fn law_flags_are_their_bits(a: XAttrFlags, b: XAttrFlags)
    requires
        a@ == b@,
    ensures
        a == b,
{
}

} // verus!
