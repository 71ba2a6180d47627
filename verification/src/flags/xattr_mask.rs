//! Access masks.

use core::ops::{
    BitAnd, BitAndAssign, BitOr, BitOrAssign, BitXor, BitXorAssign, Not, Sub, SubAssign,
};
use vstd::prelude::*;
use vstd::std_specs::ops::{
    BitAndSpecImpl, BitOrSpecImpl, BitXorSpecImpl, NotSpecImpl, SubSpecImpl,
};
use crate::flags::{has_bits, lemma_known, lemma_truncated};

verus! {

/// Access mask of an access control entry.
///
/// The view of a set is its bits.
#[derive(Debug, Clone, Copy, PartialEq, Eq, PartialOrd, Ord, Hash, Structural)]
pub struct XAttrMask {
    bits: i32,
}

impl View for XAttrMask {
    type V = i32;

    closed spec fn view(&self) -> i32 {
        self.bits
    }
}

proof fn lemma_xattr_mask_known()
    by (bit_vector)
    ensures
        0x0012_0089i32 & !0x001f_01ffi32 == 0,
        0x0012_0116i32 & !0x001f_01ffi32 == 0,
        0x0012_00a0i32 & !0x001f_01ffi32 == 0,
        0x0001_0000i32 & !0x001f_01ffi32 == 0,
        0x0004_0000i32 & !0x001f_01ffi32 == 0,
        0x0008_0000i32 & !0x001f_01ffi32 == 0,
        0x0000_0000i32 & !0x001f_01ffi32 == 0,
        0x0012_00a9i32 & !0x001f_01ffi32 == 0,
        0x0013_01bfi32 & !0x001f_01ffi32 == 0,
        0x001f_01ffi32 & !0x001f_01ffi32 == 0,
{
}

impl XAttrMask {
    /// Every bit that a flag of this kind may set.
    pub const ALL_BITS: i32 = 0x001f_01ff;

    /// No bit is set but those of the flags below.
    #[verifier::type_invariant]
    pub open spec fn wf(self) -> bool {
        self@ & !Self::ALL_BITS == 0
    }

    /// Allow read access.
    #[allow(non_snake_case)]
    pub fn R() -> (r: XAttrMask)
        ensures
            r@ == 0x0012_0089,
            r.wf(),
    {
        proof {
            lemma_xattr_mask_known();
        }
        XAttrMask { bits: 0x0012_0089 }
    }

    /// Allow write access.
    #[allow(non_snake_case)]
    pub fn W() -> (r: XAttrMask)
        ensures
            r@ == 0x0012_0116,
            r.wf(),
    {
        proof {
            lemma_xattr_mask_known();
        }
        XAttrMask { bits: 0x0012_0116 }
    }

    /// Execute permission on the object.
    #[allow(non_snake_case)]
    pub fn X() -> (r: XAttrMask)
        ensures
            r@ == 0x0012_00a0,
            r.wf(),
    {
        proof {
            lemma_xattr_mask_known();
        }
        XAttrMask { bits: 0x0012_00a0 }
    }

    /// Delete the object.
    #[allow(non_snake_case)]
    pub fn D() -> (r: XAttrMask)
        ensures
            r@ == 0x0001_0000,
            r.wf(),
    {
        proof {
            lemma_xattr_mask_known();
        }
        XAttrMask { bits: 0x0001_0000 }
    }

    /// Change permissions.
    #[allow(non_snake_case)]
    pub fn P() -> (r: XAttrMask)
        ensures
            r@ == 0x0004_0000,
            r.wf(),
    {
        proof {
            lemma_xattr_mask_known();
        }
        XAttrMask { bits: 0x0004_0000 }
    }

    /// Take ownership.
    #[allow(non_snake_case)]
    pub fn O() -> (r: XAttrMask)
        ensures
            r@ == 0x0008_0000,
            r.wf(),
    {
        proof {
            lemma_xattr_mask_known();
        }
        XAttrMask { bits: 0x0008_0000 }
    }

    /// None.
    #[allow(non_snake_case)]
    pub fn N() -> (r: XAttrMask)
        ensures
            r@ == 0x0000_0000,
            r.wf(),
    {
        proof {
            lemma_xattr_mask_known();
        }
        XAttrMask { bits: 0x0000_0000 }
    }

    /// Equivalent to the permissions RX.
    #[allow(non_snake_case)]
    pub fn READ() -> (r: XAttrMask)
        ensures
            r@ == 0x0012_00a9,
            r.wf(),
    {
        proof {
            lemma_xattr_mask_known();
        }
        XAttrMask { bits: 0x0012_00a9 }
    }

    /// Equivalent to the permissions RXWD.
    #[allow(non_snake_case)]
    pub fn CHANGE() -> (r: XAttrMask)
        ensures
            r@ == 0x0013_01bf,
            r.wf(),
    {
        proof {
            lemma_xattr_mask_known();
        }
        XAttrMask { bits: 0x0013_01bf }
    }

    /// Equivalent to the permissions RWXDPO.
    #[allow(non_snake_case)]
    pub fn FULL() -> (r: XAttrMask)
        ensures
            r@ == 0x001f_01ff,
            r.wf(),
    {
        proof {
            lemma_xattr_mask_known();
        }
        XAttrMask { bits: 0x001f_01ff }
    }

    /// The set with these bits, unless one of them belongs to no flag.
    pub fn from_bits(bits: i32) -> (r: Option<XAttrMask>)
        ensures
            match r {
                Some(set) => bits & !Self::ALL_BITS == 0 && set@ == bits && set.wf(),
                None => bits & !Self::ALL_BITS != 0,
            },
    {
        if bits & !Self::ALL_BITS == 0 {
            Some(XAttrMask { bits })
        } else {
            None
        }
    }

    /// The bits of the set.
    pub fn bits(&self) -> (r: i32)
        ensures
            r == self@,
            self.wf(),
    {
        proof {
            use_type_invariant(self);
        }
        self.bits
    }

    /// Whether every flag of `other` is in this set.
    pub fn contains(&self, other: XAttrMask) -> (r: bool)
        ensures
            r == has_bits(self@, other@),
    {
        self.bits & other.bits == other.bits
    }

    /// The set without any flag.
    pub fn empty() -> (r: XAttrMask)
        ensures
            r@ == 0,
            r.wf(),
    {
        proof {
            lemma_truncated(0, Self::ALL_BITS);
        }
        XAttrMask { bits: 0 }
    }

    /// The set of all flags.
    pub fn all() -> (r: XAttrMask)
        ensures
            r@ == Self::ALL_BITS,
            r.wf(),
    {
        proof {
            lemma_truncated(0, Self::ALL_BITS);
        }
        XAttrMask { bits: Self::ALL_BITS }
    }

    /// The set with those of the bits that belong to a flag.
    pub fn from_bits_truncate(bits: i32) -> (r: XAttrMask)
        ensures
            r@ == bits & Self::ALL_BITS,
            r.wf(),
    {
        proof {
            lemma_truncated(bits, Self::ALL_BITS);
        }
        XAttrMask { bits: bits & Self::ALL_BITS }
    }

    /// Whether there is no flag in this set.
    pub fn is_empty(&self) -> (r: bool)
        ensures
            r == (self@ == 0),
    {
        self.bits == 0
    }

    /// Whether every flag is in this set.
    pub fn is_all(&self) -> (r: bool)
        ensures
            r == (self@ == Self::ALL_BITS),
    {
        self.bits == Self::ALL_BITS
    }

    /// Whether the two sets have a bit in common.
    pub fn intersects(&self, other: XAttrMask) -> (r: bool)
        ensures
            r == (self@ & other@ != 0),
    {
        self.bits & other.bits != 0
    }

    /// Adds the flags of `other`.
    pub fn insert(&mut self, other: XAttrMask)
        ensures
            final(self)@ == old(self)@ | other@,
            final(self).wf(),
    {
        self.bitor_assign(other);
    }

    /// Takes the bits of `other` away.
    pub fn remove(&mut self, other: XAttrMask)
        ensures
            final(self)@ == old(self)@ & !other@,
            final(self).wf(),
    {
        self.sub_assign(other);
    }

    /// Adds the bits of `other` that are not there, and takes away those that are.
    pub fn toggle(&mut self, other: XAttrMask)
        ensures
            final(self)@ == old(self)@ ^ other@,
            final(self).wf(),
    {
        self.bitxor_assign(other);
    }

    /// Adds the flags of `other`, or takes its bits away.
    pub fn set(&mut self, other: XAttrMask, value: bool)
        ensures
            final(self)@ == if value {
                old(self)@ | other@
            } else {
                old(self)@ & !other@
            },
            final(self).wf(),
    {
        if value {
            self.insert(other);
        } else {
            self.remove(other);
        }
    }
}

impl BitOr for XAttrMask {
    type Output = XAttrMask;

    fn bitor(self, other: XAttrMask) -> (r: XAttrMask)
        ensures
            r@ == self@ | other@,
            r.wf(),
    {
        proof {
            use_type_invariant(self);
            use_type_invariant(other);
            lemma_known(self.bits, other.bits, Self::ALL_BITS);
        }
        XAttrMask { bits: self.bits | other.bits }
    }
}

impl BitOrSpecImpl for XAttrMask {
    open spec fn obeys_bitor_spec() -> bool {
        true
    }

    open spec fn bitor_req(self, other: XAttrMask) -> bool {
        true
    }

    closed spec fn bitor_spec(self, other: XAttrMask) -> XAttrMask {
        XAttrMask { bits: self.bits | other.bits }
    }
}

impl BitAnd for XAttrMask {
    type Output = XAttrMask;

    fn bitand(self, other: XAttrMask) -> (r: XAttrMask)
        ensures
            r@ == self@ & other@,
            r.wf(),
    {
        let mut r = self;
        r.bitand_assign(other);
        r
    }
}

impl BitAndSpecImpl for XAttrMask {
    open spec fn obeys_bitand_spec() -> bool {
        true
    }

    open spec fn bitand_req(self, other: XAttrMask) -> bool {
        true
    }

    closed spec fn bitand_spec(self, other: XAttrMask) -> XAttrMask {
        XAttrMask { bits: self.bits & other.bits }
    }
}

impl BitXor for XAttrMask {
    type Output = XAttrMask;

    fn bitxor(self, other: XAttrMask) -> (r: XAttrMask)
        ensures
            r@ == self@ ^ other@,
            r.wf(),
    {
        proof {
            use_type_invariant(self);
            use_type_invariant(other);
            lemma_known(self.bits, other.bits, Self::ALL_BITS);
        }
        XAttrMask { bits: self.bits ^ other.bits }
    }
}

impl BitXorSpecImpl for XAttrMask {
    open spec fn obeys_bitxor_spec() -> bool {
        true
    }

    open spec fn bitxor_req(self, other: XAttrMask) -> bool {
        true
    }

    closed spec fn bitxor_spec(self, other: XAttrMask) -> XAttrMask {
        XAttrMask { bits: self.bits ^ other.bits }
    }
}

impl Sub for XAttrMask {
    type Output = XAttrMask;

    fn sub(self, other: XAttrMask) -> (r: XAttrMask)
        ensures
            r@ == self@ & !other@,
            r.wf(),
    {
        proof {
            use_type_invariant(self);
            use_type_invariant(other);
            lemma_known(self.bits, other.bits, Self::ALL_BITS);
        }
        XAttrMask { bits: self.bits & !other.bits }
    }
}

impl SubSpecImpl for XAttrMask {
    open spec fn obeys_sub_spec() -> bool {
        true
    }

    open spec fn sub_req(self, other: XAttrMask) -> bool {
        true
    }

    closed spec fn sub_spec(self, other: XAttrMask) -> XAttrMask {
        XAttrMask { bits: self.bits & !other.bits }
    }
}

impl Not for XAttrMask {
    type Output = XAttrMask;

    fn not(self) -> (r: XAttrMask)
        ensures
            r@ == !self@ & Self::ALL_BITS,
            r.wf(),
    {
        XAttrMask::from_bits_truncate(!self.bits)
    }
}

impl NotSpecImpl for XAttrMask {
    open spec fn obeys_not_spec() -> bool {
        true
    }

    open spec fn not_req(self) -> bool {
        true
    }

    closed spec fn not_spec(self) -> XAttrMask {
        XAttrMask { bits: !self.bits & XAttrMask::ALL_BITS }
    }
}

impl BitOrAssign for XAttrMask {
    fn bitor_assign(&mut self, other: XAttrMask)
        ensures
            final(self)@ == old(self)@ | other@,
            final(self).wf(),
    {
        *self = *self | other;
    }
}

impl BitAndAssign for XAttrMask {
    fn bitand_assign(&mut self, other: XAttrMask)
        ensures
            final(self)@ == old(self)@ & other@,
            final(self).wf(),
    {
        proof {
            use_type_invariant(&*self);
            use_type_invariant(other);
            lemma_known(self.bits, other.bits, Self::ALL_BITS);
        }
        *self = XAttrMask { bits: self.bits & other.bits };
    }
}

impl BitXorAssign for XAttrMask {
    fn bitxor_assign(&mut self, other: XAttrMask)
        ensures
            final(self)@ == old(self)@ ^ other@,
            final(self).wf(),
    {
        *self = *self ^ other;
    }
}

impl SubAssign for XAttrMask {
    fn sub_assign(&mut self, other: XAttrMask)
        ensures
            final(self)@ == old(self)@ & !other@,
            final(self).wf(),
    {
        *self = *self - other;
    }
}

/// Two sets with the same bits are the same.
pub proof fn law_mask_is_its_bits(a: XAttrMask, b: XAttrMask)
    requires
        a@ == b@,
    ensures
        a == b,
{
}

} // verus!
