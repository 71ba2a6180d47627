//! Inheritance flags of access control entries.

use core::ops::{
    BitAnd, BitAndAssign, BitOr, BitOrAssign, BitXor, BitXorAssign, Not, Sub, SubAssign,
};
use vstd::prelude::*;
use vstd::std_specs::ops::{
    BitAndSpecImpl, BitOrSpecImpl, BitXorSpecImpl, NotSpecImpl, SubSpecImpl,
};
use crate::flags::{has_bits, lemma_known, lemma_truncated};

verus! {

/// Inheritance flags of an access control entry; 9 or 2 is usual for directories.
///
/// The view of a set is its bits.
#[derive(Debug, Clone, Copy, PartialEq, Eq, PartialOrd, Ord, Hash, Structural)]
pub struct AceFlag {
    bits: i32,
}

impl View for AceFlag {
    type V = i32;

    closed spec fn view(&self) -> i32 {
        self.bits
    }
}

proof fn lemma_ace_flag_known()
    by (bit_vector)
    ensures
        0x0i32 & !0xfi32 == 0,
        0x1i32 & !0xfi32 == 0,
        0x2i32 & !0xfi32 == 0,
        0x4i32 & !0xfi32 == 0,
        0x8i32 & !0xfi32 == 0,
{
}

impl AceFlag {
    /// Every bit that a flag of this kind may set.
    pub const ALL_BITS: i32 = 0xf;

    /// No bit is set but those of the flags below.
    #[verifier::type_invariant]
    pub open spec fn wf(self) -> bool {
        self@ & !Self::ALL_BITS == 0
    }

    /// Usual for files.
    #[allow(non_snake_case)]
    pub fn NONE() -> (r: AceFlag)
        ensures
            r@ == 0x0,
            r.wf(),
    {
        proof {
            lemma_ace_flag_known();
        }
        AceFlag { bits: 0x0 }
    }

    /// Children that are no containers inherit the entry.
    #[allow(non_snake_case)]
    pub fn SEC_ACE_FLAG_OBJECT_INHERIT() -> (r: AceFlag)
        ensures
            r@ == 0x1,
            r.wf(),
    {
        proof {
            lemma_ace_flag_known();
        }
        AceFlag { bits: 0x1 }
    }

    /// The entry affects child namespaces too.
    #[allow(non_snake_case)]
    pub fn SEC_ACE_FLAG_CONTAINER_INHERIT() -> (r: AceFlag)
        ensures
            r@ == 0x2,
            r.wf(),
    {
        proof {
            lemma_ace_flag_known();
        }
        AceFlag { bits: 0x2 }
    }

    /// Only this namespace and its immediate children.
    #[allow(non_snake_case)]
    pub fn SEC_ACE_FLAG_NO_PROPAGATE_INHERIT() -> (r: AceFlag)
        ensures
            r@ == 0x4,
            r.wf(),
    {
        proof {
            lemma_ace_flag_known();
        }
        AceFlag { bits: 0x4 }
    }

    /// Only child namespaces.
    #[allow(non_snake_case)]
    pub fn SEC_ACE_FLAG_INHERIT_ONLY() -> (r: AceFlag)
        ensures
            r@ == 0x8,
            r.wf(),
    {
        proof {
            lemma_ace_flag_known();
        }
        AceFlag { bits: 0x8 }
    }

    /// The set with these bits, unless one of them belongs to no flag.
    pub fn from_bits(bits: i32) -> (r: Option<AceFlag>)
        ensures
            match r {
                Some(set) => bits & !Self::ALL_BITS == 0 && set@ == bits && set.wf(),
                None => bits & !Self::ALL_BITS != 0,
            },
    {
        if bits & !Self::ALL_BITS == 0 {
            Some(AceFlag { bits })
        } else {
            None
        }
    }

    /// The bits of the set.
    pub fn bits(&self) -> (r: i32)
        ensures
            r == self@,
            self.wf(),
    {
        proof {
            use_type_invariant(self);
        }
        self.bits
    }

    /// Whether every flag of `other` is in this set.
    pub fn contains(&self, other: AceFlag) -> (r: bool)
        ensures
            r == has_bits(self@, other@),
    {
        self.bits & other.bits == other.bits
    }

    /// The set without any flag.
    pub fn empty() -> (r: AceFlag)
        ensures
            r@ == 0,
            r.wf(),
    {
        proof {
            lemma_truncated(0, Self::ALL_BITS);
        }
        AceFlag { bits: 0 }
    }

    /// The set of all flags.
    pub fn all() -> (r: AceFlag)
        ensures
            r@ == Self::ALL_BITS,
            r.wf(),
    {
        proof {
            lemma_truncated(0, Self::ALL_BITS);
        }
        AceFlag { bits: Self::ALL_BITS }
    }

    /// The set with those of the bits that belong to a flag.
    pub fn from_bits_truncate(bits: i32) -> (r: AceFlag)
        ensures
            r@ == bits & Self::ALL_BITS,
            r.wf(),
    {
        proof {
            lemma_truncated(bits, Self::ALL_BITS);
        }
        AceFlag { bits: bits & Self::ALL_BITS }
    }

    /// Whether there is no flag in this set.
    pub fn is_empty(&self) -> (r: bool)
        ensures
            r == (self@ == 0),
    {
        self.bits == 0
    }

    /// Whether every flag is in this set.
    pub fn is_all(&self) -> (r: bool)
        ensures
            r == (self@ == Self::ALL_BITS),
    {
        self.bits == Self::ALL_BITS
    }

    /// Whether the two sets have a bit in common.
    pub fn intersects(&self, other: AceFlag) -> (r: bool)
        ensures
            r == (self@ & other@ != 0),
    {
        self.bits & other.bits != 0
    }

    /// Adds the flags of `other`.
    pub fn insert(&mut self, other: AceFlag)
        ensures
            final(self)@ == old(self)@ | other@,
            final(self).wf(),
    {
        self.bitor_assign(other);
    }

    /// Takes the bits of `other` away.
    pub fn remove(&mut self, other: AceFlag)
        ensures
            final(self)@ == old(self)@ & !other@,
            final(self).wf(),
    {
        self.sub_assign(other);
    }

    /// Adds the bits of `other` that are not there, and takes away those that are.
    pub fn toggle(&mut self, other: AceFlag)
        ensures
            final(self)@ == old(self)@ ^ other@,
            final(self).wf(),
    {
        self.bitxor_assign(other);
    }

    /// Adds the flags of `other`, or takes its bits away.
    pub fn set(&mut self, other: AceFlag, value: bool)
        ensures
            final(self)@ == if value {
                old(self)@ | other@
            } else {
                old(self)@ & !other@
            },
            final(self).wf(),
    {
        if value {
            self.insert(other);
        } else {
            self.remove(other);
        }
    }
}

impl BitOr for AceFlag {
    type Output = AceFlag;

    fn bitor(self, other: AceFlag) -> (r: AceFlag)
        ensures
            r@ == self@ | other@,
            r.wf(),
    {
        proof {
            use_type_invariant(self);
            use_type_invariant(other);
            lemma_known(self.bits, other.bits, Self::ALL_BITS);
        }
        AceFlag { bits: self.bits | other.bits }
    }
}

impl BitOrSpecImpl for AceFlag {
    open spec fn obeys_bitor_spec() -> bool {
        true
    }

    open spec fn bitor_req(self, other: AceFlag) -> bool {
        true
    }

    closed spec fn bitor_spec(self, other: AceFlag) -> AceFlag {
        AceFlag { bits: self.bits | other.bits }
    }
}

impl BitAnd for AceFlag {
    type Output = AceFlag;

    fn bitand(self, other: AceFlag) -> (r: AceFlag)
        ensures
            r@ == self@ & other@,
            r.wf(),
    {
        let mut r = self;
        r.bitand_assign(other);
        r
    }
}

impl BitAndSpecImpl for AceFlag {
    open spec fn obeys_bitand_spec() -> bool {
        true
    }

    open spec fn bitand_req(self, other: AceFlag) -> bool {
        true
    }

    closed spec fn bitand_spec(self, other: AceFlag) -> AceFlag {
        AceFlag { bits: self.bits & other.bits }
    }
}

impl BitXor for AceFlag {
    type Output = AceFlag;

    fn bitxor(self, other: AceFlag) -> (r: AceFlag)
        ensures
            r@ == self@ ^ other@,
            r.wf(),
    {
        proof {
            use_type_invariant(self);
            use_type_invariant(other);
            lemma_known(self.bits, other.bits, Self::ALL_BITS);
        }
        AceFlag { bits: self.bits ^ other.bits }
    }
}

impl BitXorSpecImpl for AceFlag {
    open spec fn obeys_bitxor_spec() -> bool {
        true
    }

    open spec fn bitxor_req(self, other: AceFlag) -> bool {
        true
    }

    closed spec fn bitxor_spec(self, other: AceFlag) -> AceFlag {
        AceFlag { bits: self.bits ^ other.bits }
    }
}

impl Sub for AceFlag {
    type Output = AceFlag;

    fn sub(self, other: AceFlag) -> (r: AceFlag)
        ensures
            r@ == self@ & !other@,
            r.wf(),
    {
        proof {
            use_type_invariant(self);
            use_type_invariant(other);
            lemma_known(self.bits, other.bits, Self::ALL_BITS);
        }
        AceFlag { bits: self.bits & !other.bits }
    }
}

impl SubSpecImpl for AceFlag {
    open spec fn obeys_sub_spec() -> bool {
        true
    }

    open spec fn sub_req(self, other: AceFlag) -> bool {
        true
    }

    closed spec fn sub_spec(self, other: AceFlag) -> AceFlag {
        AceFlag { bits: self.bits & !other.bits }
    }
}

impl Not for AceFlag {
    type Output = AceFlag;

    fn not(self) -> (r: AceFlag)
        ensures
            r@ == !self@ & Self::ALL_BITS,
            r.wf(),
    {
        AceFlag::from_bits_truncate(!self.bits)
    }
}

impl NotSpecImpl for AceFlag {
    open spec fn obeys_not_spec() -> bool {
        true
    }

    open spec fn not_req(self) -> bool {
        true
    }

    closed spec fn not_spec(self) -> AceFlag {
        AceFlag { bits: !self.bits & AceFlag::ALL_BITS }
    }
}

impl BitOrAssign for AceFlag {
    fn bitor_assign(&mut self, other: AceFlag)
        ensures
            final(self)@ == old(self)@ | other@,
            final(self).wf(),
    {
        *self = *self | other;
    }
}

impl BitAndAssign for AceFlag {
    fn bitand_assign(&mut self, other: AceFlag)
        ensures
            final(self)@ == old(self)@ & other@,
            final(self).wf(),
    {
        proof {
            use_type_invariant(&*self);
            use_type_invariant(other);
            lemma_known(self.bits, other.bits, Self::ALL_BITS);
        }
        *self = AceFlag { bits: self.bits & other.bits };
    }
}

impl BitXorAssign for AceFlag {
    fn bitxor_assign(&mut self, other: AceFlag)
        ensures
            final(self)@ == old(self)@ ^ other@,
            final(self).wf(),
    {
        *self = *self ^ other;
    }
}

impl SubAssign for AceFlag {
    fn sub_assign(&mut self, other: AceFlag)
        ensures
            final(self)@ == old(self)@ & !other@,
            final(self).wf(),
    {
        *self = *self - other;
    }
}

/// Two sets with the same bits are the same.
pub proof fn law_ace_flags_are_their_bits(a: AceFlag, b: AceFlag)
    requires
        a@ == b@,
    ensures
        a == b,
{
}

} // verus!
