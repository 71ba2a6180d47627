//! DOS modes.

use core::ops::{
    BitAnd, BitAndAssign, BitOr, BitOrAssign, BitXor, BitXorAssign, Not, Sub, SubAssign,
};
use vstd::prelude::*;
use vstd::std_specs::ops::{
    BitAndSpecImpl, BitOrSpecImpl, BitXorSpecImpl, NotSpecImpl, SubSpecImpl,
};
use crate::flags::{has_bits, lemma_known, lemma_truncated};

verus! {

/// DOS mode of a file or directory.
///
/// The view of a set is its bits.
#[derive(Debug, Clone, Copy, PartialEq, Eq, PartialOrd, Ord, Hash, Structural)]
pub struct DosMode {
    bits: i32,
}

impl View for DosMode {
    type V = i32;

    closed spec fn view(&self) -> i32 {
        self.bits
    }
}

proof fn lemma_dos_mode_known()
    by (bit_vector)
    ensures
        0x01i32 & !0xffffi32 == 0,
        0x02i32 & !0xffffi32 == 0,
        0x04i32 & !0xffffi32 == 0,
        0x08i32 & !0xffffi32 == 0,
        0x10i32 & !0xffffi32 == 0,
        0x20i32 & !0xffffi32 == 0,
        0x40i32 & !0xffffi32 == 0,
        0x80i32 & !0xffffi32 == 0,
        0x100i32 & !0xffffi32 == 0,
        0x200i32 & !0xffffi32 == 0,
        0x400i32 & !0xffffi32 == 0,
        0x800i32 & !0xffffi32 == 0,
        0x1000i32 & !0xffffi32 == 0,
        0x2000i32 & !0xffffi32 == 0,
        0x4000i32 & !0xffffi32 == 0,
        0x8000i32 & !0xffffi32 == 0,
{
}

impl DosMode {
    /// Every bit that a flag of this kind may set.
    pub const ALL_BITS: i32 = 0xffff;

    /// No bit is set but those of the flags below.
    #[verifier::type_invariant]
    pub open spec fn wf(self) -> bool {
        self@ & !Self::ALL_BITS == 0
    }

    /// Read-only file. The attribute is not honoured on directories.
    #[allow(non_snake_case)]
    pub fn READONLY() -> (r: DosMode)
        ensures
            r@ == 0x01,
            r.wf(),
    {
        proof {
            lemma_dos_mode_known();
        }
        DosMode { bits: 0x01 }
    }

    /// The file or directory is not listed in an ordinary directory listing.
    #[allow(non_snake_case)]
    pub fn HIDDEN() -> (r: DosMode)
        ensures
            r@ == 0x02,
            r.wf(),
    {
        proof {
            lemma_dos_mode_known();
        }
        DosMode { bits: 0x02 }
    }

    /// For use by the operating system.
    #[allow(non_snake_case)]
    pub fn SYSTEM() -> (r: DosMode)
        ensures
            r@ == 0x04,
            r.wf(),
    {
        proof {
            lemma_dos_mode_known();
        }
        DosMode { bits: 0x04 }
    }

    /// Volume label.
    #[allow(non_snake_case)]
    pub fn VOLUME_ID() -> (r: DosMode)
        ensures
            r@ == 0x08,
            r.wf(),
    {
        proof {
            lemma_dos_mode_known();
        }
        DosMode { bits: 0x08 }
    }

    /// Identifies a directory.
    #[allow(non_snake_case)]
    pub fn DIRECTORY() -> (r: DosMode)
        ensures
            r@ == 0x10,
            r.wf(),
    {
        proof {
            lemma_dos_mode_known();
        }
        DosMode { bits: 0x10 }
    }

    /// Marked for backup or removal.
    #[allow(non_snake_case)]
    pub fn ARCHIVE() -> (r: DosMode)
        ensures
            r@ == 0x20,
            r.wf(),
    {
        proof {
            lemma_dos_mode_known();
        }
        DosMode { bits: 0x20 }
    }

    /// Reserved for system use.
    #[allow(non_snake_case)]
    pub fn DEVICE() -> (r: DosMode)
        ensures
            r@ == 0x40,
            r.wf(),
    {
        proof {
            lemma_dos_mode_known();
        }
        DosMode { bits: 0x40 }
    }

    /// No other attribute is set; valid only by itself.
    #[allow(non_snake_case)]
    pub fn NORMAL() -> (r: DosMode)
        ensures
            r@ == 0x80,
            r.wf(),
    {
        proof {
            lemma_dos_mode_known();
        }
        DosMode { bits: 0x80 }
    }

    /// Temporary storage.
    #[allow(non_snake_case)]
    pub fn TEMPORARY() -> (r: DosMode)
        ensures
            r@ == 0x100,
            r.wf(),
    {
        proof {
            lemma_dos_mode_known();
        }
        DosMode { bits: 0x100 }
    }

    /// Sparse file.
    #[allow(non_snake_case)]
    pub fn SPARSE_FILE() -> (r: DosMode)
        ensures
            r@ == 0x200,
            r.wf(),
    {
        proof {
            lemma_dos_mode_known();
        }
        DosMode { bits: 0x200 }
    }

    /// Has a symbolic link.
    #[allow(non_snake_case)]
    pub fn REPARSE_POINT() -> (r: DosMode)
        ensures
            r@ == 0x400,
            r.wf(),
    {
        proof {
            lemma_dos_mode_known();
        }
        DosMode { bits: 0x400 }
    }

    /// Compressed file or directory.
    #[allow(non_snake_case)]
    pub fn COMPRESSED() -> (r: DosMode)
        ensures
            r@ == 0x800,
            r.wf(),
    {
        proof {
            lemma_dos_mode_known();
        }
        DosMode { bits: 0x800 }
    }

    /// The data has been moved to offline storage.
    #[allow(non_snake_case)]
    pub fn OFFLINE() -> (r: DosMode)
        ensures
            r@ == 0x1000,
            r.wf(),
    {
        proof {
            lemma_dos_mode_known();
        }
        DosMode { bits: 0x1000 }
    }

    /// Not indexed by the content indexing service.
    #[allow(non_snake_case)]
    pub fn NOT_CONTENT_INDEXED() -> (r: DosMode)
        ensures
            r@ == 0x2000,
            r.wf(),
    {
        proof {
            lemma_dos_mode_known();
        }
        DosMode { bits: 0x2000 }
    }

    /// Encrypted file or directory.
    #[allow(non_snake_case)]
    pub fn ENCRYPTED() -> (r: DosMode)
        ensures
            r@ == 0x4000,
            r.wf(),
    {
        proof {
            lemma_dos_mode_known();
        }
        DosMode { bits: 0x4000 }
    }

    /// Directory or data stream configured with integrity.
    #[allow(non_snake_case)]
    pub fn INTEGRITY_STREAM() -> (r: DosMode)
        ensures
            r@ == 0x8000,
            r.wf(),
    {
        proof {
            lemma_dos_mode_known();
        }
        DosMode { bits: 0x8000 }
    }

    /// The set with these bits, unless one of them belongs to no flag.
    pub fn from_bits(bits: i32) -> (r: Option<DosMode>)
        ensures
            match r {
                Some(set) => bits & !Self::ALL_BITS == 0 && set@ == bits && set.wf(),
                None => bits & !Self::ALL_BITS != 0,
            },
    {
        if bits & !Self::ALL_BITS == 0 {
            Some(DosMode { bits })
        } else {
            None
        }
    }

    /// The bits of the set.
    pub fn bits(&self) -> (r: i32)
        ensures
            r == self@,
            self.wf(),
    {
        proof {
            use_type_invariant(self);
        }
        self.bits
    }

    /// Whether every flag of `other` is in this set.
    pub fn contains(&self, other: DosMode) -> (r: bool)
        ensures
            r == has_bits(self@, other@),
    {
        self.bits & other.bits == other.bits
    }

    /// The set without any flag.
    pub fn empty() -> (r: DosMode)
        ensures
            r@ == 0,
            r.wf(),
    {
        proof {
            lemma_truncated(0, Self::ALL_BITS);
        }
        DosMode { bits: 0 }
    }

    /// The set of all flags.
    pub fn all() -> (r: DosMode)
        ensures
            r@ == Self::ALL_BITS,
            r.wf(),
    {
        proof {
            lemma_truncated(0, Self::ALL_BITS);
        }
        DosMode { bits: Self::ALL_BITS }
    }

    /// The set with those of the bits that belong to a flag.
    pub fn from_bits_truncate(bits: i32) -> (r: DosMode)
        ensures
            r@ == bits & Self::ALL_BITS,
            r.wf(),
    {
        proof {
            lemma_truncated(bits, Self::ALL_BITS);
        }
        DosMode { bits: bits & Self::ALL_BITS }
    }

    /// Whether there is no flag in this set.
    pub fn is_empty(&self) -> (r: bool)
        ensures
            r == (self@ == 0),
    {
        self.bits == 0
    }

    /// Whether every flag is in this set.
    pub fn is_all(&self) -> (r: bool)
        ensures
            r == (self@ == Self::ALL_BITS),
    {
        self.bits == Self::ALL_BITS
    }

    /// Whether the two sets have a bit in common.
    pub fn intersects(&self, other: DosMode) -> (r: bool)
        ensures
            r == (self@ & other@ != 0),
    {
        self.bits & other.bits != 0
    }

    /// Adds the flags of `other`.
    pub fn insert(&mut self, other: DosMode)
        ensures
            final(self)@ == old(self)@ | other@,
            final(self).wf(),
    {
        self.bitor_assign(other);
    }

    /// Takes the bits of `other` away.
    pub fn remove(&mut self, other: DosMode)
        ensures
            final(self)@ == old(self)@ & !other@,
            final(self).wf(),
    {
        self.sub_assign(other);
    }

    /// Adds the bits of `other` that are not there, and takes away those that are.
    pub fn toggle(&mut self, other: DosMode)
        ensures
            final(self)@ == old(self)@ ^ other@,
            final(self).wf(),
    {
        self.bitxor_assign(other);
    }

    /// Adds the flags of `other`, or takes its bits away.
    pub fn set(&mut self, other: DosMode, value: bool)
        ensures
            final(self)@ == if value {
                old(self)@ | other@
            } else {
                old(self)@ & !other@
            },
            final(self).wf(),
    {
        if value {
            self.insert(other);
        } else {
            self.remove(other);
        }
    }
}

impl BitOr for DosMode {
    type Output = DosMode;

    fn bitor(self, other: DosMode) -> (r: DosMode)
        ensures
            r@ == self@ | other@,
            r.wf(),
    {
        proof {
            use_type_invariant(self);
            use_type_invariant(other);
            lemma_known(self.bits, other.bits, Self::ALL_BITS);
        }
        DosMode { bits: self.bits | other.bits }
    }
}

impl BitOrSpecImpl for DosMode {
    open spec fn obeys_bitor_spec() -> bool {
        true
    }

    open spec fn bitor_req(self, other: DosMode) -> bool {
        true
    }

    closed spec fn bitor_spec(self, other: DosMode) -> DosMode {
        DosMode { bits: self.bits | other.bits }
    }
}

impl BitAnd for DosMode {
    type Output = DosMode;

    fn bitand(self, other: DosMode) -> (r: DosMode)
        ensures
            r@ == self@ & other@,
            r.wf(),
    {
        let mut r = self;
        r.bitand_assign(other);
        r
    }
}

impl BitAndSpecImpl for DosMode {
    open spec fn obeys_bitand_spec() -> bool {
        true
    }

    open spec fn bitand_req(self, other: DosMode) -> bool {
        true
    }

    closed spec fn bitand_spec(self, other: DosMode) -> DosMode {
        DosMode { bits: self.bits & other.bits }
    }
}

impl BitXor for DosMode {
    type Output = DosMode;

    fn bitxor(self, other: DosMode) -> (r: DosMode)
        ensures
            r@ == self@ ^ other@,
            r.wf(),
    {
        proof {
            use_type_invariant(self);
            use_type_invariant(other);
            lemma_known(self.bits, other.bits, Self::ALL_BITS);
        }
        DosMode { bits: self.bits ^ other.bits }
    }
}

impl BitXorSpecImpl for DosMode {
    open spec fn obeys_bitxor_spec() -> bool {
        true
    }

    open spec fn bitxor_req(self, other: DosMode) -> bool {
        true
    }

    closed spec fn bitxor_spec(self, other: DosMode) -> DosMode {
        DosMode { bits: self.bits ^ other.bits }
    }
}

impl Sub for DosMode {
    type Output = DosMode;

    fn sub(self, other: DosMode) -> (r: DosMode)
        ensures
            r@ == self@ & !other@,
            r.wf(),
    {
        proof {
            use_type_invariant(self);
            use_type_invariant(other);
            lemma_known(self.bits, other.bits, Self::ALL_BITS);
        }
        DosMode { bits: self.bits & !other.bits }
    }
}

impl SubSpecImpl for DosMode {
    open spec fn obeys_sub_spec() -> bool {
        true
    }

    open spec fn sub_req(self, other: DosMode) -> bool {
        true
    }

    closed spec fn sub_spec(self, other: DosMode) -> DosMode {
        DosMode { bits: self.bits & !other.bits }
    }
}

impl Not for DosMode {
    type Output = DosMode;

    fn not(self) -> (r: DosMode)
        ensures
            r@ == !self@ & Self::ALL_BITS,
            r.wf(),
    {
        DosMode::from_bits_truncate(!self.bits)
    }
}

impl NotSpecImpl for DosMode {
    open spec fn obeys_not_spec() -> bool {
        true
    }

    open spec fn not_req(self) -> bool {
        true
    }

    closed spec fn not_spec(self) -> DosMode {
        DosMode { bits: !self.bits & DosMode::ALL_BITS }
    }
}

impl BitOrAssign for DosMode {
    fn bitor_assign(&mut self, other: DosMode)
        ensures
            final(self)@ == old(self)@ | other@,
            final(self).wf(),
    {
        *self = *self | other;
    }
}

impl BitAndAssign for DosMode {
    fn bitand_assign(&mut self, other: DosMode)
        ensures
            final(self)@ == old(self)@ & other@,
            final(self).wf(),
    {
        proof {
            use_type_invariant(&*self);
            use_type_invariant(other);
            lemma_known(self.bits, other.bits, Self::ALL_BITS);
        }
        *self = DosMode { bits: self.bits & other.bits };
    }
}

impl BitXorAssign for DosMode {
    fn bitxor_assign(&mut self, other: DosMode)
        ensures
            final(self)@ == old(self)@ ^ other@,
            final(self).wf(),
    {
        *self = *self ^ other;
    }
}

impl SubAssign for DosMode {
    fn sub_assign(&mut self, other: DosMode)
        ensures
            final(self)@ == old(self)@ & !other@,
            final(self).wf(),
    {
        *self = *self - other;
    }
}

/// Two sets with the same bits are the same.
pub proof fn law_mode_is_its_bits(a: DosMode, b: DosMode)
    requires
        a@ == b@,
    ensures
        a == b,
{
}

} // verus!
