//! Sets of bit flags: extended attribute flags and masks, DOS modes, ACE flags.
//!
//! The four types have the same operations. The view of a set is its bits.

pub mod ace_flag;
pub mod dos_mode;
pub mod xattr_flags;
pub mod xattr_mask;

use vstd::prelude::*;

pub use crate::flags::ace_flag::AceFlag;
pub use crate::flags::dos_mode::DosMode;
pub use crate::flags::xattr_flags::XAttrFlags;
pub use crate::flags::xattr_mask::XAttrMask;

verus! {

/// Whether every bit of `part` is set in `whole`.
pub open spec fn has_bits(whole: i32, part: i32) -> bool {
    whole & part == part
}

pub(crate) proof fn lemma_known(a: i32, b: i32, all: i32)
    by (bit_vector)
    requires
        a & !all == 0,
        b & !all == 0,
    ensures
        (a | b) & !all == 0,
        (a & b) & !all == 0,
        (a ^ b) & !all == 0,
        (a & !b) & !all == 0,
{
}

pub(crate) proof fn lemma_truncated(bits: i32, all: i32)
    by (bit_vector)
    ensures
        (bits & all) & !all == 0,
        0 & !all == 0,
        all & !all == 0,
{
}

/// A union holds both sets; taking one of them away again leaves what only the other had; and the
/// complement, which shares nothing with a set, gives the set back when it is taken twice.
pub proof fn law_sets_of_flags(a: i32, b: i32, all: i32)
    requires
        a & !all == 0,
        b & !all == 0,
    ensures
        has_bits(a | b, a),
        has_bits(a | b, b),
        (a | b) & !b == a & !b,
        (a & !b) & b == 0,
        a & (!a & all) == 0,
        a | (!a & all) == all,
        !(!a & all) & all == a,
{
    assert((a | b) & a == a && (a | b) & b == b && (a | b) & !b == a & !b && (a & !b) & b == 0 && a
        & (!a & all) == 0 && a | (!a & all) == all && !(!a & all) & all == a) by (bit_vector)
        requires
            a & !all == 0,
            b & !all == 0,
    ;
}

/// A set holds another exactly where putting the other in changes nothing, and exactly where each
/// bit of the other is set in it.
pub proof fn law_sets_hold_their_parts(whole: i32, part: i32, bit: i32)
    ensures
        has_bits(whole, part) <==> whole | part == whole,
        has_bits(whole, part) <==> part & !whole == 0,
        has_bits(whole, part) && part & bit != 0 ==> whole & bit != 0,
{
    assert((whole & part == part <==> whole | part == whole) && (whole & part == part <==> part
        & !whole == 0) && (whole & part == part && part & bit != 0 ==> whole & bit != 0))
        by (bit_vector);
}

} // verus!
