//! Sets of flags.

use core::ops::{BitAnd, BitOr, BitXor, Not, Sub};
use vstd::prelude::*;
use crate::flags::{AceFlag, DosMode, XAttrFlags, XAttrMask};

verus! {

/// What is known and what is made of a set: its bits, whether it holds or meets another, and the
/// sets of given bits.
pub proof fn law_set_of_xattr_flags_queries(
    a: &XAttrFlags,
    b: XAttrFlags,
    bits: i32,
    value: i32,
    holds: bool,
    meets: bool,
    none: bool,
    every: bool,
    exact: Option<XAttrFlags>,
    cut: XAttrFlags,
    nothing: XAttrFlags,
    all: XAttrFlags,
)
    requires
        call_ensures(XAttrFlags::bits, (a,), value),
        call_ensures(XAttrFlags::contains, (a, b), holds),
        call_ensures(XAttrFlags::intersects, (a, b), meets),
        call_ensures(XAttrFlags::is_empty, (a,), none),
        call_ensures(XAttrFlags::is_all, (a,), every),
        call_ensures(XAttrFlags::from_bits, (bits,), exact),
        call_ensures(XAttrFlags::from_bits_truncate, (bits,), cut),
        call_ensures(XAttrFlags::empty, (), nothing),
        call_ensures(XAttrFlags::all, (), all),
    ensures
        value == a@,
        holds <==> b@ & !a@ == 0,
        meets <==> a@ & b@ != 0,
        none <==> a@ == 0,
        every <==> a@ == 0x3,
        exact is Some <==> bits & !0x3i32 == 0,
        exact matches Some(set) ==> set@ == bits,
        cut@ == bits & 0x3,
        nothing@ == 0,
        all@ == 0x3,
{
    let (x, y) = (a@, b@);
    assert(x & y == y <==> y & !x == 0) by (bit_vector);
}

/// The operators on sets: union, intersection, difference, what only one of them has, and all that
/// is not in a set.
pub proof fn law_set_of_xattr_flags_operators(
    a: XAttrFlags,
    b: XAttrFlags,
    union: XAttrFlags,
    common: XAttrFlags,
    rest: XAttrFlags,
    either: XAttrFlags,
    complement: XAttrFlags,
)
    requires
        call_ensures(<XAttrFlags as BitOr>::bitor, (a, b), union),
        call_ensures(<XAttrFlags as BitAnd>::bitand, (a, b), common),
        call_ensures(<XAttrFlags as Sub>::sub, (a, b), rest),
        call_ensures(<XAttrFlags as BitXor>::bitxor, (a, b), either),
        call_ensures(<XAttrFlags as Not>::not, (a,), complement),
    ensures
        union@ == a@ | b@,
        common@ == a@ & b@,
        rest@ == a@ & !b@,
        either@ == a@ ^ b@,
        complement@ == !a@ & 0x3,
{
}

/// What a set is after it was changed in place.
pub proof fn law_set_of_xattr_flags_changes(
    a: &mut XAttrFlags,
    b: &mut XAttrFlags,
    c: &mut XAttrFlags,
    d: &mut XAttrFlags,
    other: XAttrFlags,
    value: bool,
)
    requires
        call_ensures(XAttrFlags::insert, (a, other), ()),
        call_ensures(XAttrFlags::remove, (b, other), ()),
        call_ensures(XAttrFlags::toggle, (c, other), ()),
        call_ensures(XAttrFlags::set, (d, other, value), ()),
    ensures
        final(a)@ == old(a)@ | other@,
        final(b)@ == old(b)@ & !other@,
        final(c)@ == old(c)@ ^ other@,
        value ==> final(d)@ == old(d)@ | other@,
        !value ==> final(d)@ == old(d)@ & !other@,
{
}

/// The bits of each flag.
pub proof fn law_set_of_xattr_flags_values(r: XAttrFlags)
    ensures
        call_ensures(XAttrFlags::SMBC_XATTR_FLAG_NONE, (), r) ==> r@ == 0,
        call_ensures(XAttrFlags::SMBC_XATTR_FLAG_CREATE, (), r) ==> r@ == 1,
        call_ensures(XAttrFlags::SMBC_XATTR_FLAG_REPLACE, (), r) ==> r@ == 2,
{
}

/// What is known and what is made of a set: its bits, whether it holds or meets another, and the
/// sets of given bits.
pub proof fn law_mask_queries(
    a: &XAttrMask,
    b: XAttrMask,
    bits: i32,
    value: i32,
    holds: bool,
    meets: bool,
    none: bool,
    every: bool,
    exact: Option<XAttrMask>,
    cut: XAttrMask,
    nothing: XAttrMask,
    all: XAttrMask,
)
    requires
        call_ensures(XAttrMask::bits, (a,), value),
        call_ensures(XAttrMask::contains, (a, b), holds),
        call_ensures(XAttrMask::intersects, (a, b), meets),
        call_ensures(XAttrMask::is_empty, (a,), none),
        call_ensures(XAttrMask::is_all, (a,), every),
        call_ensures(XAttrMask::from_bits, (bits,), exact),
        call_ensures(XAttrMask::from_bits_truncate, (bits,), cut),
        call_ensures(XAttrMask::empty, (), nothing),
        call_ensures(XAttrMask::all, (), all),
    ensures
        value == a@,
        holds <==> b@ & !a@ == 0,
        meets <==> a@ & b@ != 0,
        none <==> a@ == 0,
        every <==> a@ == 0x001f_01ff,
        exact is Some <==> bits & !0x001f_01ffi32 == 0,
        exact matches Some(set) ==> set@ == bits,
        cut@ == bits & 0x001f_01ff,
        nothing@ == 0,
        all@ == 0x001f_01ff,
{
    let (x, y) = (a@, b@);
    assert(x & y == y <==> y & !x == 0) by (bit_vector);
}

/// The operators on sets: union, intersection, difference, what only one of them has, and all that
/// is not in a set.
pub proof fn law_mask_operators(
    a: XAttrMask,
    b: XAttrMask,
    union: XAttrMask,
    common: XAttrMask,
    rest: XAttrMask,
    either: XAttrMask,
    complement: XAttrMask,
)
    requires
        call_ensures(<XAttrMask as BitOr>::bitor, (a, b), union),
        call_ensures(<XAttrMask as BitAnd>::bitand, (a, b), common),
        call_ensures(<XAttrMask as Sub>::sub, (a, b), rest),
        call_ensures(<XAttrMask as BitXor>::bitxor, (a, b), either),
        call_ensures(<XAttrMask as Not>::not, (a,), complement),
    ensures
        union@ == a@ | b@,
        common@ == a@ & b@,
        rest@ == a@ & !b@,
        either@ == a@ ^ b@,
        complement@ == !a@ & 0x001f_01ff,
{
}

/// What a set is after it was changed in place.
pub proof fn law_mask_changes(
    a: &mut XAttrMask,
    b: &mut XAttrMask,
    c: &mut XAttrMask,
    d: &mut XAttrMask,
    other: XAttrMask,
    value: bool,
)
    requires
        call_ensures(XAttrMask::insert, (a, other), ()),
        call_ensures(XAttrMask::remove, (b, other), ()),
        call_ensures(XAttrMask::toggle, (c, other), ()),
        call_ensures(XAttrMask::set, (d, other, value), ()),
    ensures
        final(a)@ == old(a)@ | other@,
        final(b)@ == old(b)@ & !other@,
        final(c)@ == old(c)@ ^ other@,
        value ==> final(d)@ == old(d)@ | other@,
        !value ==> final(d)@ == old(d)@ & !other@,
{
}

/// The bits of each flag.
pub proof fn law_mask_values(r: XAttrMask)
    ensures
        call_ensures(XAttrMask::R, (), r) ==> r@ == 0x0012_0089,
        call_ensures(XAttrMask::W, (), r) ==> r@ == 0x0012_0116,
        call_ensures(XAttrMask::X, (), r) ==> r@ == 0x0012_00a0,
        call_ensures(XAttrMask::D, (), r) ==> r@ == 0x0001_0000,
        call_ensures(XAttrMask::P, (), r) ==> r@ == 0x0004_0000,
        call_ensures(XAttrMask::O, (), r) ==> r@ == 0x0008_0000,
        call_ensures(XAttrMask::N, (), r) ==> r@ == 0,
        call_ensures(XAttrMask::READ, (), r) ==> r@ == 0x0012_00a9,
        call_ensures(XAttrMask::CHANGE, (), r) ==> r@ == 0x0013_01bf,
        call_ensures(XAttrMask::FULL, (), r) ==> r@ == 0x001f_01ff,
{
}

/// What is known and what is made of a set: its bits, whether it holds or meets another, and the
/// sets of given bits.
pub proof fn law_mode_queries(
    a: &DosMode,
    b: DosMode,
    bits: i32,
    value: i32,
    holds: bool,
    meets: bool,
    none: bool,
    every: bool,
    exact: Option<DosMode>,
    cut: DosMode,
    nothing: DosMode,
    all: DosMode,
)
    requires
        call_ensures(DosMode::bits, (a,), value),
        call_ensures(DosMode::contains, (a, b), holds),
        call_ensures(DosMode::intersects, (a, b), meets),
        call_ensures(DosMode::is_empty, (a,), none),
        call_ensures(DosMode::is_all, (a,), every),
        call_ensures(DosMode::from_bits, (bits,), exact),
        call_ensures(DosMode::from_bits_truncate, (bits,), cut),
        call_ensures(DosMode::empty, (), nothing),
        call_ensures(DosMode::all, (), all),
    ensures
        value == a@,
        holds <==> b@ & !a@ == 0,
        meets <==> a@ & b@ != 0,
        none <==> a@ == 0,
        every <==> a@ == 0xffff,
        exact is Some <==> bits & !0xffffi32 == 0,
        exact matches Some(set) ==> set@ == bits,
        cut@ == bits & 0xffff,
        nothing@ == 0,
        all@ == 0xffff,
{
    let (x, y) = (a@, b@);
    assert(x & y == y <==> y & !x == 0) by (bit_vector);
}

/// The operators on sets: union, intersection, difference, what only one of them has, and all that
/// is not in a set.
pub proof fn law_mode_operators(
    a: DosMode,
    b: DosMode,
    union: DosMode,
    common: DosMode,
    rest: DosMode,
    either: DosMode,
    complement: DosMode,
)
    requires
        call_ensures(<DosMode as BitOr>::bitor, (a, b), union),
        call_ensures(<DosMode as BitAnd>::bitand, (a, b), common),
        call_ensures(<DosMode as Sub>::sub, (a, b), rest),
        call_ensures(<DosMode as BitXor>::bitxor, (a, b), either),
        call_ensures(<DosMode as Not>::not, (a,), complement),
    ensures
        union@ == a@ | b@,
        common@ == a@ & b@,
        rest@ == a@ & !b@,
        either@ == a@ ^ b@,
        complement@ == !a@ & 0xffff,
{
}

/// What a set is after it was changed in place.
pub proof fn law_mode_changes(
    a: &mut DosMode,
    b: &mut DosMode,
    c: &mut DosMode,
    d: &mut DosMode,
    other: DosMode,
    value: bool,
)
    requires
        call_ensures(DosMode::insert, (a, other), ()),
        call_ensures(DosMode::remove, (b, other), ()),
        call_ensures(DosMode::toggle, (c, other), ()),
        call_ensures(DosMode::set, (d, other, value), ()),
    ensures
        final(a)@ == old(a)@ | other@,
        final(b)@ == old(b)@ & !other@,
        final(c)@ == old(c)@ ^ other@,
        value ==> final(d)@ == old(d)@ | other@,
        !value ==> final(d)@ == old(d)@ & !other@,
{
}

/// The bits of each flag.
pub proof fn law_mode_values(r: DosMode)
    ensures
        call_ensures(DosMode::READONLY, (), r) ==> r@ == 0x1,
        call_ensures(DosMode::HIDDEN, (), r) ==> r@ == 0x2,
        call_ensures(DosMode::SYSTEM, (), r) ==> r@ == 0x4,
        call_ensures(DosMode::VOLUME_ID, (), r) ==> r@ == 0x8,
        call_ensures(DosMode::DIRECTORY, (), r) ==> r@ == 0x10,
        call_ensures(DosMode::ARCHIVE, (), r) ==> r@ == 0x20,
        call_ensures(DosMode::DEVICE, (), r) ==> r@ == 0x40,
        call_ensures(DosMode::NORMAL, (), r) ==> r@ == 0x80,
        call_ensures(DosMode::TEMPORARY, (), r) ==> r@ == 0x100,
        call_ensures(DosMode::SPARSE_FILE, (), r) ==> r@ == 0x200,
        call_ensures(DosMode::REPARSE_POINT, (), r) ==> r@ == 0x400,
        call_ensures(DosMode::COMPRESSED, (), r) ==> r@ == 0x800,
        call_ensures(DosMode::OFFLINE, (), r) ==> r@ == 0x1000,
        call_ensures(DosMode::NOT_CONTENT_INDEXED, (), r) ==> r@ == 0x2000,
        call_ensures(DosMode::ENCRYPTED, (), r) ==> r@ == 0x4000,
        call_ensures(DosMode::INTEGRITY_STREAM, (), r) ==> r@ == 0x8000,
{
}

/// What is known and what is made of a set: its bits, whether it holds or meets another, and the
/// sets of given bits.
pub proof fn law_set_of_ace_flags_queries(
    a: &AceFlag,
    b: AceFlag,
    bits: i32,
    value: i32,
    holds: bool,
    meets: bool,
    none: bool,
    every: bool,
    exact: Option<AceFlag>,
    cut: AceFlag,
    nothing: AceFlag,
    all: AceFlag,
)
    requires
        call_ensures(AceFlag::bits, (a,), value),
        call_ensures(AceFlag::contains, (a, b), holds),
        call_ensures(AceFlag::intersects, (a, b), meets),
        call_ensures(AceFlag::is_empty, (a,), none),
        call_ensures(AceFlag::is_all, (a,), every),
        call_ensures(AceFlag::from_bits, (bits,), exact),
        call_ensures(AceFlag::from_bits_truncate, (bits,), cut),
        call_ensures(AceFlag::empty, (), nothing),
        call_ensures(AceFlag::all, (), all),
    ensures
        value == a@,
        holds <==> b@ & !a@ == 0,
        meets <==> a@ & b@ != 0,
        none <==> a@ == 0,
        every <==> a@ == 0xf,
        exact is Some <==> bits & !0xfi32 == 0,
        exact matches Some(set) ==> set@ == bits,
        cut@ == bits & 0xf,
        nothing@ == 0,
        all@ == 0xf,
{
    let (x, y) = (a@, b@);
    assert(x & y == y <==> y & !x == 0) by (bit_vector);
}

/// The operators on sets: union, intersection, difference, what only one of them has, and all that
/// is not in a set.
pub proof fn law_set_of_ace_flags_operators(
    a: AceFlag,
    b: AceFlag,
    union: AceFlag,
    common: AceFlag,
    rest: AceFlag,
    either: AceFlag,
    complement: AceFlag,
)
    requires
        call_ensures(<AceFlag as BitOr>::bitor, (a, b), union),
        call_ensures(<AceFlag as BitAnd>::bitand, (a, b), common),
        call_ensures(<AceFlag as Sub>::sub, (a, b), rest),
        call_ensures(<AceFlag as BitXor>::bitxor, (a, b), either),
        call_ensures(<AceFlag as Not>::not, (a,), complement),
    ensures
        union@ == a@ | b@,
        common@ == a@ & b@,
        rest@ == a@ & !b@,
        either@ == a@ ^ b@,
        complement@ == !a@ & 0xf,
{
}

/// What a set is after it was changed in place.
pub proof fn law_set_of_ace_flags_changes(
    a: &mut AceFlag,
    b: &mut AceFlag,
    c: &mut AceFlag,
    d: &mut AceFlag,
    other: AceFlag,
    value: bool,
)
    requires
        call_ensures(AceFlag::insert, (a, other), ()),
        call_ensures(AceFlag::remove, (b, other), ()),
        call_ensures(AceFlag::toggle, (c, other), ()),
        call_ensures(AceFlag::set, (d, other, value), ()),
    ensures
        final(a)@ == old(a)@ | other@,
        final(b)@ == old(b)@ & !other@,
        final(c)@ == old(c)@ ^ other@,
        value ==> final(d)@ == old(d)@ | other@,
        !value ==> final(d)@ == old(d)@ & !other@,
{
}

/// The bits of each flag.
pub proof fn law_set_of_ace_flags_values(r: AceFlag)
    ensures
        call_ensures(AceFlag::NONE, (), r) ==> r@ == 0,
        call_ensures(AceFlag::SEC_ACE_FLAG_OBJECT_INHERIT, (), r) ==> r@ == 1,
        call_ensures(AceFlag::SEC_ACE_FLAG_CONTAINER_INHERIT, (), r) ==> r@ == 2,
        call_ensures(AceFlag::SEC_ACE_FLAG_NO_PROPAGATE_INHERIT, (), r) ==> r@ == 4,
        call_ensures(AceFlag::SEC_ACE_FLAG_INHERIT_ONLY, (), r) ==> r@ == 8,
{
}

} // verus!
