use smbc::flags::{AceFlag, DosMode, XAttrFlags, XAttrMask};
use smbc::Text;

#[test]
fn names_read_as_their_masks() {
    assert_eq!(XAttrMask::from_string("FULL").bits(), 0x001f_01ff);
    assert_eq!(XAttrMask::from_string("CHANGE").bits(), 0x0013_01bf);
    assert_eq!(XAttrMask::from_string("READ").bits(), 0x0012_00a9);
}

#[test]
fn letters_read_as_their_union() {
    assert_eq!(XAttrMask::from_string("R").bits(), 0x0012_0089);
    assert_eq!(XAttrMask::from_string("W").bits(), 0x0012_0116);
    assert_eq!(XAttrMask::from_string("X").bits(), 0x0012_00a0);
    assert_eq!(XAttrMask::from_string("D").bits(), 0x0001_0000);
    assert_eq!(XAttrMask::from_string("P").bits(), 0x0004_0000);
    assert_eq!(XAttrMask::from_string("O").bits(), 0x0008_0000);
    assert_eq!(XAttrMask::from_string("RX"), XAttrMask::READ());
    assert_eq!(XAttrMask::from_string("DWXR"), XAttrMask::CHANGE());
    assert_eq!(XAttrMask::from_string("RWXDPO"), XAttrMask::FULL());
    assert_eq!(XAttrMask::from_string("all of OPDXWR"), XAttrMask::FULL());
    assert_eq!(XAttrMask::from_string("RWXDP").bits(), 0x0017_01bf);
    assert_eq!(XAttrMask::from_string("OOO"), XAttrMask::O());
}

#[test]
fn other_text_reads_as_no_permission() {
    assert_eq!(XAttrMask::from_string(""), XAttrMask::N());
    assert_eq!(XAttrMask::from_string("N"), XAttrMask::N());
    assert_eq!(XAttrMask::from_string("rwx"), XAttrMask::N());
    assert_eq!(XAttrMask::from_string("FULL "), XAttrMask::N());
    assert_eq!(XAttrMask::from_string("no D").bits(), 0x0001_0000);
}

#[test]
fn masks_print_by_name_or_letters() {
    assert_eq!(XAttrMask::FULL().to_string(), "FULL");
    assert_eq!(XAttrMask::CHANGE().to_string(), "CHANGE");
    assert_eq!(XAttrMask::READ().to_string(), "READ");
    assert_eq!(XAttrMask::N().to_string(), "N");
    assert_eq!((XAttrMask::R() | XAttrMask::W()).to_string(), "RW");
    assert_eq!((XAttrMask::P() | XAttrMask::O()).to_string(), "PO");
    assert_eq!((XAttrMask::D() | XAttrMask::X()).to_string(), "XD");
    assert_eq!((XAttrMask::CHANGE() | XAttrMask::P()).to_string(), "CHANGE");
    assert_eq!(XAttrMask::from_bits(0x40).map(|m| m.to_string()), Some("N".to_string()));
}

#[test]
fn printed_masks_read_back_to_the_same_text() {
    for bits in 0..0x40 {
        let mut mask = XAttrMask::N();
        for (i, letter) in ["R", "W", "X", "D", "P", "O"].iter().enumerate() {
            if bits & (1 << i) != 0 {
                mask = mask | XAttrMask::from_string(letter);
            }
        }
        let text = mask.to_string();
        let back = XAttrMask::from_string(&text);
        assert_eq!(back.to_string(), text);
        assert!(mask.contains(back));
    }
}

#[test]
fn unions_hold_their_parts() {
    let m = XAttrMask::R() | XAttrMask::D();
    assert!(m.contains(XAttrMask::R()));
    assert!(m.contains(XAttrMask::D()));
    assert!(m.contains(XAttrMask::N()));
    assert!(!m.contains(XAttrMask::W()));
    let f = AceFlag::SEC_ACE_FLAG_OBJECT_INHERIT() | AceFlag::SEC_ACE_FLAG_INHERIT_ONLY();
    assert_eq!(f.bits(), 9);
    assert!(f.contains(AceFlag::NONE()));
    assert!(!f.contains(AceFlag::SEC_ACE_FLAG_CONTAINER_INHERIT()));
    let d = DosMode::HIDDEN() | DosMode::ARCHIVE();
    assert_eq!(d.bits(), 0x22);
    assert!(d.contains(DosMode::ARCHIVE()));
    let x = XAttrFlags::SMBC_XATTR_FLAG_CREATE() | XAttrFlags::SMBC_XATTR_FLAG_REPLACE();
    assert_eq!(x.bits(), 3);
    assert!(!XAttrFlags::SMBC_XATTR_FLAG_NONE().contains(x));
}

#[test]
fn unknown_bits_are_refused() {
    assert!(XAttrFlags::from_bits(4).is_none());
    assert_eq!(XAttrFlags::from_bits(2), Some(XAttrFlags::SMBC_XATTR_FLAG_REPLACE()));
    assert!(AceFlag::from_bits(0x10).is_none());
    assert_eq!(AceFlag::from_bits(4), Some(AceFlag::SEC_ACE_FLAG_NO_PROPAGATE_INHERIT()));
    assert!(DosMode::from_bits(0x1_0000).is_none());
    assert_eq!(DosMode::from_bits(0x8000), Some(DosMode::INTEGRITY_STREAM()));
    assert!(XAttrMask::from_bits(0x0020_0000).is_none());
    assert_eq!(XAttrMask::from_bits(0x001f_01ff), Some(XAttrMask::FULL()));
}

#[test]
fn dos_modes_have_their_bits() {
    assert_eq!(DosMode::READONLY().bits(), 0x01);
    assert_eq!(DosMode::HIDDEN().bits(), 0x02);
    assert_eq!(DosMode::SYSTEM().bits(), 0x04);
    assert_eq!(DosMode::VOLUME_ID().bits(), 0x08);
    assert_eq!(DosMode::DIRECTORY().bits(), 0x10);
    assert_eq!(DosMode::ARCHIVE().bits(), 0x20);
    assert_eq!(DosMode::DEVICE().bits(), 0x40);
    assert_eq!(DosMode::NORMAL().bits(), 0x80);
    assert_eq!(DosMode::TEMPORARY().bits(), 0x100);
    assert_eq!(DosMode::SPARSE_FILE().bits(), 0x200);
    assert_eq!(DosMode::REPARSE_POINT().bits(), 0x400);
    assert_eq!(DosMode::COMPRESSED().bits(), 0x800);
    assert_eq!(DosMode::OFFLINE().bits(), 0x1000);
    assert_eq!(DosMode::NOT_CONTENT_INDEXED().bits(), 0x2000);
    assert_eq!(DosMode::ENCRYPTED().bits(), 0x4000);
    assert_eq!(DosMode::INTEGRITY_STREAM().bits(), 0x8000);
}

#[test]
fn letter_masks_read_back_unless_a_name_covers_them() {
    for bits in 0..0x40 {
        let held = |i: usize| bits & (1 << i) != 0;
        let mut text = String::new();
        for (i, letter) in ["R", "W", "X", "D", "P", "O"].iter().enumerate() {
            if held(i) {
                text.push_str(letter);
            }
        }
        let mask = XAttrMask::from_string(&text);
        let expected = match (held(0) && held(2), held(1) && held(3), held(4) && held(5)) {
            (true, true, true) => XAttrMask::FULL(),
            (true, true, false) => XAttrMask::CHANGE(),
            (true, false, _) => XAttrMask::READ(),
            (false, _, _) => mask,
        };
        assert_eq!(XAttrMask::from_string(&mask.to_string()), expected);
    }
    assert_eq!(XAttrMask::from_string(&XAttrMask::FULL().to_string()), XAttrMask::FULL());
}

#[test]
fn texts_put_together_read_as_the_union() {
    for (a, b) in [("R", "W"), ("", "X"), ("RX", "PO"), ("no", "D"), ("RWXDPO", "R")] {
        let both = XAttrMask::from_string(&format!("{}{}", a, b));
        assert_eq!(both, XAttrMask::from_string(a) | XAttrMask::from_string(b));
    }
    assert_eq!(XAttrMask::from_string("REA") | XAttrMask::D(), XAttrMask::R() | XAttrMask::D());
    assert_eq!((XAttrMask::from_string("RWX") | XAttrMask::from_string("DPO")).bits(), 0x001f_01bf);
}

#[test]
fn sets_of_flags_can_be_changed() {
    let mut f = AceFlag::empty();
    assert!(f.is_empty() && !f.is_all());
    f.insert(AceFlag::SEC_ACE_FLAG_OBJECT_INHERIT());
    f.insert(AceFlag::SEC_ACE_FLAG_INHERIT_ONLY());
    assert_eq!(f.bits(), 9);
    f.remove(AceFlag::SEC_ACE_FLAG_OBJECT_INHERIT());
    assert_eq!(f.bits(), 8);
    f.toggle(AceFlag::all());
    assert_eq!(f.bits(), 7);
    f.set(AceFlag::SEC_ACE_FLAG_INHERIT_ONLY(), true);
    assert!(f.is_all());
    f.set(AceFlag::SEC_ACE_FLAG_CONTAINER_INHERIT(), false);
    assert_eq!(f.bits(), 13);
    assert!(f.intersects(AceFlag::SEC_ACE_FLAG_OBJECT_INHERIT()));
    assert!(!f.intersects(AceFlag::SEC_ACE_FLAG_CONTAINER_INHERIT()));
    assert!(!f.intersects(AceFlag::NONE()));
}

#[test]
fn sets_of_flags_have_operators() {
    let (a, b) = (DosMode::HIDDEN() | DosMode::SYSTEM(), DosMode::SYSTEM() | DosMode::NORMAL());
    assert_eq!((a | b).bits(), 0x86);
    assert_eq!((a & b).bits(), 0x04);
    assert_eq!((a ^ b).bits(), 0x82);
    assert_eq!((a - b).bits(), 0x02);
    assert_eq!((!a).bits(), 0xfff9);
    assert_eq!(!!a, a);
    assert_eq!(a | !a, DosMode::all());
    assert_eq!((a | b) - b, a - b);
    let mut c = a;
    c |= b;
    assert_eq!(c, a | b);
    c &= a;
    assert_eq!(c, a);
    c ^= b;
    assert_eq!(c, a ^ b);
    c -= b;
    assert_eq!(c, a - b);
    assert!(DosMode::HIDDEN() < DosMode::SYSTEM());
}

#[test]
fn other_bits_can_be_cut_off() {
    assert_eq!(XAttrFlags::from_bits_truncate(7).bits(), 3);
    assert_eq!(XAttrMask::from_bits_truncate(-1), XAttrMask::FULL());
    assert_eq!(XAttrMask::all(), XAttrMask::FULL());
    assert_eq!(XAttrMask::empty(), XAttrMask::N());
    assert_eq!(DosMode::from_bits_truncate(0x1_0001), DosMode::READONLY());
    assert_eq!(AceFlag::from_bits_truncate(0x10), AceFlag::NONE());
    assert_eq!((!XAttrFlags::SMBC_XATTR_FLAG_CREATE()).bits(), 2);
    assert_eq!((XAttrMask::FULL() - XAttrMask::CHANGE()).bits(), 0x000c_0040);
}
