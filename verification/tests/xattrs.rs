use smbc::{
    AceAtype, AceFlag, DosMode, Sid, SmbcAclAttr, SmbcAclValue, SmbcDosAttr, SmbcDosValue,
    SmbcExclude, SmbcXAttr, SmbcXAttrValue, Text, XAttrMask, ACE,
};

fn ace() -> ACE {
    ACE::new_num(Sid(vec![5, 32]), AceAtype::ALLOWED, AceFlag::NONE(), XAttrMask::D())
}

fn named() -> ACE {
    ACE::new_named("bob", AceAtype::DENIED, AceFlag::NONE(), "CHANGE")
}

#[test]
fn names_of_dos_attributes() {
    assert_eq!(SmbcDosAttr::All.to_string(), "system.dos_attr.*");
    assert_eq!(SmbcDosAttr::Atime.to_string(), "system.dos_attr.a_time");
    assert_eq!(SmbcDosAttr::Ctime.to_string(), "system.dos_attr.c_time");
    assert_eq!(SmbcDosAttr::Mtime.to_string(), "system.dos_attr.m_time");
    assert_eq!(SmbcDosAttr::Mode.to_string(), "system.dos_attr.mode");
    assert_eq!(SmbcDosAttr::Inode.to_string(), "system.dos_attr.inode");
    assert_eq!(SmbcDosAttr::Size.to_string(), "system.dos_attr.size");
    assert_eq!(
        SmbcDosAttr::AllExclude(vec![SmbcExclude::Mod, SmbcExclude::Ino]).to_string(),
        "system.dos_attr.*!dos_attr.mode!dos_attr.inode"
    );
}

#[test]
fn names_of_descriptor_parts() {
    let sid = Sid(vec![5, 32]);
    let excluded = vec![SmbcExclude::Rev];
    let cases = [
        (SmbcAclAttr::Acl(ace()), "acl:S-1-5-32:0/0/65536"),
        (SmbcAclAttr::AclPlus(named()), "acl+:bob:DENIED/0/CHANGE"),
        (SmbcAclAttr::AclAll, "acl.*"),
        (SmbcAclAttr::AclAllPlus, "acl.*+"),
        (SmbcAclAttr::AclNone, "acl"),
        (SmbcAclAttr::AclNonePlus, "acl+"),
        (SmbcAclAttr::AclSid(sid.clone()), "aclS-1-5-32"),
        (SmbcAclAttr::AclSidPlus(sid), "acl+S-1-5-32"),
        (SmbcAclAttr::All, "*"),
        (SmbcAclAttr::AllPlus, "*+"),
        (SmbcAclAttr::AllExclude(excluded.clone()), "*!nt_sec_desc.revision"),
        (SmbcAclAttr::AllExcludePlus(excluded), "*+!nt_sec_desc.revision"),
        (SmbcAclAttr::Group, "group"),
        (SmbcAclAttr::GroupPlus, "group+"),
        (SmbcAclAttr::Revision, "revision"),
        (SmbcAclAttr::Owner, "owner"),
        (SmbcAclAttr::OwnerPlus, "owner+"),
    ];
    for (attr, text) in cases {
        assert_eq!(attr.to_string(), format!("system.nt_sec_desc.{}", text));
    }
}

#[test]
fn names_of_attributes() {
    assert_eq!(SmbcXAttr::All.to_string(), "system.*");
    assert_eq!(SmbcXAttr::AllPlus.to_string(), "system.*+");
    assert_eq!(
        SmbcXAttr::AllExclude(vec![SmbcExclude::Acl, SmbcExclude::Mod]).to_string(),
        "system.*!nt_sec_desc.acl!dos_attr.mode"
    );
    assert_eq!(
        SmbcXAttr::AllExcludePlus(vec![SmbcExclude::Own]).to_string(),
        "system.*+!nt_sec_desc.owner"
    );
    assert_eq!(
        SmbcXAttr::DosAttr(SmbcDosAttr::Mode).to_string(),
        "system.dos_attr.mode"
    );
    assert_eq!(
        SmbcXAttr::AclAttr(SmbcAclAttr::Owner).to_string(),
        "system.nt_sec_desc.owner"
    );
}

#[test]
fn exclusions_name_attributes() {
    let cases = [
        (SmbcExclude::Rev, SmbcXAttr::AclAttr(SmbcAclAttr::Revision)),
        (SmbcExclude::Own, SmbcXAttr::AclAttr(SmbcAclAttr::Owner)),
        (SmbcExclude::Grp, SmbcXAttr::AclAttr(SmbcAclAttr::Group)),
        (SmbcExclude::Acl, SmbcXAttr::AclAttr(SmbcAclAttr::AclNone)),
        (SmbcExclude::Mod, SmbcXAttr::DosAttr(SmbcDosAttr::Mode)),
        (SmbcExclude::Siz, SmbcXAttr::DosAttr(SmbcDosAttr::Size)),
        (SmbcExclude::Ctm, SmbcXAttr::DosAttr(SmbcDosAttr::Ctime)),
        (SmbcExclude::Atm, SmbcXAttr::DosAttr(SmbcDosAttr::Atime)),
        (SmbcExclude::Mtm, SmbcXAttr::DosAttr(SmbcDosAttr::Mtime)),
        (SmbcExclude::Ino, SmbcXAttr::DosAttr(SmbcDosAttr::Inode)),
    ];
    for (excluded, attr) in cases {
        assert_eq!(attr.to_string(), format!("system.{}", excluded.to_string()));
    }
}

#[test]
fn values_of_descriptor_parts() {
    assert_eq!(SmbcAclValue::Acl(ace()).to_string(), "ACL:S-1-5-32:0/0/65536");
    assert_eq!(SmbcAclValue::AclPlus(named()).to_string(), "ACL+:bob:DENIED/0/CHANGE");
    assert_eq!(SmbcAclValue::Group(Sid(vec![1, 0])).to_string(), "GROUP:S-1-1-0");
    assert_eq!(SmbcAclValue::GroupPlus("all".to_string()).to_string(), "GROUP+:all");
    assert_eq!(SmbcAclValue::Owner(Sid(vec![1])).to_string(), "OWNER:S-1-1");
    assert_eq!(SmbcAclValue::OwnerPlus("bob".to_string()).to_string(), "OWNER+:bob");
    assert_eq!(SmbcAclValue::Revision(1).to_string(), "REVISION:1");
}

#[test]
fn values_of_dos_attributes() {
    assert_eq!(SmbcDosValue::MODE(DosMode::NORMAL()).to_string(), "MODE:128");
    assert_eq!(SmbcDosValue::ATime(10).to_string(), "A_TIME:10");
    assert_eq!(SmbcDosValue::CTime(0).to_string(), "C_TIME:0");
    assert_eq!(SmbcDosValue::MTime(u64::MAX).to_string(), "M_TIME:18446744073709551615");
    assert_eq!(SmbcDosValue::INode(42).to_string(), "INODE:42");
    assert_eq!(SmbcDosValue::Size(-1).to_string(), "SIZE:-1");
    assert_eq!(SmbcDosValue::Size(i64::MIN).to_string(), "SIZE:-9223372036854775808");
}

#[test]
fn values_of_attributes() {
    let acl = vec![SmbcAclValue::Revision(1), SmbcAclValue::OwnerPlus("bob".to_string())];
    let dos = vec![SmbcDosValue::ATime(1), SmbcDosValue::Size(2)];
    assert_eq!(SmbcXAttrValue::Ace(ace()).to_string(), "S-1-5-32:0/0/65536");
    assert_eq!(SmbcXAttrValue::AclAll(acl.clone()).to_string(), "REVISION:1\nOWNER+:bob");
    assert_eq!(SmbcXAttrValue::DosAll(dos.clone()).to_string(), "A_TIME:1\tSIZE:2");
    assert_eq!(
        SmbcXAttrValue::All(acl, dos).to_string(),
        "REVISION:1\nOWNER+:bob,A_TIME:1\tSIZE:2"
    );
    assert_eq!(SmbcXAttrValue::Sid(Sid(vec![5])).to_string(), "S-1-5");
    assert_eq!(SmbcXAttrValue::SidPlus("bob".to_string()).to_string(), "bob");
    assert_eq!(SmbcXAttrValue::Unsigned(7).to_string(), "7");
    assert_eq!(SmbcXAttrValue::Signed(-7).to_string(), "-7");
    let mode = DosMode::INTEGRITY_STREAM() | DosMode::HIDDEN() | DosMode::SYSTEM();
    assert_eq!(SmbcXAttrValue::Mode(mode).to_string(), "8006");
}

#[test]
fn a_plus_asks_for_names() {
    let pairs = [
        (SmbcXAttr::All, SmbcXAttr::AllPlus),
        (
            SmbcXAttr::AclAttr(SmbcAclAttr::All),
            SmbcXAttr::AclAttr(SmbcAclAttr::AllPlus),
        ),
        (
            SmbcXAttr::AclAttr(SmbcAclAttr::Owner),
            SmbcXAttr::AclAttr(SmbcAclAttr::OwnerPlus),
        ),
        (
            SmbcXAttr::AclAttr(SmbcAclAttr::Group),
            SmbcXAttr::AclAttr(SmbcAclAttr::GroupPlus),
        ),
    ];
    for (attr, named) in pairs {
        assert_eq!(named.to_string(), format!("{}+", attr.to_string()));
    }
}

#[test]
fn empty_lists_cannot_be_printed() {
    assert!(!Sid(vec![]).is_printable());
    assert!(!SmbcXAttr::AllExclude(vec![]).is_printable());
    assert!(!SmbcXAttr::AllExcludePlus(vec![]).is_printable());
    assert!(!SmbcXAttr::DosAttr(SmbcDosAttr::AllExclude(vec![])).is_printable());
    assert!(!SmbcXAttr::AclAttr(SmbcAclAttr::AllExclude(vec![])).is_printable());
    assert!(!SmbcXAttr::AclAttr(SmbcAclAttr::AclSid(Sid(vec![]))).is_printable());
    assert!(!SmbcXAttrValue::DosAll(vec![]).is_printable());
    let owner = SmbcAclValue::Owner(Sid(vec![]));
    assert!(!SmbcXAttrValue::AclAll(vec![SmbcAclValue::Revision(1), owner]).is_printable());
    let revision = vec![SmbcAclValue::Revision(1)];
    assert!(!SmbcXAttrValue::All(revision.clone(), vec![]).is_printable());
    assert!(SmbcXAttrValue::All(revision, vec![SmbcDosValue::Size(0)]).is_printable());
    assert!(SmbcXAttr::AllExclude(vec![SmbcExclude::Rev]).is_printable());
    assert!(SmbcXAttrValue::Ace(ace()).is_printable());
}

#[test]
fn exclusions_follow_the_name() {
    let own = || vec![SmbcExclude::Own];
    assert_eq!(
        SmbcAclAttr::AllExcludePlus(own()).to_string(),
        "system.nt_sec_desc.*+!nt_sec_desc.owner"
    );
    let pairs = [
        (SmbcXAttr::AllExclude(own()), SmbcXAttr::All),
        (SmbcXAttr::AllExcludePlus(own()), SmbcXAttr::AllPlus),
        (
            SmbcXAttr::AclAttr(SmbcAclAttr::AllExcludePlus(own())),
            SmbcXAttr::AclAttr(SmbcAclAttr::AllPlus),
        ),
        (
            SmbcXAttr::DosAttr(SmbcDosAttr::AllExclude(own())),
            SmbcXAttr::DosAttr(SmbcDosAttr::All),
        ),
    ];
    for (excluding, all) in pairs {
        assert_eq!(
            excluding.to_string(),
            format!("{}!nt_sec_desc.owner", all.to_string())
        );
    }
}
