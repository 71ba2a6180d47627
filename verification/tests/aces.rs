use smbc::{sid_parse, separated, AceAtype, AceFlag, Error, Sid, SidType, Text, XAttrMask, ACE};

fn sid() -> Sid {
    Sid(vec![5, 21, 3051, 1000])
}

fn refused<T>(r: Result<T, Error>) -> String {
    match r {
        Err(Error::SmbcXAttrError(m)) => m,
        _ => panic!("not refused"),
    }
}

#[test]
fn identifiers_print_and_read_back() {
    assert_eq!(sid().to_string(), "S-1-5-21-3051-1000");
    assert_eq!(Sid(vec![0]).to_string(), "S-1-0");
    for numbers in [vec![0], vec![5, 32, 544], vec![u64::MAX, 7], vec![1, 10, 100, 1000]] {
        let text = Sid(numbers.clone()).to_string();
        assert_eq!(sid_parse(text.as_bytes()), Some(Sid(numbers)));
    }
}

#[test]
fn identifiers_end_where_the_groups_end() {
    assert_eq!(sid_parse(b"S-1-5-32:ALLOWED"), Some(Sid(vec![5, 32])));
    assert_eq!(sid_parse(b"S-1-5-"), Some(Sid(vec![5])));
    assert_eq!(sid_parse(b"S-1-007"), Some(Sid(vec![7])));
    assert_eq!(sid_parse(b"S-1-5-18446744073709551616"), Some(Sid(vec![5])));
    assert_eq!(
        sid_parse(b"S-1-18446744073709551615"),
        Some(Sid(vec![u64::MAX]))
    );
}

#[test]
fn other_bytes_are_no_identifier() {
    assert_eq!(sid_parse(b""), None);
    assert_eq!(sid_parse(b"S-1"), None);
    assert_eq!(sid_parse(b"S-1-"), None);
    assert_eq!(sid_parse(b"S-2-5"), None);
    assert_eq!(sid_parse(b"s-1-5"), None);
    assert_eq!(sid_parse(b" S-1-5"), None);
    assert_eq!(sid_parse(b"S-1-18446744073709551616"), None);
}

#[test]
fn numeric_entries_give_back_their_parts() {
    let flag = AceFlag::SEC_ACE_FLAG_CONTAINER_INHERIT();
    let ace = ACE::new_num(sid(), AceAtype::DENIED, flag, XAttrMask::READ());
    assert_eq!(ace.is_numeric(), Ok(true));
    assert_eq!(ace.sid(), Ok(sid()));
    assert_eq!(ace.sid_string(), Ok("S-1-5-21-3051-1000".to_string()));
    assert_eq!(ace.acetype(), Ok(AceAtype::DENIED));
    assert_eq!(ace.aceflag(), Ok(flag));
    assert_eq!(ace.mask(), Ok(XAttrMask::READ()));
    assert_eq!(ace.mask_string(), Ok("READ".to_string()));
}

#[test]
fn named_entries_give_back_their_parts() {
    let ace = ACE::new_named("S-1-5-32", AceAtype::ALLOWED, AceFlag::NONE(), "FULL");
    assert_eq!(ace.is_numeric(), Ok(false));
    assert_eq!(ace.sid(), Ok(Sid(vec![5, 32])));
    assert_eq!(ace.sid_string(), Ok("S-1-5-32".to_string()));
    assert_eq!(ace.acetype(), Ok(AceAtype::ALLOWED));
    assert_eq!(ace.aceflag(), Ok(AceFlag::NONE()));
    assert_eq!(ace.mask(), Ok(XAttrMask::FULL()));
    assert_eq!(ace.mask_string(), Ok("FULL".to_string()));
    let masked =
        ACE::new_named_with_mask("bob", AceAtype::ALLOWED, AceFlag::NONE(), XAttrMask::R());
    assert_eq!(masked.mask_string(), Ok("R".to_string()));
    assert_eq!(masked.mask(), Ok(XAttrMask::R()));
}

#[test]
fn a_name_that_is_no_identifier_is_refused() {
    let ace = ACE::new_named("bob", AceAtype::ALLOWED, AceFlag::NONE(), "READ");
    assert_eq!(refused(ace.sid()), "Unable to parse SID!");
    assert_eq!(ace.sid_string(), Ok("bob".to_string()));
}

#[test]
fn a_missing_identifier_is_refused() {
    let (a, f) = (AceAtype::ALLOWED, AceFlag::NONE());
    let numeric = ACE::Numeric(SidType::Numeric(None), a, f, XAttrMask::R());
    let named = ACE::Named(SidType::Named(None), a, f, "R".to_string());
    for ace in [numeric, named] {
        assert_eq!(refused(ace.sid()), "SidType is None!");
        assert_eq!(refused(ace.sid_string()), "SidType is None!");
        assert_eq!(ace.mask(), Ok(XAttrMask::R()));
        assert_eq!(ace.acetype(), Ok(AceAtype::ALLOWED));
    }
}

#[test]
fn mismatched_entries_are_refused() {
    let (a, f) = (AceAtype::ALLOWED, AceFlag::NONE());
    let one = ACE::Numeric(SidType::Named(Some("bob".to_string())), a, f, XAttrMask::R());
    let two = ACE::Named(SidType::Numeric(Some(sid())), a, f, "R".to_string());
    for ace in [one, two] {
        let why = "Mismatched ACE and SidType!";
        assert_eq!(refused(ace.sid()), why);
        assert_eq!(refused(ace.sid_string()), why);
        assert_eq!(refused(ace.acetype()), why);
        assert_eq!(refused(ace.aceflag()), why);
        assert_eq!(refused(ace.mask()), why);
        assert_eq!(refused(ace.mask_string()), why);
        assert_eq!(refused(ace.is_numeric()), why);
    }
}

#[test]
fn entries_print() {
    let flag = AceFlag::SEC_ACE_FLAG_OBJECT_INHERIT()
        | AceFlag::SEC_ACE_FLAG_CONTAINER_INHERIT()
        | AceFlag::SEC_ACE_FLAG_INHERIT_ONLY();
    let num = ACE::new_num(sid(), AceAtype::ALLOWED, flag, XAttrMask::READ());
    assert_eq!(num.to_string(), "S-1-5-21-3051-1000:0/11/1179817");
    let denied = ACE::new_num(sid(), AceAtype::DENIED, AceFlag::NONE(), XAttrMask::N());
    assert_eq!(denied.to_string(), "S-1-5-21-3051-1000:1/0/0");
    let named = ACE::new_named("bob", AceAtype::ALLOWED, flag, "FULL");
    assert_eq!(named.to_string(), "bob:ALLOWED/b/FULL");
    let named = ACE::new_named("DOM\\bob", AceAtype::DENIED, AceFlag::NONE(), "READ");
    assert_eq!(named.to_string(), "DOM\\bob:DENIED/0/READ");
    let bare = ACE::Numeric(
        SidType::Numeric(None),
        AceAtype::ALLOWED,
        AceFlag::NONE(),
        XAttrMask::D(),
    );
    assert_eq!(bare.to_string(), ":0/0/65536");
    assert_eq!(SidType::Named(None).to_string(), "");
}

#[test]
fn lists_are_joined() {
    assert_eq!(separated(&[1u64], ", "), "1");
    assert_eq!(separated(&[1u64, 20, 300], ", "), "1, 20, 300");
    let (left, right) = ([4u64, 5], [6u64]);
    assert_eq!(
        separated(&[4u64, 5, 6], "-"),
        format!("{}-{}", separated(&left, "-"), separated(&right, "-"))
    );
    assert_eq!(separated(&[-1i32, 2], "/"), "-1/2");
    assert_eq!(separated(&[i64::MIN], "/"), "-9223372036854775808");
    assert_eq!(separated(&[7u32, u32::MAX], " "), "7 4294967295");
    assert_eq!(separated(&[String::from("a"), String::from("b")], "--"), "a--b");
    assert_eq!(Text::to_string(&18_446_744_073_709_551_615u64), "18446744073709551615");
}

#[test]
fn identifiers_read_back_before_other_text() {
    for rest in ["", ":0/0/0", "-", "-x", " 5", "S-1-2"] {
        let text = format!("{}{}", sid().to_string(), rest);
        assert_eq!(sid_parse(text.as_bytes()), Some(sid()));
    }
    let ace = ACE::new_num(sid(), AceAtype::DENIED, AceFlag::NONE(), XAttrMask::READ());
    assert_eq!(sid_parse(ace.to_string().as_bytes()), Some(sid()));
}
