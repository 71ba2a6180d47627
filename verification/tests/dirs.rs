use smbc::dir::{decoded_entry, plain_entry, Dirent};
use smbc::{Error, SmbcDirectory, SmbcType};

fn directory() -> SmbcDirectory {
    SmbcDirectory { smbc: 1, handle: 2, lseekdir_fn: 3, readdir_fn: 4, telldir_fn: 5 }
}

fn dirent(smbc_type: u32, comment: &[u8], name: &[u8]) -> Dirent {
    Dirent {
        smbc_type,
        comment: comment.to_vec(),
        name: name.iter().map(|b| *b as i8).collect(),
    }
}

#[test]
fn kinds_have_their_numbers() {
    let kinds = [
        SmbcType::WORKGROUP,
        SmbcType::SERVER,
        SmbcType::FILESHARE,
        SmbcType::PRINTERSHARE,
        SmbcType::COMMSSHARE,
        SmbcType::IPCSHARE,
        SmbcType::DIR,
        SmbcType::FILE,
        SmbcType::LINK,
    ];
    for (i, kind) in kinds.iter().enumerate() {
        let code = i as u32 + 1;
        assert_eq!(kind.code(), code);
        assert_eq!(SmbcType::from(code), Ok(*kind));
    }
}

#[test]
fn unknown_kinds_are_refused() {
    for t in [0, 10, u32::MAX] {
        assert_eq!(
            SmbcType::from(t),
            Err(Error::InvalidData("Unknown file type: ".to_string()))
        );
    }
}

#[test]
fn plain_entries_keep_their_names() {
    let entry = plain_entry(&dirent(8, b"a file", b"50%20off.txt")).unwrap();
    assert_eq!(entry.s_type, SmbcType::FILE);
    assert_eq!(entry.comment, "a file");
    assert_eq!(entry.path, "50%20off.txt");
}

#[test]
fn decoded_entries_have_decoded_names() {
    let entry = decoded_entry(&dirent(7, b"", b"a%20b%2Fc%2f%zz%4")).unwrap();
    assert_eq!(entry.s_type, SmbcType::DIR);
    assert_eq!(entry.path, "a b/c/%zz%4");
    let entry = decoded_entry(&dirent(7, b"", b"%e2%82%AC%%41")).unwrap();
    assert_eq!(entry.path, "\u{20ac}%A");
}

#[test]
fn names_are_taken_for_utf8() {
    let entry = plain_entry(&dirent(8, "gr\u{fc}n".as_bytes(), "\u{20ac}uro".as_bytes())).unwrap();
    assert_eq!(entry.comment, "gr\u{fc}n");
    assert_eq!(entry.path, "\u{20ac}uro");
    let entry = plain_entry(&dirent(8, b"\xfe", b"a\xffb")).unwrap();
    assert_eq!(entry.comment, "\u{fffd}");
    assert_eq!(entry.path, "a\u{fffd}b");
    let entry = decoded_entry(&dirent(8, b"", b"a%FFb")).unwrap();
    assert_eq!(entry.path, "a\u{fffd}b");
}

#[test]
fn entries_of_unknown_kind_are_refused() {
    let why = Error::InvalidData("Unknown file type: ".to_string());
    assert_eq!(plain_entry(&dirent(0, b"", b"x")), Err(why.clone()));
    assert_eq!(decoded_entry(&dirent(12, b"", b"x")), Err(why));
}

#[test]
fn the_iterator_ends_without_an_entry() {
    let dir = directory();
    assert_eq!(dir.next_reply(None), None);
    let entry = dir.next_reply(Some(dirent(9, b"", b"l%6Enk"))).unwrap().unwrap();
    assert_eq!(entry.s_type, SmbcType::LINK);
    assert_eq!(entry.path, "lnnk");
    assert_eq!(
        dir.next_reply(Some(dirent(0, b"", b"x"))),
        Some(Err(Error::InvalidData("Unknown file type: ".to_string())))
    );
}

#[test]
fn reading_fails_without_an_entry() {
    let dir = directory();
    assert_eq!(dir.readdir_reply(None, 9), Err(Error::Os(9)));
    let entry = dir.readdir_reply(Some(dirent(9, b"", b"l%6Enk")), 9).unwrap();
    assert_eq!(entry.path, "l%6Enk");
}

#[test]
fn reading_and_iterating_agree_without_percent_signs() {
    let dir = directory();
    for name in [&b"plain"[..], b"", b"with space", b"\xc3\xa9t\xc3\xa9", b"\xc3"] {
        let d = dirent(8, b"c", name);
        assert_eq!(dir.next_reply(Some(d.clone())), Some(dir.readdir_reply(Some(d), 0)));
    }
}

#[test]
fn encoded_names_are_decoded_to_what_they_were() {
    let name = "100% \u{20ac}/a b";
    let encoded: Vec<u8> = name
        .bytes()
        .flat_map(|b| match b {
            b'a'..=b'z' => vec![b],
            _ => format!("%{:02x}", b).into_bytes(),
        })
        .collect();
    let entry = decoded_entry(&dirent(8, b"", &encoded)).unwrap();
    assert_eq!(entry.path, name);
}
