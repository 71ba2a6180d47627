use smbc::call::{c_string, unit_reply, Call, Reply, Request};
use smbc::functions::Functions;
use smbc::{
    DosMode, Error, Smbc, SmbcDirectory, SmbcDosAttr, SmbcFile, SmbcXAttr, SmbcXAttrValue, TimeVal,
    XAttrFlags,
};

const URL: &[u8] = b"smb://host/share";
const C_URL: &[u8] = b"smb://host/share\0";
const BAD: &[u8] = b"smb:\0//\0";

/// A client whose functions stand at the addresses from 1 on, in the order of their lookups.
fn smbc() -> Smbc {
    let functions = Functions {
        chmod_fn: 1,
        close_fn: 2,
        closedir_fn: 3,
        creat_fn: 4,
        fstat_fn: 5,
        fstatvfs_fn: 6,
        fstatdir_fn: 7,
        ftruncate_fn: 8,
        getdents_fn: 9,
        getxattr_fn: 10,
        listxattr_fn: 11,
        lseek_fn: 12,
        lseekdir_fn: 13,
        mkdir_fn: 14,
        open_fn: 15,
        opendir_fn: 16,
        read_fn: 17,
        readdir_fn: 18,
        removexattr_fn: 19,
        rename_fn: 20,
        rmdir_fn: 21,
        setxattr_fn: 22,
        stat_fn: 23,
        statvfs_fn: 24,
        telldir_fn: 25,
        unlink_fn: 26,
        utimes_fn: 27,
        write_fn: 28,
    };
    Smbc { context: 77, functions }
}

fn ok(function: usize, call: Call) -> Result<Request, Error> {
    Ok(Request { context: 77, function, call })
}

#[test]
fn texts_are_terminated() {
    assert_eq!(c_string(b""), Ok(vec![0]));
    assert_eq!(c_string(b"ab"), Ok(vec![97, 98, 0]));
    assert_eq!(c_string(b"a\0b"), Err(Error::NulError(1)));
    assert_eq!(c_string(b"\0\0"), Err(Error::NulError(0)));
    let text = c_string(URL).unwrap();
    let read: Vec<u8> = text.iter().copied().take_while(|b| *b != 0).collect();
    assert_eq!(read, URL);
}

#[test]
fn requests_on_a_path() {
    let c = smbc();
    let fname = C_URL.to_vec();
    assert_eq!(c.create(URL, 0o644), ok(4, Call::Creat { fname: fname.clone(), mode: 0o644 }));
    assert_eq!(c.chmod(URL, 0o600), ok(1, Call::Chmod { fname: fname.clone(), mode: 0o600 }));
    assert_eq!(
        c.open(URL, 2, 0o666),
        ok(15, Call::Open { fname: fname.clone(), flags: 2, mode: 0o666 })
    );
    assert_eq!(c.opendir(URL), ok(16, Call::Opendir { fname: fname.clone() }));
    assert_eq!(c.mkdir(URL, 0o755), ok(14, Call::Mkdir { fname: fname.clone(), mode: 0o755 }));
    assert_eq!(c.rmdir(URL), ok(21, Call::Rmdir { fname: fname.clone() }));
    assert_eq!(c.stat(URL), ok(23, Call::Stat { fname: fname.clone() }));
    assert_eq!(c.unlink(URL), ok(26, Call::Unlink { fname: fname.clone() }));
    let tbuf = vec![TimeVal { tv_sec: 1, tv_usec: 2 }, TimeVal { tv_sec: 3, tv_usec: 4 }];
    assert_eq!(c.utimes(URL, tbuf.clone()), ok(27, Call::Utimes { fname, tbuf }));
}

#[test]
fn paths_with_a_nul_byte_are_refused() {
    let c = smbc();
    let attr = SmbcXAttr::All;
    let value = SmbcXAttrValue::Unsigned(1);
    let refused = Err(Error::NulError(4));
    assert_eq!(c.create(BAD, 0), refused);
    assert_eq!(c.chmod(BAD, 0), refused);
    assert_eq!(c.open(BAD, 0, 0), refused);
    assert_eq!(c.opendir(BAD), refused);
    assert_eq!(c.mkdir(BAD, 0), refused);
    assert_eq!(c.rename(BAD, URL), refused);
    assert_eq!(c.rename(URL, BAD), refused);
    assert_eq!(c.rename(BAD, b"\0"), refused);
    assert_eq!(c.rmdir(BAD), refused);
    assert_eq!(c.stat(BAD), refused);
    assert_eq!(c.unlink(BAD), refused);
    let t = TimeVal { tv_sec: 0, tv_usec: 0 };
    assert_eq!(c.utimes(BAD, vec![t, t]), refused);
    assert_eq!(c.getxattr(BAD, &attr), Err(Error::NulError(4)));
    assert_eq!(c.listxattr(BAD), Err(Error::NulError(4)));
    assert_eq!(c.removexattr(BAD, &attr), refused);
    let flags = XAttrFlags::SMBC_XATTR_FLAG_NONE();
    assert_eq!(c.setxattr(BAD, &attr, &value, flags), refused);
}

#[test]
fn renaming_names_both_paths() {
    assert_eq!(
        smbc().rename(b"old", b"new"),
        ok(20, Call::Rename { oname: b"old\0".to_vec(), nname: b"new\0".to_vec() })
    );
}

#[test]
fn attributes_are_set_and_removed() {
    let c = smbc();
    let attr = SmbcXAttr::DosAttr(SmbcDosAttr::Mode);
    let name = b"system.dos_attr.mode\0".to_vec();
    assert_eq!(
        c.removexattr(URL, &attr),
        ok(19, Call::Removexattr { fname: C_URL.to_vec(), name: name.clone() })
    );
    let value = SmbcXAttrValue::Mode(DosMode::HIDDEN() | DosMode::ARCHIVE());
    assert_eq!(
        c.setxattr(URL, &attr, &value, XAttrFlags::SMBC_XATTR_FLAG_REPLACE()),
        ok(22, Call::Setxattr {
            fname: C_URL.to_vec(),
            name: name.clone(),
            value: b"22\0".to_vec(),
            size: 2,
            flags: 2,
        })
    );
    let long = SmbcXAttrValue::SidPlus("\u{20ac}".to_string());
    assert_eq!(
        c.setxattr(b"", &attr, &long, XAttrFlags::SMBC_XATTR_FLAG_CREATE()),
        ok(22, Call::Setxattr {
            fname: vec![0],
            name,
            value: vec![0xe2, 0x82, 0xac, 0],
            size: 3,
            flags: 1,
        })
    );
}

#[test]
fn a_nul_byte_in_a_value_is_refused_last() {
    let c = smbc();
    let attr = SmbcXAttr::All;
    let value = SmbcXAttrValue::SidPlus("ab\0".to_string());
    let flags = XAttrFlags::SMBC_XATTR_FLAG_NONE();
    assert_eq!(c.setxattr(URL, &attr, &value, flags), Err(Error::NulError(2)));
    assert_eq!(c.setxattr(BAD, &attr, &value, flags), Err(Error::NulError(4)));
}

#[test]
fn a_nul_byte_in_the_path_is_refused_before_anything_is_printed() {
    let c = smbc();
    let attr = SmbcXAttr::AllExclude(vec![]);
    let value = SmbcXAttrValue::DosAll(vec![]);
    let flags = XAttrFlags::SMBC_XATTR_FLAG_NONE();
    assert_eq!(c.getxattr(BAD, &attr), Err(Error::NulError(4)));
    assert_eq!(c.removexattr(BAD, &attr), Err(Error::NulError(4)));
    assert_eq!(c.setxattr(BAD, &attr, &value, flags), Err(Error::NulError(4)));
}

#[test]
fn a_value_is_asked_for_twice() {
    let mut query = smbc().getxattr(URL, &SmbcXAttr::All).unwrap();
    let asks = |size: usize| Request {
        context: 77,
        function: 10,
        call: Call::Getxattr { fname: C_URL.to_vec(), name: b"system.*\0".to_vec(), size },
    };
    assert_eq!(query.request(), asks(0));
    assert_eq!(query.resize(Reply { value: 9, errno: 5 }), Ok(()));
    assert_eq!(query.request(), asks(10));
    let buffer = b"REVISION:\0".to_vec();
    assert_eq!(query.answer(buffer.clone(), Reply { value: 0, errno: 5 }), Ok(buffer.clone()));
    assert_eq!(query.answer(buffer, Reply { value: -1, errno: 22 }), Err(Error::Os(22)));
}

#[test]
fn a_list_is_asked_for_twice() {
    let mut query = smbc().listxattr(URL).unwrap();
    let asks = |size: usize| Request {
        context: 77,
        function: 11,
        call: Call::Listxattr { fname: C_URL.to_vec(), size },
    };
    assert_eq!(query.request(), asks(0));
    assert_eq!(query.resize(Reply { value: 9, errno: 0 }), Ok(()));
    assert_eq!(query.request(), asks(9));
    assert_eq!(query.answer(vec![7; 9], Reply { value: 9, errno: 0 }), Ok(vec![7; 9]));
}

#[test]
fn a_failed_question_leaves_the_size() {
    let mut query = smbc().getxattr(URL, &SmbcXAttr::All).unwrap();
    assert_eq!(query.resize(Reply { value: -1, errno: 95 }), Err(Error::Os(95)));
    assert_eq!(query.size, 0);
    assert_eq!(query.resize(Reply { value: 0, errno: 95 }), Ok(()));
    assert_eq!(query.size, 1);
}

#[test]
fn replies_tell_success() {
    assert_eq!(unit_reply(Reply { value: 0, errno: 2 }), Ok(()));
    assert_eq!(unit_reply(Reply { value: 3, errno: 2 }), Ok(()));
    assert_eq!(unit_reply(Reply { value: -1, errno: 2 }), Err(Error::Os(2)));
    assert_eq!(unit_reply(Reply { value: -2, errno: 13 }), Err(Error::Os(13)));
}

#[test]
fn null_addresses_are_errors() {
    let c = smbc();
    assert_eq!(c.opened(0, 2), Err(Error::Os(2)));
    assert_eq!(c.opened(5, 2), Ok(SmbcFile {
            smbc: 77,
            fd: 5,
            fstat_fn: 5,
            ftruncate_fn: 8,
            lseek_fn: 12,
            read_fn: 17,
            write_fn: 28,
        }));
    assert_eq!(c.opened_dir(0, 20), Err(Error::Os(20)));
    assert_eq!(c.opened_dir(6, 20), Ok(SmbcDirectory {
            smbc: 77,
            handle: 6,
            lseekdir_fn: 13,
            readdir_fn: 18,
            telldir_fn: 25,
        }));
}
