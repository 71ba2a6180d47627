//! Calls of libsmbclient, and what they come back with.
//!
//! Nothing here calls libsmbclient. A [`Request`] says which call is to be made, with which plain
//! values; whoever makes it hands the outcome back.

use vstd::prelude::*;
use crate::error::Error;
use crate::time::TimeVal;

verus! {

/// The error number of an invalid argument.
pub const EINVAL: i32 = 22;

/// Offsets count from the start of the file.
pub const SEEK_SET: i32 = 0;

/// Offsets count from the current position.
pub const SEEK_CUR: i32 = 1;

/// Offsets count from the end of the file.
pub const SEEK_END: i32 = 2;

/// A call of libsmbclient with its arguments, the context aside. Texts are terminated by a NUL
/// byte; files and directories are the addresses that libsmbclient gave them.
#[derive(Debug, Clone, PartialEq, Eq)]
pub enum Call {
    Chmod { fname: Vec<u8>, mode: u32 },
    Creat { fname: Vec<u8>, mode: u32 },
    Open { fname: Vec<u8>, flags: i32, mode: u32 },
    Opendir { fname: Vec<u8> },
    Mkdir { fname: Vec<u8>, mode: u32 },
    /// Both names are resolved in the context of the request.
    Rename { oname: Vec<u8>, nname: Vec<u8> },
    Rmdir { fname: Vec<u8> },
    Stat { fname: Vec<u8> },
    Unlink { fname: Vec<u8> },
    Utimes { fname: Vec<u8>, tbuf: Vec<TimeVal> },
    /// The value is written to a buffer of `size` bytes.
    Getxattr { fname: Vec<u8>, name: Vec<u8>, size: usize },
    /// The list is written to a buffer of `size` bytes.
    Listxattr { fname: Vec<u8>, size: usize },
    Removexattr { fname: Vec<u8>, name: Vec<u8> },
    Setxattr { fname: Vec<u8>, name: Vec<u8>, value: Vec<u8>, size: usize, flags: i32 },
    /// What is read is written to a buffer of `count` bytes.
    Read { file: usize, count: usize },
    Write { file: usize, data: Vec<u8> },
    Lseek { file: usize, offset: i64, whence: i32 },
    Fstat { file: usize },
    Ftruncate { file: usize, size: i64 },
    Close { file: usize },
    Readdir { dir: usize },
    Lseekdir { dir: usize, offset: i64 },
    Telldir { dir: usize },
    Closedir { dir: usize },
}

/// A call of a function in a context. Both are given by their addresses.
#[derive(Debug, Clone, PartialEq, Eq)]
pub struct Request {
    pub context: usize,
    pub function: usize,
    pub call: Call,
}

/// What a call came back with: its value, and the last error number of the operating system.
#[derive(Debug, Clone, Copy, PartialEq, Eq, Structural)]
pub struct Reply {
    pub value: i64,
    pub errno: i32,
}

/// No byte is NUL.
pub open spec fn nul_free(bytes: Seq<u8>) -> bool {
    forall|i: int| 0 <= i < bytes.len() ==> bytes[i] != 0
}

/// The error gives the position of the first NUL byte.
pub open spec fn nul_error(bytes: Seq<u8>, e: Error) -> bool {
    &&& e matches Error::NulError(pos)
    &&& pos < bytes.len()
    &&& bytes[pos as int] == 0
    &&& nul_free(bytes.take(pos as int))
}

/// The bytes as libsmbclient takes them, unless one of them is NUL.
pub fn c_string(bytes: &[u8]) -> (r: Result<Vec<u8>, Error>)
    ensures
        match r {
            Ok(v) => nul_free(bytes@) && v@ == bytes@.push(0),
            Err(e) => !nul_free(bytes@) && nul_error(bytes@, e),
        },
{
    let mut v: Vec<u8> = Vec::new();
    let mut i: usize = 0;
    while i < bytes.len()
        invariant
            i <= bytes@.len(),
            v@ == bytes@.take(i as int),
            nul_free(v@),
        decreases bytes@.len() - i,
    {
        if bytes[i] == 0 {
            return Err(Error::NulError(i));
        }
        v.push(bytes[i]);
        i += 1;
    }
    assert(bytes@.take(i as int) == bytes@);
    v.push(0);
    Ok(v)
}

/// A copy of the bytes.
pub(crate) fn copied(bytes: &[u8]) -> (r: Vec<u8>)
    ensures
        r@ == bytes@,
{
    let mut v: Vec<u8> = Vec::new();
    let mut i: usize = 0;
    while i < bytes.len()
        invariant
            i <= bytes@.len(),
            v@ == bytes@.take(i as int),
        decreases bytes@.len() - i,
    {
        v.push(bytes[i]);
        i += 1;
    }
    assert(bytes@.take(i as int) == bytes@);
    v
}

/// The bytes that stand before the first NUL byte.
pub open spec fn until_nul(bytes: Seq<u8>) -> Seq<u8>
    decreases bytes.len(),
{
    if bytes.len() == 0 || bytes[0] == 0 {
        Seq::empty()
    } else {
        seq![bytes[0]] + until_nul(bytes.skip(1))
    }
}

/// libsmbclient reads a terminated text back as it was given.
pub proof fn law_c_string_reads_back(bytes: Seq<u8>)
    requires
        nul_free(bytes),
    ensures
        until_nul(bytes.push(0)) == bytes,
    decreases bytes.len(),
{
    if bytes.len() > 0 {
        assert(bytes.push(0).skip(1) == bytes.skip(1).push(0));
        law_c_string_reads_back(bytes.skip(1));
        assert(seq![bytes[0]] + bytes.skip(1) == bytes);
    }
}

/// A value below zero stands for the last error of the operating system.
pub open spec fn le_result(reply: Reply) -> Result<i64, Error> {
    if reply.value < 0 {
        Err(Error::Os(reply.errno))
    } else {
        Ok(reply.value)
    }
}

/// A value below zero stands for the last error of the operating system.
pub fn to_result_with_le(reply: Reply) -> (r: Result<i64, Error>)
    ensures
        r == le_result(reply),
{
    if reply.value < 0 {
        Err(Error::Os(reply.errno))
    } else {
        Ok(reply.value)
    }
}

/// The value -1 stands for the given error.
pub fn to_result_with_errno(value: i64, errno: i32) -> (r: Result<i64, Error>)
    ensures
        r == (if value == -1 {
            Err(Error::Os(errno))
        } else {
            Ok(value)
        }),
{
    if value == -1 {
        Err(Error::Os(errno))
    } else {
        Ok(value)
    }
}

/// The null address stands for the last error of the operating system.
pub fn result_from_ptr_mut(address: usize, errno: i32) -> (r: Result<usize, Error>)
    ensures
        r == (if address == 0 {
            Err(Error::Os(errno))
        } else {
            Ok(address)
        }),
{
    if address == 0 {
        Err(Error::Os(errno))
    } else {
        Ok(address)
    }
}

/// The result of a call that tells only whether it succeeded.
pub fn unit_reply(reply: Reply) -> (r: Result<(), Error>)
    ensures
        r == (if reply.value < 0 {
            Err(Error::Os(reply.errno))
        } else {
            Ok(())
        }),
{
    match to_result_with_le(reply) {
        Ok(_) => Ok(()),
        Err(e) => Err(e),
    }
}

/// A text is read up to its first NUL byte, whatever stands behind that, and whole where it has
/// none.
pub proof fn law_texts_are_read_up_to_nul(a: Seq<u8>, b: Seq<u8>)
    requires
        nul_free(a),
    ensures
        until_nul(a + seq![0u8] + b) == a,
        until_nul(a) == a,
    decreases a.len(),
{
    let s = a + seq![0u8] + b;
    if a.len() > 0 {
        assert(s.skip(1) == a.skip(1) + seq![0u8] + b);
        law_texts_are_read_up_to_nul(a.skip(1), b);
        assert(seq![a[0]] + a.skip(1) == a);
    }
}

/// Bytes are free of NUL where none of them is, and a text that holds one is refused with the
/// place of the first.
pub proof fn law_first_nul_is_reported(a: Seq<u8>, b: Seq<u8>, e: Error)
    requires
        nul_free(a),
    ensures
        !a.contains(0),
        !b.contains(0) ==> nul_free(b),
        !nul_free(a + seq![0u8] + b),
        nul_error(a + seq![0u8] + b, e) ==> e == Error::NulError(a.len() as usize),
        !nul_error(a, e),
{
    let s = a + seq![0u8] + b;
    assert(s[a.len() as int] == 0);
    if nul_error(s, e) {
        let pos = e->NulError_0 as int;
        if pos < a.len() {
            assert(s[pos] == a[pos]);
        } else if pos > a.len() {
            assert(s.take(pos)[a.len() as int] == 0);
        }
    }
    if !b.contains(0) {
        assert forall|i: int| 0 <= i < b.len() implies b[i] != 0 by {
            assert(b.contains(b[i]));
        }
    }
}

/// A reply is a success exactly where its value is not below zero; it then gives the value, and
/// otherwise the number of the error.
pub proof fn law_replies_below_zero_are_errors(reply: Reply)
    ensures
        reply.value >= 0 ==> le_result(reply) == Ok::<i64, Error>(reply.value),
        reply.value < 0 ==> le_result(reply) == Err::<i64, Error>(Error::Os(reply.errno)),
{
}

} // verus!
