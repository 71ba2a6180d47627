//! Open files and directories, and replies.

use vstd::prelude::*;
use vstd::utf8::*;
use crate::call::{
    result_from_ptr_mut, to_result_with_errno, to_result_with_le, unit_reply, Call, Reply, Request,
};
use crate::dir::{
    decoded_entry, law_names_are_their_bytes, law_percent_encoded_names_survive,
    law_utf8_names_survive, percent_encodes, plain_entry, stands_for, Dirent, SmbcDirEntry,
    SmbcType,
};
use crate::error::Error;
use crate::file::{
    count_reply, lands, position_reply, seek_reply, SeekFrom, SmbcDirectory, SmbcFile,
};
use crate::functions::Function;
use crate::setup::Action;

verus! {

/// Reading asks for as many bytes as were asked for, or as the buffer has.
pub proof fn law_reading(
    file: &SmbcFile,
    count: u64,
    buf: &[u8],
    counted: Request,
    filled: Request,
)
    requires
        buf@.len() <= usize::MAX,
        call_ensures(SmbcFile::fread, (file, count), counted),
        call_ensures(SmbcFile::read, (file, buf), filled),
    ensures
        counted.context == file.smbc && counted.function == file.read_fn,
        counted.call matches Call::Read { file: f, count: n } && f == file.fd && (count
            <= usize::MAX ==> n == count),
        filled.context == file.smbc && filled.function == file.read_fn,
        filled.call matches Call::Read { file: f, count: n } && f == file.fd && n == buf@.len(),
        count <= isize::MAX ==> call_requires(SmbcFile::fread, (file, count)),
        call_requires(SmbcFile::read, (file, buf)),
{
}

/// Writing asks to write exactly the bytes of the buffer, in either way.
pub proof fn law_writing(file: &SmbcFile, buf: &[u8], first: Request, second: Request)
    requires
        call_ensures(SmbcFile::fwrite, (file, buf), first),
        call_ensures(SmbcFile::write, (file, buf), second),
    ensures
        first.context == file.smbc && first.function == file.write_fn,
        first.call matches Call::Write { file: f, data } && f == file.fd && data@ == buf@,
        second.context == file.smbc && second.function == file.write_fn,
        second.call matches Call::Write { file: f, data } && f == file.fd && data@ == buf@,
        call_requires(SmbcFile::fwrite, (file, buf)),
        call_requires(SmbcFile::write, (file, buf)),
{
}

/// Where a request takes a file that is at a position; a file that is not asked to seek stays.
pub open spec fn goes_to(request: Request, position: int, size: int) -> int {
    match request.call {
        Call::Lseek { offset, whence, .. } => lands(position, size, offset, whence),
        _ => position,
    }
}

/// An offset that is too large for `lseek` comes out negative.
proof fn lemma_large_offset(n: u64)
    ensures
        n > i64::MAX ==> (n as i64) == n - 0x1_0000_0000_0000_0000,
{
    assert(n > 0x7fff_ffff_ffff_ffffu64 ==> (n as i64) as int == n as int
        - 0x1_0000_0000_0000_0000int) by (bit_vector);
}

/// Seeking takes the file to the offset from the start, so far on from where it is, or so far from
/// its end. `lseek` hands on what it is given: 0 counts from the start, 1 from the position and 2
/// from the end.
pub proof fn law_seeking(
    file: &SmbcFile,
    start: u64,
    by: i64,
    whence: i32,
    from_start: Request,
    from_here: Request,
    from_end: Request,
    plain: Request,
    position: int,
    size: int,
)
    requires
        call_ensures(SmbcFile::seek, (file, SeekFrom::Start(start)), from_start),
        call_ensures(SmbcFile::seek, (file, SeekFrom::Current(by)), from_here),
        call_ensures(SmbcFile::seek, (file, SeekFrom::End(by)), from_end),
        call_ensures(SmbcFile::lseek, (file, by, whence), plain),
    ensures
        start <= i64::MAX ==> goes_to(from_start, position, size) == start,
        start > i64::MAX ==> goes_to(from_start, position, size) == start
            - 0x1_0000_0000_0000_0000,
        goes_to(from_here, position, size) == position + by,
        goes_to(from_end, position, size) == size + by,
        whence == 0 ==> goes_to(plain, position, size) == by,
        whence == 1 ==> goes_to(plain, position, size) == position + by,
        whence == 2 ==> goes_to(plain, position, size) == size + by,
        from_start.context == file.smbc && from_start.function == file.lseek_fn,
        from_here.context == file.smbc && from_here.function == file.lseek_fn,
        from_end.context == file.smbc && from_end.function == file.lseek_fn,
        plain == (Request {
            context: file.smbc,
            function: file.lseek_fn,
            call: Call::Lseek { file: file.fd, offset: by, whence },
        }),
        from_start.call matches Call::Lseek { file: f, .. } && f == file.fd,
        from_here.call matches Call::Lseek { file: f, .. } && f == file.fd,
        from_end.call matches Call::Lseek { file: f, .. } && f == file.fd,
{
    lemma_large_offset(start);
}

/// What a place to seek to gives for `lseek` takes the file to that place.
pub proof fn law_places(
    place: &SeekFrom,
    whence: i32,
    offset: i64,
    position: int,
    size: int,
)
    requires
        call_ensures(SeekFrom::whence, (place,), whence),
        call_ensures(SeekFrom::offset, (place,), offset),
    ensures
        lands(position, size, offset, whence) == match *place {
            SeekFrom::Start(n) => if n <= i64::MAX {
                n as int
            } else {
                n - 0x1_0000_0000_0000_0000
            },
            SeekFrom::Current(n) => position + n,
            SeekFrom::End(n) => size + n,
        },
{
    if let SeekFrom::Start(n) = *place {
        lemma_large_offset(n);
    }
}

/// The other requests on a file, and what is left to do when it is given up.
pub proof fn law_file_requests(
    file: &SmbcFile,
    size: i64,
    found: usize,
    asked: Request,
    cut: Request,
    lookup: Option<Action>,
    closing: Option<Request>,
)
    requires
        call_ensures(SmbcFile::fstat, (file,), asked),
        call_ensures(SmbcFile::ftruncate, (file, size), cut),
        call_ensures(SmbcFile::close, (file,), lookup),
        call_ensures(SmbcFile::close_with, (file, found), closing),
    ensures
        asked == (Request {
            context: file.smbc,
            function: file.fstat_fn,
            call: Call::Fstat { file: file.fd },
        }),
        cut == (Request {
            context: file.smbc,
            function: file.ftruncate_fn,
            call: Call::Ftruncate { file: file.fd, size },
        }),
        lookup is Some <==> file.fd != 0,
        lookup matches Some(action) ==> action == (Action::GetFunction {
            context: file.smbc,
            function: Function::Close,
        }),
        closing is Some <==> file.fd != 0 && found != 0,
        closing matches Some(request) ==> request == (Request {
            context: file.smbc,
            function: found,
            call: Call::Close { file: file.fd },
        }),
{
}

/// The requests on a directory, and what is left to do when it is given up. Seeking takes the
/// offset for a place, whatever it counts from.
pub proof fn law_directory_requests(
    dir: &SmbcDirectory,
    place: i64,
    start: u64,
    found: usize,
    next: Request,
    read: Request,
    sought: Request,
    told: Request,
    from_start: Request,
    from_here: Request,
    from_end: Request,
    lookup: Option<Action>,
    closing: Option<Request>,
)
    requires
        call_ensures(SmbcDirectory::next, (dir,), next),
        call_ensures(SmbcDirectory::readdir, (dir,), read),
        call_ensures(SmbcDirectory::lseekdir, (dir, place), sought),
        call_ensures(SmbcDirectory::telldir, (dir,), told),
        call_ensures(SmbcDirectory::seek, (dir, SeekFrom::Start(start)), from_start),
        call_ensures(SmbcDirectory::seek, (dir, SeekFrom::Current(place)), from_here),
        call_ensures(SmbcDirectory::seek, (dir, SeekFrom::End(place)), from_end),
        call_ensures(SmbcDirectory::close, (dir,), lookup),
        call_ensures(SmbcDirectory::close_with, (dir, found), closing),
    ensures
        next == (Request {
            context: dir.smbc,
            function: dir.readdir_fn,
            call: Call::Readdir { dir: dir.handle },
        }),
        read == next,
        sought == (Request {
            context: dir.smbc,
            function: dir.lseekdir_fn,
            call: Call::Lseekdir { dir: dir.handle, offset: place },
        }),
        told == (Request {
            context: dir.smbc,
            function: dir.telldir_fn,
            call: Call::Telldir { dir: dir.handle },
        }),
        from_here == sought,
        from_end == sought,
        start == place ==> from_start == sought,
        lookup is Some <==> dir.handle != 0,
        lookup matches Some(action) ==> action == (Action::GetFunction {
            context: dir.smbc,
            function: Function::Closedir,
        }),
        closing is Some <==> dir.handle != 0 && found != 0,
        closing matches Some(request) ==> request == (Request {
            context: dir.smbc,
            function: found,
            call: Call::Closedir { dir: dir.handle },
        }),
{
}

/// A reply below zero is the error that it tells, and any other a success; a call that gives a
/// position fails with -1 alone; and one that gives an address with null alone.
pub proof fn law_replies(
    reply: Reply,
    address: usize,
    errno: i32,
    le: Result<i64, Error>,
    unit: Result<(), Error>,
    count: Result<usize, Error>,
    minus_one: Result<i64, Error>,
    position: Result<i64, Error>,
    sought: Result<u64, Error>,
    pointer: Result<usize, Error>,
)
    requires
        call_ensures(to_result_with_le, (reply,), le),
        call_ensures(unit_reply, (reply,), unit),
        call_ensures(count_reply, (reply,), count),
        call_ensures(to_result_with_errno, (reply.value, errno), minus_one),
        call_ensures(position_reply, (reply,), position),
        call_ensures(seek_reply, (reply,), sought),
        call_ensures(result_from_ptr_mut, (address, errno), pointer),
    ensures
        reply.value < 0 ==> le == Err::<i64, Error>(Error::Os(reply.errno)),
        reply.value >= 0 ==> le == Ok::<i64, Error>(reply.value),
        reply.value < 0 ==> unit == Err::<(), Error>(Error::Os(reply.errno)),
        reply.value >= 0 ==> unit == Ok::<(), Error>(()),
        reply.value < 0 ==> count == Err::<usize, Error>(Error::Os(reply.errno)),
        0 <= reply.value <= usize::MAX ==> (count matches Ok(n) && n == reply.value),
        reply.value == -1 ==> minus_one == Err::<i64, Error>(Error::Os(errno)),
        reply.value != -1 ==> minus_one == Ok::<i64, Error>(reply.value),
        reply.value == -1 ==> position == Err::<i64, Error>(Error::Os(reply.errno)),
        reply.value != -1 ==> position == Ok::<i64, Error>(reply.value),
        reply.value == -1 ==> sought == Err::<u64, Error>(Error::Os(reply.errno)),
        reply.value != -1 ==> sought is Ok,
        reply.value >= 0 ==> (sought matches Ok(n) && n == reply.value),
        address == 0 ==> pointer == Err::<usize, Error>(Error::Os(errno)),
        address != 0 ==> pointer == Ok::<usize, Error>(address),
{
}

/// What was read is the start of the buffer, as long as the call told; or the error of the call.
pub proof fn law_bytes_read(
    file: &SmbcFile,
    buffer: Vec<u8>,
    reply: Reply,
    r: Result<Vec<u8>, Error>,
)
    requires
        reply.value <= buffer@.len(),
        call_ensures(SmbcFile::fread_reply, (file, buffer, reply), r),
    ensures
        reply.value >= 0 ==> (r matches Ok(bytes) && bytes@.len() == reply.value
            && bytes@.is_prefix_of(buffer@)),
        reply.value < 0 ==> r == Err::<Vec<u8>, Error>(Error::Os(reply.errno)),
        call_requires(SmbcFile::fread_reply, (file, buffer, reply)),
{
}

/// Whether the directory went to a place; -1 stands for the error of the call.
pub proof fn law_directory_went(dir: &SmbcDirectory, reply: Reply, r: Result<(), Error>)
    requires
        call_ensures(SmbcDirectory::lseekdir_reply, (dir, reply), r),
    ensures
        reply.value == -1 ==> r == Err::<(), Error>(Error::Os(reply.errno)),
        reply.value != -1 ==> r == Ok::<(), Error>(()),
{
}

/// The kind of each number from one to nine, and none for any other.
pub proof fn law_kinds(t: u32, r: Result<SmbcType, Error>, kind: &SmbcType, code: u32)
    requires
        call_ensures(SmbcType::from, (t,), r),
        call_ensures(SmbcType::code, (kind,), code),
    ensures
        t == 1 ==> r == Ok::<SmbcType, Error>(SmbcType::WORKGROUP),
        t == 2 ==> r == Ok::<SmbcType, Error>(SmbcType::SERVER),
        t == 3 ==> r == Ok::<SmbcType, Error>(SmbcType::FILESHARE),
        t == 4 ==> r == Ok::<SmbcType, Error>(SmbcType::PRINTERSHARE),
        t == 5 ==> r == Ok::<SmbcType, Error>(SmbcType::COMMSSHARE),
        t == 6 ==> r == Ok::<SmbcType, Error>(SmbcType::IPCSHARE),
        t == 7 ==> r == Ok::<SmbcType, Error>(SmbcType::DIR),
        t == 8 ==> r == Ok::<SmbcType, Error>(SmbcType::FILE),
        t == 9 ==> r == Ok::<SmbcType, Error>(SmbcType::LINK),
        !(1 <= t <= 9) ==> (r matches Err(Error::InvalidData(m)) && m@
            == "Unknown file type: "@),
        r == Ok::<SmbcType, Error>(*kind) ==> code == t,
{
}

/// The entry has the kind of that number, this name and this comment.
pub open spec fn is_entry(
    entry: SmbcDirEntry,
    number: u32,
    name: Seq<char>,
    comment: Seq<char>,
) -> bool {
    &&& entry.path@ == name
    &&& entry.comment@ == comment
    &&& match entry.s_type {
        SmbcType::WORKGROUP => number == 1,
        SmbcType::SERVER => number == 2,
        SmbcType::FILESHARE => number == 3,
        SmbcType::PRINTERSHARE => number == 4,
        SmbcType::COMMSSHARE => number == 5,
        SmbcType::IPCSHARE => number == 6,
        SmbcType::DIR => number == 7,
        SmbcType::FILE => number == 8,
        SmbcType::LINK => number == 9,
    }
}

/// Iterating gives every entry of a known kind with its kind, the name that was percent-encoded,
/// and its comment; it gives an error for an entry of unknown kind, and ends where there is none.
pub proof fn law_iterating(
    dir: &SmbcDirectory,
    d: Dirent,
    bytes: Seq<u8>,
    name: Seq<char>,
    comment: Seq<char>,
    r: Option<Result<SmbcDirEntry, Error>>,
    end: Option<Result<SmbcDirEntry, Error>>,
    direct: Result<SmbcDirEntry, Error>,
)
    requires
        call_ensures(SmbcDirectory::next_reply, (dir, Some(d)), r),
        call_ensures(SmbcDirectory::next_reply, (dir, None), end),
        call_ensures(decoded_entry, (&d,), direct),
        stands_for(d.name@, bytes),
        percent_encodes(bytes, encode_utf8(name)),
        d.comment@ == encode_utf8(comment),
    ensures
        1 <= d.smbc_type <= 9 ==> (r matches Some(Ok(entry)) && is_entry(
            entry,
            d.smbc_type,
            name,
            comment,
        )),
        1 <= d.smbc_type <= 9 ==> (direct matches Ok(entry) && is_entry(
            entry,
            d.smbc_type,
            name,
            comment,
        )),
        !(1 <= d.smbc_type <= 9) ==> (r matches Some(Err(e)) && e is InvalidData),
        end is None,
{
    law_names_are_their_bytes(d.name@, bytes);
    law_percent_encoded_names_survive(bytes, encode_utf8(name));
    if let Some(Ok(entry)) = r {
        law_utf8_names_survive(name, entry.path@);
        law_utf8_names_survive(comment, entry.comment@);
    }
    if let Ok(entry) = direct {
        law_utf8_names_survive(name, entry.path@);
        law_utf8_names_survive(comment, entry.comment@);
    }
}

/// Reading entry by entry gives every entry of a known kind with its kind, its name as it stands,
/// and its comment; it gives an error for an entry of unknown kind, and the error of the operating
/// system where there is none.
pub proof fn law_reading_entries(
    dir: &SmbcDirectory,
    d: Dirent,
    name: Seq<char>,
    comment: Seq<char>,
    errno: i32,
    r: Result<SmbcDirEntry, Error>,
    end: Result<SmbcDirEntry, Error>,
    direct: Result<SmbcDirEntry, Error>,
)
    requires
        call_ensures(SmbcDirectory::readdir_reply, (dir, Some(d), errno), r),
        call_ensures(SmbcDirectory::readdir_reply, (dir, None, errno), end),
        call_ensures(plain_entry, (&d,), direct),
        stands_for(d.name@, encode_utf8(name)),
        d.comment@ == encode_utf8(comment),
    ensures
        1 <= d.smbc_type <= 9 ==> (r matches Ok(entry) && is_entry(
            entry,
            d.smbc_type,
            name,
            comment,
        )),
        1 <= d.smbc_type <= 9 ==> (direct matches Ok(entry) && is_entry(
            entry,
            d.smbc_type,
            name,
            comment,
        )),
        !(1 <= d.smbc_type <= 9) ==> (r matches Err(e) && e is InvalidData),
        end == Err::<SmbcDirEntry, Error>(Error::Os(errno)),
{
    law_names_are_their_bytes(d.name@, encode_utf8(name));
    if let Ok(entry) = r {
        law_utf8_names_survive(name, entry.path@);
        law_utf8_names_survive(comment, entry.comment@);
    }
    if let Ok(entry) = direct {
        law_utf8_names_survive(name, entry.path@);
        law_utf8_names_survive(comment, entry.comment@);
    }
}

} // verus!
