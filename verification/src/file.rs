//! Open files and directories.

use vstd::prelude::*;
use vstd::utf8::*;
use crate::call::{
    copied, le_result, to_result_with_errno, to_result_with_le, Call, Reply, Request, SEEK_CUR,
    SEEK_END, SEEK_SET,
};
use crate::dir::{
    decoded_entry, entry_result, law_names_are_their_bytes, law_nothing_to_decode,
    law_percent_encoded_names_survive, law_type_codes, law_utf8_names_survive, name_bytes,
    percent_decoded, percent_encodes, plain_entry, stands_for, type_code, Dirent, SmbcDirEntry,
};
use crate::error::Error;
use crate::functions::Function;
use crate::setup::Action;

verus! {

/// An open file: the context that it was opened in, its address, and those of the functions that
/// are called on it.
#[derive(Debug, Clone, Copy, PartialEq, Eq, Structural)]
pub struct SmbcFile {
    pub smbc: usize,
    pub fd: usize,
    pub fstat_fn: usize,
    pub ftruncate_fn: usize,
    pub lseek_fn: usize,
    pub read_fn: usize,
    pub write_fn: usize,
}

/// An open directory: the context that it was opened in, its address, and those of the functions
/// that are called on it.
#[derive(Debug, Clone, Copy, PartialEq, Eq, Structural)]
pub struct SmbcDirectory {
    pub smbc: usize,
    pub handle: usize,
    pub lseekdir_fn: usize,
    pub readdir_fn: usize,
    pub telldir_fn: usize,
}

/// A position to seek: an offset from the start, from the end, or from where one is.
#[derive(Debug, Clone, Copy, PartialEq, Eq, Structural)]
pub enum SeekFrom {
    Start(u64),
    End(i64),
    Current(i64),
}

impl SeekFrom {
    /// What the offset counts from.
    pub open spec fn whence_spec(self) -> i32 {
        match self {
            SeekFrom::Start(_) => SEEK_SET,
            SeekFrom::End(_) => SEEK_END,
            SeekFrom::Current(_) => SEEK_CUR,
        }
    }

    /// The offset. One from the start beyond the largest signed number comes out negative.
    pub open spec fn offset_spec(self) -> i64 {
        match self {
            SeekFrom::Start(p) => p as i64,
            SeekFrom::End(p) => p,
            SeekFrom::Current(p) => p,
        }
    }

    /// What the offset counts from.
    pub fn whence(&self) -> (r: i32)
        ensures
            r == self.whence_spec(),
    {
        match self {
            SeekFrom::Start(_) => SEEK_SET,
            SeekFrom::End(_) => SEEK_END,
            SeekFrom::Current(_) => SEEK_CUR,
        }
    }

    /// The offset. One from the start beyond the largest signed number comes out negative.
    pub fn offset(&self) -> (r: i64)
        ensures
            r == self.offset_spec(),
    {
        match self {
            SeekFrom::Start(p) => *p as i64,
            SeekFrom::End(p) => *p,
            SeekFrom::Current(p) => *p,
        }
    }
}

/// The position that a call came back with; -1 stands for the last error of the operating system.
pub fn position_reply(reply: Reply) -> (r: Result<i64, Error>)
    ensures
        r == (if reply.value == -1 {
            Err(Error::Os(reply.errno))
        } else {
            Ok(reply.value)
        }),
{
    to_result_with_errno(reply.value, reply.errno)
}

/// The position that a seek came back with; -1 stands for the last error of the operating system.
pub fn seek_reply(reply: Reply) -> (r: Result<u64, Error>)
    ensures
        r == (if reply.value == -1 {
            Err(Error::Os(reply.errno))
        } else {
            Ok(reply.value as u64)
        }),
{
    match to_result_with_errno(reply.value, reply.errno) {
        Ok(res) => Ok(res as u64),
        Err(e) => Err(e),
    }
}

/// The number of bytes that a call has read or written.
pub fn count_reply(reply: Reply) -> (r: Result<usize, Error>)
    ensures
        r == count_result(reply),
{
    match to_result_with_le(reply) {
        Ok(n) => Ok(n as usize),
        Err(e) => Err(e),
    }
}

/// The number of bytes that a call has read or written.
pub open spec fn count_result(reply: Reply) -> Result<usize, Error> {
    match le_result(reply) {
        Ok(n) => Ok(n as usize),
        Err(e) => Err(e),
    }
}

/// The result is the start of the buffer that a call has read, or its error.
pub open spec fn is_read(buffer: Seq<u8>, reply: Reply, r: Result<Vec<u8>, Error>) -> bool {
    match le_result(reply) {
        Ok(n) => r matches Ok(bytes) && bytes@ == buffer.take(n as int),
        Err(e) => r == Err::<Vec<u8>, Error>(e),
    }
}

impl SmbcFile {
    /// The request for a call of a function on this file.
    pub open spec fn asks(self, function: usize, call: Call) -> Request {
        Request { context: self.smbc, function, call }
    }

    /// The request for a call of a function on this file.
    fn request(&self, function: usize, call: Call) -> (r: Request)
        ensures
            r == self.asks(function, call),
    {
        Request { context: self.smbc, function, call }
    }

    /// Asks to read from this file into a buffer of so many bytes.
    pub open spec fn reads(self, count: usize) -> Request {
        self.asks(self.read_fn, Call::Read { file: self.fd, count })
    }

    /// Asks to read from the current offset into a buffer of so many bytes.
    pub fn fread(&self, count: u64) -> (r: Request)
        requires
            (count as usize) <= isize::MAX,
        ensures
            r == self.reads(count as usize),
    {
        self.request(self.read_fn, Call::Read { file: self.fd, count: count as usize })
    }

    /// The bytes that were read into the buffer.
    pub fn fread_reply(&self, buffer: Vec<u8>, reply: Reply) -> (r: Result<Vec<u8>, Error>)
        requires
            reply.value <= buffer@.len(),
        ensures
            is_read(buffer@, reply, r),
    {
        match to_result_with_le(reply) {
            Ok(bytes_read) => {
                let mut bytes = buffer;
                bytes.truncate(bytes_read as usize);
                Ok(bytes)
            },
            Err(e) => Err(e),
        }
    }

    /// The request asks to write these bytes to this file.
    pub open spec fn writes(self, request: Request, bytes: Seq<u8>) -> bool {
        &&& request.context == self.smbc
        &&& request.function == self.write_fn
        &&& request.call matches Call::Write { file, data }
        &&& file == self.fd
        &&& data@ == bytes
    }

    /// Asks to write the buffer at the current offset. What comes back is the number of bytes
    /// written.
    pub fn fwrite(&self, buf: &[u8]) -> (r: Request)
        ensures
            self.writes(r, buf@),
    {
        self.request(self.write_fn, Call::Write { file: self.fd, data: copied(buf) })
    }

    /// Asks to seek. What comes back is the offset from the start.
    pub fn lseek(&self, offset: i64, whence: i32) -> (r: Request)
        ensures
            r == self.asks(
                self.lseek_fn,
                Call::Lseek { file: self.fd, offset, whence },
            ),
    {
        self.request(self.lseek_fn, Call::Lseek { file: self.fd, offset, whence })
    }

    /// Asks for the meta attributes of the file.
    pub fn fstat(&self) -> (r: Request)
        ensures
            r == self.asks(
                self.fstat_fn,
                Call::Fstat { file: self.fd },
            ),
    {
        self.request(self.fstat_fn, Call::Fstat { file: self.fd })
    }

    /// Asks to truncate the file.
    pub fn ftruncate(&self, size: i64) -> (r: Request)
        ensures
            r == self.asks(
                self.ftruncate_fn,
                Call::Ftruncate { file: self.fd, size },
            ),
    {
        self.request(self.ftruncate_fn, Call::Ftruncate { file: self.fd, size })
    }

    /// Asks to fill the buffer from the current offset. What comes back is the number of bytes
    /// read.
    pub fn read(&self, buf: &[u8]) -> (r: Request)
        ensures
            r == self.reads(buf@.len() as usize),
    {
        self.request(self.read_fn, Call::Read { file: self.fd, count: buf.len() })
    }

    /// The same as [`SmbcFile::fwrite`].
    pub fn write(&self, buf: &[u8]) -> (r: Request)
        ensures
            self.writes(r, buf@),
    {
        self.fwrite(buf)
    }

    /// The same as [`SmbcFile::lseek`], for a position.
    pub fn seek(&self, pos: SeekFrom) -> (r: Request)
        ensures
            r == self.asks(
                self.lseek_fn,
                Call::Lseek { file: self.fd, offset: pos.offset_spec(), whence: pos.whence_spec() },
            ),
    {
        self.lseek(pos.offset(), pos.whence())
    }

    /// What is left to do when the file is given up: to look up how it is closed, if there is one.
    pub fn close(&self) -> (r: Option<Action>)
        ensures
            r == (if self.fd == 0 {
                None
            } else {
                Some(Action::GetFunction { context: self.smbc, function: Function::Close })
            }),
    {
        if self.fd == 0 {
            None
        } else {
            Some(Action::GetFunction { context: self.smbc, function: Function::Close })
        }
    }

    /// Asks to close the file with the function that was looked up, if there is one.
    pub fn close_with(&self, function: usize) -> (r: Option<Request>)
        ensures
            r == (if self.fd == 0 || function == 0 {
                None
            } else {
                Some(
                    Request {
                        context: self.smbc,
                        function,
                        call: Call::Close { file: self.fd },
                    },
                )
            }),
    {
        if self.fd == 0 || function == 0 {
            None
        } else {
            Some(
                Request { context: self.smbc, function, call: Call::Close { file: self.fd } },
            )
        }
    }
}

impl SmbcDirectory {
    /// The request for a call of a function on this directory.
    pub open spec fn asks(self, function: usize, call: Call) -> Request {
        Request { context: self.smbc, function, call }
    }

    /// The request for a call of a function on this directory.
    fn request(&self, function: usize, call: Call) -> (r: Request)
        ensures
            r == self.asks(function, call),
    {
        Request { context: self.smbc, function, call }
    }

    /// Asks for the next entry.
    pub fn next(&self) -> (r: Request)
        ensures
            r == self.asks(
                self.readdir_fn,
                Call::Readdir { dir: self.handle },
            ),
    {
        self.request(self.readdir_fn, Call::Readdir { dir: self.handle })
    }

    /// What the iterator makes of the entry that came back: it ends where none came, whatever the
    /// reason. Otherwise it gives the entry with its name percent-decoded, or an error where the
    /// kind of the entry is unknown.
    pub fn next_reply(&self, dirent: Option<Dirent>) -> (r: Option<Result<SmbcDirEntry, Error>>)
        ensures
            match dirent {
                Some(d) => r matches Some(entry) && entry_result(
                    d,
                    percent_decoded(name_bytes(d.name@)),
                    entry,
                ),
                None => r is None,
            },
    {
        match dirent {
            Some(d) => Some(decoded_entry(&d)),
            None => None,
        }
    }

    /// Asks for the next entry.
    pub fn readdir(&self) -> (r: Request)
        ensures
            r == self.asks(
                self.readdir_fn,
                Call::Readdir { dir: self.handle },
            ),
    {
        self.next()
    }

    /// The entry that came back, with its name as it stands. Where none came, because of an error
    /// or because the directory ends, the last error of the operating system is given.
    pub fn readdir_reply(&self, dirent: Option<Dirent>, errno: i32) -> (r: Result<
        SmbcDirEntry,
        Error,
    >)
        ensures
            match dirent {
                Some(d) => entry_result(d, name_bytes(d.name@), r),
                None => r == Err::<SmbcDirEntry, Error>(Error::Os(errno)),
            },
    {
        match dirent {
            Some(d) => plain_entry(&d),
            None => Err(Error::Os(errno)),
        }
    }

    /// Asks to go to a place that was told by [`SmbcDirectory::telldir`]; zero rewinds.
    pub fn lseekdir(&self, offset: i64) -> (r: Request)
        ensures
            r == self.asks(
                self.lseekdir_fn,
                Call::Lseekdir { dir: self.handle, offset },
            ),
    {
        self.request(self.lseekdir_fn, Call::Lseekdir { dir: self.handle, offset })
    }

    /// Whether the directory went there; -1 stands for the last error of the operating system.
    pub fn lseekdir_reply(&self, reply: Reply) -> (r: Result<(), Error>)
        ensures
            r == (if reply.value == -1 {
                Err(Error::Os(reply.errno))
            } else {
                Ok(())
            }),
    {
        match to_result_with_errno(reply.value, reply.errno) {
            Ok(_) => Ok(()),
            Err(e) => Err(e),
        }
    }

    /// Asks for the current place.
    pub fn telldir(&self) -> (r: Request)
        ensures
            r == self.asks(
                self.telldir_fn,
                Call::Telldir { dir: self.handle },
            ),
    {
        self.request(self.telldir_fn, Call::Telldir { dir: self.handle })
    }

    /// The same as [`SmbcDirectory::lseekdir`]: whatever the position counts from, its offset is
    /// taken for a place.
    pub fn seek(&self, pos: SeekFrom) -> (r: Request)
        ensures
            r == self.asks(
                self.lseekdir_fn,
                Call::Lseekdir { dir: self.handle, offset: pos.offset_spec() },
            ),
    {
        self.lseekdir(pos.offset())
    }

    /// What is left to do when the directory is given up: to look up how it is closed, if there is
    /// one.
    pub fn close(&self) -> (r: Option<Action>)
        ensures
            r == (if self.handle == 0 {
                None
            } else {
                Some(Action::GetFunction { context: self.smbc, function: Function::Closedir })
            }),
    {
        if self.handle == 0 {
            None
        } else {
            Some(Action::GetFunction { context: self.smbc, function: Function::Closedir })
        }
    }

    /// Asks to close the directory with the function that was looked up, if there is one.
    pub fn close_with(&self, function: usize) -> (r: Option<Request>)
        ensures
            r == (if self.handle == 0 || function == 0 {
                None
            } else {
                Some(
                    Request {
                        context: self.smbc,
                        function,
                        call: Call::Closedir { dir: self.handle },
                    },
                )
            }),
    {
        if self.handle == 0 || function == 0 {
            None
        } else {
            Some(
                Request { context: self.smbc, function, call: Call::Closedir { dir: self.handle } },
            )
        }
    }
}

/// An offset from the start that fits in 63 bits is sought as it is, and any position that a seek
/// came back with can be sought again.
pub proof fn law_positions_can_be_sought(p: u64, value: i64)
    ensures
        p <= i64::MAX ==> SeekFrom::Start(p).offset_spec() == p,
        SeekFrom::Start(value as u64).offset_spec() == value,
        SeekFrom::Start(p).whence_spec() == SEEK_SET,
{
    assert((value as u64) as i64 == value) by (bit_vector);
}

/// Reading into a buffer and reading so many bytes ask for the same. With the same reply either
/// both succeed or both fail with the same error, and what was read is as many bytes as the first
/// tells of the buffer.
pub proof fn law_read_and_fread_agree(
    file: SmbcFile,
    buf: Seq<u8>,
    count: u64,
    reply: Reply,
    bytes: Result<Vec<u8>, Error>,
)
    requires
        buf.len() == count,
        count <= usize::MAX,
        reply.value <= buf.len(),
        is_read(buf, reply, bytes),
    ensures
        file.reads(buf.len() as usize) == file.reads(count as usize),
        match count_result(reply) {
            Ok(n) => bytes matches Ok(v) && n == v@.len() && n <= buf.len() && v@ == buf.take(
                n as int,
            ),
            Err(e) => bytes == Err::<Vec<u8>, Error>(e),
        },
        count_result(reply) is Err <==> reply.value < 0,
{
}

/// Writing in either way asks for the same, and with the same reply either both succeed, with the
/// same number of bytes, or both fail with the same error.
pub proof fn law_write_and_fwrite_agree(
    file: SmbcFile,
    buf: Seq<u8>,
    first: Request,
    second: Request,
    reply: Reply,
)
    requires
        file.writes(first, buf),
        file.writes(second, buf),
        reply.value <= usize::MAX,
    ensures
        first.context == second.context && first.function == second.function,
        first.call matches Call::Write { file: a, data: x } && second.call matches Call::Write {
            file: b,
            data: y,
        } && a == b && x@ == y@,
        match le_result(reply) {
            Ok(n) => count_result(reply) matches Ok(m) && m == n,
            Err(e) => count_result(reply) == Err::<usize, Error>(e),
        },
{
}

/// Reading entry by entry and iterating give the same, where the name holds no percent sign.
pub proof fn law_readdir_and_next_agree(d: Dirent, r: Result<SmbcDirEntry, Error>)
    requires
        !name_bytes(d.name@).contains(37),
    ensures
        entry_result(d, name_bytes(d.name@), r) <==> entry_result(
            d,
            percent_decoded(name_bytes(d.name@)),
            r,
        ),
{
    law_nothing_to_decode(name_bytes(d.name@));
}

/// Where a file of some size is after it was at a position and was asked to seek.
pub open spec fn lands(position: int, size: int, offset: i64, whence: i32) -> int {
    if whence == 0 {
        offset as int
    } else if whence == 1 {
        position + offset
    } else {
        size + offset
    }
}

/// Seeking goes where it says: to an offset from the start, so far from the current position, or
/// so far from the end.
pub proof fn law_seeking_goes_there(position: int, size: int, from_start: u64, by: i64)
    ensures
        from_start <= i64::MAX ==> lands(
            position,
            size,
            SeekFrom::Start(from_start).offset_spec(),
            SeekFrom::Start(from_start).whence_spec(),
        ) == from_start,
        lands(
            position,
            size,
            SeekFrom::Current(by).offset_spec(),
            SeekFrom::Current(by).whence_spec(),
        ) == position + by,
        lands(
            position,
            size,
            SeekFrom::End(by).offset_spec(),
            SeekFrom::End(by).whence_spec(),
        ) == size + by,
        SeekFrom::Start(from_start).whence_spec() == SEEK_SET,
        SeekFrom::Current(by).whence_spec() == SEEK_CUR,
        SeekFrom::End(by).whence_spec() == SEEK_END,
        SeekFrom::Current(by).offset_spec() == by,
        SeekFrom::End(by).offset_spec() == by,
{
}

/// A listed entry of a known kind has that kind, the name that was encoded, and its comment: for
/// any UTF-8 name that libsmbclient gives percent-encoded when one iterates, and for any that it
/// gives as it is when one reads entry by entry.
pub proof fn law_entries_are_listed(
    d: Dirent,
    bytes: Seq<u8>,
    name: Seq<char>,
    comment: Seq<char>,
    r: Result<SmbcDirEntry, Error>,
)
    requires
        1 <= d.smbc_type <= 9,
        stands_for(d.name@, bytes),
        d.comment@ == encode_utf8(comment),
        ({
            ||| percent_encodes(bytes, encode_utf8(name)) && entry_result(
                d,
                percent_decoded(name_bytes(d.name@)),
                r,
            )
            ||| bytes == encode_utf8(name) && entry_result(d, name_bytes(d.name@), r)
        }),
    ensures
        r matches Ok(entry) && type_code(entry.s_type) == d.smbc_type && entry.path@ == name
            && entry.comment@ == comment,
{
    law_names_are_their_bytes(d.name@, bytes);
    if percent_encodes(bytes, encode_utf8(name)) {
        law_percent_encoded_names_survive(bytes, encode_utf8(name));
    }
    if let Ok(entry) = r {
        law_utf8_names_survive(name, entry.path@);
        law_utf8_names_survive(comment, entry.comment@);
    }
}

/// An entry is refused exactly where its kind has no number from one to nine, whatever its name
/// and its comment are.
pub proof fn law_unknown_kinds_are_refused(
    d: Dirent,
    path: Seq<u8>,
    r: Result<SmbcDirEntry, Error>,
)
    requires
        entry_result(d, path, r),
    ensures
        r is Err <==> !(1 <= d.smbc_type <= 9),
        r matches Err(e) ==> e matches Error::InvalidData(_),
{
    if let Ok(entry) = r {
        law_type_codes(entry.s_type, entry.s_type, 1);
    }
}

/// What comes of bytes that are no UTF-8 depends on the bytes alone: entries with the same kind,
/// comment and name come out the same.
pub proof fn law_equal_entries_come_out_equal(
    d: Dirent,
    e: Dirent,
    path: Seq<u8>,
    r: Result<SmbcDirEntry, Error>,
    q: Result<SmbcDirEntry, Error>,
)
    requires
        d.smbc_type == e.smbc_type,
        d.comment@ == e.comment@,
        entry_result(d, path, r),
        entry_result(e, path, q),
    ensures
        r is Ok <==> q is Ok,
        r is Ok ==> r->Ok_0.s_type == q->Ok_0.s_type && r->Ok_0.comment@ == q->Ok_0.comment@
            && r->Ok_0.path@ == q->Ok_0.path@,
{
}

/// Reading and writing go to the file, in its context, with the functions that it was given, for
/// as many bytes and for the bytes that were asked for.
pub proof fn law_files_are_asked(file: SmbcFile, request: Request, bytes: Seq<u8>, count: usize)
    ensures
        file.reads(count).context == file.smbc,
        file.reads(count).function == file.read_fn,
        file.reads(count).call == (Call::Read { file: file.fd, count }),
        file.writes(request, bytes) ==> request.context == file.smbc && request.function
            == file.write_fn && (request.call matches Call::Write { file: f, data } && f == file.fd
            && data@ == bytes),
{
}

/// A question goes out as it was put: its function and its call, in the context of the file or the
/// directory.
pub proof fn law_questions_go_out(
    file: SmbcFile,
    dir: SmbcDirectory,
    function: usize,
    call: Call,
)
    ensures
        file.asks(function, call) == (Request { context: file.smbc, function, call }),
        dir.asks(function, call) == (Request { context: dir.smbc, function, call }),
{
}

/// A reply to reading or writing tells so many bytes, or the error.
pub proof fn law_counts_are_told(reply: Reply, buffer: Seq<u8>, r: Result<Vec<u8>, Error>)
    requires
        reply.value <= usize::MAX,
        reply.value <= buffer.len(),
        is_read(buffer, reply, r),
    ensures
        reply.value >= 0 ==> (count_result(reply) matches Ok(n) && n == reply.value),
        reply.value < 0 ==> count_result(reply) == Err::<usize, Error>(Error::Os(reply.errno)),
        reply.value >= 0 ==> (r matches Ok(v) && v@.len() == reply.value && v@.is_prefix_of(
            buffer,
        )),
        reply.value < 0 ==> r == Err::<Vec<u8>, Error>(Error::Os(reply.errno)),
{
}

} // verus!
