//! The client: requests on paths, and what comes of them.

use vstd::prelude::*;
use vstd::utf8::*;
use crate::call::{
    c_string, copied, nul_error, nul_free, result_from_ptr_mut, to_result_with_le, Call, Reply,
    Request,
};
use crate::error::Error;
use crate::file::{SmbcDirectory, SmbcFile};
use crate::flags::XAttrFlags;
use crate::functions::{Function, Functions};
use crate::text::Text;
use crate::time::TimeVal;
use crate::xattr::{SmbcXAttr, SmbcXAttrValue};

verus! {

/// A client: the address of its context, which is null where there is none, and the functions of
/// the context.
#[derive(Debug, Clone, Copy, PartialEq, Eq, Structural)]
pub struct Smbc {
    pub context: usize,
    pub functions: Functions,
}

/// The bytes of a text.
pub open spec fn text_bytes<T: Text>(t: T) -> Seq<u8> {
    encode_utf8(t.text())
}

/// The text of a value as libsmbclient takes it, unless it holds a NUL byte.
fn c_text<T: Text>(t: &T) -> (r: Result<Vec<u8>, Error>)
    requires
        t.printable(),
    ensures
        match r {
            Ok(v) => nul_free(text_bytes(*t)) && v@ == text_bytes(*t).push(0),
            Err(e) => nul_error(text_bytes(*t), e),
        },
{
    let s = t.to_string();
    c_string(s.as_str().as_bytes())
}

impl Smbc {
    /// The file at an address, with the functions of this client.
    pub open spec fn file_at(self, address: usize) -> SmbcFile {
        SmbcFile {
            smbc: self.context,
            fd: address,
            fstat_fn: self.functions.fstat_fn,
            ftruncate_fn: self.functions.ftruncate_fn,
            lseek_fn: self.functions.lseek_fn,
            read_fn: self.functions.read_fn,
            write_fn: self.functions.write_fn,
        }
    }

    /// The directory at an address, with the functions of this client.
    pub open spec fn dir_at(self, address: usize) -> SmbcDirectory {
        SmbcDirectory {
            smbc: self.context,
            handle: address,
            lseekdir_fn: self.functions.lseekdir_fn,
            readdir_fn: self.functions.readdir_fn,
            telldir_fn: self.functions.telldir_fn,
        }
    }

    /// The request is for this function in the context of this client.
    pub open spec fn calls(self, request: Request, function: usize) -> bool {
        request.context == self.context && request.function == function
    }

    /// The request of a call of a function in the context of this client.
    fn request(&self, function: usize, call: Call) -> (r: Request)
        ensures
            r == (Request { context: self.context, function, call }),
    {
        Request { context: self.context, function, call }
    }

    /// Asks to create a file. The mode does nothing for its permissions.
    pub fn create(&self, path: &[u8], mode: u32) -> (r: Result<Request, Error>)
        ensures
            match r {
                Ok(request) => nul_free(path@) && self.calls(
                    request,
                    self.functions.creat_fn,
                ) && (request.call matches Call::Creat { fname, mode: m } && fname@
                    == path@.push(0) && m == mode),
                Err(e) => nul_error(path@, e),
            },
    {
        match c_string(path) {
            Ok(fname) => Ok(self.request(self.functions.creat_fn, Call::Creat { fname, mode })),
            Err(e) => Err(e),
        }
    }

    /// Asks to change the DOS attributes of a file.
    pub fn chmod(&self, path: &[u8], mode: u32) -> (r: Result<Request, Error>)
        ensures
            match r {
                Ok(request) => nul_free(path@) && self.calls(
                    request,
                    self.functions.chmod_fn,
                ) && (request.call matches Call::Chmod { fname, mode: m } && fname@
                    == path@.push(0) && m == mode),
                Err(e) => nul_error(path@, e),
            },
    {
        match c_string(path) {
            Ok(fname) => Ok(self.request(self.functions.chmod_fn, Call::Chmod { fname, mode })),
            Err(e) => Err(e),
        }
    }

    /// Asks to open a file.
    pub fn open(&self, path: &[u8], flags: i32, mode: u32) -> (r: Result<Request, Error>)
        ensures
            match r {
                Ok(request) => nul_free(path@) && self.calls(
                    request,
                    self.functions.open_fn,
                ) && (request.call matches Call::Open { fname, flags: f, mode: m } && fname@
                    == path@.push(0) && f == flags && m == mode),
                Err(e) => nul_error(path@, e),
            },
    {
        match c_string(path) {
            Ok(fname) => Ok(
                self.request(self.functions.open_fn, Call::Open { fname, flags, mode }),
            ),
            Err(e) => Err(e),
        }
    }

    /// The file that was opened or created at an address; the null address stands for the last
    /// error of the operating system.
    pub fn opened(&self, address: usize, errno: i32) -> (r: Result<SmbcFile, Error>)
        ensures
            r == (if address == 0 {
                Err(Error::Os(errno))
            } else {
                Ok(self.file_at(address))
            }),
    {
        match result_from_ptr_mut(address, errno) {
            Ok(fd) => Ok(
                SmbcFile {
                    smbc: self.context,
                    fd,
                    fstat_fn: self.functions.fstat_fn,
                    ftruncate_fn: self.functions.ftruncate_fn,
                    lseek_fn: self.functions.lseek_fn,
                    read_fn: self.functions.read_fn,
                    write_fn: self.functions.write_fn,
                },
            ),
            Err(e) => Err(e),
        }
    }

    /// Asks to open a directory.
    pub fn opendir(&self, path: &[u8]) -> (r: Result<Request, Error>)
        ensures
            match r {
                Ok(request) => nul_free(path@) && self.calls(
                    request,
                    self.functions.opendir_fn,
                ) && (request.call matches Call::Opendir { fname } && fname@ == path@.push(0)),
                Err(e) => nul_error(path@, e),
            },
    {
        match c_string(path) {
            Ok(fname) => Ok(self.request(self.functions.opendir_fn, Call::Opendir { fname })),
            Err(e) => Err(e),
        }
    }

    /// The directory that was opened at an address; the null address stands for the last error of
    /// the operating system.
    pub fn opened_dir(&self, address: usize, errno: i32) -> (r: Result<SmbcDirectory, Error>)
        ensures
            r == (if address == 0 {
                Err(Error::Os(errno))
            } else {
                Ok(self.dir_at(address))
            }),
    {
        match result_from_ptr_mut(address, errno) {
            Ok(handle) => Ok(
                SmbcDirectory {
                    smbc: self.context,
                    handle,
                    lseekdir_fn: self.functions.lseekdir_fn,
                    readdir_fn: self.functions.readdir_fn,
                    telldir_fn: self.functions.telldir_fn,
                },
            ),
            Err(e) => Err(e),
        }
    }

    /// Asks to make a directory. The mode does nothing.
    pub fn mkdir(&self, path: &[u8], mode: u32) -> (r: Result<Request, Error>)
        ensures
            match r {
                Ok(request) => nul_free(path@) && self.calls(
                    request,
                    self.functions.mkdir_fn,
                ) && (request.call matches Call::Mkdir { fname, mode: m } && fname@
                    == path@.push(0) && m == mode),
                Err(e) => nul_error(path@, e),
            },
    {
        match c_string(path) {
            Ok(fname) => Ok(self.request(self.functions.mkdir_fn, Call::Mkdir { fname, mode })),
            Err(e) => Err(e),
        }
    }

    /// Asks to rename or move a file or directory. A NUL byte in the old path is reported before
    /// one in the new path.
    pub fn rename(&self, oldpath: &[u8], newpath: &[u8]) -> (r: Result<Request, Error>)
        ensures
            match r {
                Ok(request) => nul_free(oldpath@) && nul_free(newpath@) && self.calls(
                    request,
                    self.functions.rename_fn,
                ) && (request.call matches Call::Rename { oname, nname }
                    && oname@ == oldpath@.push(0) && nname@ == newpath@.push(0)),
                Err(e) => if nul_free(oldpath@) {
                    nul_error(newpath@, e)
                } else {
                    nul_error(oldpath@, e)
                },
            },
    {
        match c_string(oldpath) {
            Ok(oname) => match c_string(newpath) {
                Ok(nname) => Ok(
                    self.request(self.functions.rename_fn, Call::Rename { oname, nname }),
                ),
                Err(e) => Err(e),
            },
            Err(e) => Err(e),
        }
    }

    /// Asks to remove a directory.
    pub fn rmdir(&self, path: &[u8]) -> (r: Result<Request, Error>)
        ensures
            match r {
                Ok(request) => nul_free(path@) && self.calls(
                    request,
                    self.functions.rmdir_fn,
                ) && (request.call matches Call::Rmdir { fname } && fname@ == path@.push(0)),
                Err(e) => nul_error(path@, e),
            },
    {
        match c_string(path) {
            Ok(fname) => Ok(self.request(self.functions.rmdir_fn, Call::Rmdir { fname })),
            Err(e) => Err(e),
        }
    }

    /// Asks for the meta attributes of a file or directory.
    pub fn stat(&self, path: &[u8]) -> (r: Result<Request, Error>)
        ensures
            match r {
                Ok(request) => nul_free(path@) && self.calls(
                    request,
                    self.functions.stat_fn,
                ) && (request.call matches Call::Stat { fname } && fname@ == path@.push(0)),
                Err(e) => nul_error(path@, e),
            },
    {
        match c_string(path) {
            Ok(fname) => Ok(self.request(self.functions.stat_fn, Call::Stat { fname })),
            Err(e) => Err(e),
        }
    }

    /// Asks to delete a file.
    pub fn unlink(&self, path: &[u8]) -> (r: Result<Request, Error>)
        ensures
            match r {
                Ok(request) => nul_free(path@) && self.calls(
                    request,
                    self.functions.unlink_fn,
                ) && (request.call matches Call::Unlink { fname } && fname@ == path@.push(0)),
                Err(e) => nul_error(path@, e),
            },
    {
        match c_string(path) {
            Ok(fname) => Ok(self.request(self.functions.unlink_fn, Call::Unlink { fname })),
            Err(e) => Err(e),
        }
    }

    /// Asks to change the access and modification times of a file, which are the first two times
    /// of the buffer.
    pub fn utimes(&self, path: &[u8], tbuf: Vec<TimeVal>) -> (r: Result<Request, Error>)
        requires
            tbuf@.len() >= 2,
        ensures
            match r {
                Ok(request) => nul_free(path@) && self.calls(
                    request,
                    self.functions.utimes_fn,
                ) && (request.call matches Call::Utimes { fname, tbuf: t } && fname@
                    == path@.push(0) && t@ == tbuf@),
                Err(e) => nul_error(path@, e),
            },
    {
        match c_string(path) {
            Ok(fname) => Ok(self.request(self.functions.utimes_fn, Call::Utimes { fname, tbuf })),
            Err(e) => Err(e),
        }
    }

    /// Prepares to read an extended attribute.
    pub fn getxattr(&self, path: &[u8], attr: &SmbcXAttr) -> (r: Result<XAttrQuery, Error>)
        requires
            nul_free(path@) ==> attr.printable(),
        ensures
            match r {
                Ok(query) => nul_free(path@) && nul_free(text_bytes(*attr)) && query.context
                    == self.context && query.function == self.functions.getxattr_fn
                    && query.fname@ == path@.push(0)
                    && (query.name matches Some(name) && name@ == text_bytes(*attr).push(0))
                    && query.size == 0,
                Err(e) => if nul_free(path@) {
                    nul_error(text_bytes(*attr), e)
                } else {
                    nul_error(path@, e)
                },
            },
    {
        match c_string(path) {
            Ok(fname) => match c_text(attr) {
                Ok(name) => Ok(
                    XAttrQuery {
                        context: self.context,
                        function: self.functions.getxattr_fn,
                        fname,
                        name: Some(name),
                        size: 0,
                    },
                ),
                Err(e) => Err(e),
            },
            Err(e) => Err(e),
        }
    }

    /// Prepares to list the extended attributes.
    pub fn listxattr(&self, path: &[u8]) -> (r: Result<XAttrQuery, Error>)
        ensures
            match r {
                Ok(query) => nul_free(path@) && query.context == self.context && query.function
                    == self.functions.listxattr_fn && query.fname@
                    == path@.push(0) && query.name is None && query.size == 0,
                Err(e) => nul_error(path@, e),
            },
    {
        match c_string(path) {
            Ok(fname) => Ok(
                XAttrQuery {
                    context: self.context,
                    function: self.functions.listxattr_fn,
                    fname,
                    name: None,
                    size: 0,
                },
            ),
            Err(e) => Err(e),
        }
    }

    /// Asks to remove an extended attribute.
    pub fn removexattr(&self, path: &[u8], attr: &SmbcXAttr) -> (r: Result<Request, Error>)
        requires
            nul_free(path@) ==> attr.printable(),
        ensures
            match r {
                Ok(request) => nul_free(path@) && nul_free(text_bytes(*attr)) && self.calls(
                    request,
                    self.functions.removexattr_fn,
                ) && (request.call matches Call::Removexattr { fname, name }
                    && fname@ == path@.push(0) && name@ == text_bytes(*attr).push(0)),
                Err(e) => if nul_free(path@) {
                    nul_error(text_bytes(*attr), e)
                } else {
                    nul_error(path@, e)
                },
            },
    {
        match c_string(path) {
            Ok(fname) => match c_text(attr) {
                Ok(name) => Ok(
                    self.request(self.functions.removexattr_fn, Call::Removexattr { fname, name }),
                ),
                Err(e) => Err(e),
            },
            Err(e) => Err(e),
        }
    }

    /// Asks to set an extended attribute. The size that goes with the value does not count its
    /// terminator. A NUL byte in the path is reported before one in the name of the attribute,
    /// and that one before one in the value.
    pub fn setxattr(
        &self,
        path: &[u8],
        attr: &SmbcXAttr,
        value: &SmbcXAttrValue,
        flags: XAttrFlags,
    ) -> (r: Result<Request, Error>)
        requires
            nul_free(path@) ==> attr.printable() && value.printable(),
        ensures
            match r {
                Ok(request) => nul_free(path@) && nul_free(text_bytes(*attr)) && nul_free(
                    text_bytes(*value),
                ) && self.calls(
                    request,
                    self.functions.setxattr_fn,
                ) && (request.call matches Call::Setxattr {
                    fname,
                    name,
                    value: v,
                    size,
                    flags: f,
                } && fname@ == path@.push(0) && name@ == text_bytes(*attr).push(0) && v@
                    == text_bytes(*value).push(0) && size == text_bytes(*value).len() && f
                    == flags@),
                Err(e) => if !nul_free(path@) {
                    nul_error(path@, e)
                } else if !nul_free(text_bytes(*attr)) {
                    nul_error(text_bytes(*attr), e)
                } else {
                    nul_error(text_bytes(*value), e)
                },
            },
    {
        let fname = match c_string(path) {
            Ok(fname) => fname,
            Err(e) => {
                return Err(e);
            },
        };
        let name = match c_text(attr) {
            Ok(name) => name,
            Err(e) => {
                return Err(e);
            },
        };
        let value = match c_text(value) {
            Ok(value) => value,
            Err(e) => {
                return Err(e);
            },
        };
        let size: usize = value.len() - 1;
        let call = Call::Setxattr { fname, name, value, size, flags: flags.bits() };
        Ok(self.request(self.functions.setxattr_fn, call))
    }
}

/// A question about extended attributes: for the value of the one that is named, or for the list
/// of all where none is named. It is asked twice, first for the size of the answer with a buffer
/// of no bytes, then with a buffer of the size that came back.
#[derive(Debug, Clone, PartialEq, Eq)]
pub struct XAttrQuery {
    pub context: usize,
    pub function: usize,
    pub fname: Vec<u8>,
    pub name: Option<Vec<u8>>,
    pub size: usize,
}

impl XAttrQuery {
    /// How many bytes the buffer has beyond the size that came back: one for the terminator of a
    /// value, none for a list.
    pub open spec fn spare(self) -> int {
        if self.name is Some {
            1
        } else {
            0
        }
    }

    /// The request asks this question, with a buffer of so many bytes.
    pub open spec fn asked_by(self, request: Request, bytes: int) -> bool {
        &&& request.context == self.context
        &&& request.function == self.function
        &&& match self.name {
            Some(n) => request.call matches Call::Getxattr { fname, name, size } && fname@
                == self.fname@ && name@ == n@ && size == bytes,
            None => request.call matches Call::Listxattr { fname, size } && fname@ == self.fname@
                && size == bytes,
        }
    }

    /// The question with a buffer for an answer of the size that came back.
    pub open spec fn resized(self, reply: Reply) -> XAttrQuery {
        XAttrQuery { size: (reply.value + self.spare()) as usize, ..self }
    }

    /// Asks with the buffer as large as it is now.
    pub fn request(&self) -> (r: Request)
        ensures
            self.asked_by(r, self.size as int),
    {
        let fname = copied(self.fname.as_slice());
        let size: usize = self.size;
        let call = match &self.name {
            Some(n) => Call::Getxattr { fname, name: copied(n.as_slice()), size },
            None => Call::Listxattr { fname, size },
        };
        Request { context: self.context, function: self.function, call }
    }

    /// Takes the size of the answer, and makes the buffer that large.
    pub fn resize(&mut self, reply: Reply) -> (r: Result<(), Error>)
        requires
            reply.value + old(self).spare() <= i32::MAX,
        ensures
            if reply.value < 0 {
                r == Err::<(), Error>(Error::Os(reply.errno)) && *final(self) == *old(self)
            } else {
                r == Ok::<(), Error>(()) && *final(self) == old(self).resized(reply)
            },
    {
        match to_result_with_le(reply) {
            Ok(len) => {
                self.size =
                match &self.name {
                    Some(_) => len as usize + 1,
                    None => len as usize,
                };
                Ok(())
            },
            Err(e) => Err(e),
        }
    }

    /// The answer: the whole buffer, if it was filled.
    pub fn answer(&self, buffer: Vec<u8>, reply: Reply) -> (r: Result<Vec<u8>, Error>)
        requires
            buffer@.len() == self.size,
        ensures
            r == (if reply.value < 0 {
                Err(Error::Os(reply.errno))
            } else {
                Ok(buffer)
            }),
    {
        match to_result_with_le(reply) {
            Ok(_) => Ok(buffer),
            Err(e) => Err(e),
        }
    }
}

/// The second question is the first one again, with a buffer of the size that came back and one
/// more byte for a value.
pub proof fn law_second_question_has_the_buffer(
    query: XAttrQuery,
    reply: Reply,
    first: Request,
    second: Request,
)
    requires
        query.size == 0,
        query.asked_by(first, query.size as int),
        0 <= reply.value,
        reply.value + query.spare() <= i32::MAX,
        query.resized(reply).asked_by(second, query.resized(reply).size as int),
    ensures
        query.asked_by(first, 0),
        query.asked_by(second, reply.value + query.spare()),
{
}

/// A file or directory that was opened is at the address that came back, in the context of the
/// client, and is used with the functions of the client.
pub proof fn law_opened_things_belong_to_the_client(client: Smbc, address: usize)
    ensures
        ({
            let file = client.file_at(address);
            &&& file.smbc == client.context
            &&& file.fd == address
            &&& file.fstat_fn == client.functions.address_spec(Function::Fstat)
            &&& file.ftruncate_fn == client.functions.address_spec(Function::Ftruncate)
            &&& file.lseek_fn == client.functions.address_spec(Function::Lseek)
            &&& file.read_fn == client.functions.address_spec(Function::Read)
            &&& file.write_fn == client.functions.address_spec(Function::Write)
        }),
        ({
            let dir = client.dir_at(address);
            &&& dir.smbc == client.context
            &&& dir.handle == address
            &&& dir.lseekdir_fn == client.functions.address_spec(Function::Lseekdir)
            &&& dir.readdir_fn == client.functions.address_spec(Function::Readdir)
            &&& dir.telldir_fn == client.functions.address_spec(Function::Telldir)
        }),
{
}

/// A request is for its function in the context of the client, and the bytes of a text decode to
/// the text.
pub proof fn law_requests_are_for_the_client(
    client: Smbc,
    request: Request,
    function: usize,
    attr: SmbcXAttr,
    value: SmbcXAttrValue,
)
    ensures
        client.calls(request, function) <==> request.context == client.context
            && request.function == function,
        decode_utf8(text_bytes(attr)) == attr.text() && valid_utf8(text_bytes(attr)),
        decode_utf8(text_bytes(value)) == value.text() && valid_utf8(text_bytes(value)),
{
    encode_utf8_decode_utf8(attr.text());
    encode_utf8_valid_utf8(attr.text());
    encode_utf8_decode_utf8(value.text());
    encode_utf8_valid_utf8(value.text());
}

/// A question about an attribute names the file and the attribute and says how large the buffer
/// is; one about all of them names the file. The buffer for a value has one byte more than the
/// size that came back, and that for a list has none more.
pub proof fn law_questions_name_what_they_ask(
    query: XAttrQuery,
    request: Request,
    bytes: int,
    reply: Reply,
)
    requires
        0 <= reply.value < i32::MAX,
    ensures
        query.asked_by(request, bytes) ==> request.context == query.context && request.function
            == query.function,
        query.asked_by(request, bytes) && query.name is Some ==>
            (request.call matches Call::Getxattr {
            fname,
            name,
            size,
        } && fname@ == query.fname@ && name@ == query.name->0@ && size == bytes),
        query.asked_by(request, bytes) && query.name is None ==>
            (request.call matches Call::Listxattr {
            fname,
            size,
        } && fname@ == query.fname@ && size == bytes),
        query.name is Some ==> query.resized(reply).size == reply.value + 1,
        query.name is None ==> query.resized(reply).size == reply.value,
        query.resized(reply).context == query.context,
        query.resized(reply).function == query.function,
        query.resized(reply).fname == query.fname,
        query.resized(reply).name == query.name,
{
}

} // verus!
