//! Requests on paths.

use vstd::prelude::*;
use vstd::utf8::*;
use crate::call::{c_string, nul_error, nul_free, Call, Reply, Request};
use crate::client::{Smbc, XAttrQuery};
use crate::error::Error;
use crate::file::{SmbcDirectory, SmbcFile};
use crate::flags::XAttrFlags;
use crate::text::Text;
use crate::time::TimeVal;
use crate::xattr::{SmbcXAttr, SmbcXAttrValue};

verus! {

/// A text for libsmbclient is the bytes, with a NUL byte behind them.
pub open spec fn is_c_text(text: Seq<u8>, bytes: Seq<u8>) -> bool {
    text.len() == bytes.len() + 1 && text.drop_last() == bytes && text.last() == 0
}

/// The error tells where the first NUL byte of the bytes is.
pub open spec fn tells_nul(e: Error, bytes: Seq<u8>) -> bool {
    e matches Error::NulError(at) && at < bytes.len() && bytes[at as int] == 0 && !bytes.take(
        at as int,
    ).contains(0)
}

proof fn lemma_nul(bytes: Seq<u8>, e: Error)
    ensures
        nul_free(bytes) <==> !bytes.contains(0),
        nul_error(bytes, e) ==> tells_nul(e, bytes) && bytes.contains(0),
        is_c_text(bytes.push(0), bytes),
{
    assert(bytes.push(0).drop_last() == bytes);
    if !bytes.contains(0) {
        assert forall|i: int| 0 <= i < bytes.len() implies bytes[i] != 0 by {
            assert(bytes.contains(bytes[i]));
        }
    }
    if nul_error(bytes, e) {
        let at = e->NulError_0 as int;
        assert(bytes.contains(bytes[at]));
        assert forall|i: int| 0 <= i < bytes.take(at).len() implies bytes.take(at)[i] != 0 by {
        }
    }
}

/// Bytes become a text for libsmbclient exactly where none of them is NUL, and are refused with the
/// place of the first NUL byte elsewhere.
pub proof fn law_c_string(bytes: &[u8], r: Result<Vec<u8>, Error>)
    requires
        call_ensures(c_string, (bytes,), r),
    ensures
        !bytes@.contains(0) ==> (r matches Ok(v) && is_c_text(v@, bytes@)),
        bytes@.contains(0) ==> (r matches Err(e) && tells_nul(e, bytes@)),
        call_requires(c_string, (bytes,)),
{
    if let Err(e) = r {
        lemma_nul(bytes@, e);
    }
    lemma_nul(bytes@, Error::Os(0));
}

/// A request that creates a file is made exactly where the path has no NUL byte. It calls the
/// function for it in the context of the client, with the path and the other arguments as they were
/// given.
pub proof fn law_create(client: &Smbc, path: &[u8], mode: u32, r: Result<Request, Error>)
    requires
        call_ensures(Smbc::create, (client, path, mode), r),
    ensures
        !path@.contains(0) ==> (r matches Ok(request) && request.context == client.context
            && request.function == client.functions.creat_fn && (request.call matches Call::Creat {
            fname, mode: m,
        } && is_c_text(fname@, path@) && m == mode)),
        path@.contains(0) ==> (r matches Err(e) && tells_nul(e, path@)),
        call_requires(Smbc::create, (client, path, mode)),
{
    if let Err(e) = r {
        lemma_nul(path@, e);
    }
    lemma_nul(path@, Error::Os(0));
}

/// A request that changes attributes is made exactly where the path has no NUL byte. It calls the
/// function for it in the context of the client, with the path and the other arguments as they were
/// given.
pub proof fn law_chmod(client: &Smbc, path: &[u8], mode: u32, r: Result<Request, Error>)
    requires
        call_ensures(Smbc::chmod, (client, path, mode), r),
    ensures
        !path@.contains(0) ==> (r matches Ok(request) && request.context == client.context
            && request.function == client.functions.chmod_fn && (request.call matches Call::Chmod {
            fname, mode: m,
        } && is_c_text(fname@, path@) && m == mode)),
        path@.contains(0) ==> (r matches Err(e) && tells_nul(e, path@)),
        call_requires(Smbc::chmod, (client, path, mode)),
{
    if let Err(e) = r {
        lemma_nul(path@, e);
    }
    lemma_nul(path@, Error::Os(0));
}

/// A request that opens a file is made exactly where the path has no NUL byte. It calls the
/// function for it in the context of the client, with the path and the other arguments as they were
/// given.
pub proof fn law_open(client: &Smbc, path: &[u8], flags: i32, mode: u32, r: Result<Request, Error>)
    requires
        call_ensures(Smbc::open, (client, path, flags, mode), r),
    ensures
        !path@.contains(0) ==> (r matches Ok(request) && request.context == client.context
            && request.function == client.functions.open_fn && (request.call matches Call::Open {
            fname, flags: f, mode: m,
        } && is_c_text(fname@, path@) && f == flags && m == mode)),
        path@.contains(0) ==> (r matches Err(e) && tells_nul(e, path@)),
        call_requires(Smbc::open, (client, path, flags, mode)),
{
    if let Err(e) = r {
        lemma_nul(path@, e);
    }
    lemma_nul(path@, Error::Os(0));
}

/// A request that opens a directory is made exactly where the path has no NUL byte. It calls the
/// function for it in the context of the client, with the path and the other arguments as they were
/// given.
pub proof fn law_opendir(client: &Smbc, path: &[u8], r: Result<Request, Error>)
    requires
        call_ensures(Smbc::opendir, (client, path), r),
    ensures
        !path@.contains(0) ==> (r matches Ok(request) && request.context == client.context
            && request.function == client.functions.opendir_fn
            && (request.call matches Call::Opendir {
            fname,
        } && is_c_text(fname@, path@))),
        path@.contains(0) ==> (r matches Err(e) && tells_nul(e, path@)),
        call_requires(Smbc::opendir, (client, path)),
{
    if let Err(e) = r {
        lemma_nul(path@, e);
    }
    lemma_nul(path@, Error::Os(0));
}

/// A request that makes a directory is made exactly where the path has no NUL byte. It calls the
/// function for it in the context of the client, with the path and the other arguments as they were
/// given.
pub proof fn law_mkdir(client: &Smbc, path: &[u8], mode: u32, r: Result<Request, Error>)
    requires
        call_ensures(Smbc::mkdir, (client, path, mode), r),
    ensures
        !path@.contains(0) ==> (r matches Ok(request) && request.context == client.context
            && request.function == client.functions.mkdir_fn && (request.call matches Call::Mkdir {
            fname, mode: m,
        } && is_c_text(fname@, path@) && m == mode)),
        path@.contains(0) ==> (r matches Err(e) && tells_nul(e, path@)),
        call_requires(Smbc::mkdir, (client, path, mode)),
{
    if let Err(e) = r {
        lemma_nul(path@, e);
    }
    lemma_nul(path@, Error::Os(0));
}

/// A request that removes a directory is made exactly where the path has no NUL byte. It calls the
/// function for it in the context of the client, with the path and the other arguments as they were
/// given.
pub proof fn law_rmdir(client: &Smbc, path: &[u8], r: Result<Request, Error>)
    requires
        call_ensures(Smbc::rmdir, (client, path), r),
    ensures
        !path@.contains(0) ==> (r matches Ok(request) && request.context == client.context
            && request.function == client.functions.rmdir_fn && (request.call matches Call::Rmdir {
            fname,
        } && is_c_text(fname@, path@))),
        path@.contains(0) ==> (r matches Err(e) && tells_nul(e, path@)),
        call_requires(Smbc::rmdir, (client, path)),
{
    if let Err(e) = r {
        lemma_nul(path@, e);
    }
    lemma_nul(path@, Error::Os(0));
}

/// A request that asks for meta attributes is made exactly where the path has no NUL byte. It calls
/// the function for it in the context of the client, with the path and the other arguments as they
/// were given.
pub proof fn law_stat(client: &Smbc, path: &[u8], r: Result<Request, Error>)
    requires
        call_ensures(Smbc::stat, (client, path), r),
    ensures
        !path@.contains(0) ==> (r matches Ok(request) && request.context == client.context
            && request.function == client.functions.stat_fn && (request.call matches Call::Stat {
            fname,
        } && is_c_text(fname@, path@))),
        path@.contains(0) ==> (r matches Err(e) && tells_nul(e, path@)),
        call_requires(Smbc::stat, (client, path)),
{
    if let Err(e) = r {
        lemma_nul(path@, e);
    }
    lemma_nul(path@, Error::Os(0));
}

/// A request that deletes a file is made exactly where the path has no NUL byte. It calls the
/// function for it in the context of the client, with the path and the other arguments as they were
/// given.
pub proof fn law_unlink(client: &Smbc, path: &[u8], r: Result<Request, Error>)
    requires
        call_ensures(Smbc::unlink, (client, path), r),
    ensures
        !path@.contains(0) ==> (r matches Ok(request) && request.context == client.context
            && request.function == client.functions.unlink_fn
            && (request.call matches Call::Unlink {
            fname,
        } && is_c_text(fname@, path@))),
        path@.contains(0) ==> (r matches Err(e) && tells_nul(e, path@)),
        call_requires(Smbc::unlink, (client, path)),
{
    if let Err(e) = r {
        lemma_nul(path@, e);
    }
    lemma_nul(path@, Error::Os(0));
}

/// A request that changes times is made exactly where the path has no NUL byte. It calls the
/// function for it in the context of the client, with the path and the other arguments as they were
/// given.
pub proof fn law_utimes(client: &Smbc, path: &[u8], tbuf: Vec<TimeVal>, r: Result<Request, Error>)
    requires
        call_ensures(Smbc::utimes, (client, path, tbuf), r),
    ensures
        !path@.contains(0) ==> (r matches Ok(request) && request.context == client.context
            && request.function == client.functions.utimes_fn
            && (request.call matches Call::Utimes {
            fname, tbuf: t,
        } && is_c_text(fname@, path@) && t@ == tbuf@)),
        path@.contains(0) ==> (r matches Err(e) && tells_nul(e, path@)),
        tbuf@.len() >= 2 ==> call_requires(Smbc::utimes, (client, path, tbuf)),
{
    if let Err(e) = r {
        lemma_nul(path@, e);
    }
    lemma_nul(path@, Error::Os(0));
}

/// A request that renames is made exactly where neither path has a NUL byte; one in the old path is
/// told first.
pub proof fn law_rename(client: &Smbc, old_path: &[u8], new_path: &[u8], r: Result<Request, Error>)
    requires
        call_ensures(Smbc::rename, (client, old_path, new_path), r),
    ensures
        !old_path@.contains(0) && !new_path@.contains(0) ==> (r matches Ok(request)
            && request.context == client.context && request.function == client.functions.rename_fn
            && (request.call matches Call::Rename { oname, nname } && is_c_text(
            oname@,
            old_path@,
        ) && is_c_text(nname@, new_path@))),
        old_path@.contains(0) ==> (r matches Err(e) && tells_nul(e, old_path@)),
        !old_path@.contains(0) && new_path@.contains(0) ==> (r matches Err(e) && tells_nul(
            e,
            new_path@,
        )),
        call_requires(Smbc::rename, (client, old_path, new_path)),
{
    if let Err(e) = r {
        lemma_nul(old_path@, e);
        lemma_nul(new_path@, e);
    }
    lemma_nul(old_path@, Error::Os(0));
    lemma_nul(new_path@, Error::Os(0));
}

/// A request that removes an attribute names the file and the attribute; a NUL byte in the path is
/// told before one in the name.
pub proof fn law_removexattr(
    client: &Smbc,
    path: &[u8],
    attr: &SmbcXAttr,
    r: Result<Request, Error>,
)
    requires
        call_ensures(Smbc::removexattr, (client, path, attr), r),
    ensures
        ({
            let text = encode_utf8(attr.text());
            &&& !path@.contains(0) && !text.contains(0) ==> (r matches Ok(request)
                && request.context == client.context && request.function
                == client.functions.removexattr_fn && (request.call matches Call::Removexattr {
                fname,
                name,
            } && is_c_text(fname@, path@) && is_c_text(name@, text)))
            &&& path@.contains(0) ==> (r matches Err(e) && tells_nul(e, path@))
            &&& !path@.contains(0) && text.contains(0) ==> (r matches Err(e) && tells_nul(e, text))
        }),
        attr.printable() || path@.contains(0) ==> call_requires(
            Smbc::removexattr,
            (client, path, attr),
        ),
{
    let text = encode_utf8(attr.text());
    if let Err(e) = r {
        lemma_nul(path@, e);
        lemma_nul(text, e);
    }
    lemma_nul(path@, Error::Os(0));
    lemma_nul(text, Error::Os(0));
}

/// A request that sets an attribute names the file and the attribute, holds the whole text of the
/// value, and says how many bytes that text has. NUL bytes are told in this order: path, name,
/// value.
pub proof fn law_setxattr(
    client: &Smbc,
    path: &[u8],
    attr: &SmbcXAttr,
    value: &SmbcXAttrValue,
    flags: XAttrFlags,
    r: Result<Request, Error>,
)
    requires
        call_ensures(Smbc::setxattr, (client, path, attr, value, flags), r),
    ensures
        ({
            let text = encode_utf8(attr.text());
            let bytes = encode_utf8(value.text());
            &&& !path@.contains(0) && !text.contains(0) && !bytes.contains(0) ==> (r matches Ok(
                request,
            ) && request.context == client.context && request.function
                == client.functions.setxattr_fn && (request.call matches Call::Setxattr {
                fname,
                name,
                value: v,
                size,
                flags: f,
            } && is_c_text(fname@, path@) && is_c_text(name@, text) && is_c_text(v@, bytes)
                && size == bytes.len() && f == flags@))
            &&& path@.contains(0) ==> (r matches Err(e) && tells_nul(e, path@))
            &&& !path@.contains(0) && text.contains(0) ==> (r matches Err(e) && tells_nul(e, text))
            &&& !path@.contains(0) && !text.contains(0) && bytes.contains(0) ==> (r matches Err(e)
                && tells_nul(e, bytes))
        }),
        attr.printable() && value.printable() || path@.contains(0) ==> call_requires(
            Smbc::setxattr,
            (client, path, attr, value, flags),
        ),
{
    let text = encode_utf8(attr.text());
    let bytes = encode_utf8(value.text());
    if let Err(e) = r {
        lemma_nul(path@, e);
        lemma_nul(text, e);
        lemma_nul(bytes, e);
    }
    lemma_nul(path@, Error::Os(0));
    lemma_nul(text, Error::Os(0));
    lemma_nul(bytes, Error::Os(0));
}

/// A question about an attribute is put exactly where neither the path nor the name has a NUL byte,
/// and first asks for the size: with a buffer of no bytes.
pub proof fn law_getxattr(
    client: &Smbc,
    path: &[u8],
    attr: &SmbcXAttr,
    r: Result<XAttrQuery, Error>,
    query: &XAttrQuery,
    request: Request,
)
    requires
        call_ensures(Smbc::getxattr, (client, path, attr), r),
        call_ensures(XAttrQuery::request, (query,), request),
    ensures
        ({
            let text = encode_utf8(attr.text());
            &&& !path@.contains(0) && !text.contains(0) ==> r is Ok
            &&& r == Ok::<XAttrQuery, Error>(*query) ==> request.context == client.context
                && request.function == client.functions.getxattr_fn && (
            request.call matches Call::Getxattr { fname, name, size } && is_c_text(fname@, path@)
                && is_c_text(name@, text) && size == 0)
            &&& path@.contains(0) ==> (r matches Err(e) && tells_nul(e, path@))
            &&& !path@.contains(0) && text.contains(0) ==> (r matches Err(e) && tells_nul(e, text))
        }),
        attr.printable() || path@.contains(0) ==> call_requires(
            Smbc::getxattr,
            (client, path, attr),
        ),
{
    let text = encode_utf8(attr.text());
    if let Err(e) = r {
        lemma_nul(path@, e);
        lemma_nul(text, e);
    }
    lemma_nul(path@, Error::Os(0));
    lemma_nul(text, Error::Os(0));
}

/// A question about all attributes is put exactly where the path has no NUL byte, and first asks
/// for the size: with a buffer of no bytes.
pub proof fn law_listxattr(
    client: &Smbc,
    path: &[u8],
    r: Result<XAttrQuery, Error>,
    query: &XAttrQuery,
    request: Request,
)
    requires
        call_ensures(Smbc::listxattr, (client, path), r),
        call_ensures(XAttrQuery::request, (query,), request),
    ensures
        !path@.contains(0) ==> r is Ok,
        r == Ok::<XAttrQuery, Error>(*query) ==> request.context == client.context
            && request.function == client.functions.listxattr_fn && (
        request.call matches Call::Listxattr { fname, size } && is_c_text(fname@, path@) && size
            == 0),
        path@.contains(0) ==> (r matches Err(e) && tells_nul(e, path@)),
        call_requires(Smbc::listxattr, (client, path)),
{
    if let Err(e) = r {
        lemma_nul(path@, e);
    }
    lemma_nul(path@, Error::Os(0));
}

/// The second question is put again for the same file and attribute, with a buffer for an answer of
/// the size that came back and one byte more for a value; a failed first one changes nothing.
pub proof fn law_resize(
    query: &mut XAttrQuery,
    reply: Reply,
    r: Result<(), Error>,
    asked: &XAttrQuery,
    request: Request,
)
    requires
        call_ensures(XAttrQuery::resize, (query, reply), r),
        call_ensures(XAttrQuery::request, (asked,), request),
        *asked == *final(query),
        reply.value < i32::MAX,
    ensures
        reply.value < 0 ==> r == Err::<(), Error>(Error::Os(reply.errno)) && *final(query) == *old(
            query,
        ),
        reply.value >= 0 ==> r == Ok::<(), Error>(()),
        reply.value >= 0 && old(query).name is Some ==> (request.call matches Call::Getxattr {
            fname,
            name,
            size,
        } && fname@ == old(query).fname@ && name@ == old(query).name->0@ && size == reply.value
            + 1),
        reply.value >= 0 && old(query).name is None ==> (request.call matches Call::Listxattr {
            fname,
            size,
        } && fname@ == old(query).fname@ && size == reply.value),
        reply.value >= 0 ==> request.context == old(query).context && request.function == old(
            query,
        ).function,
{
}

/// The answer is the whole buffer, or the error of the call.
pub proof fn law_answer(
    query: &XAttrQuery,
    buffer: Vec<u8>,
    reply: Reply,
    r: Result<Vec<u8>, Error>,
)
    requires
        call_ensures(XAttrQuery::answer, (query, buffer, reply), r),
    ensures
        reply.value >= 0 ==> (r matches Ok(v) && v@ == buffer@),
        reply.value < 0 ==> r == Err::<Vec<u8>, Error>(Error::Os(reply.errno)),
        buffer@.len() == query.size ==> call_requires(
            XAttrQuery::answer,
            (query, buffer, reply),
        ),
{
}

/// What was opened is at the address that came back, in the context of the client, with each of
/// its functions that of the client; the null address is the error of the operating system.
pub proof fn law_opened(
    client: &Smbc,
    address: usize,
    errno: i32,
    file: Result<SmbcFile, Error>,
    dir: Result<SmbcDirectory, Error>,
)
    requires
        call_ensures(Smbc::opened, (client, address, errno), file),
        call_ensures(Smbc::opened_dir, (client, address, errno), dir),
    ensures
        address == 0 ==> file == Err::<SmbcFile, Error>(Error::Os(errno)),
        address == 0 ==> dir == Err::<SmbcDirectory, Error>(Error::Os(errno)),
        address != 0 ==> (file matches Ok(f) && f.smbc == client.context && f.fd == address
            && f.fstat_fn == client.functions.fstat_fn && f.ftruncate_fn
            == client.functions.ftruncate_fn && f.lseek_fn == client.functions.lseek_fn && f.read_fn
            == client.functions.read_fn && f.write_fn == client.functions.write_fn),
        address != 0 ==> (dir matches Ok(d) && d.smbc == client.context && d.handle == address
            && d.lseekdir_fn == client.functions.lseekdir_fn && d.readdir_fn
            == client.functions.readdir_fn && d.telldir_fn == client.functions.telldir_fn),
{
}

} // verus!
