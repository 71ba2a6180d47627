//! Errors of the library.

use vstd::prelude::*;

verus! {

/// What went wrong.
#[derive(Debug, Clone, PartialEq, Eq)]
pub enum Error {
    /// An attribute or an access control entry that makes no sense, and why.
    SmbcXAttrError(String),
    /// A text for libsmbclient holds a NUL byte; the position of the first one.
    NulError(usize),
    /// An error of the operating system, by its number.
    Os(i32),
    /// Data that is not of the expected form, and why.
    InvalidData(String),
}

impl Error {
    /// This is an attribute error with the given message.
    pub open spec fn is_xattr_error(self, message: Seq<char>) -> bool {
        self matches Error::SmbcXAttrError(m) && m@ == message
    }

    /// This is an error about malformed data with the given message.
    pub open spec fn is_invalid_data(self, message: Seq<char>) -> bool {
        self matches Error::InvalidData(m) && m@ == message
    }
}

/// An error has the message that it is said to have, and is of the kind that it is said to be.
pub proof fn law_errors_have_their_messages(e: Error, message: Seq<char>)
    ensures
        e.is_xattr_error(message) <==> (e matches Error::SmbcXAttrError(m) && m@ == message),
        e.is_invalid_data(message) <==> (e matches Error::InvalidData(m) && m@ == message),
{
}

} // verus!
