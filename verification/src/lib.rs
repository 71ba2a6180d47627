//! Verified core of a client for SMB shares on top of libsmbclient.
//!
//! The library calls libsmbclient nowhere. It builds and reads the texts and numbers that
//! libsmbclient takes and gives, it says which call is to be made with which arguments, and it says
//! what comes of the answer.
//!
//! * [`flags`] and [`mask`]: flag types, and the letters of an access mask.
//! * [`sid`], [`ace`] and [`xattr`]: security identifiers, access control entries, and the names
//!   and values of extended attributes.
//! * [`time`] and [`dir`]: timestamps, and entries of directories.
//! * [`call`], [`client`] and [`file`]: requests on paths and on open files and directories, and
//!   their replies.
//! * [`session`], [`functions`] and [`setup`]: credentials, the functions of a context, and the
//!   steps that set up a client.
//! * [`reading`] and [`laws`]: how the texts that are written are read back, and what holds of the
//!   functions taken together.

pub mod ace;
pub mod call;
pub mod client;
pub mod dir;
pub mod error;
pub mod file;
pub mod flags;
pub mod functions;
pub mod laws;
pub mod mask;
pub mod reading;
pub mod session;
pub mod setup;
pub mod sid;
pub mod text;
pub mod time;
pub mod xattr;

pub use crate::ace::{AceAtype, SidType, ACE};
pub use crate::client::{Smbc, XAttrQuery};
pub use crate::dir::{SmbcDirEntry, SmbcType};
pub use crate::error::Error;
pub use crate::file::{SmbcDirectory, SmbcFile};
pub use crate::flags::{AceFlag, DosMode, XAttrFlags, XAttrMask};
pub use crate::sid::{sid_parse, Sid};
pub use crate::text::{separated, Text};
pub use crate::time::{
    num_hours, num_microseconds, num_milliseconds, num_minutes, num_seconds, stat_hours,
    stat_microseconds, stat_milliseconds, stat_minutes, stat_seconds, TimeSpec, TimeVal,
};
pub use crate::xattr::{
    SmbcAclAttr, SmbcAclValue, SmbcDosAttr, SmbcDosValue, SmbcExclude, SmbcXAttr, SmbcXAttrValue,
};
