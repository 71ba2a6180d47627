//! Names and values of extended attributes.

use vstd::prelude::*;
use vstd::utf8::*;
use crate::ace::ACE;
use crate::flags::DosMode;
use crate::reading::{
    after, before, law_decimal_reads_back, law_hexadecimal_reads_back, law_texts_are_cut,
    reads_decimal, reads_hexadecimal,
};
use crate::sid::{ends_sid, law_sid_text_reads_back, sid_of, sid_text, Sid};
use crate::text::{
    decimal, hexadecimal, is_joinable, joinable, joined, law_lists_are_joined, push_hexadecimal,
    push_signed, push_unsigned, separated, texts, Text,
};

verus! {

/// An attribute that can be left out of a request for all attributes. Not all of them may be.
#[derive(Debug, Clone, Copy, PartialEq, Eq, Structural)]
pub enum SmbcExclude {
    /// Revision.
    Rev,
    /// Owner.
    Own,
    /// Group.
    Grp,
    /// List of access control entries.
    Acl,
    /// DOS mode.
    Mod,
    /// Size.
    Siz,
    /// Time of change.
    Ctm,
    /// Time of access.
    Atm,
    /// Time of modification.
    Mtm,
    /// Inode.
    Ino,
}

impl Text for SmbcExclude {
    open spec fn text(&self) -> Seq<char> {
        match *self {
            SmbcExclude::Rev => "nt_sec_desc.revision"@,
            SmbcExclude::Own => "nt_sec_desc.owner"@,
            SmbcExclude::Grp => "nt_sec_desc.group"@,
            SmbcExclude::Acl => "nt_sec_desc.acl"@,
            SmbcExclude::Mod => "dos_attr.mode"@,
            SmbcExclude::Siz => "dos_attr.size"@,
            SmbcExclude::Ctm => "dos_attr.c_time"@,
            SmbcExclude::Atm => "dos_attr.a_time"@,
            SmbcExclude::Mtm => "dos_attr.m_time"@,
            SmbcExclude::Ino => "dos_attr.inode"@,
        }
    }

    open spec fn printable(&self) -> bool {
        true
    }

    fn is_printable(&self) -> (r: bool) {
        true
    }

    fn to_string(&self) -> (s: String) {
        match self {
            SmbcExclude::Rev => "nt_sec_desc.revision".to_owned(),
            SmbcExclude::Own => "nt_sec_desc.owner".to_owned(),
            SmbcExclude::Grp => "nt_sec_desc.group".to_owned(),
            SmbcExclude::Acl => "nt_sec_desc.acl".to_owned(),
            SmbcExclude::Mod => "dos_attr.mode".to_owned(),
            SmbcExclude::Siz => "dos_attr.size".to_owned(),
            SmbcExclude::Ctm => "dos_attr.c_time".to_owned(),
            SmbcExclude::Atm => "dos_attr.a_time".to_owned(),
            SmbcExclude::Mtm => "dos_attr.m_time".to_owned(),
            SmbcExclude::Ino => "dos_attr.inode".to_owned(),
        }
    }
}

/// A head and the exclusions after it, with exclamation marks between them.
pub open spec fn excluding(head: Seq<char>, excluded: Seq<SmbcExclude>) -> Seq<char> {
    head + joined(texts(excluded), "!"@)
}

fn exclude(head: &str, excluded: &Vec<SmbcExclude>) -> (s: String)
    requires
        excluded@.len() > 0,
    ensures
        s@ == excluding(head@, excluded@),
{
    let mut s = head.to_owned();
    let list = separated(excluded.as_slice(), "!");
    s.append(list.as_str());
    s
}

fn extended(head: &str, rest: String) -> (s: String)
    ensures
        s@ == head@ + rest@,
{
    let mut s = head.to_owned();
    s.append(rest.as_str());
    s
}

/// Name of a DOS attribute.
#[derive(Debug, Clone, PartialEq, Eq)]
pub enum SmbcDosAttr {
    /// All of them.
    All,
    /// All but some; only for reading.
    AllExclude(Vec<SmbcExclude>),
    /// Time of access.
    Atime,
    /// Time of change.
    Ctime,
    /// DOS mode.
    Mode,
    /// Time of modification.
    Mtime,
    /// Inode.
    Inode,
    /// Size.
    Size,
}

impl Text for SmbcDosAttr {
    open spec fn text(&self) -> Seq<char> {
        match *self {
            SmbcDosAttr::All => "system.dos_attr.*"@,
            SmbcDosAttr::AllExclude(s) => excluding("system.dos_attr.*!"@, s@),
            SmbcDosAttr::Atime => "system.dos_attr.a_time"@,
            SmbcDosAttr::Ctime => "system.dos_attr.c_time"@,
            SmbcDosAttr::Mode => "system.dos_attr.mode"@,
            SmbcDosAttr::Mtime => "system.dos_attr.m_time"@,
            SmbcDosAttr::Inode => "system.dos_attr.inode"@,
            SmbcDosAttr::Size => "system.dos_attr.size"@,
        }
    }

    open spec fn printable(&self) -> bool {
        *self matches SmbcDosAttr::AllExclude(s) ==> s@.len() > 0
    }

    fn is_printable(&self) -> (r: bool) {
        match self {
            SmbcDosAttr::AllExclude(s) => s.len() > 0,
            _ => true,
        }
    }

    fn to_string(&self) -> (s: String) {
        match self {
            SmbcDosAttr::All => "system.dos_attr.*".to_owned(),
            SmbcDosAttr::AllExclude(s) => exclude("system.dos_attr.*!", s),
            SmbcDosAttr::Atime => "system.dos_attr.a_time".to_owned(),
            SmbcDosAttr::Ctime => "system.dos_attr.c_time".to_owned(),
            SmbcDosAttr::Mode => "system.dos_attr.mode".to_owned(),
            SmbcDosAttr::Mtime => "system.dos_attr.m_time".to_owned(),
            SmbcDosAttr::Inode => "system.dos_attr.inode".to_owned(),
            SmbcDosAttr::Size => "system.dos_attr.size".to_owned(),
        }
    }
}

/// Name of a part of the security descriptor. A plus asks for names in place of identifiers.
#[derive(Debug, Clone, PartialEq, Eq)]
pub enum SmbcAclAttr {
    /// One numeric entry; only for removing.
    Acl(ACE),
    /// One named entry; only for removing.
    AclPlus(ACE),
    /// All entries.
    AclAll,
    /// All entries, named.
    AclAllPlus,
    /// A numeric entry; only for setting.
    AclNone,
    /// A named entry; only for setting.
    AclNonePlus,
    /// The numeric entry of an identifier; only for reading.
    AclSid(Sid),
    /// The named entry of an identifier; only for reading.
    AclSidPlus(Sid),
    /// The whole descriptor.
    All,
    /// The whole descriptor, named.
    AllPlus,
    /// The descriptor but for some parts; only for reading.
    AllExclude(Vec<SmbcExclude>),
    /// The descriptor but for some parts, named; only for reading.
    AllExcludePlus(Vec<SmbcExclude>),
    /// Group.
    Group,
    /// Group, named.
    GroupPlus,
    /// Revision.
    Revision,
    /// Owner.
    Owner,
    /// Owner, named.
    OwnerPlus,
}

impl Text for SmbcAclAttr {
    open spec fn text(&self) -> Seq<char> {
        match *self {
            SmbcAclAttr::Acl(ace) => "system.nt_sec_desc.acl:"@ + ace.text(),
            SmbcAclAttr::AclAll => "system.nt_sec_desc.acl.*"@,
            SmbcAclAttr::AclAllPlus => "system.nt_sec_desc.acl.*+"@,
            SmbcAclAttr::AclNone => "system.nt_sec_desc.acl"@,
            SmbcAclAttr::AclNonePlus => "system.nt_sec_desc.acl+"@,
            SmbcAclAttr::AclPlus(ace) => "system.nt_sec_desc.acl+:"@ + ace.text(),
            SmbcAclAttr::AclSid(sid) => "system.nt_sec_desc.acl"@ + sid.text(),
            SmbcAclAttr::AclSidPlus(sid) => "system.nt_sec_desc.acl+"@ + sid.text(),
            SmbcAclAttr::All => "system.nt_sec_desc.*"@,
            SmbcAclAttr::AllPlus => "system.nt_sec_desc.*+"@,
            SmbcAclAttr::AllExclude(s) => excluding("system.nt_sec_desc.*!"@, s@),
            SmbcAclAttr::AllExcludePlus(s) => excluding("system.nt_sec_desc.*+!"@, s@),
            SmbcAclAttr::Group => "system.nt_sec_desc.group"@,
            SmbcAclAttr::GroupPlus => "system.nt_sec_desc.group+"@,
            SmbcAclAttr::Revision => "system.nt_sec_desc.revision"@,
            SmbcAclAttr::Owner => "system.nt_sec_desc.owner"@,
            SmbcAclAttr::OwnerPlus => "system.nt_sec_desc.owner+"@,
        }
    }

    open spec fn printable(&self) -> bool {
        match *self {
            SmbcAclAttr::Acl(ace) => ace.printable(),
            SmbcAclAttr::AclPlus(ace) => ace.printable(),
            SmbcAclAttr::AclSid(sid) => sid.printable(),
            SmbcAclAttr::AclSidPlus(sid) => sid.printable(),
            SmbcAclAttr::AllExclude(s) => s@.len() > 0,
            SmbcAclAttr::AllExcludePlus(s) => s@.len() > 0,
            _ => true,
        }
    }

    fn is_printable(&self) -> (r: bool) {
        match self {
            SmbcAclAttr::Acl(ace) => ace.is_printable(),
            SmbcAclAttr::AclPlus(ace) => ace.is_printable(),
            SmbcAclAttr::AclSid(sid) => sid.is_printable(),
            SmbcAclAttr::AclSidPlus(sid) => sid.is_printable(),
            SmbcAclAttr::AllExclude(s) => s.len() > 0,
            SmbcAclAttr::AllExcludePlus(s) => s.len() > 0,
            _ => true,
        }
    }

    fn to_string(&self) -> (s: String) {
        match self {
            SmbcAclAttr::Acl(ace) => extended("system.nt_sec_desc.acl:", ace.to_string()),
            SmbcAclAttr::AclAll => "system.nt_sec_desc.acl.*".to_owned(),
            SmbcAclAttr::AclAllPlus => "system.nt_sec_desc.acl.*+".to_owned(),
            SmbcAclAttr::AclNone => "system.nt_sec_desc.acl".to_owned(),
            SmbcAclAttr::AclNonePlus => "system.nt_sec_desc.acl+".to_owned(),
            SmbcAclAttr::AclPlus(ace) => extended("system.nt_sec_desc.acl+:", ace.to_string()),
            SmbcAclAttr::AclSid(sid) => extended("system.nt_sec_desc.acl", sid.to_string()),
            SmbcAclAttr::AclSidPlus(sid) => extended("system.nt_sec_desc.acl+", sid.to_string()),
            SmbcAclAttr::All => "system.nt_sec_desc.*".to_owned(),
            SmbcAclAttr::AllPlus => "system.nt_sec_desc.*+".to_owned(),
            SmbcAclAttr::AllExclude(s) => exclude("system.nt_sec_desc.*!", s),
            SmbcAclAttr::AllExcludePlus(s) => exclude("system.nt_sec_desc.*+!", s),
            SmbcAclAttr::Group => "system.nt_sec_desc.group".to_owned(),
            SmbcAclAttr::GroupPlus => "system.nt_sec_desc.group+".to_owned(),
            SmbcAclAttr::Revision => "system.nt_sec_desc.revision".to_owned(),
            SmbcAclAttr::Owner => "system.nt_sec_desc.owner".to_owned(),
            SmbcAclAttr::OwnerPlus => "system.nt_sec_desc.owner+".to_owned(),
        }
    }
}

/// Name of an extended attribute.
#[derive(Debug, Clone, PartialEq, Eq)]
pub enum SmbcXAttr {
    /// All of them.
    All,
    /// All of them, named.
    AllPlus,
    /// All but some; only for reading.
    AllExclude(Vec<SmbcExclude>),
    /// All but some, named; only for reading.
    AllExcludePlus(Vec<SmbcExclude>),
    /// A DOS attribute.
    DosAttr(SmbcDosAttr),
    /// A part of the security descriptor.
    AclAttr(SmbcAclAttr),
}

impl Text for SmbcXAttr {
    open spec fn text(&self) -> Seq<char> {
        match *self {
            SmbcXAttr::All => "system.*"@,
            SmbcXAttr::AllPlus => "system.*+"@,
            SmbcXAttr::AllExclude(s) => excluding("system.*!"@, s@),
            SmbcXAttr::AllExcludePlus(s) => excluding("system.*+!"@, s@),
            SmbcXAttr::DosAttr(d) => d.text(),
            SmbcXAttr::AclAttr(a) => a.text(),
        }
    }

    open spec fn printable(&self) -> bool {
        match *self {
            SmbcXAttr::AllExclude(s) => s@.len() > 0,
            SmbcXAttr::AllExcludePlus(s) => s@.len() > 0,
            SmbcXAttr::DosAttr(d) => d.printable(),
            SmbcXAttr::AclAttr(a) => a.printable(),
            _ => true,
        }
    }

    fn is_printable(&self) -> (r: bool) {
        match self {
            SmbcXAttr::AllExclude(s) => s.len() > 0,
            SmbcXAttr::AllExcludePlus(s) => s.len() > 0,
            SmbcXAttr::DosAttr(d) => d.is_printable(),
            SmbcXAttr::AclAttr(a) => a.is_printable(),
            _ => true,
        }
    }

    fn to_string(&self) -> (s: String) {
        match self {
            SmbcXAttr::All => "system.*".to_owned(),
            SmbcXAttr::AllPlus => "system.*+".to_owned(),
            SmbcXAttr::AllExclude(s) => exclude("system.*!", s),
            SmbcXAttr::AllExcludePlus(s) => exclude("system.*+!", s),
            SmbcXAttr::DosAttr(d) => d.to_string(),
            SmbcXAttr::AclAttr(a) => a.to_string(),
        }
    }
}

/// Value of a part of the security descriptor.
#[derive(Debug, Clone, PartialEq, Eq)]
pub enum SmbcAclValue {
    /// A numeric entry.
    Acl(ACE),
    /// A named entry.
    AclPlus(ACE),
    /// The numeric group.
    Group(Sid),
    /// The named group.
    GroupPlus(String),
    /// The numeric owner.
    Owner(Sid),
    /// The named owner.
    OwnerPlus(String),
    /// The revision; only 1 is safe.
    Revision(u64),
}

impl Text for SmbcAclValue {
    open spec fn text(&self) -> Seq<char> {
        match *self {
            SmbcAclValue::Acl(ace) => "ACL:"@ + ace.text(),
            SmbcAclValue::AclPlus(ace) => "ACL+:"@ + ace.text(),
            SmbcAclValue::Group(sid) => "GROUP:"@ + sid.text(),
            SmbcAclValue::GroupPlus(name) => "GROUP+:"@ + name@,
            SmbcAclValue::Revision(n) => "REVISION:"@ + decimal(n as int),
            SmbcAclValue::Owner(sid) => "OWNER:"@ + sid.text(),
            SmbcAclValue::OwnerPlus(name) => "OWNER+:"@ + name@,
        }
    }

    open spec fn printable(&self) -> bool {
        match *self {
            SmbcAclValue::Acl(ace) => ace.printable(),
            SmbcAclValue::AclPlus(ace) => ace.printable(),
            SmbcAclValue::Group(sid) => sid.printable(),
            SmbcAclValue::Owner(sid) => sid.printable(),
            _ => true,
        }
    }

    fn is_printable(&self) -> (r: bool) {
        match self {
            SmbcAclValue::Acl(ace) => ace.is_printable(),
            SmbcAclValue::AclPlus(ace) => ace.is_printable(),
            SmbcAclValue::Group(sid) => sid.is_printable(),
            SmbcAclValue::Owner(sid) => sid.is_printable(),
            _ => true,
        }
    }

    fn to_string(&self) -> (s: String) {
        match self {
            SmbcAclValue::Acl(ace) => extended("ACL:", ace.to_string()),
            SmbcAclValue::AclPlus(ace) => extended("ACL+:", ace.to_string()),
            SmbcAclValue::Group(sid) => extended("GROUP:", sid.to_string()),
            SmbcAclValue::GroupPlus(name) => extended("GROUP+:", name.clone()),
            SmbcAclValue::Revision(n) => {
                let mut s = "REVISION:".to_owned();
                push_unsigned(&mut s, *n);
                s
            },
            SmbcAclValue::Owner(sid) => extended("OWNER:", sid.to_string()),
            SmbcAclValue::OwnerPlus(name) => extended("OWNER+:", name.clone()),
        }
    }
}

/// Value of a DOS attribute. Inode and size are only ever read.
#[derive(Debug, Clone, Copy, PartialEq, Eq)]
pub enum SmbcDosValue {
    /// DOS mode.
    MODE(DosMode),
    /// Time of access.
    ATime(u64),
    /// Time of change.
    CTime(u64),
    /// Time of modification.
    MTime(u64),
    /// Inode.
    INode(u64),
    /// Size.
    Size(i64),
}

fn labelled(label: &str, n: u64) -> (s: String)
    ensures
        s@ == label@ + decimal(n as int),
{
    let mut s = label.to_owned();
    push_unsigned(&mut s, n);
    s
}

impl Text for SmbcDosValue {
    open spec fn text(&self) -> Seq<char> {
        match *self {
            SmbcDosValue::MODE(m) => "MODE:"@ + decimal(m@ as int),
            SmbcDosValue::ATime(t) => "A_TIME:"@ + decimal(t as int),
            SmbcDosValue::CTime(t) => "C_TIME:"@ + decimal(t as int),
            SmbcDosValue::MTime(t) => "M_TIME:"@ + decimal(t as int),
            SmbcDosValue::INode(n) => "INODE:"@ + decimal(n as int),
            SmbcDosValue::Size(n) => "SIZE:"@ + decimal(n as int),
        }
    }

    open spec fn printable(&self) -> bool {
        true
    }

    fn is_printable(&self) -> (r: bool) {
        true
    }

    fn to_string(&self) -> (s: String) {
        match self {
            SmbcDosValue::MODE(m) => {
                let mut s = "MODE:".to_owned();
                push_signed(&mut s, m.bits() as i64);
                s
            },
            SmbcDosValue::ATime(t) => labelled("A_TIME:", *t),
            SmbcDosValue::CTime(t) => labelled("C_TIME:", *t),
            SmbcDosValue::MTime(t) => labelled("M_TIME:", *t),
            SmbcDosValue::INode(n) => labelled("INODE:", *n),
            SmbcDosValue::Size(n) => {
                let mut s = "SIZE:".to_owned();
                push_signed(&mut s, *n);
                s
            },
        }
    }
}

/// Value of an extended attribute.
///
/// Revision, inode, size and group cannot be changed one by one; inode and size not at all.
#[derive(Debug, Clone, PartialEq, Eq)]
pub enum SmbcXAttrValue {
    /// One access control entry.
    Ace(ACE),
    /// Parts of the security descriptor.
    AclAll(Vec<SmbcAclValue>),
    /// DOS attributes.
    DosAll(Vec<SmbcDosValue>),
    /// Numeric owner or group.
    Sid(Sid),
    /// Named owner or group.
    SidPlus(String),
    /// Revision, times or inode.
    Unsigned(u64),
    /// DOS mode.
    Mode(DosMode),
    /// Size.
    Signed(i64),
    /// All attributes.
    All(Vec<SmbcAclValue>, Vec<SmbcDosValue>),
}

impl Text for SmbcXAttrValue {
    /// Parts of the security descriptor stand on lines of their own, DOS attributes are parted by
    /// tabs, and a comma stands between the two lists.
    open spec fn text(&self) -> Seq<char> {
        match *self {
            SmbcXAttrValue::Ace(ace) => ace.text(),
            SmbcXAttrValue::AclAll(a) => joined(texts(a@), "\n"@),
            SmbcXAttrValue::DosAll(d) => joined(texts(d@), "\t"@),
            SmbcXAttrValue::All(a, d) => joined(texts(a@), "\n"@) + ","@ + joined(
                texts(d@),
                "\t"@,
            ),
            SmbcXAttrValue::Sid(sid) => sid.text(),
            SmbcXAttrValue::SidPlus(name) => name@,
            SmbcXAttrValue::Unsigned(n) => decimal(n as int),
            SmbcXAttrValue::Mode(m) => hexadecimal(m@ as u32 as nat),
            SmbcXAttrValue::Signed(n) => decimal(n as int),
        }
    }

    open spec fn printable(&self) -> bool {
        match *self {
            SmbcXAttrValue::Ace(ace) => ace.printable(),
            SmbcXAttrValue::AclAll(a) => joinable(a@),
            SmbcXAttrValue::DosAll(d) => joinable(d@),
            SmbcXAttrValue::All(a, d) => joinable(a@) && joinable(d@),
            SmbcXAttrValue::Sid(sid) => sid.printable(),
            _ => true,
        }
    }

    fn is_printable(&self) -> (r: bool) {
        match self {
            SmbcXAttrValue::Ace(ace) => ace.is_printable(),
            SmbcXAttrValue::AclAll(a) => is_joinable(a.as_slice()),
            SmbcXAttrValue::DosAll(d) => is_joinable(d.as_slice()),
            SmbcXAttrValue::All(a, d) => is_joinable(a.as_slice()) && is_joinable(d.as_slice()),
            SmbcXAttrValue::Sid(sid) => sid.is_printable(),
            _ => true,
        }
    }

    fn to_string(&self) -> (s: String) {
        match self {
            SmbcXAttrValue::Ace(ace) => ace.to_string(),
            SmbcXAttrValue::AclAll(a) => separated(a.as_slice(), "\n"),
            SmbcXAttrValue::DosAll(d) => separated(d.as_slice(), "\t"),
            SmbcXAttrValue::All(a, d) => {
                let mut s = separated(a.as_slice(), "\n");
                s.append(",");
                let dos = separated(d.as_slice(), "\t");
                s.append(dos.as_str());
                s
            },
            SmbcXAttrValue::Sid(sid) => sid.to_string(),
            SmbcXAttrValue::SidPlus(name) => name.clone(),
            SmbcXAttrValue::Unsigned(n) => Text::to_string(n),
            SmbcXAttrValue::Mode(m) => {
                let mut s = String::new();
                push_hexadecimal(&mut s, m.bits() as u32);
                s
            },
            SmbcXAttrValue::Signed(n) => {
                let mut s = String::new();
                push_signed(&mut s, *n);
                s
            },
        }
    }
}

/// The name of a DOS attribute starts with `system.dos_attr.`.
pub proof fn law_dos_names(attr: SmbcDosAttr)
    ensures
        "system.dos_attr."@.is_prefix_of(attr.text()),
{
    reveal_strlit("system.dos_attr.");
    reveal_strlit("system.dos_attr.*");
    reveal_strlit("system.dos_attr.*!");
    reveal_strlit("system.dos_attr.a_time");
    reveal_strlit("system.dos_attr.c_time");
    reveal_strlit("system.dos_attr.mode");
    reveal_strlit("system.dos_attr.m_time");
    reveal_strlit("system.dos_attr.inode");
    reveal_strlit("system.dos_attr.size");
    assert("system.dos_attr."@ =~= attr.text().take("system.dos_attr."@.len() as int));
}

/// The name of a part of the security descriptor starts with `system.nt_sec_desc.`.
pub proof fn law_acl_names(attr: SmbcAclAttr)
    ensures
        "system.nt_sec_desc."@.is_prefix_of(attr.text()),
{
    reveal_strlit("system.nt_sec_desc.");
    reveal_strlit("system.nt_sec_desc.acl:");
    reveal_strlit("system.nt_sec_desc.acl.*");
    reveal_strlit("system.nt_sec_desc.acl.*+");
    reveal_strlit("system.nt_sec_desc.acl");
    reveal_strlit("system.nt_sec_desc.acl+");
    reveal_strlit("system.nt_sec_desc.acl+:");
    reveal_strlit("system.nt_sec_desc.*");
    reveal_strlit("system.nt_sec_desc.*+");
    reveal_strlit("system.nt_sec_desc.*!");
    reveal_strlit("system.nt_sec_desc.*+!");
    reveal_strlit("system.nt_sec_desc.group");
    reveal_strlit("system.nt_sec_desc.group+");
    reveal_strlit("system.nt_sec_desc.revision");
    reveal_strlit("system.nt_sec_desc.owner");
    reveal_strlit("system.nt_sec_desc.owner+");
    assert("system.nt_sec_desc."@ =~= attr.text().take("system.nt_sec_desc."@.len() as int));
}

/// The name of every extended attribute starts with `system.`.
pub proof fn law_names(attr: SmbcXAttr)
    ensures
        "system."@.is_prefix_of(attr.text()),
{
    reveal_strlit("system.");
    match attr {
        SmbcXAttr::DosAttr(d) => {
            law_dos_names(d);
            reveal_strlit("system.dos_attr.");
            assert("system."@ =~= "system.dos_attr."@.take(7));
        },
        SmbcXAttr::AclAttr(a) => {
            law_acl_names(a);
            reveal_strlit("system.nt_sec_desc.");
            assert("system."@ =~= "system.nt_sec_desc."@.take(7));
        },
        _ => {
            reveal_strlit("system.*");
            reveal_strlit("system.*+");
            reveal_strlit("system.*!");
            reveal_strlit("system.*+!");
        },
    }
    assert("system."@ =~= attr.text().take(7));
}

/// The text of all attributes is that of the security descriptor and that of the DOS attributes,
/// with a comma between them.
pub proof fn law_all_values_are_both_lists(acl: Vec<SmbcAclValue>, dos: Vec<SmbcDosValue>)
    ensures
        SmbcXAttrValue::All(acl, dos).text() == SmbcXAttrValue::AclAll(acl).text() + ","@
            + SmbcXAttrValue::DosAll(dos).text(),
        SmbcXAttrValue::All(acl, dos).printable() <==> SmbcXAttrValue::AclAll(acl).printable()
            && SmbcXAttrValue::DosAll(dos).printable(),
{
}

/// The attribute that asks for names where this one asks for identifiers, if nothing but a plus at
/// the end tells them apart.
pub open spec fn named_form(attr: SmbcXAttr) -> Option<SmbcXAttr> {
    match attr {
        SmbcXAttr::All => Some(SmbcXAttr::AllPlus),
        SmbcXAttr::AclAttr(SmbcAclAttr::All) => Some(SmbcXAttr::AclAttr(SmbcAclAttr::AllPlus)),
        SmbcXAttr::AclAttr(SmbcAclAttr::AclAll) => Some(
            SmbcXAttr::AclAttr(SmbcAclAttr::AclAllPlus),
        ),
        SmbcXAttr::AclAttr(SmbcAclAttr::AclNone) => Some(
            SmbcXAttr::AclAttr(SmbcAclAttr::AclNonePlus),
        ),
        SmbcXAttr::AclAttr(SmbcAclAttr::Group) => Some(SmbcXAttr::AclAttr(SmbcAclAttr::GroupPlus)),
        SmbcXAttr::AclAttr(SmbcAclAttr::Owner) => Some(SmbcXAttr::AclAttr(SmbcAclAttr::OwnerPlus)),
        _ => None,
    }
}

/// A plus at the end of a name asks for names in place of identifiers.
pub proof fn law_plus_asks_for_names(attr: SmbcXAttr)
    ensures
        named_form(attr) matches Some(named) ==> named.text() == attr.text() + "+"@,
{
    reveal_strlit("+");
    reveal_strlit("system.*");
    reveal_strlit("system.*+");
    reveal_strlit("system.nt_sec_desc.*");
    reveal_strlit("system.nt_sec_desc.*+");
    reveal_strlit("system.nt_sec_desc.acl.*");
    reveal_strlit("system.nt_sec_desc.acl.*+");
    reveal_strlit("system.nt_sec_desc.acl");
    reveal_strlit("system.nt_sec_desc.acl+");
    reveal_strlit("system.nt_sec_desc.group");
    reveal_strlit("system.nt_sec_desc.group+");
    reveal_strlit("system.nt_sec_desc.owner");
    reveal_strlit("system.nt_sec_desc.owner+");
    if let Some(named) = named_form(attr) {
        assert(named.text() =~= attr.text() + "+"@);
    }
}

/// The name of a request for all but some attributes is that of the request for all, with an
/// exclamation mark and the exclusions after it.
pub proof fn law_exclusions_follow_the_name(excluded: Vec<SmbcExclude>)
    ensures
        SmbcXAttr::AllExclude(excluded).text() == excluding(
            SmbcXAttr::All.text() + "!"@,
            excluded@,
        ),
        SmbcXAttr::AllExcludePlus(excluded).text() == excluding(
            SmbcXAttr::AllPlus.text() + "!"@,
            excluded@,
        ),
        SmbcAclAttr::AllExclude(excluded).text() == excluding(
            SmbcAclAttr::All.text() + "!"@,
            excluded@,
        ),
        SmbcAclAttr::AllExcludePlus(excluded).text() == excluding(
            SmbcAclAttr::AllPlus.text() + "!"@,
            excluded@,
        ),
        SmbcDosAttr::AllExclude(excluded).text() == excluding(
            SmbcDosAttr::All.text() + "!"@,
            excluded@,
        ),
{
    reveal_strlit("!");
    reveal_strlit("system.*");
    reveal_strlit("system.*!");
    reveal_strlit("system.*+");
    reveal_strlit("system.*+!");
    reveal_strlit("system.nt_sec_desc.*");
    reveal_strlit("system.nt_sec_desc.*!");
    reveal_strlit("system.nt_sec_desc.*+");
    reveal_strlit("system.nt_sec_desc.*+!");
    reveal_strlit("system.dos_attr.*");
    reveal_strlit("system.dos_attr.*!");
    assert("system.*!"@ =~= "system.*"@ + "!"@);
    assert("system.*+!"@ =~= "system.*+"@ + "!"@);
    assert("system.nt_sec_desc.*!"@ =~= "system.nt_sec_desc.*"@ + "!"@);
    assert("system.nt_sec_desc.*+!"@ =~= "system.nt_sec_desc.*+"@ + "!"@);
    assert("system.dos_attr.*!"@ =~= "system.dos_attr.*"@ + "!"@);
}

/// The attribute that an exclusion leaves out.
pub open spec fn excluded_attr(e: SmbcExclude) -> SmbcXAttr {
    match e {
        SmbcExclude::Rev => SmbcXAttr::AclAttr(SmbcAclAttr::Revision),
        SmbcExclude::Own => SmbcXAttr::AclAttr(SmbcAclAttr::Owner),
        SmbcExclude::Grp => SmbcXAttr::AclAttr(SmbcAclAttr::Group),
        SmbcExclude::Acl => SmbcXAttr::AclAttr(SmbcAclAttr::AclNone),
        SmbcExclude::Mod => SmbcXAttr::DosAttr(SmbcDosAttr::Mode),
        SmbcExclude::Siz => SmbcXAttr::DosAttr(SmbcDosAttr::Size),
        SmbcExclude::Ctm => SmbcXAttr::DosAttr(SmbcDosAttr::Ctime),
        SmbcExclude::Atm => SmbcXAttr::DosAttr(SmbcDosAttr::Atime),
        SmbcExclude::Mtm => SmbcXAttr::DosAttr(SmbcDosAttr::Mtime),
        SmbcExclude::Ino => SmbcXAttr::DosAttr(SmbcDosAttr::Inode),
    }
}

/// An exclusion is written as the attribute that it leaves out, without `system.`.
pub proof fn law_exclusions_name_attributes(e: SmbcExclude)
    ensures
        excluded_attr(e).text() == "system."@ + e.text(),
{
    reveal_strlit("system.");
    reveal_strlit("nt_sec_desc.revision");
    reveal_strlit("nt_sec_desc.owner");
    reveal_strlit("nt_sec_desc.group");
    reveal_strlit("nt_sec_desc.acl");
    reveal_strlit("dos_attr.mode");
    reveal_strlit("dos_attr.size");
    reveal_strlit("dos_attr.c_time");
    reveal_strlit("dos_attr.a_time");
    reveal_strlit("dos_attr.m_time");
    reveal_strlit("dos_attr.inode");
    reveal_strlit("system.nt_sec_desc.revision");
    reveal_strlit("system.nt_sec_desc.owner");
    reveal_strlit("system.nt_sec_desc.group");
    reveal_strlit("system.nt_sec_desc.acl");
    reveal_strlit("system.dos_attr.mode");
    reveal_strlit("system.dos_attr.size");
    reveal_strlit("system.dos_attr.c_time");
    reveal_strlit("system.dos_attr.a_time");
    reveal_strlit("system.dos_attr.m_time");
    reveal_strlit("system.dos_attr.inode");
    assert(excluded_attr(e).text() =~= "system."@ + e.text());
}

/// A value that is no list reads back as what it was made of: an entry and a name as they stand, an
/// identifier as its numbers, whatever follows it, numbers in decimal, and a mode in hexadecimal.
pub proof fn law_scalar_values_read_back(
    ace: ACE,
    sid: Sid,
    rest: Seq<u8>,
    name: String,
    n: u64,
    i: i64,
    mode: DosMode,
)
    ensures
        SmbcXAttrValue::Ace(ace).text() == ace.text(),
        SmbcXAttrValue::Ace(ace).printable() <==> ace.printable(),
        SmbcXAttrValue::Sid(sid).text() == sid.text(),
        SmbcXAttrValue::Sid(sid).printable() <==> sid@.len() > 0,
        sid@.len() > 0 && ends_sid(rest) ==> sid_of(
            encode_utf8(SmbcXAttrValue::Sid(sid).text()) + rest,
        ) == Some(sid@),
        SmbcXAttrValue::SidPlus(name).text() == name@,
        reads_decimal(SmbcXAttrValue::Unsigned(n).text(), n as int),
        reads_decimal(SmbcXAttrValue::Signed(i).text(), i as int),
        mode@ >= 0 ==> reads_hexadecimal(SmbcXAttrValue::Mode(mode).text(), mode@ as int),
        SmbcXAttrValue::SidPlus(name).printable(),
        SmbcXAttrValue::Unsigned(n).printable(),
        SmbcXAttrValue::Signed(i).printable(),
        SmbcXAttrValue::Mode(mode).printable(),
{
    if sid@.len() > 0 && ends_sid(rest) {
        law_sid_text_reads_back(sid@, rest);
    }
    law_decimal_reads_back(n as int);
    law_decimal_reads_back(i as int);
    law_hexadecimal_reads_back(mode@ as u32 as nat);
}

/// The value of a part of the descriptor is its name, a colon and the value: an entry, the text of
/// an identifier, a name, or the number of the revision.
pub proof fn law_descriptor_values_read_back(ace: ACE, sid: Sid, name: String, n: u64)
    ensures
        before(SmbcAclValue::Acl(ace).text(), ':') == seq!['A', 'C', 'L'],
        after(SmbcAclValue::Acl(ace).text(), ':') == ace.text(),
        before(SmbcAclValue::AclPlus(ace).text(), ':') == seq!['A', 'C', 'L', '+'],
        after(SmbcAclValue::AclPlus(ace).text(), ':') == ace.text(),
        before(SmbcAclValue::Group(sid).text(), ':') == seq!['G', 'R', 'O', 'U', 'P'],
        after(SmbcAclValue::Group(sid).text(), ':') == sid_text(sid@),
        before(SmbcAclValue::GroupPlus(name).text(), ':') == seq!['G', 'R', 'O', 'U', 'P', '+'],
        after(SmbcAclValue::GroupPlus(name).text(), ':') == name@,
        before(SmbcAclValue::Owner(sid).text(), ':') == seq!['O', 'W', 'N', 'E', 'R'],
        after(SmbcAclValue::Owner(sid).text(), ':') == sid_text(sid@),
        before(SmbcAclValue::OwnerPlus(name).text(), ':') == seq!['O', 'W', 'N', 'E', 'R', '+'],
        after(SmbcAclValue::OwnerPlus(name).text(), ':') == name@,
        before(SmbcAclValue::Revision(n).text(), ':')
            == seq!['R', 'E', 'V', 'I', 'S', 'I', 'O', 'N'],
        reads_decimal(after(SmbcAclValue::Revision(n).text(), ':'), n as int),
        SmbcAclValue::Acl(ace).printable() <==> ace.printable(),
        SmbcAclValue::AclPlus(ace).printable() <==> ace.printable(),
        SmbcAclValue::Group(sid).printable() <==> sid@.len() > 0,
        SmbcAclValue::Owner(sid).printable() <==> sid@.len() > 0,
        SmbcAclValue::GroupPlus(name).printable(),
        SmbcAclValue::OwnerPlus(name).printable(),
        SmbcAclValue::Revision(n).printable(),
{
    reveal_strlit("ACL:");
    assert("ACL:"@.len() == 4);
    assert(SmbcAclValue::Acl(ace).text() == seq!['A', 'C', 'L'] + seq![':'] + ace.text());
    law_texts_are_cut(seq!['A', 'C', 'L'], ':', ace.text());
    reveal_strlit("ACL+:");
    assert(SmbcAclValue::AclPlus(ace).text() == seq!['A', 'C', 'L', '+'] + seq![':'] + ace.text());
    law_texts_are_cut(seq!['A', 'C', 'L', '+'], ':', ace.text());
    reveal_strlit("GROUP:");
    assert(SmbcAclValue::Group(sid).text()
        == seq!['G', 'R', 'O', 'U', 'P'] + seq![':'] + sid_text(sid@));
    law_texts_are_cut(seq!['G', 'R', 'O', 'U', 'P'], ':', sid_text(sid@));
    reveal_strlit("GROUP+:");
    assert(SmbcAclValue::GroupPlus(name).text()
        == seq!['G', 'R', 'O', 'U', 'P', '+'] + seq![':'] + name@);
    law_texts_are_cut(seq!['G', 'R', 'O', 'U', 'P', '+'], ':', name@);
    reveal_strlit("OWNER:");
    assert(SmbcAclValue::Owner(sid).text()
        == seq!['O', 'W', 'N', 'E', 'R'] + seq![':'] + sid_text(sid@));
    law_texts_are_cut(seq!['O', 'W', 'N', 'E', 'R'], ':', sid_text(sid@));
    reveal_strlit("OWNER+:");
    assert(SmbcAclValue::OwnerPlus(name).text()
        == seq!['O', 'W', 'N', 'E', 'R', '+'] + seq![':'] + name@);
    law_texts_are_cut(seq!['O', 'W', 'N', 'E', 'R', '+'], ':', name@);
    reveal_strlit("REVISION:");
    assert(SmbcAclValue::Revision(n).text()
        == seq!['R', 'E', 'V', 'I', 'S', 'I', 'O', 'N'] + seq![':'] + decimal(n as int));
    law_texts_are_cut(seq!['R', 'E', 'V', 'I', 'S', 'I', 'O', 'N'], ':', decimal(n as int));
    law_decimal_reads_back(n as int);
}

/// The value of a DOS attribute is its name, a colon and its number in decimal.
pub proof fn law_dos_values_read_back(n: u64, i: i64, mode: DosMode)
    ensures
        before(SmbcDosValue::ATime(n).text(), ':') == seq!['A', '_', 'T', 'I', 'M', 'E'],
        reads_decimal(after(SmbcDosValue::ATime(n).text(), ':'), n as int),
        SmbcDosValue::ATime(n).printable(),
        before(SmbcDosValue::CTime(n).text(), ':') == seq!['C', '_', 'T', 'I', 'M', 'E'],
        reads_decimal(after(SmbcDosValue::CTime(n).text(), ':'), n as int),
        SmbcDosValue::CTime(n).printable(),
        before(SmbcDosValue::MTime(n).text(), ':') == seq!['M', '_', 'T', 'I', 'M', 'E'],
        reads_decimal(after(SmbcDosValue::MTime(n).text(), ':'), n as int),
        SmbcDosValue::MTime(n).printable(),
        before(SmbcDosValue::INode(n).text(), ':') == seq!['I', 'N', 'O', 'D', 'E'],
        reads_decimal(after(SmbcDosValue::INode(n).text(), ':'), n as int),
        SmbcDosValue::INode(n).printable(),
        before(SmbcDosValue::Size(i).text(), ':') == seq!['S', 'I', 'Z', 'E'],
        reads_decimal(after(SmbcDosValue::Size(i).text(), ':'), i as int),
        SmbcDosValue::Size(i).printable(),
        before(SmbcDosValue::MODE(mode).text(), ':') == seq!['M', 'O', 'D', 'E'],
        reads_decimal(after(SmbcDosValue::MODE(mode).text(), ':'), mode@ as int),
        SmbcDosValue::MODE(mode).printable(),
{
    reveal_strlit("A_TIME:");
    assert("A_TIME:"@.len() == 7);
    assert(SmbcDosValue::ATime(n).text()
        == seq!['A', '_', 'T', 'I', 'M', 'E'] + seq![':'] + decimal(n as int));
    law_texts_are_cut(seq!['A', '_', 'T', 'I', 'M', 'E'], ':', decimal(n as int));
    reveal_strlit("C_TIME:");
    assert(SmbcDosValue::CTime(n).text()
        == seq!['C', '_', 'T', 'I', 'M', 'E'] + seq![':'] + decimal(n as int));
    law_texts_are_cut(seq!['C', '_', 'T', 'I', 'M', 'E'], ':', decimal(n as int));
    reveal_strlit("M_TIME:");
    assert(SmbcDosValue::MTime(n).text()
        == seq!['M', '_', 'T', 'I', 'M', 'E'] + seq![':'] + decimal(n as int));
    law_texts_are_cut(seq!['M', '_', 'T', 'I', 'M', 'E'], ':', decimal(n as int));
    reveal_strlit("INODE:");
    assert(SmbcDosValue::INode(n).text()
        == seq!['I', 'N', 'O', 'D', 'E'] + seq![':'] + decimal(n as int));
    law_texts_are_cut(seq!['I', 'N', 'O', 'D', 'E'], ':', decimal(n as int));
    reveal_strlit("SIZE:");
    assert(SmbcDosValue::Size(i).text()
        == seq!['S', 'I', 'Z', 'E'] + seq![':'] + decimal(i as int));
    law_texts_are_cut(seq!['S', 'I', 'Z', 'E'], ':', decimal(i as int));
    reveal_strlit("MODE:");
    assert(SmbcDosValue::MODE(mode).text()
        == seq!['M', 'O', 'D', 'E'] + seq![':'] + decimal(mode@ as int));
    law_texts_are_cut(seq!['M', 'O', 'D', 'E'], ':', decimal(mode@ as int));
    law_decimal_reads_back(n as int);
    law_decimal_reads_back(i as int);
    law_decimal_reads_back(mode@ as int);
}

/// A list of parts of the descriptor is written as its parts, with a line end between each two.
pub proof fn law_descriptor_lists(
    one: Vec<SmbcAclValue>,
    list: Vec<SmbcAclValue>,
    longer: Vec<SmbcAclValue>,
    value: SmbcAclValue,
)
    requires
        one@ == seq![value],
        list@.len() > 0,
        longer@ == list@.push(value),
    ensures
        SmbcXAttrValue::AclAll(one).text() == value.text(),
        SmbcXAttrValue::AclAll(longer).text() == SmbcXAttrValue::AclAll(list).text() + seq!['\n']
            + value.text(),
        SmbcXAttrValue::AclAll(one).printable() <==> value.printable(),
        SmbcXAttrValue::AclAll(longer).printable() <==> SmbcXAttrValue::AclAll(list).printable()
            && value.printable(),
{
    reveal_strlit("\n");
    law_lists_are_joined(list@, value, "\n"@);
    assert("\n"@ == seq!['\n']);
}

/// A list of DOS attributes is written as its attributes, with a tab between each two.
pub proof fn law_dos_lists(
    one: Vec<SmbcDosValue>,
    list: Vec<SmbcDosValue>,
    longer: Vec<SmbcDosValue>,
    value: SmbcDosValue,
)
    requires
        one@ == seq![value],
        list@.len() > 0,
        longer@ == list@.push(value),
    ensures
        SmbcXAttrValue::DosAll(one).text() == value.text(),
        SmbcXAttrValue::DosAll(longer).text() == SmbcXAttrValue::DosAll(list).text() + seq!['\t']
            + value.text(),
        SmbcXAttrValue::DosAll(one).printable() <==> value.printable(),
        SmbcXAttrValue::DosAll(longer).printable() <==> SmbcXAttrValue::DosAll(list).printable()
            && value.printable(),
{
    reveal_strlit("\t");
    law_lists_are_joined(list@, value, "\t"@);
    assert("\t"@ == seq!['\t']);
}

/// The name of one entry is that of the entries, a colon and the entry; that of the entry of an
/// identifier is that of the entries and the identifier; and a name says what it names as its
/// part does.
pub proof fn law_names_of_entries(ace: ACE, sid: Sid, dos: SmbcDosAttr, acl: SmbcAclAttr)
    ensures
        SmbcAclAttr::Acl(ace).text() == SmbcAclAttr::AclNone.text() + seq![':'] + ace.text(),
        SmbcAclAttr::AclPlus(ace).text() == SmbcAclAttr::AclNonePlus.text() + seq![':']
            + ace.text(),
        SmbcAclAttr::AclSid(sid).text() == SmbcAclAttr::AclNone.text() + sid_text(sid@),
        SmbcAclAttr::AclSidPlus(sid).text() == SmbcAclAttr::AclNonePlus.text() + sid_text(sid@),
        SmbcXAttr::DosAttr(dos).text() == dos.text(),
        SmbcXAttr::AclAttr(acl).text() == acl.text(),
        SmbcAclAttr::Acl(ace).printable() <==> ace.printable(),
        SmbcAclAttr::AclPlus(ace).printable() <==> ace.printable(),
        SmbcAclAttr::AclSid(sid).printable() <==> sid@.len() > 0,
        SmbcAclAttr::AclSidPlus(sid).printable() <==> sid@.len() > 0,
        SmbcXAttr::DosAttr(dos).printable() <==> dos.printable(),
        SmbcXAttr::AclAttr(acl).printable() <==> acl.printable(),
{
    reveal_strlit("system.nt_sec_desc.acl");
    reveal_strlit("system.nt_sec_desc.acl+");
    reveal_strlit("system.nt_sec_desc.acl:");
    reveal_strlit("system.nt_sec_desc.acl+:");
    assert("system.nt_sec_desc.acl:"@ =~= "system.nt_sec_desc.acl"@ + seq![':']);
    assert("system.nt_sec_desc.acl+:"@ =~= "system.nt_sec_desc.acl+"@ + seq![':']);
}

/// What is left out is written one after another: the first exclusion follows the name of the
/// request for all after an exclamation mark, and each further one follows after another.
pub proof fn law_exclusions_are_listed(
    one: Vec<SmbcExclude>,
    list: Vec<SmbcExclude>,
    longer: Vec<SmbcExclude>,
    e: SmbcExclude,
)
    requires
        one@ == seq![e],
        list@.len() > 0,
        longer@ == list@.push(e),
    ensures
        SmbcXAttr::AllExclude(one).text() == SmbcXAttr::All.text() + seq!['!'] + e.text(),
        SmbcXAttr::AllExclude(longer).text()
            == SmbcXAttr::AllExclude(list).text() + seq!['!'] + e.text(),
        SmbcXAttr::AllExclude(longer).printable(),
        SmbcXAttr::AllExcludePlus(one).text() == SmbcXAttr::AllPlus.text() + seq!['!'] + e.text(),
        SmbcXAttr::AllExcludePlus(longer).text()
            == SmbcXAttr::AllExcludePlus(list).text() + seq!['!'] + e.text(),
        SmbcXAttr::AllExcludePlus(longer).printable(),
        SmbcAclAttr::AllExclude(one).text() == SmbcAclAttr::All.text() + seq!['!'] + e.text(),
        SmbcAclAttr::AllExclude(longer).text()
            == SmbcAclAttr::AllExclude(list).text() + seq!['!'] + e.text(),
        SmbcAclAttr::AllExclude(longer).printable(),
        SmbcAclAttr::AllExcludePlus(one).text()
            == SmbcAclAttr::AllPlus.text() + seq!['!'] + e.text(),
        SmbcAclAttr::AllExcludePlus(longer).text()
            == SmbcAclAttr::AllExcludePlus(list).text() + seq!['!'] + e.text(),
        SmbcAclAttr::AllExcludePlus(longer).printable(),
        SmbcDosAttr::AllExclude(one).text() == SmbcDosAttr::All.text() + seq!['!'] + e.text(),
        SmbcDosAttr::AllExclude(longer).text()
            == SmbcDosAttr::AllExclude(list).text() + seq!['!'] + e.text(),
        SmbcDosAttr::AllExclude(longer).printable(),
{
    law_exclusions_follow_the_name(one);
    law_exclusions_follow_the_name(list);
    law_exclusions_follow_the_name(longer);
    reveal_strlit("!");
    assert("!"@ == seq!['!']);
    law_lists_are_joined(list@, e, "!"@);
    assert(SmbcXAttr::AllExclude(longer).text()
        == SmbcXAttr::AllExclude(list).text() + seq!['!'] + e.text());
    assert(SmbcXAttr::AllExcludePlus(longer).text()
        == SmbcXAttr::AllExcludePlus(list).text() + seq!['!'] + e.text());
    assert(SmbcAclAttr::AllExclude(longer).text()
        == SmbcAclAttr::AllExclude(list).text() + seq!['!'] + e.text());
    assert(SmbcAclAttr::AllExcludePlus(longer).text()
        == SmbcAclAttr::AllExcludePlus(list).text() + seq!['!'] + e.text());
    assert(SmbcDosAttr::AllExclude(longer).text()
        == SmbcDosAttr::AllExclude(list).text() + seq!['!'] + e.text());
}

/// A name without arguments can always be written, and one that leaves something out exactly where
/// something is left out.
pub proof fn law_names_are_printable(
    excluded: Vec<SmbcExclude>,
    e: SmbcExclude,
    dos: SmbcDosAttr,
    acl: SmbcAclAttr,
    attr: SmbcXAttr,
)
    ensures
        e.printable(),
        !(dos is AllExclude) ==> dos.printable(),
        !(acl is Acl || acl is AclPlus || acl is AclSid || acl is AclSidPlus || acl is AllExclude
            || acl is AllExcludePlus) ==> acl.printable(),
        attr is All || attr is AllPlus ==> attr.printable(),
        SmbcDosAttr::AllExclude(excluded).printable() <==> excluded@.len() > 0,
        SmbcAclAttr::AllExclude(excluded).printable() <==> excluded@.len() > 0,
        SmbcAclAttr::AllExcludePlus(excluded).printable() <==> excluded@.len() > 0,
        SmbcXAttr::AllExclude(excluded).printable() <==> excluded@.len() > 0,
        SmbcXAttr::AllExcludePlus(excluded).printable() <==> excluded@.len() > 0,
{
}

} // verus!
