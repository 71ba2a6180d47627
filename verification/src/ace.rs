//! Access control entries.

use vstd::prelude::*;
use vstd::utf8::*;
use crate::error::Error;
use crate::flags::{has_bits, AceFlag, XAttrMask};
use crate::mask::{law_mask_text_reads_back, mask_of, mask_text};
use crate::reading::{
    after, before, law_decimal_holds_digits, law_decimal_is_unique, law_decimal_reads_back,
    law_hexadecimal_holds_digits, law_hexadecimal_reads_back, law_texts_are_cut, reads_decimal,
    reads_hexadecimal,
};
use crate::sid::{
    law_sid_text_holds, law_sid_text_reads_back, sid_of, sid_parse, sid_text, Sid,
};
use crate::text::{decimal, hexadecimal, push_hexadecimal, push_signed, Text};

verus! {

/// An entry either allows or denies access to its security identifier.
#[derive(Debug, Clone, Copy, PartialEq, Eq, Structural)]
pub enum AceAtype {
    /// Allow access.
    ALLOWED,
    /// Deny access.
    DENIED,
}

/// The security identifier of an entry. It is absent where a single entry was read by its
/// identifier: the reply then repeats only the rest of the entry.
#[derive(Debug, Clone, PartialEq, Eq)]
pub enum SidType {
    /// A numeric security identifier.
    Numeric(Option<Sid>),
    /// A named security identifier.
    Named(Option<String>),
}

impl Text for SidType {
    open spec fn text(&self) -> Seq<char> {
        match *self {
            SidType::Numeric(Some(sid)) => sid.text(),
            SidType::Named(Some(name)) => name@,
            _ => Seq::empty(),
        }
    }

    open spec fn printable(&self) -> bool {
        *self matches SidType::Numeric(Some(sid)) ==> sid.printable()
    }

    fn is_printable(&self) -> (r: bool) {
        match self {
            SidType::Numeric(Some(sid)) => sid.is_printable(),
            _ => true,
        }
    }

    fn to_string(&self) -> (s: String) {
        match self {
            SidType::Numeric(Some(sid)) => sid.to_string(),
            SidType::Numeric(None) => String::new(),
            SidType::Named(Some(name)) => name.clone(),
            SidType::Named(None) => String::new(),
        }
    }
}

/// An access control entry.
#[derive(Debug, Clone, PartialEq, Eq)]
pub enum ACE {
    /// A numeric entry.
    Numeric(SidType, AceAtype, AceFlag, XAttrMask),
    /// A named entry. The server takes only the masks `FULL`, `CHANGE` and `READ` in it.
    Named(SidType, AceAtype, AceFlag, String),
}

/// The entry and its security identifier are of the same kind.
pub open spec fn consistent(ace: ACE) -> bool {
    match ace {
        ACE::Numeric(SidType::Numeric(_), _, _, _) => true,
        ACE::Named(SidType::Named(_), _, _, _) => true,
        _ => false,
    }
}

/// Why an entry that is not consistent is refused.
pub open spec fn mismatched() -> Seq<char> {
    "Mismatched ACE and SidType!"@
}

/// Why the identifier of an entry that has none is refused.
pub open spec fn missing() -> Seq<char> {
    "SidType is None!"@
}

/// The text of an entry's identifier, or why there is none.
pub open spec fn sid_string_of(ace: ACE) -> Result<Seq<char>, Seq<char>> {
    match ace {
        ACE::Numeric(SidType::Numeric(Some(sid)), _, _, _) => Ok(sid.text()),
        ACE::Named(SidType::Named(Some(name)), _, _, _) => Ok(name@),
        ACE::Numeric(SidType::Numeric(None), _, _, _) => Err(missing()),
        ACE::Named(SidType::Named(None), _, _, _) => Err(missing()),
        _ => Err(mismatched()),
    }
}

/// The numbers of an entry's identifier, or why there are none. A name is read as an identifier.
pub open spec fn sid_numbers_of(ace: ACE) -> Result<Seq<u64>, Seq<char>> {
    match ace {
        ACE::Numeric(SidType::Numeric(Some(sid)), _, _, _) => Ok(sid@),
        ACE::Named(SidType::Named(Some(name)), _, _, _) => match sid_of(encode_utf8(name@)) {
            Some(numbers) => Ok(numbers),
            None => Err("Unable to parse SID!"@),
        },
        ACE::Numeric(SidType::Numeric(None), _, _, _) => Err(missing()),
        ACE::Named(SidType::Named(None), _, _, _) => Err(missing()),
        _ => Err(mismatched()),
    }
}

/// The type of an entry, or why there is none.
pub open spec fn atype_of(ace: ACE) -> Result<AceAtype, Seq<char>> {
    match ace {
        ACE::Numeric(SidType::Numeric(_), atype, _, _) => Ok(atype),
        ACE::Named(SidType::Named(_), atype, _, _) => Ok(atype),
        _ => Err(mismatched()),
    }
}

/// The inheritance flags of an entry, or why there are none.
pub open spec fn flag_of(ace: ACE) -> Result<AceFlag, Seq<char>> {
    match ace {
        ACE::Numeric(SidType::Numeric(_), _, flag, _) => Ok(flag),
        ACE::Named(SidType::Named(_), _, flag, _) => Ok(flag),
        _ => Err(mismatched()),
    }
}

/// The text of an entry's mask, or why there is none.
pub open spec fn mask_string_of(ace: ACE) -> Result<Seq<char>, Seq<char>> {
    match ace {
        ACE::Numeric(SidType::Numeric(_), _, _, mask) => Ok(mask_text(mask@)),
        ACE::Named(SidType::Named(_), _, _, mask) => Ok(mask@),
        _ => Err(mismatched()),
    }
}

/// The bits of an entry's mask, or why there are none.
pub open spec fn mask_bits_of(ace: ACE) -> Result<i32, Seq<char>> {
    match ace {
        ACE::Numeric(SidType::Numeric(_), _, _, mask) => Ok(mask@),
        ACE::Named(SidType::Named(_), _, _, mask) => Ok(mask_of(mask@)),
        _ => Err(mismatched()),
    }
}

fn mismatch() -> (e: Error)
    ensures
        e.is_xattr_error(mismatched()),
{
    Error::SmbcXAttrError("Mismatched ACE and SidType!".to_owned())
}

fn no_sid() -> (e: Error)
    ensures
        e.is_xattr_error(missing()),
{
    Error::SmbcXAttrError("SidType is None!".to_owned())
}

impl ACE {
    /// The identifier of the entry, if it has one, can be printed.
    pub open spec fn sid_printable(self) -> bool {
        match self {
            ACE::Numeric(sid, _, _, _) => sid.printable(),
            ACE::Named(sid, _, _, _) => sid.printable(),
        }
    }

    /// A numeric entry.
    pub fn new_num(sid: Sid, atype: AceAtype, flag: AceFlag, mask: XAttrMask) -> (r: ACE)
        ensures
            r == ACE::Numeric(SidType::Numeric(Some(sid)), atype, flag, mask),
    {
        ACE::Numeric(SidType::Numeric(Some(sid)), atype, flag, mask)
    }

    /// A named entry, with the text of the mask.
    pub fn new_named_with_mask(
        sid: &str,
        atype: AceAtype,
        flag: AceFlag,
        mask: XAttrMask,
    ) -> (r: ACE)
        ensures
            r matches ACE::Named(SidType::Named(Some(name)), a, f, text) && name@ == sid@ && a
                == atype && f == flag && text@ == mask_text(mask@),
    {
        ACE::Named(SidType::Named(Some(sid.to_owned())), atype, flag, mask.to_string())
    }

    /// A named entry.
    pub fn new_named(sid: &str, atype: AceAtype, flag: AceFlag, mask: &str) -> (r: ACE)
        ensures
            r matches ACE::Named(SidType::Named(Some(name)), a, f, text) && name@ == sid@ && a
                == atype && f == flag && text@ == mask@,
    {
        ACE::Named(SidType::Named(Some(sid.to_owned())), atype, flag, mask.to_owned())
    }

    /// The text of the identifier.
    pub fn sid_string(&self) -> (r: Result<String, Error>)
        requires
            consistent(*self) ==> self.sid_printable(),
        ensures
            match r {
                Ok(s) => sid_string_of(*self) == Ok::<Seq<char>, Seq<char>>(s@),
                Err(e) => sid_string_of(*self) matches Err(m) && e.is_xattr_error(m),
            },
    {
        match self {
            ACE::Numeric(SidType::Numeric(Some(sid)), _, _, _) => Ok(sid.to_string()),
            ACE::Named(SidType::Named(Some(name)), _, _, _) => Ok(name.clone()),
            ACE::Numeric(SidType::Numeric(None), _, _, _) => Err(no_sid()),
            ACE::Named(SidType::Named(None), _, _, _) => Err(no_sid()),
            _ => Err(mismatch()),
        }
    }

    /// The identifier. That of a named entry is read from its name.
    pub fn sid(&self) -> (r: Result<Sid, Error>)
        ensures
            match r {
                Ok(sid) => sid_numbers_of(*self) == Ok::<Seq<u64>, Seq<char>>(sid@),
                Err(e) => sid_numbers_of(*self) matches Err(m) && e.is_xattr_error(m),
            },
    {
        match self {
            ACE::Numeric(SidType::Numeric(Some(sid)), _, _, _) => Ok(sid.clone()),
            ACE::Named(SidType::Named(Some(name)), _, _, _) => {
                match sid_parse(name.as_str().as_bytes()) {
                    Some(sid) => Ok(sid),
                    None => Err(Error::SmbcXAttrError("Unable to parse SID!".to_owned())),
                }
            },
            ACE::Numeric(SidType::Numeric(None), _, _, _) => Err(no_sid()),
            ACE::Named(SidType::Named(None), _, _, _) => Err(no_sid()),
            _ => Err(mismatch()),
        }
    }

    /// The type of the entry.
    pub fn acetype(&self) -> (r: Result<AceAtype, Error>)
        ensures
            match r {
                Ok(atype) => atype_of(*self) == Ok::<AceAtype, Seq<char>>(atype),
                Err(e) => atype_of(*self) matches Err(m) && e.is_xattr_error(m),
            },
    {
        match self {
            ACE::Numeric(SidType::Numeric(_), atype, _, _) => Ok(*atype),
            ACE::Named(SidType::Named(_), atype, _, _) => Ok(*atype),
            _ => Err(mismatch()),
        }
    }

    /// The inheritance flags of the entry.
    pub fn aceflag(&self) -> (r: Result<AceFlag, Error>)
        ensures
            match r {
                Ok(flag) => flag_of(*self) == Ok::<AceFlag, Seq<char>>(flag),
                Err(e) => flag_of(*self) matches Err(m) && e.is_xattr_error(m),
            },
    {
        match self {
            ACE::Numeric(SidType::Numeric(_), _, flag, _) => Ok(*flag),
            ACE::Named(SidType::Named(_), _, flag, _) => Ok(*flag),
            _ => Err(mismatch()),
        }
    }

    /// The text of the mask.
    pub fn mask_string(&self) -> (r: Result<String, Error>)
        ensures
            match r {
                Ok(s) => mask_string_of(*self) == Ok::<Seq<char>, Seq<char>>(s@),
                Err(e) => mask_string_of(*self) matches Err(m) && e.is_xattr_error(m),
            },
    {
        match self {
            ACE::Numeric(SidType::Numeric(_), _, _, mask) => Ok(mask.to_string()),
            ACE::Named(SidType::Named(_), _, _, mask) => Ok(mask.clone()),
            _ => Err(mismatch()),
        }
    }

    /// The mask. That of a named entry is read from its text.
    pub fn mask(&self) -> (r: Result<XAttrMask, Error>)
        ensures
            match r {
                Ok(mask) => mask_bits_of(*self) == Ok::<i32, Seq<char>>(mask@),
                Err(e) => mask_bits_of(*self) matches Err(m) && e.is_xattr_error(m),
            },
    {
        match self {
            ACE::Numeric(SidType::Numeric(_), _, _, mask) => Ok(*mask),
            ACE::Named(SidType::Named(_), _, _, mask) => Ok(XAttrMask::from_string(mask.as_str())),
            _ => Err(mismatch()),
        }
    }

    /// Whether the entry is numeric rather than named.
    pub fn is_numeric(&self) -> (r: Result<bool, Error>)
        ensures
            match r {
                Ok(numeric) => consistent(*self) && numeric == (*self is Numeric),
                Err(e) => !consistent(*self) && e.is_xattr_error(mismatched()),
            },
    {
        match self {
            ACE::Numeric(SidType::Numeric(_), _, _, _) => Ok(true),
            ACE::Named(SidType::Named(_), _, _, _) => Ok(false),
            _ => Err(mismatch()),
        }
    }
}

impl Text for ACE {
    /// A numeric entry is `sid:type/flags/mask` with 0 for allowed, 1 for denied, and flags and
    /// mask in decimal; a named one has the type in words and its flags in hexadecimal.
    open spec fn text(&self) -> Seq<char> {
        match *self {
            ACE::Numeric(sid, atype, flags, mask) => sid.text() + (match atype {
                AceAtype::ALLOWED => ":0/"@,
                AceAtype::DENIED => ":1/"@,
            }) + decimal(flags@ as int) + "/"@ + decimal(mask@ as int),
            ACE::Named(sid, atype, flags, mask) => sid.text() + (match atype {
                AceAtype::ALLOWED => ":ALLOWED/"@,
                AceAtype::DENIED => ":DENIED/"@,
            }) + hexadecimal(flags@ as u32 as nat) + "/"@ + mask@,
        }
    }

    open spec fn printable(&self) -> bool {
        self.sid_printable()
    }

    fn is_printable(&self) -> (r: bool) {
        match self {
            ACE::Numeric(sid, _, _, _) => sid.is_printable(),
            ACE::Named(sid, _, _, _) => sid.is_printable(),
        }
    }

    fn to_string(&self) -> (s: String) {
        match self {
            ACE::Numeric(sid, atype, flags, mask) => {
                let mut s = sid.to_string();
                match atype {
                    AceAtype::ALLOWED => s.append(":0/"),
                    AceAtype::DENIED => s.append(":1/"),
                }
                push_signed(&mut s, flags.bits() as i64);
                s.append("/");
                push_signed(&mut s, mask.bits() as i64);
                s
            },
            ACE::Named(sid, atype, flags, mask) => {
                let mut s = sid.to_string();
                match atype {
                    AceAtype::ALLOWED => s.append(":ALLOWED/"),
                    AceAtype::DENIED => s.append(":DENIED/"),
                }
                push_hexadecimal(&mut s, flags.bits() as u32);
                s.append("/");
                s.append(mask.as_str());
                s
            },
        }
    }
}

/// The parts of an entry can be asked for exactly where entry and identifier are of the same
/// kind; elsewhere every question is refused for that reason.
pub proof fn law_mismatch_refuses_everything(ace: ACE)
    ensures
        consistent(ace) ==> atype_of(ace) is Ok && flag_of(ace) is Ok && mask_string_of(ace) is Ok
            && mask_bits_of(ace) is Ok,
        !consistent(ace) ==> {
            &&& sid_string_of(ace) == Err::<Seq<char>, Seq<char>>(mismatched())
            &&& sid_numbers_of(ace) == Err::<Seq<u64>, Seq<char>>(mismatched())
            &&& atype_of(ace) == Err::<AceAtype, Seq<char>>(mismatched())
            &&& flag_of(ace) == Err::<AceFlag, Seq<char>>(mismatched())
            &&& mask_string_of(ace) == Err::<Seq<char>, Seq<char>>(mismatched())
            &&& mask_bits_of(ace) == Err::<i32, Seq<char>>(mismatched())
        },
{
}

/// A numeric entry gives back the parts that it was made of.
pub proof fn law_numeric_entry_keeps_its_parts(
    sid: Sid,
    atype: AceAtype,
    flag: AceFlag,
    mask: XAttrMask,
)
    ensures
        ({
            let ace = ACE::Numeric(SidType::Numeric(Some(sid)), atype, flag, mask);
            &&& consistent(ace)
            &&& sid_numbers_of(ace) == Ok::<Seq<u64>, Seq<char>>(sid@)
            &&& sid_string_of(ace) == Ok::<Seq<char>, Seq<char>>(sid_text(sid@))
            &&& atype_of(ace) == Ok::<AceAtype, Seq<char>>(atype)
            &&& flag_of(ace) == Ok::<AceFlag, Seq<char>>(flag)
            &&& mask_bits_of(ace) == Ok::<i32, Seq<char>>(mask@)
            &&& mask_string_of(ace) == Ok::<Seq<char>, Seq<char>>(mask_text(mask@))
        }),
{
}

/// A named entry gives back the parts that it was made of. Where the name is the text of an
/// identifier it gives back the identifier, and where the mask is the text of a mask it gives
/// back a mask with the same text, and no bit more.
pub proof fn law_named_entry_keeps_its_parts(
    name: String,
    atype: AceAtype,
    flag: AceFlag,
    text: String,
    numbers: Seq<u64>,
    mask: i32,
)
    ensures
        ({
            let ace = ACE::Named(SidType::Named(Some(name)), atype, flag, text);
            &&& consistent(ace)
            &&& sid_string_of(ace) == Ok::<Seq<char>, Seq<char>>(name@)
            &&& atype_of(ace) == Ok::<AceAtype, Seq<char>>(atype)
            &&& flag_of(ace) == Ok::<AceFlag, Seq<char>>(flag)
            &&& mask_string_of(ace) == Ok::<Seq<char>, Seq<char>>(text@)
            &&& numbers.len() > 0 && name@ == sid_text(numbers) ==> sid_numbers_of(ace) == Ok::<
                Seq<u64>,
                Seq<char>,
            >(numbers)
            &&& text@ == mask_text(mask) ==> {
                &&& mask_bits_of(ace) matches Ok(back)
                &&& mask_text(back) == mask_text(mask)
                &&& has_bits(mask, back)
            }
        }),
{
    if numbers.len() > 0 {
        law_sid_text_reads_back(numbers, Seq::empty());
        assert(encode_utf8(sid_text(numbers)) + Seq::empty() == encode_utf8(sid_text(numbers)));
    }
    law_mask_text_reads_back(mask);
}

/// What identifies an entry: the numbers of a numeric identifier as its text has them, a name as
/// it stands, and nothing where there is none.
pub proof fn law_identifier_texts(sid: Sid, name: String)
    ensures
        SidType::Numeric(Some(sid)).text() == sid.text(),
        sid.text() == sid_text(sid@),
        SidType::Named(Some(name)).text() == name@,
        SidType::Numeric(None).text().len() == 0,
        SidType::Named(None).text().len() == 0,
{
}

/// The text of a numeric entry reads as its parts: first the identifier and a colon, then 0 for an
/// allowing and 1 for a denying entry, then the flags, then the mask, with slashes between them.
pub proof fn law_numeric_text_reads_back(
    sid: SidType,
    atype: AceAtype,
    flags: AceFlag,
    mask: XAttrMask,
)
    ensures
        ({
            let text = ACE::Numeric(sid, atype, flags, mask).text();
            let len = sid.text().len() as int;
            let rest = text.skip(len + 1);
            let numbers = after(rest, '/');
            &&& text.len() > len
            &&& text.take(len) == sid.text()
            &&& text[len] == ':'
            &&& before(rest, '/') == seq![if atype == AceAtype::ALLOWED { '0' } else { '1' }]
            &&& reads_decimal(before(numbers, '/'), flags@ as int)
            &&& reads_decimal(after(numbers, '/'), mask@ as int)
        }),
{
    reveal_strlit(":0/");
    reveal_strlit(":1/");
    reveal_strlit("/");
    assert(":0/"@.len() == 3);
    let text = ACE::Numeric(sid, atype, flags, mask).text();
    let len = sid.text().len() as int;
    let kind = seq![if atype == AceAtype::ALLOWED { '0' } else { '1' }];
    let f = decimal(flags@ as int);
    let m = decimal(mask@ as int);
    assert(text == sid.text() + seq![':'] + (kind + seq!['/'] + (f + seq!['/'] + m)));
    assert(text.take(len) == sid.text());
    assert(text.skip(len + 1) == kind + seq!['/'] + (f + seq!['/'] + m));
    law_texts_are_cut(kind, '/', f + seq!['/'] + m);
    law_decimal_holds_digits(flags@ as int, '/');
    law_texts_are_cut(f, '/', m);
    law_decimal_reads_back(flags@ as int);
    law_decimal_reads_back(mask@ as int);
}

/// The text of a named entry reads as its parts: first the identifier and a colon, then the type in
/// words, then the flags in hexadecimal, then the mask as it stands, with slashes between them.
pub proof fn law_named_text_reads_back(
    sid: SidType,
    atype: AceAtype,
    flags: AceFlag,
    mask: String,
)
    ensures
        ({
            let text = ACE::Named(sid, atype, flags, mask).text();
            let len = sid.text().len() as int;
            let rest = text.skip(len + 1);
            let last = after(rest, '/');
            &&& text.len() > len
            &&& text.take(len) == sid.text()
            &&& text[len] == ':'
            &&& before(rest, '/') == if atype == AceAtype::ALLOWED {
                seq!['A', 'L', 'L', 'O', 'W', 'E', 'D']
            } else {
                seq!['D', 'E', 'N', 'I', 'E', 'D']
            }
            &&& flags@ >= 0 ==> reads_hexadecimal(before(last, '/'), flags@ as int)
            &&& after(last, '/') == mask@
        }),
{
    reveal_strlit(":ALLOWED/");
    reveal_strlit(":DENIED/");
    reveal_strlit("/");
    assert(":ALLOWED/"@.len() == 9);
    let text = ACE::Named(sid, atype, flags, mask).text();
    let len = sid.text().len() as int;
    let kind = if atype == AceAtype::ALLOWED {
        seq!['A', 'L', 'L', 'O', 'W', 'E', 'D']
    } else {
        seq!['D', 'E', 'N', 'I', 'E', 'D']
    };
    let f = hexadecimal(flags@ as u32 as nat);
    assert(text == sid.text() + seq![':'] + (kind + seq!['/'] + (f + seq!['/'] + mask@)));
    assert(text.take(len) == sid.text());
    assert(text.skip(len + 1) == kind + seq!['/'] + (f + seq!['/'] + mask@));
    law_texts_are_cut(kind, '/', f + seq!['/'] + mask@);
    law_hexadecimal_holds_digits(flags@ as u32 as nat, '/');
    law_texts_are_cut(f, '/', mask@);
    law_hexadecimal_reads_back(flags@ as u32 as nat);
}

/// Numeric entries that differ in their identifiers, types, flags or masks have different texts.
pub proof fn law_numeric_texts_differ(
    sid: Sid,
    atype: AceAtype,
    flags: AceFlag,
    mask: XAttrMask,
    sid2: Sid,
    atype2: AceAtype,
    flags2: AceFlag,
    mask2: XAttrMask,
)
    requires
        sid@.len() > 0,
        sid2@.len() > 0,
        ACE::Numeric(SidType::Numeric(Some(sid)), atype, flags, mask).text() == ACE::Numeric(
            SidType::Numeric(Some(sid2)),
            atype2,
            flags2,
            mask2,
        ).text(),
    ensures
        sid@ == sid2@,
        atype == atype2,
        flags@ == flags2@,
        mask@ == mask2@,
{
    let (a, b) = (SidType::Numeric(Some(sid)), SidType::Numeric(Some(sid2)));
    let text = ACE::Numeric(a, atype, flags, mask).text();
    law_numeric_text_reads_back(a, atype, flags, mask);
    law_numeric_text_reads_back(b, atype2, flags2, mask2);
    let (s, t) = (sid_text(sid@), sid_text(sid2@));
    law_sid_text_holds(sid@, ':');
    law_sid_text_holds(sid2@, ':');
    let rest = text.skip(s.len() as int + 1);
    let rest2 = text.skip(t.len() as int + 1);
    assert(text == s + seq![':'] + rest);
    assert(text == t + seq![':'] + rest2);
    law_texts_are_cut(s, ':', rest);
    law_texts_are_cut(t, ':', rest2);
    assert(before(rest, '/')[0] == before(rest2, '/')[0]);
    law_sid_text_reads_back(sid@, Seq::empty());
    law_sid_text_reads_back(sid2@, Seq::empty());
    let numbers = after(rest, '/');
    law_decimal_is_unique(
        before(numbers, '/'),
        before(numbers, '/'),
        flags@ as int,
        flags2@ as int,
    );
    law_decimal_is_unique(after(numbers, '/'), after(numbers, '/'), mask@ as int, mask2@ as int);
}

/// An entry without an identifier still gives its other parts, and refuses only the identifier.
pub proof fn law_entry_without_identifier(
    atype: AceAtype,
    flag: AceFlag,
    mask: XAttrMask,
    text: String,
)
    ensures
        ({
            let numeric = ACE::Numeric(SidType::Numeric(None), atype, flag, mask);
            let named = ACE::Named(SidType::Named(None), atype, flag, text);
            &&& consistent(numeric) && consistent(named)
            &&& sid_string_of(numeric) is Err && sid_string_of(named) is Err
            &&& sid_numbers_of(numeric) is Err && sid_numbers_of(named) is Err
            &&& atype_of(numeric) == Ok::<AceAtype, Seq<char>>(atype)
            &&& atype_of(named) == Ok::<AceAtype, Seq<char>>(atype)
            &&& flag_of(numeric) == Ok::<AceFlag, Seq<char>>(flag)
            &&& flag_of(named) == Ok::<AceFlag, Seq<char>>(flag)
            &&& mask_bits_of(numeric) == Ok::<i32, Seq<char>>(mask@)
            &&& mask_bits_of(named) == Ok::<i32, Seq<char>>(mask_of(text@))
            &&& mask_string_of(numeric) == Ok::<Seq<char>, Seq<char>>(mask_text(mask@))
            &&& mask_string_of(named) == Ok::<Seq<char>, Seq<char>>(text@)
        }),
{
}

/// The name of an entry gives the identifier that it reads as, and is refused where it reads as
/// none. Entries whose identifier is of the other kind are the ones that are not consistent.
pub proof fn law_names_are_read_as_identifiers(
    sid: SidType,
    name: String,
    atype: AceAtype,
    flag: AceFlag,
    mask: XAttrMask,
    text: String,
)
    ensures
        ({
            let ace = ACE::Named(SidType::Named(Some(name)), atype, flag, text);
            match sid_of(encode_utf8(name@)) {
                Some(numbers) => sid_numbers_of(ace) == Ok::<Seq<u64>, Seq<char>>(numbers),
                None => sid_numbers_of(ace) is Err,
            }
        }),
        consistent(ACE::Numeric(sid, atype, flag, mask)) <==> sid is Numeric,
        consistent(ACE::Named(sid, atype, flag, text)) <==> sid is Named,
{
}

} // verus!
