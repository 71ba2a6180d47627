//! Entries of a directory.

use vstd::prelude::*;
use vstd::utf8::*;
use crate::error::Error;
use crate::reading::digit_value;

verus! {

/// Kind of a directory entry.
#[derive(Debug, Clone, Copy, PartialEq, Eq, Structural)]
pub enum SmbcType {
    WORKGROUP,
    SERVER,
    FILESHARE,
    PRINTERSHARE,
    COMMSSHARE,
    IPCSHARE,
    DIR,
    FILE,
    LINK,
}

/// The number by which libsmbclient knows a kind.
pub open spec fn type_code(t: SmbcType) -> u32 {
    match t {
        SmbcType::WORKGROUP => 1,
        SmbcType::SERVER => 2,
        SmbcType::FILESHARE => 3,
        SmbcType::PRINTERSHARE => 4,
        SmbcType::COMMSSHARE => 5,
        SmbcType::IPCSHARE => 6,
        SmbcType::DIR => 7,
        SmbcType::FILE => 8,
        SmbcType::LINK => 9,
    }
}

/// Why a number that stands for no kind is refused.
pub open spec fn unknown_type() -> Seq<char> {
    "Unknown file type: "@
}

impl SmbcType {
    /// The number by which libsmbclient knows the kind.
    pub fn code(&self) -> (r: u32)
        ensures
            r == type_code(*self),
    {
        match self {
            SmbcType::WORKGROUP => 1,
            SmbcType::SERVER => 2,
            SmbcType::FILESHARE => 3,
            SmbcType::PRINTERSHARE => 4,
            SmbcType::COMMSSHARE => 5,
            SmbcType::IPCSHARE => 6,
            SmbcType::DIR => 7,
            SmbcType::FILE => 8,
            SmbcType::LINK => 9,
        }
    }

    /// The kind that a number stands for.
    pub fn from(t: u32) -> (r: Result<SmbcType, Error>)
        ensures
            match r {
                Ok(kind) => type_code(kind) == t,
                Err(e) => !(1 <= t <= 9) && e.is_invalid_data(unknown_type()),
            },
    {
        match t {
            1 => Ok(SmbcType::WORKGROUP),
            2 => Ok(SmbcType::SERVER),
            3 => Ok(SmbcType::FILESHARE),
            4 => Ok(SmbcType::PRINTERSHARE),
            5 => Ok(SmbcType::COMMSSHARE),
            6 => Ok(SmbcType::IPCSHARE),
            7 => Ok(SmbcType::DIR),
            8 => Ok(SmbcType::FILE),
            9 => Ok(SmbcType::LINK),
            _ => Err(Error::InvalidData("Unknown file type: ".to_owned())),
        }
    }
}

/// Each kind has a number from one to nine of its own, and each such number stands for a kind.
pub proof fn law_type_codes(a: SmbcType, b: SmbcType, t: u32)
    ensures
        1 <= type_code(a) <= 9,
        type_code(a) == type_code(b) ==> a == b,
        1 <= t <= 9 ==> exists|kind: SmbcType| #[trigger] type_code(kind) == t,
{
    assert(type_code(SmbcType::WORKGROUP) == 1);
    assert(type_code(SmbcType::SERVER) == 2);
    assert(type_code(SmbcType::FILESHARE) == 3);
    assert(type_code(SmbcType::PRINTERSHARE) == 4);
    assert(type_code(SmbcType::COMMSSHARE) == 5);
    assert(type_code(SmbcType::IPCSHARE) == 6);
    assert(type_code(SmbcType::DIR) == 7);
    assert(type_code(SmbcType::FILE) == 8);
    assert(type_code(SmbcType::LINK) == 9);
}

/// A directory entry.
#[derive(Debug, Clone, PartialEq, Eq)]
pub struct SmbcDirEntry {
    /// The kind of the entry.
    pub s_type: SmbcType,
    /// The comment that goes with the entry.
    pub comment: String,
    /// The name of the entry.
    pub path: String,
}

/// A directory entry as libsmbclient hands it out: the number of its kind, the bytes of its
/// comment up to the terminator, and the characters of its name.
#[derive(Debug, Clone, PartialEq, Eq)]
pub struct Dirent {
    pub smbc_type: u32,
    pub comment: Vec<u8>,
    pub name: Vec<i8>,
}

/// The value of a hexadecimal digit in either case.
pub open spec fn hex_value(b: u8) -> Option<u8> {
    if 48 <= b <= 57 {
        Some((b - 48) as u8)
    } else if 65 <= b <= 70 {
        Some((b - 55) as u8)
    } else if 97 <= b <= 102 {
        Some((b - 87) as u8)
    } else {
        None
    }
}

/// The bytes with each percent sign and the two hexadecimal digits after it replaced by the byte
/// that the digits denote. A percent sign that no such digits follow stays.
pub open spec fn percent_decoded(s: Seq<u8>) -> Seq<u8>
    decreases s.len(),
{
    if s.len() == 0 {
        Seq::empty()
    } else if s[0] == 37 && s.len() >= 3 && hex_value(s[1]) is Some && hex_value(s[2]) is Some {
        seq![(hex_value(s[1])->0 * 16 + hex_value(s[2])->0) as u8] + percent_decoded(s.skip(3))
    } else {
        seq![s[0]] + percent_decoded(s.skip(1))
    }
}

/// `percent_encoding::percent_decode`, collected: every percent sign that two hexadecimal digits
/// follow is replaced, with them, by the byte that they denote; the other bytes stay.
#[verifier::external_body]
fn percent_decode(bytes: &[u8]) -> (r: Vec<u8>)
    ensures
        r@ == percent_decoded(bytes@),
{
    percent_encoding::percent_decode(bytes).collect()
}

/// What `String::from_utf8_lossy` makes of some bytes.
pub uninterp spec fn utf8_lossy(bytes: Seq<u8>) -> Seq<char>;

/// The text is what some bytes say: their decoding where they are valid UTF-8, and what
/// [`utf8_lossy`] stands for in any case.
pub open spec fn is_lossy(bytes: Seq<u8>, text: Seq<char>) -> bool {
    &&& text == utf8_lossy(bytes)
    &&& valid_utf8(bytes) ==> text == decode_utf8(bytes)
}

/// `String::from_utf8_lossy`: bytes that are valid UTF-8 are decoded. In other bytes every invalid
/// sequence is replaced by the replacement character; how they are cut into such sequences is left
/// unsaid, but that the text depends on the bytes alone.
#[verifier::external_body]
fn from_utf8_lossy(bytes: &[u8]) -> (s: String)
    ensures
        s@ == utf8_lossy(bytes@),
        valid_utf8(bytes@) ==> s@ == decode_utf8(bytes@),
{
    String::from_utf8_lossy(bytes).into_owned()
}

/// The characters of a name as bytes.
pub open spec fn name_bytes(name: Seq<i8>) -> Seq<u8> {
    name.map_values(|c: i8| c as u8)
}

fn to_bytes(name: &Vec<i8>) -> (r: Vec<u8>)
    ensures
        r@ == name_bytes(name@),
{
    let mut bytes: Vec<u8> = Vec::new();
    let mut i: usize = 0;
    while i < name.len()
        invariant
            i <= name@.len(),
            bytes@ == name_bytes(name@).take(i as int),
        decreases name@.len() - i,
    {
        bytes.push(name[i] as u8);
        i += 1;
    }
    assert(name_bytes(name@).take(i as int) == name_bytes(name@));
    bytes
}

/// The result for an entry whose name has been turned into bytes: the entry, if its kind is known,
/// and an error otherwise.
pub open spec fn entry_result(
    dirent: Dirent,
    path: Seq<u8>,
    r: Result<SmbcDirEntry, Error>,
) -> bool {
    match r {
        Ok(entry) => type_code(entry.s_type) == dirent.smbc_type && is_lossy(
            dirent.comment@,
            entry.comment@,
        ) && is_lossy(path, entry.path@),
        Err(e) => !(1 <= dirent.smbc_type <= 9) && e.is_invalid_data(unknown_type()),
    }
}

fn entry_named(dirent: &Dirent, path: &[u8]) -> (r: Result<SmbcDirEntry, Error>)
    ensures
        entry_result(*dirent, path@, r),
{
    match SmbcType::from(dirent.smbc_type) {
        Ok(s_type) => Ok(
            SmbcDirEntry {
                s_type,
                comment: from_utf8_lossy(dirent.comment.as_slice()),
                path: from_utf8_lossy(path),
            },
        ),
        Err(e) => Err(e),
    }
}

/// The entry as it stands.
pub fn plain_entry(dirent: &Dirent) -> (r: Result<SmbcDirEntry, Error>)
    ensures
        entry_result(*dirent, name_bytes(dirent.name@), r),
{
    let name = to_bytes(&dirent.name);
    entry_named(dirent, name.as_slice())
}

/// The entry with its name percent-decoded.
pub fn decoded_entry(dirent: &Dirent) -> (r: Result<SmbcDirEntry, Error>)
    ensures
        entry_result(*dirent, percent_decoded(name_bytes(dirent.name@)), r),
{
    let name = to_bytes(&dirent.name);
    let decoded = percent_decode(name.as_slice());
    entry_named(dirent, decoded.as_slice())
}

/// Bytes without a percent sign are decoded to themselves.
pub proof fn law_nothing_to_decode(s: Seq<u8>)
    requires
        !s.contains(37),
    ensures
        percent_decoded(s) == s,
    decreases s.len(),
{
    if s.len() > 0 {
        assert(s.contains(s[0]));
        assert forall|i: int| 0 <= i < s.skip(1).len() implies s.skip(1)[i] != 37 by {
            assert(s.contains(s[i + 1]));
        }
        law_nothing_to_decode(s.skip(1));
        assert(seq![s[0]] + s.skip(1) == s);
    }
}

/// The bytes encode the name: each byte of it stands there as it is, unless it is a percent sign,
/// or as a percent sign and two hexadecimal digits.
pub open spec fn percent_encodes(s: Seq<u8>, name: Seq<u8>) -> bool
    decreases name.len(),
{
    if name.len() == 0 {
        s.len() == 0
    } else {
        ||| s.len() >= 1 && s[0] == name[0] && s[0] != 37 && percent_encodes(
            s.skip(1),
            name.skip(1),
        )
        ||| s.len() >= 3 && s[0] == 37 && hex_value(s[1]) is Some && hex_value(s[2]) is Some
            && hex_value(s[1])->0 * 16 + hex_value(s[2])->0 == name[0] && percent_encodes(
            s.skip(3),
            name.skip(1),
        )
    }
}

/// A name that was percent-encoded is decoded to what it was.
pub proof fn law_percent_encoded_names_survive(s: Seq<u8>, name: Seq<u8>)
    requires
        percent_encodes(s, name),
    ensures
        percent_decoded(s) == name,
    decreases name.len(),
{
    if name.len() > 0 {
        if s[0] == 37 {
            law_percent_encoded_names_survive(s.skip(3), name.skip(1));
        } else {
            law_percent_encoded_names_survive(s.skip(1), name.skip(1));
        }
        assert(seq![name[0]] + name.skip(1) == name);
    }
}

/// A name that was encoded in UTF-8 comes out as it was.
pub proof fn law_utf8_names_survive(name: Seq<char>, text: Seq<char>)
    requires
        is_lossy(encode_utf8(name), text),
    ensures
        text == name,
{
    encode_utf8_valid_utf8(name);
    encode_utf8_decode_utf8(name);
}

/// The number of every kind, and none besides.
pub proof fn law_kinds_are_numbered()
    ensures
        type_code(SmbcType::WORKGROUP) == 1,
        type_code(SmbcType::SERVER) == 2,
        type_code(SmbcType::FILESHARE) == 3,
        type_code(SmbcType::PRINTERSHARE) == 4,
        type_code(SmbcType::COMMSSHARE) == 5,
        type_code(SmbcType::IPCSHARE) == 6,
        type_code(SmbcType::DIR) == 7,
        type_code(SmbcType::FILE) == 8,
        type_code(SmbcType::LINK) == 9,
{
}

/// The characters of a name stand for the bytes: each is the byte, or the byte less 256 where that
/// does not fit.
pub open spec fn stands_for(name: Seq<i8>, bytes: Seq<u8>) -> bool {
    &&& name.len() == bytes.len()
    &&& forall|i: int|
        0 <= i < name.len() ==> #[trigger] name[i] as int == if bytes[i] < 128 {
            bytes[i] as int
        } else {
            bytes[i] - 256
        }
}

/// The characters of a name are taken for the bytes that they stand for.
pub proof fn law_names_are_their_bytes(name: Seq<i8>, bytes: Seq<u8>)
    requires
        stands_for(name, bytes),
    ensures
        name_bytes(name) == bytes,
{
    assert forall|i: int| 0 <= i < name.len() implies name_bytes(name)[i] == bytes[i] by {
        let (c, b) = (name[i], bytes[i]);
        if b < 128 {
            assert(c as u8 == b) by (bit_vector)
                requires
                    c == b,
                    b < 128,
            ;
        } else {
            assert(c as u8 == b) by (bit_vector)
                requires
                    c == b - 256,
                    b >= 128,
            ;
        }
    }
}

/// A byte is a hexadecimal digit exactly where its character is one, in either case, and then has
/// the value of the digit.
pub proof fn law_hexadecimal_digits(b: u8)
    ensures
        ({
            let lower = if 65 <= b <= 90 {
                (b + 32) as char
            } else {
                b as char
            };
            match hex_value(b) {
                Some(v) => digit_value(lower) == v,
                None => digit_value(lower) < 0,
            }
        }),
{
}

/// Names are decoded piece by piece, wherever they are cut, unless the cut may part a percent sign
/// from its digits; and a byte by itself stays.
pub proof fn law_pieces_are_decoded(a: Seq<u8>, b: Seq<u8>, c: u8)
    requires
        forall|i: int| a.len() - 2 <= i < a.len() && 0 <= i ==> a[i] != 37,
    ensures
        percent_decoded(a + b) == percent_decoded(a) + percent_decoded(b),
        percent_decoded(seq![c]) == seq![c],
        percent_decoded(Seq::empty()) == Seq::<u8>::empty(),
    decreases a.len(),
{
    assert(seq![c].skip(1) == Seq::<u8>::empty());
    assert(percent_decoded(seq![c].skip(1)) == Seq::<u8>::empty());
    assert(seq![c] + Seq::<u8>::empty() == seq![c]);
    let s = a + b;
    if a.len() == 0 {
        assert(s == b);
        assert(percent_decoded(a) + percent_decoded(b) == percent_decoded(b));
    } else {
        assert(s[0] == a[0]);
        if a.len() >= 3 {
            assert(s[1] == a[1] && s[2] == a[2]);
        }
        if a[0] == 37 && a.len() >= 3 && hex_value(a[1]) is Some && hex_value(a[2]) is Some {
            assert(s.skip(3) == a.skip(3) + b);
            law_pieces_are_decoded(a.skip(3), b, c);
        } else {
            assert(s.skip(1) == a.skip(1) + b);
            law_pieces_are_decoded(a.skip(1), b, c);
        }
        assert(percent_decoded(s) == percent_decoded(a) + percent_decoded(b));
    }
}

/// A percent sign and two hexadecimal digits are decoded to the byte of that value, and stay as
/// they are where one of them is no digit.
pub proof fn law_escapes_are_decoded(x: u8, y: u8)
    requires
        x != 37,
        y != 37,
    ensures
        match (hex_value(x), hex_value(y)) {
            (Some(h), Some(l)) => percent_decoded(seq![37u8, x, y]).len() == 1 && percent_decoded(
                seq![37u8, x, y],
            )[0] == 16 * h + l,
            _ => percent_decoded(seq![37u8, x, y]) == seq![37u8, x, y],
        },
        percent_decoded(seq![37u8, x]) == seq![37u8, x],
        percent_decoded(seq![37u8]) == seq![37u8],
{
    reveal_with_fuel(percent_decoded, 4);
    let s = seq![37u8, x, y];
    assert(s.skip(3) == Seq::<u8>::empty());
    assert(s.skip(1) == seq![x, y]);
    assert(seq![x, y].skip(1) == seq![y]);
    assert(seq![y].skip(1) == Seq::<u8>::empty());
    assert(seq![37u8, x].skip(1) == seq![x]);
    assert(seq![x].skip(1) == Seq::<u8>::empty());
    assert(seq![37u8].skip(1) == Seq::<u8>::empty());
    assert(seq![y] + percent_decoded(Seq::empty()) == seq![y]);
    assert(seq![x] + percent_decoded(Seq::empty()) == seq![x]);
    assert(percent_decoded(seq![x, y]) == seq![x, y]);
    assert(percent_decoded(seq![37u8, x]) == seq![37u8, x]);
    assert(percent_decoded(seq![37u8]) == seq![37u8]);
    if hex_value(x) is Some && hex_value(y) is Some {
        assert(percent_decoded(s) == seq![(hex_value(x)->0 * 16 + hex_value(y)->0) as u8]);
    } else {
        assert(percent_decoded(s) == s);
    }
}

} // verus!
