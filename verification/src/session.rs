//! Credentials, and how libsmbclient gets them.

use vstd::prelude::*;
use vstd::utf8::*;
use crate::call::{law_texts_are_read_up_to_nul, nul_free, until_nul};
use crate::client::Smbc;

verus! {

/// The credentials that are used where none were set: workgroup, user name and password.
pub fn default_user_data() -> (data: Vec<String>)
    ensures
        data@.len() == 3,
        data@[0]@ == "WORKGROUP"@,
        data@[1]@ == "guest"@,
        data@[2]@ == ""@,
{
    let mut data: Vec<String> = Vec::new();
    data.push("WORKGROUP".to_owned());
    data.push("guest".to_owned());
    data.push("".to_owned());
    data
}

/// The text at a place, or the given one where there is none.
pub open spec fn text_or(data: Seq<String>, place: int, default: Seq<char>) -> Seq<char> {
    if place < data.len() {
        data[place]@
    } else {
        default
    }
}

/// The workgroup among some credentials.
pub open spec fn workgroup_of(data: Seq<String>) -> Seq<char> {
    text_or(data, 0, "WORKGROUP"@)
}

/// The user name among some credentials.
pub open spec fn username_of(data: Seq<String>) -> Seq<char> {
    text_or(data, 1, "guest"@)
}

/// The password among some credentials.
pub open spec fn password_of(data: Seq<String>) -> Seq<char> {
    text_or(data, 2, ""@)
}

fn get_or(data: &Vec<String>, place: usize, default: &str) -> (s: String)
    ensures
        s@ == text_or(data@, place as int, default@),
{
    if place < data.len() {
        data[place].as_str().to_owned()
    } else {
        default.to_owned()
    }
}

/// The workgroup, user name and password. Where one is missing its default stands in.
pub fn credentials(data: &Vec<String>) -> (r: (String, String, String))
    ensures
        r.0@ == workgroup_of(data@),
        r.1@ == username_of(data@),
        r.2@ == password_of(data@),
{
    (get_or(data, 0, "WORKGROUP"), get_or(data, 1, "guest"), get_or(data, 2, ""))
}

/// The bytes up to the first NUL byte, and a NUL byte for each byte from there on.
pub open spec fn zero_padded(bytes: Seq<u8>) -> Seq<u8> {
    until_nul(bytes) + Seq::new((bytes.len() - until_nul(bytes).len()) as nat, |i: int| 0u8)
}

/// The buffer with a text laid over its start. No terminator is added.
pub open spec fn overlaid(buffer: Seq<u8>, text: Seq<char>) -> Seq<u8> {
    zero_padded(encode_utf8(text)) + buffer.skip(encode_utf8(text).len() as int)
}

proof fn lemma_until_nul(bytes: Seq<u8>, n: int)
    requires
        0 <= n <= bytes.len(),
        forall|i: int| 0 <= i < n ==> bytes[i] != 0,
        n < bytes.len() ==> bytes[n] == 0,
    ensures
        until_nul(bytes) == bytes.take(n),
    decreases n,
{
    if n > 0 {
        assert forall|i: int| 0 <= i < n - 1 implies bytes.skip(1)[i] != 0 by {
            assert(bytes.skip(1)[i] == bytes[i + 1]);
        }
        lemma_until_nul(bytes.skip(1), n - 1);
        assert(seq![bytes[0]] + bytes.skip(1).take(n - 1) == bytes.take(n));
    } else {
        assert(bytes.take(0) == Seq::<u8>::empty());
    }
}

/// How many bytes stand before the first NUL byte.
fn text_len(bytes: &[u8]) -> (n: usize)
    ensures
        n <= bytes@.len(),
        until_nul(bytes@) == bytes@.take(n as int),
{
    let mut n: usize = 0;
    while n < bytes.len() && bytes[n] != 0
        invariant
            n <= bytes@.len(),
            forall|i: int| 0 <= i < n ==> bytes@[i] != 0,
        decreases bytes@.len() - n,
    {
        n += 1;
    }
    proof {
        lemma_until_nul(bytes@, n as int);
    }
    n
}

/// The text up to its first NUL byte, terminated.
pub(crate) fn terminated(text: &String) -> (r: Vec<u8>)
    ensures
        r@ == until_nul(encode_utf8(text@)).push(0),
{
    let bytes = text.as_str().as_bytes();
    let n: usize = text_len(bytes);
    let mut v: Vec<u8> = Vec::new();
    let mut i: usize = 0;
    while i < n
        invariant
            i <= n <= bytes@.len(),
            v@ == bytes@.take(i as int),
        decreases n - i,
    {
        v.push(bytes[i]);
        i += 1;
    }
    v.push(0);
    v
}

/// Lays a text over the start of the buffer.
fn overlay(buffer: &mut Vec<u8>, text: &String)
    requires
        encode_utf8(text@).len() <= old(buffer)@.len(),
    ensures
        final(buffer)@ == overlaid(old(buffer)@, text@),
{
    let bytes = text.as_str().as_bytes();
    let n: usize = text_len(bytes);
    let mut i: usize = 0;
    while i < bytes.len()
        invariant
            i <= bytes@.len() <= buffer@.len(),
            old(buffer)@.len() == buffer@.len(),
            n <= bytes@.len(),
            bytes@ == encode_utf8(text@),
            until_nul(bytes@) == bytes@.take(n as int),
            buffer@ == zero_padded(bytes@).take(i as int) + old(buffer)@.skip(i as int),
        decreases bytes@.len() - i,
    {
        let b: u8 = if i < n {
            bytes[i]
        } else {
            0
        };
        assert(zero_padded(bytes@).len() == bytes@.len());
        assert(zero_padded(bytes@)[i as int] == b);
        buffer.set(i, b);
        i += 1;
    }
    assert(zero_padded(bytes@).take(i as int) == zero_padded(bytes@));
}

impl Smbc {
    /// Sets the workgroup, the user name and the password.
    pub fn set_data(data: &mut Vec<String>, wg: String, un: String, pw: String)
        requires
            old(data)@.len() >= 3,
        ensures
            final(data)@ == old(data)@.update(0, wg).update(1, un).update(2, pw),
    {
        data.set(0, wg);
        data.set(1, un);
        data.set(2, pw);
    }

    /// Answers the question for credentials: each is laid over the start of the buffer for it.
    pub fn auth_wrapper(
        data: &Vec<String>,
        wg: &mut Vec<u8>,
        un: &mut Vec<u8>,
        pw: &mut Vec<u8>,
    )
        requires
            encode_utf8(workgroup_of(data@)).len() <= old(wg)@.len(),
            encode_utf8(username_of(data@)).len() <= old(un)@.len(),
            encode_utf8(password_of(data@)).len() <= old(pw)@.len(),
        ensures
            final(wg)@ == overlaid(old(wg)@, workgroup_of(data@)),
            final(un)@ == overlaid(old(un)@, username_of(data@)),
            final(pw)@ == overlaid(old(pw)@, password_of(data@)),
    {
        let (workgroup, username, password) = credentials(data);
        overlay(wg, &workgroup);
        overlay(un, &username);
        overlay(pw, &password);
    }
}

/// What was set is what is used, and where nothing was set the defaults are.
pub proof fn law_set_credentials_are_used(
    data: Seq<String>,
    wg: String,
    un: String,
    pw: String,
)
    requires
        data.len() >= 3,
    ensures
        workgroup_of(data.update(0, wg).update(1, un).update(2, pw)) == wg@,
        username_of(data.update(0, wg).update(1, un).update(2, pw)) == un@,
        password_of(data.update(0, wg).update(1, un).update(2, pw)) == pw@,
        workgroup_of(Seq::empty()) == "WORKGROUP"@,
        username_of(Seq::empty()) == "guest"@,
        password_of(Seq::empty()) == ""@,
{
}

/// A cleared buffer that is longer than a text reads as the text, up to its first NUL byte, once
/// the text is laid over it.
pub proof fn law_cleared_buffer_reads_as_text(buffer: Seq<u8>, text: Seq<char>)
    requires
        forall|i: int| 0 <= i < buffer.len() ==> buffer[i] == 0,
        encode_utf8(text).len() < buffer.len(),
    ensures
        until_nul(overlaid(buffer, text)) == until_nul(encode_utf8(text)),
{
    let bytes = encode_utf8(text);
    let n = until_nul(bytes).len() as int;
    lemma_until_nul_is_prefix(bytes);
    let over = overlaid(buffer, text);
    assert(over.take(n) == until_nul(bytes));
    assert forall|i: int| 0 <= i < n implies over[i] != 0 by {
        assert(over[i] == until_nul(bytes)[i]);
    }
    lemma_until_nul(over, n);
}

proof fn lemma_until_nul_is_prefix(bytes: Seq<u8>)
    ensures
        until_nul(bytes).len() <= bytes.len(),
        forall|i: int| 0 <= i < until_nul(bytes).len() ==> until_nul(bytes)[i] != 0,
    decreases bytes.len(),
{
    if bytes.len() > 0 && bytes[0] != 0 {
        lemma_until_nul_is_prefix(bytes.skip(1));
        assert forall|i: int| 0 <= i < until_nul(bytes).len() implies until_nul(bytes)[i] != 0 by {
            if i > 0 {
                assert(until_nul(bytes)[i] == until_nul(bytes.skip(1))[i - 1]);
            }
        }
    }
}

/// The bytes of a text without a NUL character are free of NUL.
pub proof fn law_text_without_nul(text: Seq<char>)
    requires
        !text.contains('\0'),
    ensures
        nul_free(encode_utf8(text)),
    decreases text.len(),
{
    if text.len() > 0 {
        let bytes = encode_utf8(text);
        let rest = text.drop_first();
        encode_utf8_first_scalar(text);
        assert(text.contains(text[0]));
        assert forall|i: int| 0 <= i < rest.len() implies rest[i] != '\0' by {
            assert(text.contains(text[i + 1]));
        }
        law_text_without_nul(rest);
        let n = length_of_first_scalar(bytes);
        let scalar = text[0] as u32;
        char_u32_cast(text[0], scalar);
        assert(scalar == 0 ==> scalar as char == '\0');
        assert(0u8 & 0x7f == 0) by (bit_vector);
        assert(bytes[0] != 0);
        assert(bytes == bytes.take(n) + encode_utf8(rest));
        assert forall|i: int| 0 <= i < bytes.len() implies bytes[i] != 0 by {
            if i >= n {
                assert(bytes[i] == encode_utf8(rest)[i - n]);
            }
        }
    }
}

/// Each credential is the one at its place, if there are that many, and its default otherwise.
pub proof fn law_credentials_have_places(data: Seq<String>)
    ensures
        data.len() > 0 ==> workgroup_of(data) == data[0]@,
        data.len() > 1 ==> username_of(data) == data[1]@,
        data.len() > 2 ==> password_of(data) == data[2]@,
        data.len() <= 0 ==> workgroup_of(data) == seq!['W', 'O', 'R', 'K', 'G', 'R', 'O', 'U', 'P'],
        data.len() <= 1 ==> username_of(data) == seq!['g', 'u', 'e', 's', 't'],
        data.len() <= 2 ==> password_of(data).len() == 0,
{
    reveal_strlit("WORKGROUP");
    reveal_strlit("guest");
    reveal_strlit("");
    assert("WORKGROUP"@.len() == 9);
}

/// A text without a NUL character takes the place of as many bytes of the buffer as it has, whole,
/// and the rest of the buffer stays. Of one with a NUL character the part before it does, and
/// zeros take the place of the other bytes.
pub proof fn law_buffers_are_overlaid(
    buffer: Seq<u8>,
    text: Seq<char>,
    a: Seq<u8>,
    b: Seq<u8>,
)
    requires
        encode_utf8(text).len() <= buffer.len(),
    ensures
        !text.contains('\0') ==> overlaid(buffer, text) == encode_utf8(text) + buffer.skip(
            encode_utf8(text).len() as int,
        ),
        nul_free(a) && encode_utf8(text) == a + seq![0u8] + b ==> {
            &&& overlaid(buffer, text).len() == buffer.len()
            &&& overlaid(buffer, text).take(a.len() as int) == a
            &&& forall|i: int|
                a.len() <= i < encode_utf8(text).len() ==> overlaid(buffer, text)[i] == 0
            &&& forall|i: int|
                encode_utf8(text).len() <= i < buffer.len() ==> overlaid(buffer, text)[i]
                    == buffer[i]
        },
{
    let bytes = encode_utf8(text);
    if !text.contains('\0') {
        law_text_without_nul(text);
        law_texts_are_read_up_to_nul(bytes, Seq::empty());
        assert(zero_padded(bytes) == bytes);
    }
    if nul_free(a) && bytes == a + seq![0u8] + b {
        law_texts_are_read_up_to_nul(a, b);
        assert(overlaid(buffer, text).take(a.len() as int) == a);
    }
}

} // verus!
