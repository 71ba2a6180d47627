//! Texts, times, masks, identifiers and entries.

use vstd::prelude::*;
use vstd::utf8::*;
use crate::ace::{AceAtype, SidType, ACE};
use crate::error::Error;
use crate::flags::{has_bits, AceFlag, XAttrMask};
use crate::mask::{
    has_all_letters, is_name, law_text_reads_as_the_least_mask, mask_of, mask_text, permission,
};
use crate::sid::{ends_sid, law_sid_text_reads_back, sid_of, sid_parse, sid_text, Sid};
use crate::text::{joinable, law_lists_are_joined, separated, Text};
use crate::time::{
    micros_mod_sec, num_hours, num_microseconds, num_milliseconds,
    num_minutes, num_seconds, stat_hours, stat_micros_mod_sec, stat_microseconds,
    stat_milliseconds, stat_minutes, stat_seconds, timespec_secs_text, timeval_secs_text, utc_text,
    TimeSpec, TimeVal,
};

verus! {

/// The text that is written of a value is its text, and whether it has one is told truly.
pub proof fn law_texts_are_written<T: Text>(value: &T, s: String, told: bool)
    requires
        call_ensures(T::to_string, (value,), s),
        call_ensures(T::is_printable, (value,), told),
    ensures
        s@ == value.text(),
        told <==> value.printable(),
        value.printable() ==> call_requires(T::to_string, (value,)),
{
}

/// A list of one item is written as the item, and one with an item more as the list without it, the
/// delimiter and the item.
pub proof fn law_separated<T: Text>(
    one: &[T],
    list: &[T],
    longer: &[T],
    item: T,
    delimiter: &str,
    single: String,
    short: String,
    long: String,
)
    requires
        one@ == seq![item],
        list@.len() > 0,
        longer@ == list@.push(item),
        call_ensures(separated::<T>, (one, delimiter), single),
        call_ensures(separated::<T>, (list, delimiter), short),
        call_ensures(separated::<T>, (longer, delimiter), long),
    ensures
        single@ == item.text(),
        long@ == short@ + delimiter@ + item.text(),
        joinable(list@) ==> call_requires(separated::<T>, (list, delimiter)),
{
    law_lists_are_joined(list@, item, delimiter@);
}

/// A whole number is another divided and rounded towards zero.
pub open spec fn rounds_to(a: int, b: int, q: int) -> bool {
    if a >= 0 {
        q * b <= a < (q + 1) * b
    } else {
        (q - 1) * b < a <= q * b
    }
}

/// The whole seconds of a time are the time rounded towards zero, if its fraction is one of a
/// second; they are the seconds that it holds, and one more before the epoch where it has a
/// fraction. Its minutes and hours are rounded towards zero too. Its microseconds are a million for
/// each second and the fraction; its milliseconds are a thousandth of that, rounded towards zero.
pub proof fn law_num_units(
    t: TimeVal,
    hours: i64,
    minutes: i64,
    seconds: i64,
    millis: i64,
    micros: i64,
    part: i64,
    text: String,
)
    requires
        call_ensures(num_hours, (t,), hours),
        call_ensures(num_minutes, (t,), minutes),
        call_ensures(num_seconds, (t,), seconds),
        call_ensures(num_milliseconds, (t,), millis),
        call_ensures(num_microseconds, (t,), micros),
        call_ensures(micros_mod_sec, (t,), part),
        call_ensures(timeval_secs_text, (t,), text),
    ensures
        0 <= t.tv_usec < 1_000_000 ==> rounds_to(
            t.tv_sec * 1_000_000 + t.tv_usec,
            1_000_000,
            seconds as int,
        ),
        t.tv_sec < 0 < t.tv_usec ==> seconds == t.tv_sec + 1,
        t.tv_sec >= 0 || t.tv_usec <= 0 ==> seconds == t.tv_sec,
        rounds_to(seconds as int, 60, minutes as int),
        rounds_to(seconds as int, 3600, hours as int),
        micros == t.tv_sec * 1_000_000 + t.tv_usec,
        rounds_to(micros as int, 1000, millis as int),
        seconds * 1_000_000 + part == micros,
        text@ == utc_text(seconds as int),
        -9_000_000_000_000 <= t.tv_sec <= 9_000_000_000_000 && 0 <= t.tv_usec < 1_000_000 ==>
            call_requires(
            num_microseconds,
            (t,),
        ) && call_requires(num_milliseconds, (t,)),
        -8_334_601_228_800 <= t.tv_sec <= 8_210_266_876_799 ==>
            call_requires(timeval_secs_text, (t,)),
{
}

/// The whole seconds of a time are the time rounded towards zero, if its fraction is one of a
/// second; they are the seconds that it holds, and one more before the epoch where it has a
/// fraction. Its minutes and hours are rounded towards zero too. Its microseconds are a million for
/// each second and the fraction; its milliseconds are a thousandth of that, rounded towards zero.
/// The fraction is added to the microseconds as it stands.
pub proof fn law_stat_units(
    t: TimeSpec,
    hours: i64,
    minutes: i64,
    seconds: i64,
    millis: i64,
    micros: i64,
    part: i64,
    text: String,
)
    requires
        call_ensures(stat_hours, (t,), hours),
        call_ensures(stat_minutes, (t,), minutes),
        call_ensures(stat_seconds, (t,), seconds),
        call_ensures(stat_milliseconds, (t,), millis),
        call_ensures(stat_microseconds, (t,), micros),
        call_ensures(stat_micros_mod_sec, (t,), part),
        call_ensures(timespec_secs_text, (t,), text),
    ensures
        0 <= t.tv_nsec < 1_000_000_000 ==> rounds_to(
            t.tv_sec * 1_000_000_000 + t.tv_nsec,
            1_000_000_000,
            seconds as int,
        ),
        t.tv_sec < 0 < t.tv_nsec ==> seconds == t.tv_sec + 1,
        t.tv_sec >= 0 || t.tv_nsec <= 0 ==> seconds == t.tv_sec,
        rounds_to(seconds as int, 60, minutes as int),
        rounds_to(seconds as int, 3600, hours as int),
        micros == t.tv_sec * 1_000_000 + t.tv_nsec,
        rounds_to(micros as int, 1000, millis as int),
        seconds * 1_000_000 + part == micros,
        text@ == utc_text(seconds as int),
        -9_000_000_000_000 <= t.tv_sec <= 9_000_000_000_000 && 0 <= t.tv_nsec < 1_000_000_000 ==>
            call_requires(
            stat_microseconds,
            (t,),
        ) && call_requires(stat_milliseconds, (t,)),
        -8_334_601_228_800 <= t.tv_sec <= 8_210_266_876_799 ==>
            call_requires(timespec_secs_text, (t,)),
{
}

/// A text reads as a mask with the permission of every letter in it and no bit more than these
/// need, unless it is a name or has all six letters; those read as the masks that they are for.
pub proof fn law_masks_are_read(text: &str, letter: char, other: i32, m: XAttrMask)
    requires
        call_ensures(XAttrMask::from_string, (text,), m),
    ensures
        !is_name(text@) && text@.contains(letter) ==> has_bits(m@, permission(letter) as i32),
        !is_name(text@) && !has_all_letters(text@) && (forall|c: char|
            text@.contains(c) ==> #[trigger] has_bits(other, permission(c) as i32)) ==> has_bits(
            other,
            m@,
        ),
        has_all_letters(text@) && !is_name(text@) ==> m@ == 0x001f_01ff,
        text@ == "READ"@ ==> m@ == 0x0012_00a9,
        text@ == "CHANGE"@ ==> m@ == 0x0013_01bf,
        text@ == "FULL"@ ==> m@ == 0x001f_01ff,
        call_requires(XAttrMask::from_string, (text,)),
{
    let none = Seq::<char>::empty();
    reveal_strlit("READ");
    reveal_strlit("CHANGE");
    reveal_strlit("FULL");
    assert("READ"@.len() == 4 && "CHANGE"@.len() == 6 && "FULL"@.len() == 4);
    assert(!is_name(none));
    law_text_reads_as_the_least_mask(none, letter, other);
    if !is_name(text@) {
        law_text_reads_as_the_least_mask(text@, letter, other);
    }
}

/// An identifier that was written is read back, whatever follows it, unless that goes on with it;
/// and what is read of any bytes is the longest identifier that they start with.
pub proof fn law_identifiers_are_read(
    input: &[u8],
    numbers: Seq<u64>,
    rest: Seq<u8>,
    r: Option<Sid>,
)
    requires
        call_ensures(sid_parse, (input,), r),
    ensures
        numbers.len() > 0 && ends_sid(rest) && input@ == encode_utf8(sid_text(numbers)) + rest ==> (
        r matches Some(sid) && sid@ == numbers),
        r is Some <==> sid_of(input@) is Some,
        r matches Some(sid) ==> sid_of(input@) == Some(sid@),
        input@.len() < 5 || input@.take(4) != seq![83u8, 45u8, 49u8, 45u8] ==> r is None,
        call_requires(sid_parse, (input,)),
{
    if numbers.len() > 0 && ends_sid(rest) {
        law_sid_text_reads_back(numbers, rest);
    }
    if r is Some {
        let tail = input@.skip(3);
        assert(tail.len() > 1 && tail[0] == 45) by {
            assert(crate::sid::starts_group(tail));
            crate::sid::lemma_run_within(tail.skip(1));
        }
        assert(input@[3] == tail[0]);
        assert(input@.take(4) == seq![83u8, 45u8, 49u8, 45u8]);
    }
}

/// An entry gives back what it was made of. A named one has the text of its mask where it was made
/// with a mask.
pub proof fn law_entries_are_made(
    sid: Sid,
    name: &str,
    atype: AceAtype,
    flag: AceFlag,
    mask: XAttrMask,
    text: &str,
    numeric: ACE,
    named: ACE,
    masked: ACE,
)
    requires
        call_ensures(ACE::new_num, (sid, atype, flag, mask), numeric),
        call_ensures(ACE::new_named, (name, atype, flag, text), named),
        call_ensures(ACE::new_named_with_mask, (name, atype, flag, mask), masked),
    ensures
        numeric matches ACE::Numeric(SidType::Numeric(Some(s)), a, f, m) && s@ == sid@ && a == atype
            && f@ == flag@ && m@ == mask@,
        named matches ACE::Named(SidType::Named(Some(s)), a, f, m) && s@ == name@ && a == atype
            && f@ == flag@ && m@ == text@,
        masked matches ACE::Named(SidType::Named(Some(s)), a, f, m) && s@ == name@ && a == atype
            && f@ == flag@ && m@ == mask_text(mask@),
{
}

/// The error says that an attribute makes no sense, with this message.
pub open spec fn complains(e: Error, message: Seq<char>) -> bool {
    e matches Error::SmbcXAttrError(m) && m@ == message
}

/// An entry whose identifier is of its own kind gives its type, its flags, its mask and its kind;
/// one whose identifier is of the other kind refuses all of them.
pub proof fn law_entries_are_asked(
    ace: &ACE,
    atype: Result<AceAtype, Error>,
    flag: Result<AceFlag, Error>,
    mask: Result<XAttrMask, Error>,
    text: Result<String, Error>,
    numeric: Result<bool, Error>,
)
    requires
        call_ensures(ACE::acetype, (ace,), atype),
        call_ensures(ACE::aceflag, (ace,), flag),
        call_ensures(ACE::mask, (ace,), mask),
        call_ensures(ACE::mask_string, (ace,), text),
        call_ensures(ACE::is_numeric, (ace,), numeric),
    ensures
        match *ace {
            ACE::Numeric(SidType::Numeric(_), a, f, m) => {
                &&& atype == Ok::<AceAtype, Error>(a)
                &&& flag == Ok::<AceFlag, Error>(f)
                &&& mask matches Ok(got) && got@ == m@
                &&& text matches Ok(got) && got@ == mask_text(m@)
                &&& numeric == Ok::<bool, Error>(true)
            },
            ACE::Named(SidType::Named(_), a, f, m) => {
                &&& atype == Ok::<AceAtype, Error>(a)
                &&& flag == Ok::<AceFlag, Error>(f)
                &&& mask matches Ok(got) && got@ == mask_of(m@)
                &&& text matches Ok(got) && got@ == m@
                &&& m@ == "FULL"@ ==> mask->Ok_0@ == 0x001f_01ff
                &&& m@ == "CHANGE"@ ==> mask->Ok_0@ == 0x0013_01bf
                &&& m@ == "READ"@ ==> mask->Ok_0@ == 0x0012_00a9
                &&& numeric == Ok::<bool, Error>(false)
            },
            _ => {
                let message = "Mismatched ACE and SidType!"@;
                &&& atype matches Err(e) && complains(e, message)
                &&& flag matches Err(e) && complains(e, message)
                &&& mask matches Err(e) && complains(e, message)
                &&& text matches Err(e) && complains(e, message)
                &&& numeric matches Err(e) && complains(e, message)
            },
        },
{
    let none = Seq::<char>::empty();
    reveal_strlit("READ");
    reveal_strlit("CHANGE");
    reveal_strlit("FULL");
    assert("READ"@.len() == 4 && "CHANGE"@.len() == 6 && "FULL"@.len() == 4);
    assert(!is_name(none));
    law_text_reads_as_the_least_mask(none, 'R', 0);
}

/// The identifier of an entry comes out as it went in: the numbers of a numeric one, the name of a
/// named one, and the numbers of a name that is the text of an identifier. It is refused where
/// there is none, where it is of the other kind, and where a name is no identifier.
pub proof fn law_identifiers_come_out(
    ace: &ACE,
    numbers: Seq<u64>,
    sid: Result<Sid, Error>,
    text: Result<String, Error>,
)
    requires
        call_ensures(ACE::sid, (ace,), sid),
        call_ensures(ACE::sid_string, (ace,), text),
    ensures
        match *ace {
            ACE::Numeric(SidType::Numeric(Some(s)), _, _, _) => {
                &&& sid matches Ok(got) && got@ == s@
                &&& text matches Ok(got) && got@ == sid_text(s@)
            },
            ACE::Named(SidType::Named(Some(s)), _, _, _) => {
                &&& text matches Ok(got) && got@ == s@
                &&& numbers.len() > 0 && s@ == sid_text(numbers) ==> (sid matches Ok(got) && got@
                    == numbers)
                &&& match sid_of(encode_utf8(s@)) {
                    Some(read) => sid matches Ok(got) && got@ == read,
                    None => sid matches Err(e) && complains(e, "Unable to parse SID!"@),
                }
            },
            ACE::Numeric(SidType::Numeric(None), _, _, _) | ACE::Named(
                SidType::Named(None),
                _,
                _,
                _,
            ) => {
                &&& sid matches Err(e) && complains(e, "SidType is None!"@)
                &&& text matches Err(e) && complains(e, "SidType is None!"@)
            },
            _ => {
                &&& sid matches Err(e) && complains(e, "Mismatched ACE and SidType!"@)
                &&& text matches Err(e) && complains(e, "Mismatched ACE and SidType!"@)
            },
        },
{
    if numbers.len() > 0 {
        let bytes = encode_utf8(sid_text(numbers));
        law_sid_text_reads_back(numbers, Seq::empty());
        assert(bytes + Seq::<u8>::empty() == bytes);
    }
}

} // verus!
