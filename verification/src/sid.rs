//! Security identifiers.

use vstd::prelude::*;
use vstd::utf8::*;
use crate::reading::{law_decimal_holds_digits, law_decimal_reads_back, reads_decimal};
use crate::text::{
    decimal, digit_char, joined, law_lists_are_joined, numeral, separated, texts, Text,
};

verus! {

/// A numeric security identifier of revision one: its authority and sub-authorities, in order.
#[derive(Debug, PartialEq, Eq)]
pub struct Sid(pub Vec<u64>);

impl View for Sid {
    type V = Seq<u64>;

    open spec fn view(&self) -> Seq<u64> {
        self.0@
    }
}

impl Clone for Sid {
    fn clone(&self) -> (r: Sid)
        ensures
            r@ == self@,
    {
        let numbers = self.0.clone();
        assert(numbers@ =~= self.0@);
        Sid(numbers)
    }
}

/// The text of a security identifier: `S-1-` and its numbers, with dashes between them.
pub open spec fn sid_text(numbers: Seq<u64>) -> Seq<char> {
    "S-1-"@ + joined(texts(numbers), "-"@)
}

impl Text for Sid {
    open spec fn text(&self) -> Seq<char> {
        sid_text(self@)
    }

    open spec fn printable(&self) -> bool {
        self@.len() > 0
    }

    fn is_printable(&self) -> (r: bool) {
        self.0.len() > 0
    }

    fn to_string(&self) -> (s: String) {
        let mut dash_separated = String::new();
        dash_separated.append("S-1-");
        let s = separated(self.0.as_slice(), "-");
        dash_separated.append(s.as_str());
        dash_separated
    }
}

/// The byte is an ASCII digit.
pub open spec fn is_digit(b: u8) -> bool {
    48 <= b <= 57
}

/// How many digits the bytes start with.
pub open spec fn digit_run(s: Seq<u8>) -> nat
    decreases s.len(),
{
    if s.len() > 0 && is_digit(s[0]) {
        1 + digit_run(s.skip(1))
    } else {
        0
    }
}

/// The number that a sequence of digits denotes.
pub open spec fn digits_value(s: Seq<u8>) -> nat
    decreases s.len(),
{
    if s.len() == 0 {
        0
    } else {
        digits_value(s.drop_last()) * 10 + (s.last() - 48) as nat
    }
}

/// The bytes start with a dash and a number that fits in 64 bits.
pub open spec fn starts_group(s: Seq<u8>) -> bool {
    &&& s.len() > 0
    &&& s[0] == 45
    &&& digit_run(s.skip(1)) > 0
    &&& digits_value(s.skip(1).take(digit_run(s.skip(1)) as int)) <= u64::MAX
}

/// The numbers of the longest row of groups, each a dash and a number, that the bytes start with.
pub open spec fn groups(s: Seq<u8>) -> Seq<u64>
    decreases s.len(),
{
    if starts_group(s) {
        let n = digit_run(s.skip(1));
        proof {
            lemma_run_within(s.skip(1));
        }
        seq![digits_value(s.skip(1).take(n as int)) as u64] + groups(s.skip(1 + n as int))
    } else {
        Seq::empty()
    }
}

/// The security identifier that the bytes start with, if there is one: `S-1` and at least one
/// group. Whatever follows is left aside.
pub open spec fn sid_of(s: Seq<u8>) -> Option<Seq<u64>> {
    if s.len() >= 3 && s[0] == 83 && s[1] == 45 && s[2] == 49 && starts_group(s.skip(3)) {
        Some(groups(s.skip(3)))
    } else {
        None
    }
}

proof fn lemma_digit_run(s: Seq<u8>, n: int)
    requires
        0 <= n <= s.len(),
        forall|i: int| 0 <= i < n ==> is_digit(#[trigger] s[i]),
        n == s.len() || !is_digit(s[n]),
    ensures
        digit_run(s) == n,
    decreases n,
{
    if n > 0 {
        assert(is_digit(s[0]));
        assert forall|i: int| 0 <= i < n - 1 implies is_digit(#[trigger] s.skip(1)[i]) by {
            assert(s.skip(1)[i] == s[i + 1]);
        }
        lemma_digit_run(s.skip(1), n - 1);
    }
}

/// The row of digits lies within the bytes.
pub proof fn lemma_run_within(s: Seq<u8>)
    ensures
        digit_run(s) <= s.len(),
    decreases s.len(),
{
    if s.len() > 0 && is_digit(s[0]) {
        lemma_run_within(s.skip(1));
    }
}

proof fn lemma_prefix_value(s: Seq<u8>, k: int)
    requires
        0 <= k <= s.len(),
        forall|i: int| 0 <= i < s.len() ==> is_digit(#[trigger] s[i]),
    ensures
        digits_value(s.take(k)) <= digits_value(s),
    decreases s.len(),
{
    if k == s.len() {
        assert(s.take(k) == s);
    } else {
        assert forall|i: int| 0 <= i < s.drop_last().len() implies is_digit(
            #[trigger] s.drop_last()[i],
        ) by {
            assert(s.drop_last()[i] == s[i]);
        }
        lemma_prefix_value(s.drop_last(), k);
        assert(s.drop_last().take(k) == s.take(k));
        assert(is_digit(s[s.len() - 1]));
    }
}

/// The end of the row of digits from `start` on.
fn digits_end(input: &[u8], start: usize) -> (end: usize)
    requires
        start <= input@.len(),
    ensures
        start <= end <= input@.len(),
        end - start == digit_run(input@.skip(start as int)),
        forall|i: int| start <= i < end ==> is_digit(#[trigger] input@[i]),
{
    let mut end: usize = start;
    while end < input.len() && 48 <= input[end] && input[end] <= 57
        invariant
            start <= end <= input@.len(),
            forall|i: int| start <= i < end ==> is_digit(#[trigger] input@[i]),
        ensures
            end == input@.len() || !is_digit(input@[end as int]),
        decreases input@.len() - end,
    {
        end += 1;
    }
    proof {
        let s = input@.skip(start as int);
        assert forall|i: int| 0 <= i < end - start implies is_digit(#[trigger] s[i]) by {
            assert(s[i] == input@[start + i]);
        }
        lemma_digit_run(s, end - start);
    }
    end
}

/// The number that the digits from `start` to `end` denote, if it fits in 64 bits.
fn digits_number(input: &[u8], start: usize, end: usize) -> (r: Option<u64>)
    requires
        start <= end <= input@.len(),
        forall|i: int| start <= i < end ==> is_digit(#[trigger] input@[i]),
    ensures
        match r {
            Some(v) => v == digits_value(input@.subrange(start as int, end as int)),
            None => digits_value(input@.subrange(start as int, end as int)) > u64::MAX,
        },
{
    let ghost all = input@.subrange(start as int, end as int);
    let mut v: u64 = 0;
    let mut i: usize = start;
    assert(all.take(0).len() == 0);
    while i < end
        invariant
            start <= i <= end <= input@.len(),
            forall|k: int| start <= k < end ==> is_digit(#[trigger] input@[k]),
            all == input@.subrange(start as int, end as int),
            v == digits_value(all.take(i - start)),
        decreases end - i,
    {
        assert(is_digit(input@[i as int]));
        let d: u64 = (input[i] - 48) as u64;
        assert(all.take(i - start + 1).drop_last() == all.take(i - start));
        assert(all.take(i - start + 1).last() == input@[i as int]);
        assert(digits_value(all.take(i - start + 1)) == v * 10 + d);
        if v > (u64::MAX - d) / 10 {
            proof {
                assert forall|k: int| 0 <= k < all.len() implies is_digit(#[trigger] all[k]) by {
                    assert(all[k] == input@[start + k]);
                }
                lemma_prefix_value(all, i - start + 1);
            }
            return None;
        }
        v = v * 10 + d;
        i += 1;
    }
    assert(all.take(end - start) == all);
    Some(v)
}

/// Reads the security identifier that the bytes start with.
pub fn sid_parse(input: &[u8]) -> (r: Option<Sid>)
    ensures
        match r {
            Some(sid) => sid_of(input@) == Some(sid@),
            None => sid_of(input@) is None,
        },
{
    if input.len() < 3 || input[0] != 83 || input[1] != 45 || input[2] != 49 {
        return None;
    }
    let mut numbers: Vec<u64> = Vec::new();
    let mut pos: usize = 3;
    loop
        invariant
            3 <= pos <= input@.len(),
            numbers@ + groups(input@.skip(pos as int)) == groups(input@.skip(3)),
            numbers@.len() == 0 ==> pos == 3,
            numbers@.len() > 0 ==> starts_group(input@.skip(3)),
        ensures
            numbers@ == groups(input@.skip(3)),
            numbers@.len() > 0 <==> starts_group(input@.skip(3)),
        decreases input@.len() - pos,
    {
        let ghost rest = input@.skip(pos as int);
        if pos == input.len() || input[pos] != 45 {
            break;
        }
        assert(rest.skip(1) == input@.skip(pos + 1));
        let end = digits_end(input, pos + 1);
        if end == pos + 1 {
            break;
        }
        assert(rest.skip(1).take(end - pos - 1) == input@.subrange(pos + 1, end as int));
        match digits_number(input, pos + 1, end) {
            None => {
                break;
            },
            Some(v) => {
                assert(rest.skip(1 + (end - pos - 1)) == input@.skip(end as int));
                numbers.push(v);
                pos = end;
            },
        }
    }
    if numbers.len() == 0 {
        None
    } else {
        Some(Sid(numbers))
    }
}

/// The bytes of an ASCII text.
pub open spec fn ascii_bytes(text: Seq<char>) -> Seq<u8> {
    text.map_values(|c: char| c as u8)
}

proof fn lemma_numeral_bytes(n: nat)
    ensures
        numeral(n, 10).len() > 0,
        forall|i: int|
            0 <= i < numeral(n, 10).len() ==> is_digit(#[trigger] ascii_bytes(numeral(n, 10))[i]),
        digits_value(ascii_bytes(numeral(n, 10))) == n,
        is_ascii_chars(numeral(n, 10)),
    decreases n,
{
    let s = ascii_bytes(numeral(n, 10));
    if n < 10 {
        reveal_with_fuel(digits_value, 2);
        assert(s == seq![digit_char(n) as u8]);
        assert(s.drop_last().len() == 0);
        assert(s.last() == 48 + n);
    } else {
        lemma_numeral_bytes(n / 10);
        let init = ascii_bytes(numeral(n / 10, 10));
        let last = digit_char(n % 10) as u8;
        assert(s == init.push(last));
        assert(s.drop_last() == init);
        assert(last == 48 + n % 10);
    }
}

/// The groups of the numbers, one after another.
spec fn dashed(numbers: Seq<u64>) -> Seq<char>
    decreases numbers.len(),
{
    if numbers.len() == 0 {
        Seq::empty()
    } else {
        dashed(numbers.drop_last()) + ("-"@ + decimal(numbers.last() as int))
    }
}

proof fn lemma_dashed_joined(numbers: Seq<u64>)
    requires
        numbers.len() > 0,
    ensures
        "-"@ + joined(texts(numbers), "-"@) == dashed(numbers),
    decreases numbers.len(),
{
    let parts = texts(numbers);
    if numbers.len() == 1 {
        assert(dashed(numbers.drop_last()) == Seq::<char>::empty());
        assert("-"@ + parts[0] == dashed(numbers));
    } else {
        lemma_dashed_joined(numbers.drop_last());
        assert(texts(numbers.drop_last()) == parts.drop_last());
        assert("-"@ + joined(parts, "-"@) == ("-"@ + joined(parts.drop_last(), "-"@)) + ("-"@
            + parts.last()));
    }
}

proof fn lemma_dashed_front(numbers: Seq<u64>)
    requires
        numbers.len() > 0,
    ensures
        dashed(numbers) == "-"@ + decimal(numbers[0] as int) + dashed(numbers.drop_first()),
    decreases numbers.len(),
{
    if numbers.len() == 1 {
        assert(dashed(numbers.drop_last()) == Seq::<char>::empty());
        assert(dashed(numbers.drop_first()) == Seq::<char>::empty());
        assert(dashed(numbers) == "-"@ + decimal(numbers[0] as int) + dashed(
            numbers.drop_first(),
        ));
    } else {
        lemma_dashed_front(numbers.drop_last());
        assert(numbers.drop_last().drop_first() == numbers.drop_first().drop_last());
        assert(dashed(numbers) == "-"@ + decimal(numbers[0] as int) + dashed(
            numbers.drop_first(),
        ));
    }
}

/// The bytes go on neither with the last number of an identifier nor with another group.
pub open spec fn ends_sid(rest: Seq<u8>) -> bool {
    (rest.len() == 0 || !is_digit(rest[0])) && !starts_group(rest)
}

proof fn lemma_dashed_groups(numbers: Seq<u64>, rest: Seq<u8>)
    requires
        ends_sid(rest),
    ensures
        groups(ascii_bytes(dashed(numbers)) + rest) == numbers,
        is_ascii_chars(dashed(numbers)),
        numbers.len() > 0 <==> starts_group(ascii_bytes(dashed(numbers)) + rest),
    decreases numbers.len(),
{
    let s = ascii_bytes(dashed(numbers)) + rest;
    if numbers.len() > 0 {
        let n = numbers[0];
        let tail = numbers.drop_first();
        lemma_dashed_front(numbers);
        lemma_dashed_groups(tail, rest);
        if tail.len() > 0 {
            lemma_dashed_front(tail);
        }
        lemma_numeral_bytes(n as nat);
        reveal_strlit("-");
        assert("-"@.len() == 1);
        let digits = ascii_bytes(numeral(n as nat, 10));
        let after = ascii_bytes(dashed(tail)) + rest;
        assert(s == seq![45u8] + digits + after);
        assert(s.skip(1) == digits + after);
        assert(after.len() > 0 ==> !is_digit(after[0]));
        assert forall|i: int| 0 <= i < digits.len() implies is_digit(#[trigger] s.skip(1)[i]) by {
            assert(s.skip(1)[i] == digits[i]);
        }
        if after.len() > 0 {
            assert(s.skip(1)[digits.len() as int] == after[0]);
        }
        lemma_digit_run(s.skip(1), digits.len() as int);
        assert(s.skip(1).take(digits.len() as int) == digits);
        assert(s.skip(1 + digits.len() as int) == after);
        assert(groups(s) == seq![n] + tail);
    } else {
        assert(s == rest);
    }
}

/// A security identifier that is printed and read back is the same, whatever follows it, unless
/// that starts with a digit or with another group.
pub proof fn law_sid_text_reads_back(numbers: Seq<u64>, rest: Seq<u8>)
    requires
        numbers.len() > 0,
        ends_sid(rest),
    ensures
        sid_of(encode_utf8(sid_text(numbers)) + rest) == Some(numbers),
{
    reveal_strlit("S-1-");
    reveal_strlit("-");
    assert("S-1-"@.len() == 4);
    lemma_dashed_joined(numbers);
    lemma_dashed_groups(numbers, rest);
    let text = sid_text(numbers);
    assert(text == seq!['S', '-', '1'] + dashed(numbers));
    assert(is_ascii_chars(text));
    is_ascii_chars_encode_utf8(text);
    let s = ascii_bytes(text);
    assert(encode_utf8(text) == s);
    assert((s + rest).skip(3) == ascii_bytes(dashed(numbers)) + rest);
}

/// An identifier of one number is written as `S-1-` and the number, and each further number
/// follows after a dash.
pub proof fn law_sid_text_grows(numbers: Seq<u64>, n: u64)
    ensures
        sid_text(seq![n]).take(4) == seq!['S', '-', '1', '-'],
        reads_decimal(sid_text(seq![n]).skip(4), n as int),
        numbers.len() > 0 ==> {
            let longer = sid_text(numbers.push(n));
            let len = sid_text(numbers).len() as int;
            &&& longer.len() > len
            &&& longer.take(len) == sid_text(numbers)
            &&& longer[len] == '-'
            &&& reads_decimal(longer.skip(len + 1), n as int)
        },
{
    reveal_strlit("S-1-");
    reveal_strlit("-");
    law_lists_are_joined(numbers, n, "-"@);
    law_decimal_reads_back(n as int);
    assert(sid_text(seq![n]).take(4) == seq!['S', '-', '1', '-']);
    assert(sid_text(seq![n]).skip(4) == decimal(n as int));
    if numbers.len() > 0 {
        let longer = sid_text(numbers.push(n));
        let len = sid_text(numbers).len() as int;
        assert(longer == sid_text(numbers) + "-"@ + decimal(n as int));
        assert(longer.take(len) == sid_text(numbers));
        assert(longer.skip(len + 1) == decimal(n as int));
    }
}

/// The text of an identifier holds no character but digits, dashes and the letter S.
pub proof fn law_sid_text_holds(numbers: Seq<u64>, c: char)
    requires
        !('0' <= c <= '9'),
        c != '-',
        c != 'S',
    ensures
        !sid_text(numbers).contains(c),
    decreases numbers.len(),
{
    reveal_strlit("S-1-");
    reveal_strlit("-");
    let t = sid_text(numbers);
    if numbers.len() == 0 {
        assert(t == "S-1-"@);
    } else {
        let init = numbers.drop_last();
        let n = numbers.last();
        law_decimal_holds_digits(n as int, c);
        assert(init.push(n) == numbers);
        law_lists_are_joined(init, n, "-"@);
        let d = decimal(n as int);
        assert forall|i: int| 0 <= i < d.len() implies d[i] != c by {
            assert(d.contains(d[i]));
        }
        if init.len() == 0 {
            assert(numbers == seq![n]);
            assert(t == "S-1-"@ + d);
        } else {
            law_sid_text_holds(init, c);
            let u = sid_text(init);
            assert(t == u + "-"@ + d);
            assert forall|i: int| 0 <= i < t.len() implies t[i] != c by {
                if i < u.len() {
                    assert(u.contains(u[i]));
                }
            }
        }
    }
}

/// The number that a row of digit bytes denotes, leading zeros or not.
pub open spec fn bytes_value(digits: Seq<u8>) -> int
    decreases digits.len(),
{
    if digits.len() == 0 {
        0
    } else {
        bytes_value(digits.drop_last()) * 10 + (digits.last() as int - 48)
    }
}

proof fn lemma_bytes_value(digits: Seq<u8>)
    requires
        forall|i: int| 0 <= i < digits.len() ==> 48 <= #[trigger] digits[i] <= 57,
    ensures
        bytes_value(digits) == digits_value(digits),
    decreases digits.len(),
{
    if digits.len() > 0 {
        let init = digits.drop_last();
        assert(48 <= digits[digits.len() - 1] <= 57);
        assert forall|i: int| 0 <= i < init.len() implies 48 <= #[trigger] init[i] <= 57 by {
            assert(init[i] == digits[i]);
        }
        lemma_bytes_value(init);
    }
}

/// An identifier is read number by number. After `S-1`, a dash and a row of digits give one number
/// more, whatever is read after them, unless the number does not fit in 64 bits; where there is no
/// such dash, or the number does not fit, reading stops; and without a first number, or without
/// `S-1`, nothing is read.
pub proof fn law_sid_is_read_by_groups(s: Seq<u8>, digits: Seq<u8>, rest: Seq<u8>)
    requires
        digits.len() > 0,
        forall|i: int| 0 <= i < digits.len() ==> 48 <= #[trigger] digits[i] <= 57,
        rest.len() > 0 ==> !(48 <= rest[0] <= 57),
    ensures
        bytes_value(digits) <= u64::MAX ==> groups(seq![45u8] + digits + rest) == seq![
            bytes_value(digits) as u64,
        ] + groups(rest),
        bytes_value(digits) > u64::MAX ==> groups(seq![45u8] + digits + rest) == Seq::<
            u64,
        >::empty(),
        s.len() < 2 || s[0] != 45 || !(48 <= s[1] <= 57) ==> groups(s) == Seq::<u64>::empty(),
        sid_of(seq![83u8, 45u8, 49u8] + s) == if groups(s).len() > 0 {
            Some(groups(s))
        } else {
            None
        },
        s.len() < 3 || s.take(3) != seq![83u8, 45u8, 49u8] ==> sid_of(s) is None,
{
    let t = seq![45u8] + digits + rest;
    assert(t.skip(1) == digits + rest);
    assert forall|i: int| 0 <= i < digits.len() implies is_digit(#[trigger] t.skip(1)[i]) by {
        assert(t.skip(1)[i] == digits[i]);
    }
    if rest.len() > 0 {
        assert(t.skip(1)[digits.len() as int] == rest[0]);
    }
    lemma_digit_run(t.skip(1), digits.len() as int);
    assert(t.skip(1).take(digits.len() as int) == digits);
    assert(t.skip(1 + digits.len() as int) == rest);
    lemma_bytes_value(digits);
    if s.len() < 2 || s[0] != 45 || !(48 <= s[1] <= 57) {
        if s.len() >= 2 {
            assert(s.skip(1)[0] == s[1]);
        }
    }
    let u = seq![83u8, 45u8, 49u8] + s;
    assert(u.skip(3) == s);
    if s.len() >= 3 && s[0] == 83 && s[1] == 45 && s[2] == 49 {
        assert(s.take(3) == seq![83u8, 45u8, 49u8]);
    }
}

} // verus!
