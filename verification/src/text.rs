//! Text that is handed to the server: numbers, joined lists, and the [`Text`] trait.

use vstd::prelude::*;

verus! {

/// The character of one digit in base sixteen or below, in lower case.
pub open spec fn digit_char(d: nat) -> char {
    if d == 0 {
        '0'
    } else if d == 1 {
        '1'
    } else if d == 2 {
        '2'
    } else if d == 3 {
        '3'
    } else if d == 4 {
        '4'
    } else if d == 5 {
        '5'
    } else if d == 6 {
        '6'
    } else if d == 7 {
        '7'
    } else if d == 8 {
        '8'
    } else if d == 9 {
        '9'
    } else if d == 10 {
        'a'
    } else if d == 11 {
        'b'
    } else if d == 12 {
        'c'
    } else if d == 13 {
        'd'
    } else if d == 14 {
        'e'
    } else {
        'f'
    }
}

/// `n` written in base `base`, most significant digit first, without leading zeros.
pub open spec fn numeral(n: nat, base: nat) -> Seq<char>
    decreases n,
{
    if base < 2 || n < base {
        seq![digit_char(n)]
    } else {
        proof {
            assert(n / base < n) by (nonlinear_arith)
                requires
                    2 <= base <= n,
            ;
        }
        numeral(n / base, base).push(digit_char(n % base))
    }
}

/// `n` in decimal notation, with a leading minus sign below zero.
pub open spec fn decimal(n: int) -> Seq<char> {
    if n < 0 {
        "-"@ + numeral((-n) as nat, 10)
    } else {
        numeral(n as nat, 10)
    }
}

/// `n` in hexadecimal notation, in lower case.
pub open spec fn hexadecimal(n: nat) -> Seq<char> {
    numeral(n, 16)
}

fn digit_str(d: u64) -> (r: &'static str)
    requires
        d < 16,
    ensures
        r@ == seq![digit_char(d as nat)],
{
    proof {
        reveal_strlit("0");
        reveal_strlit("1");
        reveal_strlit("2");
        reveal_strlit("3");
        reveal_strlit("4");
        reveal_strlit("5");
        reveal_strlit("6");
        reveal_strlit("7");
        reveal_strlit("8");
        reveal_strlit("9");
        reveal_strlit("a");
        reveal_strlit("b");
        reveal_strlit("c");
        reveal_strlit("d");
        reveal_strlit("e");
        reveal_strlit("f");
    }
    match d {
        0 => "0",
        1 => "1",
        2 => "2",
        3 => "3",
        4 => "4",
        5 => "5",
        6 => "6",
        7 => "7",
        8 => "8",
        9 => "9",
        10 => "a",
        11 => "b",
        12 => "c",
        13 => "d",
        14 => "e",
        _ => "f",
    }
}

fn push_numeral(out: &mut String, n: u64, base: u64)
    requires
        2 <= base <= 16,
    ensures
        final(out)@ == old(out)@ + numeral(n as nat, base as nat),
    decreases n,
{
    if n >= base {
        assert(n / base < n) by (nonlinear_arith)
            requires
                n >= base,
                base >= 2,
        ;
        push_numeral(out, n / base, base);
    }
    assert(n % base < base) by (nonlinear_arith)
        requires
            base >= 2,
    ;
    assert(n < base ==> n % base == n) by (nonlinear_arith)
        requires
            base >= 2,
    ;
    out.append(digit_str(n % base));
}

/// Appends `n` in decimal notation.
pub(crate) fn push_unsigned(out: &mut String, n: u64)
    ensures
        final(out)@ == old(out)@ + decimal(n as int),
{
    push_numeral(out, n, 10);
}

/// Appends `n` in decimal notation, with a leading minus sign below zero.
pub(crate) fn push_signed(out: &mut String, n: i64)
    ensures
        final(out)@ == old(out)@ + decimal(n as int),
{
    if n < 0 {
        out.append("-");
        let magnitude: u64 = if n == i64::MIN { 0x8000_0000_0000_0000u64 } else { (-n) as u64 };
        push_numeral(out, magnitude, 10);
    } else {
        push_numeral(out, n as u64, 10);
    }
}

/// Appends `n` in hexadecimal notation, in lower case.
pub(crate) fn push_hexadecimal(out: &mut String, n: u32)
    ensures
        final(out)@ == old(out)@ + hexadecimal(n as nat),
{
    push_numeral(out, n as u64, 16);
}

/// Whether two texts are the same.
pub(crate) fn str_eq(a: &str, b: &str) -> (r: bool)
    ensures
        r == (a@ == b@),
{
    a.to_owned() == b.to_owned()
}

/// Whether the character occurs in the text.
pub(crate) fn contains_char(s: &str, c: char) -> (r: bool)
    ensures
        r == s@.contains(c),
{
    for x in it: s.chars()
        invariant
            it.seq() == s@,
            forall|i: int| 0 <= i < it.index() ==> s@[i] != c,
    {
        if x == c {
            return true;
        }
    }
    false
}

/// A value with a textual form.
pub trait Text {
    /// The textual form.
    spec fn text(&self) -> Seq<char>;

    /// Whether the value has a textual form: a list that is joined by a delimiter has one only
    /// if it is not empty.
    spec fn printable(&self) -> bool;

    /// Whether the value has a textual form.
    fn is_printable(&self) -> (r: bool)
        ensures
            r == self.printable(),
    ;

    /// Writes the textual form.
    fn to_string(&self) -> (s: String)
        requires
            self.printable(),
        ensures
            s@ == self.text(),
    ;
}

impl Text for u64 {
    open spec fn text(&self) -> Seq<char> {
        decimal(*self as int)
    }

    open spec fn printable(&self) -> bool {
        true
    }

    fn is_printable(&self) -> (r: bool) {
        true
    }

    fn to_string(&self) -> (s: String) {
        let mut s = String::new();
        push_unsigned(&mut s, *self);
        s
    }
}

impl Text for u32 {
    open spec fn text(&self) -> Seq<char> {
        decimal(*self as int)
    }

    open spec fn printable(&self) -> bool {
        true
    }

    fn is_printable(&self) -> (r: bool) {
        true
    }

    fn to_string(&self) -> (s: String) {
        let mut s = String::new();
        push_unsigned(&mut s, *self as u64);
        s
    }
}

impl Text for i64 {
    open spec fn text(&self) -> Seq<char> {
        decimal(*self as int)
    }

    open spec fn printable(&self) -> bool {
        true
    }

    fn is_printable(&self) -> (r: bool) {
        true
    }

    fn to_string(&self) -> (s: String) {
        let mut s = String::new();
        push_signed(&mut s, *self);
        s
    }
}

impl Text for i32 {
    open spec fn text(&self) -> Seq<char> {
        decimal(*self as int)
    }

    open spec fn printable(&self) -> bool {
        true
    }

    fn is_printable(&self) -> (r: bool) {
        true
    }

    fn to_string(&self) -> (s: String) {
        let mut s = String::new();
        push_signed(&mut s, *self as i64);
        s
    }
}

impl Text for String {
    open spec fn text(&self) -> Seq<char> {
        self@
    }

    open spec fn printable(&self) -> bool {
        true
    }

    fn is_printable(&self) -> (r: bool) {
        true
    }

    fn to_string(&self) -> (s: String) {
        self.as_str().to_owned()
    }
}

/// The textual forms of the items, in order.
pub open spec fn texts<D: Text>(items: Seq<D>) -> Seq<Seq<char>> {
    items.map_values(|d: D| d.text())
}

/// The parts one after another, with the delimiter between each two neighbours.
pub open spec fn joined(parts: Seq<Seq<char>>, delimiter: Seq<char>) -> Seq<char>
    decreases parts.len(),
{
    if parts.len() == 0 {
        Seq::empty()
    } else if parts.len() == 1 {
        parts[0]
    } else {
        joined(parts.drop_last(), delimiter) + delimiter + parts.last()
    }
}

/// Whether the items can be joined: there is at least one, and each has a textual form.
pub open spec fn joinable<D: Text>(items: Seq<D>) -> bool {
    items.len() > 0 && forall|i: int| 0 <= i < items.len() ==> (#[trigger] items[i]).printable()
}

/// Whether the items can be joined.
pub(crate) fn is_joinable<D: Text>(items: &[D]) -> (r: bool)
    ensures
        r == joinable(items@),
{
    let mut i: usize = 0;
    while i < items.len()
        invariant
            i <= items@.len(),
            forall|j: int| 0 <= j < i ==> (#[trigger] items@[j]).printable(),
        decreases items@.len() - i,
    {
        if !items[i].is_printable() {
            return false;
        }
        i += 1;
    }
    items.len() > 0
}

/// Formats a list of items delimited by some string.
pub fn separated<D: Text>(iter: &[D], delimiter: &str) -> (s: String)
    requires
        joinable(iter@),
    ensures
        s@ == joined(texts(iter@), delimiter@),
{
    let mut s: String = iter[0].to_string();
    let mut i: usize = 1;
    assert(texts(iter@).take(1)[0] == s@);
    while i < iter.len()
        invariant
            1 <= i <= iter@.len(),
            joinable(iter@),
            s@ == joined(texts(iter@).take(i as int), delimiter@),
        decreases iter@.len() - i,
    {
        s.append(delimiter);
        let item = iter[i].to_string();
        s.append(item.as_str());
        assert(texts(iter@).take(i + 1).drop_last() == texts(iter@).take(i as int));
        i += 1;
    }
    assert(texts(iter@).take(iter@.len() as int) == texts(iter@));
    s
}

/// Joining two lists that are put one after the other is joining each of them, and putting the
/// delimiter between the two texts.
pub proof fn law_joined_concat(a: Seq<Seq<char>>, b: Seq<Seq<char>>, delimiter: Seq<char>)
    requires
        a.len() > 0,
        b.len() > 0,
    ensures
        joined(a + b, delimiter) == joined(a, delimiter) + delimiter + joined(b, delimiter),
    decreases b.len(),
{
    assert((a + b).drop_last() == a + b.drop_last());
    if b.len() == 1 {
        assert(a + b.drop_last() == a);
    } else {
        law_joined_concat(a, b.drop_last(), delimiter);
        assert(joined(a + b, delimiter) == joined(a, delimiter) + delimiter + joined(b, delimiter));
    }
}

/// A list of one item is joined to its text, and each further item follows after the delimiter.
pub proof fn law_lists_are_joined<D: Text>(items: Seq<D>, item: D, delimiter: Seq<char>)
    ensures
        joined(texts(seq![item]), delimiter) == item.text(),
        items.len() > 0 ==> joined(texts(items.push(item)), delimiter) == joined(
            texts(items),
            delimiter,
        ) + delimiter + item.text(),
        joinable(seq![item]) <==> item.printable(),
        items.len() > 0 ==> (joinable(items.push(item)) <==> joinable(items) && item.printable()),
        !joinable(Seq::<D>::empty()),
{
    assert(texts(seq![item]).len() == 1);
    assert(seq![item][0] == item);
    let more = items.push(item);
    assert(texts(more).drop_last() == texts(items));
    assert(more[items.len() as int] == item);
    if joinable(more) {
        assert forall|i: int| 0 <= i < items.len() implies (#[trigger] items[i]).printable() by {
            assert(more[i] == items[i]);
        }
    }
    if joinable(items) && item.printable() {
        assert forall|i: int| 0 <= i < more.len() implies (#[trigger] more[i]).printable() by {
            if i < items.len() {
                assert(more[i] == items[i]);
            }
        }
    }
}

} // verus!
