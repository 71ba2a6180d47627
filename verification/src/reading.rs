//! How texts are read: what numbers they denote, and where they are cut.

use vstd::prelude::*;
use crate::text::{decimal, digit_char, hexadecimal, numeral, Text};

verus! {

/// The value of a digit in base sixteen or below, in lower case; -1 for any other character.
pub open spec fn digit_value(c: char) -> int {
    if '0' <= c <= '9' {
        c as int - '0' as int
    } else if 'a' <= c <= 'f' {
        c as int - 'a' as int + 10
    } else {
        -1
    }
}

/// The number that a row of digits denotes.
pub open spec fn row_value(text: Seq<char>, base: int) -> int
    decreases text.len(),
{
    if text.len() == 0 {
        0
    } else {
        row_value(text.drop_last(), base) * base + digit_value(text.last())
    }
}

/// The text is a row of digits that does not start with an idle zero.
pub open spec fn is_row(text: Seq<char>, base: int) -> bool {
    &&& text.len() > 0
    &&& text.len() > 1 ==> text[0] != '0'
    &&& forall|i: int| 0 <= i < text.len() ==> 0 <= digit_value(#[trigger] text[i]) < base
}

/// The text is how the number is written in decimal notation.
pub open spec fn reads_decimal(text: Seq<char>, n: int) -> bool {
    if n < 0 {
        text.len() > 0 && text[0] == '-' && is_row(text.skip(1), 10) && row_value(text.skip(1), 10)
            == -n
    } else {
        is_row(text, 10) && row_value(text, 10) == n
    }
}

/// The text is how the number is written in hexadecimal notation.
pub open spec fn reads_hexadecimal(text: Seq<char>, n: int) -> bool {
    is_row(text, 16) && row_value(text, 16) == n
}

/// The part of a text before the first occurrence of a character; all of it where there is none.
pub open spec fn before(text: Seq<char>, c: char) -> Seq<char>
    decreases text.len(),
{
    if text.len() == 0 || text[0] == c {
        Seq::empty()
    } else {
        seq![text[0]] + before(text.skip(1), c)
    }
}

/// The part of a text after the first occurrence of a character; nothing where there is none.
pub open spec fn after(text: Seq<char>, c: char) -> Seq<char>
    decreases text.len(),
{
    if text.len() == 0 {
        Seq::empty()
    } else if text[0] == c {
        text.skip(1)
    } else {
        after(text.skip(1), c)
    }
}

/// Two texts with a character between them that the first does not hold are cut apart there.
pub proof fn law_texts_are_cut(a: Seq<char>, c: char, b: Seq<char>)
    requires
        !a.contains(c),
    ensures
        before(a + seq![c] + b, c) == a,
        after(a + seq![c] + b, c) == b,
    decreases a.len(),
{
    let s = a + seq![c] + b;
    if a.len() == 0 {
        assert(s.skip(1) == b);
    } else {
        assert(a.contains(a[0]));
        assert forall|i: int| 0 <= i < a.skip(1).len() implies a.skip(1)[i] != c by {
            assert(a.contains(a[i + 1]));
        }
        assert(s.skip(1) == a.skip(1) + seq![c] + b);
        law_texts_are_cut(a.skip(1), c, b);
        assert(seq![a[0]] + a.skip(1) == a);
    }
}

proof fn lemma_numeral_row(n: nat, base: nat)
    requires
        2 <= base <= 16,
    ensures
        is_row(numeral(n, base), base as int),
        row_value(numeral(n, base), base as int) == n,
        n > 0 ==> numeral(n, base)[0] != '0',
    decreases n,
{
    reveal_with_fuel(row_value, 2);
    let t = numeral(n, base);
    if n < base {
        assert(t.drop_last().len() == 0);
        assert(digit_value(digit_char(n)) == n);
    } else {
        assert(0 < n / base < n) by (nonlinear_arith)
            requires
                2 <= base <= n,
        ;
        assert(n % base < base) by (nonlinear_arith)
            requires
                base >= 2,
        ;
        lemma_numeral_row(n / base, base);
        let init = numeral(n / base, base);
        let d = digit_char(n % base);
        assert(digit_value(d) == n % base);
        assert(t == init.push(d));
        assert(t.drop_last() == init);
        assert(t[0] == init[0]);
        assert((n / base) * base + n % base == n) by (nonlinear_arith)
            requires
                base >= 2,
        ;
        assert forall|i: int| 0 <= i < t.len() implies 0 <= digit_value(#[trigger] t[i]) < base by {
            if i < init.len() {
                assert(t[i] == init[i]);
            }
        }
    }
}

/// A number in decimal notation reads as the number, sign included.
pub proof fn law_decimal_reads_back(n: int)
    ensures
        reads_decimal(decimal(n), n),
{
    reveal_strlit("-");
    assert("-"@.len() == 1);
    if n < 0 {
        lemma_numeral_row((-n) as nat, 10);
        assert(decimal(n).skip(1) == numeral((-n) as nat, 10));
    } else {
        lemma_numeral_row(n as nat, 10);
    }
}

/// A number in hexadecimal notation reads as the number.
pub proof fn law_hexadecimal_reads_back(n: nat)
    ensures
        reads_hexadecimal(hexadecimal(n), n as int),
{
    lemma_numeral_row(n, 16);
}

proof fn lemma_row_positive(text: Seq<char>, base: int)
    requires
        2 <= base,
        text.len() > 0,
        text[0] != '0',
        forall|i: int| 0 <= i < text.len() ==> 0 <= digit_value(#[trigger] text[i]) < base,
    ensures
        row_value(text, base) > 0,
    decreases text.len(),
{
    reveal_with_fuel(row_value, 2);
    assert(digit_value(text[0]) >= 0);
    assert(digit_value(text.last()) >= 0);
    if text.len() == 1 {
        assert(text.drop_last().len() == 0);
    } else {
        let init = text.drop_last();
        assert forall|i: int| 0 <= i < init.len() implies 0 <= digit_value(#[trigger] init[i])
            < base by {
            assert(init[i] == text[i]);
        }
        lemma_row_positive(init, base);
        let v = row_value(init, base);
        assert(v * base > 0) by (nonlinear_arith)
            requires
                v > 0,
                base >= 2,
        ;
    }
}

proof fn lemma_rows_differ(a: Seq<char>, b: Seq<char>, base: int)
    requires
        2 <= base <= 16,
        is_row(a, base),
        is_row(b, base),
        row_value(a, base) == row_value(b, base),
    ensures
        a == b,
    decreases a.len(),
{
    reveal_with_fuel(row_value, 2);
    let (x, y) = (a.drop_last(), b.drop_last());
    let (p, q) = (digit_value(a.last()), digit_value(b.last()));
    assert(0 <= digit_value(a[a.len() - 1]) < base);
    assert(0 <= digit_value(b[b.len() - 1]) < base);
    assert forall|i: int| 0 <= i < x.len() implies 0 <= digit_value(#[trigger] x[i]) < base by {
        assert(x[i] == a[i]);
    }
    assert forall|i: int| 0 <= i < y.len() implies 0 <= digit_value(#[trigger] y[i]) < base by {
        assert(y[i] == b[i]);
    }
    let (v, w) = (row_value(x, base), row_value(y, base));
    assert(v == w && p == q) by (nonlinear_arith)
        requires
            v * base + p == w * base + q,
            0 <= p < base,
            0 <= q < base,
            base >= 2,
    ;
    assert(a.last() == b.last());
    if x.len() > 0 {
        assert(x[0] == a[0]);
        lemma_row_positive(x, base);
    }
    if y.len() > 0 {
        assert(y[0] == b[0]);
        lemma_row_positive(y, base);
    }
    if x.len() == 0 {
        assert(row_value(x, base) == 0);
        assert(y.len() == 0);
    } else {
        assert(row_value(y, base) > 0);
        assert(y.len() > 0);
        lemma_rows_differ(x, y, base);
    }
    assert(a == x.push(a.last()));
    assert(b == y.push(b.last()));
}

/// There is one way to write a number in decimal notation, and one number that a text denotes.
pub proof fn law_decimal_is_unique(a: Seq<char>, b: Seq<char>, n: int, m: int)
    requires
        reads_decimal(a, n),
        reads_decimal(b, m),
    ensures
        a == b <==> n == m,
{
    assert(digit_value('-') == -1);
    if n == m {
        if n < 0 {
            lemma_rows_differ(a.skip(1), b.skip(1), 10);
            assert(a == seq!['-'] + a.skip(1));
            assert(b == seq!['-'] + b.skip(1));
        } else {
            lemma_rows_differ(a, b, 10);
        }
    }
    if a == b {
        assert(a[0] == b[0]);
        if n < 0 && m >= 0 {
            assert(0 <= digit_value(b[0]));
        }
        if m < 0 && n >= 0 {
            assert(0 <= digit_value(a[0]));
        }
    }
}

/// There is one way to write a number in hexadecimal notation, and one number that a text denotes.
pub proof fn law_hexadecimal_is_unique(a: Seq<char>, b: Seq<char>, n: int, m: int)
    requires
        reads_hexadecimal(a, n),
        reads_hexadecimal(b, m),
    ensures
        a == b <==> n == m,
{
    if n == m {
        lemma_rows_differ(a, b, 16);
    }
}

/// A number in decimal notation holds no character but digits and the sign.
pub proof fn law_decimal_holds_digits(n: int, c: char)
    requires
        !('0' <= c <= '9'),
        c != '-',
    ensures
        !decimal(n).contains(c),
{
    law_decimal_reads_back(n);
    let t = decimal(n);
    assert forall|i: int| 0 <= i < t.len() implies t[i] != c by {
        if n < 0 {
            if i > 0 {
                assert(t.skip(1)[i - 1] == t[i]);
                assert(0 <= digit_value(t.skip(1)[i - 1]) < 10);
            }
        } else {
            assert(0 <= digit_value(t[i]) < 10);
        }
    }
}

/// A number in hexadecimal notation holds no character but digits.
pub proof fn law_hexadecimal_holds_digits(n: nat, c: char)
    requires
        digit_value(c) < 0,
    ensures
        !hexadecimal(n).contains(c),
{
    law_hexadecimal_reads_back(n);
    let t = hexadecimal(n);
    assert forall|i: int| 0 <= i < t.len() implies t[i] != c by {
        assert(0 <= digit_value(t[i]) < 16);
    }
}

/// Plain values have the text that is expected of them: numbers read as they are, and texts are
/// taken as they are.
pub proof fn law_plain_values_read_back(a: u64, b: u32, c: i64, d: i32, s: String)
    ensures
        reads_decimal(a.text(), a as int),
        reads_decimal(b.text(), b as int),
        reads_decimal(c.text(), c as int),
        reads_decimal(d.text(), d as int),
        s.text() == s@,
        a.printable() && b.printable() && c.printable() && d.printable() && s.printable(),
{
    law_decimal_reads_back(a as int);
    law_decimal_reads_back(b as int);
    law_decimal_reads_back(c as int);
    law_decimal_reads_back(d as int);
}

} // verus!
