//! Access masks as text.

use vstd::prelude::*;
use crate::flags::{has_bits, XAttrMask};
use crate::text::{contains_char, str_eq, Text};

verus! {

/// `bits` where `present` holds, no bit elsewhere.
pub open spec fn bits_if(present: bool, bits: i32) -> i32 {
    if present {
        bits
    } else {
        0
    }
}

/// The mask that a text stands for: one of the three names, or else that of the letters which
/// occur anywhere in the text.
pub open spec fn mask_of(text: Seq<char>) -> i32 {
    if text == "FULL"@ {
        0x001f_01ff
    } else if text == "CHANGE"@ {
        0x0013_01bf
    } else if text == "READ"@ {
        0x0012_00a9
    } else {
        letters_mask(
            text.contains('R'),
            text.contains('W'),
            text.contains('X'),
            text.contains('D'),
            text.contains('P'),
            text.contains('O'),
        )
    }
}

/// The mask of some letters: the union of their permissions, and `FULL` where all six are there.
pub open spec fn letters_mask(r: bool, w: bool, x: bool, d: bool, p: bool, o: bool) -> i32 {
    if r && w && x && d && p && o {
        0x001f_01ff
    } else {
        union_of(r, w, x, d, p, o)
    }
}

/// The union of the single permissions that are present.
pub open spec fn union_of(r: bool, w: bool, x: bool, d: bool, p: bool, o: bool) -> i32 {
    bits_if(o, 0x0008_0000) | bits_if(p, 0x0004_0000) | bits_if(d, 0x0001_0000) | bits_if(
        x,
        0x0012_00a0,
    ) | bits_if(w, 0x0012_0116) | bits_if(r, 0x0012_0089)
}

/// The letter where the mask holds the whole permission, nothing elsewhere.
pub open spec fn letter_if(mask: i32, bits: i32, letter: char) -> Seq<char> {
    if has_bits(mask, bits) {
        seq![letter]
    } else {
        Seq::empty()
    }
}

/// The letters of the single permissions that the mask holds, in the order RWXDPO.
pub open spec fn mask_letters(mask: i32) -> Seq<char> {
    letter_if(mask, 0x0012_0089, 'R') + letter_if(mask, 0x0012_0116, 'W') + letter_if(
        mask,
        0x0012_00a0,
        'X',
    ) + letter_if(mask, 0x0001_0000, 'D') + letter_if(mask, 0x0004_0000, 'P') + letter_if(
        mask,
        0x0008_0000,
        'O',
    )
}

/// The text of a mask: the widest name that it covers, or else its letters, or `N` where it holds
/// no permission in full.
pub open spec fn mask_text(mask: i32) -> Seq<char> {
    if has_bits(mask, 0x001f_01ff) {
        "FULL"@
    } else if has_bits(mask, 0x0013_01bf) {
        "CHANGE"@
    } else if has_bits(mask, 0x0012_00a9) {
        "READ"@
    } else if mask_letters(mask).len() == 0 {
        "N"@
    } else {
        mask_letters(mask)
    }
}

impl XAttrMask {
    /// Reads a mask from its text. A text that holds all six letters gives `FULL`, and one that
    /// holds none gives the empty mask.
    pub fn from_string(mask: &str) -> (m: XAttrMask)
        ensures
            m@ == mask_of(mask@),
            m.wf(),
    {
        let mut m = XAttrMask::N();
        if str_eq(mask, "FULL") {
            return XAttrMask::FULL();
        }
        if str_eq(mask, "CHANGE") {
            return XAttrMask::CHANGE();
        }
        if str_eq(mask, "READ") {
            return XAttrMask::READ();
        }
        proof {
            lemma_zero_or(0x0008_0000);
        }
        let r = contains_char(mask, 'R');
        let w = contains_char(mask, 'W');
        let x = contains_char(mask, 'X');
        let d = contains_char(mask, 'D');
        let p = contains_char(mask, 'P');
        let o = contains_char(mask, 'O');
        if r && w && x && d && p && o {
            return XAttrMask::FULL();
        }
        if o {
            m.insert(XAttrMask::O());
        }
        if p {
            m.insert(XAttrMask::P());
        }
        if d {
            m.insert(XAttrMask::D());
        }
        if x {
            m.insert(XAttrMask::X());
        }
        if w {
            m.insert(XAttrMask::W());
        }
        if r {
            m.insert(XAttrMask::R());
        }
        m
    }
}

proof fn lemma_zero_or(b: i32)
    by (bit_vector)
    ensures
        0i32 | b == b,
        forall|a: i32| #[trigger] (a | 0i32) == a,
{
}

impl Text for XAttrMask {
    open spec fn text(&self) -> Seq<char> {
        mask_text(self@)
    }

    open spec fn printable(&self) -> bool {
        true
    }

    fn is_printable(&self) -> (r: bool) {
        true
    }

    fn to_string(&self) -> (s: String) {
        if self.contains(XAttrMask::FULL()) {
            return "FULL".to_owned();
        }
        if self.contains(XAttrMask::CHANGE()) {
            return "CHANGE".to_owned();
        }
        if self.contains(XAttrMask::READ()) {
            return "READ".to_owned();
        }
        proof {
            reveal_strlit("R");
            reveal_strlit("W");
            reveal_strlit("X");
            reveal_strlit("D");
            reveal_strlit("P");
            reveal_strlit("O");
        }
        let mut buff = String::new();
        if self.contains(XAttrMask::R()) {
            buff.append("R");
        }
        if self.contains(XAttrMask::W()) {
            buff.append("W");
        }
        if self.contains(XAttrMask::X()) {
            buff.append("X");
        }
        if self.contains(XAttrMask::D()) {
            buff.append("D");
        }
        if self.contains(XAttrMask::P()) {
            buff.append("P");
        }
        if self.contains(XAttrMask::O()) {
            buff.append("O");
        }
        assert(buff@ =~= mask_letters(self@));
        if buff.as_str().is_empty() {
            buff.append("N");
        }
        buff
    }
}

proof fn lemma_union_bits(r: bool, w: bool, x: bool, d: bool, p: bool, o: bool, m: i32)
    by (bit_vector)
    requires
        m == (if o { 0x0008_0000i32 } else { 0 }) | (if p { 0x0004_0000i32 } else { 0 }) | (if d {
            0x0001_0000i32
        } else {
            0
        }) | (if x { 0x0012_00a0i32 } else { 0 }) | (if w { 0x0012_0116i32 } else { 0 }) | (if r {
            0x0012_0089i32
        } else {
            0
        }),
    ensures
        (m & 0x0012_0089 == 0x0012_0089) <==> r,
        (m & 0x0012_0116 == 0x0012_0116) <==> w,
        (m & 0x0012_00a0 == 0x0012_00a0) <==> x,
        (m & 0x0001_0000 == 0x0001_0000) <==> d,
        (m & 0x0004_0000 == 0x0004_0000) <==> p,
        (m & 0x0008_0000 == 0x0008_0000) <==> o,
        (m & 0x0012_00a9 == 0x0012_00a9) <==> r && x,
        (m & 0x0013_01bf == 0x0013_01bf) <==> r && w && x && d,
        m & 0x001f_01ff != 0x001f_01ff,
        m & !0x001f_01bf == 0,
{
}

/// A union of single permissions holds exactly the permissions that it was made of; it is as wide
/// as `READ` exactly if R and X are among them, and as `CHANGE` exactly if R, W, X and D are.
pub proof fn law_union_holds_its_parts(r: bool, w: bool, x: bool, d: bool, p: bool, o: bool)
    ensures
        has_bits(union_of(r, w, x, d, p, o), 0x0012_0089) <==> r,
        has_bits(union_of(r, w, x, d, p, o), 0x0012_0116) <==> w,
        has_bits(union_of(r, w, x, d, p, o), 0x0012_00a0) <==> x,
        has_bits(union_of(r, w, x, d, p, o), 0x0001_0000) <==> d,
        has_bits(union_of(r, w, x, d, p, o), 0x0004_0000) <==> p,
        has_bits(union_of(r, w, x, d, p, o), 0x0008_0000) <==> o,
        has_bits(union_of(r, w, x, d, p, o), 0x0012_00a9) <==> r && x,
        has_bits(union_of(r, w, x, d, p, o), 0x0013_01bf) <==> r && w && x && d,
        !has_bits(union_of(r, w, x, d, p, o), 0x001f_01ff),
{
    lemma_union_bits(r, w, x, d, p, o, union_of(r, w, x, d, p, o));
}

proof fn lemma_named_unions()
    ensures
        0x0012_00a9 == union_of(true, false, true, false, false, false),
        0x0013_01bf == union_of(true, true, true, true, false, false),
{
    assert(0x0012_00a9i32 == 0i32 | 0i32 | 0i32 | 0x0012_00a0 | 0i32 | 0x0012_0089) by (bit_vector);
    assert(0x0013_01bfi32 == 0i32 | 0i32 | 0x0001_0000i32 | 0x0012_00a0 | 0x0012_0116
        | 0x0012_0089) by (bit_vector);
}

proof fn lemma_union_in_full(m: i32)
    by (bit_vector)
    requires
        m & !0x001f_01bf == 0,
    ensures
        0x001f_01ffi32 | m == 0x001f_01ff,
        m | 0x001f_01ffi32 == 0x001f_01ff,
        0x001f_01ffi32 & m == m,
{
}

/// The text is one of the three names.
pub open spec fn is_name(text: Seq<char>) -> bool {
    text == "FULL"@ || text == "CHANGE"@ || text == "READ"@
}

/// The text holds all six letters.
pub open spec fn has_all_letters(text: Seq<char>) -> bool {
    &&& text.contains('R')
    &&& text.contains('W')
    &&& text.contains('X')
    &&& text.contains('D')
    &&& text.contains('P')
    &&& text.contains('O')
}

/// The three names are equivalent to letters: a text reads as `READ` if its letters are R and X, as
/// `CHANGE` if they are R, X, W and D, and as `FULL` if they are all six.
pub proof fn law_names_are_letters(text: Seq<char>)
    ensures
        text.contains('R') && text.contains('X') && !text.contains('W') && !text.contains('D')
            && !text.contains('P') && !text.contains('O') ==> mask_of(text) == mask_of("READ"@),
        text.contains('R') && text.contains('X') && text.contains('W') && text.contains('D')
            && !text.contains('P') && !text.contains('O') ==> mask_of(text) == mask_of("CHANGE"@),
        has_all_letters(text) ==> mask_of(text) == mask_of("FULL"@),
{
    lemma_named_unions();
    lemma_names_differ();
    reveal_strlit("FULL");
    reveal_strlit("CHANGE");
    reveal_strlit("READ");
    assert(!"FULL"@.contains('X') && !"CHANGE"@.contains('X') && !"READ"@.contains('X'));
}

proof fn lemma_names_differ()
    ensures
        "READ"@ != "FULL"@,
        "READ"@ != "CHANGE"@,
        "FULL"@ != "CHANGE"@,
{
    reveal_strlit("FULL");
    reveal_strlit("CHANGE");
    reveal_strlit("READ");
    assert("FULL"@.len() != "CHANGE"@.len());
    assert("READ"@[0] != "FULL"@[0]);
    assert("READ"@.len() != "CHANGE"@.len());
}

proof fn lemma_union_of_unions(
    r: bool,
    w: bool,
    x: bool,
    d: bool,
    p: bool,
    o: bool,
    r2: bool,
    w2: bool,
    x2: bool,
    d2: bool,
    p2: bool,
    o2: bool,
)
    ensures
        union_of(r || r2, w || w2, x || x2, d || d2, p || p2, o || o2) == union_of(
            r,
            w,
            x,
            d,
            p,
            o,
        ) | union_of(r2, w2, x2, d2, p2, o2),
{
    lemma_or_six(
        bits_if(o, 0x0008_0000),
        bits_if(p, 0x0004_0000),
        bits_if(d, 0x0001_0000),
        bits_if(x, 0x0012_00a0),
        bits_if(w, 0x0012_0116),
        bits_if(r, 0x0012_0089),
        bits_if(o2, 0x0008_0000),
        bits_if(p2, 0x0004_0000),
        bits_if(d2, 0x0001_0000),
        bits_if(x2, 0x0012_00a0),
        bits_if(w2, 0x0012_0116),
        bits_if(r2, 0x0012_0089),
    );
    lemma_bits_or(0x0008_0000);
    lemma_bits_or(0x0004_0000);
    lemma_bits_or(0x0001_0000);
    lemma_bits_or(0x0012_00a0);
    lemma_bits_or(0x0012_0116);
    lemma_bits_or(0x0012_0089);
}

proof fn lemma_bits_or(b: i32)
    by (bit_vector)
    ensures
        b | b == b,
        b | 0 == b,
        0i32 | b == b,
        0i32 | 0i32 == 0i32,
{
}

proof fn lemma_or_six(
    a: i32,
    b: i32,
    c: i32,
    d: i32,
    e: i32,
    f: i32,
    a2: i32,
    b2: i32,
    c2: i32,
    d2: i32,
    e2: i32,
    f2: i32,
)
    by (bit_vector)
    ensures
        (a | a2) | (b | b2) | (c | c2) | (d | d2) | (e | e2) | (f | f2) == (a | b | c | d | e | f)
            | (a2 | b2 | c2 | d2 | e2 | f2),
{
}

/// Texts that are no names and form none read, put one after the other, as the union of what each
/// of them reads as, unless only both of them together hold all six letters: that reads as `FULL`.
pub proof fn law_texts_read_as_unions(a: Seq<char>, b: Seq<char>)
    requires
        !is_name(a),
        !is_name(b),
        !is_name(a + b),
        has_all_letters(a + b) ==> has_all_letters(a) || has_all_letters(b),
    ensures
        mask_of(a + b) == mask_of(a) | mask_of(b),
{
    lemma_contains_concat(a, b, 'R');
    lemma_contains_concat(a, b, 'W');
    lemma_contains_concat(a, b, 'X');
    lemma_contains_concat(a, b, 'D');
    lemma_contains_concat(a, b, 'P');
    lemma_contains_concat(a, b, 'O');
    let (r, w, x) = (a.contains('R'), a.contains('W'), a.contains('X'));
    let (d, p, o) = (a.contains('D'), a.contains('P'), a.contains('O'));
    let (r2, w2, x2) = (b.contains('R'), b.contains('W'), b.contains('X'));
    let (d2, p2, o2) = (b.contains('D'), b.contains('P'), b.contains('O'));
    lemma_union_of_unions(r, w, x, d, p, o, r2, w2, x2, d2, p2, o2);
    lemma_union_bits(r, w, x, d, p, o, union_of(r, w, x, d, p, o));
    lemma_union_bits(r2, w2, x2, d2, p2, o2, union_of(r2, w2, x2, d2, p2, o2));
    lemma_union_in_full(union_of(r, w, x, d, p, o));
    lemma_union_in_full(union_of(r2, w2, x2, d2, p2, o2));
    lemma_bits_or(0x001f_01ff);
}

proof fn lemma_contains_concat(a: Seq<char>, b: Seq<char>, c: char)
    ensures
        (a + b).contains(c) <==> a.contains(c) || b.contains(c),
{
    if a.contains(c) {
        let i = choose|i: int| 0 <= i < a.len() && a[i] == c;
        assert((a + b)[i] == c);
    }
    if b.contains(c) {
        let i = choose|i: int| 0 <= i < b.len() && b[i] == c;
        assert((a + b)[a.len() + i] == c);
    }
}

proof fn lemma_contains_letter(mask: i32, bits: i32, letter: char, c: char)
    ensures
        letter_if(mask, bits, letter).contains(c) <==> has_bits(mask, bits) && c == letter,
{
    if has_bits(mask, bits) {
        assert(letter_if(mask, bits, letter)[0] == letter);
    }
}

proof fn lemma_letter(mask: i32, c: char)
    ensures
        mask_letters(mask).contains(c) <==> {
            ||| c == 'R' && has_bits(mask, 0x0012_0089)
            ||| c == 'W' && has_bits(mask, 0x0012_0116)
            ||| c == 'X' && has_bits(mask, 0x0012_00a0)
            ||| c == 'D' && has_bits(mask, 0x0001_0000)
            ||| c == 'P' && has_bits(mask, 0x0004_0000)
            ||| c == 'O' && has_bits(mask, 0x0008_0000)
        },
{
    let r = letter_if(mask, 0x0012_0089, 'R');
    let w = letter_if(mask, 0x0012_0116, 'W');
    let x = letter_if(mask, 0x0012_00a0, 'X');
    let d = letter_if(mask, 0x0001_0000, 'D');
    let p = letter_if(mask, 0x0004_0000, 'P');
    let o = letter_if(mask, 0x0008_0000, 'O');
    lemma_contains_letter(mask, 0x0012_0089, 'R', c);
    lemma_contains_letter(mask, 0x0012_0116, 'W', c);
    lemma_contains_letter(mask, 0x0012_00a0, 'X', c);
    lemma_contains_letter(mask, 0x0001_0000, 'D', c);
    lemma_contains_letter(mask, 0x0004_0000, 'P', c);
    lemma_contains_letter(mask, 0x0008_0000, 'O', c);
    lemma_contains_concat(r, w, c);
    lemma_contains_concat(r + w, x, c);
    lemma_contains_concat(r + w + x, d, c);
    lemma_contains_concat(r + w + x + d, p, c);
    lemma_contains_concat(r + w + x + d + p, o, c);
}

proof fn lemma_letters(mask: i32)
    ensures
        mask_letters(mask).contains('R') <==> has_bits(mask, 0x0012_0089),
        mask_letters(mask).contains('W') <==> has_bits(mask, 0x0012_0116),
        mask_letters(mask).contains('X') <==> has_bits(mask, 0x0012_00a0),
        mask_letters(mask).contains('D') <==> has_bits(mask, 0x0001_0000),
        mask_letters(mask).contains('P') <==> has_bits(mask, 0x0004_0000),
        mask_letters(mask).contains('O') <==> has_bits(mask, 0x0008_0000),
        mask_letters(mask) != "FULL"@,
        mask_letters(mask) != "CHANGE"@,
        mask_letters(mask) != "READ"@,
{
    lemma_letter(mask, 'R');
    lemma_letter(mask, 'W');
    lemma_letter(mask, 'X');
    lemma_letter(mask, 'D');
    lemma_letter(mask, 'P');
    lemma_letter(mask, 'O');
    lemma_letter(mask, 'F');
    lemma_letter(mask, 'C');
    lemma_letter(mask, 'E');
    reveal_strlit("FULL");
    reveal_strlit("CHANGE");
    reveal_strlit("READ");
    assert("FULL"@[0] == 'F');
    assert("CHANGE"@[0] == 'C');
    assert("READ"@[1] == 'E');
}

proof fn lemma_or_within(a: i32, b: i32, m: i32)
    by (bit_vector)
    requires
        m & a == a,
        m & b == b,
    ensures
        m & (a | b) == a | b,
{
}

proof fn lemma_bits_self(m: i32)
    by (bit_vector)
    ensures
        m & 0 == 0,
        m & m == m,
{
}

/// Printing a mask, reading the text back and printing again gives the same text, and what was
/// read back holds no bit that the mask lacks.
pub proof fn law_mask_text_reads_back(mask: i32)
    ensures
        mask_text(mask_of(mask_text(mask))) == mask_text(mask),
        has_bits(mask, mask_of(mask_text(mask))),
{
    let r = has_bits(mask, 0x0012_0089);
    let w = has_bits(mask, 0x0012_0116);
    let x = has_bits(mask, 0x0012_00a0);
    let d = has_bits(mask, 0x0001_0000);
    let p = has_bits(mask, 0x0004_0000);
    let o = has_bits(mask, 0x0008_0000);
    reveal_strlit("FULL");
    reveal_strlit("CHANGE");
    reveal_strlit("READ");
    reveal_strlit("N");
    assert("FULL"@.len() != "CHANGE"@.len());
    assert("READ"@[0] != "FULL"@[0]);
    assert("READ"@.len() != "CHANGE"@.len());
    lemma_bits_self(0x001f_01ff);
    lemma_bits_self(0x0013_01bf);
    lemma_bits_self(0x0012_00a9);
    lemma_bits_self(mask);
    assert(0x0013_01bfi32 & 0x001f_01ffi32 != 0x001f_01ffi32 && 0x0012_00a9i32 & 0x001f_01ffi32
        != 0x001f_01ffi32 && 0x0012_00a9i32 & 0x0013_01bfi32 != 0x0013_01bfi32) by (bit_vector);
    if has_bits(mask, 0x001f_01ff) || has_bits(mask, 0x0013_01bf) || has_bits(mask, 0x0012_00a9) {
    } else {
        lemma_letters(mask);
        assert(r && x ==> has_bits(mask, 0x0012_00a9)) by (bit_vector)
            requires
                r == (mask & 0x0012_0089 == 0x0012_0089),
                x == (mask & 0x0012_00a0 == 0x0012_00a0),
        ;
        let back = union_of(r, w, x, d, p, o);
        law_union_holds_its_parts(r, w, x, d, p, o);
        assert(mask_letters(back) == mask_letters(mask));
        if mask_letters(mask).len() == 0 {
            assert(!"N"@.contains('R') && !"N"@.contains('W') && !"N"@.contains('X')
                && !"N"@.contains('D') && !"N"@.contains('P') && !"N"@.contains('O'));
            assert("N"@.len() != "FULL"@.len());
            if r || w || x || d || p || o {
                assert(mask_letters(mask).len() > 0);
            }
        }
        assert(mask_of(mask_text(mask)) == back);
        let b1 = bits_if(o, 0x0008_0000);
        let b2 = b1 | bits_if(p, 0x0004_0000);
        let b3 = b2 | bits_if(d, 0x0001_0000);
        let b4 = b3 | bits_if(x, 0x0012_00a0);
        let b5 = b4 | bits_if(w, 0x0012_0116);
        lemma_or_within(b1, bits_if(p, 0x0004_0000), mask);
        lemma_or_within(b2, bits_if(d, 0x0001_0000), mask);
        lemma_or_within(b3, bits_if(x, 0x0012_00a0), mask);
        lemma_or_within(b4, bits_if(w, 0x0012_0116), mask);
        lemma_or_within(b5, bits_if(r, 0x0012_0089), mask);
    }
}

/// The mask of some letters is printed and read back exactly, unless R and X are among them and
/// they are neither these two, nor R, X, W and D, nor all six: then the name stands for the widest
/// mask among `READ` and `CHANGE` that it covers, and the rest is lost.
pub proof fn law_letter_masks_read_back(r: bool, w: bool, x: bool, d: bool, p: bool, o: bool)
    ensures
        ({
            let mask = letters_mask(r, w, x, d, p, o);
            mask_of(mask_text(mask)) == if r && x && !(w && d && p && o) {
                letters_mask(true, w && d, true, w && d, false, false)
            } else {
                mask
            }
        }),
{
    let mask = letters_mask(r, w, x, d, p, o);
    law_union_holds_its_parts(r, w, x, d, p, o);
    lemma_named_unions();
    lemma_names_differ();
    lemma_bits_self(0x001f_01ff);
    if !(r && x) {
        reveal_strlit("N");
        reveal_strlit("FULL");
        lemma_letters(mask);
        if mask_letters(mask).len() == 0 {
            assert("N"@.len() != "FULL"@.len());
            reveal_strlit("CHANGE");
            reveal_strlit("READ");
            assert(!"N"@.contains('R') && !"N"@.contains('W') && !"N"@.contains('X')
                && !"N"@.contains('D') && !"N"@.contains('P') && !"N"@.contains('O'));
            assert(!r && !w && !x && !d && !p && !o);
        }
    }
}

/// The permission that a letter stands for.
pub open spec fn permission(letter: char) -> int {
    if letter == 'R' {
        0x0012_0089
    } else if letter == 'W' {
        0x0012_0116
    } else if letter == 'X' {
        0x0012_00a0
    } else if letter == 'D' {
        0x0001_0000
    } else if letter == 'P' {
        0x0004_0000
    } else if letter == 'O' {
        0x0008_0000
    } else {
        0
    }
}

proof fn lemma_least(m: i32, a: i32, b: i32, c: i32, d: i32, e: i32, f: i32)
    by (bit_vector)
    requires
        m & a == a,
        m & b == b,
        m & c == c,
        m & d == d,
        m & e == e,
        m & f == f,
    ensures
        m & (a | b | c | d | e | f) == a | b | c | d | e | f,
{
}

/// A text that is no name reads as a mask with the permission of every letter in it. It is the
/// least such mask, unless all six letters are in it: then it is `FULL`. The names read as the
/// masks that they are for.
pub proof fn law_text_reads_as_the_least_mask(text: Seq<char>, letter: char, other: i32)
    requires
        !is_name(text),
    ensures
        text.contains(letter) ==> has_bits(mask_of(text), permission(letter) as i32),
        (forall|c: char| text.contains(c) ==> #[trigger] has_bits(other, permission(c) as i32))
            && !has_all_letters(text) ==> has_bits(other, mask_of(text)),
        has_all_letters(text) ==> mask_of(text) == 0x001f_01ff,
        mask_of("READ"@) == 0x0012_00a9,
        mask_of("CHANGE"@) == 0x0013_01bf,
        mask_of("FULL"@) == 0x001f_01ff,
{
    lemma_names_differ();
    let (r, w, x) = (text.contains('R'), text.contains('W'), text.contains('X'));
    let (d, p, o) = (text.contains('D'), text.contains('P'), text.contains('O'));
    law_union_holds_its_parts(r, w, x, d, p, o);
    lemma_bits_self(mask_of(text));
    assert(0x001f_01ffi32 & 0x0012_0089 == 0x0012_0089 && 0x001f_01ffi32 & 0x0012_0116
        == 0x0012_0116 && 0x001f_01ffi32 & 0x0012_00a0 == 0x0012_00a0 && 0x001f_01ffi32
        & 0x0001_0000 == 0x0001_0000 && 0x001f_01ffi32 & 0x0004_0000 == 0x0004_0000
        && 0x001f_01ffi32 & 0x0008_0000 == 0x0008_0000) by (bit_vector);
    if (forall|c: char| text.contains(c) ==> #[trigger] has_bits(other, permission(c) as i32))
        && !has_all_letters(text) {
        lemma_bits_self(other);
        assert(r ==> has_bits(other, permission('R') as i32));
        assert(w ==> has_bits(other, permission('W') as i32));
        assert(x ==> has_bits(other, permission('X') as i32));
        assert(d ==> has_bits(other, permission('D') as i32));
        assert(p ==> has_bits(other, permission('P') as i32));
        assert(o ==> has_bits(other, permission('O') as i32));
        lemma_least(
            other,
            bits_if(o, 0x0008_0000),
            bits_if(p, 0x0004_0000),
            bits_if(d, 0x0001_0000),
            bits_if(x, 0x0012_00a0),
            bits_if(w, 0x0012_0116),
            bits_if(r, 0x0012_0089),
        );
    }
}

/// The rank of a letter in the order in which letters are printed.
pub open spec fn rank(letter: char) -> int {
    if letter == 'R' {
        0
    } else if letter == 'W' {
        1
    } else if letter == 'X' {
        2
    } else if letter == 'D' {
        3
    } else if letter == 'P' {
        4
    } else if letter == 'O' {
        5
    } else {
        -1
    }
}

proof fn lemma_ranked(mask: i32)
    ensures
        ({
            let t = mask_letters(mask);
            forall|i: int, j: int|
                0 <= i < j < t.len() ==> 0 <= rank(#[trigger] t[i]) < rank(#[trigger] t[j])
        }),
        mask_letters(mask).len() > 0 ==> rank(mask_letters(mask)[0]) >= 0,
{
    let r = letter_if(mask, 0x0012_0089, 'R');
    let w = letter_if(mask, 0x0012_0116, 'W');
    let x = letter_if(mask, 0x0012_00a0, 'X');
    let d = letter_if(mask, 0x0001_0000, 'D');
    let p = letter_if(mask, 0x0004_0000, 'P');
    let o = letter_if(mask, 0x0008_0000, 'O');
    lemma_rank_concat(r, w, 0, 1);
    lemma_rank_concat(r + w, x, 1, 2);
    lemma_rank_concat(r + w + x, d, 2, 3);
    lemma_rank_concat(r + w + x + d, p, 3, 4);
    lemma_rank_concat(r + w + x + d + p, o, 4, 5);
}

/// The letters are in order, and none of them comes after the one of this rank.
spec fn ranked(t: Seq<char>, top: int) -> bool {
    &&& forall|i: int, j: int|
        0 <= i < j < t.len() ==> rank(#[trigger] t[i]) < rank(#[trigger] t[j])
    &&& forall|i: int| 0 <= i < t.len() ==> 0 <= rank(#[trigger] t[i]) <= top
}

proof fn lemma_rank_concat(a: Seq<char>, b: Seq<char>, low: int, high: int)
    requires
        ranked(a, low),
        0 <= low < high,
        b.len() == 0 || b.len() == 1 && rank(b[0]) == high,
    ensures
        ranked(a + b, high),
{
    let t = a + b;
    assert forall|i: int| 0 <= i < t.len() implies 0 <= rank(#[trigger] t[i]) <= high by {
        if i < a.len() {
            assert(t[i] == a[i]);
        }
    }
    assert forall|i: int, j: int| 0 <= i < j < t.len() implies rank(#[trigger] t[i]) < rank(
        #[trigger] t[j],
    ) by {
        assert(t[i] == a[i]);
        if j < a.len() {
            assert(t[j] == a[j]);
        }
    }
}

/// A mask is printed by the widest name that it covers. Where it covers none, it is printed by the
/// letters of the permissions that it holds, each once and in the order RWXDPO, or by `N` where it
/// holds none.
pub proof fn law_masks_are_printed(mask: i32, letter: char)
    ensures
        ({
            let t = mask_text(mask);
            let full = has_bits(mask, mask_of("FULL"@));
            let change = has_bits(mask, mask_of("CHANGE"@));
            let read = has_bits(mask, mask_of("READ"@));
            &&& full ==> t == "FULL"@
            &&& !full && change ==> t == "CHANGE"@
            &&& !full && !change && read ==> t == "READ"@
            &&& !full && !change && !read ==> {
                &&& rank(letter) >= 0 ==> (t.contains(letter) <==> has_bits(
                    mask,
                    permission(letter) as i32,
                ))
                &&& t != seq!['N'] ==> forall|i: int, j: int|
                    0 <= i < j < t.len() ==> 0 <= rank(#[trigger] t[i]) < rank(#[trigger] t[j])
                &&& t.contains(letter) && rank(letter) < 0 ==> t == seq!['N']
                &&& t.len() > 0
            }
        }),
{
    lemma_names_differ();
    lemma_letter(mask, letter);
    lemma_ranked(mask);
    reveal_strlit("N");
    assert("N"@ == seq!['N']);
    let letters = mask_letters(mask);
    if letters.len() == 0 {
        if rank(letter) >= 0 && has_bits(mask, permission(letter) as i32) {
            assert(letters.contains(letter));
        }
        if "N"@.contains(letter) {
            assert(letter == 'N');
        }
    } else {
        assert(letters.contains(letters[0]));
    }
}

} // verus!
