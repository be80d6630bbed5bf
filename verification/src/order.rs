//! Lexicographic order on sequences of code units, and the two orders on
//! text that rest on it: by code point and by UTF-16 code unit.

use vstd::prelude::*;

use crate::text::chars_of;

verus! {

/// Lexicographic order: a proper prefix comes first.
pub open spec fn lex_less(a: Seq<u32>, b: Seq<u32>) -> bool
    decreases a.len(),
{
    if b.len() == 0 {
        false
    } else if a.len() == 0 {
        true
    } else {
        a[0] < b[0] || (a[0] == b[0] && lex_less(a.skip(1), b.skip(1)))
    }
}

/// Nothing comes before itself.
pub proof fn lemma_lex_irreflexive(a: Seq<u32>)
    ensures
        !lex_less(a, a),
    decreases a.len(),
{
    if a.len() > 0 {
        lemma_lex_irreflexive(a.skip(1));
    }
}

/// The order is transitive.
pub proof fn lemma_lex_transitive(a: Seq<u32>, b: Seq<u32>, c: Seq<u32>)
    requires
        lex_less(a, b),
        lex_less(b, c),
    ensures
        lex_less(a, c),
    decreases a.len(),
{
    if a.len() > 0 && a[0] == b[0] && b[0] == c[0] {
        lemma_lex_transitive(a.skip(1), b.skip(1), c.skip(1));
    }
}

/// Of two different sequences one comes before the other.
pub proof fn lemma_lex_total(a: Seq<u32>, b: Seq<u32>)
    ensures
        a == b || lex_less(a, b) || lex_less(b, a),
    decreases a.len(),
{
    if a.len() == 0 {
        if b.len() == 0 {
            assert(a =~= b);
        }
    } else if b.len() > 0 && a[0] == b[0] {
        lemma_lex_total(a.skip(1), b.skip(1));
        if a.skip(1) == b.skip(1) {
            assert(a =~= seq![a[0]] + a.skip(1));
            assert(b =~= seq![b[0]] + b.skip(1));
        }
    }
}

/// Compares two sequences of code units.
pub fn units_less(a: &Vec<u32>, b: &Vec<u32>) -> (r: bool)
    ensures
        r == lex_less(a@, b@),
{
    let mut i: usize = 0;
    assert(a@.skip(0) =~= a@);
    assert(b@.skip(0) =~= b@);
    while i < a.len() && i < b.len()
        invariant
            i <= a@.len(),
            i <= b@.len(),
            lex_less(a@, b@) == lex_less(a@.skip(i as int), b@.skip(i as int)),
        decreases a@.len() - i,
    {
        assert(a@.skip(i as int)[0] == a@[i as int]);
        assert(b@.skip(i as int)[0] == b@[i as int]);
        if a[i] < b[i] {
            return true;
        }
        if b[i] < a[i] {
            return false;
        }
        assert(a@.skip(i as int).skip(1) =~= a@.skip(i + 1));
        assert(b@.skip(i as int).skip(1) =~= b@.skip(i + 1));
        i = i + 1;
    }
    i < b.len()
}

/// A character is a Unicode scalar value: a code point, but no surrogate.
pub proof fn lemma_char_range(c: char)
    ensures
        0 <= c as int <= 0x10FFFF,
        !(0xD800 <= c as int <= 0xDFFF),
        c as u32 == c as int,
{
}

/// The code points of `s`.
pub open spec fn code_points(s: Seq<char>) -> Seq<u32> {
    s.map_values(|c: char| c as u32)
}

/// Whether `a` comes before `b`, by code points. On UTF-8 text this is also
/// the order by bytes.
pub open spec fn text_less(a: Seq<char>, b: Seq<char>) -> bool {
    lex_less(code_points(a), code_points(b))
}

/// Different texts have different code points.
pub proof fn lemma_code_points_injective(a: Seq<char>, b: Seq<char>)
    requires
        code_points(a) == code_points(b),
    ensures
        a == b,
{
    assert(a.len() == code_points(a).len());
    assert(b.len() == code_points(b).len());
    assert forall|i: int| 0 <= i < a.len() implies a[i] == b[i] by {
        lemma_char_range(a[i]);
        lemma_char_range(b[i]);
        assert(code_points(a)[i] == a[i] as u32);
        assert(code_points(b)[i] == b[i] as u32);
    }
    assert(a =~= b);
}

/// The order by code points is total.
pub proof fn lemma_text_total(a: Seq<char>, b: Seq<char>)
    ensures
        a == b || text_less(a, b) || text_less(b, a),
{
    lemma_lex_total(code_points(a), code_points(b));
    if code_points(a) == code_points(b) {
        lemma_code_points_injective(a, b);
    }
}

fn code_points_of(s: &str) -> (r: Vec<u32>)
    ensures
        r@ == code_points(s@),
{
    let chars = chars_of(s);
    let mut out: Vec<u32> = Vec::new();
    let mut i: usize = 0;
    while i < chars.len()
        invariant
            i <= chars@.len(),
            chars@ == s@,
            out@.len() == i,
            forall|j: int| 0 <= j < i ==> #[trigger] out@[j] == chars@[j] as u32,
        decreases chars@.len() - i,
    {
        out.push(chars[i] as u32);
        i = i + 1;
    }
    assert(out@ =~= code_points(s@));
    out
}

/// Compares two texts by code points.
pub fn text_before(a: &str, b: &str) -> (r: bool)
    ensures
        r == text_less(a@, b@),
{
    units_less(&code_points_of(a), &code_points_of(b))
}

/// The UTF-16 code units of one character: the code point itself, or a pair
/// of surrogates.
pub open spec fn utf16_char(c: char) -> Seq<u32> {
    let n = c as int;
    if n < 0x10000 {
        seq![n as u32]
    } else {
        seq![(0xD800 + (n - 0x10000) / 0x400) as u32, (0xDC00 + (n - 0x10000) % 0x400) as u32]
    }
}

/// The UTF-16 code units of `s`.
pub open spec fn utf16_units(s: Seq<char>) -> Seq<u32>
    decreases s.len(),
{
    if s.len() == 0 {
        Seq::empty()
    } else {
        utf16_units(s.drop_last()) + utf16_char(s.last())
    }
}

/// Whether `a` comes before `b`, by UTF-16 code units.
pub open spec fn utf16_less(a: Seq<char>, b: Seq<char>) -> bool {
    lex_less(utf16_units(a), utf16_units(b))
}

/// Different texts have different UTF-16 forms.
pub proof fn lemma_utf16_injective(a: Seq<char>, b: Seq<char>)
    requires
        utf16_units(a) == utf16_units(b),
    ensures
        a == b,
    decreases a.len(),
{
    let ua = utf16_units(a);
    let ub = utf16_units(b);
    if a.len() == 0 {
        if b.len() > 0 {
            assert(ub.len() >= utf16_char(b.last()).len());
        }
        assert(a =~= b);
    } else if b.len() == 0 {
        assert(ua.len() >= utf16_char(a.last()).len());
    } else {
        lemma_char_range(a.last());
        lemma_char_range(b.last());
        let ca = utf16_char(a.last());
        let cb = utf16_char(b.last());
        let ra = utf16_units(a.drop_last());
        let rb = utf16_units(b.drop_last());
        assert(ua.last() == ca.last());
        assert(ub.last() == cb.last());
        assert(ca.len() == cb.len());
        if ca.len() == 2 {
            assert(ua[ua.len() - 2] == ca[0]);
            assert(ub[ub.len() - 2] == cb[0]);
            let na = a.last() as int - 0x10000;
            let nb = b.last() as int - 0x10000;
            assert(na / 0x400 == nb / 0x400);
            assert(na % 0x400 == nb % 0x400);
            assert(na == nb);
        }
        assert(a.last() as int == b.last() as int);
        assert(a.last() == b.last());
        assert(ra =~= ua.take(ua.len() - ca.len()));
        assert(rb =~= ub.take(ub.len() - cb.len()));
        lemma_utf16_injective(a.drop_last(), b.drop_last());
        assert(a =~= a.drop_last().push(a.last()));
        assert(b =~= b.drop_last().push(b.last()));
    }
}

/// The order by UTF-16 code units is total.
pub proof fn lemma_utf16_total(a: Seq<char>, b: Seq<char>)
    ensures
        a == b || utf16_less(a, b) || utf16_less(b, a),
{
    lemma_lex_total(utf16_units(a), utf16_units(b));
    if utf16_units(a) == utf16_units(b) {
        lemma_utf16_injective(a, b);
    }
}

fn utf16_units_of(s: &str) -> (r: Vec<u32>)
    ensures
        r@ == utf16_units(s@),
{
    let chars = chars_of(s);
    let mut out: Vec<u32> = Vec::new();
    let mut i: usize = 0;
    while i < chars.len()
        invariant
            i <= chars@.len(),
            chars@ == s@,
            out@ == utf16_units(chars@.take(i as int)),
        decreases chars@.len() - i,
    {
        let c = chars[i];
        let n: u32 = c as u32;
        proof {
            lemma_char_range(c);
        }
        let ghost before = out@;
        if n < 0x10000 {
            out.push(n);
        } else {
            out.push(0xD800 + (n - 0x10000) / 0x400);
            out.push(0xDC00 + (n - 0x10000) % 0x400);
        }
        assert(chars@.take(i + 1).drop_last() =~= chars@.take(i as int));
        assert(out@ =~= before + utf16_char(c));
        i = i + 1;
    }
    assert(chars@.take(i as int) =~= chars@);
    out
}

/// Compares two texts by UTF-16 code units.
pub fn utf16_before(a: &str, b: &str) -> (r: bool)
    ensures
        r == utf16_less(a@, b@),
{
    units_less(&utf16_units_of(a), &utf16_units_of(b))
}

} // verus!
