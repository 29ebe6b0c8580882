//! Character-level helpers shared by the parsers and formatters of the crate.

use vstd::prelude::*;

verus! {

broadcast use vstd::string::group_string_axioms;

/// Appends one character to a string.
///
/// Trusted: `String::push` appends `c` at the end of the string.
#[verifier::external_body]
pub(crate) fn push_char(s: &mut String, c: char)
    ensures
        final(s)@ == old(s)@.push(c),
{
    s.push(c);
}

/// `a` followed by `b`.
pub(crate) fn concat(a: &str, b: &str) -> (s: String)
    ensures
        s@ == a@ + b@,
{
    let mut s = a.to_owned();
    let v = chars_of(b);
    let mut i: usize = 0;
    while i < v.len()
        invariant
            i <= v@.len(),
            v@ == b@,
            s@ == a@ + v@.take(i as int),
        decreases v@.len() - i,
    {
        push_char(&mut s, v[i]);
        assert(v@.take(i + 1) == v@.take(i as int).push(v@[i as int]));
        i = i + 1;
    }
    assert(v@.take(v@.len() as int) == v@);
    s
}

/// The characters of a string slice, in order.
pub fn chars_of(s: &str) -> (v: Vec<char>)
    ensures
        v@ == s@,
{
    let mut v: Vec<char> = Vec::new();
    for c in it: s.chars()
        invariant
            v@ == it.seq().take(it.index() as int),
            it.seq() == s@,
    {
        v.push(c);
    }
    v
}


/// Value of a hexadecimal digit (either case), if `c` is one.
pub open spec fn hex_digit_value(c: char) -> Option<nat> {
    if '0' <= c && c <= '9' {
        Some((c as int - '0' as int) as nat)
    } else if 'a' <= c && c <= 'f' {
        Some((c as int - 'a' as int + 10) as nat)
    } else if 'A' <= c && c <= 'F' {
        Some((c as int - 'A' as int + 10) as nat)
    } else {
        None
    }
}

/// Value of a two-character field read in base 16 the way the unsigned
/// `from_str_radix` reads it: either two digits, or a `+` sign and one digit.
pub open spec fn radix16_pair(a: char, b: char) -> Option<nat> {
    if a == '+' {
        hex_digit_value(b)
    } else {
        match (hex_digit_value(a), hex_digit_value(b)) {
            (Some(x), Some(y)) => Some(16 * x + y),
            _ => None,
        }
    }
}

/// Upper-case hexadecimal digit for `n < 16`.
pub open spec fn hex_digit_char(n: nat) -> char {
    if n < 10 {
        (n + '0' as nat) as char
    } else {
        (n - 10 + 'A' as nat) as char
    }
}

/// Two upper-case hexadecimal digits of a byte value.
pub open spec fn hex_byte_chars(n: nat) -> Seq<char> {
    seq![hex_digit_char(n / 16), hex_digit_char(n % 16)]
}

/// The CSS form `#RRGGBB` of a colour, with upper-case digits.
pub open spec fn css_hex(r: nat, g: nat, b: nat) -> Seq<char> {
    seq!['#'] + hex_byte_chars(r) + hex_byte_chars(g) + hex_byte_chars(b)
}

/// The digit character of `n < 16`, upper case.
pub fn hex_digit(n: u32) -> (c: char)
    requires
        n < 16,
    ensures
        c == hex_digit_char(n as nat),
{
    let b: u8 = n as u8;
    if b < 10 {
        (b + 48) as char
    } else {
        (b + 55) as char
    }
}

/// Value of a hexadecimal digit, if `c` is one.
pub fn hex_value(c: char) -> (r: Option<u32>)
    ensures
        r matches Some(v) ==> hex_digit_value(c) == Some(v as nat),
        r is None <==> hex_digit_value(c) is None,
{
    if '0' <= c && c <= '9' {
        Some((c as u32) - ('0' as u32))
    } else if 'a' <= c && c <= 'f' {
        Some((c as u32) - ('a' as u32) + 10)
    } else if 'A' <= c && c <= 'F' {
        Some((c as u32) - ('A' as u32) + 10)
    } else {
        None
    }
}

/// Reads a two-character base-16 field (see [`radix16_pair`]).
pub fn parse_radix16_pair(a: char, b: char) -> (r: Option<u32>)
    ensures
        r matches Some(v) ==> radix16_pair(a, b) == Some(v as nat),
        r is None <==> radix16_pair(a, b) is None,
{
    if a == '+' {
        hex_value(b)
    } else {
        match (hex_value(a), hex_value(b)) {
            (Some(x), Some(y)) => Some(16 * x + y),
            _ => None,
        }
    }
}

/// Appends the two upper-case hex digits of `n < 256`.
pub fn push_hex_byte(s: &mut String, n: u32)
    requires
        n < 256,
    ensures
        final(s)@ == old(s)@ + hex_byte_chars(n as nat),
{
    push_char(s, hex_digit(n / 16));
    push_char(s, hex_digit(n % 16));
}

/// `#RRGGBB` with upper-case digits.
pub fn css_hex_string(r: u32, g: u32, b: u32) -> (s: String)
    requires
        r < 256,
        g < 256,
        b < 256,
    ensures
        s@ == css_hex(r as nat, g as nat, b as nat),
{
    let mut s = String::new();
    push_char(&mut s, '#');
    push_hex_byte(&mut s, r);
    push_hex_byte(&mut s, g);
    push_hex_byte(&mut s, b);
    s
}


/// Every character is ASCII (code point at most 0x7F).
pub open spec fn is_ascii_text(s: Seq<char>) -> bool {
    forall|i: int| 0 <= i < s.len() ==> #[trigger] s[i] <= '\u{7f}'
}

/// Whether every character is ASCII.
pub fn all_ascii(v: &Vec<char>) -> (b: bool)
    ensures
        b == is_ascii_text(v@),
{
    let mut i: usize = 0;
    while i < v.len()
        invariant
            i <= v.len(),
            forall|j: int| 0 <= j < i ==> #[trigger] v@[j] <= '\u{7f}',
        decreases v.len() - i,
    {
        if v[i] > '\u{7f}' {
            return false;
        }
        i = i + 1;
    }
    true
}


/// A byte written as two upper-case digits reads back as the same value.
pub proof fn lemma_hex_byte_reads_back(n: nat)
    requires
        n < 256,
    ensures
        radix16_pair(hex_byte_chars(n)[0], hex_byte_chars(n)[1]) == Some(n),
        hex_byte_chars(n).len() == 2,
        is_ascii_text(hex_byte_chars(n)),
{
    let hi = n / 16;
    let lo = n % 16;
    assert(hi < 16 && lo < 16);
    assert(hex_digit_value(hex_digit_char(hi)) == Some(hi));
    assert(hex_digit_value(hex_digit_char(lo)) == Some(lo));
    assert(hex_digit_char(hi) != '+');
    assert(16 * hi + lo == n);
    let s = hex_byte_chars(n);
    assert forall|i: int| 0 <= i < s.len() implies #[trigger] s[i] <= '\u{7f}' by {
        if i == 0 {
            assert(s[0] == hex_digit_char(hi));
        } else {
            assert(s[1] == hex_digit_char(lo));
        }
    }
}


/// `#` followed by exactly six hexadecimal digits.
pub open spec fn is_hex6(s: Seq<char>) -> bool {
    &&& s.len() == 7
    &&& s[0] == '#'
    &&& forall|i: int| 1 <= i < 7 ==> (#[trigger] hex_digit_value(s[i])) is Some
}

/// The three channel values of a string of the [`is_hex6`] form.
pub open spec fn hex6_channels(s: Seq<char>) -> (nat, nat, nat) {
    (
        16 * hex_digit_value(s[1])->0 + hex_digit_value(s[2])->0,
        16 * hex_digit_value(s[3])->0 + hex_digit_value(s[4])->0,
        16 * hex_digit_value(s[5])->0 + hex_digit_value(s[6])->0,
    )
}

/// The `#RRGGBB` text of a colour has the [`is_hex6`] form and its channels.
pub proof fn lemma_css_hex_is_hex6(r: nat, g: nat, b: nat)
    requires
        r < 256,
        g < 256,
        b < 256,
    ensures
        is_hex6(css_hex(r, g, b)),
        hex6_channels(css_hex(r, g, b)) == (r, g, b),
{
    let s = css_hex(r, g, b);
    let hr = hex_byte_chars(r);
    let hg = hex_byte_chars(g);
    let hb = hex_byte_chars(b);
    assert(s[1] == hr[0] && s[2] == hr[1]);
    assert(s[3] == hg[0] && s[4] == hg[1]);
    assert(s[5] == hb[0] && s[6] == hb[1]);
    assert(hex_digit_value(hex_digit_char(r / 16)) == Some(r / 16));
    assert(hex_digit_value(hex_digit_char(r % 16)) == Some(r % 16));
    assert(hex_digit_value(hex_digit_char(g / 16)) == Some(g / 16));
    assert(hex_digit_value(hex_digit_char(g % 16)) == Some(g % 16));
    assert(hex_digit_value(hex_digit_char(b / 16)) == Some(b / 16));
    assert(hex_digit_value(hex_digit_char(b % 16)) == Some(b % 16));
    assert forall|i: int| 1 <= i < 7 implies (#[trigger] hex_digit_value(s[i])) is Some by {
        if i == 1 || i == 2 {
            assert(s[i] == hr[i - 1]);
        } else if i == 3 || i == 4 {
            assert(s[i] == hg[i - 3]);
        } else {
            assert(s[i] == hb[i - 5]);
        }
    }
}


/// Lexicographic order of character sequences, by code point; this is the
/// order of `String`s, whose UTF-8 encoding preserves code point order.
pub open spec fn lex_lt(a: Seq<char>, b: Seq<char>) -> bool
    decreases a.len(),
{
    if a.len() == 0 {
        b.len() > 0
    } else if b.len() == 0 {
        false
    } else if a[0] < b[0] {
        true
    } else if a[0] == b[0] {
        lex_lt(a.drop_first(), b.drop_first())
    } else {
        false
    }
}

/// No sequence precedes itself.
pub proof fn lemma_lex_irreflexive(a: Seq<char>)
    ensures
        !lex_lt(a, a),
    decreases a.len(),
{
    if a.len() > 0 {
        lemma_lex_irreflexive(a.drop_first());
    }
}

/// Two different sequences are ordered one way or the other, and not both.
pub proof fn lemma_lex_total(a: Seq<char>, b: Seq<char>)
    ensures
        a != b ==> (lex_lt(a, b) || lex_lt(b, a)),
        !(lex_lt(a, b) && lex_lt(b, a)),
    decreases a.len(),
{
    if a.len() > 0 && b.len() > 0 && a[0] == b[0] {
        lemma_lex_total(a.drop_first(), b.drop_first());
        if a != b {
            assert(a.drop_first() != b.drop_first()) by {
                if a.drop_first() == b.drop_first() {
                    assert(a =~= seq![a[0]] + a.drop_first());
                    assert(b =~= seq![b[0]] + b.drop_first());
                }
            }
        }
    } else if a.len() == 0 && b.len() == 0 {
        assert(a =~= b);
    }
}

/// The order is transitive.
pub proof fn lemma_lex_transitive(a: Seq<char>, b: Seq<char>, c: Seq<char>)
    requires
        lex_lt(a, b),
        lex_lt(b, c),
    ensures
        lex_lt(a, c),
    decreases a.len(),
{
    if a.len() > 0 && b.len() > 0 && c.len() > 0 && a[0] == b[0] && b[0] == c[0] {
        lemma_lex_transitive(a.drop_first(), b.drop_first(), c.drop_first());
    }
}

/// Outcome of comparing two strings.
#[derive(Debug, PartialEq, Eq, Structural, Clone, Copy)]
pub enum Precedence {
    Before,
    Same,
    After,
}

/// Compares two character sequences in [`lex_lt`] order.
pub fn compare_chars(a: &Vec<char>, b: &Vec<char>) -> (r: Precedence)
    ensures
        r == Precedence::Before <==> lex_lt(a@, b@),
        r == Precedence::Same <==> a@ == b@,
        r == Precedence::After <==> lex_lt(b@, a@),
{
    proof {
        lemma_lex_total(a@, b@);
        lemma_lex_irreflexive(a@);
        assert(a@.skip(0) == a@);
        assert(b@.skip(0) == b@);
    }
    let mut i: usize = 0;
    while i < a.len() && i < b.len()
        invariant
            i <= a@.len(),
            i <= b@.len(),
            a@.take(i as int) == b@.take(i as int),
            lex_lt(a@, b@) == lex_lt(a@.skip(i as int), b@.skip(i as int)),
            lex_lt(b@, a@) == lex_lt(b@.skip(i as int), a@.skip(i as int)),
        decreases a@.len() - i,
    {
        assert(a@.skip(i as int)[0] == a@[i as int]);
        assert(b@.skip(i as int)[0] == b@[i as int]);
        if a[i] < b[i] {
            return Precedence::Before;
        }
        if b[i] < a[i] {
            return Precedence::After;
        }
        assert(a@.skip(i as int).drop_first() == a@.skip(i + 1));
        assert(b@.skip(i as int).drop_first() == b@.skip(i + 1));
        assert(a@.take(i + 1) == a@.take(i as int).push(a@[i as int]));
        assert(b@.take(i + 1) == b@.take(i as int).push(b@[i as int]));
        i = i + 1;
    }
    if a.len() == b.len() {
        assert(a@ == a@.take(i as int));
        assert(b@ == b@.take(i as int));
        Precedence::Same
    } else if a.len() < b.len() {
        assert(a@.skip(i as int).len() == 0);
        Precedence::Before
    } else {
        assert(b@.skip(i as int).len() == 0);
        Precedence::After
    }
}

/// Whether two character vectors are equal.
pub fn same_chars(a: &Vec<char>, b: &Vec<char>) -> (r: bool)
    ensures
        r == (a@ == b@),
{
    if a.len() != b.len() {
        return false;
    }
    let mut i: usize = 0;
    while i < a.len()
        invariant
            i <= a@.len(),
            a@.len() == b@.len(),
            forall|j: int| 0 <= j < i ==> a@[j] == b@[j],
        decreases a@.len() - i,
    {
        if a[i] != b[i] {
            return false;
        }
        i = i + 1;
    }
    assert(a@ =~= b@);
    true
}

} // verus!
