//! Decimal rendering of integers and other small text helpers.

use vstd::prelude::*;

verus! {

/// The character of the decimal digit `d`.
pub open spec fn digit_char(d: int) -> char {
    if d == 0 { '0' }
    else if d == 1 { '1' }
    else if d == 2 { '2' }
    else if d == 3 { '3' }
    else if d == 4 { '4' }
    else if d == 5 { '5' }
    else if d == 6 { '6' }
    else if d == 7 { '7' }
    else if d == 8 { '8' }
    else { '9' }
}

/// Decimal digits of a natural number, most significant first, without leading zeros.
pub open spec fn decimal_digits(n: nat) -> Seq<char>
    decreases n,
{
    if n < 10 {
        seq![digit_char(n as int)]
    } else {
        decimal_digits(n / 10).push(digit_char((n % 10) as int))
    }
}

/// The text that Rust's `Display` gives an integer: a minus sign for negative
/// values, then the decimal digits of the magnitude.
pub open spec fn decimal(n: int) -> Seq<char> {
    if n < 0 {
        seq!['-'] + decimal_digits((-n) as nat)
    } else {
        decimal_digits(n as nat)
    }
}

proof fn lemma_digits_shape(n: nat)
    ensures
        decimal_digits(n).len() >= 1,
        (decimal_digits(n).len() == 1) <==> n < 10,
        forall|i: int| 0 <= i < decimal_digits(n).len() ==> #[trigger] decimal_digits(n)[i] != '-',
    decreases n,
{
    if n >= 10 {
        lemma_digits_shape(n / 10);
        let d = decimal_digits(n / 10);
        assert forall|i: int| 0 <= i < decimal_digits(n).len() implies #[trigger] decimal_digits(n)[i] != '-' by {
            if i < d.len() {
                assert(decimal_digits(n)[i] == d[i]);
            }
        }
    }
}

proof fn lemma_digits_injective(n: nat, m: nat)
    requires
        decimal_digits(n) == decimal_digits(m),
    ensures
        n == m,
    decreases n,
{
    lemma_digits_shape(n);
    lemma_digits_shape(m);
    if n < 10 {
        assert(m < 10);
        assert(decimal_digits(n) == seq![digit_char(n as int)]);
        assert(decimal_digits(m) == seq![digit_char(m as int)]);
        assert(decimal_digits(n)[0] == digit_char(n as int));
        assert(decimal_digits(m)[0] == digit_char(m as int));
    } else {
        assert(m >= 10);
        let dn = decimal_digits(n);
        assert(dn.last() == digit_char((n % 10) as int));
        assert(decimal_digits(m).last() == digit_char((m % 10) as int));
        assert(dn.drop_last() =~= decimal_digits(n / 10));
        assert(decimal_digits(m).drop_last() =~= decimal_digits(m / 10));
        lemma_digits_injective(n / 10, m / 10);
        assert(digit_char((n % 10) as int) == digit_char((m % 10) as int));
        assert(n % 10 == m % 10);
        assert(n == (n / 10) * 10 + n % 10);
        assert(m == (m / 10) * 10 + m % 10);
    }
}

/// Distinct integers are rendered as distinct texts.
pub proof fn law_decimal_injective(a: int, b: int)
    requires
        decimal(a) == decimal(b),
    ensures
        a == b,
{
    if a < 0 {
        lemma_digits_shape((-a) as nat);
        lemma_digits_shape(b as nat);
        if b >= 0 {
            assert(decimal(a)[0] == '-');
            assert(decimal_digits(b as nat)[0] != '-');
        } else {
            assert(decimal(a).skip(1) =~= decimal_digits((-a) as nat));
            assert(decimal(b).skip(1) =~= decimal_digits((-b) as nat));
            lemma_digits_injective((-a) as nat, (-b) as nat);
        }
    } else {
        lemma_digits_shape(a as nat);
        if b < 0 {
            assert(decimal(b)[0] == '-');
            assert(decimal_digits(a as nat)[0] != '-');
        } else {
            lemma_digits_injective(a as nat, b as nat);
        }
    }
}

/// Distinct integers after the same prefix give distinct texts.
pub proof fn lemma_prefixed_decimal_injective(prefix: Seq<char>, a: int, b: int)
    requires
        prefix + decimal(a) == prefix + decimal(b),
    ensures
        a == b,
{
    assert((prefix + decimal(a)).skip(prefix.len() as int) =~= decimal(a));
    assert((prefix + decimal(b)).skip(prefix.len() as int) =~= decimal(b));
    law_decimal_injective(a, b);
}

fn digit_str(d: u64) -> (s: &'static str)
    requires
        d < 10,
    ensures
        s@ == seq![digit_char(d as int)],
{
    if d == 0 {
        proof { reveal_strlit("0"); }
        "0"
    } else if d == 1 {
        proof { reveal_strlit("1"); }
        "1"
    } else if d == 2 {
        proof { reveal_strlit("2"); }
        "2"
    } else if d == 3 {
        proof { reveal_strlit("3"); }
        "3"
    } else if d == 4 {
        proof { reveal_strlit("4"); }
        "4"
    } else if d == 5 {
        proof { reveal_strlit("5"); }
        "5"
    } else if d == 6 {
        proof { reveal_strlit("6"); }
        "6"
    } else if d == 7 {
        proof { reveal_strlit("7"); }
        "7"
    } else if d == 8 {
        proof { reveal_strlit("8"); }
        "8"
    } else {
        proof { reveal_strlit("9"); }
        "9"
    }
}

/// Appends the decimal digits of `n` to `out`.
pub fn append_decimal(out: &mut String, n: u64)
    ensures
        final(out)@ == old(out)@ + decimal_digits(n as nat),
    decreases n,
{
    if n >= 10 {
        append_decimal(out, n / 10);
    }
    let d: u64 = n % 10;
    out.append(digit_str(d));
    proof {
        if n >= 10 {
            assert(old(out)@ + decimal_digits(n as nat) =~= old(out)@ + decimal_digits((n / 10) as nat) + seq![digit_char(d as int)]);
        } else {
            assert(old(out)@ + decimal_digits(n as nat) =~= old(out)@ + seq![digit_char(d as int)]);
        }
    }
}

/// Renders a 32-bit signed integer as `format!("{}", n)` does.
pub fn decimal_i32(n: i32) -> (s: String)
    ensures
        s@ == decimal(n as int),
{
    let mut s = String::new();
    if n < 0 {
        proof { reveal_strlit("-"); }
        s.append("-");
        let m: u64 = (0i64 - (n as i64)) as u64;
        append_decimal(&mut s, m);
    } else {
        let m: u64 = n as u64;
        append_decimal(&mut s, m);
    }
    s
}

/// Renders an unsigned count as `format!("{}", n)` does.
pub fn decimal_usize(n: usize) -> (s: String)
    ensures
        s@ == decimal(n as int),
{
    let mut s = String::new();
    append_decimal(&mut s, n as u64);
    s
}

/// Whether `c` has the Unicode `White_Space` property, which is what
/// `char::is_whitespace` and `str::trim` go by: U+0009 to U+000D, U+0020,
/// U+0085, U+00A0, U+1680, U+2000 to U+200A, U+2028, U+2029, U+202F,
/// U+205F and U+3000.
pub open spec fn white_space(c: char) -> bool {
    let v = c as u32;
    ||| 0x09 <= v <= 0x0D
    ||| v == 0x20
    ||| v == 0x85
    ||| v == 0xA0
    ||| v == 0x1680
    ||| 0x2000 <= v <= 0x200A
    ||| v == 0x2028
    ||| v == 0x2029
    ||| v == 0x202F
    ||| v == 0x205F
    ||| v == 0x3000
}

/// A string that `str::trim` empties: every character of it is white space.
pub open spec fn blank(s: Seq<char>) -> bool {
    forall|i: int| 0 <= i < s.len() ==> white_space(#[trigger] s[i])
}

/// Whether `c` is white space, as `char::is_whitespace` decides.
pub fn is_white_space(c: char) -> (r: bool)
    ensures
        r == white_space(c),
{
    let v: u32 = c as u32;
    (0x09 <= v && v <= 0x0D) || v == 0x20 || v == 0x85 || v == 0xA0 || v == 0x1680
        || (0x2000 <= v && v <= 0x200A) || v == 0x2028 || v == 0x2029 || v == 0x202F
        || v == 0x205F || v == 0x3000
}

/// Whether `s.trim().is_empty()`: every character of `s` is white space.
pub fn is_blank(s: &str) -> (r: bool)
    ensures
        r == blank(s@),
{
    let n: usize = s.unicode_len();
    let mut i: usize = 0;
    while i < n
        invariant
            n == s@.len(),
            i <= n,
            forall|j: int| 0 <= j < i ==> white_space(#[trigger] s@[j]),
        decreases n - i,
    {
        let c = s.get_char(i);
        if !is_white_space(c) {
            return false;
        }
        i = i + 1;
    }
    true
}

/// The numeric value of a string of decimal digits.
pub open spec fn digits_value(s: Seq<char>) -> int
    decreases s.len(),
{
    if s.len() == 0 {
        0
    } else {
        digits_value(s.drop_last()) * 10 + (s.last() as int - 48)
    }
}

proof fn lemma_digit_char_code(d: int)
    requires
        0 <= d < 10,
    ensures
        digit_char(d) as int == 48 + d,
{
}

/// The decimal text of `n` is made of the digits `0` to `9` only, reads back
/// as `n`, and starts with `0` only when it is `0` itself.
pub proof fn law_decimal_digits_read_back(n: nat)
    ensures
        decimal_digits(n).len() >= 1,
        forall|i: int| 0 <= i < decimal_digits(n).len() ==> 48 <= #[trigger] (decimal_digits(n)[i] as int) <= 57,
        digits_value(decimal_digits(n)) == n,
        decimal_digits(n)[0] == '0' ==> n == 0,
    decreases n,
{
    lemma_digit_char_code((n % 10) as int);
    let d = decimal_digits(n);
    assert(d.last() == digit_char((n % 10) as int));
    if n < 10 {
        assert(d.drop_last() =~= Seq::<char>::empty());
        assert(digits_value(d.drop_last()) == 0);
        assert(digits_value(d) == digits_value(d.drop_last()) * 10 + (d.last() as int - 48));
    } else {
        law_decimal_digits_read_back(n / 10);
        let d = decimal_digits(n);
        let p = decimal_digits(n / 10);
        assert(d.drop_last() =~= p);
        assert forall|i: int| 0 <= i < d.len() implies 48 <= #[trigger] (d[i] as int) <= 57 by {
            if i < p.len() {
                assert(d[i] == p[i]);
            }
        }
        assert(d[0] == p[0]);
        assert(n / 10 > 0);
        assert(digits_value(d) == digits_value(p) * 10 + (d.last() as int - 48));
        assert(n == (n / 10) * 10 + n % 10);
    }
}

/// The text of a negative number is a minus sign followed by the digits of
/// its magnitude; that of a non-negative number is its digits.
pub proof fn law_decimal_sign(n: int)
    ensures
        n < 0 ==> decimal(n)[0] == '-' && decimal(n).skip(1) == decimal_digits((-n) as nat),
        n >= 0 ==> decimal(n) == decimal_digits(n as nat),
{
    if n < 0 {
        assert(decimal(n).skip(1) =~= decimal_digits((-n) as nat));
    }
}

/// Visible ASCII characters (letters, digits, punctuation) and characters
/// past U+3000 are not white space; space, tab, line feed, carriage return,
/// no-break space and the ideographic space are.
pub proof fn law_white_space_bounds(c: char)
    ensures
        0x21 <= c as u32 <= 0x7E ==> !white_space(c),
        c as u32 > 0x3000 ==> !white_space(c),
        (c == ' ' || c == '\t' || c == '\n' || c == '\r' || c == '\u{A0}' || c == '\u{3000}') ==> white_space(c),
{
}

/// A string that holds a visible ASCII character is not blank, and a string
/// of spaces and tabs is.
pub proof fn law_blank_bounds(s: Seq<char>)
    ensures
        (exists|i: int| 0 <= i < s.len() && 0x21 <= #[trigger] (s[i] as u32) <= 0x7E) ==> !blank(s),
        (forall|i: int| 0 <= i < s.len() ==> #[trigger] s[i] == ' ' || s[i] == '\t') ==> blank(s),
{
}

} // verus!
