//! Text helpers shared by the parsers and the report layout.

use vstd::prelude::*;

verus! {

/// The ASCII lower-case form of a character; every other character is
/// its own lower-case form.
pub open spec fn lower(c: char) -> char {
    if 'A' <= c && c <= 'Z' {
        ((c as u8) + 32) as char
    } else {
        c
    }
}

/// A text with every ASCII capital replaced by its small letter.
pub open spec fn lowered(s: Seq<char>) -> Seq<char> {
    Seq::new(s.len(), |i: int| lower(s[i]))
}

/// Lower-cases one character.
pub fn to_lower(c: char) -> (r: char)
    ensures
        r == lower(c),
{
    if 'A' <= c && c <= 'Z' {
        ((c as u8) + 32) as char
    } else {
        c
    }
}

/// Whether `s`, lower-cased, reads exactly as `token`.
pub fn matches_ignoring_case(s: &str, token: &str) -> (b: bool)
    ensures
        b == (lowered(s@) == token@),
{
    let n: usize = s.unicode_len();
    if n != token.unicode_len() {
        return false;
    }
    let mut i: usize = 0;
    while i < n
        invariant
            i <= n,
            n == s@.len(),
            n == token@.len(),
            forall|j: int| 0 <= j < i ==> lower(s@[j]) == token@[j],
        decreases n - i,
    {
        if to_lower(s.get_char(i)) != token.get_char(i) {
            return false;
        }
        i = i + 1;
    }
    assert(lowered(s@) =~= token@);
    true
}

/// The character of one decimal digit.
pub open spec fn digit(d: int) -> char {
    (48 + d) as char
}

/// The decimal digits of a natural number, most significant first,
/// without leading zeros.
pub open spec fn digits(n: nat) -> Seq<char>
    decreases n,
{
    if n < 10 {
        seq![digit(n as int)]
    } else {
        digits(n / 10).push(digit((n % 10) as int))
    }
}

/// An integer in decimal, with a leading minus sign when negative.
pub open spec fn decimal(n: int) -> Seq<char> {
    if n < 0 {
        seq!['-'] + digits((-n) as nat)
    } else {
        digits(n as nat)
    }
}

/// A run of `k` blanks; empty when `k` is not positive.
pub open spec fn spaces(k: int) -> Seq<char> {
    Seq::new(
        if k > 0 {
            k as nat
        } else {
            0
        },
        |i: int| ' ',
    )
}

/// `s` followed by the blanks that bring it to `width` characters; `s`
/// itself when it is already that wide.
pub open spec fn padded_right(s: Seq<char>, width: int) -> Seq<char> {
    s + spaces(width - s.len())
}

/// `s` preceded by the blanks that bring it to `width` characters; `s`
/// itself when it is already that wide.
pub open spec fn padded_left(s: Seq<char>, width: int) -> Seq<char> {
    spaces(width - s.len()) + s
}

fn digit_text(d: u8) -> (r: &'static str)
    requires
        d < 10,
    ensures
        r@ == seq![digit(d as int)],
{
    proof {
        reveal_strlit("0");
        reveal_strlit("1");
        reveal_strlit("2");
        reveal_strlit("3");
        reveal_strlit("4");
        reveal_strlit("5");
        reveal_strlit("6");
        reveal_strlit("7");
        reveal_strlit("8");
        reveal_strlit("9");
    }
    match d {
        0 => "0",
        1 => "1",
        2 => "2",
        3 => "3",
        4 => "4",
        5 => "5",
        6 => "6",
        7 => "7",
        8 => "8",
        _ => "9",
    }
}

/// Appends the decimal digits of `n` to `out`.
pub fn append_digits(out: &mut String, n: u64)
    ensures
        final(out)@ == old(out)@ + digits(n as nat),
    decreases n,
{
    if n >= 10 {
        append_digits(out, n / 10);
    }
    out.append(digit_text((n % 10) as u8));
}

/// Appends `n` in decimal to `out`.
pub fn append_decimal(out: &mut String, n: i64)
    ensures
        final(out)@ == old(out)@ + decimal(n as int),
{
    if n < 0 {
        proof {
            reveal_strlit("-");
        }
        out.append("-");
        let magnitude: u64 = if n == i64::MIN {
            9223372036854775808u64
        } else {
            (-n) as u64
        };
        append_digits(out, magnitude);
    } else {
        append_digits(out, n as u64);
    }
}

/// Appends `k` blanks to `out`.
pub fn append_spaces(out: &mut String, k: usize)
    ensures
        final(out)@ == old(out)@ + spaces(k as int),
{
    proof {
        reveal_strlit(" ");
    }
    let mut i: usize = 0;
    while i < k
        invariant
            i <= k,
            out@ == old(out)@ + spaces(i as int),
            " "@ == seq![' '],
        decreases k - i,
    {
        out.append(" ");
        i = i + 1;
    }
}

/// Appends `s` to `out`, then the blanks that bring it to `width`
/// characters.
pub fn append_padded_right(out: &mut String, s: &str, width: usize)
    ensures
        final(out)@ == old(out)@ + padded_right(s@, width as int),
{
    let len: usize = s.unicode_len();
    out.append(s);
    if len < width {
        append_spaces(out, width - len);
    }
}

/// Appends the blanks that bring `s` to `width` characters, then `s`.
pub fn append_padded_left(out: &mut String, s: &str, width: usize)
    ensures
        final(out)@ == old(out)@ + padded_left(s@, width as int),
{
    let len: usize = s.unicode_len();
    if len < width {
        append_spaces(out, width - len);
    }
    out.append(s);
}

/// `n` in decimal.
pub fn decimal_text(n: i64) -> (r: String)
    ensures
        r@ == decimal(n as int),
{
    let mut out = String::new();
    append_decimal(&mut out, n);
    out
}

} // verus!
