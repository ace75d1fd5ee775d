//! Verified building blocks for the JSON texts this crate emits: decimal
//! rendering of counters, fixed-point rendering of percentages, and string
//! quoting with JSON escapes.
use vstd::prelude::*;

verus! {

/// Relies on `String::push` of std: appends exactly one character.
pub assume_specification[ String::push ](s: &mut String, c: char)
    ensures
        final(s)@ == old(s)@.push(c),
;

/// The character for one decimal digit.
pub open spec fn dec_digit(d: int) -> char {
    ((48 + d) as u8) as char
}

/// The character for one hexadecimal digit, lower case.
pub open spec fn hex_digit(d: int) -> char {
    if d < 10 {
        ((48 + d) as u8) as char
    } else {
        ((87 + d) as u8) as char
    }
}

/// The decimal digits of `n`, most significant first, no sign and no
/// leading zero except for `n == 0` itself.
pub open spec fn dec_str(n: nat) -> Seq<char>
    decreases n,
{
    if n < 10 {
        seq![dec_digit(n as int)]
    } else {
        dec_str(n / 10).push(dec_digit((n % 10) as int))
    }
}

/// A count of hundredths rendered as a decimal fraction with exactly two
/// places: 1234 becomes "12.34".
pub open spec fn centi_str(n: nat) -> Seq<char> {
    dec_str(n / 100).push('.').push(dec_digit(((n / 10) % 10) as int)).push(
        dec_digit((n % 10) as int),
    )
}

/// How one character appears inside a JSON string: quotes and backslashes
/// get a backslash, control characters become a \u00XX escape, everything
/// else stands for itself.
pub open spec fn escaped_char(c: char) -> Seq<char> {
    if c == '"' {
        seq!['\\', '"']
    } else if c == '\\' {
        seq!['\\', '\\']
    } else if (c as u32) < 32 {
        seq!['\\', 'u', '0', '0', hex_digit(c as u32 as int / 16), hex_digit(c as u32 as int % 16)]
    } else {
        seq![c]
    }
}

/// A whole text with every character escaped.
pub open spec fn escaped(s: Seq<char>) -> Seq<char>
    decreases s.len(),
{
    if s.len() == 0 {
        Seq::empty()
    } else {
        escaped(s.drop_last()) + escaped_char(s.last())
    }
}

/// The JSON string literal for `s`: quotes around the escaped text.
pub open spec fn quoted(s: Seq<char>) -> Seq<char> {
    seq!['"'] + escaped(s) + seq!['"']
}

fn hex_digit_char(d: u8) -> (c: char)
    requires
        d < 16,
    ensures
        c == hex_digit(d as int),
{
    if d < 10 {
        (48 + d) as char
    } else {
        (87 + d) as char
    }
}

/// Renders `n` in decimal.
pub fn u64_to_dec(n: u64) -> (r: String)
    ensures
        r@ == dec_str(n as nat),
    decreases n,
{
    if n < 10 {
        let mut s = String::new();
        s.push(((n % 10) as u8 + 48) as char);
        s
    } else {
        let mut s = u64_to_dec(n / 10);
        s.push(((n % 10) as u8 + 48) as char);
        s
    }
}

/// Appends the decimal rendering of `n`.
pub fn append_u64(out: &mut String, n: u64)
    ensures
        final(out)@ == old(out)@ + dec_str(n as nat),
{
    let s = u64_to_dec(n);
    out.append(s.as_str());
}

/// Appends a count of hundredths as a two-place decimal fraction.
pub fn append_centi(out: &mut String, n: u64)
    ensures
        final(out)@ == old(out)@ + centi_str(n as nat),
{
    append_u64(out, n / 100);
    out.push('.');
    out.push(((n / 10 % 10) as u8 + 48) as char);
    out.push(((n % 10) as u8 + 48) as char);
}

/// Appends `s` as a JSON string literal, escaping as `quoted` says.
pub fn append_quoted(out: &mut String, s: &str)
    ensures
        final(out)@ == old(out)@ + quoted(s@),
{
    out.push('"');
    let n = s.unicode_len();
    let mut i: usize = 0;
    while i < n
        invariant
            n == s@.len(),
            i <= n,
            out@ == old(out)@ + seq!['"'] + escaped(s@.take(i as int)),
        decreases n - i,
    {
        let c = s.get_char(i);
        if c == '"' {
            out.push('\\');
            out.push('"');
        } else if c == '\\' {
            out.push('\\');
            out.push('\\');
        } else {
            let v = c as u32;
            if v < 32 {
                out.push('\\');
                out.push('u');
                out.push('0');
                out.push('0');
                out.push(hex_digit_char((v / 16) as u8));
                out.push(hex_digit_char((v % 16) as u8));
            } else {
                out.push(c);
            }
        }
        proof {
            assert(s@.take(i + 1).drop_last() =~= s@.take(i as int));
            assert(s@.take(i + 1).last() == s@[i as int]);
        }
        i = i + 1;
    }
    out.push('"');
    proof {
        assert(s@.take(n as int) =~= s@);
        assert(out@ =~= old(out)@ + quoted(s@));
    }
}

} // verus!
