//! The text forms of the values that go into a URL or a query.

use vstd::prelude::*;
use vstd::string::{StrSliceExecFns, StringExecFns, StringSliceAdditionalSpecFns};

verus! {

/// The character of a decimal digit.
pub open spec fn digit(d: nat) -> char
    recommends
        d < 10,
{
    if d == 0 {
        '0'
    } else if d == 1 {
        '1'
    } else if d == 2 {
        '2'
    } else if d == 3 {
        '3'
    } else if d == 4 {
        '4'
    } else if d == 5 {
        '5'
    } else if d == 6 {
        '6'
    } else if d == 7 {
        '7'
    } else if d == 8 {
        '8'
    } else {
        '9'
    }
}

/// A number in decimal, most significant digit first, without leading zeros.
pub open spec fn decimal(n: nat) -> Seq<char>
    decreases n,
{
    if n < 10 {
        seq![digit(n)]
    } else {
        decimal(n / 10).push(digit(n % 10))
    }
}

/// A flag as it is written in a query.
pub open spec fn flag(b: bool) -> Seq<char> {
    if b {
        "true"@
    } else {
        "false"@
    }
}

fn digit_text(d: u32) -> (r: &'static str)
    requires
        d < 10,
    ensures
        r@ == seq![digit(d as nat)],
{
    proof {
        reveal_strlit("0");
        reveal_strlit("1");
        reveal_strlit("2");
        reveal_strlit("3");
        reveal_strlit("4");
        reveal_strlit("5");
        reveal_strlit("6");
        reveal_strlit("7");
        reveal_strlit("8");
        reveal_strlit("9");
    }
    let r = match d {
        0 => "0",
        1 => "1",
        2 => "2",
        3 => "3",
        4 => "4",
        5 => "5",
        6 => "6",
        7 => "7",
        8 => "8",
        _ => "9",
    };
    assert(r@ =~= seq![digit(d as nat)]);
    r
}

/// Writes `n` in decimal.
pub fn render_decimal(n: u32) -> (r: String)
    ensures
        r@ == decimal(n as nat),
    decreases n,
{
    if n < 10 {
        String::from_str(digit_text(n))
    } else {
        let mut r = render_decimal(n / 10);
        r.append(digit_text(n % 10));
        assert(r@ =~= decimal(n as nat));
        r
    }
}

/// Writes a flag as `true` or `false`.
pub fn render_flag(b: bool) -> (r: String)
    ensures
        r@ == flag(b),
{
    if b {
        String::from_str("true")
    } else {
        String::from_str("false")
    }
}

/// Whether `b` is an unreserved character of a URL: a letter, a digit, `-`,
/// `.`, `_` or `~`.
pub open spec fn is_unreserved(b: u8) -> bool {
    ||| 0x41 <= b <= 0x5a
    ||| 0x61 <= b <= 0x7a
    ||| 0x30 <= b <= 0x39
    ||| b == 0x2d
    ||| b == 0x2e
    ||| b == 0x5f
    ||| b == 0x7e
}

/// The character of a hexadecimal digit, in upper case.
pub open spec fn hex(n: nat) -> char
    recommends
        n < 16,
{
    if n < 10 {
        digit(n)
    } else if n == 10 {
        'A'
    } else if n == 11 {
        'B'
    } else if n == 12 {
        'C'
    } else if n == 13 {
        'D'
    } else if n == 14 {
        'E'
    } else {
        'F'
    }
}

/// One byte as it stands in an escaped path segment: itself where it is
/// unreserved, `%` and its two hexadecimal digits where it is not.
pub open spec fn escaped_byte(b: u8) -> Seq<char> {
    if is_unreserved(b) {
        seq![b as char]
    } else {
        seq!['%', hex(b as nat / 16), hex(b as nat % 16)]
    }
}

/// A text, given by its bytes, as an escaped path segment.
pub open spec fn escaped(bytes: Seq<u8>) -> Seq<char>
    decreases bytes.len(),
{
    if bytes.len() == 0 {
        Seq::empty()
    } else {
        escaped(bytes.drop_last()) + escaped_byte(bytes.last())
    }
}

fn unreserved_text(b: u8) -> (r: &'static str)
    requires
        is_unreserved(b),
    ensures
        r@ == seq![b as char],
{
    proof {
        reveal_strlit("ABCDEFGHIJKLMNOPQRSTUVWXYZ");
        reveal_strlit("abcdefghijklmnopqrstuvwxyz");
        reveal_strlit("0123456789");
        reveal_strlit("-");
        reveal_strlit(".");
        reveal_strlit("_");
        reveal_strlit("~");
    }
    let r = if 0x41 <= b && b <= 0x5a {
        let at: usize = (b - 0x41) as usize;
        "ABCDEFGHIJKLMNOPQRSTUVWXYZ".substring_ascii(at, at + 1)
    } else if 0x61 <= b && b <= 0x7a {
        let at: usize = (b - 0x61) as usize;
        "abcdefghijklmnopqrstuvwxyz".substring_ascii(at, at + 1)
    } else if 0x30 <= b && b <= 0x39 {
        let at: usize = (b - 0x30) as usize;
        "0123456789".substring_ascii(at, at + 1)
    } else if b == 0x2d {
        "-"
    } else if b == 0x2e {
        "."
    } else if b == 0x5f {
        "_"
    } else {
        "~"
    };
    assert(r@ =~= seq![b as char]);
    r
}

fn hex_text(n: u8) -> (r: &'static str)
    requires
        n < 16,
    ensures
        r@ == seq![hex(n as nat)],
{
    proof {
        reveal_strlit("0123456789ABCDEF");
    }
    let at: usize = n as usize;
    let r = "0123456789ABCDEF".substring_ascii(at, at + 1);
    assert(r@ =~= seq![hex(n as nat)]);
    r
}

/// Escapes `segment` for use in a segment of a URL path: every byte of its
/// UTF-8 form that is not unreserved is written as `%` and two hexadecimal
/// digits, so that nothing in the result ends the segment.
pub fn escape(segment: &str) -> (r: String)
    ensures
        r@ == escaped(segment.spec_bytes()),
{
    let bytes = segment.as_bytes();
    let mut out = String::new();
    let mut i: usize = 0;
    while i < bytes.len()
        invariant
            i <= bytes.len(),
            out@ == escaped(bytes@.take(i as int)),
        decreases bytes.len() - i,
    {
        let b = bytes[i];
        if (0x41 <= b && b <= 0x5a) || (0x61 <= b && b <= 0x7a) || (0x30 <= b && b <= 0x39) || b
            == 0x2d || b == 0x2e || b == 0x5f || b == 0x7e {
            out.append(unreserved_text(b));
        } else {
            proof {
                reveal_strlit("%");
            }
            out.append("%");
            out.append(hex_text(b / 16));
            out.append(hex_text(b % 16));
        }
        proof {
            assert(bytes@.take(i + 1).drop_last() =~= bytes@.take(i as int));
            assert(out@ =~= escaped(bytes@.take(i as int)) + escaped_byte(b));
        }
        i += 1;
    }
    assert(bytes@.take(i as int) =~= bytes@);
    out
}

/// The content of an optional text.
pub open spec fn text_view(text: Option<String>) -> Option<Seq<char>> {
    match text {
        Some(body) => Some(body@),
        None => None,
    }
}

} // verus!
