//! Decimal and hexadecimal renderings of unsigned integers.

use vstd::prelude::*;
use vstd::string::*;

verus! {

/// The character of a digit value below sixteen, upper case for the letters.
pub open spec fn digit_char(d: nat) -> char {
    if d < 10 {
        (48 + d) as char
    } else {
        (55 + d) as char
    }
}

/// The digits of `n` written in `base`, most significant first, without
/// leading zeros (zero is the single digit `0`).
pub open spec fn digits_in_base(n: nat, base: nat) -> Seq<char>
    recommends
        2 <= base <= 16,
    decreases n,
{
    if n < base || base < 2 {
        seq![digit_char(n % base)]
    } else {
        proof {
            assert(n / base < n) by (nonlinear_arith)
                requires
                    n >= base,
                    base >= 2,
            ;
        }
        digits_in_base(n / base, base).push(digit_char(n % base))
    }
}

/// Decimal digits of `n`.
pub open spec fn decimal(n: nat) -> Seq<char> {
    digits_in_base(n, 10)
}

/// Upper-case hexadecimal digits of `n`.
pub open spec fn hex_upper(n: nat) -> Seq<char> {
    digits_in_base(n, 16)
}

/// `n` in upper-case hexadecimal, padded with leading zeros to at least
/// `width` digits.
pub open spec fn hex_upper_padded(n: nat, width: nat) -> Seq<char> {
    let h = hex_upper(n);
    if h.len() < width {
        Seq::new((width - h.len()) as nat, |i: int| '0') + h
    } else {
        h
    }
}

/// A one-character string holding the digit `d`.
fn digit_str(d: u64) -> (s: &'static str)
    requires
        d < 16,
    ensures
        s@ == seq![digit_char(d as nat)],
{
    proof {
        reveal_strlit("0");
        reveal_strlit("1");
        reveal_strlit("2");
        reveal_strlit("3");
        reveal_strlit("4");
        reveal_strlit("5");
        reveal_strlit("6");
        reveal_strlit("7");
        reveal_strlit("8");
        reveal_strlit("9");
        reveal_strlit("A");
        reveal_strlit("B");
        reveal_strlit("C");
        reveal_strlit("D");
        reveal_strlit("E");
        reveal_strlit("F");
    }
    let s = match d {
        0 => "0",
        1 => "1",
        2 => "2",
        3 => "3",
        4 => "4",
        5 => "5",
        6 => "6",
        7 => "7",
        8 => "8",
        9 => "9",
        10 => "A",
        11 => "B",
        12 => "C",
        13 => "D",
        14 => "E",
        _ => "F",
    };
    assert(s@ =~= seq![digit_char(d as nat)]);
    s
}

/// Appends the digits of `n` in `base` to `out`.
pub fn append_digits(out: &mut String, n: u64, base: u64)
    requires
        2 <= base <= 16,
    ensures
        final(out)@ == old(out)@ + digits_in_base(n as nat, base as nat),
    decreases n,
{
    if n >= base {
        assert(n / base < n) by (nonlinear_arith)
            requires
                n >= base,
                base >= 2,
        ;
        append_digits(out, n / base, base);
    }
    out.append(digit_str(n % base));
    assert(old(out)@ + digits_in_base(n as nat, base as nat) =~= out@);
}

/// A digit sequence is never empty.
pub proof fn lemma_digits_nonempty(n: nat, base: nat)
    requires
        2 <= base <= 16,
    ensures
        digits_in_base(n, base).len() >= 1,
    decreases n,
{
    if n >= base {
        assert(n / base < n) by (nonlinear_arith)
            requires
                n >= base,
                base >= 2,
        ;
        lemma_digits_nonempty(n / base, base);
    }
}

/// How many hexadecimal digits a number has, by the range it lies in.
proof fn lemma_hex_len(n: nat)
    ensures
        n < 16 ==> hex_upper(n).len() == 1,
        16 <= n < 256 ==> hex_upper(n).len() == 2,
        256 <= n < 4096 ==> hex_upper(n).len() == 3,
        4096 <= n ==> hex_upper(n).len() >= 4,
{
    let a = n / 16;
    let b = a / 16;
    let c = b / 16;
    if n >= 16 {
        assert(hex_upper(n).len() == hex_upper(a).len() + 1);
        if a >= 16 {
            assert(hex_upper(a).len() == hex_upper(b).len() + 1);
            if b >= 16 {
                assert(hex_upper(b).len() == hex_upper(c).len() + 1);
                lemma_digits_nonempty(c, 16);
            }
        }
    }
}

/// Appends `n` in upper-case hexadecimal, zero-padded to four digits.
pub fn append_hex4(out: &mut String, n: u32)
    ensures
        final(out)@ == old(out)@ + hex_upper_padded(n as nat, 4),
{
    proof {
        reveal_strlit("000");
        reveal_strlit("00");
        reveal_strlit("0");
        lemma_hex_len(n as nat);
    }
    let ghost start = out@;
    if n < 0x10 {
        out.append("000");
    } else if n < 0x100 {
        out.append("00");
    } else if n < 0x1000 {
        out.append("0");
    }
    append_digits(out, n as u64, 16);
    assert(out@ =~= start + hex_upper_padded(n as nat, 4));
}

/// Appends the decimal digits of `n`.
pub fn append_decimal(out: &mut String, n: u64)
    ensures
        final(out)@ == old(out)@ + decimal(n as nat),
{
    append_digits(out, n, 10);
}

} // verus!
