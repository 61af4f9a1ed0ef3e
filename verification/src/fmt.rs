//! Verified formatting of integers as ASCII bytes, used for the kernel's
//! console log lines.

use vstd::prelude::*;

verus! {

/// The ASCII digit for one value below 16: `0`-`9`, then `a`-`f`.
pub open spec fn digit_ascii(d: nat) -> u8 {
    if d < 10 {
        (48 + d) as u8
    } else {
        (87 + d) as u8
    }
}

/// Decimal notation of `n`, most significant digit first, no sign.
pub open spec fn spec_dec(n: nat) -> Seq<u8>
    decreases n,
{
    if n < 10 {
        seq![digit_ascii(n)]
    } else {
        spec_dec(n / 10).push(digit_ascii(n % 10))
    }
}

/// Decimal notation of a signed value: a `-` before the magnitude if negative.
pub open spec fn spec_dec_signed(v: int) -> Seq<u8> {
    if v < 0 {
        seq![45u8] + spec_dec((-v) as nat)
    } else {
        spec_dec(v as nat)
    }
}

/// Hexadecimal notation of `n` with the `0x` prefix, lower case.
pub open spec fn spec_hex(n: nat) -> Seq<u8> {
    seq![48u8, 120u8] + spec_hex_digits(n)
}

/// Hexadecimal digits of `n`, most significant first, no prefix.
pub open spec fn spec_hex_digits(n: nat) -> Seq<u8>
    decreases n,
{
    if n < 16 {
        seq![digit_ascii(n)]
    } else {
        spec_hex_digits(n / 16).push(digit_ascii(n % 16))
    }
}

/// Appends the decimal digits of `n` to `out`.
pub fn push_dec(out: &mut Vec<u8>, n: u64)
    ensures
        final(out)@ == old(out)@ + spec_dec(n as nat),
    decreases n,
{
    if n < 10 {
        out.push(48 + n as u8);
        assert(out@ =~= old(out)@ + spec_dec(n as nat));
    } else {
        push_dec(out, n / 10);
        out.push(48 + (n % 10) as u8);
        assert(out@ =~= old(out)@ + spec_dec(n as nat));
    }
}

/// Appends the decimal notation of a signed value to `out`.
pub fn push_dec_signed(out: &mut Vec<u8>, v: i64)
    requires
        v > i64::MIN,
    ensures
        final(out)@ == old(out)@ + spec_dec_signed(v as int),
{
    if v < 0 {
        out.push(45);
        push_dec(out, (-v) as u64);
        assert(out@ =~= old(out)@ + spec_dec_signed(v as int));
    } else {
        push_dec(out, v as u64);
    }
}

/// Appends the `0x`-prefixed hexadecimal notation of `n` to `out`.
pub fn push_hex(out: &mut Vec<u8>, n: u64)
    ensures
        final(out)@ == old(out)@ + spec_hex(n as nat),
{
    out.push(48);
    out.push(120);
    push_hex_digits(out, n);
    assert(out@ =~= old(out)@ + spec_hex(n as nat));
}

/// Appends the bare hexadecimal digits of `n` to `out`.
pub fn push_hex_digits(out: &mut Vec<u8>, n: u64)
    ensures
        final(out)@ == old(out)@ + spec_hex_digits(n as nat),
    decreases n,
{
    if n < 16 {
        let d = n as u8;
        if d < 10 {
            out.push(48 + d);
        } else {
            out.push(87 + d);
        }
        assert(out@ =~= old(out)@ + spec_hex_digits(n as nat));
    } else {
        push_hex_digits(out, n / 16);
        let d = (n % 16) as u8;
        if d < 10 {
            out.push(48 + d);
        } else {
            out.push(87 + d);
        }
        assert(out@ =~= old(out)@ + spec_hex_digits(n as nat));
    }
}

} // verus!
