//! Byte-level helpers: big-endian encoding of integers and decimal digits,
//! used when assembling the entropy block for seed derivation.

use vstd::prelude::*;
use vstd::string::StringExecFns;

verus! {

/// The eight big-endian bytes of a 64-bit integer, most significant first.
pub open spec fn spec_be_bytes_u64(n: u64) -> Seq<u8> {
    seq![
        (n >> 56) as u8,
        (n >> 48) as u8,
        (n >> 40) as u8,
        (n >> 32) as u8,
        (n >> 24) as u8,
        (n >> 16) as u8,
        (n >> 8) as u8,
        n as u8,
    ]
}

/// Big-endian encoding of a 64-bit integer, as `u64::to_be_bytes` lays it out.
pub fn be_bytes_u64(n: u64) -> (r: Vec<u8>)
    ensures
        r@ == spec_be_bytes_u64(n),
{
    let mut r: Vec<u8> = Vec::new();
    r.push(#[verifier::truncate] ((n >> 56) as u8));
    r.push(#[verifier::truncate] ((n >> 48) as u8));
    r.push(#[verifier::truncate] ((n >> 40) as u8));
    r.push(#[verifier::truncate] ((n >> 32) as u8));
    r.push(#[verifier::truncate] ((n >> 24) as u8));
    r.push(#[verifier::truncate] ((n >> 16) as u8));
    r.push(#[verifier::truncate] ((n >> 8) as u8));
    r.push(#[verifier::truncate] (n as u8));
    proof {
        assert(r@ =~= spec_be_bytes_u64(n));
    }
    r
}

/// The ASCII byte of one decimal digit.
pub open spec fn spec_digit_byte(d: nat) -> u8
    recommends
        d < 10,
{
    (0x30 + d) as u8
}

/// The shortest decimal numeral of `n`, as ASCII bytes, most significant
/// digit first (what formatting an unsigned integer in base ten prints).
pub open spec fn spec_decimal_bytes(n: nat) -> Seq<u8>
    decreases n,
{
    if n < 10 {
        seq![spec_digit_byte(n)]
    } else {
        spec_decimal_bytes(n / 10).push(spec_digit_byte(n % 10))
    }
}

/// The same numeral as characters.
pub open spec fn spec_decimal_chars(n: nat) -> Seq<char>
    decreases n,
{
    if n < 10 {
        seq![spec_digit_char(n)]
    } else {
        spec_decimal_chars(n / 10).push(spec_digit_char(n % 10))
    }
}

/// The character of one decimal digit.
pub open spec fn spec_digit_char(d: nat) -> char
    recommends
        d < 10,
{
    if d == 0 {
        '0'
    } else if d == 1 {
        '1'
    } else if d == 2 {
        '2'
    } else if d == 3 {
        '3'
    } else if d == 4 {
        '4'
    } else if d == 5 {
        '5'
    } else if d == 6 {
        '6'
    } else if d == 7 {
        '7'
    } else if d == 8 {
        '8'
    } else {
        '9'
    }
}

/// The decimal numeral of `n` as ASCII bytes.
pub fn decimal_bytes(n: u64) -> (r: Vec<u8>)
    ensures
        r@ == spec_decimal_bytes(n as nat),
    decreases n,
{
    if n < 10 {
        let mut r: Vec<u8> = Vec::new();
        r.push(0x30 + n as u8);
        proof {
            assert(r@ =~= spec_decimal_bytes(n as nat));
        }
        r
    } else {
        let mut r = decimal_bytes(n / 10);
        r.push(0x30 + (n % 10) as u8);
        r
    }
}

/// One decimal digit as a string slice.
fn digit_str(d: u64) -> (r: &'static str)
    requires
        d < 10,
    ensures
        r@ == seq![spec_digit_char(d as nat)],
{
    proof {
        reveal_strlit("0");
        reveal_strlit("1");
        reveal_strlit("2");
        reveal_strlit("3");
        reveal_strlit("4");
        reveal_strlit("5");
        reveal_strlit("6");
        reveal_strlit("7");
        reveal_strlit("8");
        reveal_strlit("9");
    }
    if d == 0 {
        "0"
    } else if d == 1 {
        "1"
    } else if d == 2 {
        "2"
    } else if d == 3 {
        "3"
    } else if d == 4 {
        "4"
    } else if d == 5 {
        "5"
    } else if d == 6 {
        "6"
    } else if d == 7 {
        "7"
    } else if d == 8 {
        "8"
    } else {
        "9"
    }
}

/// The decimal numeral of `n` as a `String` (what `n.to_string()` prints).
pub fn decimal_string(n: u64) -> (r: String)
    ensures
        r@ == spec_decimal_chars(n as nat),
    decreases n,
{
    if n < 10 {
        let r = digit_str(n).to_owned();
        proof {
            assert(r@ =~= spec_decimal_chars(n as nat));
        }
        r
    } else {
        let mut r = decimal_string(n / 10);
        r.append(digit_str(n % 10));
        proof {
            assert(r@ =~= spec_decimal_chars(n as nat));
        }
        r
    }
}

/// Appends every byte of `src` to `dst`, in order.
pub fn append_bytes(dst: &mut Vec<u8>, src: &[u8])
    ensures
        final(dst)@ == old(dst)@ + src@,
{
    let n = src.len();
    let mut i: usize = 0;
    while i < n
        invariant
            n == src@.len(),
            i <= n,
            dst@ == old(dst)@ + src@.take(i as int),
        decreases n - i,
    {
        dst.push(src[i]);
        proof {
            assert(old(dst)@ + src@.take(i as int) + seq![src@[i as int]] =~= old(dst)@ + src@.take(
                i + 1,
            ));
        }
        i = i + 1;
    }
    proof {
        assert(src@.take(n as int) =~= src@);
    }
}

} // verus!
