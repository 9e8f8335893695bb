//! Decimal rendering of integers as ASCII bytes, with exact specifications.
//! The wire encoding and the stored timestamp representation are built from
//! these pieces.

use vstd::prelude::*;

verus! {

/// The decimal digits of `n`, most significant first, as ASCII bytes.
pub open spec fn dec_digits(n: nat) -> Seq<u8>
    decreases n,
{
    if n < 10 {
        seq![(48 + n) as u8]
    } else {
        dec_digits(n / 10).push((48 + n % 10) as u8)
    }
}

/// The decimal rendering of a possibly negative integer: a minus sign
/// followed by the digits of the magnitude.
pub open spec fn dec_int(n: int) -> Seq<u8> {
    if n < 0 {
        seq![45u8] + dec_digits((-n) as nat)
    } else {
        dec_digits(n as nat)
    }
}

/// Two ASCII digits, zero padded: `7` renders as `07`.
pub open spec fn two_digits(n: int) -> Seq<u8> {
    seq![(48 + n / 10) as u8, (48 + n % 10) as u8]
}

/// Renders `n` in decimal.
pub fn fmt_u64(n: u64) -> (r: Vec<u8>)
    ensures
        r@ == dec_digits(n as nat),
    decreases n,
{
    if n < 10 {
        let mut v: Vec<u8> = Vec::new();
        v.push(48 + n as u8);
        proof {
            assert(v@ =~= dec_digits(n as nat));
        }
        v
    } else {
        let mut v = fmt_u64(n / 10);
        v.push(48 + (n % 10) as u8);
        proof {
            assert(v@ =~= dec_digits(n as nat));
        }
        v
    }
}

/// Renders `n` in decimal, with a leading minus sign when negative.
pub fn fmt_i64(n: i64) -> (r: Vec<u8>)
    ensures
        r@ == dec_int(n as int),
{
    if n >= 0 {
        fmt_u64(n as u64)
    } else {
        let mag: u64 = ((-(n + 1)) as u64) + 1;
        assert(mag as int == -(n as int));
        let mut v: Vec<u8> = Vec::new();
        v.push(45);
        let mut digits = fmt_u64(mag);
        v.append(&mut digits);
        proof {
            assert(v@ =~= dec_int(n as int));
        }
        v
    }
}

/// Renders `n` in decimal, with a leading minus sign when negative.
pub fn fmt_i32(n: i32) -> (r: Vec<u8>)
    ensures
        r@ == dec_int(n as int),
{
    fmt_i64(n as i64)
}

/// Renders `n` as exactly two zero-padded digits.
pub fn fmt_two(n: u64) -> (r: Vec<u8>)
    requires
        n < 100,
    ensures
        r@ == two_digits(n as int),
{
    let mut v: Vec<u8> = Vec::new();
    v.push(48 + (n / 10) as u8);
    v.push(48 + (n % 10) as u8);
    proof {
        assert(v@ =~= two_digits(n as int));
    }
    v
}

/// Copies a byte vector.
pub fn clone_bytes(v: &Vec<u8>) -> (r: Vec<u8>)
    ensures
        r@ == v@,
{
    let mut r: Vec<u8> = Vec::new();
    let mut i: usize = 0;
    while i < v.len()
        invariant
            0 <= i <= v@.len(),
            r@ == v@.take(i as int),
        decreases v@.len() - i,
    {
        r.push(v[i]);
        i = i + 1;
        proof {
            assert(r@ =~= v@.take(i as int));
        }
    }
    proof {
        assert(v@.take(v@.len() as int) =~= v@);
    }
    r
}

} // verus!
