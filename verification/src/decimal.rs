//! Decimal rendering of integers as ASCII bytes.
//!
//! The per-item HMAC is computed over a canonical byte serialization in
//! which every integer field appears as its decimal text; these functions
//! produce that text and are proved against the spec-level rendering.

use vstd::prelude::*;

verus! {

/// The decimal digits of a natural number, most significant first.
pub open spec fn spec_dec_nat(n: nat) -> Seq<u8>
    decreases n,
{
    if n < 10 {
        seq![(48 + n) as u8]
    } else {
        spec_dec_nat(n / 10) + seq![(48 + n % 10) as u8]
    }
}

/// The decimal text of an integer: a leading `-` for negative values.
pub open spec fn spec_dec_int(n: int) -> Seq<u8> {
    if n >= 0 {
        spec_dec_nat(n as nat)
    } else {
        seq![45u8] + spec_dec_nat((-n) as nat)
    }
}

/// Render an unsigned integer as decimal ASCII bytes.
pub fn u64_to_dec(n: u64) -> (r: Vec<u8>)
    ensures
        r@ == spec_dec_nat(n as nat),
    decreases n,
{
    if n < 10 {
        let mut v: Vec<u8> = Vec::new();
        v.push(48 + (n as u8));
        proof {
            assert(v@ =~= spec_dec_nat(n as nat));
        }
        v
    } else {
        let mut v = u64_to_dec(n / 10);
        v.push(48 + ((n % 10) as u8));
        proof {
            assert(v@ =~= spec_dec_nat((n / 10) as nat) + seq![(48 + n % 10) as u8]);
        }
        v
    }
}

/// Render a signed integer as decimal ASCII bytes.
pub fn i64_to_dec(n: i64) -> (r: Vec<u8>)
    ensures
        r@ == spec_dec_int(n as int),
{
    if n >= 0 {
        u64_to_dec(n as u64)
    } else {
        let mag: u64 = ((-(n + 1)) as u64) + 1;
        let mut v: Vec<u8> = Vec::new();
        v.push(45);
        let mut d = u64_to_dec(mag);
        v.append(&mut d);
        proof {
            assert(mag as nat == (-(n as int)) as nat);
            assert(v@ =~= spec_dec_int(n as int));
        }
        v
    }
}

} // verus!
