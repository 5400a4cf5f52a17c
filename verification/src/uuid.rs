//! Uuids as the vault format uses them: 32 hexadecimal digits, written
//! either bare or in the usual hyphenated groups of 8-4-4-4-12.
//!
//! A parsed uuid is held as its 128-bit value, so that equality of uuids
//! is equality of integers and lookups can be reasoned about directly.

use vstd::prelude::*;

use crate::Error;

verus! {

use vstd::string::StringSliceAdditionalSpecFns;

/// A parsed 128-bit uuid.
#[derive(Debug, Clone, Copy, PartialEq, Eq, Hash, Structural)]
pub struct Uuid {
    value: u128,
}

pub open spec fn spec_is_hex_digit(b: u8) -> bool {
    (48 <= b <= 57) || (65 <= b <= 70) || (97 <= b <= 102)
}

/// The value of one hex digit byte.
pub open spec fn spec_hex_val(b: u8) -> nat
    recommends
        spec_is_hex_digit(b),
{
    if 48 <= b <= 57 {
        (b - 48) as nat
    } else if 65 <= b <= 70 {
        (b - 55) as nat
    } else {
        (b - 87) as nat
    }
}

pub open spec fn spec_all_hex(s: Seq<u8>) -> bool {
    forall|i: int| 0 <= i < s.len() ==> spec_is_hex_digit(#[trigger] s[i])
}

/// The value of a string of hex digits, most significant first.
pub open spec fn spec_hex_value(s: Seq<u8>) -> nat
    decreases s.len(),
{
    if s.len() == 0 {
        0
    } else {
        spec_hex_value(s.drop_last()) * 16 + spec_hex_val(s.last())
    }
}

pub open spec fn pow16(n: nat) -> nat
    decreases n,
{
    if n == 0 {
        1
    } else {
        16 * pow16((n - 1) as nat)
    }
}

proof fn lemma_pow16_mono(a: nat, b: nat)
    requires
        a <= b,
    ensures
        pow16(a) <= pow16(b),
    decreases b - a,
{
    if a < b {
        lemma_pow16_mono(a, (b - 1) as nat);
    }
}

proof fn lemma_pow16_32()
    ensures
        pow16(32) == 0x100000000000000000000000000000000,
{
    assert(pow16(0) == 1);
    assert(pow16(1) == 0x10);
    assert(pow16(2) == 0x100);
    assert(pow16(3) == 0x1000);
    assert(pow16(4) == 0x10000);
    assert(pow16(5) == 0x100000);
    assert(pow16(6) == 0x1000000);
    assert(pow16(7) == 0x10000000);
    assert(pow16(8) == 0x100000000);
    assert(pow16(9) == 0x1000000000);
    assert(pow16(10) == 0x10000000000);
    assert(pow16(11) == 0x100000000000);
    assert(pow16(12) == 0x1000000000000);
    assert(pow16(13) == 0x10000000000000);
    assert(pow16(14) == 0x100000000000000);
    assert(pow16(15) == 0x1000000000000000);
    assert(pow16(16) == 0x10000000000000000);
    assert(pow16(17) == 0x100000000000000000);
    assert(pow16(18) == 0x1000000000000000000);
    assert(pow16(19) == 0x10000000000000000000);
    assert(pow16(20) == 0x100000000000000000000);
    assert(pow16(21) == 0x1000000000000000000000);
    assert(pow16(22) == 0x10000000000000000000000);
    assert(pow16(23) == 0x100000000000000000000000);
    assert(pow16(24) == 0x1000000000000000000000000);
    assert(pow16(25) == 0x10000000000000000000000000);
    assert(pow16(26) == 0x100000000000000000000000000);
    assert(pow16(27) == 0x1000000000000000000000000000);
    assert(pow16(28) == 0x10000000000000000000000000000);
    assert(pow16(29) == 0x100000000000000000000000000000);
    assert(pow16(30) == 0x1000000000000000000000000000000);
    assert(pow16(31) == 0x10000000000000000000000000000000);
    assert(pow16(32) == 0x100000000000000000000000000000000);
}

/// The 32 hex digits of a uuid string: the string itself when bare, the
/// string with its four hyphens removed when hyphenated, nothing otherwise.
pub open spec fn spec_uuid_digits(s: Seq<u8>) -> Option<Seq<u8>> {
    if s.len() == 32 {
        Some(s)
    } else if s.len() == 36 && s[8] == 45 && s[13] == 45 && s[18] == 45 && s[23] == 45 {
        Some(
            s.subrange(0, 8) + s.subrange(9, 13) + s.subrange(14, 18) + s.subrange(19, 23)
                + s.subrange(24, 36),
        )
    } else {
        None
    }
}

/// What parsing a uuid string yields: its 128-bit value, or nothing when
/// the shape or a digit is wrong.
pub open spec fn spec_parse_uuid(s: Seq<u8>) -> Option<u128> {
    match spec_uuid_digits(s) {
        Some(d) => if spec_all_hex(d) {
            Some(spec_hex_value(d) as u128)
        } else {
            None
        },
        None => None,
    }
}

fn is_hex_digit(b: u8) -> (r: bool)
    ensures
        r == spec_is_hex_digit(b),
{
    (48 <= b && b <= 57) || (65 <= b && b <= 70) || (97 <= b && b <= 102)
}

fn hex_val(b: u8) -> (r: u8)
    requires
        spec_is_hex_digit(b),
    ensures
        r == spec_hex_val(b),
        r <= 15,
{
    if 48 <= b && b <= 57 {
        b - 48
    } else if 65 <= b && b <= 70 {
        b - 55
    } else {
        b - 87
    }
}

proof fn lemma_hex_value_bound(s: Seq<u8>)
    requires
        spec_all_hex(s),
    ensures
        spec_hex_value(s) < pow16(s.len()),
    decreases s.len(),
{
    if s.len() > 0 {
        assert(spec_all_hex(s.drop_last())) by {
            assert(forall|i: int| 0 <= i < s.len() - 1 ==> s.drop_last()[i] == #[trigger] s[i]);
        }
        lemma_hex_value_bound(s.drop_last());
        assert(spec_hex_val(s.last()) <= 15);
    }
}

/// Accumulate the value of exactly 32 hex digit bytes.
fn parse_digits(d: &[u8]) -> (r: Result<u128, Error>)
    requires
        d@.len() == 32,
    ensures
        r matches Ok(v) ==> spec_all_hex(d@) && v == spec_hex_value(d@),
        r is Err ==> !spec_all_hex(d@),
        r matches Err(e) ==> e == Error::UuidError,
{
    let mut val: u128 = 0;
    let mut i: usize = 0;
    while i < 32
        invariant
            i <= 32,
            d@.len() == 32,
            spec_all_hex(d@.take(i as int)),
            val == spec_hex_value(d@.take(i as int)),
            val < pow16(i as nat),
        decreases 32 - i,
    {
        let b = *vstd::slice::slice_index_get(d, i);
        if !is_hex_digit(b) {
            return Err(Error::UuidError);
        }
        let hv = hex_val(b);
        proof {
            lemma_pow16_mono(i as nat + 1, 32);
            lemma_pow16_32();
        }
        val = val * 16 + (hv as u128);
        proof {
            assert(d@.take(i + 1).drop_last() =~= d@.take(i as int));
            assert(d@.take(i + 1).last() == d@[i as int]);
        }
        i = i + 1;
    }
    proof {
        assert(d@.take(32) =~= d@);
    }
    Ok(val)
}

impl Uuid {
    /// The 128-bit value this uuid parsed to.
    pub closed spec fn spec_value(self) -> u128 {
        self.value
    }

    /// Parse a uuid from the raw bytes of its text form.
    pub fn parse_bytes(s: &[u8]) -> (r: Result<Uuid, Error>)
        ensures
            r matches Ok(u) ==> spec_parse_uuid(s@) == Some(u.spec_value()),
            r is Err ==> spec_parse_uuid(s@) is None,
            r matches Err(e) ==> e == Error::UuidError,
    {
        if s.len() == 32 {
            match parse_digits(s) {
                Ok(v) => {
                    proof {
                        lemma_hex_value_bound(s@);
                        lemma_pow16_32();
                    }
                    Ok(Uuid { value: v })
                },
                Err(e) => Err(e),
            }
        } else if s.len() == 36 {
            let h1 = *vstd::slice::slice_index_get(s, 8);
            let h2 = *vstd::slice::slice_index_get(s, 13);
            let h3 = *vstd::slice::slice_index_get(s, 18);
            let h4 = *vstd::slice::slice_index_get(s, 23);
            if h1 != 45 || h2 != 45 || h3 != 45 || h4 != 45 {
                return Err(Error::UuidError);
            }
            let mut d = crate::util::subvec(s, 0, 8);
            let mut p2 = crate::util::subvec(s, 9, 13);
            let mut p3 = crate::util::subvec(s, 14, 18);
            let mut p4 = crate::util::subvec(s, 19, 23);
            let mut p5 = crate::util::subvec(s, 24, 36);
            d.append(&mut p2);
            d.append(&mut p3);
            d.append(&mut p4);
            d.append(&mut p5);
            proof {
                assert(d@ =~= spec_uuid_digits(s@).unwrap());
            }
            match parse_digits(d.as_slice()) {
                Ok(v) => {
                    proof {
                        lemma_hex_value_bound(d@);
                        lemma_pow16_32();
                    }
                    Ok(Uuid { value: v })
                },
                Err(e) => Err(e),
            }
        } else {
            Err(Error::UuidError)
        }
    }

    /// Parse a uuid from its text form.
    pub fn parse_str(s: &str) -> (r: Result<Uuid, Error>)
        ensures
            r matches Ok(u) ==> spec_parse_uuid(s.spec_bytes()) == Some(u.spec_value()),
            r is Err ==> spec_parse_uuid(s.spec_bytes()) is None,
            r matches Err(e) ==> e == Error::UuidError,
    {
        Uuid::parse_bytes(s.as_bytes())
    }
}

} // verus!
