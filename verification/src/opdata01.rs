//! The `opdata01` authenticated-encryption envelope.
//!
//! Layout, all little-endian: 8 bytes of magic `opdata01`, 8 bytes of
//! plaintext length, 16 bytes of IV, the ciphertext (a multiple of the AES
//! block), and a trailing 32-byte HMAC-SHA256 over everything before it.
//! The envelope is strictly authenticate-then-decrypt: the HMAC is checked
//! before anything else is looked at.

use vstd::prelude::*;

use crate::crypto;
use crate::util::bytes_eq;
use crate::Error;

verus! {

#[derive(Debug, Clone, Copy, PartialEq, Eq, Structural)]
pub enum OpdataError {
    InvalidHeader,
    InvalidHmac,
}

/// The bytes of the magic `opdata01`.
pub open spec fn spec_opdata_magic() -> Seq<u8> {
    seq![111u8, 112u8, 100u8, 97u8, 116u8, 97u8, 48u8, 49u8]
}

/// What decrypting an envelope yields.
///
/// In order: an input too short to carry a trailing tag, or too short
/// for the fixed fields, is an I/O-style error (a truncated read); a tag
/// that does not match the HMAC-SHA256 of everything before it is
/// `InvalidHmac`; `InvalidHeader` is reserved for a wrong magic; a length
/// field larger than the ciphertext is again a truncation error; a
/// ciphertext that is no multiple of the AES block, or a key of the wrong
/// size, is a crypto error. Otherwise the result is the last L bytes of
/// the raw AES-256-CBC decryption, L being the length field: the leading
/// bytes are the writer's random padding and are discarded.
pub open spec fn spec_decrypt(data: Seq<u8>, decrypt_key: Seq<u8>, mac_key: Seq<u8>) -> Result<
    Seq<u8>,
    Error,
> {
    if data.len() < 32 {
        Err(Error::IoError)
    } else if !crypto::spec_mac_matches(data, mac_key) {
        Err(Error::OpdataError(OpdataError::InvalidHmac))
    } else if data.len() < 64 {
        Err(Error::IoError)
    } else if data.take(8) != spec_opdata_magic() {
        Err(Error::OpdataError(OpdataError::InvalidHeader))
    } else {
        let l = vstd::bytes::spec_u64_from_le_bytes(data.subrange(8, 16));
        let n = data.len() - 64;
        if l > n {
            Err(Error::IoError)
        } else if n % 16 != 0 || decrypt_key.len() != 32 {
            Err(Error::Crypto)
        } else {
            Ok(
                crypto::aes256_cbc_decrypt_of(
                    decrypt_key,
                    data.subrange(16, 32),
                    data.subrange(32, data.len() - 32),
                ).skip(n - l),
            )
        }
    }
}

/// Authenticate and decrypt one `opdata01` envelope.
///
/// The tag is verified first; only then are the magic, the length field and
/// the ciphertext looked at. On success the returned plaintext is exactly
/// the last L bytes of the raw decryption, L being the length field.
pub fn decrypt(data: &[u8], decrypt_key: &[u8], mac_key: &[u8]) -> (r: Result<Vec<u8>, Error>)
    ensures
        r is Ok == spec_decrypt(data@, decrypt_key@, mac_key@) is Ok,
        r matches Ok(v) ==> spec_decrypt(data@, decrypt_key@, mac_key@) == Ok::<Seq<u8>, Error>(v@),
        r matches Ok(v) ==> v@.len() == vstd::bytes::spec_u64_from_le_bytes(data@.subrange(8, 16)),
        r matches Err(e) ==> spec_decrypt(data@, decrypt_key@, mac_key@) == Err::<Seq<u8>, Error>(e),
{
    if data.len() < 32 {
        return Err(Error::IoError);
    }
    let ok = match crypto::verify_data(data, mac_key) {
        Ok(b) => b,
        Err(e) => {
            return Err(e);
        },
    };
    if !ok {
        return Err(Error::OpdataError(OpdataError::InvalidHmac));
    }
    if data.len() < 64 {
        return Err(Error::IoError);
    }
    let magic: [u8; 8] = [111, 112, 100, 97, 116, 97, 48, 49];
    proof {
        assert(magic@ =~= spec_opdata_magic());
    }
    if !bytes_eq(vstd::slice::slice_subrange(data, 0, 8), magic.as_slice()) {
        return Err(Error::OpdataError(OpdataError::InvalidHeader));
    }
    let l = vstd::bytes::u64_from_le_bytes(vstd::slice::slice_subrange(data, 8, 16));
    let n = data.len() - 64;
    if l > n as u64 {
        return Err(Error::IoError);
    }
    if n % 16 != 0 {
        return Err(Error::Crypto);
    }
    let iv = vstd::slice::slice_subrange(data, 16, 32);
    let ct = vstd::slice::slice_subrange(data, 32, data.len() - 32);
    let decrypted = match crypto::decrypt_data(ct, decrypt_key, iv) {
        Ok(v) => v,
        Err(e) => {
            return Err(e);
        },
    };
    let offset = n - (l as usize);
    let unpadded = crate::util::subvec(decrypted.as_slice(), offset, decrypted.len());
    proof {
        assert(unpadded@ =~= crypto::aes256_cbc_decrypt_of(
            decrypt_key@,
            data@.subrange(16, 32),
            data@.subrange(32, data@.len() - 32),
        ).skip(n - l));
    }
    Ok(unpadded)
}

/// A well-formed envelope of `plain` under keys `enc` and `mac`: the
/// magic stands first, the length field holds `plain`'s length, the tag
/// matches, and the raw decryption ends in `plain`.
pub open spec fn spec_opdata_well_formed(
    env: Seq<u8>,
    enc: Seq<u8>,
    mac: Seq<u8>,
    plain: Seq<u8>,
) -> bool {
    &&& env.len() >= 64
    &&& (env.len() - 64) % 16 == 0
    &&& enc.len() == 32
    &&& env.take(8) == spec_opdata_magic()
    &&& vstd::bytes::spec_u64_from_le_bytes(env.subrange(8, 16)) == plain.len()
    &&& plain.len() <= env.len() - 64
    &&& crypto::spec_mac_matches(env, mac)
    &&& crypto::aes256_cbc_decrypt_of(enc, env.subrange(16, 32), env.subrange(32, env.len() - 32))
        .skip(env.len() - 64 - plain.len()) == plain
}

/// Round-trip authentication: every well-formed envelope of `plain`
/// decrypts to exactly `plain`.
pub proof fn lemma_opdata_round_trip(env: Seq<u8>, enc: Seq<u8>, mac: Seq<u8>, plain: Seq<u8>)
    requires
        spec_opdata_well_formed(env, enc, mac, plain),
    ensures
        spec_decrypt(env, enc, mac) == Ok::<Seq<u8>, Error>(plain),
{
}


/// The length field is honored: for an authenticated envelope whose raw
/// AES decryption is as long as its ciphertext (which the AES primitive
/// guarantees), the plaintext that comes back has exactly the length the
/// field names, and is exactly the last such bytes of the raw decryption
/// — the leading bytes are the writer's padding and never appear.
pub proof fn lemma_opdata_length_honored(env: Seq<u8>, enc: Seq<u8>, mac: Seq<u8>)
    requires
        env.len() >= 64,
        (env.len() - 64) % 16 == 0,
        enc.len() == 32,
        env.take(8) == spec_opdata_magic(),
        crypto::spec_mac_matches(env, mac),
        vstd::bytes::spec_u64_from_le_bytes(env.subrange(8, 16)) <= env.len() - 64,
        crypto::aes256_cbc_decrypt_of(
            enc,
            env.subrange(16, 32),
            env.subrange(32, env.len() - 32),
        ).len() == env.len() - 64,
    ensures
        spec_decrypt(env, enc, mac) matches Ok(p)
            && p.len() == vstd::bytes::spec_u64_from_le_bytes(env.subrange(8, 16))
            && p == crypto::aes256_cbc_decrypt_of(
            enc,
            env.subrange(16, 32),
            env.subrange(32, env.len() - 32),
        ).skip(
            env.len() - 64 - vstd::bytes::spec_u64_from_le_bytes(env.subrange(8, 16)),
        ),
{
}

/// Tamper evidence for the tag: flipping any byte of a well-formed
/// envelope's trailing HMAC makes decryption fail with `InvalidHmac`.
/// (Flipping a byte of the authenticated body changes the HMAC input and
/// is caught by the same check, by collision resistance of HMAC-SHA256;
/// that step lives outside what these specifications state.)
pub proof fn lemma_opdata_mac_flip(
    env: Seq<u8>,
    env2: Seq<u8>,
    enc: Seq<u8>,
    mac: Seq<u8>,
    plain: Seq<u8>,
    i: int,
)
    requires
        spec_opdata_well_formed(env, enc, mac, plain),
        env2.len() == env.len(),
        env.len() - 32 <= i < env.len(),
        env2[i] != env[i],
        forall|j: int| 0 <= j < env.len() && j != i ==> env2[j] == env[j],
    ensures
        spec_decrypt(env2, enc, mac) == Err::<Seq<u8>, Error>(
            Error::OpdataError(OpdataError::InvalidHmac),
        ),
{
    assert(env2.take(env2.len() - 32) =~= env.take(env.len() - 32));
    assert(env2.subrange(env2.len() - 32, env2.len() as int)[i - (env.len() - 32)] == env2[i]);
    assert(env.subrange(env.len() - 32, env.len() as int)[i - (env.len() - 32)] == env[i]);
    assert(env2.subrange(env2.len() - 32, env2.len() as int) != env.subrange(
        env.len() - 32,
        env.len() as int,
    ));
    assert(!crypto::spec_mac_matches(env2, mac));
}

} // verus!
