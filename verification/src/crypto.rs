//! The cryptographic primitives of the vault format: PBKDF2-HMAC-SHA512,
//! SHA-512, HMAC-SHA256 and raw AES-256-CBC (padding disabled).
//!
//! The primitives themselves come from outside crates and are taken on
//! trust; their results are named by uninterpreted spec functions so that
//! every caller's contract can speak about them exactly.

use vstd::prelude::*;

use crate::Error;

use aes::cipher::block_padding::NoPadding;
use aes::cipher::BlockModeDecrypt;
use aes::cipher::KeyIvInit;
use hmac::Mac;
use sha2::Digest;

verus! {

/// The 64 bytes that PBKDF2-HMAC-SHA512 derives from a password and a salt.
pub uninterp spec fn pbkdf2_sha512_of(password: Seq<u8>, salt: Seq<u8>, iterations: u32) -> Seq<u8>;

/// The 64-byte SHA-512 digest of a byte string.
pub uninterp spec fn sha512_of(data: Seq<u8>) -> Seq<u8>;

/// The 32-byte HMAC-SHA256 tag of a message under a key.
pub uninterp spec fn hmac_sha256_of(key: Seq<u8>, message: Seq<u8>) -> Seq<u8>;

/// The raw AES-256-CBC decryption of a ciphertext under a key and IV, with
/// no padding removed; it is as long as the ciphertext itself.
pub uninterp spec fn aes256_cbc_decrypt_of(key: Seq<u8>, iv: Seq<u8>, ciphertext: Seq<u8>) -> Seq<u8>;

/// Relies on pbkdf2::pbkdf2_hmac with sha2::Sha512: it fills the whole
/// output buffer (here 64 bytes) and accepts any password, salt and round
/// count without failing.
#[verifier::external_body]
pub fn pbkdf2(pw: &[u8], salt: &[u8], iterations: u32) -> (r: Vec<u8>)
    ensures
        r@ == pbkdf2_sha512_of(pw@, salt@, iterations),
        r@.len() == 64,
{
    let mut derived = vec![0u8; 64];
    pbkdf2::pbkdf2_hmac::<sha2::Sha512>(pw, salt, iterations, &mut derived);
    derived
}

/// Relies on sha2::Sha512 through digest::Digest::digest: a 64-byte digest
/// that depends on the input bytes alone.
#[verifier::external_body]
pub fn hash_sha512(data: &[u8]) -> (r: Vec<u8>)
    ensures
        r@ == sha512_of(data@),
        r@.len() == 64,
{
    sha2::Sha512::digest(data).to_vec()
}

/// Relies on hmac::Hmac with sha2::Sha256: a 32-byte tag that depends on the
/// key and message bytes alone; keys of any length are accepted.
#[verifier::external_body]
fn hmac_sha256(key: &[u8], message: &[u8]) -> (r: Vec<u8>)
    ensures
        r@ == hmac_sha256_of(key@, message@),
        r@.len() == 32,
{
    let mut mac = <hmac::Hmac<sha2::Sha256> as hmac::KeyInit>::new_from_slice(key)
        .expect("HMAC accepts keys of any length");
    mac.update(message);
    mac.finalize().into_bytes().to_vec()
}

/// Relies on cbc::Decryptor<aes::Aes256>: decryption with padding disabled
/// succeeds exactly when the key is 32 bytes, the IV 16 bytes and the
/// ciphertext a multiple of the 16-byte block, and then returns as many
/// bytes as the ciphertext holds.
#[verifier::external_body]
pub fn decrypt_data(data: &[u8], decrypt_key: &[u8], iv: &[u8]) -> (r: Result<Vec<u8>, Error>)
    ensures
        r is Ok <==> (decrypt_key@.len() == 32 && iv@.len() == 16 && data@.len() % 16 == 0),
        r matches Ok(v) ==> (v@ == aes256_cbc_decrypt_of(decrypt_key@, iv@, data@)
            && v@.len() == data@.len()),
        r matches Err(e) ==> e == Error::Crypto,
{
    let dec = match cbc::Decryptor::<aes::Aes256>::new_from_slices(decrypt_key, iv) {
        Ok(d) => d,
        Err(_) => return Err(Error::Crypto),
    };
    let mut buf = vec![0u8; data.len()];
    match dec.decrypt_padded_b2b::<NoPadding>(data, &mut buf) {
        Ok(pt) => Ok(pt.to_vec()),
        Err(_) => Err(Error::Crypto),
    }
}

/// An incremental HMAC-SHA256 computation. Bytes are buffered as they are
/// fed in; the tag is produced over the whole accumulated message.
pub struct HMAC {
    key: Vec<u8>,
    data: Vec<u8>,
}

impl HMAC {
    /// The key this computation signs under.
    pub closed spec fn key(self) -> Seq<u8> {
        self.key@
    }

    /// The message bytes accumulated so far.
    pub closed spec fn data(self) -> Seq<u8> {
        self.data@
    }

    pub fn new(key: &[u8]) -> (r: HMAC)
        ensures
            r.key() == key@,
            r.data() == Seq::<u8>::empty(),
    {
        let mut k: Vec<u8> = Vec::new();
        let mut i: usize = 0;
        while i < key.len()
            invariant
                i <= key@.len(),
                k@ == key@.take(i as int),
            decreases key@.len() - i,
        {
            k.push(key[i]);
            i = i + 1;
        }
        proof {
            assert(k@ =~= key@);
        }
        HMAC { key: k, data: Vec::new() }
    }

    /// Feed more message bytes into the computation.
    pub fn update(&mut self, data: &[u8]) -> (r: Result<(), Error>)
        ensures
            r is Ok,
            final(self).key() == old(self).key(),
            final(self).data() == old(self).data() + data@,
    {
        let ghost start = self.data@;
        let mut i: usize = 0;
        while i < data.len()
            invariant
                i <= data@.len(),
                self.key@ == old(self).key@,
                self.data@ == start + data@.take(i as int),
            decreases data@.len() - i,
        {
            self.data.push(data[i]);
            i = i + 1;
        }
        proof {
            assert(self.data@ =~= start + data@);
        }
        Ok(())
    }

    /// Produce the tag over everything accumulated.
    pub fn sign(self) -> (r: Vec<u8>)
        ensures
            r@ == hmac_sha256_of(self.key(), self.data()),
            r@.len() == 32,
    {
        hmac_sha256(self.key.as_slice(), self.data.as_slice())
    }
}

/// Compute the HMAC-SHA256 tag of a message under a key.
pub fn hmac(key: &[u8], message: &[u8]) -> (r: Vec<u8>)
    ensures
        r@ == hmac_sha256_of(key@, message@),
        r@.len() == 32,
{
    let mut signer = HMAC::new(key);
    let _ = signer.update(message);
    signer.sign()
}

/// Whether a byte string ends in the HMAC-SHA256 tag of everything before it.
pub open spec fn spec_mac_matches(data: Seq<u8>, hmac_key: Seq<u8>) -> bool {
    data.subrange(data.len() - 32, data.len() as int)
        == hmac_sha256_of(hmac_key, data.take(data.len() - 32))
}

/// Split the trailing 32 bytes off `data` and check them against the
/// HMAC-SHA256 tag of the rest under `hmac_key`.
pub fn verify_data(data: &[u8], hmac_key: &[u8]) -> (r: Result<bool, Error>)
    requires
        data@.len() >= 32,
    ensures
        r matches Ok(b) && b == spec_mac_matches(data@, hmac_key@),
{
    let n = data.len();
    let body = vstd::slice::slice_subrange(data, 0, n - 32);
    let mac = vstd::slice::slice_subrange(data, n - 32, n);
    let computed = hmac_sha256(hmac_key, body);
    let mut i: usize = 0;
    let mut same: bool = true;
    while i < 32
        invariant
            i <= 32,
            mac@.len() == 32,
            computed@.len() == 32,
            same == (forall|j: int| 0 <= j < i ==> mac@[j] == #[trigger] computed@[j]),
        decreases 32 - i,
    {
        if mac[i] != computed[i] {
            same = false;
        }
        i = i + 1;
    }
    proof {
        if same {
            assert(mac@ =~= computed@);
        } else {
            if mac@ == computed@ {
                assert(forall|j: int| 0 <= j < 32 ==> mac@[j] == #[trigger] computed@[j]);
            }
        }
        assert(mac@ =~= data@.subrange(data@.len() - 32, data@.len() as int));
        assert(body@ =~= data@.take(data@.len() - 32));
    }
    Ok(same)
}

} // verus!
