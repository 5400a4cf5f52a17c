//! Tests of the `opdata01` envelope, the `OPCLDAT` header, categories,
//! uuids and the canonical item HMAC, against real cryptography.

use aes::cipher::block_padding::NoPadding;
use aes::cipher::{BlockModeDecrypt, BlockModeEncrypt, KeyIvInit};
use base64::Engine;
use hmac::{KeyInit, Mac};

use opvault::item::{item_from_data, ItemData};
use opvault::{MasterKey, OverviewKey};
use opvault::opcldat;
use opvault::opdata01;
use opvault::{Category, Error, OpdataError, Uuid};

fn hmac256(key: &[u8], msg: &[u8]) -> Vec<u8> {
    let mut mac = <hmac::Hmac<sha2::Sha256> as KeyInit>::new_from_slice(key).unwrap();
    mac.update(msg);
    mac.finalize().into_bytes().to_vec()
}

fn aes_enc(key: &[u8], iv: &[u8], pt: &[u8]) -> Vec<u8> {
    let enc = cbc::Encryptor::<aes::Aes256>::new_from_slices(key, iv).unwrap();
    let mut buf = vec![0u8; pt.len()];
    enc.encrypt_padded_b2b::<NoPadding>(pt, &mut buf).unwrap();
    buf
}

fn aes_dec(key: &[u8], iv: &[u8], ct: &[u8]) -> Vec<u8> {
    let dec = cbc::Decryptor::<aes::Aes256>::new_from_slices(key, iv).unwrap();
    let mut buf = vec![0u8; ct.len()];
    dec.decrypt_padded_b2b::<NoPadding>(ct, &mut buf).unwrap();
    buf
}

/// Build a well-formed envelope: magic, length, IV, front-padded
/// ciphertext, trailing HMAC.
fn make_opdata(enc_key: &[u8], mac_key: &[u8], plain: &[u8]) -> Vec<u8> {
    let l = plain.len();
    let n = if l % 16 == 0 { l + 16 } else { l.div_ceil(16) * 16 };
    let mut padded = vec![0xAAu8; n - l];
    padded.extend_from_slice(plain);
    let iv: Vec<u8> = (0u8..16).collect();
    let mut env = Vec::new();
    env.extend_from_slice(b"opdata01");
    env.extend_from_slice(&(l as u64).to_le_bytes());
    env.extend_from_slice(&iv);
    env.extend_from_slice(&aes_enc(enc_key, &iv, &padded));
    let tag = hmac256(mac_key, &env);
    env.extend_from_slice(&tag);
    env
}

#[test]
fn opdata_round_trip() {
    let enc_key = [3u8; 32];
    let mac_key = [4u8; 32];
    for len in [0usize, 1, 15, 16, 17, 64, 100] {
        let plain: Vec<u8> = (0..len).map(|i| (i * 7 % 256) as u8).collect();
        let env = make_opdata(&enc_key, &mac_key, &plain);
        let out = opdata01::decrypt(&env, &enc_key, &mac_key).expect("decrypt");
        assert_eq!(out, plain);
    }
}

#[test]
fn opdata_flip_any_byte_fails() {
    let enc_key = [3u8; 32];
    let mac_key = [4u8; 32];
    let plain = b"attack at dawn";
    let env = make_opdata(&enc_key, &mac_key, plain);
    for i in 0..env.len() {
        let mut bad = env.clone();
        bad[i] ^= 0x01;
        match opdata01::decrypt(&bad, &enc_key, &mac_key) {
            Err(Error::OpdataError(OpdataError::InvalidHmac)) => {}
            Err(Error::OpdataError(OpdataError::InvalidHeader)) => {}
            other => panic!("byte {} gave {:?}", i, other.map(|_| ())),
        }
    }
}

#[test]
fn opdata_length_field_honored() {
    let enc_key = [5u8; 32];
    let mac_key = [6u8; 32];
    let plain = b"0123456789"; // L = 10, N = 16
    let env = make_opdata(&enc_key, &mac_key, plain);
    let out = opdata01::decrypt(&env, &enc_key, &mac_key).expect("decrypt");
    assert_eq!(out.len(), 10);
    // the returned plaintext is the last L bytes of the raw decryption
    let ct = &env[32..env.len() - 32];
    let raw = aes_dec(&enc_key, &env[16..32], ct);
    assert_eq!(out, raw[raw.len() - 10..].to_vec());
}

#[test]
fn opdata_bad_magic_is_header_error() {
    let enc_key = [3u8; 32];
    let mac_key = [4u8; 32];
    let mut env = make_opdata(&enc_key, &mac_key, b"payload");
    // rewrite the magic, then re-seal so the HMAC still matches
    env[0] = b'x';
    let body_len = env.len() - 32;
    let tag = hmac256(&mac_key, &env[..body_len]);
    env[body_len..].copy_from_slice(&tag);
    match opdata01::decrypt(&env, &enc_key, &mac_key) {
        Err(Error::OpdataError(OpdataError::InvalidHeader)) => {}
        other => panic!("got {:?}", other.map(|_| ())),
    }
}

#[test]
fn opdata_short_input_is_io_error() {
    match opdata01::decrypt(b"tiny", &[3u8; 32], &[4u8; 32]) {
        Err(Error::IoError) => {}
        other => panic!("got {:?}", other.map(|_| ())),
    }
}

#[test]
fn opdata_lying_length_field_is_io_error() {
    let mac_key = [4u8; 32];
    let mut env = Vec::new();
    env.extend_from_slice(b"opdata01");
    env.extend_from_slice(&17u64.to_le_bytes()); // claims more than the 16 ciphertext bytes
    env.extend_from_slice(&[0u8; 16]); // IV
    env.extend_from_slice(&[7u8; 16]); // one block of ciphertext
    let tag = hmac256(&mac_key, &env);
    env.extend_from_slice(&tag);
    match opdata01::decrypt(&env, &[3u8; 32], &mac_key) {
        Err(Error::IoError) => {}
        other => panic!("got {:?}", other.map(|_| ())),
    }
}

#[test]
fn opcldat_header_fields() {
    let mut data = Vec::new();
    data.extend_from_slice(b"OPCLDAT");
    data.push(1); // version
    data.extend_from_slice(&42u16.to_le_bytes());
    data.extend_from_slice(&[0, 0]);
    data.extend_from_slice(&7000u32.to_le_bytes());
    let h = opcldat::read_header(&data).expect("header");
    assert_eq!(h.version, 1);
    assert_eq!(h.metadata_size, 42);
    assert_eq!(h.icon_size, 7000);
}

#[test]
fn opcldat_bad_magic() {
    let data = vec![0u8; 16];
    match opcldat::read_header(&data) {
        Err(Error::OpcldatError) => {}
        other => panic!("got {:?}", other.map(|_| ())),
    }
}

#[test]
fn opcldat_short_input() {
    match opcldat::read_header(&[1, 2, 3]) {
        Err(Error::IoError) => {}
        other => panic!("got {:?}", other.map(|_| ())),
    }
}

#[test]
fn category_codes_cover_all() {
    let cases = [
        ("001", Category::Login),
        ("002", Category::CreditCard),
        ("003", Category::SecureNote),
        ("004", Category::Identity),
        ("005", Category::Password),
        ("099", Category::Tombstone),
        ("100", Category::SoftwareLicense),
        ("101", Category::BankAccount),
        ("102", Category::Database),
        ("103", Category::DriverLicense),
        ("104", Category::OutdoorLicense),
        ("105", Category::Membership),
        ("106", Category::Passport),
        ("107", Category::Rewards),
        ("108", Category::SSN),
        ("109", Category::Router),
        ("110", Category::Server),
        ("111", Category::Email),
    ];
    for (code, want) in cases {
        assert_eq!(Category::from_str(code).expect(code), want);
    }
    for bad in ["000", "006", "098", "112", "01", "0011", "abc", ""] {
        match Category::from_str(bad) {
            Err(Error::ItemError) => {}
            other => panic!("{:?} gave {:?}", bad, other),
        }
    }
}

#[test]
fn uuid_forms() {
    let bare = Uuid::parse_str("F2DB5DA3FCA64372A751E0E85C67A538").expect("bare");
    let hyph = Uuid::parse_str("f2db5da3-fca6-4372-a751-e0e85c67a538").expect("hyphenated");
    assert_eq!(bare, hyph);
    assert!(Uuid::parse_str("F2DB5DA3FCA64372A751E0E85C67A53").is_err());
    assert!(Uuid::parse_str("F2DB5DA3FCA64372A751E0E85C67A53G").is_err());
    assert!(Uuid::parse_str("f2db5da3_fca6_4372_a751_e0e85c67a538").is_err());
    assert!(Uuid::parse_str("").is_err());
}

fn item_data(trashed: Option<bool>) -> ItemData {
    ItemData {
        category: b"001".to_vec(),
        created: 1386214150,
        d: b"ZDY0NA==".to_vec(),
        fave: None,
        folder: None,
        hmac: Vec::new(),
        k: b"a2V5".to_vec(),
        o: b"b3Zydw==".to_vec(),
        trashed,
        tx: 1386214150,
        updated: 1386214152,
        uuid: b"F2DB5DA3FCA64372A751E0E85C67A538".to_vec(),
    }
}

fn canonical_bytes(d: &ItemData) -> Vec<u8> {
    let mut input = Vec::new();
    input.extend_from_slice(b"category");
    input.extend_from_slice(&d.category);
    input.extend_from_slice(b"created");
    input.extend_from_slice(d.created.to_string().as_bytes());
    input.extend_from_slice(b"d");
    input.extend_from_slice(&d.d);
    input.extend_from_slice(b"k");
    input.extend_from_slice(&d.k);
    input.extend_from_slice(b"o");
    input.extend_from_slice(&d.o);
    if let Some(t) = d.trashed {
        input.extend_from_slice(b"trashed");
        input.extend_from_slice(if t { b"1" } else { b"0" });
    }
    input.extend_from_slice(b"tx");
    input.extend_from_slice(d.tx.to_string().as_bytes());
    input.extend_from_slice(b"updated");
    input.extend_from_slice(d.updated.to_string().as_bytes());
    input.extend_from_slice(b"uuid");
    input.extend_from_slice(&d.uuid);
    input
}

fn b64(data: &[u8]) -> Vec<u8> {
    base64::engine::general_purpose::STANDARD
        .encode(data)
        .into_bytes()
}

#[test]
fn canonical_hmac_renders_trashed_as_digit() {
    let key = [9u8; 32];
    for (trashed, digit) in [(Some(true), Some(b'1')), (Some(false), Some(b'0')), (None, None)] {
        let mut d = item_data(trashed);
        let input = canonical_bytes(&d);
        if let Some(dg) = digit {
            let pos = input
                .windows(8)
                .position(|w| w == b"trashed1" || w == b"trashed0")
                .expect("trashed contribution");
            assert_eq!(input[pos + 7], dg);
        } else {
            assert!(input.windows(7).all(|w| w != b"trashed"));
        }
        d.hmac = b64(&hmac256(&key, &input));
        assert!(d.verify(&key).expect("verify"));
    }
}

#[test]
fn canonical_hmac_rejects_boolean_words() {
    let key = [9u8; 32];
    let mut d = item_data(Some(true));
    // serialize the boolean as the word `true` instead of the digit `1`
    let mut input = canonical_bytes(&item_data(None));
    let tail_at = input.windows(2).position(|w| w == b"tx").expect("tx label");
    input.splice(tail_at..tail_at, b"trashedtrue".iter().copied());
    d.hmac = b64(&hmac256(&key, &input));
    assert!(!d.verify(&key).expect("verify"));
}

#[test]
fn decimal_rendering() {
    assert_eq!(opvault::decimal::i64_to_dec(0), b"0".to_vec());
    assert_eq!(opvault::decimal::i64_to_dec(-15), b"-15".to_vec());
    assert_eq!(opvault::decimal::i64_to_dec(1386214150), b"1386214150".to_vec());
    assert_eq!(
        opvault::decimal::i64_to_dec(i64::MIN),
        b"-9223372036854775808".to_vec()
    );
    assert_eq!(
        opvault::decimal::i64_to_dec(i64::MAX),
        b"9223372036854775807".to_vec()
    );
}

#[test]
fn crypto_streaming_hmac_matches_one_shot() {
    let key = [1u8; 32];
    let mut signer = opvault::crypto::HMAC::new(&key);
    signer.update(b"hello ").unwrap();
    signer.update(b"world").unwrap();
    let tag = signer.sign();
    assert_eq!(tag, opvault::crypto::hmac(&key, b"hello world"));
    assert_eq!(tag, hmac256(&key, b"hello world"));
}

#[test]
fn crypto_verify_data_splits_trailing_tag() {
    let key = [2u8; 32];
    let mut data = b"some signed bytes".to_vec();
    let tag = hmac256(&key, &data);
    data.extend_from_slice(&tag);
    assert!(opvault::crypto::verify_data(&data, &key).unwrap());
    data[0] ^= 1;
    assert!(!opvault::crypto::verify_data(&data, &key).unwrap());
}

#[test]
fn opdata_partial_block_is_crypto_error() {
    let mac_key = [4u8; 32];
    let mut env = Vec::new();
    env.extend_from_slice(b"opdata01");
    env.extend_from_slice(&0u64.to_le_bytes());
    env.extend_from_slice(&[0u8; 16]); // IV
    env.extend_from_slice(&[7u8; 10]); // ciphertext that is no block multiple
    let tag = hmac256(&mac_key, &env);
    env.extend_from_slice(&tag);
    match opdata01::decrypt(&env, &[3u8; 32], &mac_key) {
        Err(Error::Crypto) => {}
        other => panic!("got {:?}", other.map(|_| ())),
    }
}

#[test]
fn uuid_error_kind() {
    match Uuid::parse_str("not a uuid") {
        Err(Error::UuidError) => {}
        other => panic!("got {:?}", other),
    }
}

#[test]
fn bad_item_key_blob_is_item_error() {
    let master = MasterKey::from(vec![0u8; 64]);
    let overview = OverviewKey::from(vec![1u8; 64]);
    let atts = Vec::new();
    let d = ItemData {
        category: b"001".to_vec(),
        created: 1,
        d: b64(&[1, 2, 3]),
        fave: None,
        folder: None,
        hmac: b64(&[4, 5, 6]),
        // a 112-byte blob whose trailing tag cannot match
        k: b64(&[0u8; 112]),
        o: b64(&[7, 8, 9]),
        trashed: None,
        tx: 2,
        updated: 3,
        uuid: b"F2DB5DA3FCA64372A751E0E85C67A538".to_vec(),
    };
    let item = item_from_data(&d, &atts, &master, &overview).expect("assemble");
    match item.item_key() {
        Err(Error::ItemError) => {}
        other => panic!("got {:?}", other.map(|_| ())),
    }
    match item.detail() {
        Err(Error::ItemError) => {}
        other => panic!("got {:?}", other.map(|_| ())),
    }
}
