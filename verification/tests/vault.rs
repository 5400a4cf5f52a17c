//! End-to-end tests against a synthesized vault: real PBKDF2, SHA-512,
//! HMAC-SHA256 and AES-256-CBC seal every blob, and the library unlocks
//! and decrypts them all.

use aes::cipher::block_padding::NoPadding;
use aes::cipher::{BlockModeEncrypt, KeyIvInit};
use base64::Engine;
use hmac::{KeyInit, Mac};
use sha2::Digest;

use opvault::vault::VaultFiles;
use opvault::{Detail, Error, LockedVault, OpdataError, Uuid};

const PASSWORD: &[u8] = b"freddy";
const ITERATIONS: u32 = 1000;
const SALT: [u8; 16] = [0x5A; 16];
const MASTER_SEED: [u8; 64] = [1; 64];
const OVERVIEW_SEED: [u8; 64] = [2; 64];

const ITEM1_UUID: &str = "F2DB5DA3FCA64372A751E0E85C67A538";
const ITEM2_UUID: &str = "11111111111111111111111111111111";
const ATT_A_UUID: &str = "23F6167DC1FB457A8DE7033ACDCD06DB";
const ATT_B_UUID: &str = "AB0000000000000000000000000000AB";

fn hmac256(key: &[u8], msg: &[u8]) -> Vec<u8> {
    let mut mac = <hmac::Hmac<sha2::Sha256> as KeyInit>::new_from_slice(key).unwrap();
    mac.update(msg);
    mac.finalize().into_bytes().to_vec()
}

fn aes_enc(key: &[u8], iv: &[u8], pt: &[u8]) -> Vec<u8> {
    let enc = cbc::Encryptor::<aes::Aes256>::new_from_slices(key, iv).unwrap();
    let mut buf = vec![0u8; pt.len()];
    enc.encrypt_padded_b2b::<NoPadding>(pt, &mut buf).unwrap();
    buf
}

fn b64(data: &[u8]) -> String {
    base64::engine::general_purpose::STANDARD.encode(data)
}

fn make_opdata(enc_key: &[u8], mac_key: &[u8], plain: &[u8]) -> Vec<u8> {
    let l = plain.len();
    let n = if l % 16 == 0 { l + 16 } else { l.div_ceil(16) * 16 };
    let mut padded = vec![0xAAu8; n - l];
    padded.extend_from_slice(plain);
    let iv: Vec<u8> = (16u8..32).collect();
    let mut env = Vec::new();
    env.extend_from_slice(b"opdata01");
    env.extend_from_slice(&(l as u64).to_le_bytes());
    env.extend_from_slice(&iv);
    env.extend_from_slice(&aes_enc(enc_key, &iv, &padded));
    let tag = hmac256(mac_key, &env);
    env.extend_from_slice(&tag);
    env
}

fn derived_key() -> Vec<u8> {
    let mut out = [0u8; 64];
    pbkdf2::pbkdf2_hmac::<sha2::Sha512>(PASSWORD, &SALT, ITERATIONS, &mut out);
    out.to_vec()
}

fn master_material() -> Vec<u8> {
    sha2::Sha512::digest(MASTER_SEED).to_vec()
}

fn overview_material() -> Vec<u8> {
    sha2::Sha512::digest(OVERVIEW_SEED).to_vec()
}

fn profile_js() -> Vec<u8> {
    let derived = derived_key();
    let master_blob = make_opdata(&derived[..32], &derived[32..], &MASTER_SEED);
    let overview_blob = make_opdata(&derived[..32], &derived[32..], &OVERVIEW_SEED);
    format!(
        "var profile={{\"lastUpdatedBy\":\"Dropbox\",\"updatedAt\":1370323483,\
         \"profileName\":\"default\",\"salt\":\"{}\",\"passwordHint\":\"a hint\",\
         \"masterKey\":\"{}\",\"iterations\":{},\
         \"uuid\":\"2B894A18997C4638BACC55F2AD5A836C\",\"overviewKey\":\"{}\",\
         \"createdAt\":1373753414}};",
        b64(&SALT),
        b64(&master_blob),
        ITERATIONS,
        b64(&overview_blob),
    )
    .into_bytes()
}

/// One item's key material, derived from a seed byte.
fn item_material(seed: u8) -> Vec<u8> {
    vec![seed; 64]
}

/// The JSON of one item record, sealed and HMAC'd like the real format.
fn item_json(
    uuid: &str,
    category: &str,
    trashed: Option<bool>,
    seed: u8,
    detail: &str,
    overview: &str,
) -> String {
    let mm = master_material();
    let om = overview_material();
    let ikm = item_material(seed);
    let (created, tx, updated) = (1386214150i64, 1386214151i64, 1386214152i64);

    // k blob: IV ‖ AES-CBC(master enc, item key material) ‖ HMAC under master verify
    let iv = [9u8; 16];
    let mut k_blob = iv.to_vec();
    k_blob.extend_from_slice(&aes_enc(&mm[..32], &iv, &ikm));
    let tag = hmac256(&mm[32..], &k_blob);
    k_blob.extend_from_slice(&tag);
    let k = b64(&k_blob);

    let d = b64(&make_opdata(&ikm[..32], &ikm[32..], detail.as_bytes()));
    let o = b64(&make_opdata(&om[..32], &om[32..], overview.as_bytes()));

    let mut input = Vec::new();
    input.extend_from_slice(b"category");
    input.extend_from_slice(category.as_bytes());
    input.extend_from_slice(b"created");
    input.extend_from_slice(created.to_string().as_bytes());
    input.extend_from_slice(b"d");
    input.extend_from_slice(d.as_bytes());
    input.extend_from_slice(b"k");
    input.extend_from_slice(k.as_bytes());
    input.extend_from_slice(b"o");
    input.extend_from_slice(o.as_bytes());
    if let Some(t) = trashed {
        input.extend_from_slice(b"trashed");
        input.extend_from_slice(if t { b"1" } else { b"0" });
    }
    input.extend_from_slice(b"tx");
    input.extend_from_slice(tx.to_string().as_bytes());
    input.extend_from_slice(b"updated");
    input.extend_from_slice(updated.to_string().as_bytes());
    input.extend_from_slice(b"uuid");
    input.extend_from_slice(uuid.as_bytes());
    let hmac = b64(&hmac256(&om[32..], &input));

    let trashed_part = match trashed {
        Some(t) => format!(",\"trashed\":{}", t),
        None => String::new(),
    };
    format!(
        "{{\"category\":\"{}\",\"created\":{},\"d\":\"{}\",\"hmac\":\"{}\",\
         \"k\":\"{}\",\"o\":\"{}\"{},\"tx\":{},\"updated\":{},\"uuid\":\"{}\"}}",
        category, created, d, hmac, k, o, trashed_part, tx, updated, uuid
    )
}

fn folders_js() -> Vec<u8> {
    let om = overview_material();
    let mut entries = Vec::new();
    for (uuid, title) in [
        ("AAAAAAAAAAAAAAAAAAAAAAAAAAAAAAA1", "Personal"),
        ("AAAAAAAAAAAAAAAAAAAAAAAAAAAAAAA2", "Work"),
        ("AAAAAAAAAAAAAAAAAAAAAAAAAAAAAAA3", "Archive"),
    ] {
        let overview = b64(&make_opdata(
            &om[..32],
            &om[32..],
            format!("{{\"title\":\"{}\"}}", title).as_bytes(),
        ));
        entries.push(format!(
            "\"{}\":{{\"created\":1,\"overview\":\"{}\",\"tx\":2,\"updated\":3,\
             \"uuid\":\"{}\",\"smart\":false}}",
            uuid, overview, uuid
        ));
    }
    format!("loadFolders({{{}}});", entries.join(",")).into_bytes()
}

fn make_attachment(att_uuid: &str, item_uuid: &str, seed: u8) -> Vec<u8> {
    let om = overview_material();
    let ikm = item_material(seed);
    let overview = b64(&make_opdata(
        &om[..32],
        &om[32..],
        b"{\"filename\":\"att.txt\"}",
    ));
    let meta = format!(
        "{{\"itemUUID\":\"{}\",\"contentsSize\":45,\"updatedAt\":4,\"txTimestamp\":5,\
         \"createdAt\":6,\"overview\":\"{}\",\"uuid\":\"{}\"}}",
        item_uuid, overview, att_uuid
    )
    .into_bytes();
    let icon = make_opdata(&ikm[..32], &ikm[32..], &[0xCC; 10]);
    let content = make_opdata(&ikm[..32], &ikm[32..], b"the attachment content bytes");
    let mut file = Vec::new();
    file.extend_from_slice(b"OPCLDAT");
    file.push(1);
    file.extend_from_slice(&(meta.len() as u16).to_le_bytes());
    file.extend_from_slice(&[0, 0]);
    file.extend_from_slice(&(icon.len() as u32).to_le_bytes());
    file.extend_from_slice(&meta);
    file.extend_from_slice(&icon);
    file.extend_from_slice(&content);
    file
}

fn band(entries: &[(&str, String)]) -> Vec<u8> {
    let inner: Vec<String> = entries
        .iter()
        .map(|(uuid, json)| format!("\"{}\":{}", uuid, json))
        .collect();
    format!("ld({{{}}});", inner.join(",")).into_bytes()
}

const LOGIN_DETAIL: &str = "{\"fields\":[{\"type\":\"T\",\"name\":\"username\",\
                            \"value\":\"freddy\",\"designation\":\"username\"}]}";
const NOTE_DETAIL: &str = "{\"notesPlain\":\"a note\"}";
const ITEM1_OVERVIEW: &str = "{\"title\":\"Example Login\",\
                              \"URLs\":[{\"u\":\"https://example.org\"}],\"tags\":[\"x\"]}";
const ITEM2_OVERVIEW: &str = "{\"title\":\"A Note\"}";

/// The full synthesized vault: two items in two bands, three folders, two
/// attachments both referencing the first item.
fn vault_files() -> VaultFiles {
    let mut bands: Vec<Option<Vec<u8>>> = (0..16).map(|_| None).collect();
    let item1 = item_json(ITEM1_UUID, "001", Some(false), 7, LOGIN_DETAIL, ITEM1_OVERVIEW);
    let item2 = item_json(ITEM2_UUID, "003", None, 8, NOTE_DETAIL, ITEM2_OVERVIEW);
    bands[15] = Some(band(&[(ITEM1_UUID, item1)]));
    bands[1] = Some(band(&[(ITEM2_UUID, item2)]));
    VaultFiles {
        profile: profile_js(),
        folders: Some(folders_js()),
        bands,
        attachments: vec![
            make_attachment(ATT_A_UUID, ITEM1_UUID, 7),
            make_attachment(ATT_B_UUID, ITEM1_UUID, 7),
        ],
    }
}

#[test]
fn read_vault() {
    let vault = LockedVault::open(vault_files()).expect("vault");
    let unlocked = vault.unlock(PASSWORD).expect("unlock");

    let mut n_items = 0;
    let mut iter = unlocked.get_items();
    while iter.next().is_some() {
        n_items += 1;
    }
    assert_eq!(2, n_items);
    assert_eq!(3, unlocked.folders.len());

    for (_uuid, folder) in &unlocked.folders {
        folder.overview().expect("folder overview");
    }

    let item_uuid = Uuid::parse_str(ITEM1_UUID).expect("uuid");
    let item = unlocked.get_item(&item_uuid).expect("item lookup");
    let overview = item.overview().expect("item overview");
    assert_eq!(overview.title.as_deref(), Some("Example Login"));
    let decrypted = item.detail().expect("item detail");
    assert!(matches!(decrypted, Detail::Login(_)));

    let mut atts = item.get_attachments().expect("attachments");
    let mut n_atts = 0;
    while atts.next().is_some() {
        n_atts += 1;
    }
    assert_eq!(2, n_atts);

    let att_uuid = Uuid::parse_str(ATT_A_UUID).expect("uuid");
    let att = item.get_attachment(&att_uuid).expect("attachment");
    let overview = att.decrypt_overview().expect("decrypt overview");
    assert!(!overview.is_empty());
    let icon = att.decrypt_icon().expect("decrypt icon");
    assert!(!icon.is_empty());
    let content = att.decrypt_content().expect("decrypt content");
    assert!(!content.is_empty());

    let mut items = unlocked.get_items();
    while let Some(item) = items.next() {
        item.overview().expect("item overview");
        item.detail().expect("item detail");
        let mut atts = item.get_attachments().expect("attachments");
        while let Some(att) = atts.next() {
            att.decrypt_overview().expect("decrypt overview");
            att.decrypt_icon().expect("decrypt icon");
            att.decrypt_content().expect("decrypt content");
        }
    }
}

#[test]
fn wrong_password_is_invalid_hmac() {
    let vault = LockedVault::open(vault_files()).expect("vault");
    match vault.unlock(b"wrong") {
        Err(Error::OpdataError(OpdataError::InvalidHmac)) => {}
        other => panic!("got {:?}", other.map(|_| ())),
    }
}

#[test]
fn corrupt_master_key_is_invalid_hmac() {
    let baseline = vault_files();
    let text = String::from_utf8(baseline.profile.clone()).unwrap();
    let marker = "\"masterKey\":\"";
    let start = text.find(marker).unwrap() + marker.len();
    let end = start + text[start..].find('"').unwrap();
    // corrupt single characters of the base64 text, early, middle and late
    for pos in [start, (start + end) / 2, end - 1] {
        let mut bytes = baseline.profile.clone();
        bytes[pos] = if bytes[pos] == b'A' { b'B' } else { b'A' };
        let files = VaultFiles {
            profile: bytes,
            folders: None,
            bands: (0..16).map(|_| None).collect(),
            attachments: Vec::new(),
        };
        let vault = match LockedVault::open(files) {
            Ok(v) => v,
            Err(Error::Base64Error) => continue, // a corrupted pad character
            Err(e) => panic!("open gave {:?}", e),
        };
        match vault.unlock(PASSWORD) {
            Err(Error::OpdataError(OpdataError::InvalidHmac)) => {}
            other => panic!("pos {} gave {:?}", pos, other.map(|_| ())),
        }
    }
}

#[test]
fn missing_folders_file_means_no_folders() {
    let mut files = vault_files();
    files.folders = None;
    let vault = LockedVault::open(files).expect("vault");
    let unlocked = vault.unlock(PASSWORD).expect("unlock");
    assert_eq!(0, unlocked.folders.len());
}

#[test]
fn missing_bands_leave_remaining_items_intact() {
    let mut files = vault_files();
    // take every band away but the one holding the first item
    for i in 0..16 {
        if i != 15 {
            files.bands[i] = None;
        }
    }
    let vault = LockedVault::open(files).expect("vault");
    let unlocked = vault.unlock(PASSWORD).expect("unlock");
    let mut n_items = 0;
    let mut iter = unlocked.get_items();
    while iter.next().is_some() {
        n_items += 1;
    }
    assert_eq!(1, n_items);
    let item_uuid = Uuid::parse_str(ITEM1_UUID).expect("uuid");
    let item = unlocked.get_item(&item_uuid).expect("item survives");
    item.detail().expect("item detail");
}

#[test]
fn attachment_linkage_is_exact() {
    let vault = LockedVault::open(vault_files()).expect("vault");
    let unlocked = vault.unlock(PASSWORD).expect("unlock");
    let item_uuid = Uuid::parse_str(ITEM1_UUID).expect("uuid");
    let item = unlocked.get_item(&item_uuid).expect("item lookup");

    let a = Uuid::parse_str(ATT_A_UUID).unwrap();
    let b = Uuid::parse_str(ATT_B_UUID).unwrap();
    let mut seen = Vec::new();
    let mut atts = item.get_attachments().expect("attachments");
    while let Some(att) = atts.next() {
        assert_eq!(att.item, item_uuid);
        seen.push(att.uuid);
    }
    assert_eq!(2, seen.len());
    assert!(seen.contains(&a));
    assert!(seen.contains(&b));
    assert_ne!(seen[0], seen[1]);

    // the second item has no attachments
    let other = unlocked
        .get_item(&Uuid::parse_str(ITEM2_UUID).unwrap())
        .expect("item lookup");
    let mut atts = other.get_attachments().expect("attachments");
    assert!(atts.next().is_none());
}

#[test]
fn item_with_bad_hmac_is_dropped() {
    let mut files = vault_files();
    // corrupt the second item's stored hmac: swap a base64 character
    let text = String::from_utf8(files.bands[1].clone().unwrap()).unwrap();
    let marker = "\"hmac\":\"";
    let start = text.find(marker).unwrap() + marker.len();
    let mut bytes = text.into_bytes();
    bytes[start] = if bytes[start] == b'A' { b'B' } else { b'A' };
    files.bands[1] = Some(bytes);

    let vault = LockedVault::open(files).expect("vault");
    let unlocked = vault.unlock(PASSWORD).expect("unlock");
    assert!(unlocked
        .get_item(&Uuid::parse_str(ITEM2_UUID).unwrap())
        .is_none());
    assert!(unlocked
        .get_item(&Uuid::parse_str(ITEM1_UUID).unwrap())
        .is_some());
}

#[test]
fn malformed_profile_is_json_error() {
    let files = VaultFiles {
        profile: b"var profile=notjson;".to_vec(),
        folders: None,
        bands: (0..16).map(|_| None).collect(),
        attachments: Vec::new(),
    };
    match LockedVault::open(files) {
        Err(Error::JsonError) => {}
        other => panic!("got {:?}", other.map(|_| ())),
    }
}

#[test]
fn bad_salt_base64_is_base64_error() {
    let text = String::from_utf8(profile_js()).unwrap();
    let corrupted = text.replace(&b64(&SALT), "!!!not-base64!!!");
    let files = VaultFiles {
        profile: corrupted.into_bytes(),
        folders: None,
        bands: (0..16).map(|_| None).collect(),
        attachments: Vec::new(),
    };
    match LockedVault::open(files) {
        Err(Error::Base64Error) => {}
        other => panic!("got {:?}", other.map(|_| ())),
    }
}
