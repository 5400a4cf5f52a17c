//! Folders: named groups of items, read from `folders.js`.
//!
//! The file is JavaScript of the exact shape `loadFolders(<json>);` and
//! is absent when the vault has no folders — that is no error, just an
//! empty set. Folder overviews are sealed under the overview key.

use vstd::prelude::*;

use crate::b64::{base64_decode, base64_decode_of};
use crate::json;
use crate::json::{
    json_data_of, json_parsed_of, spec_opt_bool, spec_req_bytes, spec_req_i64, JsonData,
};
use crate::key::OverviewKey;
use crate::opdata01::spec_decrypt;
use crate::util::{spec_strip_wrapper, strip_wrapper};
use crate::uuid::{spec_parse_uuid, Uuid};
use crate::Error;

verus! {

use vstd::utf8::encode_utf8;

/// The bytes of the literal prefix `loadFolders(`.
pub open spec fn spec_folders_prefix() -> Seq<u8> {
    seq![108u8, 111u8, 97u8, 100u8, 70u8, 111u8, 108u8, 100u8, 101u8, 114u8, 115u8, 40u8]
}

/// The bytes of the literal suffix `);`.
pub open spec fn spec_paren_semi_suffix() -> Seq<u8> {
    seq![41u8, 59u8]
}

/// Whether a JSON object carries every folder member with its right type.
pub open spec fn spec_folder_ok(m: Map<Seq<char>, JsonData>) -> bool {
    &&& spec_req_i64(m, "created"@) is Some
    &&& spec_req_bytes(m, "overview"@) is Some
    &&& spec_req_i64(m, "tx"@) is Some
    &&& spec_req_i64(m, "updated"@) is Some
    &&& (spec_req_bytes(m, "uuid"@) matches Some(b) && spec_parse_uuid(b) is Some)
    &&& spec_opt_bool(m, "smart"@) is Some
}

/// How a raw folder record relates to its JSON object.
pub open spec fn spec_folder_record_matches(m: Map<Seq<char>, JsonData>, d: FolderData) -> bool {
    &&& Some(d.created) == spec_req_i64(m, "created"@)
    &&& Some(d.overview@) == spec_req_bytes(m, "overview"@)
    &&& Some(d.tx) == spec_req_i64(m, "tx"@)
    &&& Some(d.updated) == spec_req_i64(m, "updated"@)
    &&& (spec_req_bytes(m, "uuid"@) matches Some(b) && Some(d.uuid.spec_value())
        == spec_parse_uuid(b))
    &&& (match spec_opt_bool(m, "smart"@) {
        Some(Some(b)) => d.smart == b,
        Some(None) => d.smart == false,
        None => false,
    })
}

/// Whether one member of the folder file's object loads: its name parses
/// as a uuid, the record has every member, and the overview decodes.
pub open spec fn spec_folder_entry_ok(j: JsonData, k: Seq<char>) -> bool {
    &&& spec_parse_uuid(encode_utf8(k)) is Some
    &&& (j matches JsonData::Obj(fm) && spec_folder_ok(fm) && base64_decode_of(
        spec_req_bytes(fm, "overview"@).unwrap(),
    ) is Some)
}

/// How a loaded folder relates to its JSON object: fields copied, the
/// overview decoded from base64.
pub open spec fn spec_folder_entry_matches(j: JsonData, f: Folder) -> bool {
    j matches JsonData::Obj(fm) && {
        &&& Some(f.created) == spec_req_i64(fm, "created"@)
        &&& Some(f.overview@) == base64_decode_of(spec_req_bytes(fm, "overview"@).unwrap())
        &&& Some(f.tx) == spec_req_i64(fm, "tx"@)
        &&& Some(f.updated) == spec_req_i64(fm, "updated"@)
        &&& (spec_req_bytes(fm, "uuid"@) matches Some(b) && Some(f.uuid.spec_value())
            == spec_parse_uuid(b))
        &&& (match spec_opt_bool(fm, "smart"@) {
            Some(Some(b)) => f.smart == b,
            Some(None) => f.smart == false,
            None => false,
        })
    }
}

/// The object of a `folders.js` text: strip the literal frame and parse.
pub open spec fn spec_folders_obj(text: Seq<u8>) -> Option<Map<Seq<char>, JsonData>> {
    match json_parsed_of(
        spec_strip_wrapper(text, spec_folders_prefix(), spec_paren_semi_suffix()),
    ) {
        Some(JsonData::Obj(m)) => Some(m),
        _ => None,
    }
}

/// When reading a `folders.js` text succeeds: it parses as an object and
/// every member loads.
pub open spec fn spec_folders_ok(text: Seq<u8>) -> bool {
    match spec_folders_obj(text) {
        Some(m) => forall|k: Seq<char>|
            m.dom().contains(k) ==> spec_folder_entry_ok(#[trigger] m[k], k),
        None => false,
    }
}



/// Completeness of a loaded folder set: every member of the object has
/// an entry whose key is the member name's uuid.
pub open spec fn spec_folders_complete(m: Map<Seq<char>, JsonData>, fs: Seq<(Uuid, Folder)>) -> bool {
    forall|k: Seq<char>|
        m.dom().contains(k) ==> exists|t: int|
            0 <= t < fs.len() && Some((#[trigger] fs[t]).0.spec_value()) == spec_parse_uuid(
                encode_utf8(k),
            )
}

/// Whether one loaded entry comes from some member of the object: the
/// entry's key is the member name's uuid, its fields are copied and its
/// overview decoded.
pub open spec fn spec_folder_from_member(m: Map<Seq<char>, JsonData>, u: Uuid, f: Folder) -> bool {
    exists|k: Seq<char>|
        m.dom().contains(k) && Some(u.spec_value()) == spec_parse_uuid(
            #[trigger] encode_utf8(k),
        ) && spec_folder_entry_matches(m[k], f)
}

/// Soundness of a loaded folder set: every entry comes from a member of
/// the object.
pub open spec fn spec_folders_sound(m: Map<Seq<char>, JsonData>, fs: Seq<(Uuid, Folder)>) -> bool {
    forall|t: int|
        0 <= t < fs.len() ==> spec_folder_from_member(m, (#[trigger] fs[t]).0, fs[t].1)
}

proof fn lemma_folders_not_ok(text: Seq<u8>, m: Map<Seq<char>, JsonData>, k: Seq<char>)
    requires
        spec_folders_obj(text) == Some(m),
        m.dom().contains(k),
        !spec_folder_entry_ok(m[k], k),
    ensures
        !spec_folders_ok(text),
{
    if spec_folders_ok(text) {
        let mo = spec_folders_obj(text).unwrap();
        assert(mo == m);
        assert(spec_folder_entry_ok(mo[k], k));
        assert(false);
    }
}

/// One folder record as it stands in the file, its overview still in its
/// base64 text form.
pub struct FolderData {
    pub created: i64,
    /// The overview envelope, still base64 text.
    pub overview: Vec<u8>,
    pub tx: i64,
    pub updated: i64,
    pub uuid: Uuid,
    /// Whether this is a smart folder; absent in the file means false.
    pub smart: bool,
}

/// A folder, its overview decoded and ready to decrypt under the
/// overview key it carries.
pub struct Folder {
    pub created: i64,
    pub tx: i64,
    pub updated: i64,
    pub uuid: Uuid,
    pub smart: bool,
    /// The overview envelope, decoded from base64.
    pub overview: Vec<u8>,
    /// The vault's overview key.
    pub overview_key: OverviewKey,
}

/// A folder's decrypted overview. Smart folders also carry a predicate,
/// but its bytes are known to be malformed in real vaults and are not
/// interpreted here.
pub struct Overview {
    pub title: String,
}

/// When a folder overview's plaintext parses: a JSON object with a
/// string `title`.
pub open spec fn spec_folder_overview_ok(d: Seq<u8>) -> bool {
    json_parsed_of(d) matches Some(j) && (j matches JsonData::Obj(m) && json::spec_req_str(
        m,
        "title"@,
    ) is Some)
}

/// The title a folder overview's plaintext carries.
pub open spec fn spec_folder_overview_title(d: Seq<u8>) -> Option<Seq<char>> {
    match json_parsed_of(d) {
        Some(JsonData::Obj(m)) => json::spec_req_str(m, "title"@),
        _ => None,
    }
}

impl Overview {
    /// Parse a folder overview from decrypted JSON bytes. Success is
    /// owed exactly when the plaintext is an object with a string title.
    pub fn from_slice(d: &[u8]) -> (r: Result<Overview, Error>)
        ensures
            r is Ok == spec_folder_overview_ok(d@),
            r matches Ok(o) ==> Some(o.title@) == spec_folder_overview_title(d@),
            r matches Err(e) ==> e == Error::JsonError,
    {
        let v = match json::json_parse(d) {
            Some(v) => v,
            None => {
                return Err(Error::JsonError);
            },
        };
        let title = match json::json_get(&v, "title") {
            Some(x) => match json::json_str_string(x) {
                Some(s) => s,
                None => {
                    return Err(Error::JsonError);
                },
            },
            None => {
                return Err(Error::JsonError);
            },
        };
        Ok(Overview { title })
    }
}

impl Folder {
    pub open spec fn wf(self) -> bool {
        self.overview_key@.len() == 64
    }

    /// Decode a folder record's overview and pair it with the key that
    /// opens it.
    pub fn from_folder_data(d: FolderData, overview_key: &OverviewKey) -> (r: Result<
        Folder,
        Error,
    >)
        requires
            overview_key.wf(),
        ensures
            r is Ok <==> base64_decode_of(d.overview@) is Some,
            r matches Ok(f) ==> (Some(f.overview@) == base64_decode_of(d.overview@) && f.created
                == d.created && f.tx == d.tx && f.updated == d.updated && f.uuid == d.uuid
                && f.smart == d.smart && f.overview_key@ == overview_key@ && f.wf()),
            r matches Err(e) ==> e == Error::Base64Error,
    {
        let overview = match base64_decode(d.overview.as_slice()) {
            Some(v) => v,
            None => {
                return Err(Error::Base64Error);
            },
        };
        Ok(
            Folder {
                created: d.created,
                tx: d.tx,
                updated: d.updated,
                uuid: d.uuid,
                smart: d.smart,
                overview,
                overview_key: overview_key.clone(),
            },
        )
    }

    /// Decrypt this folder's overview under the overview key and parse
    /// its title.
    pub fn overview(&self) -> (r: Result<Overview, Error>)
        requires
            self.wf(),
        ensures
            r is Ok == (spec_decrypt(
                self.overview@,
                self.overview_key@.take(32),
                self.overview_key@.skip(32),
            ) matches Ok(pt) && spec_folder_overview_ok(pt)),
            r matches Ok(o) ==> (spec_decrypt(
                self.overview@,
                self.overview_key@.take(32),
                self.overview_key@.skip(32),
            ) matches Ok(pt) && Some(o.title@) == spec_folder_overview_title(pt)),
            spec_decrypt(
                self.overview@,
                self.overview_key@.take(32),
                self.overview_key@.skip(32),
            ) matches Err(de) ==> r == Err::<Overview, Error>(de),
    {
        let raw = match crate::opdata01::decrypt(
            self.overview.as_slice(),
            self.overview_key.encryption(),
            self.overview_key.verification(),
        ) {
            Ok(v) => v,
            Err(e) => {
                return Err(e);
            },
        };
        Overview::from_slice(raw.as_slice())
    }
}

/// Pull one folder record's fields out of its JSON object.
fn folder_data_from_json(v: &serde_json::Value) -> (r: Option<FolderData>)
    ensures
        r is Some == (json_data_of(*v) matches JsonData::Obj(m) && spec_folder_ok(m)),
        r matches Some(d) ==> (json_data_of(*v) matches JsonData::Obj(m)
            && spec_folder_record_matches(m, d)),
{
    let created = match json::json_get(v, "created") {
        Some(x) => match json::json_i64(x) {
            Some(n) => n,
            None => {
                return None;
            },
        },
        None => {
            return None;
        },
    };
    let overview = match json::json_get(v, "overview") {
        Some(x) => match json::json_str_bytes(x) {
            Some(b) => b,
            None => {
                return None;
            },
        },
        None => {
            return None;
        },
    };
    let tx = match json::json_get(v, "tx") {
        Some(x) => match json::json_i64(x) {
            Some(n) => n,
            None => {
                return None;
            },
        },
        None => {
            return None;
        },
    };
    let updated = match json::json_get(v, "updated") {
        Some(x) => match json::json_i64(x) {
            Some(n) => n,
            None => {
                return None;
            },
        },
        None => {
            return None;
        },
    };
    let uuid = match json::json_get(v, "uuid") {
        Some(x) => match json::json_str_bytes(x) {
            Some(b) => match Uuid::parse_bytes(b.as_slice()) {
                Ok(u) => u,
                Err(_) => {
                    return None;
                },
            },
            None => {
                return None;
            },
        },
        None => {
            return None;
        },
    };
    let smart = match json::json_get(v, "smart") {
        Some(x) => match json::json_bool(x) {
            Some(b) => b,
            None => {
                return None;
            },
        },
        None => false,
    };
    Some(FolderData { created, overview, tx, updated, uuid, smart })
}

/// Read the folder records, keyed by the uuid in each member's name. An
/// absent `folders.js` yields an empty set, not an error; the exact
/// literal frame `loadFolders(` / `);` is stripped and the remainder
/// parsed as strict JSON. Success is owed exactly when every member of
/// the object loads, and then the result holds one folder per member.
#[verifier::rlimit(100)]
pub fn read_folders(content: &Option<Vec<u8>>, overview_key: &OverviewKey) -> (r: Result<
    Vec<(Uuid, Folder)>,
    Error,
>)
    requires
        overview_key.wf(),
    ensures
        content is None ==> (r matches Ok(fs) && fs@.len() == 0),
        content matches Some(c) ==> r is Ok == spec_folders_ok(c@),
        r matches Ok(fs) ==> (forall|i: int|
            0 <= i < fs@.len() ==> ((#[trigger] fs@[i].1).wf() && fs@[i].1.overview_key@
                == overview_key@)),
        content matches Some(c) ==> (r matches Ok(fs) ==> (spec_folders_obj(c@) matches Some(m)
            && spec_folders_complete(m, fs@) && spec_folders_sound(m, fs@))),
        r matches Err(e) ==> (e == Error::JsonError || e == Error::Base64Error),
{
    let data = match content {
        Some(d) => d,
        None => {
            return Ok(Vec::new());
        },
    };
    // "loadFolders(" and ");"
    let prefix: [u8; 12] = [108, 111, 97, 100, 70, 111, 108, 100, 101, 114, 115, 40];
    let suffix: [u8; 2] = [41, 59];
    proof {
        assert(prefix@ =~= spec_folders_prefix());
        assert(suffix@ =~= spec_paren_semi_suffix());
    }
    let stripped = strip_wrapper(data.as_slice(), prefix.as_slice(), suffix.as_slice());
    let v = match json::json_parse(stripped.as_slice()) {
        Some(v) => v,
        None => {
            return Err(Error::JsonError);
        },
    };
    let keys = match json::json_object_keys(&v) {
        Some(ks) => ks,
        None => {
            return Err(Error::JsonError);
        },
    };
    let ghost m = spec_folders_obj(data@).unwrap();
    let mut out: Vec<(Uuid, Folder)> = Vec::new();
    let mut i: usize = 0;
    while i < keys.len()
        invariant
            overview_key.wf(),
            *content == Some(*data),
            spec_folders_obj(data@) == Some(m),
            json_data_of(v) == JsonData::Obj(m),
            forall|ki: int| 0 <= ki < keys@.len() ==> m.dom().contains((#[trigger] keys@[ki])@),
            forall|k: Seq<char>|
                m.dom().contains(k) ==> exists|ki: int|
                    0 <= ki < keys@.len() && (#[trigger] keys@[ki])@ == k,
            i <= keys@.len(),
            out@.len() == i,
            forall|ki: int|
                0 <= ki < i ==> spec_folder_entry_ok(m[(#[trigger] keys@[ki])@], keys@[ki]@),
            forall|ki: int|
                0 <= ki < i ==> (Some((#[trigger] out@[ki]).0.spec_value()) == spec_parse_uuid(
                    encode_utf8(keys@[ki]@),
                ) && spec_folder_entry_matches(m[keys@[ki]@], out@[ki].1) && out@[ki].1.wf()
                    && out@[ki].1.overview_key@ == overview_key@),
        decreases keys@.len() - i,
    {
        let key_str = &keys[i];
        let ghost kk = key_str@;
        let val = match json::json_get(&v, key_str.as_str()) {
            Some(x) => x,
            None => {
                proof {
                    assert(m.dom().contains(kk));
                    assert(false);
                }
                return Err(Error::JsonError);
            },
        };
        let data_rec = match folder_data_from_json(val) {
            Some(d) => d,
            None => {
                proof {
                    lemma_folders_not_ok(data@, m, kk);
                }
                return Err(Error::JsonError);
            },
        };
        let uuid = match Uuid::parse_bytes(key_str.as_str().as_bytes()) {
            Ok(u) => u,
            Err(_) => {
                proof {
                    lemma_folders_not_ok(data@, m, kk);
                }
                return Err(Error::JsonError);
            },
        };
        let folder = match Folder::from_folder_data(data_rec, overview_key) {
            Ok(f) => f,
            Err(e) => {
                proof {
                    lemma_folders_not_ok(data@, m, kk);
                }
                return Err(e);
            },
        };
        out.push((uuid, folder));
        i = i + 1;
    }
    proof {
        assert forall|k: Seq<char>| m.dom().contains(k) implies spec_folder_entry_ok(
            #[trigger] m[k],
            k,
        ) by {
            let ki = choose|ki: int| 0 <= ki < keys@.len() && (#[trigger] keys@[ki])@ == k;
            assert(spec_folder_entry_ok(m[keys@[ki]@], keys@[ki]@));
        }
        let mo = spec_folders_obj(data@).unwrap();
        assert(mo == m);
        assert forall|k: Seq<char>| mo.dom().contains(k) implies spec_folder_entry_ok(
            #[trigger] mo[k],
            k,
        ) by {
            assert(spec_folder_entry_ok(m[k], k));
        }
        assert(spec_folders_ok(data@));
        assert forall|k: Seq<char>| m.dom().contains(k) implies exists|t: int|
            0 <= t < out@.len() && Some((#[trigger] out@[t]).0.spec_value()) == spec_parse_uuid(
                encode_utf8(k),
            ) by {
            let ki = choose|ki: int| 0 <= ki < keys@.len() && (#[trigger] keys@[ki])@ == k;
            assert(0 <= ki < out@.len() && Some(out@[ki].0.spec_value()) == spec_parse_uuid(
                encode_utf8(k),
            ));
        }
        assert(spec_folders_complete(m, out@));
        assert forall|t: int| 0 <= t < out@.len() implies spec_folder_from_member(
            m,
            (#[trigger] out@[t]).0,
            out@[t].1,
        ) by {
            assert(m.dom().contains(keys@[t]@) && Some(out@[t].0.spec_value()) == spec_parse_uuid(
                encode_utf8(keys@[t]@),
            ) && spec_folder_entry_matches(m[keys@[t]@], out@[t].1));
        }
        assert(spec_folders_sound(m, out@));
    }
    Ok(out)
}

} // verus!
