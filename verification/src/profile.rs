//! The vault's profile record: the salt, the iteration count and the two
//! sealed key blobs, read from `profile.js`.
//!
//! The file is JavaScript of the exact shape `var profile=<json>;`. The
//! literal prefix and suffix are stripped — the file is never evaluated —
//! and the remainder is parsed as strict JSON.

use vstd::prelude::*;

use crate::b64::{base64_decode, base64_decode_of};
use crate::json;
use crate::json::{
    json_data_of, json_parsed_of, spec_opt_str, spec_req_bytes, spec_req_i64, spec_req_str,
    spec_req_u64, JsonData,
};
use crate::util::{spec_strip_wrapper, strip_wrapper};
use crate::Error;

verus! {

/// The bytes of the literal prefix `var profile=`.
pub open spec fn spec_profile_prefix() -> Seq<u8> {
    seq![118u8, 97u8, 114u8, 32u8, 112u8, 114u8, 111u8, 102u8, 105u8, 108u8, 101u8, 61u8]
}

/// The bytes of the literal suffix `;`.
pub open spec fn spec_semi_suffix() -> Seq<u8> {
    seq![59u8]
}

/// Whether a JSON object carries every profile member with its right
/// type: the strings, the two timestamps, the unsigned iteration count,
/// the three base64 texts, and an optional password hint.
pub open spec fn spec_profile_ok(m: Map<Seq<char>, JsonData>) -> bool {
    &&& spec_req_str(m, "lastUpdatedBy"@) is Some
    &&& spec_req_i64(m, "updatedAt"@) is Some
    &&& spec_req_str(m, "profileName"@) is Some
    &&& spec_req_bytes(m, "salt"@) is Some
    &&& spec_opt_str(m, "passwordHint"@) is Some
    &&& spec_req_bytes(m, "masterKey"@) is Some
    &&& spec_req_u64(m, "iterations"@) is Some
    &&& spec_req_str(m, "uuid"@) is Some
    &&& spec_req_bytes(m, "overviewKey"@) is Some
    &&& spec_req_i64(m, "createdAt"@) is Some
}

/// The profile object of a `profile.js` text: strip the literal frame,
/// parse, and demand every member; nothing on any failure.
pub open spec fn spec_profile_obj(text: Seq<u8>) -> Option<Map<Seq<char>, JsonData>> {
    match json_parsed_of(spec_strip_wrapper(text, spec_profile_prefix(), spec_semi_suffix())) {
        Some(JsonData::Obj(m)) => if spec_profile_ok(m) {
            Some(m)
        } else {
            None
        },
        _ => None,
    }
}

/// When reading a `profile.js` text succeeds: its object parses whole
/// and the salt and both key blobs decode from base64.
pub open spec fn spec_profile_result_ok(text: Seq<u8>) -> bool {
    spec_profile_obj(text) matches Some(m) && base64_decode_of(
        spec_req_bytes(m, "salt"@).unwrap(),
    ) is Some && base64_decode_of(spec_req_bytes(m, "masterKey"@).unwrap()) is Some
        && base64_decode_of(spec_req_bytes(m, "overviewKey"@).unwrap()) is Some
}

/// How a returned `Profile` relates to the `profile.js` text it was read
/// from: every field copied or decoded from the member of the same name.
pub open spec fn spec_profile_matches(text: Seq<u8>, p: Profile) -> bool {
    spec_profile_obj(text) matches Some(m) && {
        &&& Some(p.last_updated_by@) == spec_req_str(m, "lastUpdatedBy"@)
        &&& Some(p.updated_at) == spec_req_i64(m, "updatedAt"@)
        &&& Some(p.profile_name@) == spec_req_str(m, "profileName"@)
        &&& Some(p.salt@) == base64_decode_of(spec_req_bytes(m, "salt"@).unwrap())
        &&& spec_opt_str(m, "passwordHint"@) == Some(
            match p.password_hint {
                Some(h) => Some(h@),
                None => None::<Seq<char>>,
            },
        )
        &&& Some(p.master_key@) == base64_decode_of(spec_req_bytes(m, "masterKey"@).unwrap())
        &&& Some(p.iterations) == spec_req_u64(m, "iterations"@)
        &&& Some(p.uuid@) == spec_req_str(m, "uuid"@)
        &&& Some(p.overview_key@) == base64_decode_of(spec_req_bytes(m, "overviewKey"@).unwrap())
        &&& Some(p.created_at) == spec_req_i64(m, "createdAt"@)
    }
}

/// The profile fields as they stand in the file: the salt and the two key
/// blobs still in their base64 text form.
struct ProfileData {
    last_updated_by: String,
    updated_at: i64,
    profile_name: String,
    salt: Vec<u8>,
    password_hint: Option<String>,
    master_key: Vec<u8>,
    iterations: u64,
    uuid: String,
    overview_key: Vec<u8>,
    created_at: i64,
}

/// The information for a profile. This includes the encrypted master and
/// overview key blobs, which unseal the keys for item details and for
/// superficial (overview) data respectively.
pub struct Profile {
    pub last_updated_by: String,
    pub updated_at: i64,
    pub profile_name: String,
    /// The PBKDF2 salt, decoded.
    pub salt: Vec<u8>,
    pub password_hint: Option<String>,
    /// The master key's `opdata01` envelope, decoded from base64.
    pub master_key: Vec<u8>,
    pub iterations: u64,
    pub uuid: String,
    /// The overview key's `opdata01` envelope, decoded from base64.
    pub overview_key: Vec<u8>,
    pub created_at: i64,
}

/// Decode the three base64 fields of a profile record.
fn from_profile_data(d: ProfileData) -> (r: Result<Profile, Error>)
    ensures
        r is Ok <==> (base64_decode_of(d.salt@) is Some && base64_decode_of(d.master_key@) is Some
            && base64_decode_of(d.overview_key@) is Some),
        r matches Ok(p) ==> (Some(p.salt@) == base64_decode_of(d.salt@)
            && Some(p.master_key@) == base64_decode_of(d.master_key@)
            && Some(p.overview_key@) == base64_decode_of(d.overview_key@)
            && p.last_updated_by@ == d.last_updated_by@
            && p.updated_at == d.updated_at
            && p.profile_name@ == d.profile_name@
            && p.password_hint == d.password_hint
            && p.iterations == d.iterations
            && p.uuid@ == d.uuid@
            && p.created_at == d.created_at),
        r matches Err(e) ==> e == Error::Base64Error,
{
    let salt = match base64_decode(d.salt.as_slice()) {
        Some(v) => v,
        None => {
            return Err(Error::Base64Error);
        },
    };
    let master_key = match base64_decode(d.master_key.as_slice()) {
        Some(v) => v,
        None => {
            return Err(Error::Base64Error);
        },
    };
    let overview_key = match base64_decode(d.overview_key.as_slice()) {
        Some(v) => v,
        None => {
            return Err(Error::Base64Error);
        },
    };
    Ok(
        Profile {
            last_updated_by: d.last_updated_by,
            updated_at: d.updated_at,
            profile_name: d.profile_name,
            salt,
            password_hint: d.password_hint,
            master_key,
            iterations: d.iterations,
            uuid: d.uuid,
            overview_key,
            created_at: d.created_at,
        },
    )
}

/// Pull the profile fields out of the parsed JSON document; any missing
/// required member or wrong member type yields nothing.
fn profile_data_from_json(v: &serde_json::Value) -> (r: Option<ProfileData>)
    ensures
        r is Some == (json_data_of(*v) matches JsonData::Obj(m) && spec_profile_ok(m)),
        r matches Some(pd) ==> (json_data_of(*v) matches JsonData::Obj(m) && {
            &&& Some(pd.last_updated_by@) == spec_req_str(m, "lastUpdatedBy"@)
            &&& Some(pd.updated_at) == spec_req_i64(m, "updatedAt"@)
            &&& Some(pd.profile_name@) == spec_req_str(m, "profileName"@)
            &&& Some(pd.salt@) == spec_req_bytes(m, "salt"@)
            &&& spec_opt_str(m, "passwordHint"@) == Some(
                match pd.password_hint {
                    Some(h) => Some(h@),
                    None => None::<Seq<char>>,
                },
            )
            &&& Some(pd.master_key@) == spec_req_bytes(m, "masterKey"@)
            &&& Some(pd.iterations) == spec_req_u64(m, "iterations"@)
            &&& Some(pd.uuid@) == spec_req_str(m, "uuid"@)
            &&& Some(pd.overview_key@) == spec_req_bytes(m, "overviewKey"@)
            &&& Some(pd.created_at) == spec_req_i64(m, "createdAt"@)
        }),
{
    let last_updated_by = match json::json_get(v, "lastUpdatedBy") {
        Some(x) => match json::json_str_string(x) {
            Some(s) => s,
            None => {
                return None;
            },
        },
        None => {
            return None;
        },
    };
    let updated_at = match json::json_get(v, "updatedAt") {
        Some(x) => match json::json_i64(x) {
            Some(n) => n,
            None => {
                return None;
            },
        },
        None => {
            return None;
        },
    };
    let profile_name = match json::json_get(v, "profileName") {
        Some(x) => match json::json_str_string(x) {
            Some(s) => s,
            None => {
                return None;
            },
        },
        None => {
            return None;
        },
    };
    let salt = match json::json_get(v, "salt") {
        Some(x) => match json::json_str_bytes(x) {
            Some(s) => s,
            None => {
                return None;
            },
        },
        None => {
            return None;
        },
    };
    let password_hint = match json::json_get(v, "passwordHint") {
        Some(x) => match json::json_str_string(x) {
            Some(s) => Some(s),
            None => {
                return None;
            },
        },
        None => None,
    };
    let master_key = match json::json_get(v, "masterKey") {
        Some(x) => match json::json_str_bytes(x) {
            Some(s) => s,
            None => {
                return None;
            },
        },
        None => {
            return None;
        },
    };
    let iterations = match json::json_get(v, "iterations") {
        Some(x) => match json::json_u64(x) {
            Some(n) => n,
            None => {
                return None;
            },
        },
        None => {
            return None;
        },
    };
    let uuid = match json::json_get(v, "uuid") {
        Some(x) => match json::json_str_string(x) {
            Some(s) => s,
            None => {
                return None;
            },
        },
        None => {
            return None;
        },
    };
    let overview_key = match json::json_get(v, "overviewKey") {
        Some(x) => match json::json_str_bytes(x) {
            Some(s) => s,
            None => {
                return None;
            },
        },
        None => {
            return None;
        },
    };
    let created_at = match json::json_get(v, "createdAt") {
        Some(x) => match json::json_i64(x) {
            Some(n) => n,
            None => {
                return None;
            },
        },
        None => {
            return None;
        },
    };
    Some(
        ProfileData {
            last_updated_by,
            updated_at,
            profile_name,
            salt,
            password_hint,
            master_key,
            iterations,
            uuid,
            overview_key,
            created_at,
        },
    )
}

/// Read a profile from the raw contents of `profile.js`: strip the exact
/// literal frame `var profile=` / `;`, parse the JSON, and base64-decode
/// the salt and the two key blobs.
pub fn read_profile(data: &[u8]) -> (r: Result<Profile, Error>)
    ensures
        r is Ok == spec_profile_result_ok(data@),
        r matches Ok(p) ==> spec_profile_matches(data@, p),
        r matches Err(e) ==> (if spec_profile_obj(data@) is None {
            e == Error::JsonError
        } else {
            e == Error::Base64Error
        }),
{
    // "var profile="
    let prefix: [u8; 12] = [118, 97, 114, 32, 112, 114, 111, 102, 105, 108, 101, 61];
    let suffix: [u8; 1] = [59];
    proof {
        assert(prefix@ =~= spec_profile_prefix());
        assert(suffix@ =~= spec_semi_suffix());
    }
    let stripped = strip_wrapper(data, prefix.as_slice(), suffix.as_slice());
    let v = match json::json_parse(stripped.as_slice()) {
        Some(v) => v,
        None => {
            return Err(Error::JsonError);
        },
    };
    let pd = match profile_data_from_json(&v) {
        Some(pd) => pd,
        None => {
            return Err(Error::JsonError);
        },
    };
    from_profile_data(pd)
}

} // verus!
