//! Items: the records of the vault, partitioned into sixteen band files.
//!
//! The subtle part is the per-record HMAC: it is computed over a canonical
//! byte serialization — for each field in a fixed order, the UTF-8 bytes
//! of the field name followed by the rendered value — not over the JSON
//! text. The `trashed` boolean is rendered as the digit `1` or `0`, never
//! as `true`/`false`; absent optional fields contribute nothing.

use vstd::prelude::*;

use crate::attachment;
use crate::attachment::{Attachment, AttachmentData, AttachmentIterator};
use crate::b64::{base64_decode, base64_decode_of};
use crate::crypto;
use crate::crypto::{aes256_cbc_decrypt_of, hmac_sha256_of, spec_mac_matches, HMAC};
use crate::decimal::{i64_to_dec, spec_dec_int};
use crate::detail;
use crate::detail::Detail;
use crate::json;
use crate::json::{
    json_data_of, json_parsed_of, spec_opt_bool, spec_opt_bytes, spec_opt_i64, spec_req_bytes,
    spec_req_i64, JsonData,
};
use crate::key::{ItemKey, MasterKey, OverviewKey};
use crate::overview::Overview;
use crate::util::{spec_strip_wrapper, strip_wrapper};
use crate::uuid::{spec_parse_uuid, Uuid};
use crate::Error;

verus! {

use vstd::string::StringSliceAdditionalSpecFns;
use vstd::utf8::encode_utf8;

/// The kinds of items the format knows, resolved from three-digit string
/// codes.
#[derive(Debug, Clone, Copy, PartialEq, Eq, Structural)]
pub enum Category {
    Login,
    CreditCard,
    SecureNote,
    Identity,
    Password,
    Tombstone,
    SoftwareLicense,
    BankAccount,
    Database,
    DriverLicense,
    OutdoorLicense,
    Membership,
    Passport,
    Rewards,
    SSN,
    Router,
    Server,
    Email,
}

/// The category that a three-digit string code names, or nothing for any
/// other string: `001`..`005`, `099`, and `100`..`111`.
pub open spec fn spec_category_code(s: Seq<u8>) -> Option<Category> {
    if s.len() != 3 {
        None
    } else {
    if s[0] == 48 && s[1] == 48 && s[2] == 49 {
        Some(Category::Login)
    } else if s[0] == 48 && s[1] == 48 && s[2] == 50 {
        Some(Category::CreditCard)
    } else if s[0] == 48 && s[1] == 48 && s[2] == 51 {
        Some(Category::SecureNote)
    } else if s[0] == 48 && s[1] == 48 && s[2] == 52 {
        Some(Category::Identity)
    } else if s[0] == 48 && s[1] == 48 && s[2] == 53 {
        Some(Category::Password)
    } else if s[0] == 48 && s[1] == 57 && s[2] == 57 {
        Some(Category::Tombstone)
    } else if s[0] == 49 && s[1] == 48 && s[2] == 48 {
        Some(Category::SoftwareLicense)
    } else if s[0] == 49 && s[1] == 48 && s[2] == 49 {
        Some(Category::BankAccount)
    } else if s[0] == 49 && s[1] == 48 && s[2] == 50 {
        Some(Category::Database)
    } else if s[0] == 49 && s[1] == 48 && s[2] == 51 {
        Some(Category::DriverLicense)
    } else if s[0] == 49 && s[1] == 48 && s[2] == 52 {
        Some(Category::OutdoorLicense)
    } else if s[0] == 49 && s[1] == 48 && s[2] == 53 {
        Some(Category::Membership)
    } else if s[0] == 49 && s[1] == 48 && s[2] == 54 {
        Some(Category::Passport)
    } else if s[0] == 49 && s[1] == 48 && s[2] == 55 {
        Some(Category::Rewards)
    } else if s[0] == 49 && s[1] == 48 && s[2] == 56 {
        Some(Category::SSN)
    } else if s[0] == 49 && s[1] == 48 && s[2] == 57 {
        Some(Category::Router)
    } else if s[0] == 49 && s[1] == 49 && s[2] == 48 {
        Some(Category::Server)
    } else if s[0] == 49 && s[1] == 49 && s[2] == 49 {
        Some(Category::Email)
    } else {
        None
    }
    }
}

impl Category {
    /// Resolve a category from its string code; any other code is an
    /// item-format error.
    pub fn from_code(s: &[u8]) -> (r: Result<Category, Error>)
        ensures
            r matches Ok(c) ==> spec_category_code(s@) == Some(c),
            r is Err ==> spec_category_code(s@) is None,
            r matches Err(e) ==> e == Error::ItemError,
    {
        if s.len() != 3 {
            return Err(Error::ItemError);
        }
        let c0 = *vstd::slice::slice_index_get(s, 0);
        let c1 = *vstd::slice::slice_index_get(s, 1);
        let c2 = *vstd::slice::slice_index_get(s, 2);
    if c0 == 48 && c1 == 48 && c2 == 49 {
        Ok(Category::Login)
    } else if c0 == 48 && c1 == 48 && c2 == 50 {
        Ok(Category::CreditCard)
    } else if c0 == 48 && c1 == 48 && c2 == 51 {
        Ok(Category::SecureNote)
    } else if c0 == 48 && c1 == 48 && c2 == 52 {
        Ok(Category::Identity)
    } else if c0 == 48 && c1 == 48 && c2 == 53 {
        Ok(Category::Password)
    } else if c0 == 48 && c1 == 57 && c2 == 57 {
        Ok(Category::Tombstone)
    } else if c0 == 49 && c1 == 48 && c2 == 48 {
        Ok(Category::SoftwareLicense)
    } else if c0 == 49 && c1 == 48 && c2 == 49 {
        Ok(Category::BankAccount)
    } else if c0 == 49 && c1 == 48 && c2 == 50 {
        Ok(Category::Database)
    } else if c0 == 49 && c1 == 48 && c2 == 51 {
        Ok(Category::DriverLicense)
    } else if c0 == 49 && c1 == 48 && c2 == 52 {
        Ok(Category::OutdoorLicense)
    } else if c0 == 49 && c1 == 48 && c2 == 53 {
        Ok(Category::Membership)
    } else if c0 == 49 && c1 == 48 && c2 == 54 {
        Ok(Category::Passport)
    } else if c0 == 49 && c1 == 48 && c2 == 55 {
        Ok(Category::Rewards)
    } else if c0 == 49 && c1 == 48 && c2 == 56 {
        Ok(Category::SSN)
    } else if c0 == 49 && c1 == 48 && c2 == 57 {
        Ok(Category::Router)
    } else if c0 == 49 && c1 == 49 && c2 == 48 {
        Ok(Category::Server)
    } else if c0 == 49 && c1 == 49 && c2 == 49 {
        Ok(Category::Email)
    } else {
        Err(Error::ItemError)
    }
    }

    /// Resolve a category from its string code given as text.
    pub fn from_str(s: &str) -> (r: Result<Category, Error>)
        ensures
            r matches Ok(c) ==> spec_category_code(s.spec_bytes()) == Some(c),
            r is Err ==> spec_category_code(s.spec_bytes()) is None,
            r matches Err(e) ==> e == Error::ItemError,
    {
        Category::from_code(s.as_bytes())
    }
}

/// One item record as it stands in a band file: every base64 field still
/// in its text form, rendered values untouched.
pub struct ItemData {
    /// The category code, e.g. `001`.
    pub category: Vec<u8>,
    pub created: i64,
    /// The detail envelope, still base64 text.
    pub d: Vec<u8>,
    pub fave: Option<i64>,
    /// The folder uuid text, when the item sits in a folder.
    pub folder: Option<Vec<u8>>,
    /// The expected HMAC, still base64 text.
    pub hmac: Vec<u8>,
    /// The item key blob, still base64 text.
    pub k: Vec<u8>,
    /// The overview envelope, still base64 text.
    pub o: Vec<u8>,
    pub trashed: Option<bool>,
    pub tx: i64,
    pub updated: i64,
    /// The item uuid text.
    pub uuid: Vec<u8>,
}

/// The bytes of the field name `category`.
pub open spec fn lbl_category() -> Seq<u8> {
    seq![99u8, 97u8, 116u8, 101u8, 103u8, 111u8, 114u8, 121u8]
}

/// The bytes of the field name `created`.
pub open spec fn lbl_created() -> Seq<u8> {
    seq![99u8, 114u8, 101u8, 97u8, 116u8, 101u8, 100u8]
}

/// The bytes of the field name `d`.
pub open spec fn lbl_field_d() -> Seq<u8> {
    seq![100u8]
}

/// The bytes of the field name `fave`.
pub open spec fn lbl_fave() -> Seq<u8> {
    seq![102u8, 97u8, 118u8, 101u8]
}

/// The bytes of the field name `folder`.
pub open spec fn lbl_folder() -> Seq<u8> {
    seq![102u8, 111u8, 108u8, 100u8, 101u8, 114u8]
}

/// The bytes of the field name `k`.
pub open spec fn lbl_field_k() -> Seq<u8> {
    seq![107u8]
}

/// The bytes of the field name `o`.
pub open spec fn lbl_field_o() -> Seq<u8> {
    seq![111u8]
}

/// The bytes of the field name `trashed`.
pub open spec fn lbl_trashed() -> Seq<u8> {
    seq![116u8, 114u8, 97u8, 115u8, 104u8, 101u8, 100u8]
}

/// The bytes of the field name `tx`.
pub open spec fn lbl_tx() -> Seq<u8> {
    seq![116u8, 120u8]
}

/// The bytes of the field name `updated`.
pub open spec fn lbl_updated() -> Seq<u8> {
    seq![117u8, 112u8, 100u8, 97u8, 116u8, 101u8, 100u8]
}

/// The bytes of the field name `uuid`.
pub open spec fn lbl_uuid() -> Seq<u8> {
    seq![117u8, 117u8, 105u8, 100u8]
}

/// The canonical HMAC input of an item record: for each field in the
/// fixed order, the field name's bytes then the rendered value. `hmac`
/// itself is excluded; absent optional fields contribute nothing; the
/// `trashed` boolean is rendered as the digit `1` or `0`.
#[verifier::opaque]
pub open spec fn spec_canonical_item(d: ItemData) -> Seq<u8> {
    spec_canonical_prefix(d) + spec_trashed_piece(d.trashed) + spec_canonical_suffix(d)
}

/// The canonical serialization up to (not including) the `trashed`
/// field's contribution; it does not depend on `trashed` at all.
pub open spec fn spec_canonical_prefix(d: ItemData) -> Seq<u8> {
    lbl_category() + d.category@ + lbl_created() + spec_dec_int(d.created as int) + lbl_field_d()
        + d.d@ + (match d.fave {
        Some(f) => lbl_fave() + spec_dec_int(f as int),
        None => Seq::<u8>::empty(),
    }) + (match d.folder {
        Some(f) => lbl_folder() + f@,
        None => Seq::<u8>::empty(),
    }) + lbl_field_k() + d.k@ + lbl_field_o() + d.o@
}

/// What the `trashed` field contributes to the canonical serialization:
/// its name and the digit `1` or `0` when present, nothing when absent.
pub open spec fn spec_trashed_piece(t: Option<bool>) -> Seq<u8> {
    match t {
        Some(b) => lbl_trashed() + (if b {
            seq![49u8]
        } else {
            seq![48u8]
        }),
        None => Seq::<u8>::empty(),
    }
}

/// The canonical serialization after the `trashed` field's contribution;
/// it does not depend on `trashed` at all.
pub open spec fn spec_canonical_suffix(d: ItemData) -> Seq<u8> {
    lbl_tx() + spec_dec_int(d.tx as int) + lbl_updated() + spec_dec_int(d.updated as int)
        + lbl_uuid() + d.uuid@
}

/// Canonical rendering of `trashed`: a true boolean contributes the field
/// name and the single digit `1` to the HMAC input, false contributes the
/// digit `0`, and an absent field contributes nothing — never the words
/// `true` or `false`. Two records that differ only in `trashed` share
/// their prefix and suffix unchanged.
pub proof fn lemma_canonical_trashed(d1: ItemData, d2: ItemData)
    requires
        d1.category == d2.category,
        d1.created == d2.created,
        d1.d == d2.d,
        d1.fave == d2.fave,
        d1.folder == d2.folder,
        d1.k == d2.k,
        d1.o == d2.o,
        d1.tx == d2.tx,
        d1.updated == d2.updated,
        d1.uuid == d2.uuid,
    ensures
        spec_trashed_piece(Some(true)) == lbl_trashed() + seq![49u8],
        spec_trashed_piece(Some(false)) == lbl_trashed() + seq![48u8],
        spec_trashed_piece(None) == Seq::<u8>::empty(),
        spec_canonical_item(d1) == spec_canonical_prefix(d2) + spec_trashed_piece(d1.trashed)
            + spec_canonical_suffix(d2),
{
    reveal(spec_canonical_item);
    assert(spec_canonical_prefix(d1) == spec_canonical_prefix(d2));
    assert(spec_canonical_suffix(d1) == spec_canonical_suffix(d2));
}

/// Whether a record's stored HMAC is exactly the HMAC-SHA256 of its
/// canonical serialization under `mac_key`.
pub open spec fn spec_item_hmac_ok(d: ItemData, mac_key: Seq<u8>) -> bool {
    base64_decode_of(d.hmac@) == Some(hmac_sha256_of(mac_key, spec_canonical_item(d)))
}

impl ItemData {
    /// Recompute this record's HMAC over the canonical serialization and
    /// compare it with the stored one, under the given verification key.
    #[verifier::rlimit(50)]
    pub fn verify(&self, key: &[u8]) -> (r: Result<bool, Error>)
        ensures
            r matches Ok(b) ==> b == spec_item_hmac_ok(*self, key@),
            r is Ok ==> base64_decode_of(self.hmac@) is Some,
            r is Err ==> base64_decode_of(self.hmac@) is None,
            r matches Err(e) ==> e == Error::Base64Error,
    {
        let mut signer = HMAC::new(key);
        let l_category: [u8; 8] = [99, 97, 116, 101, 103, 111, 114, 121];
        let l_created: [u8; 7] = [99, 114, 101, 97, 116, 101, 100];
        let l_d: [u8; 1] = [100];
        let l_fave: [u8; 4] = [102, 97, 118, 101];
        let l_folder: [u8; 6] = [102, 111, 108, 100, 101, 114];
        let l_k: [u8; 1] = [107];
        let l_o: [u8; 1] = [111];
        let l_trashed: [u8; 7] = [116, 114, 97, 115, 104, 101, 100];
        let l_tx: [u8; 2] = [116, 120];
        let l_updated: [u8; 7] = [117, 112, 100, 97, 116, 101, 100];
        let l_uuid: [u8; 4] = [117, 117, 105, 100];
        let _ = signer.update(l_category.as_slice());
        let _ = signer.update(self.category.as_slice());
        let _ = signer.update(l_created.as_slice());
        let created = i64_to_dec(self.created);
        let _ = signer.update(created.as_slice());
        let _ = signer.update(l_d.as_slice());
        let _ = signer.update(self.d.as_slice());
        match &self.fave {
            Some(f) => {
                let _ = signer.update(l_fave.as_slice());
                let fave = i64_to_dec(*f);
                let _ = signer.update(fave.as_slice());
            },
            None => {},
        }
        match &self.folder {
            Some(f) => {
                let _ = signer.update(l_folder.as_slice());
                let _ = signer.update(f.as_slice());
            },
            None => {},
        }
        let _ = signer.update(l_k.as_slice());
        let _ = signer.update(self.k.as_slice());
        let _ = signer.update(l_o.as_slice());
        let _ = signer.update(self.o.as_slice());
        match &self.trashed {
            Some(t) => {
                let _ = signer.update(l_trashed.as_slice());
                let digit: [u8; 1] = if *t {
                    [49]
                } else {
                    [48]
                };
                let _ = signer.update(digit.as_slice());
            },
            None => {},
        }
        let _ = signer.update(l_tx.as_slice());
        let tx = i64_to_dec(self.tx);
        let _ = signer.update(tx.as_slice());
        let _ = signer.update(l_updated.as_slice());
        let updated = i64_to_dec(self.updated);
        let _ = signer.update(updated.as_slice());
        let _ = signer.update(l_uuid.as_slice());
        let _ = signer.update(self.uuid.as_slice());
        proof {
            reveal(spec_canonical_item);
            assert(signer.data() =~= spec_canonical_item(*self));
        }
        let actual = signer.sign();
        let expected = match base64_decode(self.hmac.as_slice()) {
            Some(v) => v,
            None => {
                return Err(Error::Base64Error);
            },
        };
        Ok(crate::util::bytes_eq(expected.as_slice(), actual.as_slice()))
    }
}

/// The uuids of the attachments that reference item `u`, in the order the
/// attachment records stand in.
pub open spec fn spec_attachment_uuids(atts: Seq<(AttachmentData, Vec<u8>)>, u: Uuid) -> Seq<Uuid>
    decreases atts.len(),
{
    if atts.len() == 0 {
        Seq::<Uuid>::empty()
    } else {
        spec_attachment_uuids(atts.drop_last(), u) + (if atts.last().0.item_uuid == u {
            seq![atts.last().0.uuid]
        } else {
            Seq::<Uuid>::empty()
        })
    }
}

/// Attachment linkage: an item's attachment list holds exactly the uuids
/// of the attachment records whose `itemUUID` names the item, whatever
/// their order on disk.
pub proof fn lemma_attachment_linkage(atts: Seq<(AttachmentData, Vec<u8>)>, u: Uuid)
    ensures
        forall|x: Uuid|
            #[trigger] spec_attachment_uuids(atts, u).contains(x) <==> exists|j: int|
                0 <= j < atts.len() && (#[trigger] atts[j]).0.item_uuid == u && atts[j].0.uuid == x,
    decreases atts.len(),
{
    if atts.len() > 0 {
        lemma_attachment_linkage(atts.drop_last(), u);
        assert forall|x: Uuid| #[trigger] spec_attachment_uuids(atts, u).contains(x) implies
            exists|j: int| 0 <= j < atts.len() && (#[trigger] atts[j]).0.item_uuid == u
                && atts[j].0.uuid == x by {
            let s = spec_attachment_uuids(atts, u);
            let pre = spec_attachment_uuids(atts.drop_last(), u);
            let i = choose|i: int| 0 <= i < s.len() && s[i] == x;
            if i < pre.len() {
                assert(pre.contains(x));
                let j = choose|j: int|
                    0 <= j < atts.drop_last().len() && (#[trigger] atts.drop_last()[j]).0.item_uuid
                        == u && atts.drop_last()[j].0.uuid == x;
                assert(atts[j] == atts.drop_last()[j]);
            } else {
                assert(atts.last().0.item_uuid == u && atts.last().0.uuid == x);
                assert(atts[atts.len() - 1] == atts.last());
            }
        }
        assert forall|x: Uuid|
            (exists|j: int|
                0 <= j < atts.len() && (#[trigger] atts[j]).0.item_uuid == u && atts[j].0.uuid
                    == x) implies #[trigger] spec_attachment_uuids(atts, u).contains(x) by {
            let s = spec_attachment_uuids(atts, u);
            let pre = spec_attachment_uuids(atts.drop_last(), u);
            let j = choose|j: int|
                0 <= j < atts.len() && (#[trigger] atts[j]).0.item_uuid == u && atts[j].0.uuid == x;
            if j < atts.len() - 1 {
                assert(atts.drop_last()[j] == atts[j]);
                assert(pre.contains(x));
                let i = choose|i: int| 0 <= i < pre.len() && pre[i] == x;
                assert(s[i] == x);
            } else {
                assert(s[s.len() - 1] == x);
            }
        }
    }
}

/// An item record with every field decoded, ready to decrypt, carrying
/// what it needs to reach its attachments and keys.
pub struct Item<'a> {
    pub category: Category,
    pub created: i64,
    /// The detail envelope, decoded from base64.
    pub d: Vec<u8>,
    pub folder: Option<Uuid>,
    /// The stored HMAC, decoded from base64.
    pub hmac: Vec<u8>,
    /// The item key blob, decoded from base64.
    pub k: Vec<u8>,
    /// The overview envelope, decoded from base64.
    pub o: Vec<u8>,
    pub tx: i64,
    pub updated: i64,
    pub uuid: Uuid,
    pub fave: Option<i64>,
    /// The uuids of the attachments that reference this item.
    pub attachments: Vec<Uuid>,
    /// The loaded attachment records of the vault.
    pub atts: &'a Vec<(AttachmentData, Vec<u8>)>,
    /// The vault's master key.
    pub master: &'a MasterKey,
    /// The vault's overview key.
    pub overview: &'a OverviewKey,
}

/// What unwrapping an item's key blob under the master key yields: the
/// blob must be IV (16) ‖ ciphertext (64) ‖ HMAC (32), its trailing tag
/// must match, and then the 64 decrypted bytes form the item key.
pub open spec fn spec_item_key(k: Seq<u8>, master: Seq<u8>) -> Result<Seq<u8>, Error> {
    if k.len() == 112 && spec_mac_matches(k, master.skip(32)) {
        Ok(aes256_cbc_decrypt_of(master.take(32), k.subrange(0, 16), k.subrange(16, 80)))
    } else {
        Err(Error::ItemError)
    }
}

/// Whether a raw record can be assembled into an `Item`: its uuids
/// parse, its category code is known, and its four base64 fields decode.
pub open spec fn spec_item_assembles(d: ItemData) -> bool {
    &&& spec_parse_uuid(d.uuid@) is Some
    &&& (match d.folder {
        Some(f) => spec_parse_uuid(f@) is Some,
        None => true,
    })
    &&& spec_category_code(d.category@) is Some
    &&& base64_decode_of(d.d@) is Some
    &&& base64_decode_of(d.hmac@) is Some
    &&& base64_decode_of(d.k@) is Some
    &&& base64_decode_of(d.o@) is Some
}

impl<'a> Item<'a> {
    pub open spec fn wf(self) -> bool {
        self.master@.len() == 64 && self.overview@.len() == 64
    }

    /// Assemble an item from its raw record: parse the uuids and the
    /// category, decode the base64 fields, and collect the uuids of the
    /// attachments that reference it.
    fn from_item_data(
        d: &ItemData,
        atts: &'a Vec<(AttachmentData, Vec<u8>)>,
        master: &'a MasterKey,
        overview: &'a OverviewKey,
    ) -> (r: Result<Item<'a>, Error>)
        requires
            master.wf(),
            overview.wf(),
        ensures
            r is Ok <==> spec_item_assembles(*d),
            r matches Ok(it) ==> (Some(it.uuid.spec_value()) == spec_parse_uuid(d.uuid@)
                && Some(it.category) == spec_category_code(d.category@)
                && Some(it.d@) == base64_decode_of(d.d@)
                && Some(it.hmac@) == base64_decode_of(d.hmac@)
                && Some(it.k@) == base64_decode_of(d.k@)
                && Some(it.o@) == base64_decode_of(d.o@)
                && it.created == d.created
                && it.tx == d.tx
                && it.updated == d.updated
                && it.fave == d.fave
                && (match d.folder {
                Some(f) => it.folder matches Some(u) && Some(u.spec_value()) == spec_parse_uuid(f@),
                None => it.folder is None,
            })
                && it.attachments@ == spec_attachment_uuids(atts@, it.uuid)
                && it.atts == atts
                && it.master@ == master@
                && it.overview@ == overview@
                && it.wf()),
            r matches Err(e) ==> (e == Error::UuidError || e == Error::ItemError || e
                == Error::Base64Error),
    {
        let uuid = match Uuid::parse_bytes(d.uuid.as_slice()) {
            Ok(u) => u,
            Err(e) => {
                return Err(e);
            },
        };
        let folder = match &d.folder {
            Some(f) => match Uuid::parse_bytes(f.as_slice()) {
                Ok(u) => Some(u),
                Err(e) => {
                    return Err(e);
                },
            },
            None => None,
        };
        let category = match Category::from_code(d.category.as_slice()) {
            Ok(c) => c,
            Err(e) => {
                return Err(e);
            },
        };
        let dd = match base64_decode(d.d.as_slice()) {
            Some(v) => v,
            None => {
                return Err(Error::Base64Error);
            },
        };
        let hmac = match base64_decode(d.hmac.as_slice()) {
            Some(v) => v,
            None => {
                return Err(Error::Base64Error);
            },
        };
        let k = match base64_decode(d.k.as_slice()) {
            Some(v) => v,
            None => {
                return Err(Error::Base64Error);
            },
        };
        let o = match base64_decode(d.o.as_slice()) {
            Some(v) => v,
            None => {
                return Err(Error::Base64Error);
            },
        };
        let mut attachments: Vec<Uuid> = Vec::new();
        let mut i: usize = 0;
        while i < atts.len()
            invariant
                i <= atts@.len(),
                attachments@ == spec_attachment_uuids(atts@.take(i as int), uuid),
            decreases atts@.len() - i,
        {
            if atts[i].0.item_uuid == uuid {
                attachments.push(atts[i].0.uuid);
            }
            proof {
                assert(atts@.take(i + 1).drop_last() =~= atts@.take(i as int));
                assert(atts@.take(i + 1).last() == atts@[i as int]);
            }
            i = i + 1;
        }
        proof {
            assert(atts@.take(atts@.len() as int) =~= atts@);
        }
        Ok(
            Item {
                category,
                created: d.created,
                d: dd,
                folder,
                hmac,
                k,
                o,
                tx: d.tx,
                updated: d.updated,
                uuid,
                fave: d.fave,
                attachments,
                atts,
                master,
                overview,
            },
        )
    }

    /// Unwrap this item's own key from its `k` blob under the master key:
    /// the trailing tag is verified first, then the 64 key bytes are
    /// decrypted.
    pub fn item_key(&self) -> (r: Result<ItemKey, Error>)
        requires
            self.wf(),
        ensures
            r is Ok == spec_item_key(self.k@, self.master@) is Ok,
            r matches Ok(key) ==> (spec_item_key(self.k@, self.master@) == Ok::<Seq<u8>, Error>(
                key@,
            ) && key.wf()),
            r matches Err(e) ==> e == Error::ItemError,
    {
        if self.k.len() != 112 {
            return Err(Error::ItemError);
        }
        let ok = match crypto::verify_data(self.k.as_slice(), self.master.verification()) {
            Ok(b) => b,
            Err(_) => {
                return Err(Error::ItemError);
            },
        };
        if !ok {
            return Err(Error::ItemError);
        }
        let iv = vstd::slice::slice_subrange(self.k.as_slice(), 0, 16);
        let ct = vstd::slice::slice_subrange(self.k.as_slice(), 16, 80);
        let keys = match crypto::decrypt_data(ct, self.master.encryption(), iv) {
            Ok(v) => v,
            Err(_) => {
                return Err(Error::ItemError);
            },
        };
        proof {
            assert(self.k@.subrange(0, 16) =~= self.k@.take(16));
        }
        Ok(ItemKey::from(keys))
    }

    /// Decrypt this item's detail: unwrap the item key, open the `d`
    /// envelope under it, and parse the plaintext as a login for login
    /// items, as the generic shape for every other category.
    pub fn detail(&self) -> (r: Result<Detail, Error>)
        requires
            self.wf(),
        ensures
            r is Ok ==> (spec_item_key(self.k@, self.master@) matches Ok(key)
                && crate::opdata01::spec_decrypt(self.d@, key.take(32), key.skip(32)) is Ok),
            r matches Ok(dt) ==> ((dt is Login) <==> self.category == Category::Login),
            spec_item_key(self.k@, self.master@) is Err ==> r == Err::<Detail, Error>(
                Error::ItemError,
            ),
            (match spec_item_key(self.k@, self.master@) {
                Ok(key) => (match crate::opdata01::spec_decrypt(
                    self.d@,
                    key.take(32),
                    key.skip(32),
                ) {
                    Err(de) => r == Err::<Detail, Error>(de),
                    Ok(_) => true,
                }),
                Err(_) => true,
            }),
    {
        let keys = match self.item_key() {
            Ok(k) => k,
            Err(e) => {
                return Err(e);
            },
        };
        let raw = match crate::opdata01::decrypt(
            self.d.as_slice(),
            keys.encryption(),
            keys.verification(),
        ) {
            Ok(v) => v,
            Err(e) => {
                return Err(e);
            },
        };
        if self.category == Category::Login {
            match detail::Login::from_slice(raw.as_slice()) {
                Ok(l) => Ok(Detail::Login(l)),
                Err(e) => Err(e),
            }
        } else {
            match detail::Generic::from_slice(raw.as_slice()) {
                Ok(g) => Ok(Detail::Generic(g)),
                Err(e) => Err(e),
            }
        }
    }

    /// Decrypt this item's overview under the overview key and parse it.
    pub fn overview(&self) -> (r: Result<Overview, Error>)
        requires
            self.wf(),
        ensures
            r is Ok ==> crate::opdata01::spec_decrypt(
                self.o@,
                self.overview@.take(32),
                self.overview@.skip(32),
            ) is Ok,
            crate::opdata01::spec_decrypt(
                self.o@,
                self.overview@.take(32),
                self.overview@.skip(32),
            ) matches Err(de) ==> r == Err::<Overview, Error>(de),
    {
        let raw = match crate::opdata01::decrypt(
            self.o.as_slice(),
            self.overview.encryption(),
            self.overview.verification(),
        ) {
            Ok(v) => v,
            Err(e) => {
                return Err(e);
            },
        };
        Overview::from_slice(raw.as_slice())
    }

    /// Fetch one attachment of this item by uuid, ready to decrypt under
    /// this item's key.
    pub fn get_attachment(&self, id: &Uuid) -> (r: Option<Attachment<'a>>)
        requires
            self.wf(),
        ensures
            r matches Some(a) ==> (a.uuid == *id && a.wf() && (spec_item_key(self.k@, self.master@)
                matches Ok(kk) && a.key@ == kk) && a.overview_key@ == self.overview@),
            (spec_item_key(self.k@, self.master@) is Ok && (exists|j: int|
                0 <= j < self.atts@.len() && (#[trigger] self.atts@[j]).0.uuid == *id) && (forall|
                j: int,
            |
                0 <= j < self.atts@.len() && (#[trigger] self.atts@[j]).0.uuid == *id
                    ==> base64_decode_of(self.atts@[j].0.overview@) is Some)) ==> r is Some,
    {
        let key = match self.item_key() {
            Ok(k) => k,
            Err(_) => {
                return None;
            },
        };
        match attachment::find_attachment_index(self.atts, *id) {
            Some(i) => match attachment::from_data(
                &self.atts[i].0,
                &self.atts[i].1,
                key,
                self.overview,
            ) {
                Ok(a) => Some(a),
                Err(_) => None,
            },
            None => None,
        }
    }

    /// Walk every attachment of this item, all decryptable under this
    /// item's key.
    pub fn get_attachments(&'a self) -> (r: Result<AttachmentIterator<'a>, Error>)
        requires
            self.wf(),
        ensures
            r is Ok == spec_item_key(self.k@, self.master@) is Ok,
            r matches Ok(it) ==> (it.wf() && it.spec_ids() == self.attachments@ && it.spec_idx()
                == 0 && spec_item_key(self.k@, self.master@) == Ok::<Seq<u8>, Error>(it.spec_key())
                && it.spec_overview_key() == self.overview@),
            r matches Err(e) ==> e == Error::ItemError,
    {
        let key = match self.item_key() {
            Ok(k) => k,
            Err(e) => {
                return Err(e);
            },
        };
        Ok(AttachmentIterator::new(&self.attachments, self.atts, key, self.overview))
    }
}

/// Assemble an item from its raw record.
pub fn item_from_data<'a>(
    d: &ItemData,
    atts: &'a Vec<(AttachmentData, Vec<u8>)>,
    master: &'a MasterKey,
    overview: &'a OverviewKey,
) -> (r: Result<Item<'a>, Error>)
    requires
        master.wf(),
        overview.wf(),
    ensures
        r is Ok <==> spec_item_assembles(*d),
        r matches Ok(it) ==> (Some(it.uuid.spec_value()) == spec_parse_uuid(d.uuid@)
            && Some(it.category) == spec_category_code(d.category@)
            && Some(it.d@) == base64_decode_of(d.d@)
            && Some(it.hmac@) == base64_decode_of(d.hmac@)
            && Some(it.k@) == base64_decode_of(d.k@)
            && Some(it.o@) == base64_decode_of(d.o@)
            && it.created == d.created
            && it.tx == d.tx
            && it.updated == d.updated
            && it.fave == d.fave
            && (match d.folder {
            Some(f) => it.folder matches Some(u) && Some(u.spec_value()) == spec_parse_uuid(f@),
            None => it.folder is None,
        })
            && it.attachments@ == spec_attachment_uuids(atts@, it.uuid)
            && it.atts == atts
            && it.master@ == master@
            && it.overview@ == overview@
            && it.wf()),
        r matches Err(e) ==> (e == Error::UuidError || e == Error::ItemError || e
            == Error::Base64Error),
{
    Item::from_item_data(d, atts, master, overview)
}


/// Whether a JSON object carries every item member with its right type.
pub open spec fn spec_item_ok(fm: Map<Seq<char>, JsonData>) -> bool {
    &&& spec_req_bytes(fm, "category"@) is Some
    &&& spec_req_i64(fm, "created"@) is Some
    &&& spec_req_bytes(fm, "d"@) is Some
    &&& spec_opt_i64(fm, "fave"@) is Some
    &&& spec_opt_bytes(fm, "folder"@) is Some
    &&& spec_req_bytes(fm, "hmac"@) is Some
    &&& spec_req_bytes(fm, "k"@) is Some
    &&& spec_req_bytes(fm, "o"@) is Some
    &&& spec_opt_bool(fm, "trashed"@) is Some
    &&& spec_req_i64(fm, "tx"@) is Some
    &&& spec_req_i64(fm, "updated"@) is Some
    &&& spec_req_bytes(fm, "uuid"@) is Some
}

/// How a raw item record relates to its JSON object: every field equals
/// the member of the same name.
pub open spec fn spec_item_record_matches(fm: Map<Seq<char>, JsonData>, d: ItemData) -> bool {
    &&& Some(d.category@) == spec_req_bytes(fm, "category"@)
    &&& Some(d.created) == spec_req_i64(fm, "created"@)
    &&& Some(d.d@) == spec_req_bytes(fm, "d"@)
    &&& spec_opt_i64(fm, "fave"@) == Some(d.fave)
    &&& spec_opt_bytes(fm, "folder"@) == Some(
        match d.folder {
            Some(f) => Some(f@),
            None => None::<Seq<u8>>,
        },
    )
    &&& Some(d.hmac@) == spec_req_bytes(fm, "hmac"@)
    &&& Some(d.k@) == spec_req_bytes(fm, "k"@)
    &&& Some(d.o@) == spec_req_bytes(fm, "o"@)
    &&& spec_opt_bool(fm, "trashed"@) == Some(d.trashed)
    &&& Some(d.tx) == spec_req_i64(fm, "tx"@)
    &&& Some(d.updated) == spec_req_i64(fm, "updated"@)
    &&& Some(d.uuid@) == spec_req_bytes(fm, "uuid"@)
}

/// Pull one item record's fields out of its JSON object.
fn item_data_from_json(v: &serde_json::Value) -> (r: Option<ItemData>)
    ensures
        r is Some == (json_data_of(*v) matches JsonData::Obj(fm) && spec_item_ok(fm)),
        r matches Some(d) ==> (json_data_of(*v) matches JsonData::Obj(fm)
            && spec_item_record_matches(fm, d)),
{
    let category = match json::json_get(v, "category") {
        Some(x) => match json::json_str_bytes(x) {
            Some(b) => b,
            None => {
                return None;
            },
        },
        None => {
            return None;
        },
    };
    let created = match json::json_get(v, "created") {
        Some(x) => match json::json_i64(x) {
            Some(n) => n,
            None => {
                return None;
            },
        },
        None => {
            return None;
        },
    };
    let d = match json::json_get(v, "d") {
        Some(x) => match json::json_str_bytes(x) {
            Some(b) => b,
            None => {
                return None;
            },
        },
        None => {
            return None;
        },
    };
    let fave = match json::json_get(v, "fave") {
        Some(x) => match json::json_i64(x) {
            Some(n) => Some(n),
            None => {
                return None;
            },
        },
        None => None,
    };
    let folder = match json::json_get(v, "folder") {
        Some(x) => match json::json_str_bytes(x) {
            Some(b) => Some(b),
            None => {
                return None;
            },
        },
        None => None,
    };
    let hmac = match json::json_get(v, "hmac") {
        Some(x) => match json::json_str_bytes(x) {
            Some(b) => b,
            None => {
                return None;
            },
        },
        None => {
            return None;
        },
    };
    let k = match json::json_get(v, "k") {
        Some(x) => match json::json_str_bytes(x) {
            Some(b) => b,
            None => {
                return None;
            },
        },
        None => {
            return None;
        },
    };
    let o = match json::json_get(v, "o") {
        Some(x) => match json::json_str_bytes(x) {
            Some(b) => b,
            None => {
                return None;
            },
        },
        None => {
            return None;
        },
    };
    let trashed = match json::json_get(v, "trashed") {
        Some(x) => match json::json_bool(x) {
            Some(b) => Some(b),
            None => {
                return None;
            },
        },
        None => None,
    };
    let tx = match json::json_get(v, "tx") {
        Some(x) => match json::json_i64(x) {
            Some(n) => n,
            None => {
                return None;
            },
        },
        None => {
            return None;
        },
    };
    let updated = match json::json_get(v, "updated") {
        Some(x) => match json::json_i64(x) {
            Some(n) => n,
            None => {
                return None;
            },
        },
        None => {
            return None;
        },
    };
    let uuid = match json::json_get(v, "uuid") {
        Some(x) => match json::json_str_bytes(x) {
            Some(b) => b,
            None => {
                return None;
            },
        },
        None => {
            return None;
        },
    };
    Some(ItemData { category, created, d, fave, folder, hmac, k, o, trashed, tx, updated, uuid })
}

/// Find the position of an entry keyed by the given uuid.
pub fn find_item_index(items: &Vec<(Uuid, ItemData)>, id: Uuid) -> (r: Option<usize>)
    ensures
        r matches Some(k) ==> (k < items@.len() && items@[k as int].0 == id),
        r is None ==> (forall|i: int| 0 <= i < items@.len() ==> (#[trigger] items@[i].0) != id),
{
    let mut k: usize = 0;
    while k < items.len()
        invariant
            k <= items@.len(),
            forall|i: int| 0 <= i < k ==> (#[trigger] items@[i].0) != id,
        decreases items@.len() - k,
    {
        if items[k].0 == id {
            return Some(k);
        }
        k = k + 1;
    }
    None
}


/// The bytes of the literal prefix `ld(`.
pub open spec fn spec_band_prefix() -> Seq<u8> {
    seq![108u8, 100u8, 40u8]
}

/// The bytes of the literal suffix `);`.
pub open spec fn spec_band_suffix() -> Seq<u8> {
    seq![41u8, 59u8]
}

/// The object of a band file's text: strip the literal frame and parse.
pub open spec fn spec_band_obj(text: Seq<u8>) -> Option<Map<Seq<char>, JsonData>> {
    match json_parsed_of(spec_strip_wrapper(text, spec_band_prefix(), spec_band_suffix())) {
        Some(JsonData::Obj(m)) => Some(m),
        _ => None,
    }
}

/// Whether one member of a band's object extracts: its name parses as a
/// uuid and the record has every member with its right type.
pub open spec fn spec_item_entry_parses(j: JsonData, k: Seq<char>) -> bool {
    &&& spec_parse_uuid(encode_utf8(k)) is Some
    &&& (j matches JsonData::Obj(fm) && spec_item_ok(fm))
}

/// Whether one member of a band's object reads: it extracts and its
/// stored HMAC text decodes from base64.
pub open spec fn spec_item_entry_ok(j: JsonData, k: Seq<char>) -> bool {
    &&& spec_item_entry_parses(j, k)
    &&& (j matches JsonData::Obj(fm) && base64_decode_of(
        spec_req_bytes(fm, "hmac"@).unwrap(),
    ) is Some)
}

/// When reading a band text succeeds: it parses as an object and every
/// member reads, whether or not its HMAC matches.
pub open spec fn spec_band_ok(text: Seq<u8>) -> bool {
    match spec_band_obj(text) {
        Some(m) => forall|k: Seq<char>|
            m.dom().contains(k) ==> spec_item_entry_ok(#[trigger] m[k], k),
        None => false,
    }
}


proof fn lemma_band_not_ok(text: Seq<u8>, m: Map<Seq<char>, JsonData>, k: Seq<char>)
    requires
        spec_band_obj(text) == Some(m),
        m.dom().contains(k),
        !spec_item_entry_ok(m[k], k),
    ensures
        !spec_band_ok(text),
{
    if spec_band_ok(text) {
        let mo = spec_band_obj(text).unwrap();
        assert(mo == m);
        assert(spec_item_entry_ok(mo[k], k));
        assert(false);
    }
}

/// Whether every record of an item collection carries a matching HMAC.
pub open spec fn spec_items_verified(items: Seq<(Uuid, ItemData)>, mac_key: Seq<u8>) -> bool {
    forall|i: int| 0 <= i < items.len() ==> spec_item_hmac_ok((#[trigger] items[i]).1, mac_key)
}

/// Whether no two entries of an item collection share a uuid key.
pub open spec fn spec_items_unique(items: Seq<(Uuid, ItemData)>) -> bool {
    forall|i: int, j: int|
        0 <= i < j < items.len() ==> (#[trigger] items[i]).0 != (#[trigger] items[j]).0
}

/// Read one band file: strip the exact literal frame `ld(` / `);`, parse
/// the JSON object keyed by uuid, and verify each record's HMAC under the
/// given verification key. Success is owed exactly when every member
/// reads; records whose HMAC does not match are silently dropped, and any
/// other failure propagates. A record read later replaces an earlier one
/// with the same uuid.
#[verifier::rlimit(100)]
#[verifier::spinoff_prover]
pub fn read_band(content: &[u8], mac_key: &[u8]) -> (r: Result<Vec<(Uuid, ItemData)>, Error>)
    ensures
        r is Ok == spec_band_ok(content@),
        r matches Ok(items) ==> (spec_items_verified(items@, mac_key@) && spec_items_unique(
            items@,
        )),
        r matches Err(e) ==> (e == Error::JsonError || e == Error::Base64Error),
{
    // "ld(" and ");"
    let prefix: [u8; 3] = [108, 100, 40];
    let suffix: [u8; 2] = [41, 59];
    proof {
        assert(prefix@ =~= spec_band_prefix());
        assert(suffix@ =~= spec_band_suffix());
    }
    let stripped = strip_wrapper(content, prefix.as_slice(), suffix.as_slice());
    let v = match json::json_parse(stripped.as_slice()) {
        Some(v) => v,
        None => {
            return Err(Error::JsonError);
        },
    };
    let keys = match json::json_object_keys(&v) {
        Some(ks) => ks,
        None => {
            return Err(Error::JsonError);
        },
    };
    let ghost m = spec_band_obj(content@).unwrap();
    let mut out: Vec<(Uuid, ItemData)> = Vec::new();
    let mut i: usize = 0;
    while i < keys.len()
        invariant
            spec_band_obj(content@) == Some(m),
            json_data_of(v) == JsonData::Obj(m),
            forall|ki: int| 0 <= ki < keys@.len() ==> m.dom().contains((#[trigger] keys@[ki])@),
            forall|k: Seq<char>|
                m.dom().contains(k) ==> exists|ki: int|
                    0 <= ki < keys@.len() && (#[trigger] keys@[ki])@ == k,
            i <= keys@.len(),
            forall|ki: int|
                0 <= ki < i ==> spec_item_entry_ok(m[(#[trigger] keys@[ki])@], keys@[ki]@),
            spec_items_verified(out@, mac_key@),
            spec_items_unique(out@),
        decreases keys@.len() - i,
    {
        let key_str = &keys[i];
        let ghost kk = key_str@;
        let val = match json::json_get(&v, key_str.as_str()) {
            Some(x) => x,
            None => {
                proof {
                    assert(m.dom().contains(kk));
                    assert(false);
                }
                return Err(Error::JsonError);
            },
        };
        let data = match item_data_from_json(val) {
            Some(d) => d,
            None => {
                proof {
                    lemma_band_not_ok(content@, m, kk);
                }
                return Err(Error::JsonError);
            },
        };
        let uuid = match Uuid::parse_bytes(key_str.as_str().as_bytes()) {
            Ok(u) => u,
            Err(_) => {
                proof {
                    lemma_band_not_ok(content@, m, kk);
                }
                return Err(Error::JsonError);
            },
        };
        let keep = match data.verify(mac_key) {
            Ok(b) => b,
            Err(e) => {
                proof {
                    lemma_band_not_ok(content@, m, kk);
                }
                return Err(e);
            },
        };
        proof {
            let fm = json_data_of(*val)->Obj_0;
            assert(spec_req_bytes(fm, "hmac"@).unwrap() == data.hmac@);
            assert(spec_item_entry_ok(m[kk], kk));
        }
        if keep {
            match find_item_index(&out, uuid) {
                Some(k) => {
                    out.set(k, (uuid, data));
                },
                None => {
                    out.push((uuid, data));
                },
            }
        }
        i = i + 1;
    }
    proof {
        assert forall|k: Seq<char>| m.dom().contains(k) implies spec_item_entry_ok(
            #[trigger] m[k],
            k,
        ) by {
            let ki = choose|ki: int| 0 <= ki < keys@.len() && (#[trigger] keys@[ki])@ == k;
            assert(spec_item_entry_ok(m[keys@[ki]@], keys@[ki]@));
        }
        let mo = spec_band_obj(content@).unwrap();
        assert(mo == m);
        assert forall|k: Seq<char>| mo.dom().contains(k) implies spec_item_entry_ok(
            #[trigger] mo[k],
            k,
        ) by {
            assert(spec_item_entry_ok(m[k], k));
        }
        assert(spec_band_ok(content@));
    }
    Ok(out)
}

/// Read the items of every band that is present. A missing band file is
/// handed in as `None` and contributes nothing — it is no error. Success
/// is owed exactly when every present band reads whole. A record read
/// later replaces an earlier one with the same uuid.
pub fn read_items(bands: &Vec<Option<Vec<u8>>>, mac_key: &[u8]) -> (r: Result<
    Vec<(Uuid, ItemData)>,
    Error,
>)
    ensures
        r is Ok == (forall|b: int|
            0 <= b < bands@.len() ==> ((#[trigger] bands@[b]) matches Some(c) ==> spec_band_ok(
                c@,
            ))),
        r matches Ok(items) ==> (spec_items_verified(items@, mac_key@) && spec_items_unique(
            items@,
        )),
        (forall|b: int| 0 <= b < bands@.len() ==> bands@[b] is None) ==> (r matches Ok(items)
            && items@.len() == 0),
        r matches Err(e) ==> (e == Error::JsonError || e == Error::Base64Error),
{
    let mut out: Vec<(Uuid, ItemData)> = Vec::new();
    let mut bi: usize = 0;
    while bi < bands.len()
        invariant
            spec_items_verified(out@, mac_key@),
            spec_items_unique(out@),
            (forall|b: int| 0 <= b < bands@.len() ==> bands@[b] is None) ==> out@.len() == 0,
            forall|b: int|
                0 <= b < bi ==> ((#[trigger] bands@[b]) matches Some(c) ==> spec_band_ok(c@)),
        decreases bands@.len() - bi,
    {
        match &bands[bi] {
            Some(content) => {
                let mut items = match read_band(content.as_slice(), mac_key) {
                    Ok(v) => v,
                    Err(e) => {
                        proof {
                            assert(bands@[bi as int] matches Some(c) && !spec_band_ok(c@));
                        }
                        return Err(e);
                    },
                };
                let ghost band_items = items@;
                let n = items.len();
                let mut j: usize = 0;
                while j < n
                    invariant
                        spec_items_verified(out@, mac_key@),
                        spec_items_unique(out@),
                        spec_items_verified(items@, mac_key@),
                        items@.len() + j == n,
                        (forall|b: int| 0 <= b < bands@.len() ==> bands@[b] is None)
                            ==> out@.len() == 0,
                        bi < bands@.len(),
                        bands@[bi as int] is Some,
                    decreases n - j,
                {
                    let entry = items.remove(0);
                    match find_item_index(&out, entry.0) {
                        Some(k) => {
                            out.set(k, entry);
                        },
                        None => {
                            out.push(entry);
                        },
                    }
                    proof {
                        if forall|b: int| 0 <= b < bands@.len() ==> bands@[b] is None {
                            assert(bands@[bi as int] is None);
                            assert(false);
                        }
                    }
                    j = j + 1;
                }
            },
            None => {},
        }
        bi = bi + 1;
    }
    Ok(out)
}

/// Walks the loaded item records, handing out one assembled item per
/// step.
pub struct ItemIterator<'a> {
    pub items: &'a Vec<(Uuid, ItemData)>,
    pub master: &'a MasterKey,
    pub overview: &'a OverviewKey,
    pub atts: &'a Vec<(AttachmentData, Vec<u8>)>,
    pub idx: usize,
}

impl<'a> ItemIterator<'a> {
    /// Both keys are whole, and every record this iterator walks carries
    /// an HMAC that matches under the overview verification key.
    pub open spec fn wf(self) -> bool {
        self.master@.len() == 64 && self.overview@.len() == 64 && spec_items_verified(
            self.items@,
            self.overview@.skip(32),
        )
    }

    /// The next item: assembles the record under the cursor; nothing when
    /// the walk is over or the record cannot be assembled.
    pub fn next(&mut self) -> (r: Option<Item<'a>>)
        requires
            old(self).wf(),
        ensures
            final(self).wf(),
            final(self).items == old(self).items,
            final(self).master == old(self).master,
            final(self).overview == old(self).overview,
            final(self).atts == old(self).atts,
            final(self).idx == if old(self).idx < old(self).items@.len() {
                old(self).idx + 1
            } else {
                old(self).idx as int
            },
            r matches Some(it) ==> (old(self).idx < old(self).items@.len() && it.wf() && Some(
                it.uuid.spec_value(),
            ) == spec_parse_uuid(old(self).items@[old(self).idx as int].1.uuid@) && it.master@
                == old(self).master@ && it.overview@ == old(self).overview@ && it.attachments@
                == spec_attachment_uuids(old(self).atts@, it.uuid) && spec_item_hmac_ok(
                old(self).items@[old(self).idx as int].1,
                old(self).overview@.skip(32),
            )),
            (old(self).idx < old(self).items@.len() && spec_item_assembles(
                old(self).items@[old(self).idx as int].1,
            )) ==> r is Some,
    {
        if self.idx >= self.items.len() {
            return None;
        }
        let entry = &self.items[self.idx];
        self.idx = self.idx + 1;
        match Item::from_item_data(&entry.1, self.atts, self.master, self.overview) {
            Ok(it) => Some(it),
            Err(_) => None,
        }
    }
}

} // verus!
