//! Attachments: `OPCLDAT` files sitting beside the band files.
//!
//! Each attachment file carries a 16-byte header, JSON metadata, an icon
//! `opdata01` envelope and a content envelope. The metadata's overview is
//! sealed under the overview key; icon and content are sealed under the
//! owning item's key.

use vstd::prelude::*;

use crate::b64::{base64_decode, base64_decode_of};
use crate::json;
use crate::json::{
    json_data_of, json_parsed_of, spec_opt_bool, spec_req_bytes, spec_req_i64, spec_req_u64,
    JsonData,
};
use crate::key::{ItemKey, OverviewKey};
use crate::opcldat::{read_header, spec_read_header};
use crate::opdata01::{decrypt, spec_decrypt};
use crate::util::subvec;
use crate::uuid::{spec_parse_uuid, Uuid};
use crate::Error;

verus! {

/// Whether a JSON object carries every attachment-metadata member with
/// its right type, the two uuids parsing.
pub open spec fn spec_attachment_meta_ok(am: Map<Seq<char>, JsonData>) -> bool {
    &&& (spec_req_bytes(am, "itemUUID"@) matches Some(b) && spec_parse_uuid(b) is Some)
    &&& spec_req_u64(am, "contentsSize"@) is Some
    &&& spec_opt_bool(am, "external"@) is Some
    &&& spec_req_i64(am, "updatedAt"@) is Some
    &&& spec_req_i64(am, "txTimestamp"@) is Some
    &&& spec_req_bytes(am, "overview"@) is Some
    &&& spec_req_i64(am, "createdAt"@) is Some
    &&& (spec_req_bytes(am, "uuid"@) matches Some(b2) && spec_parse_uuid(b2) is Some)
}

/// How parsed attachment metadata relates to its JSON object.
pub open spec fn spec_attachment_matches(am: Map<Seq<char>, JsonData>, d: AttachmentData) -> bool {
    &&& (spec_req_bytes(am, "itemUUID"@) matches Some(b) && Some(d.item_uuid.spec_value())
        == spec_parse_uuid(b))
    &&& Some(d.contents_size) == spec_req_u64(am, "contentsSize"@)
    &&& spec_opt_bool(am, "external"@) == Some(d.external)
    &&& Some(d.updated_at) == spec_req_i64(am, "updatedAt"@)
    &&& Some(d.tx_timestamp) == spec_req_i64(am, "txTimestamp"@)
    &&& Some(d.overview@) == spec_req_bytes(am, "overview"@)
    &&& Some(d.created_at) == spec_req_i64(am, "createdAt"@)
    &&& (spec_req_bytes(am, "uuid"@) matches Some(b2) && Some(d.uuid.spec_value())
        == spec_parse_uuid(b2))
}

/// The metadata object of an attachment file: a whole header, enough
/// bytes for the metadata, and that slice parsing as a JSON object.
pub open spec fn spec_attachment_obj(data: Seq<u8>) -> Option<Map<Seq<char>, JsonData>> {
    match spec_read_header(data) {
        Ok(h) => if 16 + h.metadata_size <= data.len() {
            match json_parsed_of(data.subrange(16, 16 + h.metadata_size)) {
                Some(JsonData::Obj(am)) => Some(am),
                _ => None,
            }
        } else {
            None
        },
        Err(_) => None,
    }
}

/// When reading one attachment file's metadata succeeds.
pub open spec fn spec_attachment_ok(data: Seq<u8>) -> bool {
    spec_attachment_obj(data) matches Some(am) && spec_attachment_meta_ok(am)
}

/// The metadata of one attachment file, with the overview still in its
/// base64 text form and the file's raw bytes kept beside it.
pub struct AttachmentData {
    pub item_uuid: Uuid,
    pub contents_size: u64,
    pub external: Option<bool>,
    pub updated_at: i64,
    pub tx_timestamp: i64,
    /// The overview envelope, still base64 text.
    pub overview: Vec<u8>,
    pub created_at: i64,
    pub uuid: Uuid,
}

/// An attachment ready to decrypt: metadata plus the keys and the raw
/// file bytes it needs.
pub struct Attachment<'a> {
    pub item: Uuid,
    pub contents_size: u64,
    pub external: Option<bool>,
    pub updated_at: i64,
    pub tx_timestamp: i64,
    /// The overview envelope, decoded from base64.
    pub overview: Vec<u8>,
    pub created_at: i64,
    pub uuid: Uuid,
    /// The raw bytes of the attachment file.
    pub data: &'a Vec<u8>,
    /// The owning item's key.
    pub key: ItemKey,
    /// The vault's overview key.
    pub overview_key: &'a OverviewKey,
}

/// The bytes of the icon envelope inside an attachment file: right after
/// the metadata, as long as the header's icon length says.
pub open spec fn spec_icon_slice(data: Seq<u8>) -> Result<Seq<u8>, Error> {
    match spec_read_header(data) {
        Err(e) => Err(e),
        Ok(h) => if 16 + h.metadata_size + h.icon_size <= data.len() {
            Ok(data.subrange(16 + h.metadata_size, 16 + h.metadata_size + h.icon_size))
        } else {
            Err(Error::IoError)
        },
    }
}

/// The bytes of the content envelope inside an attachment file: from the
/// end of the icon to the end of the file.
pub open spec fn spec_content_slice(data: Seq<u8>) -> Result<Seq<u8>, Error> {
    match spec_read_header(data) {
        Err(e) => Err(e),
        Ok(h) => if 16 + h.metadata_size + h.icon_size <= data.len() {
            Ok(data.subrange(16 + h.metadata_size + h.icon_size, data.len() as int))
        } else {
            Err(Error::IoError)
        },
    }
}

/// What decrypting a carved-out envelope slice yields: the slicing error,
/// or the envelope's own result under the enc‖mac halves of `key`.
pub open spec fn spec_decrypt_slice(sliced: Result<Seq<u8>, Error>, key: Seq<u8>) -> Result<
    Seq<u8>,
    Error,
> {
    match sliced {
        Err(e) => Err(e),
        Ok(s) => spec_decrypt(s, key.take(32), key.skip(32)),
    }
}

impl<'a> Attachment<'a> {
    /// The item key this attachment decrypts its icon and content under.
    pub open spec fn spec_key(self) -> Seq<u8> {
        self.key@
    }

    /// The overview key this attachment decrypts its overview under.
    pub open spec fn spec_overview_key(self) -> Seq<u8> {
        self.overview_key@
    }

    /// The raw bytes of the attachment file.
    pub open spec fn spec_data(self) -> Seq<u8> {
        self.data@
    }

    pub open spec fn wf(self) -> bool {
        self.spec_key().len() == 64 && self.spec_overview_key().len() == 64
    }

    /// Decrypt the attachment's overview under the overview key.
    pub fn decrypt_overview(&self) -> (r: Result<Vec<u8>, Error>)
        requires
            self.wf(),
        ensures
            r is Ok == spec_decrypt(
                self.overview@,
                self.spec_overview_key().take(32),
                self.spec_overview_key().skip(32),
            ) is Ok,
            r matches Ok(v) ==> spec_decrypt(
                self.overview@,
                self.spec_overview_key().take(32),
                self.spec_overview_key().skip(32),
            ) == Ok::<Seq<u8>, Error>(v@),
            r matches Err(e) ==> spec_decrypt(
                self.overview@,
                self.spec_overview_key().take(32),
                self.spec_overview_key().skip(32),
            ) == Err::<Seq<u8>, Error>(e),
    {
        decrypt(self.overview.as_slice(), self.overview_key.encryption(), self.overview_key.verification())
    }

    /// Decrypt the attachment's icon under the owning item's key.
    pub fn decrypt_icon(&self) -> (r: Result<Vec<u8>, Error>)
        requires
            self.wf(),
        ensures
            r is Ok == spec_decrypt_slice(spec_icon_slice(self.spec_data()), self.spec_key()) is Ok,
            r matches Ok(v) ==> spec_decrypt_slice(spec_icon_slice(self.spec_data()), self.spec_key())
                == Ok::<Seq<u8>, Error>(v@),
            r matches Err(e) ==> spec_decrypt_slice(spec_icon_slice(self.spec_data()), self.spec_key())
                == Err::<Seq<u8>, Error>(e),
    {
        let header = match read_header(self.data.as_slice()) {
            Ok(h) => h,
            Err(e) => {
                return Err(e);
            },
        };
        let m = header.metadata_size as usize;
        let i = header.icon_size as usize;
        if self.data.len() < 16 || self.data.len() - 16 < m || self.data.len() - 16 - m < i {
            return Err(Error::IoError);
        }
        let icon = vstd::slice::slice_subrange(self.data.as_slice(), 16 + m, 16 + m + i);
        decrypt(icon, self.key.encryption(), self.key.verification())
    }

    /// Decrypt the attachment's content under the owning item's key.
    pub fn decrypt_content(&self) -> (r: Result<Vec<u8>, Error>)
        requires
            self.wf(),
        ensures
            r is Ok == spec_decrypt_slice(spec_content_slice(self.spec_data()), self.spec_key())
                is Ok,
            r matches Ok(v) ==> spec_decrypt_slice(
                spec_content_slice(self.spec_data()),
                self.spec_key(),
            ) == Ok::<Seq<u8>, Error>(v@),
            r matches Err(e) ==> spec_decrypt_slice(
                spec_content_slice(self.spec_data()),
                self.spec_key(),
            ) == Err::<Seq<u8>, Error>(e),
    {
        let header = match read_header(self.data.as_slice()) {
            Ok(h) => h,
            Err(e) => {
                return Err(e);
            },
        };
        let m = header.metadata_size as usize;
        let i = header.icon_size as usize;
        if self.data.len() < 16 || self.data.len() - 16 < m || self.data.len() - 16 - m < i {
            return Err(Error::IoError);
        }
        let content = vstd::slice::slice_subrange(self.data.as_slice(), 16 + m + i, self.data.len());
        decrypt(content, self.key.encryption(), self.key.verification())
    }

    /// Assemble an attachment from its metadata, the raw file bytes and
    /// the two keys; the overview comes out of its base64 text form.
    fn from_attachment_data(
        d: &AttachmentData,
        data: &'a Vec<u8>,
        key: ItemKey,
        overview_key: &'a OverviewKey,
    ) -> (r: Result<Attachment<'a>, Error>)
        requires
            key.wf(),
            overview_key.wf(),
        ensures
            r is Ok <==> base64_decode_of(d.overview@) is Some,
            r matches Ok(a) ==> (Some(a.overview@) == base64_decode_of(d.overview@)
                && a.item == d.item_uuid
                && a.contents_size == d.contents_size
                && a.external == d.external
                && a.updated_at == d.updated_at
                && a.tx_timestamp == d.tx_timestamp
                && a.created_at == d.created_at
                && a.uuid == d.uuid
                && a.spec_key() == key@
                && a.spec_overview_key() == overview_key@
                && a.spec_data() == data@
                && a.wf()),
            r matches Err(e) ==> e == Error::Base64Error,
    {
        let overview = match base64_decode(d.overview.as_slice()) {
            Some(v) => v,
            None => {
                return Err(Error::Base64Error);
            },
        };
        Ok(
            Attachment {
                item: d.item_uuid,
                contents_size: d.contents_size,
                external: d.external,
                updated_at: d.updated_at,
                tx_timestamp: d.tx_timestamp,
                overview,
                created_at: d.created_at,
                uuid: d.uuid,
                data,
                key,
                overview_key,
            },
        )
    }
}

/// Assemble an attachment from its metadata, file bytes and keys.
pub fn from_data<'a>(
    attachment: &AttachmentData,
    data: &'a Vec<u8>,
    key: ItemKey,
    overview_key: &'a OverviewKey,
) -> (r: Result<Attachment<'a>, Error>)
    requires
        key.wf(),
        overview_key.wf(),
    ensures
        r is Ok <==> base64_decode_of(attachment.overview@) is Some,
        r matches Ok(a) ==> (Some(a.overview@) == base64_decode_of(attachment.overview@)
            && a.item == attachment.item_uuid
            && a.contents_size == attachment.contents_size
            && a.external == attachment.external
            && a.updated_at == attachment.updated_at
            && a.tx_timestamp == attachment.tx_timestamp
            && a.created_at == attachment.created_at
            && a.uuid == attachment.uuid
            && a.spec_key() == key@
            && a.spec_overview_key() == overview_key@
            && a.spec_data() == data@
            && a.wf()),
        r matches Err(e) ==> e == Error::Base64Error,
{
    Attachment::from_attachment_data(attachment, data, key, overview_key)
}

/// Pull the metadata fields out of the parsed JSON document.
fn attachment_data_from_json(v: &serde_json::Value) -> (r: Option<AttachmentData>)
    ensures
        r is Some == (json_data_of(*v) matches JsonData::Obj(am) && spec_attachment_meta_ok(am)),
        r matches Some(d) ==> (json_data_of(*v) matches JsonData::Obj(am)
            && spec_attachment_matches(am, d)),
{
    let item_uuid = match json::json_get(v, "itemUUID") {
        Some(x) => match json::json_str_bytes(x) {
            Some(b) => match Uuid::parse_bytes(b.as_slice()) {
                Ok(u) => u,
                Err(_) => {
                    return None;
                },
            },
            None => {
                return None;
            },
        },
        None => {
            return None;
        },
    };
    let contents_size = match json::json_get(v, "contentsSize") {
        Some(x) => match json::json_u64(x) {
            Some(n) => n,
            None => {
                return None;
            },
        },
        None => {
            return None;
        },
    };
    let external = match json::json_get(v, "external") {
        Some(x) => match json::json_bool(x) {
            Some(b) => Some(b),
            None => {
                return None;
            },
        },
        None => None,
    };
    let updated_at = match json::json_get(v, "updatedAt") {
        Some(x) => match json::json_i64(x) {
            Some(n) => n,
            None => {
                return None;
            },
        },
        None => {
            return None;
        },
    };
    let tx_timestamp = match json::json_get(v, "txTimestamp") {
        Some(x) => match json::json_i64(x) {
            Some(n) => n,
            None => {
                return None;
            },
        },
        None => {
            return None;
        },
    };
    let overview = match json::json_get(v, "overview") {
        Some(x) => match json::json_str_bytes(x) {
            Some(b) => b,
            None => {
                return None;
            },
        },
        None => {
            return None;
        },
    };
    let created_at = match json::json_get(v, "createdAt") {
        Some(x) => match json::json_i64(x) {
            Some(n) => n,
            None => {
                return None;
            },
        },
        None => {
            return None;
        },
    };
    let uuid = match json::json_get(v, "uuid") {
        Some(x) => match json::json_str_bytes(x) {
            Some(b) => match Uuid::parse_bytes(b.as_slice()) {
                Ok(u) => u,
                Err(_) => {
                    return None;
                },
            },
            None => {
                return None;
            },
        },
        None => {
            return None;
        },
    };
    Some(
        AttachmentData {
            item_uuid,
            contents_size,
            external,
            updated_at,
            tx_timestamp,
            overview,
            created_at,
            uuid,
        },
    )
}

/// Read one attachment file's metadata: decode the header, carve out the
/// metadata JSON and pull its fields.
pub fn read_attachment(data: &[u8]) -> (r: Result<AttachmentData, Error>)
    ensures
        r is Ok == spec_attachment_ok(data@),
        r matches Ok(d) ==> (spec_attachment_obj(data@) matches Some(am)
            && spec_attachment_matches(am, d)),
        r matches Err(e) ==> (e == Error::IoError || e == Error::OpcldatError || e
            == Error::JsonError),
{
    let header = match read_header(data) {
        Ok(h) => h,
        Err(e) => {
            return Err(e);
        },
    };
    let m = header.metadata_size as usize;
    if data.len() < 16 || data.len() - 16 < m {
        return Err(Error::IoError);
    }
    let meta = subvec(data, 16, 16 + m);
    let v = match json::json_parse(meta.as_slice()) {
        Some(v) => v,
        None => {
            return Err(Error::JsonError);
        },
    };
    match attachment_data_from_json(&v) {
        Some(d) => Ok(d),
        None => Err(Error::JsonError),
    }
}

/// Find the position of an attachment with the given uuid.
pub fn find_attachment_index(atts: &Vec<(AttachmentData, Vec<u8>)>, id: Uuid) -> (r: Option<usize>)
    ensures
        r matches Some(k) ==> (k < atts@.len() && atts@[k as int].0.uuid == id),
        r is None ==> (forall|i: int| 0 <= i < atts@.len() ==> (#[trigger] atts@[i].0.uuid) != id),
{
    let mut k: usize = 0;
    while k < atts.len()
        invariant
            k <= atts@.len(),
            forall|i: int| 0 <= i < k ==> (#[trigger] atts@[i].0.uuid) != id,
        decreases atts@.len() - k,
    {
        if atts[k].0.uuid == id {
            return Some(k);
        }
        k = k + 1;
    }
    None
}

/// Read every attachment file's metadata, pairing each with its raw
/// bytes, one entry per file in order. Success is owed exactly when
/// every file reads.
pub fn read_attachments(files: Vec<Vec<u8>>) -> (r: Result<Vec<(AttachmentData, Vec<u8>)>, Error>)
    ensures
        r is Ok == (forall|f: int|
            0 <= f < files@.len() ==> spec_attachment_ok((#[trigger] files@[f])@)),
        r matches Ok(atts) ==> (atts@.len() == files@.len() && (forall|f: int|
            0 <= f < files@.len() ==> ((#[trigger] atts@[f]).1 == files@[f] && (
            spec_attachment_obj(files@[f]@) matches Some(am) && spec_attachment_matches(
                am,
                atts@[f].0,
            ))))),
        r matches Err(e) ==> (e == Error::IoError || e == Error::OpcldatError || e
            == Error::JsonError),
{
    let ghost all = files@;
    let n = files.len();
    let mut rest = files;
    let mut out: Vec<(AttachmentData, Vec<u8>)> = Vec::new();
    let mut fi: usize = 0;
    while fi < n
        invariant
            all == files@,
            rest@ =~= all.skip(fi as int),
            all.len() == n,
            fi <= n,
            out@.len() == fi,
            forall|f: int|
                0 <= f < fi ==> ((#[trigger] out@[f]).1 == all[f] && (spec_attachment_obj(
                    all[f]@,
                ) matches Some(am) && spec_attachment_matches(am, out@[f].0))),
        decreases n - fi,
    {
        let file = rest.remove(0);
        proof {
            assert(file == all[fi as int]);
            assert(rest@ =~= all.skip(fi + 1));
        }
        let d = match read_attachment(file.as_slice()) {
            Ok(d) => d,
            Err(e) => {
                proof {
                    assert(!spec_attachment_ok(all[fi as int]@));
                    assert(!(forall|f: int|
                        0 <= f < all.len() ==> spec_attachment_ok((#[trigger] all[f])@)));
                }
                return Err(e);
            },
        };
        out.push((d, file));
        fi = fi + 1;
    }
    proof {
        assert forall|f: int| 0 <= f < all.len() implies spec_attachment_ok(
            (#[trigger] all[f])@,
        ) by {
            assert((#[trigger] out@[f]).1 == all[f]);
            let am = spec_attachment_obj(all[f]@).unwrap();
            assert(spec_attachment_matches(am, out@[f].0));
            assert(spec_attachment_meta_ok(am));
        }
    }
    Ok(out)
}

/// Walks an item's attachment uuids, handing out one decryptable
/// attachment per step.
pub struct AttachmentIterator<'a> {
    pub ids: &'a Vec<Uuid>,
    pub atts: &'a Vec<(AttachmentData, Vec<u8>)>,
    pub key: ItemKey,
    pub overview_key: &'a OverviewKey,
    pub idx: usize,
}

impl<'a> AttachmentIterator<'a> {
    pub open spec fn spec_ids(self) -> Seq<Uuid> {
        self.ids@
    }

    pub open spec fn spec_idx(self) -> int {
        self.idx as int
    }

    pub open spec fn wf(self) -> bool {
        self.spec_key().len() == 64 && self.spec_overview_key().len() == 64
    }

    pub open spec fn spec_key(self) -> Seq<u8> {
        self.key@
    }

    pub open spec fn spec_overview_key(self) -> Seq<u8> {
        self.overview_key@
    }

    pub fn new(
        ids: &'a Vec<Uuid>,
        atts: &'a Vec<(AttachmentData, Vec<u8>)>,
        key: ItemKey,
        overview_key: &'a OverviewKey,
    ) -> (r: AttachmentIterator<'a>)
        requires
            key.wf(),
            overview_key.wf(),
        ensures
            r.spec_ids() == ids@,
            r.spec_idx() == 0,
            r.spec_key() == key@,
            r.spec_overview_key() == overview_key@,
            r.wf(),
    {
        AttachmentIterator { ids, atts, key, overview_key, idx: 0 }
    }

    /// The next attachment: looks the current uuid up and assembles the
    /// attachment for it; nothing when the walk is over or the uuid is
    /// missing from the loaded set.
    pub fn next(&mut self) -> (r: Option<Attachment<'a>>)
        requires
            old(self).wf(),
        ensures
            final(self).wf(),
            final(self).spec_ids() == old(self).spec_ids(),
            final(self).spec_key() == old(self).spec_key(),
            final(self).spec_overview_key() == old(self).spec_overview_key(),
            final(self).spec_idx() == if old(self).spec_idx() < old(self).spec_ids().len() {
                old(self).spec_idx() + 1
            } else {
                old(self).spec_idx()
            },
            r matches Some(a) ==> (old(self).spec_idx() < old(self).spec_ids().len() && a.uuid
                == old(self).spec_ids()[old(self).spec_idx()] && a.wf() && a.spec_key() == old(
                self,
            ).spec_key() && a.spec_overview_key() == old(self).spec_overview_key()),
            (old(self).spec_idx() < old(self).spec_ids().len() && (exists|j: int|
                0 <= j < old(self).atts@.len() && (#[trigger] old(self).atts@[j]).0.uuid == old(
                    self,
                ).spec_ids()[old(self).spec_idx()]) && (forall|j: int|
                0 <= j < old(self).atts@.len() && (#[trigger] old(self).atts@[j]).0.uuid == old(
                    self,
                ).spec_ids()[old(self).spec_idx()] ==> base64_decode_of(
                    old(self).atts@[j].0.overview@,
                ) is Some)) ==> r is Some,
    {
        if self.idx >= self.ids.len() {
            return None;
        }
        let id = self.ids[self.idx];
        self.idx = self.idx + 1;
        match find_attachment_index(self.atts, id) {
            Some(k) => {
                let key = self.key.clone();
                match Attachment::from_attachment_data(
                    &self.atts[k].0,
                    &self.atts[k].1,
                    key,
                    self.overview_key,
                ) {
                    Ok(a) => Some(a),
                    Err(_) => None,
                }
            },
            None => None,
        }
    }
}

} // verus!
