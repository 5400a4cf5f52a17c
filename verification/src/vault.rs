//! The vault façade: a locked vault holds the raw file contents and the
//! profile; unlocking it derives the master and overview keys from the
//! password and loads folders, items and attachments.
//!
//! The caller reads the vault directory and hands the file contents in as
//! plain bytes; everything from there on — key derivation, envelope
//! authentication, record verification, cross-linking — happens here.

use vstd::prelude::*;

use crate::attachment;
use crate::attachment::AttachmentData;
use crate::crypto;
use crate::crypto::{pbkdf2_sha512_of, sha512_of};
use crate::attachment::spec_attachment_ok;
use crate::folder;
use crate::folder::{spec_folders_ok, Folder};
use crate::item;
use crate::item::{spec_band_ok, Item, ItemData, ItemIterator};
use crate::key::{MasterKey, OverviewKey};
use crate::opdata01::spec_decrypt;
use crate::profile;
use crate::profile::{
    spec_profile_matches, spec_profile_obj, spec_profile_result_ok, Profile,
};
use crate::uuid::{spec_parse_uuid, Uuid};
use crate::Error;

verus! {

/// The raw contents of a vault's `default` profile directory: the bytes
/// of `profile.js`, of `folders.js` when present, of each of the sixteen
/// band files when present, and of every `.attachment` file.
pub struct VaultFiles {
    pub profile: Vec<u8>,
    pub folders: Option<Vec<u8>>,
    pub bands: Vec<Option<Vec<u8>>>,
    pub attachments: Vec<Vec<u8>>,
}

/// A locked vault: the profile is read, nothing is decrypted yet. It
/// holds just enough to try to unseal the keys, plus the still-sealed
/// file contents.
pub struct LockedVault {
    /// The profile, including the password hint and the sealed master
    /// and overview key blobs.
    pub profile: Profile,
    pub folders: Option<Vec<u8>>,
    pub bands: Vec<Option<Vec<u8>>>,
    pub attachments: Vec<Vec<u8>>,
}

/// What deriving one vault key from its sealed blob yields: the SHA-512
/// of the envelope's plaintext seed, or the envelope's own error.
pub open spec fn spec_derive_key(blob: Seq<u8>, decrypt_key: Seq<u8>, mac_key: Seq<u8>) -> Result<
    Seq<u8>,
    Error,
> {
    match spec_decrypt(blob, decrypt_key, mac_key) {
        Ok(pt) => Ok(sha512_of(pt)),
        Err(e) => Err(e),
    }
}

/// Derive one vault key from its `opdata01`-sealed blob: open the
/// envelope, then hash the 64-byte seed with SHA-512 into key material.
pub fn derive_key(data: &[u8], decrypt_key: &[u8], hmac_key: &[u8]) -> (r: Result<Vec<u8>, Error>)
    ensures
        r is Ok == spec_derive_key(data@, decrypt_key@, hmac_key@) is Ok,
        r matches Ok(v) ==> (spec_derive_key(data@, decrypt_key@, hmac_key@) == Ok::<
            Seq<u8>,
            Error,
        >(v@) && v@.len() == 64),
        r matches Err(e) ==> spec_derive_key(data@, decrypt_key@, hmac_key@) == Err::<
            Seq<u8>,
            Error,
        >(e),
{
    let key_plain = match crate::opdata01::decrypt(data, decrypt_key, hmac_key) {
        Ok(v) => v,
        Err(e) => {
            return Err(e);
        },
    };
    Ok(crypto::hash_sha512(key_plain.as_slice()))
}

impl LockedVault {
    /// Open a vault from its files: parse the profile, keep everything
    /// else sealed for `unlock`.
    pub fn open(files: VaultFiles) -> (r: Result<LockedVault, Error>)
        ensures
            r is Ok == spec_profile_result_ok(files.profile@),
            r matches Ok(lv) ==> (spec_profile_matches(files.profile@, lv.profile) && lv.folders
                == files.folders && lv.bands == files.bands && lv.attachments
                == files.attachments),
            r matches Err(e) ==> (if spec_profile_obj(files.profile@) is None {
                e == Error::JsonError
            } else {
                e == Error::Base64Error
            }),
    {
        let prof = match profile::read_profile(files.profile.as_slice()) {
            Ok(p) => p,
            Err(e) => {
                return Err(e);
            },
        };
        Ok(
            LockedVault {
                profile: prof,
                folders: files.folders,
                bands: files.bands,
                attachments: files.attachments,
            },
        )
    }

    /// Derive the master and overview keys from the user's password: run
    /// PBKDF2-HMAC-SHA512 over it with the profile's salt and iteration
    /// count, open each sealed blob under the two halves of the derived
    /// key, and hash each seed into its key. A wrong password surfaces as
    /// `InvalidHmac` on the master blob.
    pub fn decrypt_keys(&self, password: &[u8]) -> (r: Result<(MasterKey, OverviewKey), Error>)
        ensures
            self.profile.iterations > u32::MAX ==> (r matches Err(e) && e == Error::Crypto),
            self.profile.iterations <= u32::MAX ==> {
                let derived = pbkdf2_sha512_of(
                    password@,
                    self.profile.salt@,
                    self.profile.iterations as u32,
                );
                &&& r is Ok == (spec_derive_key(
                    self.profile.master_key@,
                    derived.take(32),
                    derived.skip(32),
                ) is Ok && spec_derive_key(
                    self.profile.overview_key@,
                    derived.take(32),
                    derived.skip(32),
                ) is Ok)
                &&& (r matches Ok(keys) ==> (Ok::<Seq<u8>, Error>(keys.0@) == spec_derive_key(
                    self.profile.master_key@,
                    derived.take(32),
                    derived.skip(32),
                ) && Ok::<Seq<u8>, Error>(keys.1@) == spec_derive_key(
                    self.profile.overview_key@,
                    derived.take(32),
                    derived.skip(32),
                ) && keys.0.wf() && keys.1.wf()))
                &&& (r matches Err(e) ==> (if spec_derive_key(
                    self.profile.master_key@,
                    derived.take(32),
                    derived.skip(32),
                ) is Err {
                    Err::<Seq<u8>, Error>(e) == spec_derive_key(
                        self.profile.master_key@,
                        derived.take(32),
                        derived.skip(32),
                    )
                } else {
                    Err::<Seq<u8>, Error>(e) == spec_derive_key(
                        self.profile.overview_key@,
                        derived.take(32),
                        derived.skip(32),
                    )
                }))
            },
    {
        if self.profile.iterations > u32::MAX as u64 {
            return Err(Error::Crypto);
        }
        let key = crypto::pbkdf2(
            password,
            self.profile.salt.as_slice(),
            self.profile.iterations as u32,
        );
        let decrypt_key = vstd::slice::slice_subrange(key.as_slice(), 0, 32);
        let hmac_key = vstd::slice::slice_subrange(key.as_slice(), 32, 64);
        proof {
            assert(key@.subrange(32, 64) =~= key@.skip(32));
        }
        let master_key = match derive_key(self.profile.master_key.as_slice(), decrypt_key, hmac_key) {
            Ok(v) => v,
            Err(e) => {
                return Err(e);
            },
        };
        let overview_key = match derive_key(
            self.profile.overview_key.as_slice(),
            decrypt_key,
            hmac_key,
        ) {
            Ok(v) => v,
            Err(e) => {
                return Err(e);
            },
        };
        Ok((MasterKey::from(master_key), OverviewKey::from(overview_key)))
    }

    /// Unlock this vault with the user's master password, consuming it.
    pub fn unlock(self, password: &[u8]) -> (r: Result<UnlockedVault, Error>)
        ensures
            r is Ok == (self.profile.iterations <= u32::MAX && {
                let derived = pbkdf2_sha512_of(
                    password@,
                    self.profile.salt@,
                    self.profile.iterations as u32,
                );
                spec_derive_key(
                    self.profile.master_key@,
                    derived.take(32),
                    derived.skip(32),
                ) is Ok && spec_derive_key(
                    self.profile.overview_key@,
                    derived.take(32),
                    derived.skip(32),
                ) is Ok && spec_loaders_ok(self.folders, self.bands@, self.attachments@)
            }),
            self.profile.iterations > u32::MAX ==> (r matches Err(e) && e == Error::Crypto),
            r matches Ok(uv) ==> uv.profile == self.profile,
            r matches Ok(uv) ==> (self.profile.iterations <= u32::MAX && uv.wf() && {
                let derived = pbkdf2_sha512_of(
                    password@,
                    self.profile.salt@,
                    self.profile.iterations as u32,
                );
                Ok::<Seq<u8>, Error>(uv.master@) == spec_derive_key(
                    self.profile.master_key@,
                    derived.take(32),
                    derived.skip(32),
                ) && Ok::<Seq<u8>, Error>(uv.overview@) == spec_derive_key(
                    self.profile.overview_key@,
                    derived.take(32),
                    derived.skip(32),
                )
            }),
            (self.profile.iterations <= u32::MAX && {
                let derived = pbkdf2_sha512_of(
                    password@,
                    self.profile.salt@,
                    self.profile.iterations as u32,
                );
                spec_derive_key(
                    self.profile.master_key@,
                    derived.take(32),
                    derived.skip(32),
                ) is Err
            }) ==> (r matches Err(e) && Err::<Seq<u8>, Error>(e) == spec_derive_key(
                self.profile.master_key@,
                pbkdf2_sha512_of(
                    password@,
                    self.profile.salt@,
                    self.profile.iterations as u32,
                ).take(32),
                pbkdf2_sha512_of(
                    password@,
                    self.profile.salt@,
                    self.profile.iterations as u32,
                ).skip(32),
            )),
    {
        let keys = match self.decrypt_keys(password) {
            Ok(k) => k,
            Err(e) => {
                return Err(e);
            },
        };
        let (master, overview) = keys;
        UnlockedVault::new(
            self.profile,
            self.folders,
            self.bands,
            self.attachments,
            master,
            overview,
        )
    }
}

/// When loading an unlocked vault's records succeeds: the folder file
/// (when present), every attachment file, and every present band file
/// all read whole.
pub open spec fn spec_loaders_ok(
    folders: Option<Vec<u8>>,
    bands: Seq<Option<Vec<u8>>>,
    attachments: Seq<Vec<u8>>,
) -> bool {
    &&& (folders matches Some(c) ==> spec_folders_ok(c@))
    &&& (forall|f: int|
        0 <= f < attachments.len() ==> spec_attachment_ok((#[trigger] attachments[f])@))
    &&& (forall|b: int|
        0 <= b < bands.len() ==> ((#[trigger] bands[b]) matches Some(c) ==> spec_band_ok(c@)))
}

/// An unlocked vault: the profile, the folder map, the verified item
/// records, the attachment records, and the two long-lived keys. It is
/// immutable for its lifetime; per-item keys are derived on demand.
pub struct UnlockedVault {
    pub profile: Profile,
    /// The folders, keyed by uuid.
    pub folders: Vec<(Uuid, Folder)>,
    /// The item records that passed HMAC verification, keyed by uuid.
    pub items: Vec<(Uuid, ItemData)>,
    /// The attachment records with their raw file bytes, keyed by uuid.
    pub attachments: Vec<(AttachmentData, Vec<u8>)>,
    /// The master key.
    pub master: MasterKey,
    /// The overview key.
    pub overview: OverviewKey,
}

impl UnlockedVault {
    /// Both keys are whole, every held item record carries an HMAC that
    /// matches under the overview verification key, and no two records
    /// share a uuid.
    pub open spec fn wf(self) -> bool {
        &&& self.master@.len() == 64
        &&& self.overview@.len() == 64
        &&& item::spec_items_verified(self.items@, self.overview@.skip(32))
        &&& item::spec_items_unique(self.items@)
    }

    /// Load the folder, item and attachment records of a vault whose
    /// keys are unsealed. Item records whose HMAC does not verify under
    /// the overview verification key are dropped here and never surface.
    pub fn new(
        profile: Profile,
        folders: Option<Vec<u8>>,
        bands: Vec<Option<Vec<u8>>>,
        attachments: Vec<Vec<u8>>,
        master: MasterKey,
        overview: OverviewKey,
    ) -> (r: Result<UnlockedVault, Error>)
        requires
            master.wf(),
            overview.wf(),
        ensures
            r is Ok == spec_loaders_ok(folders, bands@, attachments@),
            r matches Ok(uv) ==> (uv.wf() && uv.master@ == master@ && uv.overview@ == overview@
                && uv.profile == profile),
            folders matches Some(c) ==> (r matches Ok(uv) ==> (folder::spec_folders_obj(c@)
                matches Some(m) && folder::spec_folders_complete(m, uv.folders@)
                && folder::spec_folders_sound(m, uv.folders@))),
            folders is None ==> (r matches Ok(uv) ==> uv.folders@.len() == 0),
    {
        let folder_list = match folder::read_folders(&folders, &overview) {
            Ok(f) => f,
            Err(e) => {
                return Err(e);
            },
        };
        let attachment_list = match attachment::read_attachments(attachments) {
            Ok(a) => a,
            Err(e) => {
                return Err(e);
            },
        };
        let items = match item::read_items(&bands, overview.verification()) {
            Ok(i) => i,
            Err(e) => {
                return Err(e);
            },
        };
        Ok(
            UnlockedVault {
                profile,
                folders: folder_list,
                items,
                attachments: attachment_list,
                master,
                overview,
            },
        )
    }

    /// Fetch one item by uuid. Whatever comes back was assembled from a
    /// record whose HMAC verified at load time.
    pub fn get_item(&self, id: &Uuid) -> (r: Option<Item<'_>>)
        requires
            self.wf(),
        ensures
            r matches Some(it) ==> (it.wf() && it.master@ == self.master@ && it.overview@
                == self.overview@ && (exists|j: int|
                0 <= j < self.items@.len() && (#[trigger] self.items@[j]).0 == *id && Some(
                    it.uuid.spec_value(),
                ) == spec_parse_uuid(self.items@[j].1.uuid@) && item::spec_item_hmac_ok(
                    self.items@[j].1,
                    self.overview@.skip(32),
                ))),
            (forall|j: int| 0 <= j < self.items@.len() ==> (#[trigger] self.items@[j]).0 != *id)
                ==> r is None,
            (exists|j: int|
                0 <= j < self.items@.len() && (#[trigger] self.items@[j]).0 == *id
                    && item::spec_item_assembles(self.items@[j].1)) ==> r is Some,
    {
        match item::find_item_index(&self.items, *id) {
            Some(k) => {
                proof {
                    if exists|j: int|
                        0 <= j < self.items@.len() && (#[trigger] self.items@[j]).0 == *id
                            && item::spec_item_assembles(self.items@[j].1) {
                        let j = choose|j: int|
                            0 <= j < self.items@.len() && (#[trigger] self.items@[j]).0 == *id
                                && item::spec_item_assembles(self.items@[j].1);
                        assert(j == k);
                    }
                }
                match item::item_from_data(
                    &self.items[k].1,
                    &self.attachments,
                    &self.master,
                    &self.overview,
                ) {
                    Ok(it) => Some(it),
                    Err(_) => None,
                }
            },
            None => None,
        }
    }

    /// Walk every loaded item.
    pub fn get_items(&self) -> (r: ItemIterator<'_>)
        requires
            self.wf(),
        ensures
            r.wf(),
            r.items == &self.items,
            r.master@ == self.master@,
            r.overview@ == self.overview@,
            r.atts == &self.attachments,
            r.idx == 0,
    {
        ItemIterator {
            items: &self.items,
            master: &self.master,
            overview: &self.overview,
            atts: &self.attachments,
            idx: 0,
        }
    }
}

} // verus!
