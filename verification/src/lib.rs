//! Read and decrypt the OPVault password-vault directory layout.
//!
//! The user's password unlocks the vault by being turned into paired keys.
//! Each pair of keys lets us verify the integrity of the data before trying
//! to decrypt it. The caller hands the library the raw contents of the
//! vault's files; all parsing, authentication and decryption is done here.

use vstd::prelude::*;

pub mod attachment;
pub mod b64;
pub mod crypto;
pub mod decimal;
pub mod detail;
pub mod folder;
pub mod item;
pub mod json;
pub mod key;
pub mod opcldat;
pub mod opdata01;
pub mod overview;
pub mod profile;
pub mod util;
pub mod uuid;
pub mod vault;

pub use attachment::{Attachment, AttachmentData, AttachmentIterator};
pub use detail::Detail;
pub use folder::Folder;
pub use item::{Category, Item, ItemData, ItemIterator};
pub use key::{ItemKey, Key, MasterKey, OverviewKey};
pub use opdata01::OpdataError;
pub use profile::Profile;
pub use uuid::Uuid;
pub use vault::{LockedVault, UnlockedVault, VaultFiles};

verus! {

/// The one error type that every fallible operation of this library returns.
///
/// The variants mirror the stages that can fail: reading input, decoding the
/// JSON or base64 framing, the `opdata01` envelope, the `OPCLDAT` container,
/// the cryptographic primitives, and item- or uuid-level validation.
#[derive(Debug, Clone, Copy, PartialEq, Eq, Structural)]
pub enum Error {
    IoError,
    JsonError,
    Base64Error,
    FromUtf8Error,
    OpdataError(OpdataError),
    Crypto,
    ItemError,
    UuidError,
    OpcldatError,
}

} // verus!
