//! The `OPCLDAT` binary container that frames one attachment file.
//!
//! The 16-byte header is: 7 bytes of magic `OPCLDAT`, 1 version byte, a
//! little-endian u16 metadata length, 2 reserved bytes, and a little-endian
//! u32 icon length. The metadata JSON, the icon envelope and the content
//! envelope follow at offsets computed from these lengths.

use vstd::prelude::*;

use crate::util::bytes_eq;
use crate::Error;

verus! {

/// The decoded header of an attachment file.
#[derive(Debug, Clone, Copy, PartialEq, Eq, Structural)]
pub struct Opcldat {
    pub version: u8,
    pub metadata_size: u16,
    pub icon_size: u32,
}

/// The bytes of the magic `OPCLDAT`.
pub open spec fn spec_opcldat_magic() -> Seq<u8> {
    seq![79u8, 80u8, 67u8, 76u8, 68u8, 65u8, 84u8]
}

/// What reading the header of `data` yields: the decoded header, or an
/// error when the input is shorter than 16 bytes or the magic is wrong.
pub open spec fn spec_read_header(data: Seq<u8>) -> Result<Opcldat, Error> {
    if data.len() < 16 {
        Err(Error::IoError)
    } else if data.take(7) != spec_opcldat_magic() {
        Err(Error::OpcldatError)
    } else {
        Ok(
            Opcldat {
                version: data[7],
                metadata_size: vstd::bytes::spec_u16_from_le_bytes(data.subrange(8, 10)),
                icon_size: vstd::bytes::spec_u32_from_le_bytes(data.subrange(12, 16)),
            },
        )
    }
}

/// Decode the 16-byte header at the front of an attachment file.
pub fn read_header(data: &[u8]) -> (r: Result<Opcldat, Error>)
    ensures
        r == spec_read_header(data@),
{
    if data.len() < 16 {
        return Err(Error::IoError);
    }
    let magic: [u8; 7] = [79, 80, 67, 76, 68, 65, 84];
    let head = vstd::slice::slice_subrange(data, 0, 7);
    proof {
        assert(magic@ =~= spec_opcldat_magic());
    }
    if !bytes_eq(head, magic.as_slice()) {
        return Err(Error::OpcldatError);
    }
    let version = *vstd::slice::slice_index_get(data, 7);
    let metadata_size = vstd::bytes::u16_from_le_bytes(vstd::slice::slice_subrange(data, 8, 10));
    let icon_size = vstd::bytes::u32_from_le_bytes(vstd::slice::slice_subrange(data, 12, 16));
    Ok(Opcldat { version, metadata_size, icon_size })
}

} // verus!
