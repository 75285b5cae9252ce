//! Decoding precompiled shader blobs into the words a shader module is
//! created from.
//!
//! A shader arrives as an opaque byte blob produced at build time. It is
//! valid when its length is a positive multiple of four and it opens with
//! the SPIR-V magic number in either byte order; decoding yields one word
//! per four bytes, byte-swapped if the blob was written in the other
//! endianness.

use vstd::prelude::*;

verus! {

/// The SPIR-V magic number: the first word of every valid blob.
pub const SPIRV_MAGIC: u32 = 0x0723_0203;

/// Whether a byte blob can be decoded at all: a positive multiple of four
/// bytes long, opening with the magic number in little- or big-endian
/// byte order.
pub open spec fn spec_spirv_header_ok(bytes: Seq<u8>) -> bool {
    &&& bytes.len() >= 4
    &&& bytes.len() % 4 == 0
    &&& {
        ||| (bytes[0] == 0x03u8 && bytes[1] == 0x02u8 && bytes[2] == 0x23u8 && bytes[3] == 0x07u8)
        ||| (bytes[0] == 0x07u8 && bytes[1] == 0x23u8 && bytes[2] == 0x02u8 && bytes[3] == 0x03u8)
    }
}

/// The words a valid blob decodes to.
pub uninterp spec fn spirv_words_of(bytes: Seq<u8>) -> Seq<u32>;

/// Relies on ash::util::read_spv: decodes a SPIR-V blob into words, one
/// per four bytes, byte-swapping every word when the magic number shows
/// the blob was written in the other byte order. The result depends on the
/// bytes alone; decoding fails exactly when the length is not a positive
/// multiple of four or the blob does not open with the magic number in
/// either byte order.
#[verifier::external_body]
fn read_spirv_words(bytes: &[u8]) -> (r: Option<Vec<u32>>)
    ensures
        r is Some <==> spec_spirv_header_ok(bytes@),
        r matches Some(w) ==> {
            &&& w@ == spirv_words_of(bytes@)
            &&& w@.len() == bytes@.len() / 4
            &&& w@[0] == SPIRV_MAGIC
        },
{
    ash::util::read_spv(&mut std::io::Cursor::new(bytes)).ok()
}

/// Decodes a precompiled shader blob, or reports it malformed. Succeeds
/// exactly on a well-formed header; the words are one per four bytes and
/// open with the magic number.
pub fn parse_spirv(bytes: &[u8]) -> (r: Option<Vec<u32>>)
    ensures
        r is Some <==> spec_spirv_header_ok(bytes@),
        r matches Some(w) ==> {
            &&& w@ == spirv_words_of(bytes@)
            &&& w@.len() == bytes@.len() / 4
            &&& w@[0] == SPIRV_MAGIC
        },
{
    if bytes.len() < 4 || bytes.len() % 4 != 0 {
        return None;
    }

    let little = bytes[0] == 0x03 && bytes[1] == 0x02 && bytes[2] == 0x23 && bytes[3] == 0x07;
    let big = bytes[0] == 0x07 && bytes[1] == 0x23 && bytes[2] == 0x02 && bytes[3] == 0x03;

    if !little && !big {
        return None;
    }

    read_spirv_words(bytes)
}

} // verus!
