//! The EXIF block that carries the metadata of a sticker.
//!
//! The block is a minimal TIFF structure with one entry, followed by the
//! metadata as JSON. The entry's count field holds the length of the JSON.

use crate::buffers::append_bytes;
use vstd::prelude::*;

verus! {

/// Length of the header that precedes the JSON.
pub const EXIF_HEADER_LEN: usize = 22;

/// The header, with a length of zero: byte order, TIFF magic, the offset of
/// the directory, one entry with its tag and type, the count, and the
/// offset of the data.
pub open spec fn exif_header() -> Seq<u8> {
    seq![
        0x49u8,
        0x49u8,
        0x2Au8,
        0x00u8,
        0x08u8,
        0x00u8,
        0x00u8,
        0x00u8,
        0x01u8,
        0x00u8,
        0x41u8,
        0x57u8,
        0x07u8,
        0x00u8,
        0x00u8,
        0x00u8,
        0x00u8,
        0x00u8,
        0x16u8,
        0x00u8,
        0x00u8,
        0x00u8,
    ]
}

/// A length as four bytes, low byte first; a length that does not fit
/// keeps its low 32 bits.
pub open spec fn length_le_bytes(len: nat) -> Seq<u8> {
    seq![
        (len % 256) as u8,
        ((len / 256) % 256) as u8,
        ((len / 65536) % 256) as u8,
        ((len / 16777216) % 256) as u8,
    ]
}

/// The EXIF block for a JSON text: the header with the length of the JSON
/// in its count field, then the JSON.
pub open spec fn exif_block(json: Seq<u8>) -> Seq<u8> {
    exif_header().subrange(0, 14) + length_le_bytes(json.len()) + exif_header().subrange(18, 22)
        + json
}

/// The EXIF header with a length of zero.
pub fn exif_header_bytes() -> (header: Vec<u8>)
    ensures
        header@ == exif_header(),
{
    let header: Vec<u8> = vec![
        0x49u8,
        0x49u8,
        0x2Au8,
        0x00u8,
        0x08u8,
        0x00u8,
        0x00u8,
        0x00u8,
        0x01u8,
        0x00u8,
        0x41u8,
        0x57u8,
        0x07u8,
        0x00u8,
        0x00u8,
        0x00u8,
        0x00u8,
        0x00u8,
        0x16u8,
        0x00u8,
        0x00u8,
        0x00u8,
    ];
    assert(header@ =~= exif_header());
    header
}

/// Builds the EXIF block for the metadata of a sticker, given as JSON.
pub fn build_exif(json: &[u8]) -> (exif: Vec<u8>)
    ensures
        exif@ == exif_block(json@),
        exif@.len() == 22 + json@.len(),
        exif@.subrange(22, exif@.len() as int) == json@,
{
    let mut exif = exif_header_bytes();
    let n: usize = json.len();
    exif.set(14, (n % 256) as u8);
    exif.set(15, ((n / 256) % 256) as u8);
    exif.set(16, ((n / 65536) % 256) as u8);
    exif.set(17, ((n / 16777216) % 256) as u8);
    assert(exif@ =~= exif_header().subrange(0, 14) + length_le_bytes(n as nat)
        + exif_header().subrange(18, 22));
    append_bytes(&mut exif, json);
    assert(exif@.subrange(22, exif@.len() as int) == json@);
    exif
}

/// The JSON of an EXIF block: what follows the header. A block that is no
/// longer than the header holds none.
pub open spec fn exif_json(exif: Seq<u8>) -> Option<Seq<u8>> {
    if exif.len() <= 22 {
        None
    } else {
        Some(exif.subrange(22, exif.len() as int))
    }
}

/// Takes the JSON out of an EXIF block.
pub fn exif_json_bytes(exif: &[u8]) -> (json: Option<Vec<u8>>)
    ensures
        crate::text::optional_bytes(json) == exif_json(exif@),
{
    let n: usize = exif.len();
    if n <= EXIF_HEADER_LEN {
        return None;
    }
    let mut json: Vec<u8> = Vec::with_capacity(n - EXIF_HEADER_LEN);
    let mut i: usize = EXIF_HEADER_LEN;
    while i < n
        invariant
            n == exif@.len(),
            22 <= i <= n,
            json@ == exif@.subrange(22, i as int),
        decreases n - i,
    {
        json.push(exif[i]);
        assert(json@ == exif@.subrange(22, i + 1));
        i += 1;
    }
    Some(json)
}

/// The JSON that went into an EXIF block comes out of it again, unless it
/// was empty.
pub proof fn exif_block_keeps_json(json: Seq<u8>)
    requires
        json.len() > 0,
    ensures
        exif_json(exif_block(json)) == Some(json),
{
    let block = exif_block(json);
    assert(block.len() == 22 + json.len());
    assert(block.subrange(22, block.len() as int) == json);
}

} // verus!
