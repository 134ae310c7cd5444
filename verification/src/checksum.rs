//! The checksum of a payload, computed by the `crc32fast` crate, and its
//! four bytes, laid down by the `byteorder` crate.

use byteorder::ByteOrder;
use vstd::bytes::spec_u32_to_le_bytes;
use vstd::prelude::*;

verus! {

/// The CRC-32 (IEEE) of `data`, as `crc32fast::hash` computes it.
pub uninterp spec fn crc32(data: Seq<u8>) -> u32;

/// The four bytes that follow `payload` inside a frame: its CRC-32, least
/// significant byte first.
pub open spec fn trailer(payload: Seq<u8>) -> Seq<u8> {
    spec_u32_to_le_bytes(crc32(payload))
}

/// Calls `crc32fast::hash`. Trusted: the result is the CRC-32 of the bytes,
/// a function of the bytes alone.
#[verifier::external_body]
pub(crate) fn checksum(data: &[u8]) -> (sum: u32)
    ensures
        sum == crc32(data@),
{
    crc32fast::hash(data)
}

/// Calls `byteorder::LittleEndian::write_u32`. Trusted: the first four bytes
/// of `buf` become `value` in little-endian order and the rest of `buf`
/// stays as it was.
#[verifier::external_body]
pub(crate) fn write_le(buf: &mut [u8], value: u32)
    requires
        old(buf)@.len() >= 4,
    ensures
        final(buf)@ == spec_u32_to_le_bytes(value) + old(buf)@.skip(4),
{
    byteorder::LittleEndian::write_u32(buf, value)
}

} // verus!
