use vstd::prelude::*;

verus! {

/// The CRC-32 (IEEE 802.3, reflected, as computed by `crc32fast`) of a byte
/// sequence.
pub uninterp spec fn crc32_of(data: Seq<u8>) -> u32;

/// Relies on `crc32fast::hash`: a pure function of the bytes it is given,
/// which returns their CRC-32 and never panics.
#[verifier::external_body]
pub(crate) fn crc32(data: &[u8]) -> (r: u32)
    ensures
        r == crc32_of(data@),
{
    crc32fast::hash(data)
}

} // verus!
