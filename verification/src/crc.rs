//! DESFire's flavour of CRC-32, and checking a received checksum.
use crate::copy_to_slice::{concat_parts, flatten_parts, parts_view};
use crate::error::Error;
use vstd::prelude::*;
use vstd::slice::slice_subrange;

verus! {

/// One bit of the reflected CRC-32 register: shift right, and XOR in the
/// reversed IEEE polynomial 0xEDB88320 where a 1 bit was shifted out.
pub open spec fn crc32_bit(c: u32) -> u32 {
    if c & 1u32 == 1u32 { (c >> 1u32) ^ 0xEDB8_8320u32 } else { c >> 1u32 }
}

/// `n` bit steps of the register.
pub open spec fn crc32_bits(c: u32, n: nat) -> u32
    decreases n,
{
    if n == 0 { c } else { crc32_bits(crc32_bit(c), (n - 1) as nat) }
}

/// The register after taking in one byte, low bit first.
pub open spec fn crc32_byte(c: u32, b: u8) -> u32 {
    crc32_bits(c ^ (b as u32), 8)
}

/// The CRC-32 register after a byte string, starting from all ones.
pub open spec fn crc32_register(data: Seq<u8>) -> u32
    decreases data.len(),
{
    if data.len() == 0 { 0xFFFF_FFFFu32 } else { crc32_byte(crc32_register(data.drop_last()), data.last()) }
}

/// The standard CRC-32 (IEEE 802.3, as used by zlib and PNG) of a byte
/// string: the register after the data, inverted.
pub open spec fn crc32_ieee(data: Seq<u8>) -> u32 {
    crc32_register(data) ^ 0xFFFF_FFFFu32
}

/// `crc32fast::hash`: the CRC-32 (IEEE) checksum of `data`. The contract
/// claims that the result is `crc32_ieee(data)`, the standard CRC-32 that
/// the crate documents it computes.
#[verifier::external_body]
fn crc32fast_hash(data: &[u8]) -> (r: u32)
    ensures
        r == crc32_ieee(data@),
{
    crc32fast::hash(data)
}

/// DESFire's CRC-32 of a byte string: the CRC-32 register without the final
/// inversion, that is `0xFFFFFFFF - crc32_ieee(data)`.
pub open spec fn desfire_crc32(data: Seq<u8>) -> u32 {
    (0xFFFF_FFFFu32 - crc32_ieee(data)) as u32
}

/// Compute the DESFire CRC32 flavor of `message`, followed by the
/// "trailers": the same as checksumming the concatenation.
pub fn crc32(message: &[u8], trailers: &[&[u8]]) -> (r: u32)
    ensures
        r == desfire_crc32(message@ + flatten_parts(parts_view(trailers@))),
{
    let data = concat_parts(message, trailers);
    let h = crc32fast_hash(data.as_slice());
    0xFFFF_FFFFu32 - h
}

/// The value of four little-endian bytes.
pub open spec fn u32_le_value(b: Seq<u8>) -> int {
    b[0] + 256 * b[1] + 65536 * b[2] + 16777216 * b[3]
}

/// The four little-endian bytes of a value.
pub open spec fn u32_le_bytes(x: u32) -> Seq<u8> {
    seq![(x % 256) as u8, ((x / 256) % 256) as u8, ((x / 65536) % 256) as u8, ((x / 16777216) % 256) as u8]
}

/// The four little-endian bytes of a value.
pub fn le_bytes(x: u32) -> (r: [u8; 4])
    ensures
        r@ == u32_le_bytes(x),
{
    let b0 = (x & 0xFF) as u8;
    let b1 = ((x >> 8) & 0xFF) as u8;
    let b2 = ((x >> 16) & 0xFF) as u8;
    let b3 = ((x >> 24) & 0xFF) as u8;
    assert(b0 == x % 256 && b1 == (x / 256) % 256 && b2 == (x / 65536) % 256 && b3 == (x / 16777216) % 256) by (bit_vector)
        requires
            b0 == (x & 0xFF) as u8,
            b1 == ((x >> 8) & 0xFF) as u8,
            b2 == ((x >> 16) & 0xFF) as u8,
            b3 == ((x >> 24) & 0xFF) as u8,
    ;
    let r: [u8; 4] = [b0, b1, b2, b3];
    assert(r@ =~= u32_le_bytes(x));
    r
}

/// The value of four little-endian bytes.
pub fn le_value(b: &[u8]) -> (r: u32)
    requires
        b@.len() == 4,
    ensures
        r == u32_le_value(b@),
{
    let (b0, b1, b2, b3) = (b[0], b[1], b[2], b[3]);
    let r = (b0 as u32) | ((b1 as u32) << 8) | ((b2 as u32) << 16) | ((b3 as u32) << 24);
    assert(r == b0 + 256 * b1 + 65536 * b2 + 16777216 * b3) by (bit_vector)
        requires
            r == (b0 as u32) | ((b1 as u32) << 8) | ((b2 as u32) << 16) | ((b3 as u32) << 24),
    ;
    r
}

/// Writing a value as four little-endian bytes and reading them back gives
/// the value.
pub proof fn lemma_u32_le_round_trip(x: u32)
    ensures
        u32_le_value(u32_le_bytes(x)) == x,
{
    assert((x % 256) + 256 * ((x / 256) % 256) + 65536 * ((x / 65536) % 256) + 16777216 * ((x / 16777216) % 256) == x)
        by (nonlinear_arith);
}

/// The message part of a buffer that ends with a 4-byte checksum.
pub open spec fn crc_message(input: Seq<u8>) -> Seq<u8> {
    input.subrange(0, input.len() - 4)
}

/// The checksum that ends a buffer, read little-endian.
pub open spec fn crc_trailer_value(input: Seq<u8>) -> int {
    u32_le_value(input.subrange(input.len() - 4, input.len() as int))
}

/// Whether the last four bytes of `input` are the DESFire CRC-32 of the
/// bytes before them followed by the trailers.
pub open spec fn crc32_matches(input: Seq<u8>, trailers: Seq<u8>) -> bool {
    crc_trailer_value(input) == desfire_crc32(crc_message(input) + trailers)
}

/// Given a buffer whose last 4 bytes are a CRC-32 (little-endian), check
/// that checksum against the bytes before it followed by the trailers, and
/// return those bytes; a mismatch is [Error::InvalidCrc32]. The buffer must
/// hold at least the 4 checksum bytes.
pub fn check_crc32<'a, IoBackendErrorT>(input: &'a [u8], trailers: &[&[u8]]) -> (r: Result<&'a [u8], Error<IoBackendErrorT>>)
    requires
        input@.len() >= 4,
    ensures
        crc32_matches(input@, flatten_parts(parts_view(trailers@))) ==> (r matches Ok(m) && m@ == crc_message(input@)),
        !crc32_matches(input@, flatten_parts(parts_view(trailers@))) ==> r matches Err(Error::InvalidCrc32),
{
    let n = input.len() - 4;
    let message = slice_subrange(input, 0, n);
    let read = le_value(slice_subrange(input, n, input.len()));
    let computed = crc32(message, trailers);
    if read != computed {
        return Err(Error::InvalidCrc32);
    }
    Ok(message)
}

/// A message followed by its own checksum passes the check: appending the
/// little-endian bytes of `crc32(m, trailers)` to `m` gives a buffer that
/// [check_crc32] accepts with those trailers, returning `m`.
pub proof fn lemma_check_crc32_accepts(m: Seq<u8>, trailers: Seq<u8>)
    ensures
        crc32_matches(m + u32_le_bytes(desfire_crc32(m + trailers)), trailers),
        crc_message(m + u32_le_bytes(desfire_crc32(m + trailers))) == m,
{
    let x = desfire_crc32(m + trailers);
    let input = m + u32_le_bytes(x);
    lemma_u32_le_round_trip(x);
    assert(crc_message(input) =~= m);
    assert(input.subrange(input.len() - 4, input.len() as int) =~= u32_le_bytes(x));
}

} // verus!
