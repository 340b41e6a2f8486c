//! Content checksums: the 64-bit hash of a stored value and its eight-byte
//! big-endian form, which is what the checksum table holds.

use vstd::prelude::*;

verus! {

/// Number of bytes of a stored checksum.
pub const CHECKSUM_LEN: usize = 8;

/// The XXH3 64-bit hash (seed 0, default secret) of `input`.
pub uninterp spec fn xxh3_64_of(input: Seq<u8>) -> u64;

/// `xxhash_rust::xxh3::xxh3_64` is a pure function of its input bytes; its
/// value is named [`xxh3_64_of`] and nothing more is claimed of it.
pub assume_specification[ xxhash_rust::xxh3::xxh3_64 ](input: &[u8]) -> (h: u64)
    ensures
        h == xxh3_64_of(input@),
;

/// The checksum of a text value: the hash of its UTF-8 bytes.
pub open spec fn checksum_of(text: Seq<char>) -> u64 {
    xxh3_64_of(vstd::utf8::encode_utf8(text))
}

/// The digit of `h` to the base 256 that counts `unit`s.
pub open spec fn digit_of(h: u64, unit: u64) -> u8 {
    (h / unit % 256) as u8
}

/// The eight bytes of `h`, most significant first: its digits to the base
/// 256.
pub open spec fn be_bytes(h: u64) -> Seq<u8> {
    seq![
        digit_of(h, 0x0100_0000_0000_0000),
        digit_of(h, 0x0001_0000_0000_0000),
        digit_of(h, 0x0000_0100_0000_0000),
        digit_of(h, 0x0000_0001_0000_0000),
        digit_of(h, 0x0000_0000_0100_0000),
        digit_of(h, 0x0000_0000_0001_0000),
        digit_of(h, 0x0000_0000_0000_0100),
        digit_of(h, 0x0000_0000_0000_0001),
    ]
}

/// The number whose digits to the base 256, most significant first, are the
/// first eight bytes of `b`.
pub open spec fn be_value(b: Seq<u8>) -> int {
    b[0] * 0x0100_0000_0000_0000 + b[1] * 0x0001_0000_0000_0000 + b[2] * 0x0000_0100_0000_0000
        + b[3] * 0x0000_0001_0000_0000 + b[4] * 0x0000_0000_0100_0000 + b[5]
        * 0x0000_0000_0001_0000 + b[6] * 0x0000_0000_0000_0100 + b[7]
}

/// What a stored checksum decodes to: a number when it is eight bytes long.
pub open spec fn decoded(b: Seq<u8>) -> Option<u64> {
    if b.len() == CHECKSUM_LEN {
        Some(be_value(b) as u64)
    } else {
        None
    }
}

/// Decoding the encoding of `h` gives `h` back.
pub proof fn law_decode_encode(h: u64)
    ensures
        be_bytes(h).len() == CHECKSUM_LEN,
        be_value(be_bytes(h)) == h,
        decoded(be_bytes(h)) == Some(h),
{
    assert((h / 0x0100_0000_0000_0000 % 256) * 0x0100_0000_0000_0000 + (h / 0x0001_0000_0000_0000
        % 256) * 0x0001_0000_0000_0000 + (h / 0x0000_0100_0000_0000 % 256) * 0x0000_0100_0000_0000
        + (h / 0x0000_0001_0000_0000 % 256) * 0x0000_0001_0000_0000 + (h / 0x0000_0000_0100_0000
        % 256) * 0x0000_0000_0100_0000 + (h / 0x0000_0000_0001_0000 % 256) * 0x0000_0000_0001_0000
        + (h / 0x0000_0000_0000_0100 % 256) * 0x0000_0000_0000_0100 + (h / 0x0000_0000_0000_0001
        % 256) == h) by (bit_vector);
}

/// Encoding what eight bytes decode to gives the bytes back.
pub proof fn law_encode_decode(b: Seq<u8>)
    requires
        b.len() == CHECKSUM_LEN,
    ensures
        0 <= be_value(b) <= u64::MAX,
        be_bytes(be_value(b) as u64) == b,
{
    let (b0, b1, b2, b3, b4, b5, b6, b7) = (b[0], b[1], b[2], b[3], b[4], b[5], b[6], b[7]);
    let v = be_value(b) as u64;
    assert(v == b0 * 0x0100_0000_0000_0000 + b1 * 0x0001_0000_0000_0000 + b2
        * 0x0000_0100_0000_0000 + b3 * 0x0000_0001_0000_0000 + b4 * 0x0000_0000_0100_0000 + b5
        * 0x0000_0000_0001_0000 + b6 * 0x0000_0000_0000_0100 + b7);
    assert(v == b0 * 0x0100_0000_0000_0000 + b1 * 0x0001_0000_0000_0000 + b2
        * 0x0000_0100_0000_0000 + b3 * 0x0000_0001_0000_0000 + b4 * 0x0000_0000_0100_0000 + b5
        * 0x0000_0000_0001_0000 + b6 * 0x0000_0000_0000_0100 + b7 ==> {
        &&& v / 0x0100_0000_0000_0000 % 256 == b0
        &&& v / 0x0001_0000_0000_0000 % 256 == b1
        &&& v / 0x0000_0100_0000_0000 % 256 == b2
        &&& v / 0x0000_0001_0000_0000 % 256 == b3
        &&& v / 0x0000_0000_0100_0000 % 256 == b4
        &&& v / 0x0000_0000_0001_0000 % 256 == b5
        &&& v / 0x0000_0000_0000_0100 % 256 == b6
        &&& v / 0x0000_0000_0000_0001 % 256 == b7
    }) by (bit_vector);
    assert(be_bytes(v) =~= b);
}

/// Hashes a text value.
pub fn content_hash(value: &str) -> (h: u64)
    ensures
        h == checksum_of(value@),
{
    xxhash_rust::xxh3::xxh3_64(value.as_bytes())
}

fn digit(h: u64, unit: u64) -> (r: u8)
    requires
        unit > 0,
    ensures
        r == digit_of(h, unit),
{
    (h / unit % 256) as u8
}

/// Writes `h` as eight big-endian bytes.
pub fn encode_checksum(h: u64) -> (r: Vec<u8>)
    ensures
        r@ == be_bytes(h),
{
    let mut out: Vec<u8> = Vec::new();
    out.push(digit(h, 0x0100_0000_0000_0000));
    out.push(digit(h, 0x0001_0000_0000_0000));
    out.push(digit(h, 0x0000_0100_0000_0000));
    out.push(digit(h, 0x0000_0001_0000_0000));
    out.push(digit(h, 0x0000_0000_0100_0000));
    out.push(digit(h, 0x0000_0000_0001_0000));
    out.push(digit(h, 0x0000_0000_0000_0100));
    out.push(digit(h, 0x0000_0000_0000_0001));
    assert(out@ =~= be_bytes(h));
    out
}

/// Reads a stored checksum: `Some` exactly when `bytes` is eight bytes long.
pub fn decode_checksum(bytes: &[u8]) -> (r: Option<u64>)
    ensures
        r == decoded(bytes@),
{
    if bytes.len() != CHECKSUM_LEN {
        return None;
    }
    let value: u64 = bytes[0] as u64 * 0x0100_0000_0000_0000 + bytes[1] as u64
        * 0x0001_0000_0000_0000 + bytes[2] as u64 * 0x0000_0100_0000_0000 + bytes[3] as u64
        * 0x0000_0001_0000_0000 + bytes[4] as u64 * 0x0000_0000_0100_0000 + bytes[5] as u64
        * 0x0000_0000_0001_0000 + bytes[6] as u64 * 0x0000_0000_0000_0100 + bytes[7] as u64;
    Some(value)
}

} // verus!
