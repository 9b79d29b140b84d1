//! How instructions and their arguments are written as bytes.
//!
//! Instruction data opens with eight bytes that name the instruction. The
//! arguments follow, field by field. A string is the length of its UTF-8
//! encoding as a 32-bit number, least significant byte first, and then the
//! encoding itself.

use vstd::prelude::*;
use vstd::utf8::{
    decode_utf8, encode_utf8, encode_utf8_decode_utf8, encode_utf8_valid_utf8, valid_utf8,
};

verus! {

/// The opening bytes of `create_collection`.
pub const CREATE_COLLECTION: [u8; 8] = [156, 251, 92, 54, 233, 2, 16, 82];

/// The opening bytes of `create_asset`.
pub const CREATE_ASSET: [u8; 8] = [28, 42, 120, 51, 7, 38, 156, 136];

/// The opening bytes of `freeze_asset`.
pub const FREEZE_ASSET: [u8; 8] = [91, 253, 207, 2, 6, 105, 80, 236];

/// The opening bytes of `transfer_asset`.
pub const TRANSFER_ASSET: [u8; 8] = [126, 66, 109, 18, 60, 172, 131, 124];

/// The opening bytes of `burn_asset`.
pub const BURN_ASSET: [u8; 8] = [136, 86, 28, 181, 100, 202, 225, 221];

/// The opening bytes of `initialize`, the one instruction of the reduced
/// surface.
pub const INITIALIZE: [u8; 8] = [175, 175, 109, 31, 13, 152, 155, 237];

/// Whether instruction data opens with the given eight bytes.
pub open spec fn opens_with(data: Seq<u8>, discriminator: [u8; 8]) -> bool {
    data.len() >= 8 && data.subrange(0, 8) == discriminator@
}

/// A 32-bit length, least significant byte first.
pub open spec fn le_u32(n: int) -> Seq<u8> {
    seq![
        (n % 256) as u8,
        ((n / 256) % 256) as u8,
        ((n / 65536) % 256) as u8,
        ((n / 16777216) % 256) as u8,
    ]
}

/// The number that four bytes stand for, least significant byte first.
pub open spec fn le_u32_value(bytes: Seq<u8>) -> int {
    bytes[0] + 256 * bytes[1] + 65536 * bytes[2] + 16777216 * bytes[3]
}

/// A string as instruction data carries it.
pub open spec fn encoded_string(s: Seq<char>) -> Seq<u8> {
    le_u32(encode_utf8(s).len() as int) + encode_utf8(s)
}

/// Whether a string's UTF-8 encoding is short enough for its length to be
/// written in 32 bits.
pub open spec fn fits_length_prefix(s: Seq<char>) -> bool {
    encode_utf8(s).len() <= u32::MAX
}

/// The string that starts at `pos`, with the position just after it, if
/// the bytes from `pos` on hold one.
pub open spec fn string_field(data: Seq<u8>, pos: int) -> Option<(Seq<char>, int)> {
    if pos + 4 > data.len() {
        None
    } else {
        let n = le_u32_value(data.subrange(pos, pos + 4));
        let start = pos + 4;
        if start + n > data.len() {
            None
        } else if !valid_utf8(data.subrange(start, start + n)) {
            None
        } else {
            Some((decode_utf8(data.subrange(start, start + n)), start + n))
        }
    }
}

/// The name and the URI that follow the opening bytes, if the data holds
/// both. What follows them is not looked at.
pub open spec fn name_and_uri(data: Seq<u8>) -> Option<(Seq<char>, Seq<char>)> {
    match string_field(data, 8) {
        None => None,
        Some((name, next)) => match string_field(data, next) {
            None => None,
            Some((uri, _)) => Some((name, uri)),
        },
    }
}

/// Whether instruction data opens with the given eight bytes.
pub fn starts_with(data: &[u8], discriminator: &[u8; 8]) -> (r: bool)
    ensures
        r == opens_with(data@, *discriminator),
{
    if data.len() < 8 {
        return false;
    }
    let mut i: usize = 0;
    while i < 8
        invariant
            i <= 8,
            data@.len() >= 8,
            forall|j: int| 0 <= j < i ==> data@[j] == discriminator@[j],
        decreases 8 - i,
    {
        if data[i] != discriminator[i] {
            assert(data@.subrange(0, 8)[i as int] == data@[i as int]);
            return false;
        }
        i += 1;
    }
    assert(data@.subrange(0, 8) =~= discriminator@);
    true
}

/// Whether a string is short enough for its length to be written in 32
/// bits.
pub fn fits(s: &String) -> (r: bool)
    ensures
        r == fits_length_prefix(s@),
{
    s.as_str().as_bytes().len() <= 0xffff_ffff
}

/// Reads the 32-bit number at `pos`.
pub fn read_le_u32(data: &[u8], pos: usize) -> (n: u32)
    requires
        pos + 4 <= data@.len(),
    ensures
        n == le_u32_value(data@.subrange(pos as int, pos + 4)),
{
    let b0: u32 = data[pos] as u32;
    let b1: u32 = data[pos + 1] as u32;
    let b2: u32 = data[pos + 2] as u32;
    let b3: u32 = data[pos + 3] as u32;
    b0 + 256 * b1 + 65536 * b2 + 16777216 * b3
}

/// Calls `String::from_utf8`. Trusted, as std documents it: the bytes
/// become a string exactly when they are valid UTF-8, and the string's
/// UTF-8 encoding is then those bytes.
#[verifier::external_body]
fn string_from_utf8(bytes: Vec<u8>) -> (r: Option<String>)
    ensures
        r is Some <==> valid_utf8(bytes@),
        r matches Some(s) ==> encode_utf8(s@) == bytes@,
{
    match String::from_utf8(bytes) {
        Ok(s) => Some(s),
        Err(_) => None,
    }
}

/// Reads the string that starts at `pos`, and gives the position just
/// after it.
pub fn read_string(data: &[u8], pos: usize) -> (r: Option<(String, usize)>)
    ensures
        match r {
            Some((s, next)) => string_field(data@, pos as int) == Some((s@, next as int))
                && fits_length_prefix(s@),
            None => string_field(data@, pos as int) is None,
        },
{
    if pos > data.len() || data.len() - pos < 4 {
        return None;
    }
    let n = read_le_u32(data, pos) as usize;
    let start = pos + 4;
    if data.len() - start < n {
        return None;
    }
    let mut bytes: Vec<u8> = Vec::new();
    let mut i: usize = 0;
    while i < n
        invariant
            i <= n,
            start + n <= data.len(),
            bytes@ == data@.subrange(start as int, start + i),
        decreases n - i,
    {
        bytes.push(data[start + i]);
        i += 1;
    }
    match string_from_utf8(bytes) {
        Some(s) => {
            proof {
                encode_utf8_decode_utf8(s@);
            }
            Some((s, start + n))
        },
        None => None,
    }
}

/// A length written as four bytes reads back as itself.
pub proof fn lemma_length_reads_back(n: int)
    requires
        0 <= n <= u32::MAX,
    ensures
        le_u32(n).len() == 4,
        le_u32_value(le_u32(n)) == n,
{
}

/// A string written into instruction data reads back as itself, whatever
/// stands before and after it.
pub proof fn lemma_string_reads_back(before: Seq<u8>, s: Seq<char>, after: Seq<u8>)
    requires
        fits_length_prefix(s),
    ensures
        string_field(before + encoded_string(s) + after, before.len() as int) == Some(
            (s, (before.len() + encoded_string(s).len()) as int),
        ),
        encoded_string(s).len() == 4 + encode_utf8(s).len(),
{
    let bytes = encode_utf8(s);
    let n = bytes.len() as int;
    let data = before + encoded_string(s) + after;
    let pos = before.len() as int;
    lemma_length_reads_back(n);
    assert(data.subrange(pos, pos + 4) =~= le_u32(n));
    assert(data.subrange(pos + 4, pos + 4 + n) =~= bytes);
    encode_utf8_valid_utf8(s);
    encode_utf8_decode_utf8(s);
}

} // verus!
