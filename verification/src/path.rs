//! Socket paths as the platform takes them: NUL-terminated byte strings.

use crate::error::Error;
use vstd::prelude::*;
use vstd::utf8::{encode_scalar, encode_utf8};

verus! {

/// Whether `path` can be written as a NUL-terminated platform string: its
/// UTF-8 encoding holds no zero byte.
pub open spec fn representable(path: Seq<char>) -> bool {
    !encode_utf8(path).contains(0u8)
}

/// `path` as the platform takes it: its UTF-8 encoding, then the terminating
/// zero byte.
pub open spec fn platform_string(path: Seq<char>) -> Seq<u8> {
    encode_utf8(path).push(0u8)
}

/// Whether `bytes` is a C string: a run of non-zero bytes closed by one zero
/// byte.
pub open spec fn is_c_string(bytes: Seq<u8>) -> bool {
    &&& bytes.len() > 0
    &&& bytes.last() == 0u8
    &&& forall|i: int| 0 <= i < bytes.len() - 1 ==> bytes[i] != 0u8
}

/// Writes `path` as a NUL-terminated platform string, or fails with
/// [`Error::InvalidInput`] if it holds a zero byte.
pub fn to_platform_string(path: &str) -> (r: Result<Vec<u8>, Error>)
    ensures
        r is Ok <==> representable(path@),
        r matches Ok(bytes) ==> bytes@ == platform_string(path@) && is_c_string(bytes@),
        r matches Err(e) ==> e == Error::InvalidInput,
{
    let bytes = path.as_bytes();
    let mut out: Vec<u8> = Vec::new();
    let mut i: usize = 0;
    while i < bytes.len()
        invariant
            i <= bytes.len(),
            bytes@ == encode_utf8(path@),
            out@ == bytes@.subrange(0, i as int),
            forall|j: int| 0 <= j < i ==> bytes@[j] != 0u8,
        decreases bytes.len() - i,
    {
        let b: u8 = bytes[i];
        if b == 0 {
            return Err(Error::InvalidInput);
        }
        out.push(b);
        i += 1;
    }
    out.push(0);
    proof {
        lemma_platform_string_is_c_string(path@);
    }
    Ok(out)
}

/// The platform string of a representable path is a C string: the only zero
/// byte in it is the terminator.
pub proof fn lemma_platform_string_is_c_string(path: Seq<char>)
    requires
        representable(path),
    ensures
        is_c_string(platform_string(path)),
        platform_string(path).len() == encode_utf8(path).len() + 1,
{
    let encoded = encode_utf8(path);
    assert forall|i: int| 0 <= i < encoded.len() implies platform_string(path)[i] != 0u8 by {
        assert(encoded[i] != 0u8);
    }
}

/// A path can be handed to the platform exactly when none of its characters
/// is NUL: UTF-8 writes a zero byte for that character and for no other.
pub proof fn lemma_representable_iff_no_nul(path: Seq<char>)
    ensures
        representable(path) <==> !path.contains('\0'),
    decreases path.len(),
{
    if path.len() > 0 {
        let head = encode_scalar(path[0] as u32);
        let tail = encode_utf8(path.drop_first());
        lemma_scalar_zero_byte(path[0]);
        lemma_representable_iff_no_nul(path.drop_first());
        assert(encode_utf8(path) == head + tail);
        if head.contains(0u8) {
            let i = choose|i: int| 0 <= i < head.len() && head[i] == 0u8;
            assert((head + tail)[i] == 0u8);
        }
        if tail.contains(0u8) {
            let i = choose|i: int| 0 <= i < tail.len() && tail[i] == 0u8;
            assert((head + tail)[head.len() + i] == 0u8);
        }
        if (head + tail).contains(0u8) {
            let i = choose|i: int| 0 <= i < (head + tail).len() && (head + tail)[i] == 0u8;
            if i < head.len() {
                assert(head[i] == 0u8);
            } else {
                assert(tail[i - head.len()] == 0u8);
            }
        }
        if path.contains('\0') {
            let i = choose|i: int| 0 <= i < path.len() && path[i] == '\0';
            if i > 0 {
                assert(path.drop_first()[i - 1] == '\0');
            }
        }
        if path.drop_first().contains('\0') {
            let i = choose|i: int|
                0 <= i < path.drop_first().len() && path.drop_first()[i] == '\0';
            assert(path[i + 1] == '\0');
        }
    }
}

/// The encoding of one character holds a zero byte exactly when the character
/// is NUL.
proof fn lemma_scalar_zero_byte(c: char)
    ensures
        encode_scalar(c as u32).contains(0u8) <==> c == '\0',
{
    let v = c as u32;
    let enc = encode_scalar(v);
    lemma_marked_bytes_nonzero(v);
    if v <= 0x7F {
        lemma_low_byte_zero(v);
        assert(enc[0] == (v & 0x7F) as u8);
    }
    if enc.contains(0u8) {
        let i = choose|i: int| 0 <= i < enc.len() && enc[i] == 0u8;
        assert(enc[i] == 0u8);
    }
}

/// The one-byte encoding of a scalar is zero only for the scalar zero.
proof fn lemma_low_byte_zero(v: u32)
    by (bit_vector)
    requires
        v <= 0x7F,
    ensures
        ((v & 0x7F) as u8 == 0u8) <==> v == 0,
{
}

/// Leading bytes of longer encodings and continuation bytes are never zero.
proof fn lemma_marked_bytes_nonzero(v: u32)
    by (bit_vector)
    ensures
        0xC0u8 | ((v >> 6) & 0x1F) as u8 != 0u8,
        0xE0u8 | ((v >> 12) & 0x0F) as u8 != 0u8,
        0xF0u8 | ((v >> 18) & 0x7) as u8 != 0u8,
        0x80u8 | (v & 0x3F) as u8 != 0u8,
        0x80u8 | ((v >> 6) & 0x3F) as u8 != 0u8,
        0x80u8 | ((v >> 12) & 0x3F) as u8 != 0u8,
{
}

} // verus!
