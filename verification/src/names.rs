//! Names as the host's C interface takes them: the bytes of the name followed
//! by a single zero byte, with no zero byte before it. A name has such a form
//! unless it holds the NUL character.

use vstd::prelude::*;
use vstd::slice::slice_to_vec;
use vstd::string::StringSliceAdditionalSpecFns;
use vstd::utf8::{encode_scalar, encode_utf8, is_scalar};

verus! {

/// Whether a name has a C form: it holds no NUL character.
pub open spec fn is_c_name(name: Seq<char>) -> bool {
    !name.contains('\0')
}

/// Whether `bytes` holds a zero byte.
pub open spec fn has_nul(bytes: Seq<u8>) -> bool {
    exists|i: int| 0 <= i < bytes.len() && bytes[i] == 0u8
}

/// Whether `position` is the place of the first zero byte of `bytes`.
pub open spec fn is_first_nul(bytes: Seq<u8>, position: int) -> bool {
    &&& 0 <= position < bytes.len()
    &&& bytes[position] == 0u8
    &&& forall|j: int| 0 <= j < position ==> bytes[j] != 0u8
}

/// The C form of a name: its bytes, then the terminating zero byte.
pub open spec fn nul_terminated(bytes: Seq<u8>) -> Seq<u8> {
    bytes.push(0u8)
}

/// Why a name has no C form: it holds a zero byte, the first one at
/// `position`.
#[derive(Clone, Copy, Debug, PartialEq, Eq, Structural)]
pub struct NulError {
    pub position: usize,
}

/// The encoding of a character holds a zero byte only where the character
/// is NUL, whose encoding is that one byte.
proof fn lemma_scalar_nul(scalar: u32)
    requires
        is_scalar(scalar),
    ensures
        has_nul(encode_scalar(scalar)) <==> scalar == 0,
{
    let bytes = encode_scalar(scalar);
    if scalar <= 0x7F {
        assert((scalar & 0x7F) as u8 == 0u8 <==> scalar == 0) by (bit_vector)
            requires
                scalar <= 0x7F,
        ;
        assert(bytes[0] == 0u8 <==> scalar == 0);
    } else {
        assert(0xC0u8 | ((scalar >> 6) & 0x1F) as u8 != 0u8) by (bit_vector);
        assert(0xE0u8 | ((scalar >> 12) & 0x0F) as u8 != 0u8) by (bit_vector);
        assert(0xF0u8 | ((scalar >> 18) & 0x7) as u8 != 0u8) by (bit_vector);
        assert(0x80u8 | (scalar & 0x3F) as u8 != 0u8) by (bit_vector);
        assert(0x80u8 | ((scalar >> 6) & 0x3F) as u8 != 0u8) by (bit_vector);
        assert(0x80u8 | ((scalar >> 12) & 0x3F) as u8 != 0u8) by (bit_vector);
    }
}

/// The bytes of a text hold a zero byte exactly when the text holds the NUL
/// character.
pub proof fn lemma_nul_byte_iff_nul_char(chars: Seq<char>)
    ensures
        has_nul(encode_utf8(chars)) <==> chars.contains('\0'),
    decreases chars.len(),
{
    if chars.len() > 0 {
        let head = encode_scalar(chars[0] as u32);
        let tail = encode_utf8(chars.drop_first());
        let rest = chars.drop_first();
        vstd::utf8::char_is_scalar(chars[0]);
        lemma_scalar_nul(chars[0] as u32);
        lemma_nul_byte_iff_nul_char(rest);
        assert(chars[0] as u32 == 0 <==> chars[0] == '\0') by {
            if chars[0] as u32 == 0 {
                vstd::utf8::char_u32_cast(chars[0], 0u32);
                vstd::utf8::char_u32_cast('\0', 0u32);
            }
        }
        if has_nul(head + tail) {
            let i = choose|i: int| 0 <= i < (head + tail).len() && (head + tail)[i] == 0u8;
            if i < head.len() {
                assert(head[i] == 0u8);
            } else {
                assert(tail[i - head.len()] == 0u8);
            }
        }
        if has_nul(head) {
            let i = choose|i: int| 0 <= i < head.len() && head[i] == 0u8;
            assert((head + tail)[i] == 0u8);
        }
        if has_nul(tail) {
            let i = choose|i: int| 0 <= i < tail.len() && tail[i] == 0u8;
            assert((head + tail)[i + head.len()] == 0u8);
        }
        assert(has_nul(head + tail) <==> has_nul(head) || has_nul(tail));
        if chars.contains('\0') {
            let i = choose|i: int| 0 <= i < chars.len() && chars[i] == '\0';
            if i > 0 {
                assert(rest[i - 1] == '\0');
            }
        }
        if rest.contains('\0') {
            let i = choose|i: int| 0 <= i < rest.len() && rest[i] == '\0';
            assert(chars[i + 1] == '\0');
        }
        assert(chars.contains('\0') <==> chars[0] == '\0' || rest.contains('\0'));
    }
}

/// Finds the first zero byte of `bytes`.
pub fn find_nul(bytes: &[u8]) -> (r: Option<usize>)
    ensures
        match r {
            Some(position) => is_first_nul(bytes@, position as int),
            None => !has_nul(bytes@),
        },
{
    let mut i: usize = 0;
    while i < bytes.len()
        invariant
            i <= bytes.len(),
            forall|j: int| 0 <= j < i ==> bytes@[j] != 0u8,
        decreases bytes.len() - i,
    {
        if bytes[i] == 0 {
            return Some(i);
        }
        i += 1;
    }
    None
}

/// Turns `name` into its C form.
///
/// Fails exactly when the name holds the NUL character, and then tells where
/// among the name's bytes the first zero byte is. The C form of a name has
/// its only zero byte at the end.
pub fn c_string(name: &str) -> (r: Result<Vec<u8>, NulError>)
    ensures
        r is Ok <==> is_c_name(name@),
        match r {
            Ok(bytes) => {
                &&& bytes@ == nul_terminated(name.spec_bytes())
                &&& is_first_nul(bytes@, bytes@.len() - 1)
            },
            Err(e) => is_first_nul(name.spec_bytes(), e.position as int),
        },
{
    proof {
        lemma_nul_byte_iff_nul_char(name@);
    }
    let bytes = name.as_bytes();
    match find_nul(bytes) {
        Some(position) => Err(NulError { position }),
        None => {
            let mut out = slice_to_vec(bytes);
            out.push(0);
            Ok(out)
        },
    }
}

} // verus!
