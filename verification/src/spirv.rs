//! SPIR-V bytecode decoding.
//!
//! Shader binaries arrive as raw bytes but SPIR-V is defined over 32-bit
//! words.  Decoding checks 4-byte alignment, reads little-endian words, and
//! detects byte-swapped input by the magic number in word 0, swapping every
//! word back when needed.  Malformed bytecode is a reported error, never a
//! panic.

use vstd::prelude::*;
use crate::EngineError;

verus! {

/// The SPIR-V magic number as read from a little-endian module.
pub const SPV_MAGIC_LE: u32 = 0x0723_0203;

/// The SPIR-V magic number as read from a byte-swapped module.
pub const SPV_MAGIC_BE: u32 = 0x0302_2307;

/// Word `i` of `b` read as a little-endian 32-bit integer.
pub open spec fn le_word_at(b: Seq<u8>, i: int) -> u32 {
    (b[4 * i] + b[4 * i + 1] * 0x100 + b[4 * i + 2] * 0x1_0000 + b[4 * i + 3] * 0x100_0000) as u32
}

/// All of `b` read as little-endian 32-bit words.
pub open spec fn le_words(b: Seq<u8>) -> Seq<u32> {
    Seq::new((b.len() / 4) as nat, |i: int| le_word_at(b, i))
}

/// `w` with its four bytes reversed.
pub open spec fn word_swapped(w: u32) -> u32 {
    ((w % 0x100) * 0x100_0000 + (w / 0x100 % 0x100) * 0x1_0000 + (w / 0x1_0000 % 0x100) * 0x100
        + w / 0x100_0000) as u32
}

/// Whether `b` decodes as SPIR-V: 4-byte aligned, at least one word, and a
/// recognized magic number in word 0.
pub open spec fn spirv_decodes(b: Seq<u8>) -> bool {
    &&& b.len() % 4 == 0
    &&& b.len() >= 4
    &&& (le_word_at(b, 0) == SPV_MAGIC_LE || le_word_at(b, 0) == SPV_MAGIC_BE)
}

/// The decoded words of `b`: its little-endian words, each byte-swapped when
/// the module was byte-swapped.
pub open spec fn spirv_words(b: Seq<u8>) -> Seq<u32> {
    if le_word_at(b, 0) == SPV_MAGIC_LE {
        le_words(b)
    } else {
        le_words(b).map_values(|w: u32| word_swapped(w))
    }
}

/// Decode SPIR-V bytes to their word representation.
pub fn decode_spv(bytes: &[u8]) -> (r: Result<Vec<u32>, EngineError>)
    ensures
        r is Ok <==> spirv_decodes(bytes@),
        r matches Ok(w) ==> w@ == spirv_words(bytes@),
{
    let n = bytes.len();
    if n % 4 != 0 || n == 0 {
        return Err(EngineError::InvalidShaderBytes);
    }
    let mut words: Vec<u32> = Vec::new();
    let mut i: usize = 0;
    while i < n / 4
        invariant
            n == bytes@.len(),
            n % 4 == 0,
            n >= 4,
            i <= n / 4,
            words@.len() == i,
            forall|k: int| 0 <= k < i ==> words@[k] == le_word_at(bytes@, k),
        decreases n / 4 - i,
    {
        let b0 = bytes[4 * i] as u32;
        let b1 = bytes[4 * i + 1] as u32;
        let b2 = bytes[4 * i + 2] as u32;
        let b3 = bytes[4 * i + 3] as u32;
        words.push(b0 + b1 * 0x100 + b2 * 0x1_0000 + b3 * 0x100_0000);
        i = i + 1;
    }
    proof {
        assert(words@ =~= le_words(bytes@));
    }
    let first = words[0];
    if first == SPV_MAGIC_LE {
        Ok(words)
    } else if first == SPV_MAGIC_BE {
        let len = words.len();
        let ghost orig = words@;
        let mut j: usize = 0;
        while j < len
            invariant
                len == orig.len(),
                words@.len() == len,
                j <= len,
                forall|k: int| 0 <= k < j ==> words@[k] == word_swapped(orig[k]),
                forall|k: int| j <= k < len ==> words@[k] == orig[k],
            decreases len - j,
        {
            let w = words[j];
            words[j] = (w % 0x100) * 0x100_0000 + (w / 0x100 % 0x100) * 0x1_0000
                + (w / 0x1_0000 % 0x100) * 0x100 + w / 0x100_0000;
            j = j + 1;
        }
        proof {
            assert(words@ =~= orig.map_values(|w: u32| word_swapped(w)));
        }
        Ok(words)
    } else {
        Err(EngineError::InvalidShaderBytes)
    }
}

} // verus!
