//! Buffer contents as bytes.
//!
//! Uniform blocks and index lists are handed to the device as bytes in the
//! byte order of the machine. The reinterpretation is done by `bytemuck`;
//! what it yields is stated here for both byte orders.

use vstd::prelude::*;

verus! {

/// Byte `k` of a 32-bit word, byte 0 being the least significant.
pub open spec fn spec_u32_byte(word: u32, k: int) -> u8 {
    if k == 0 {
        (word % 256) as u8
    } else if k == 1 {
        ((word / 0x100) % 256) as u8
    } else if k == 2 {
        ((word / 0x1_0000) % 256) as u8
    } else {
        ((word / 0x100_0000) % 256) as u8
    }
}

/// Byte `k` of a 16-bit word, byte 0 being the least significant.
pub open spec fn spec_u16_byte(word: u16, k: int) -> u8 {
    if k == 0 {
        (word % 256) as u8
    } else {
        ((word / 0x100) % 256) as u8
    }
}

/// The bytes of a list of 32-bit words laid end to end, each word least
/// significant byte first if `little_endian`, most significant first if not.
pub open spec fn spec_u32_bytes(words: Seq<u32>, little_endian: bool) -> Seq<u8> {
    Seq::new(
        4 * words.len(),
        |i: int|
            spec_u32_byte(
                words[i / 4],
                if little_endian {
                    i % 4
                } else {
                    3 - i % 4
                },
            ),
    )
}

/// The bytes of a list of 16-bit words laid end to end, each word least
/// significant byte first if `little_endian`, most significant first if not.
pub open spec fn spec_u16_bytes(words: Seq<u16>, little_endian: bool) -> Seq<u8> {
    Seq::new(
        2 * words.len(),
        |i: int|
            spec_u16_byte(
                words[i / 2],
                if little_endian {
                    i % 2
                } else {
                    1 - i % 2
                },
            ),
    )
}

/// Calls `bytemuck::cast_slice` from `u32` to `u8` and copies the result.
/// The cast reinterprets the words' memory, so it yields four bytes per
/// word, in the machine's byte order; it cannot fail, since bytes need no
/// alignment and any number of words is a whole number of bytes. Trusted:
/// that the result is the words' bytes in one of the two byte orders.
#[verifier::external_body]
fn cast_u32_slice(words: &[u32]) -> (bytes: Vec<u8>)
    ensures
        bytes@ == spec_u32_bytes(words@, true) || bytes@ == spec_u32_bytes(words@, false),
{
    bytemuck::cast_slice::<u32, u8>(words).to_vec()
}

/// Calls `bytemuck::cast_slice` from `u16` to `u8` and copies the result.
/// The cast reinterprets the words' memory, so it yields two bytes per
/// word, in the machine's byte order; it cannot fail. Trusted: that the
/// result is the words' bytes in one of the two byte orders.
#[verifier::external_body]
fn cast_u16_slice(words: &[u16]) -> (bytes: Vec<u8>)
    ensures
        bytes@ == spec_u16_bytes(words@, true) || bytes@ == spec_u16_bytes(words@, false),
{
    bytemuck::cast_slice::<u16, u8>(words).to_vec()
}

/// The bytes to upload for a uniform block given as 32-bit words: four per
/// word, in the machine's byte order.
pub fn words_to_bytes(words: &Vec<u32>) -> (bytes: Vec<u8>)
    ensures
        bytes@ == spec_u32_bytes(words@, true) || bytes@ == spec_u32_bytes(words@, false),
        bytes@.len() == 4 * words@.len(),
{
    cast_u32_slice(words.as_slice())
}

/// The bytes to upload for a list of 16-bit indices: two per index, in the
/// machine's byte order.
pub fn indices_to_bytes(indices: &Vec<u16>) -> (bytes: Vec<u8>)
    ensures
        bytes@ == spec_u16_bytes(indices@, true) || bytes@ == spec_u16_bytes(indices@, false),
        bytes@.len() == 2 * indices@.len(),
{
    cast_u16_slice(indices.as_slice())
}

/// Whichever the byte order, the bytes determine the words: two lists of
/// words with the same bytes in the same order are the same list.
pub proof fn lemma_u32_bytes_injective(a: Seq<u32>, b: Seq<u32>, little_endian: bool)
    requires
        spec_u32_bytes(a, little_endian) == spec_u32_bytes(b, little_endian),
    ensures
        a == b,
{
    let x = spec_u32_bytes(a, little_endian);
    let y = spec_u32_bytes(b, little_endian);
    assert(x.len() == 4 * a.len());
    assert(y.len() == 4 * b.len());
    assert(a.len() == b.len());
    assert forall|i: int| 0 <= i < a.len() implies a[i] == b[i] by {
        assert forall|k: int| 0 <= k < 4 implies spec_u32_byte(a[i], k) == spec_u32_byte(
            b[i],
            k,
        ) by {
            let at: int = if little_endian {
                4 * i + k
            } else {
                4 * i + 3 - k
            };
            assert(at / 4 == i);
            assert(at % 4 == if little_endian {
                k
            } else {
                3 - k
            });
            assert(x[at] == spec_u32_byte(a[i], k));
            assert(y[at] == spec_u32_byte(b[i], k));
        }
        assert(spec_u32_byte(a[i], 0) == spec_u32_byte(b[i], 0));
        assert(spec_u32_byte(a[i], 1) == spec_u32_byte(b[i], 1));
        assert(spec_u32_byte(a[i], 2) == spec_u32_byte(b[i], 2));
        assert(spec_u32_byte(a[i], 3) == spec_u32_byte(b[i], 3));
        lemma_u32_from_bytes(a[i]);
        lemma_u32_from_bytes(b[i]);
    }
    assert(a =~= b);
}

/// A word is the sum of its bytes, each weighted by its place.
pub proof fn lemma_u32_from_bytes(word: u32)
    ensures
        word == spec_u32_byte(word, 0) + 0x100 * spec_u32_byte(word, 1) + 0x1_0000 * spec_u32_byte(
            word,
            2,
        ) + 0x100_0000 * spec_u32_byte(word, 3),
{
}

} // verus!
