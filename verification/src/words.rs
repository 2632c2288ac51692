//! Byte images of 32-bit words, as they are laid out in GPU buffers.

use vstd::prelude::*;

verus! {

/// Why bytes were not accepted as the image of words.
#[derive(Clone, Copy, Debug, PartialEq, Eq, Structural)]
pub enum ImageError {
    /// The bytes are not the words least significant byte first, which is
    /// how the shaders read them.
    ByteOrder,
}

/// Byte `k` of the word `w`, counted from the least significant one.
pub open spec fn word_byte(w: u32, k: int) -> u8 {
    if k == 0 {
        (w % 0x100) as u8
    } else if k == 1 {
        (w / 0x100 % 0x100) as u8
    } else if k == 2 {
        (w / 0x1_0000 % 0x100) as u8
    } else {
        (w / 0x100_0000 % 0x100) as u8
    }
}

/// The little-endian byte image of a sequence of words: four bytes for each
/// word, in order.
pub open spec fn le_image(words: Seq<u32>) -> Seq<u8> {
    Seq::new(4 * words.len(), |i: int| word_byte(words[i / 4], i % 4))
}

/// Reinterprets the words as the bytes they occupy in memory, through
/// `bytemuck::cast_slice`.  The cast from `u32` to `u8` cannot fail; the
/// result has four bytes for each word.  Their order within a word is the
/// host's, and nothing is claimed of it.
#[verifier::external_body]
fn memory_image(words: &[u32]) -> (bytes: Vec<u8>)
    ensures
        bytes@.len() == 4 * words@.len(),
{
    bytemuck::cast_slice::<u32, u8>(words).to_vec()
}

/// Whether `bytes` is the little-endian image of `words`.
pub fn is_le_image(words: &[u32], bytes: &[u8]) -> (ok: bool)
    ensures
        ok == (bytes@ == le_image(words@)),
{
    if bytes.len() % 4 != 0 || bytes.len() / 4 != words.len() {
        return false;
    }
    let mut i: usize = 0;
    while i < words.len()
        invariant
            i <= words.len(),
            bytes@.len() == 4 * words@.len(),
            bytes@.len() == bytes.len() <= usize::MAX,
            forall|j: int| 0 <= j < 4 * i ==> bytes@[j] == #[trigger] le_image(words@)[j],
        decreases words.len() - i,
    {
        let w: u32 = words[i];
        let b0: u8 = (w % 0x100) as u8;
        let b1: u8 = (w / 0x100 % 0x100) as u8;
        let b2: u8 = (w / 0x1_0000 % 0x100) as u8;
        let b3: u8 = (w / 0x100_0000 % 0x100) as u8;
        if bytes[4 * i] != b0 || bytes[4 * i + 1] != b1 || bytes[4 * i + 2] != b2 || bytes[4 * i
            + 3] != b3 {
            proof {
                let img = le_image(words@);
                assert(img[4 * i] == b0);
                assert(img[4 * i + 1] == b1);
                assert(img[4 * i + 2] == b2);
                assert(img[4 * i + 3] == b3);
            }
            return false;
        }
        proof {
            let img = le_image(words@);
            assert forall|j: int| 0 <= j < 4 * (i + 1) implies bytes@[j] == #[trigger] img[j] by {
                if j >= 4 * i {
                    assert(j / 4 == i);
                }
            }
        }
        i += 1;
    }
    assert(bytes@ =~= le_image(words@));
    true
}

/// Accepts bytes as the image of `words` only if they are the little-endian
/// one, and hands them on as they are.
pub fn check_image(words: &[u32], bytes: Vec<u8>) -> (r: Result<Vec<u8>, ImageError>)
    ensures
        r is Ok <==> bytes@ == le_image(words@),
        r matches Ok(b) ==> b@ == bytes@,
        r matches Err(e) ==> e == ImageError::ByteOrder,
{
    if is_le_image(words, bytes.as_slice()) {
        Ok(bytes)
    } else {
        Err(ImageError::ByteOrder)
    }
}

/// The little-endian image of `words`, byte by byte.
pub fn le_bytes(words: &[u32]) -> (bytes: Vec<u8>)
    ensures
        bytes@ == le_image(words@),
{
    let ghost whole = le_image(words@);
    let mut bytes: Vec<u8> = Vec::new();
    let mut i: usize = 0;
    while i < words.len()
        invariant
            i <= words.len(),
            whole == le_image(words@),
            bytes@.len() == 4 * i,
            forall|j: int| 0 <= j < 4 * i ==> bytes@[j] == #[trigger] whole[j],
        decreases words.len() - i,
    {
        let w: u32 = words[i];
        bytes.push((w % 0x100) as u8);
        bytes.push((w / 0x100 % 0x100) as u8);
        bytes.push((w / 0x1_0000 % 0x100) as u8);
        bytes.push((w / 0x100_0000 % 0x100) as u8);
        proof {
            assert forall|j: int| 0 <= j < 4 * (i + 1) implies bytes@[j] == #[trigger] whole[j] by {
                if j >= 4 * i {
                    assert(j / 4 == i);
                    assert(j % 4 == j - 4 * i);
                }
            }
        }
        i += 1;
    }
    assert(bytes@ =~= whole);
    bytes
}

/// The bytes to upload for `words`: their little-endian image, on every
/// host.  The image is taken from memory as it lies there; where the host
/// keeps its words in another order, it is written out byte by byte instead.
pub fn pack_words(words: &[u32]) -> (bytes: Vec<u8>)
    ensures
        bytes@ == le_image(words@),
{
    match check_image(words, memory_image(words)) {
        Ok(bytes) => bytes,
        Err(_) => le_bytes(words),
    }
}

} // verus!
