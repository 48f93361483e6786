use vstd::prelude::*;

verus! {

/// Why a program image was refused.
#[derive(Clone, Copy, Debug, PartialEq, Eq, Structural)]
pub enum LoadError {
    /// The image has an odd number of bytes.
    OddLength,
    /// The image holds more words than the program store.
    TooLarge,
}

/// Largest image, in bytes, that fits a store of 4096 words.
pub const MAX_IMAGE_BYTES: usize = 8192;

/// Word `i` of an image: bytes `2i` and `2i + 1`, the first one high.
pub open spec fn word_at(bytes: Seq<u8>, i: int) -> u16 {
    (bytes[2 * i] as int * 256 + bytes[2 * i + 1] as int) as u16
}

/// The words an image of even length encodes, in order.
pub open spec fn words_spec(bytes: Seq<u8>) -> Seq<u16> {
    Seq::new(bytes.len() / 2, |i: int| word_at(bytes, i))
}

/// What loading an image gives, or why it is refused.
pub open spec fn load_spec(bytes: Seq<u8>) -> Result<Seq<u16>, LoadError> {
    if bytes.len() % 2 != 0 {
        Err(LoadError::OddLength)
    } else if bytes.len() > MAX_IMAGE_BYTES {
        Err(LoadError::TooLarge)
    } else {
        Ok(words_spec(bytes))
    }
}

/// Pairs the bytes of an image into big-endian words. An odd length or more
/// than 4096 words is refused.
pub fn words_from_bytes(bytes: &Vec<u8>) -> (r: Result<Vec<u16>, LoadError>)
    ensures
        match load_spec(bytes@) {
            Ok(ws) => r is Ok && r->Ok_0@ == ws,
            Err(e) => r == Err::<Vec<u16>, LoadError>(e),
        },
{
    if bytes.len() % 2 != 0 {
        return Err(LoadError::OddLength);
    }
    if bytes.len() > MAX_IMAGE_BYTES {
        return Err(LoadError::TooLarge);
    }
    let n = bytes.len() / 2;
    let mut words: Vec<u16> = Vec::new();
    let mut i: usize = 0;
    while i < n
        invariant
            n == bytes@.len() / 2,
            bytes@.len() % 2 == 0,
            bytes@.len() <= MAX_IMAGE_BYTES,
            i <= n,
            words@.len() == i,
            forall|k: int| 0 <= k < i ==> #[trigger] words@[k] == word_at(bytes@, k),
        decreases n - i,
    {
        let w: u16 = bytes[2 * i] as u16 * 256 + bytes[2 * i + 1] as u16;
        words.push(w);
        i = i + 1;
    }
    assert(words@ =~= words_spec(bytes@));
    Ok(words)
}

} // verus!
