//! Provisioning of secrets: 32 random bytes in standard base64.

use crate::outside::{
    base64_standard, base64_text, is_base64_char, is_padded_base64, random_bytes,
};
use vstd::prelude::*;

verus! {

/// The number of random bytes in a secret.
pub const KEY_BYTES: usize = 32;

/// The number of characters of a secret's text.
pub const KEY_CHARS: usize = 44;

/// Whether `text` is the standard base64 of some 32 bytes.
pub open spec fn is_key_text(text: Seq<char>) -> bool {
    exists|bytes: Seq<u8>| bytes.len() == KEY_BYTES && text == #[trigger] base64_text(bytes)
}

/// The shape of a secret's text: 43 characters of the standard base64
/// alphabet and one closing `=`.
pub open spec fn has_key_shape(text: Seq<char>) -> bool {
    &&& text.len() == KEY_CHARS
    &&& text[43] == '='
    &&& forall|i: int| 0 <= i < 43 ==> is_base64_char(#[trigger] text[i])
}

/// The text of a secret: standard base64 with padding, four characters for
/// every three bytes begun, so 43 characters and one `=` for 32 bytes.
pub fn encode_key(bytes: &[u8]) -> (r: String)
    ensures
        r@ == base64_text(bytes@),
        is_padded_base64(r@, bytes@.len()),
        bytes@.len() == KEY_BYTES ==> is_key_text(r@) && has_key_shape(r@),
{
    base64_standard(bytes)
}

/// The secret that an entropy source's outcome gives: the standard base64
/// of its 32 bytes, and none where it gave none or another number of bytes.
pub open spec fn key_from(entropy: Option<Seq<u8>>) -> Option<Seq<char>> {
    match entropy {
        Some(bytes) => if bytes.len() == KEY_BYTES {
            Some(base64_text(bytes))
        } else {
            None
        },
        None => None,
    }
}

/// A secret, or none, with the text taken by its view.
pub open spec fn key_view(key: Option<String>) -> Option<Seq<char>> {
    match key {
        Some(text) => Some(text@),
        None => None,
    }
}

/// What an entropy source gave, with the bytes taken by their view.
pub open spec fn drawn(entropy: Option<Vec<u8>>) -> Option<Seq<u8>> {
    match entropy {
        Some(bytes) => Some(bytes@),
        None => None,
    }
}

/// The secret for what an entropy source gave: the text of its 32 bytes, and
/// none where the source failed or gave another number of bytes.
pub fn secret_key_from(entropy: Option<Vec<u8>>) -> (r: Option<String>)
    ensures
        key_view(r) == key_from(drawn(entropy)),
        r matches Some(text) ==> is_key_text(text@) && has_key_shape(text@),
{
    match entropy {
        Some(bytes) => if bytes.len() == KEY_BYTES {
            Some(encode_key(bytes.as_slice()))
        } else {
            None
        },
        None => None,
    }
}

/// A fresh secret: 32 bytes from the operating system's entropy source, as
/// text. `None` only where that source fails.
pub fn secret_key() -> (r: Option<String>)
    ensures
        exists|entropy: Option<Seq<u8>>| key_view(r) == #[trigger] key_from(entropy),
        r matches Some(text) ==> is_key_text(text@) && has_key_shape(text@),
{
    let entropy = random_bytes(KEY_BYTES);
    let r = secret_key_from(entropy);
    proof {
        assert(key_view(r) == key_from(drawn(entropy)));
    }
    r
}

} // verus!
