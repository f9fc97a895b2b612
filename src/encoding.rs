use vstd::prelude::*;
use base64::Engine;

verus! {

/// The base58 text (Bitcoin alphabet) of a byte string.
pub uninterp spec fn base58_of(b: Seq<u8>) -> Seq<char>;

/// The bytes a base58 text stands for, or `None` where it holds a character
/// outside the alphabet.
pub uninterp spec fn base58_decoded(s: Seq<char>) -> Option<Seq<u8>>;

/// The standard, padded base64 text of a byte string.
pub uninterp spec fn base64_of(b: Seq<u8>) -> Seq<char>;

/// The bytes a standard, padded base64 text stands for, or `None` where the
/// text is not canonical base64.
pub uninterp spec fn base64_decoded(s: Seq<char>) -> Option<Seq<u8>>;

/// A character of the base58 alphabet: digits without `0`, letters without
/// `I`, `O` and `l`.
pub open spec fn is_base58_char(c: char) -> bool {
    ||| ('1' <= c && c <= '9')
    ||| ('A' <= c && c <= 'Z' && c != 'I' && c != 'O')
    ||| ('a' <= c && c <= 'z' && c != 'l')
}

/// Relies on `bs58::encode(..).into_string()`: the text decodes back to the
/// bytes, is made of alphabet characters, is empty only for no bytes, and
/// takes at most 44 characters for 32 bytes.
#[verifier::external_body]
pub(crate) fn base58_encode(b: &[u8]) -> (r: String)
    ensures
        r@ == base58_of(b@),
        base58_decoded(r@) == Some(b@),
        b@.len() > 0 ==> r@.len() > 0,
        b@.len() <= 32 ==> r@.len() <= 44,
        forall|i: int| 0 <= i < r@.len() ==> is_base58_char(#[trigger] r@[i]),
{
    bs58::encode(b).into_string()
}

/// Relies on `bs58::decode(..).into_vec()`: `Err` exactly where the text is
/// not base58.
#[verifier::external_body]
pub(crate) fn base58_decode(s: &str) -> (r: Option<Vec<u8>>)
    ensures
        match r {
            Some(v) => base58_decoded(s@) == Some(v@),
            None => base58_decoded(s@) is None,
        },
{
    bs58::decode(s).into_vec().ok()
}

/// Relies on `base64::engine::general_purpose::STANDARD.encode`: the text
/// decodes back to the bytes.
#[verifier::external_body]
pub(crate) fn base64_encode(b: &[u8]) -> (r: String)
    ensures
        r@ == base64_of(b@),
        base64_decoded(r@) == Some(b@),
{
    base64::engine::general_purpose::STANDARD.encode(b)
}

/// Relies on `base64::engine::general_purpose::STANDARD.decode`: `Err`
/// exactly where the text is not canonical padded base64.
#[verifier::external_body]
pub(crate) fn base64_decode(s: &str) -> (r: Option<Vec<u8>>)
    ensures
        match r {
            Some(v) => base64_decoded(s@) == Some(v@),
            None => base64_decoded(s@) is None,
        },
{
    base64::engine::general_purpose::STANDARD.decode(s).ok()
}

} // verus!
