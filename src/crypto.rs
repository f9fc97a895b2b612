use vstd::prelude::*;
use ed25519_dalek::Signer;
use ed25519_dalek::Verifier;

verus! {

/// The Ed25519 public key derived from a 32-byte secret key.
pub uninterp spec fn public_of(secret: Seq<u8>) -> Seq<u8>;

/// Whether 32 bytes decompress to a point of the curve, that is, parse as a
/// public key.
pub uninterp spec fn point_decodes(public: Seq<u8>) -> bool;

/// The Ed25519 signature of a message under a 64-byte keypair (secret key
/// followed by public key).
pub uninterp spec fn signature_of(keypair: Seq<u8>, msg: Seq<u8>) -> Seq<u8>;

/// Whether a signature is accepted for a message under a public key.
pub uninterp spec fn verifies(public: Seq<u8>, msg: Seq<u8>, sig: Seq<u8>) -> bool;

/// The secret half of a 64-byte keypair.
pub open spec fn secret_half(keypair: Seq<u8>) -> Seq<u8> {
    keypair.subrange(0, 32)
}

/// The public half of a 64-byte keypair.
pub open spec fn public_half(keypair: Seq<u8>) -> Seq<u8> {
    keypair.subrange(32, 64)
}

/// A keypair whose public half is the key derived from its secret half.
pub open spec fn is_matched_keypair(keypair: Seq<u8>) -> bool {
    &&& keypair.len() == 64
    &&& public_half(keypair) == public_of(secret_half(keypair))
    &&& point_decodes(public_half(keypair))
}

/// A 64-byte keypair that parses: its public half is a curve point.
pub open spec fn keypair_parses(keypair: Seq<u8>) -> bool {
    keypair.len() == 64 && point_decodes(public_half(keypair))
}

/// What `Signature::from_bytes` accepts: 64 bytes whose last byte has its
/// three high bits clear.
pub open spec fn signature_parses(sig: Seq<u8>) -> bool {
    sig.len() == 64 && sig[63] & 0xe0u8 == 0
}

/// Relies on `solana_sdk::signature::Keypair::new` and `to_bytes`: a fresh
/// keypair from the operating system's random source, whose public half is
/// derived from its secret half.
#[verifier::external_body]
pub(crate) fn fresh_keypair() -> (r: [u8; 64])
    ensures
        is_matched_keypair(r@),
{
    solana_sdk::signature::Keypair::new().to_bytes()
}

/// Relies on `ed25519_dalek::SecretKey::from_bytes` (which fails only on a
/// length other than 32) and `PublicKey::from(&SecretKey)`.
#[verifier::external_body]
pub(crate) fn derive_public(secret: &[u8]) -> (r: Option<[u8; 32]>)
    ensures
        r is Some <==> secret@.len() == 32,
        r is Some ==> r->0@ == public_of(secret@) && point_decodes(r->0@),
{
    ed25519_dalek::SecretKey::from_bytes(secret).ok().map(
        |sk| ed25519_dalek::PublicKey::from(&sk).to_bytes(),
    )
}

/// Relies on `ed25519_dalek::Keypair::from_bytes` (which fails where the
/// length is not 64 or the public half is no curve point) and `Signer::sign`,
/// whose signature verifies under a matched keypair and has a reduced scalar.
#[verifier::external_body]
pub(crate) fn sign_with(keypair: &[u8], msg: &[u8]) -> (r: Option<[u8; 64]>)
    ensures
        r is Some <==> keypair_parses(keypair@),
        r is Some ==> r->0@ == signature_of(keypair@, msg@) && signature_parses(r->0@),
        r is Some && is_matched_keypair(keypair@) ==> verifies(public_half(keypair@), msg@, r->0@),
{
    ed25519_dalek::Keypair::from_bytes(keypair).ok().map(|kp| kp.sign(msg).to_bytes())
}

/// Relies on `ed25519::Signature::from_bytes`: a length check and a check of
/// the three high bits of the last byte.
#[verifier::external_body]
pub(crate) fn signature_check(sig: &[u8]) -> (r: bool)
    ensures
        r == signature_parses(sig@),
{
    ed25519_dalek::Signature::from_bytes(sig).is_ok()
}

/// Relies on `ed25519_dalek::PublicKey::from_bytes`, `Signature::from_bytes`
/// and `Verifier::verify`: `None` where either fails to parse, else whether
/// the signature is accepted.
#[verifier::external_body]
pub(crate) fn verify_with(public: &[u8], msg: &[u8], sig: &[u8]) -> (r: Option<bool>)
    ensures
        match r {
            Some(ok) => ok == verifies(public@, msg@, sig@) && point_decodes(public@)
                && public@.len() == 32 && signature_parses(sig@),
            None => !(public@.len() == 32 && point_decodes(public@) && signature_parses(sig@)),
        },
{
    let pk = ed25519_dalek::PublicKey::from_bytes(public).ok()?;
    let s = ed25519_dalek::Signature::from_bytes(sig).ok()?;
    Some(pk.verify(msg, &s).is_ok())
}

} // verus!
