use vstd::prelude::*;
use vstd::utf8::encode_utf8;
use crate::crypto::{
    derive_public, is_matched_keypair, point_decodes, public_half, public_of, sign_with,
    signature_check, signature_of, signature_parses, verifies, verify_with,
};
use crate::encoding::{base58_decode, base58_decoded, base58_encode, base58_of, base64_decode, base64_decoded, base64_encode, base64_of};
use crate::response::{ApiResponse, answers};
use crate::text::{blank, is_blank};

verus! {

pub struct SignMessageRequest {
    pub message: String,
    pub secret: String,
}

pub struct SignMessageResponse {
    pub signature: String,
    pub public_key: String,
    pub message: String,
}

pub struct VerifyMessageRequest {
    pub message: String,
    pub signature: String,
    pub pubkey: String,
}

pub struct VerifyMessageResponse {
    pub valid: bool,
    pub message: String,
    pub pubkey: String,
}

impl View for SignMessageResponse {
    type V = (Seq<char>, Seq<char>, Seq<char>);

    open spec fn view(&self) -> Self::V {
        (self.signature@, self.public_key@, self.message@)
    }
}

impl View for VerifyMessageResponse {
    type V = (bool, Seq<char>, Seq<char>);

    open spec fn view(&self) -> Self::V {
        (self.valid, self.message@, self.pubkey@)
    }
}

/// The keypair a secret text signs with: a 64-byte keypair as given, or a
/// 32-byte secret key followed by the public key derived from it.
pub open spec fn signing_keypair(secret: Seq<char>) -> Result<Seq<u8>, Seq<char>> {
    match base58_decoded(secret) {
        Some(b) => if b.len() == 64 {
            if point_decodes(public_half(b)) {
                Ok(b)
            } else {
                Err("Failed to parse keypair"@)
            }
        } else if b.len() == 32 {
            Ok(b + public_of(b))
        } else {
            Err("Invalid base58-encoded secret"@)
        },
        None => Err("Invalid base58-encoded secret"@),
    }
}

/// What `sign` answers: base64 signature of the message's UTF-8 bytes,
/// base58 public key, and the message, or the first failed check.
pub open spec fn sign_outcome(message: Seq<char>, secret: Seq<char>) -> Result<(Seq<char>, Seq<char>, Seq<char>), Seq<char>> {
    if is_blank(message) || is_blank(secret) {
        Err("Missing required fields"@)
    } else {
        match signing_keypair(secret) {
            Ok(kp) => Ok((base64_of(signature_of(kp, encode_utf8(message))), base58_of(public_half(kp)), message)),
            Err(e) => Err(e),
        }
    }
}

/// What `verify` answers: whether the signature is accepted for the
/// message's UTF-8 bytes, with message and key echoed, or the first failed
/// check. A rejected signature is an answer, not an error.
pub open spec fn verify_outcome(message: Seq<char>, signature: Seq<char>, pubkey: Seq<char>) -> Result<(bool, Seq<char>, Seq<char>), Seq<char>> {
    let sig = base64_decoded(signature);
    let pk = base58_decoded(pubkey);
    if sig is None || sig->0.len() != 64 {
        Err("Invalid base64 signature"@)
    } else if !signature_parses(sig->0) {
        Err("Invalid signature format"@)
    } else if pk is None || pk->0.len() != 32 {
        Err("Invalid public key format"@)
    } else if !point_decodes(pk->0) {
        Err("Failed to parse public key"@)
    } else {
        Ok((verifies(pk->0, encode_utf8(message), sig->0), message, pubkey))
    }
}

/// `verify` answers that the signature is valid for the message and key.
pub open spec fn answered_valid(message: Seq<char>, signature: Seq<char>, pubkey: Seq<char>) -> bool {
    verify_outcome(message, signature, pubkey) == Ok::<(bool, Seq<char>, Seq<char>), Seq<char>>((true, message, pubkey))
}

fn concat(a: &[u8], b: &[u8]) -> (r: Vec<u8>)
    ensures
        r@ == a@ + b@,
{
    let mut r: Vec<u8> = Vec::new();
    let mut i: usize = 0;
    while i < a.len()
        invariant
            i <= a@.len(),
            r@ == a@.subrange(0, i as int),
        decreases a@.len() - i,
    {
        r.push(a[i]);
        i = i + 1;
        assert(r@ =~= a@.subrange(0, i as int));
    }
    let mut j: usize = 0;
    while j < b.len()
        invariant
            j <= b@.len(),
            r@ == a@ + b@.subrange(0, j as int),
        decreases b@.len() - j,
    {
        r.push(b[j]);
        j = j + 1;
        assert(r@ =~= a@ + b@.subrange(0, j as int));
    }
    assert(b@.subrange(0, b@.len() as int) =~= b@);
    r
}

fn copy_range(b: &[u8], start: usize, end: usize) -> (r: Vec<u8>)
    requires
        start <= end <= b@.len(),
    ensures
        r@ == b@.subrange(start as int, end as int),
{
    let mut r: Vec<u8> = Vec::new();
    let mut i: usize = start;
    while i < end
        invariant
            start <= i <= end,
            end <= b@.len(),
            r@ == b@.subrange(start as int, i as int),
        decreases end - i,
    {
        r.push(b[i]);
        i = i + 1;
        assert(r@ =~= b@.subrange(start as int, i as int));
    }
    r
}

/// Signs the message with a base58 secret: a 64-byte keypair or a 32-byte
/// secret key. On success the signature verifies, through `verify`, against
/// the answered public key whenever the keypair is matched (always for a
/// 32-byte secret).
pub fn sign(req: SignMessageRequest) -> (r: ApiResponse<SignMessageResponse>)
    ensures
        answers(r, sign_outcome(req.message@, req.secret@)),
        r.well_formed(),
        r.success && is_matched_keypair(signing_keypair(req.secret@)->Ok_0) ==> answered_valid(
            req.message@,
            r.data->0.signature@,
            r.data->0.public_key@,
        ),
{
    if blank(req.message.as_str()) || blank(req.secret.as_str()) {
        return ApiResponse::err("Missing required fields");
    }
    let secret_bytes = match base58_decode(req.secret.as_str()) {
        Some(b) => b,
        None => return ApiResponse::err("Invalid base58-encoded secret"),
    };
    if secret_bytes.len() != 32 && secret_bytes.len() != 64 {
        return ApiResponse::err("Invalid base58-encoded secret");
    }
    let keypair = if secret_bytes.len() == 64 {
        secret_bytes
    } else {
        match derive_public(secret_bytes.as_slice()) {
            Some(public) => concat(secret_bytes.as_slice(), &public),
            None => return ApiResponse::err("Invalid secret key"),
        }
    };
    proof {
        if secret_bytes@.len() == 32 {
            assert(public_half(keypair@) =~= public_of(secret_bytes@));
        }
    }
    let msg = req.message.as_str().as_bytes();
    let signature = match sign_with(keypair.as_slice(), msg) {
        Some(s) => s,
        None => return ApiResponse::err("Failed to parse keypair"),
    };
    let public = copy_range(keypair.as_slice(), 32, 64);
    let response = SignMessageResponse {
        signature: base64_encode(&signature),
        public_key: base58_encode(public.as_slice()),
        message: req.message,
    };
    ApiResponse::ok(response)
}

/// Checks a base64 signature of the message against a base58 public key.
pub fn verify(req: VerifyMessageRequest) -> (r: ApiResponse<VerifyMessageResponse>)
    ensures
        answers(r, verify_outcome(req.message@, req.signature@, req.pubkey@)),
        r.well_formed(),
{
    let sig_bytes = match base64_decode(req.signature.as_str()) {
        Some(b) => b,
        None => return ApiResponse::err("Invalid base64 signature"),
    };
    if sig_bytes.len() != 64 {
        return ApiResponse::err("Invalid base64 signature");
    }
    if !signature_check(sig_bytes.as_slice()) {
        return ApiResponse::err("Invalid signature format");
    }
    let pubkey_bytes = match base58_decode(req.pubkey.as_str()) {
        Some(b) => b,
        None => return ApiResponse::err("Invalid public key format"),
    };
    if pubkey_bytes.len() != 32 {
        return ApiResponse::err("Invalid public key format");
    }
    let msg = req.message.as_str().as_bytes();
    let valid = match verify_with(pubkey_bytes.as_slice(), msg, sig_bytes.as_slice()) {
        Some(v) => v,
        None => return ApiResponse::err("Failed to parse public key"),
    };
    let response = VerifyMessageResponse { valid, message: req.message, pubkey: req.pubkey };
    ApiResponse::ok(response)
}

} // verus!
