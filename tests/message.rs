use base64::Engine;
use solana_api::keypair::generate;
use solana_api::message::{sign, verify, SignMessageRequest, VerifyMessageRequest};

fn b64(b: &[u8]) -> String {
    base64::engine::general_purpose::STANDARD.encode(b)
}

fn sign_req(message: &str, secret: &str) -> SignMessageRequest {
    SignMessageRequest { message: message.to_string(), secret: secret.to_string() }
}

fn verify_req(message: &str, signature: &str, pubkey: &str) -> VerifyMessageRequest {
    VerifyMessageRequest {
        message: message.to_string(),
        signature: signature.to_string(),
        pubkey: pubkey.to_string(),
    }
}

fn secret32() -> String {
    bs58::encode([7u8; 32]).into_string()
}

#[test]
fn generate_gives_matching_texts() {
    let r = generate();
    assert!(r.success);
    assert!(r.error.is_none());
    let d = r.data.unwrap();
    let public = bs58::decode(&d.pubkey).into_vec().unwrap();
    let keypair = bs58::decode(&d.secret).into_vec().unwrap();
    assert_eq!(public.len(), 32);
    assert_eq!(keypair.len(), 64);
    assert_eq!(&keypair[32..], &public[..]);
    let derived = sign(sign_req("x", &bs58::encode(&keypair[..32]).into_string()));
    assert_eq!(derived.data.unwrap().public_key, d.pubkey);
}

#[test]
fn generated_keypair_signs_and_verifies() {
    let d = generate().data.unwrap();
    let s = sign(sign_req("hello world", &d.secret));
    assert!(s.success);
    let s = s.data.unwrap();
    assert_eq!(s.public_key, d.pubkey);
    let v = verify(verify_req("hello world", &s.signature, &s.public_key));
    assert!(v.success);
    assert!(v.data.unwrap().valid);
}

#[test]
fn sign_hi_with_32_byte_secret() {
    let r = sign(sign_req("hi", &secret32()));
    assert!(r.success);
    assert!(r.error.is_none());
    let d = r.data.unwrap();
    assert_eq!(d.message, "hi");
    assert_eq!(base64::engine::general_purpose::STANDARD.decode(&d.signature).unwrap().len(), 64);
    assert_eq!(bs58::decode(&d.public_key).into_vec().unwrap().len(), 32);
}

#[test]
fn signing_is_deterministic() {
    let a = sign(sign_req("hi", &secret32())).data.unwrap();
    let b = sign(sign_req("hi", &secret32())).data.unwrap();
    assert_eq!(a.signature, b.signature);
    assert_eq!(a.public_key, b.public_key);
}

#[test]
fn verify_other_message_is_invalid() {
    let s = sign(sign_req("hi", &secret32())).data.unwrap();
    let v = verify(verify_req("hj", &s.signature, &s.public_key));
    assert!(v.success);
    let d = v.data.unwrap();
    assert!(!d.valid);
    assert_eq!(d.message, "hj");
    assert_eq!(d.pubkey, s.public_key);
}

#[test]
fn verify_flipped_signature_byte_is_invalid() {
    let s = sign(sign_req("hi", &secret32())).data.unwrap();
    let mut sig = base64::engine::general_purpose::STANDARD.decode(&s.signature).unwrap();
    sig[0] ^= 1;
    let v = verify(verify_req("hi", &b64(&sig), &s.public_key));
    assert!(v.success);
    assert!(!v.data.unwrap().valid);
}

#[test]
fn verify_other_key_is_invalid() {
    let s = sign(sign_req("hi", &secret32())).data.unwrap();
    let other = sign(sign_req("hi", &bs58::encode([8u8; 32]).into_string())).data.unwrap();
    let v = verify(verify_req("hi", &s.signature, &other.public_key));
    assert!(v.success);
    assert!(!v.data.unwrap().valid);
}

#[test]
fn sign_blank_fields_are_missing() {
    let r = sign(sign_req("   ", &secret32()));
    assert!(!r.success);
    assert!(r.data.is_none());
    assert_eq!(r.error.unwrap(), "Missing required fields");
    let r = sign(sign_req("hi", " \t\n"));
    assert_eq!(r.error.unwrap(), "Missing required fields");
    let r = sign(sign_req("", ""));
    assert_eq!(r.error.unwrap(), "Missing required fields");
}

#[test]
fn sign_rejects_bad_base58() {
    let r = sign(sign_req("hi", "0OIl"));
    assert!(!r.success);
    assert_eq!(r.error.unwrap(), "Invalid base58-encoded secret");
}

#[test]
fn sign_rejects_other_lengths() {
    for n in [1usize, 16, 31, 33, 63, 65, 96] {
        let secret = bs58::encode(vec![5u8; n]).into_string();
        let r = sign(sign_req("hi", &secret));
        assert!(!r.success);
        assert_eq!(r.error.unwrap(), "Invalid base58-encoded secret");
    }
}

#[test]
fn sign_rejects_keypair_with_bad_public_half() {
    let mut kp = vec![7u8; 32];
    let mut public = vec![0u8; 32];
    public[0] = 2;
    kp.extend_from_slice(&public);
    let r = sign(sign_req("hi", &bs58::encode(&kp).into_string()));
    assert!(!r.success);
    assert_eq!(r.error.unwrap(), "Failed to parse keypair");
}

#[test]
fn sign_with_full_keypair_matches_secret_only() {
    let a = sign(sign_req("hi", &secret32())).data.unwrap();
    let mut kp = vec![7u8; 32];
    kp.extend_from_slice(&bs58::decode(&a.public_key).into_vec().unwrap());
    let b = sign(sign_req("hi", &bs58::encode(&kp).into_string())).data.unwrap();
    assert_eq!(a.signature, b.signature);
    assert_eq!(a.public_key, b.public_key);
}

#[test]
fn verify_rejects_bad_signature_text() {
    let s = sign(sign_req("hi", &secret32())).data.unwrap();
    let r = verify(verify_req("hi", "not base64!", &s.public_key));
    assert!(!r.success);
    assert_eq!(r.error.unwrap(), "Invalid base64 signature");
    let r = verify(verify_req("hi", &b64(&[1u8; 63]), &s.public_key));
    assert_eq!(r.error.unwrap(), "Invalid base64 signature");
}

#[test]
fn verify_rejects_unreduced_signature() {
    let s = sign(sign_req("hi", &secret32())).data.unwrap();
    let mut sig = vec![0u8; 64];
    sig[63] = 0xe0;
    let r = verify(verify_req("hi", &b64(&sig), &s.public_key));
    assert!(!r.success);
    assert_eq!(r.error.unwrap(), "Invalid signature format");
}

#[test]
fn verify_rejects_bad_public_key() {
    let s = sign(sign_req("hi", &secret32())).data.unwrap();
    let r = verify(verify_req("hi", &s.signature, "0OIl"));
    assert_eq!(r.error.unwrap(), "Invalid public key format");
    let r = verify(verify_req("hi", &s.signature, &bs58::encode([1u8; 31]).into_string()));
    assert_eq!(r.error.unwrap(), "Invalid public key format");
    let mut public = [0u8; 32];
    public[0] = 2;
    let r = verify(verify_req("hi", &s.signature, &bs58::encode(public).into_string()));
    assert!(!r.success);
    assert_eq!(r.error.unwrap(), "Failed to parse public key");
}
