use vstd::prelude::*;
use crate::chain::address_of;
use crate::crypto::{fresh_keypair, is_matched_keypair, public_half};
use crate::encoding::{base58_decoded, base58_encode, base58_of, is_base58_char};
use crate::response::ApiResponse;
use crate::text::{is_blank, is_white_space};

verus! {

/// A fresh keypair as text: the base58 address and the base58 of all 64
/// keypair bytes.
pub struct KeypairData {
    pub pubkey: String,
    pub secret: String,
}

/// `secret` is the text of a matched keypair whose address text is `pubkey`.
pub open spec fn is_keypair_text(pubkey: Seq<char>, secret: Seq<char>) -> bool {
    let kp = base58_decoded(secret)->0;
    &&& base58_decoded(secret) is Some
    &&& is_matched_keypair(kp)
    &&& secret == base58_of(kp)
    &&& pubkey == base58_of(public_half(kp))
    &&& address_of(pubkey) == Some(public_half(kp))
    &&& !is_blank(secret)
}

/// Generates a fresh keypair.
pub fn generate() -> (r: ApiResponse<KeypairData>)
    ensures
        r.success,
        r.well_formed(),
        is_keypair_text(r.data->0.pubkey@, r.data->0.secret@),
{
    let kp = fresh_keypair();
    let public = base58_encode(&kp.as_slice()[32..64]);
    let secret = base58_encode(kp.as_slice());
    proof {
        assert(kp@.subrange(32, 64) == public_half(kp@));
        assert(!is_white_space(secret@[0])) by {
            assert(is_base58_char(secret@[0]));
        }
    }
    ApiResponse::ok(KeypairData { pubkey: public, secret })
}

} // verus!
