use vstd::prelude::*;
use crate::crypto::is_matched_keypair;
use crate::encoding::base58_decoded;
use crate::message::{sign_outcome, signing_keypair, verify_outcome};
use crate::response::answers;
use crate::text::is_blank;

verus! {

/// A secret that decodes to a matched keypair, as `generate` answers one,
/// signs any non-blank message, and signs with that matched keypair; by the
/// contract of `sign`, the answered signature then verifies as valid against
/// the answered public key.
pub proof fn lemma_generated_secret_signs(message: Seq<char>, secret: Seq<char>)
    requires
        base58_decoded(secret) is Some,
        is_matched_keypair(base58_decoded(secret)->0),
        !is_blank(secret),
        !is_blank(message),
    ensures
        sign_outcome(message, secret) is Ok,
        signing_keypair(secret) == Ok::<Seq<u8>, Seq<char>>(base58_decoded(secret)->0),
        is_matched_keypair(signing_keypair(secret)->Ok_0),
{
}

/// A non-blank secret whose bytes are neither 32 nor 64 long is refused as
/// such: never truncated or padded.
pub proof fn lemma_secret_length_rejected(message: Seq<char>, secret: Seq<char>)
    requires
        !is_blank(message),
        !is_blank(secret),
        base58_decoded(secret) is Some,
        base58_decoded(secret)->0.len() != 32,
        base58_decoded(secret)->0.len() != 64,
    ensures
        sign_outcome(message, secret) == Err::<(Seq<char>, Seq<char>, Seq<char>), Seq<char>>(
            "Invalid base58-encoded secret"@,
        ),
{
}

/// Changing the message never turns a verification into an error: with the
/// same signature and key, the answer is a verdict for every message.
pub proof fn lemma_message_change_never_errors(
    message: Seq<char>,
    other: Seq<char>,
    signature: Seq<char>,
    pubkey: Seq<char>,
)
    requires
        verify_outcome(message, signature, pubkey) is Ok,
    ensures
        verify_outcome(other, signature, pubkey) is Ok,
        verify_outcome(other, signature, pubkey)->Ok_0.1 == other,
        verify_outcome(other, signature, pubkey)->Ok_0.2 == pubkey,
{
}

/// Two answers to the same outcome are the same: as every handler's outcome
/// is a function of its inputs alone, identical inputs give identical
/// answers, texts and bytes included.
pub proof fn lemma_same_inputs_same_answer<T: View>(
    r1: crate::response::ApiResponse<T>,
    r2: crate::response::ApiResponse<T>,
    outcome: Result<T::V, Seq<char>>,
)
    requires
        answers(r1, outcome),
        answers(r2, outcome),
    ensures
        r1.success == r2.success,
        r1.success ==> r1.data->0@ == r2.data->0@,
        !r1.success ==> r1.error->0@ == r2.error->0@,
{
}

} // verus!
