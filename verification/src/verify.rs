//! Checking a signed draw against a public key and the shared seed.

use crate::card::{drawn_card, find_card, NUM_CARDS};
use crate::draw::{draw_number, draw_output, draw_proof, is_draw};
use crate::transcript::{draw_log, draw_transcript, NUM_DRAWS};
use crate::vrf::{
    identity_point, keypair_consistent, keypair_public, proof_decodes, public_key_bytes,
    vrf_input_point, vrf_proof_accepted, vrf_verify,
};
use schnorrkel::vrf::{VRFPreOut, VRFProof};
use schnorrkel::{Keypair, PublicKey};
use vstd::prelude::*;

verus! {

/// The card that a signed draw reveals under a public key and a seed, if
/// it reveals one: the draw number is in range, the proof is well-formed,
/// and the proof is accepted for the pre-output on the transcript of that
/// draw number. The card is that of the pre-output, never one supplied with
/// it.
pub open spec fn verified_card(public: Seq<u8>, signature: Seq<u8>, seed: Seq<u8>) -> Option<u16> {
    let draw_num = draw_number(signature);
    let output = draw_output(signature);
    let proof = draw_proof(signature);
    let log = draw_log(seed, draw_num);
    if draw_num <= NUM_DRAWS && proof_decodes(proof) && vrf_proof_accepted(
        public,
        log,
        output,
        proof,
    ) {
        Some(drawn_card(vrf_input_point(public, log), output))
    } else {
        None
    }
}

/// Verifies a signed draw and gives the card it reveals. All failures look
/// alike: a draw number out of range, a malformed proof and a proof that
/// does not hold all give nothing.
pub fn recieve(public: &PublicKey, vrf_signature: &[u8; 97], seed: &[u8; 32]) -> (r: Option<u16>)
    ensures
        r == verified_card(public_key_bytes(*public), vrf_signature@, seed@),
{
    let t = match draw_transcript(seed, vrf_signature[96]) {
        Some(t) => t,
        None => {
            return None;
        },
    };
    let out = match VRFPreOut::from_bytes(&vrf_signature[0..32]) {
        Ok(out) => out,
        Err(_) => {
            return None;
        },
    };
    let proof = match VRFProof::from_bytes(&vrf_signature[32..96]) {
        Ok(proof) => proof,
        Err(_) => {
            return None;
        },
    };
    let io = match vrf_verify(public, t, &out, &proof) {
        Ok(io) => io,
        Err(_) => {
            return None;
        },
    };
    find_card(&io)
}

/// A draw of a consistent keypair reveals its own card when it is verified
/// under the keypair's public half and the seed it was drawn under, unless
/// its pre-output is the identity.
pub proof fn lemma_draw_verifies(
    keypair: Keypair,
    seed: Seq<u8>,
    draw_num: u8,
    card: u16,
    signature: Seq<u8>,
)
    requires
        is_draw(keypair, seed, draw_num, card, signature),
        draw_num <= NUM_DRAWS,
        keypair_consistent(keypair),
        draw_output(signature) != identity_point(),
    ensures
        verified_card(keypair_public(keypair), signature, seed) == Some(card),
{
}

/// Two draws of one keypair with one draw number under one seed show the
/// same card, the same pre-output and the same draw number. Their proofs
/// may differ.
pub proof fn lemma_draw_deterministic(
    keypair: Keypair,
    seed: Seq<u8>,
    draw_num: u8,
    card_a: u16,
    signature_a: Seq<u8>,
    card_b: u16,
    signature_b: Seq<u8>,
)
    requires
        is_draw(keypair, seed, draw_num, card_a, signature_a),
        is_draw(keypair, seed, draw_num, card_b, signature_b),
    ensures
        card_a == card_b,
        draw_output(signature_a) == draw_output(signature_b),
        draw_number(signature_a) == draw_number(signature_b),
{
}

/// A signed draw whose proof bytes were changed, with pre-output and draw
/// number as they were, reveals the card of the draw or nothing, under the
/// keypair's public half and the seed of the draw. That it reveals nothing
/// is left to the VRF.
pub proof fn lemma_changed_proof_same_card_or_nothing(
    keypair: Keypair,
    seed: Seq<u8>,
    draw_num: u8,
    card: u16,
    signature: Seq<u8>,
    changed: Seq<u8>,
)
    requires
        is_draw(keypair, seed, draw_num, card, signature),
        draw_output(changed) == draw_output(signature),
        draw_number(changed) == draw_number(signature),
    ensures
        verified_card(keypair_public(keypair), changed, seed) is None || verified_card(
            keypair_public(keypair),
            changed,
            seed,
        ) == Some(card),
{
}

/// A signed draw with a draw number above `NUM_DRAWS` reveals nothing,
/// whatever its other bytes, the key and the seed.
pub proof fn lemma_draw_number_out_of_range(public: Seq<u8>, signature: Seq<u8>, seed: Seq<u8>)
    requires
        draw_number(signature) > NUM_DRAWS,
    ensures
        verified_card(public, signature, seed) is None,
{
}

/// A signed draw whose proof bytes are not two canonical scalars reveals
/// nothing, whatever its other bytes, the key and the seed.
pub proof fn lemma_malformed_proof(public: Seq<u8>, signature: Seq<u8>, seed: Seq<u8>)
    requires
        !proof_decodes(draw_proof(signature)),
    ensures
        verified_card(public, signature, seed) is None,
{
}

/// Verification gives a card of the deck or nothing.
pub proof fn lemma_verified_card_in_range(public: Seq<u8>, signature: Seq<u8>, seed: Seq<u8>)
    ensures
        verified_card(public, signature, seed) matches Some(card) ==> card < NUM_CARDS,
{
}

} // verus!
