//! Drawing: signing the transcript of each draw number and encoding what
//! comes out as a signed draw of 97 bytes.

use crate::card::{drawn_card, find_card};
use crate::transcript::{draw_log, draw_transcript, NUM_DRAWS};
use crate::vrf::{
    identity_point, keypair_consistent, keypair_public, keypair_secret, preout_to_bytes,
    proof_decodes, proof_to_bytes, vrf_input_point, vrf_output_point, vrf_proof_accepted,
    vrf_sign,
};
use schnorrkel::Keypair;
use vstd::prelude::*;

verus! {

/// Length of a signed draw: a pre-output, a proof and a draw number.
pub const SIGNED_DRAW_LENGTH: usize = 97;

/// The pre-output of a signed draw: its first 32 bytes.
pub open spec fn draw_output(signature: Seq<u8>) -> Seq<u8> {
    signature.subrange(0, 32)
}

/// The proof of a signed draw: the 64 bytes after the pre-output.
pub open spec fn draw_proof(signature: Seq<u8>) -> Seq<u8> {
    signature.subrange(32, 96)
}

/// The draw number of a signed draw: its last byte.
pub open spec fn draw_number(signature: Seq<u8>) -> u8 {
    signature[96]
}

/// What `keypair` commits to in draw `draw_num` under `seed`: the
/// pre-output and the card are fixed by the three; the proof is one of
/// many, each well-formed and, for a consistent keypair with a pre-output
/// other than the identity, accepted under the keypair's public half.
pub open spec fn is_draw(
    keypair: Keypair,
    seed: Seq<u8>,
    draw_num: u8,
    card: u16,
    signature: Seq<u8>,
) -> bool {
    let public = keypair_public(keypair);
    let log = draw_log(seed, draw_num);
    let input = vrf_input_point(public, log);
    let output = vrf_output_point(keypair_secret(keypair), input);
    &&& signature.len() == SIGNED_DRAW_LENGTH
    &&& draw_output(signature) == output
    &&& draw_number(signature) == draw_num
    &&& proof_decodes(draw_proof(signature))
    &&& card == drawn_card(input, output)
    &&& keypair_consistent(keypair) && output != identity_point() ==> vrf_proof_accepted(
        public,
        log,
        output,
        draw_proof(signature),
    )
}

/// Lays out a signed draw: the pre-output, then the proof, then the draw
/// number.
pub fn encode_draw(output: &[u8; 32], proof: &[u8; 64], draw_num: u8) -> (signature: [u8; 97])
    ensures
        signature@ == output@ + proof@ + seq![draw_num],
        draw_output(signature@) == output@,
        draw_proof(signature@) == proof@,
        draw_number(signature@) == draw_num,
{
    let mut signature = [0u8; 97];
    let mut i: usize = 0;
    while i < 32
        invariant
            i <= 32,
            forall|j: int| 0 <= j < i ==> signature@[j] == output@[j],
        decreases 32 - i,
    {
        signature[i] = output[i];
        i = i + 1;
    }
    let mut k: usize = 0;
    while k < 64
        invariant
            k <= 64,
            forall|j: int| 0 <= j < 32 ==> signature@[j] == output@[j],
            forall|j: int| 0 <= j < k ==> signature@[32 + j] == proof@[j],
        decreases 64 - k,
    {
        signature[32 + k] = proof[k];
        k = k + 1;
    }
    signature[96] = draw_num;
    assert(signature@ =~= output@ + proof@ + seq![draw_num]);
    assert(draw_output(signature@) =~= output@);
    assert(draw_proof(signature@) =~= proof@);
    signature
}

/// Draw `draw_num` of `keypair` under `seed`: its card and its signed draw.
/// Nothing is drawn for a draw number above `NUM_DRAWS`.
pub fn try_draw(keypair: &Keypair, seed: &[u8; 32], draw_num: u8) -> (r: Option<(u16, [u8; 97])>)
    ensures
        r is Some <==> draw_num <= NUM_DRAWS,
        r matches Some((card, signature)) ==> is_draw(
            *keypair,
            seed@,
            draw_num,
            card,
            signature@,
        ),
{
    let t = match draw_transcript(seed, draw_num) {
        Some(t) => t,
        None => {
            return None;
        },
    };
    let (io, proof) = vrf_sign(keypair, t);
    let card = match find_card(&io) {
        Some(card) => card,
        None => {
            return None;
        },
    };
    let output = preout_to_bytes(&io.to_preout());
    let vrf_signature = encode_draw(&output, &proof_to_bytes(&proof), draw_num);
    Some((card, vrf_signature))
}

/// All the draws of `keypair` under `seed`, in the order of their draw
/// numbers `0..NUM_DRAWS`.
pub fn draws(keypair: &Keypair, seed: &[u8; 32]) -> (all: Vec<(u16, [u8; 97])>)
    ensures
        all@.len() == NUM_DRAWS,
        forall|i: int|
            0 <= i < NUM_DRAWS ==> is_draw(
                *keypair,
                seed@,
                i as u8,
                (#[trigger] all@[i]).0,
                all@[i].1@,
            ),
{
    let mut all: Vec<(u16, [u8; 97])> = Vec::new();
    let mut i: u8 = 0;
    while i < NUM_DRAWS
        invariant
            i <= NUM_DRAWS,
            all@.len() == i,
            forall|j: int|
                0 <= j < i ==> is_draw(*keypair, seed@, j as u8, (#[trigger] all@[j]).0, all@[j].1@),
        decreases NUM_DRAWS - i,
    {
        if let Some(draw) = try_draw(keypair, seed, i) {
            all.push(draw);
        }
        i = i + 1;
    }
    all
}

} // verus!
