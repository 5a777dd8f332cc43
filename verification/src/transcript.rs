//! The challenge transcript of a draw: a domain label, the shared seed and the
//! draw number, bound under fixed labels into a Merlin transcript.

use crate::bytes::{lemma_le_value_of_u64_le_bytes, u64_le_bytes};
use merlin::Transcript;
use vstd::prelude::*;

verus! {

/// The highest draw number a transcript is built for.
pub const NUM_DRAWS: u8 = 8;

/// Domain label of every draw transcript: `Card Draw Transcript`.
pub const TRANSCRIPT_LABEL: [u8; 20] = [
    67, 97, 114, 100, 32, 68, 114, 97, 119, 32,
    84, 114, 97, 110, 115, 99, 114, 105, 112, 116,
];

/// Label under which the shared seed is bound: `seed`.
pub const SEED_LABEL: [u8; 4] = [115, 101, 101, 100];

/// Label under which the draw number is bound: `draw`.
pub const DRAW_LABEL: [u8; 4] = [100, 114, 97, 119];

/// A Merlin transcript.
#[verifier::external_type_specification]
#[verifier::external_body]
pub struct ExTranscript(Transcript);

/// What a Merlin transcript has absorbed: its labelled messages, oldest first.
/// The transcript's state, and so every challenge drawn from it, is a function
/// of this list.
pub uninterp spec fn transcript_log(t: Transcript) -> Seq<(Seq<u8>, Seq<u8>)>;

/// The label `dom-sep`, under which Merlin binds a transcript's domain label.
pub open spec fn merlin_dom_sep() -> Seq<u8> {
    seq![100u8, 111u8, 109u8, 45u8, 115u8, 101u8, 112u8]
}

/// `Transcript::new` starts from Merlin's fixed protocol state and appends
/// `label` as a message under the label `dom-sep`. It panics on a label
/// whose length does not fit in 32 bits.
pub assume_specification[ Transcript::new ](label: &'static [u8]) -> (t: Transcript)
    requires
        label@.len() <= u32::MAX,
    ensures
        transcript_log(t) == seq![(merlin_dom_sep(), label@)],
;

/// `Transcript::append_message` absorbs the label, the message's length and
/// the message, after everything absorbed before. It panics on a message
/// whose length does not fit in 32 bits.
pub assume_specification[ Transcript::append_message ](
    t: &mut Transcript,
    label: &'static [u8],
    message: &[u8],
)
    requires
        message@.len() <= u32::MAX,
    ensures
        transcript_log(*final(t)) == transcript_log(*old(t)).push((label@, message@)),
;

/// `Transcript::append_u64` appends the eight little-endian bytes of `x` as
/// a message.
pub assume_specification[ Transcript::append_u64 ](
    t: &mut Transcript,
    label: &'static [u8],
    x: u64,
)
    ensures
        transcript_log(*final(t)) == transcript_log(*old(t)).push((label@, u64_le_bytes(x))),
;

/// The labelled messages of the transcript for draw `draw_num` under `seed`.
pub open spec fn draw_log(seed: Seq<u8>, draw_num: u8) -> Seq<(Seq<u8>, Seq<u8>)> {
    seq![
        (merlin_dom_sep(), TRANSCRIPT_LABEL@),
        (SEED_LABEL@, seed),
        (DRAW_LABEL@, u64_le_bytes(draw_num as u64)),
    ]
}

/// Builds the transcript that signing and verification of draw `draw_num`
/// under `seed` both bind, or nothing when `draw_num` exceeds `NUM_DRAWS`.
pub fn draw_transcript(seed: &[u8; 32], draw_num: u8) -> (r: Option<Transcript>)
    ensures
        r is Some <==> draw_num <= NUM_DRAWS,
        r matches Some(t) ==> transcript_log(t) == draw_log(seed@, draw_num),
{
    if draw_num > NUM_DRAWS {
        return None;
    }
    let mut t = Transcript::new(&TRANSCRIPT_LABEL);
    t.append_message(&SEED_LABEL, seed);
    t.append_u64(&DRAW_LABEL, draw_num as u64);
    assert(transcript_log(t) =~= draw_log(seed@, draw_num));
    Some(t)
}

/// Two draws have the same transcript only if they agree on both the seed
/// and the draw number.
pub proof fn lemma_draw_log_injective(seed_a: Seq<u8>, draw_a: u8, seed_b: Seq<u8>, draw_b: u8)
    requires
        draw_log(seed_a, draw_a) == draw_log(seed_b, draw_b),
    ensures
        seed_a == seed_b,
        draw_a == draw_b,
{
    let a = draw_log(seed_a, draw_a);
    let b = draw_log(seed_b, draw_b);
    assert(a[1].1 == seed_a && b[1].1 == seed_b);
    assert(a[2].1 == u64_le_bytes(draw_a as u64) && b[2].1 == u64_le_bytes(draw_b as u64));
    lemma_le_value_of_u64_le_bytes(draw_a as u64);
    lemma_le_value_of_u64_le_bytes(draw_b as u64);
}

} // verus!
