//! From the pseudo-random bytes of a VRF output to a card.

use crate::bytes::{le_value, u64_from_le_bytes};
use crate::vrf::{inout_input, inout_output, make_bytes, vrf_output_bytes};
use schnorrkel::vrf::VRFInOut;
use vstd::prelude::*;

verus! {

/// The number of cards: a card is a value below it.
pub const NUM_CARDS: u16 = 52;

/// Context under which card bytes are derived from a VRF output: `card`.
pub const CARD_LABEL: [u8; 4] = [99, 97, 114, 100];

/// The card that pseudo-random bytes stand for: their little-endian value
/// modulo the number of cards.
pub open spec fn card_of(bytes: Seq<u8>) -> u16 {
    (le_value(bytes) % (NUM_CARDS as nat)) as u16
}

/// The card of a VRF input-output pair, whoever holds it.
pub open spec fn drawn_card(input: Seq<u8>, output: Seq<u8>) -> u16 {
    card_of(vrf_output_bytes(input, output, CARD_LABEL@))
}

/// Every card lies in the deck.
pub proof fn lemma_card_in_range(bytes: Seq<u8>)
    ensures
        0 <= card_of(bytes) < NUM_CARDS,
{
}

/// Reduces eight pseudo-random bytes to a card.
pub fn card_from_bytes(bytes: &[u8; 8]) -> (card: u16)
    ensures
        card == card_of(bytes@),
        card < NUM_CARDS,
{
    (u64_from_le_bytes(bytes) % (NUM_CARDS as u64)) as u16
}

/// The card of a VRF input-output pair. Every pair has one.
pub fn find_card(io: &VRFInOut) -> (r: Option<u16>)
    ensures
        r == Some(drawn_card(inout_input(*io), inout_output(*io))),
        r.unwrap() < NUM_CARDS,
{
    let b: [u8; 8] = make_bytes(io, &CARD_LABEL);
    Some(card_from_bytes(&b))
}

} // verus!
