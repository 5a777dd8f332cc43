//! A round between two players: both commit to a card, both reveal, and the
//! higher card wins.

use crate::draw::{draw_output, draws, is_draw};
use crate::seed::{create_initial_hash, twox_256_digest};
use crate::verify::{lemma_draw_verifies, recieve, verified_card};
use crate::vrf::{
    generate_keypair, identity_point, keypair_consistent, keypair_public, keypair_public_key,
    public_key_bytes,
};
use schnorrkel::{Keypair, PublicKey};
use vstd::prelude::*;

verus! {

/// One party of a game: its keypair, the card it committed to, the signed
/// draw that commits it, and the card that verification revealed.
pub struct Player {
    keypair: Keypair,
    card: Option<u16>,
    signature: Option<[u8; 97]>,
    revealed_card: Option<u16>,
}

impl Player {
    /// Every player's public key is the one its secret key gives.
    #[verifier::type_invariant]
    pub closed spec fn consistent(&self) -> bool {
        keypair_consistent(self.keypair)
    }

    /// The player's keypair.
    pub closed spec fn keypair(&self) -> Keypair {
        self.keypair
    }

    /// The card the player committed to, known to the player alone.
    pub closed spec fn committed_card(&self) -> Option<u16> {
        self.card
    }

    /// The signed draw the player published.
    pub closed spec fn commitment(&self) -> Option<[u8; 97]> {
        self.signature
    }

    /// The card that verifying the commitment gave.
    pub closed spec fn revealed(&self) -> Option<u16> {
        self.revealed_card
    }

    /// This player is `before` after a commitment under `seed`: it holds the
    /// card and the signed draw of its first draw, and the signed draw
    /// reveals that card under the player's public key and `seed`, unless
    /// its pre-output is the identity.
    pub open spec fn committed_under(&self, before: Player, seed: Seq<u8>) -> bool {
        &&& self.keypair() == before.keypair()
        &&& self.revealed() == before.revealed()
        &&& self.committed_card() matches Some(card)
        &&& self.commitment() matches Some(signature)
        &&& is_draw(self.keypair(), seed, 0, card, signature@)
        &&& draw_output(signature@) != identity_point() ==> verified_card(
            keypair_public(self.keypair()),
            signature@,
            seed,
        ) == Some(card)
    }

    /// This player is `before` after a reveal under `seed`: it records what
    /// verifying its commitment under its public key and `seed` gives.
    pub open spec fn revealed_under(&self, before: Player, seed: Seq<u8>) -> bool {
        &&& self.keypair() == before.keypair()
        &&& self.committed_card() == before.committed_card()
        &&& self.commitment() == before.commitment()
        &&& before.commitment() matches Some(signature)
        &&& self.revealed() == verified_card(keypair_public(self.keypair()), signature@, seed)
    }

    /// A player with a fresh random keypair and nothing committed.
    pub fn new() -> (player: Player)
        ensures
            keypair_consistent(player.keypair()),
            player.committed_card() is None,
            player.commitment() is None,
            player.revealed() is None,
    {
        Player { keypair: generate_keypair(), signature: None, card: None, revealed_card: None }
    }

    /// The player's public key.
    pub fn public_key(&self) -> (key: &PublicKey)
        ensures
            public_key_bytes(*key) == keypair_public(self.keypair()),
    {
        keypair_public_key(&self.keypair)
    }

    /// The card the player committed to, once it has committed.
    pub fn card(&self) -> (card: Option<u16>)
        ensures
            card == self.committed_card(),
    {
        self.card
    }

    /// The player's published signed draw, once it has committed.
    pub fn signature(&self) -> (signature: Option<[u8; 97]>)
        ensures
            signature == self.commitment(),
    {
        self.signature
    }

    /// The card that verification revealed, once the player has revealed.
    pub fn revealed_card(&self) -> (card: Option<u16>)
        ensures
            card == self.revealed(),
    {
        self.revealed_card
    }

    /// Commits the player to its first draw under `vrf_seed`, and gives the
    /// card with the signed draw to publish. Verified under the player's
    /// public key and the same seed, the signed draw reveals that card,
    /// unless its pre-output is the identity.
    pub fn commit_card(&mut self, vrf_seed: &[u8; 32]) -> (r: (u16, [u8; 97]))
        ensures
            final(self).committed_under(*old(self), vrf_seed@),
            final(self).committed_card() == Some(r.0),
            final(self).commitment() == Some(r.1),
    {
        let draw = draws(&self.keypair, vrf_seed);
        let (card, signature) = draw[0];
        proof {
            use_type_invariant(&*self);
            if draw_output(signature@) != identity_point() {
                lemma_draw_verifies(self.keypair, vrf_seed@, 0, card, signature@);
            }
        }
        self.card = Some(card);
        self.signature = Some(signature);
        (card, signature)
    }

    /// Verifies the player's own commitment under `vrf_seed` and records the
    /// card it reveals.
    pub fn reveal_card(&mut self, vrf_seed: &[u8; 32]) -> (r: Option<u16>)
        requires
            old(self).commitment() is Some,
        ensures
            final(self).revealed_under(*old(self), vrf_seed@),
            final(self).revealed() == r,
    {
        proof {
            use_type_invariant(&*self);
        }
        let signature = self.signature.unwrap();
        let reveal_card = recieve(self.public_key(), &signature, vrf_seed);
        self.revealed_card = reveal_card;
        reveal_card
    }
}

/// A player that commits under a seed and then reveals under the same seed
/// reveals the card it committed to, unless the pre-output of its
/// commitment is the identity.
pub proof fn lemma_reveal_after_commit(
    start: Player,
    committed: Player,
    revealed: Player,
    seed: Seq<u8>,
)
    requires
        committed.committed_under(start, seed),
        revealed.revealed_under(committed, seed),
        draw_output(committed.commitment().unwrap()@) != identity_point(),
    ensures
        revealed.revealed() is Some,
        revealed.revealed() == committed.committed_card(),
        revealed.revealed() == revealed.committed_card(),
{
}

/// How a round ended.
#[derive(Clone, Copy, Debug, PartialEq, Eq, Structural)]
pub enum Outcome {
    /// The first player's card is the higher one.
    Player1Wins,
    /// The second player's card is the higher one.
    Player2Wins,
    /// Both players hold the same card.
    Tie,
}

/// The outcome for two cards: the higher card wins, equal cards tie.
pub open spec fn outcome_of(card_1: u16, card_2: u16) -> Outcome {
    if card_1 > card_2 {
        Outcome::Player1Wins
    } else if card_1 < card_2 {
        Outcome::Player2Wins
    } else {
        Outcome::Tie
    }
}

/// The outcome of a round from what both players revealed. A round in which
/// a reveal failed has none.
pub open spec fn round_outcome(revealed_1: Option<u16>, revealed_2: Option<u16>) -> Option<Outcome> {
    match (revealed_1, revealed_2) {
        (Some(card_1), Some(card_2)) => Some(outcome_of(card_1, card_2)),
        _ => None,
    }
}

/// Two different cards have exactly one winner, and equal cards tie.
pub proof fn lemma_one_winner(card_1: u16, card_2: u16)
    ensures
        card_1 != card_2 ==> (outcome_of(card_1, card_2) == Outcome::Player1Wins) != (outcome_of(
            card_1,
            card_2,
        ) == Outcome::Player2Wins),
        card_1 != card_2 ==> outcome_of(card_1, card_2) != Outcome::Tie,
        card_1 == card_2 <==> outcome_of(card_1, card_2) == Outcome::Tie,
        outcome_of(card_1, card_2) == Outcome::Player1Wins <==> outcome_of(card_2, card_1)
            == Outcome::Player2Wins,
{
}

/// Compares two revealed cards: the higher card wins, equal cards tie.
pub fn compare_cards(card_1: u16, card_2: u16) -> (r: Outcome)
    ensures
        r == outcome_of(card_1, card_2),
{
    if card_1 > card_2 {
        Outcome::Player1Wins
    } else if card_1 < card_2 {
        Outcome::Player2Wins
    } else {
        Outcome::Tie
    }
}

/// Two players and the seed their public keys give.
pub struct Game {
    players: [Player; 2],
    vrf_seed: [u8; 32],
}

impl Game {
    /// The players, in their order.
    pub closed spec fn players(&self) -> Seq<Player> {
        self.players@
    }

    /// The seed both players draw under.
    pub closed spec fn seed(&self) -> Seq<u8> {
        self.vrf_seed@
    }

    /// A game between two players. Its seed hashes the first player's public
    /// key followed by the second's.
    pub fn new(players: [Player; 2]) -> (game: Game)
        ensures
            game.players() == players@,
            game.seed() == twox_256_digest(
                keypair_public(players@[0].keypair()) + keypair_public(players@[1].keypair()),
            ),
    {
        let vrf_seed = create_initial_hash(players[0].public_key(), players[1].public_key());
        Game { players, vrf_seed }
    }

    /// The first or the second player.
    pub fn player(&self, index: usize) -> (player: &Player)
        requires
            index < 2,
        ensures
            *player == self.players()[index as int],
    {
        &self.players[index]
    }

    /// The seed both players draw under.
    pub fn vrf_seed(&self) -> (seed: [u8; 32])
        ensures
            seed@ == self.seed(),
    {
        self.vrf_seed
    }

    /// Both players commit to their first draw under the game's seed.
    pub fn commit_cards(&mut self)
        ensures
            final(self).seed() == old(self).seed(),
            final(self).players().len() == 2,
            forall|i: int|
                0 <= i < 2 ==> (#[trigger] final(self).players()[i]).committed_under(
                    old(self).players()[i],
                    old(self).seed(),
                ),
    {
        self.players[0].commit_card(&self.vrf_seed);
        self.players[1].commit_card(&self.vrf_seed);
    }

    /// Both players' commitments are verified under the game's seed. Where
    /// both reveal a card the round is decided; where a reveal fails it has
    /// no outcome, and none is decided.
    pub fn reveal_cards(&mut self) -> (r: Option<Outcome>)
        requires
            forall|i: int| 0 <= i < 2 ==> (#[trigger] old(self).players()[i]).commitment() is Some,
        ensures
            final(self).seed() == old(self).seed(),
            final(self).players().len() == 2,
            forall|i: int|
                0 <= i < 2 ==> (#[trigger] final(self).players()[i]).revealed_under(
                    old(self).players()[i],
                    old(self).seed(),
                ),
            r == round_outcome(
                final(self).players()[0].revealed(),
                final(self).players()[1].revealed(),
            ),
    {
        assert(self.players()[0].commitment() is Some);
        assert(self.players()[1].commitment() is Some);
        let revealed_1 = self.players[0].reveal_card(&self.vrf_seed);
        let revealed_2 = self.players[1].reveal_card(&self.vrf_seed);
        if revealed_1.is_some() && revealed_2.is_some() {
            Some(self.complete_round())
        } else {
            None
        }
    }

    /// Decides a round in which both players have revealed a card: the
    /// higher card wins.
    pub fn complete_round(&self) -> (r: Outcome)
        requires
            self.players()[0].revealed() is Some,
            self.players()[1].revealed() is Some,
        ensures
            r == outcome_of(
                self.players()[0].revealed().unwrap(),
                self.players()[1].revealed().unwrap(),
            ),
    {
        let player_1 = &self.players[0];
        let player_2 = &self.players[1];
        compare_cards(player_1.revealed_card().unwrap(), player_2.revealed_card().unwrap())
    }
}

} // verus!
