use card_draw::draw::{draws, try_draw};
use card_draw::seed::create_initial_hash;
use card_draw::verify::recieve;
use schnorrkel::{ExpansionMode, Keypair, MiniSecretKey};

fn fixed_keypair(fill: u8) -> Keypair {
    MiniSecretKey::from_bytes(&[fill; 32]).unwrap().expand_to_keypair(ExpansionMode::Uniform)
}

fn fresh_keypair() -> Keypair {
    Keypair::generate_with(rand_core::OsRng)
}

#[test]
fn first_draw_verifies_to_its_card() {
    for _ in 0..8 {
        let keypair = fresh_keypair();
        let other = fresh_keypair();
        let seed = create_initial_hash(&keypair.public, &other.public);
        let (card, signature) = draws(&keypair, &seed)[0];
        assert!(card < 52);
        assert_eq!(recieve(&keypair.public, &signature, &seed), Some(card));
    }
}

#[test]
fn every_draw_number_up_to_eight_verifies() {
    let keypair = fixed_keypair(11);
    let seed = [77u8; 32];
    for i in 0..=8u8 {
        let (card, signature) = try_draw(&keypair, &seed, i).unwrap();
        assert!(card < 52);
        assert_eq!(signature[96], i);
        assert_eq!(recieve(&keypair.public, &signature, &seed), Some(card));
    }
}

#[test]
fn no_draw_above_eight() {
    let keypair = fixed_keypair(11);
    let seed = [77u8; 32];
    for i in 9..=255u8 {
        assert!(try_draw(&keypair, &seed, i).is_none());
    }
}

#[test]
fn draws_gives_eight_in_order() {
    let keypair = fixed_keypair(12);
    let seed = [1u8; 32];
    let all = draws(&keypair, &seed);
    assert_eq!(all.len(), 8);
    for (i, (card, signature)) in all.iter().enumerate() {
        assert_eq!(signature[96] as usize, i);
        assert!(*card < 52);
        assert_eq!(recieve(&keypair.public, signature, &seed), Some(*card));
        let (again, resigned) = try_draw(&keypair, &seed, i as u8).unwrap();
        assert_eq!(again, *card);
        assert_eq!(resigned[..32], signature[..32]);
    }
}

#[test]
fn repeated_draws_agree_on_card_output_and_number() {
    let keypair = fixed_keypair(13);
    let seed = [200u8; 32];
    let (card_a, signature_a) = try_draw(&keypair, &seed, 0).unwrap();
    let (card_b, signature_b) = try_draw(&keypair, &seed, 0).unwrap();
    assert_eq!(card_a, card_b);
    assert_eq!(signature_a[..32], signature_b[..32]);
    assert_eq!(signature_a[96], signature_b[96]);
    assert_eq!(recieve(&keypair.public, &signature_a, &seed), Some(card_a));
    assert_eq!(recieve(&keypair.public, &signature_b, &seed), Some(card_a));
}

#[test]
fn verification_is_repeatable() {
    let keypair = fixed_keypair(14);
    let seed = [3u8; 32];
    let (card, signature) = try_draw(&keypair, &seed, 5).unwrap();
    for _ in 0..4 {
        assert_eq!(recieve(&keypair.public, &signature, &seed), Some(card));
    }
}

#[test]
fn known_draws_of_a_fixed_key() {
    let keypair = fixed_keypair(7);
    assert_eq!(
        keypair.public.to_bytes(),
        [
            132, 15, 167, 29, 189, 251, 108, 215, 72, 16, 85, 244, 151, 20, 42, 3, 142, 169, 39,
            90, 182, 183, 61, 74, 108, 77, 111, 86, 126, 21, 189, 54
        ]
    );
    let seed = [0u8; 32];
    let cards: Vec<u16> = draws(&keypair, &seed).iter().map(|d| d.0).collect();
    assert_eq!(cards, vec![40, 17, 50, 12, 45, 16, 18, 45]);
    let (card, signature) = try_draw(&keypair, &seed, 0).unwrap();
    assert_eq!(card, 40);
    assert_eq!(
        signature[..32],
        [
            80, 231, 168, 220, 45, 65, 129, 99, 250, 250, 61, 240, 247, 30, 57, 195, 17, 9, 171,
            99, 127, 247, 2, 104, 209, 244, 196, 188, 161, 32, 124, 110
        ]
    );
    assert_eq!(signature[96], 0);
    let (_, last) = try_draw(&keypair, &seed, 8).unwrap();
    assert_eq!(
        last[..32],
        [
            112, 56, 156, 181, 209, 133, 175, 158, 90, 182, 96, 1, 115, 94, 100, 191, 166, 201,
            232, 95, 155, 216, 164, 198, 231, 44, 13, 84, 6, 17, 203, 94
        ]
    );
    assert_eq!(last[96], 8);
}

#[test]
fn flipped_proof_bit_is_rejected() {
    let keypair = fixed_keypair(21);
    let seed = [9u8; 32];
    let (card, signature) = try_draw(&keypair, &seed, 0).unwrap();
    assert_eq!(recieve(&keypair.public, &signature, &seed), Some(card));
    for byte in 32..96 {
        for bit in 0..8 {
            let mut tampered = signature;
            tampered[byte] ^= 1 << bit;
            assert_eq!(recieve(&keypair.public, &tampered, &seed), None);
        }
    }
}

#[test]
fn flipped_output_bit_is_rejected() {
    let keypair = fixed_keypair(22);
    let seed = [9u8; 32];
    let (_, signature) = try_draw(&keypair, &seed, 1).unwrap();
    for byte in 0..32 {
        for bit in 0..8 {
            let mut tampered = signature;
            tampered[byte] ^= 1 << bit;
            assert_eq!(recieve(&keypair.public, &tampered, &seed), None);
        }
    }
}

#[test]
fn changed_draw_number_is_rejected() {
    let keypair = fixed_keypair(23);
    let seed = [9u8; 32];
    let (card, signature) = try_draw(&keypair, &seed, 4).unwrap();
    for i in 0..=255u8 {
        let mut tampered = signature;
        tampered[96] = i;
        let expected = if i == 4 { Some(card) } else { None };
        assert_eq!(recieve(&keypair.public, &tampered, &seed), expected);
    }
}

#[test]
fn malformed_proof_is_rejected() {
    let keypair = fixed_keypair(24);
    let seed = [9u8; 32];
    let (_, signature) = try_draw(&keypair, &seed, 0).unwrap();
    let mut high_challenge = signature;
    for byte in 32..64 {
        high_challenge[byte] = 255;
    }
    assert_eq!(recieve(&keypair.public, &high_challenge, &seed), None);
    let mut high_response = signature;
    for byte in 64..96 {
        high_response[byte] = 255;
    }
    assert_eq!(recieve(&keypair.public, &high_response, &seed), None);
    let mut zero_proof = signature;
    for byte in 32..96 {
        zero_proof[byte] = 0;
    }
    assert_eq!(recieve(&keypair.public, &zero_proof, &seed), None);
}

#[test]
fn identity_output_is_rejected() {
    let keypair = fixed_keypair(25);
    let seed = [9u8; 32];
    let (_, signature) = try_draw(&keypair, &seed, 0).unwrap();
    let mut tampered = signature;
    for byte in 0..32 {
        tampered[byte] = 0;
    }
    assert_eq!(recieve(&keypair.public, &tampered, &seed), None);
    assert_eq!(recieve(&keypair.public, &[0u8; 97], &seed), None);
}

#[test]
fn other_seed_is_rejected() {
    let keypair = fixed_keypair(26);
    let seed = [9u8; 32];
    let (card, signature) = try_draw(&keypair, &seed, 0).unwrap();
    assert_eq!(recieve(&keypair.public, &signature, &seed), Some(card));
    for byte in 0..32 {
        let mut other = seed;
        other[byte] ^= 1;
        assert_eq!(recieve(&keypair.public, &signature, &other), None);
    }
}

#[test]
fn other_key_is_rejected() {
    let a = fixed_keypair(27);
    let b = fixed_keypair(28);
    let seed = create_initial_hash(&a.public, &b.public);
    let (card_a, signature_a) = draws(&a, &seed)[0];
    let (card_b, signature_b) = draws(&b, &seed)[0];
    assert_eq!(recieve(&a.public, &signature_a, &seed), Some(card_a));
    assert_eq!(recieve(&b.public, &signature_b, &seed), Some(card_b));
    assert_eq!(recieve(&b.public, &signature_a, &seed), None);
    assert_eq!(recieve(&a.public, &signature_b, &seed), None);
}
