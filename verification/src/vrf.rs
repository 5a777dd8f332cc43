//! The Schnorr VRF on the Ristretto group, as this library sees it: keys,
//! pre-outputs and proofs by their byte encodings, and the facts about
//! signing and verification that the draw protocol rests on.
//!
//! Nothing in this module is proved. Each item states what `schnorrkel` does.

use crate::bytes::le_value;
use crate::transcript::transcript_log;
use merlin::Transcript;
use schnorrkel::vrf::{VRFInOut, VRFPreOut, VRFProof};
use schnorrkel::{Keypair, PublicKey, SignatureError};
use vstd::prelude::*;

verus! {

/// A Schnorr keypair on the Ristretto group.
#[verifier::external_type_specification]
#[verifier::external_body]
pub struct ExKeypair(Keypair);

/// The public half of a keypair.
#[verifier::external_type_specification]
#[verifier::external_body]
pub struct ExPublicKey(PublicKey);

/// A VRF input point with the output point made of it.
#[verifier::external_type_specification]
#[verifier::external_body]
pub struct ExVRFInOut(VRFInOut);

/// A VRF pre-output: an encoded output point, not yet verified.
#[verifier::external_type_specification]
#[verifier::external_body]
pub struct ExVRFPreOut(VRFPreOut);

/// A proof that a pre-output was made with the secret half of a key.
#[verifier::external_type_specification]
#[verifier::external_body]
pub struct ExVRFProof(VRFProof);

/// Why `schnorrkel` refused a value.
#[verifier::external_type_specification]
#[verifier::external_body]
pub struct ExSignatureError(SignatureError);

/// The 32 bytes that encode a public key, as `PublicKey::to_bytes` gives
/// them: its compressed Ristretto point.
pub uninterp spec fn public_key_bytes(key: PublicKey) -> Seq<u8>;

/// The encoding of a keypair's public half, `keypair.public.to_bytes()`.
pub uninterp spec fn keypair_public(keypair: Keypair) -> Seq<u8>;

/// The encoding of a keypair's secret half, `keypair.secret.to_bytes()`: its
/// scalar, then its nonce seed.
pub uninterp spec fn keypair_secret(keypair: Keypair) -> Seq<u8>;

/// The encoding of the input point of a VRF input-output pair,
/// `io.input.to_bytes()`.
pub uninterp spec fn inout_input(io: VRFInOut) -> Seq<u8>;

/// The encoding of the output point of a VRF input-output pair,
/// `io.output.to_bytes()`.
pub uninterp spec fn inout_output(io: VRFInOut) -> Seq<u8>;

/// The 32 bytes a VRF pre-output holds, as `VRFPreOut::to_bytes` gives them.
pub uninterp spec fn preout_bytes(preout: VRFPreOut) -> Seq<u8>;

/// The 64 bytes that encode a VRF proof, as `VRFProof::to_bytes` gives them:
/// its challenge scalar, then its response scalar.
pub uninterp spec fn proof_bytes(proof: VRFProof) -> Seq<u8>;

/// The encoded public key that belongs to an encoded secret key: the
/// secret scalar times the base point (`SecretKey::to_public`).
pub uninterp spec fn secret_public_key(secret: Seq<u8>) -> Seq<u8>;

/// The encoded point to which a public key hashes a transcript
/// (`PublicKey::vrf_hash`).
pub uninterp spec fn vrf_input_point(public: Seq<u8>, log: Seq<(Seq<u8>, Seq<u8>)>) -> Seq<u8>;

/// The encoded point that a secret key makes of an input point: the
/// secret scalar times the point (`SecretKey::vrf_create_from_point`).
pub uninterp spec fn vrf_output_point(secret: Seq<u8>, input: Seq<u8>) -> Seq<u8>;

/// Whether `PublicKey::vrf_verify` accepts a pre-output and a proof for a
/// transcript under a public key.
pub uninterp spec fn vrf_proof_accepted(
    public: Seq<u8>,
    log: Seq<(Seq<u8>, Seq<u8>)>,
    preout: Seq<u8>,
    proof: Seq<u8>,
) -> bool;

/// The eight bytes that `VRFInOut::make_bytes` derives from an input point,
/// an output point and a context.
pub uninterp spec fn vrf_output_bytes(input: Seq<u8>, output: Seq<u8>, context: Seq<u8>) -> Seq<u8>;

/// The order of the Ristretto group, `2^252 + 27742317777372353535851937790883648493`.
pub open spec fn group_order() -> nat {
    7237005577332262213973186563042994240857116359379907606001950938285454250989nat
}

/// A scalar's 32 bytes are canonical when the little-endian number they
/// encode is below the group order.
pub open spec fn scalar_is_canonical(bytes: Seq<u8>) -> bool {
    bytes.len() == 32 && le_value(bytes) < group_order()
}

/// The byte strings that decode as a VRF proof: two canonical scalars.
pub open spec fn proof_decodes(bytes: Seq<u8>) -> bool {
    &&& bytes.len() == 64
    &&& scalar_is_canonical(bytes.subrange(0, 32))
    &&& scalar_is_canonical(bytes.subrange(32, 64))
}

/// The encoding of the group's identity: 32 zero bytes.
pub open spec fn identity_point() -> Seq<u8> {
    Seq::new(32, |i: int| 0u8)
}

/// A keypair whose public half is the one its secret half gives.
pub open spec fn keypair_consistent(keypair: Keypair) -> bool {
    keypair_public(keypair) == secret_public_key(keypair_secret(keypair))
}

/// `Keypair::generate_with` on the operating system's random source,
/// `rand_core::OsRng`: it draws a secret key and derives the public key from
/// it. Which key comes out is left open.
#[verifier::external_body]
pub(crate) fn generate_keypair() -> (keypair: Keypair)
    ensures
        keypair_public(keypair) == secret_public_key(keypair_secret(keypair)),
{
    Keypair::generate_with(rand_core::OsRng)
}

/// The field `public` of a keypair.
#[verifier::external_body]
pub(crate) fn keypair_public_key(keypair: &Keypair) -> (key: &PublicKey)
    ensures
        public_key_bytes(*key) == keypair_public(*keypair),
{
    &keypair.public
}

/// `PublicKey::to_bytes` gives the key's encoding.
#[verifier::external_body]
pub(crate) fn public_key_to_bytes(key: &PublicKey) -> (bytes: [u8; 32])
    ensures
        bytes@ == public_key_bytes(*key),
{
    key.to_bytes()
}

/// `Keypair::vrf_sign`, without the batchable proof. The pair it returns has
/// the transcript's hash under the public half as input and the secret
/// half's multiple of it as output. The proof holds two canonical scalars; it
/// is made with fresh randomness, so two calls may give different proofs. Where
/// the keypair is consistent, `vrf_verify` accepts the proof with the output
/// for the same transcript under the public half, unless the output is the
/// identity, which `vrf_verify` refuses as a pre-output.
#[verifier::external_body]
pub(crate) fn vrf_sign(keypair: &Keypair, t: Transcript) -> (r: (VRFInOut, VRFProof))
    ensures
        inout_input(r.0) == vrf_input_point(keypair_public(*keypair), transcript_log(t)),
        inout_output(r.0) == vrf_output_point(
            keypair_secret(*keypair),
            vrf_input_point(keypair_public(*keypair), transcript_log(t)),
        ),
        proof_decodes(proof_bytes(r.1)),
        keypair_public(*keypair) == secret_public_key(keypair_secret(*keypair)) && inout_output(r.0)
            != identity_point() ==> vrf_proof_accepted(
            keypair_public(*keypair),
            transcript_log(t),
            inout_output(r.0),
            proof_bytes(r.1),
        ),
{
    let (io, proof, _) = keypair.vrf_sign(t);
    (io, proof)
}

/// `VRFInOut::to_preout` copies out the encoding of the output point.
pub assume_specification[ VRFInOut::to_preout ](io: &VRFInOut) -> (preout: VRFPreOut)
    ensures
        preout_bytes(preout) == inout_output(*io),
;

/// `VRFPreOut::to_bytes` gives the bytes held.
#[verifier::external_body]
pub(crate) fn preout_to_bytes(preout: &VRFPreOut) -> (bytes: [u8; 32])
    ensures
        bytes@ == preout_bytes(*preout),
{
    preout.to_bytes()
}

/// `VRFPreOut::from_bytes` takes any 32 bytes and holds them unchanged.
pub assume_specification[ VRFPreOut::from_bytes ](bytes: &[u8]) -> (r: Result<
    VRFPreOut,
    SignatureError,
>)
    ensures
        r is Ok <==> bytes@.len() == 32,
        r matches Ok(preout) ==> preout_bytes(preout) == bytes@,
;

/// `VRFProof::to_bytes` gives the proof's encoding.
#[verifier::external_body]
pub(crate) fn proof_to_bytes(proof: &VRFProof) -> (bytes: [u8; 64])
    ensures
        bytes@ == proof_bytes(*proof),
{
    proof.to_bytes()
}

/// `VRFProof::from_bytes` takes 64 bytes that hold two canonical scalars,
/// and the proof it gives encodes to the same bytes.
pub assume_specification[ VRFProof::from_bytes ](bytes: &[u8]) -> (r: Result<
    VRFProof,
    SignatureError,
>)
    ensures
        r is Ok <==> proof_decodes(bytes@),
        r matches Ok(proof) ==> proof_bytes(proof) == bytes@,
;

/// `PublicKey::vrf_verify`, without the batchable proof. Whether it accepts
/// depends on the key, the transcript, the pre-output and the proof alone.
/// On success the pair it returns has the transcript's hash under the key as
/// input and the pre-output as output.
#[verifier::external_body]
pub(crate) fn vrf_verify(
    key: &PublicKey,
    t: Transcript,
    preout: &VRFPreOut,
    proof: &VRFProof,
) -> (r: Result<VRFInOut, SignatureError>)
    ensures
        r is Ok <==> vrf_proof_accepted(
            public_key_bytes(*key),
            transcript_log(t),
            preout_bytes(*preout),
            proof_bytes(*proof),
        ),
        r matches Ok(io) ==> inout_input(io) == vrf_input_point(
            public_key_bytes(*key),
            transcript_log(t),
        ) && inout_output(io) == preout_bytes(*preout),
{
    key.vrf_verify(t, preout, proof).map(|(io, _)| io)
}

/// `VRFInOut::make_bytes` for eight bytes: a hash of the context and of both
/// points. It panics on a context whose length does not fit in 32 bits.
#[verifier::external_body]
pub(crate) fn make_bytes(io: &VRFInOut, context: &[u8]) -> (bytes: [u8; 8])
    requires
        context@.len() <= u32::MAX,
    ensures
        bytes@ == vrf_output_bytes(inout_input(*io), inout_output(*io), context@),
{
    io.make_bytes(context)
}

} // verus!
