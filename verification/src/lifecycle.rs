//! The proof-lifecycle layer around the circuit: taking in the backend's
//! key and proof artifacts, preprocessing the verifying key, and checking a
//! proof against the claimed public output.
//!
//! The pairing-based backend is an outside collaborator.  Key generation
//! and proof creation consume a value implementing the backend's own
//! circuit trait, which the verified library cannot provide, so those two
//! calls live with the unverified glue; the artifacts come back into the
//! library in their serialized forms and are carried in opaque holders.
//! Each holder is modeled by the byte string it came from — parsing and
//! preprocessing are deterministic, so those bytes determine the artifact —
//! and the verification verdict is pinned, through a name, to the key
//! bytes, the proof bytes and the ordered public inputs.

use vstd::prelude::*;

use crate::field::{canonical, Fp};

verus! {

/// The backend's verifying key, parsed from its serialized form.  Opaque:
/// the library only carries it between preprocessing and verification.
#[verifier::external_body]
pub struct BackendVerifyingKey {
    inner: bellman::groth16::VerifyingKey<bls12_381::Bls12>,
}

/// The verification-optimized form of the verifying key.  Opaque.
#[verifier::external_body]
pub struct PreparedKey {
    inner: bellman::groth16::PreparedVerifyingKey<bls12_381::Bls12>,
}

/// A proof produced by the backend, parsed from its serialized form.  Opaque.
#[verifier::external_body]
pub struct BackendProof {
    inner: bellman::groth16::Proof<bls12_381::Bls12>,
}

/// What the backend's pairing check reported, one variant per outcome.
#[derive(Clone, Copy, PartialEq, Eq, Structural, Debug)]
pub enum BackendOutcome {
    /// The verification equation holds.
    Valid,
    /// The equation does not hold for these public inputs: a plain rejection.
    ProofRejected,
    /// The number of public inputs does not match the key.
    KeyMismatch,
}

/// The library's verdict on one verification run.
#[derive(Clone, Copy, PartialEq, Eq, Structural, Debug)]
pub enum Verdict {
    /// The proof is valid for the claimed public output.
    Accept,
    /// The proof does not match the claimed public output; a normal outcome,
    /// not an error.
    Reject,
    /// The public inputs were malformed for this key.
    Malformed,
}

/// Whether a well-formed serialized verifying key stands at the front of
/// `bytes` (the encoding is self-delimiting; trailing bytes are ignored).
pub uninterp spec fn vk_parses(bytes: Seq<u8>) -> bool;

/// The byte string the verifying key was taken in from; parsing is
/// deterministic, so these bytes determine the key.
pub uninterp spec fn vk_model(vk: BackendVerifyingKey) -> Seq<u8>;

/// Whether a well-formed serialized proof stands at the front of `bytes`.
pub uninterp spec fn proof_parses(bytes: Seq<u8>) -> bool;

/// The byte string the proof was taken in from; parsing is deterministic,
/// so these bytes determine the proof.
pub uninterp spec fn proof_model(p: BackendProof) -> Seq<u8>;

/// The byte string of the verifying key this prepared key was derived
/// from; preprocessing is a pure function of the key, so these bytes
/// determine the prepared form as far as verification can observe.
pub uninterp spec fn pvk_model(pvk: PreparedKey) -> Seq<u8>;

/// The outcome the backend's pairing check reports for the key parsed from
/// `vk`, the proof parsed from `proof`, and the ordered public inputs:
/// deterministic in all three.
pub uninterp spec fn outcome_of(vk: Seq<u8>, proof: Seq<u8>, inputs: Seq<Seq<u8>>) -> BackendOutcome;

/// Relies on `bellman::groth16::VerifyingKey::read`: deterministically
/// parses the uncompressed serialized form from the front of the bytes,
/// failing exactly when no well-formed key stands there.
#[verifier::external_body]
fn parse_vk_raw(bytes: &Vec<u8>) -> (r: Option<BackendVerifyingKey>)
    ensures
        r is Some <==> vk_parses(bytes@),
        r matches Some(vk) ==> vk_model(vk) == bytes@,
{
    match bellman::groth16::VerifyingKey::read(bytes.as_slice()) {
        Ok(inner) => Some(BackendVerifyingKey { inner }),
        Err(_) => None,
    }
}

/// Relies on `bellman::groth16::Proof::read`: deterministically parses the
/// serialized form from the front of the bytes, failing exactly when no
/// well-formed proof stands there.
#[verifier::external_body]
fn parse_proof_raw(bytes: &Vec<u8>) -> (r: Option<BackendProof>)
    ensures
        r is Some <==> proof_parses(bytes@),
        r matches Some(p) ==> proof_model(p) == bytes@,
{
    match bellman::groth16::Proof::read(bytes.as_slice()) {
        Ok(inner) => Some(BackendProof { inner }),
        Err(_) => None,
    }
}

/// Relies on `bellman::groth16::prepare_verifying_key`: a pure derivation
/// of the verification-optimized form, so the prepared key is modeled by
/// the bytes of the key it came from.
#[verifier::external_body]
fn prepare_raw(vk: &BackendVerifyingKey) -> (r: PreparedKey)
    ensures
        pvk_model(r) == vk_model(*vk),
{
    PreparedKey { inner: bellman::groth16::prepare_verifying_key(&vk.inner) }
}

/// Relies on `bellman::groth16::verify_proof`: checks the pairing
/// equation, deterministically in the key, the proof and the inputs,
/// returning `Err(InvalidVerifyingKey)` exactly when the input count does
/// not match the key and `Err(InvalidProof)` when the equation fails.  The
/// three outcomes are handed back one arm each; the inputs are converted
/// one for one.
#[verifier::external_body]
fn verify_raw(pvk: &PreparedKey, proof: &BackendProof, inputs: &Vec<Fp>) -> (r: BackendOutcome)
    ensures
        r == outcome_of(pvk_model(*pvk), proof_model(*proof), inputs@.map_values(|f: Fp| f@)),
{
    let scalars: Vec<bls12_381::Scalar> = inputs.iter().map(|f| f.to_scalar()).collect();
    match bellman::groth16::verify_proof(&pvk.inner, &proof.inner, &scalars) {
        Ok(()) => BackendOutcome::Valid,
        Err(bellman::VerificationError::InvalidProof) => BackendOutcome::ProofRejected,
        Err(bellman::VerificationError::InvalidVerifyingKey) => BackendOutcome::KeyMismatch,
    }
}

/// Takes in a verifying key from its serialized form; `None` exactly on
/// bytes that do not begin with a well-formed key.
pub fn parse_verifying_key(bytes: &Vec<u8>) -> (r: Option<BackendVerifyingKey>)
    ensures
        r is Some <==> vk_parses(bytes@),
        r matches Some(vk) ==> vk_model(vk) == bytes@,
{
    parse_vk_raw(bytes)
}

/// Takes in a proof from its serialized form; `None` exactly on bytes that
/// do not begin with a well-formed proof.
pub fn parse_proof(bytes: &Vec<u8>) -> (r: Option<BackendProof>)
    ensures
        r is Some <==> proof_parses(bytes@),
        r matches Some(p) ==> proof_model(p) == bytes@,
{
    parse_proof_raw(bytes)
}

/// Derives the verification-optimized form of the verifying key.  A pure
/// function of the key: the result is modeled by the same key bytes, so
/// preprocessing twice yields forms that `verify_output` treats
/// identically — repreprocessing cannot change a verdict.
pub fn preprocess_verifying_key(vk: &BackendVerifyingKey) -> (r: PreparedKey)
    ensures
        pvk_model(r) == vk_model(*vk),
{
    prepare_raw(vk)
}

/// The verdict each backend outcome maps to: a failed pairing equation is
/// the normal `Reject`, distinct from every error; only a public-input
/// count mismatch is `Malformed`.
pub open spec fn verdict_for_outcome(o: BackendOutcome) -> Verdict {
    match o {
        BackendOutcome::Valid => Verdict::Accept,
        BackendOutcome::ProofRejected => Verdict::Reject,
        BackendOutcome::KeyMismatch => Verdict::Malformed,
    }
}

/// Maps the backend outcome to the library's verdict, as
/// `verdict_for_outcome` states it.
pub fn verdict_of(o: BackendOutcome) -> (v: Verdict)
    ensures
        v == verdict_for_outcome(o),
{
    match o {
        BackendOutcome::Valid => Verdict::Accept,
        BackendOutcome::ProofRejected => Verdict::Reject,
        BackendOutcome::KeyMismatch => Verdict::Malformed,
    }
}

/// Verifies a proof against the ordered public inputs, here the single
/// value bound to `out`.  The verdict is exactly the backend's outcome for
/// this key, this proof and this one claimed encoding, mapped through
/// `verdict_for_outcome`: a mismatched proof is `Reject`, never an abort,
/// and any two prepared forms of one key yield the same verdict.
pub fn verify_output(pvk: &PreparedKey, proof: &BackendProof, claimed: &Fp) -> (v: Verdict)
    ensures
        v == verdict_for_outcome(
            outcome_of(pvk_model(*pvk), proof_model(*proof), seq![claimed@]),
        ),
{
    let mut inputs: Vec<Fp> = Vec::new();
    inputs.push(*claimed);
    proof {
        assert(inputs@.map_values(|f: Fp| f@) =~= seq![claimed@]);
    }
    let outcome = verify_raw(pvk, proof, &inputs);
    verdict_of(outcome)
}

/// The report the lifecycle surfaces for a verdict.
pub open spec fn report_text(v: Verdict) -> Seq<char> {
    match v {
        Verdict::Accept => "success!"@,
        Verdict::Reject => "proof rejected"@,
        Verdict::Malformed => "malformed public inputs"@,
    }
}

/// The one-line success or failure report of a lifecycle run.
pub fn report_line(v: Verdict) -> (s: &'static str)
    ensures
        s@ == report_text(v),
{
    match v {
        Verdict::Accept => "success!",
        Verdict::Reject => "proof rejected",
        Verdict::Malformed => "malformed public inputs",
    }
}

/// Draws the auxiliary round constants for the circuit's configuration; the
/// cubic relation itself never reads them.
pub fn make_constants(n: usize, rng: &mut rand::rngs::ThreadRng) -> (v: Vec<Fp>)
    ensures
        v@.len() == n,
        forall|i: int| 0 <= i < n ==> canonical(#[trigger] v@[i]@),
{
    let mut v: Vec<Fp> = Vec::new();
    let mut i: usize = 0;
    while i < n
        invariant
            0 <= i <= n,
            v@.len() == i,
            forall|k: int| 0 <= k < i ==> canonical(#[trigger] v@[k]@),
        decreases n - i,
    {
        v.push(Fp::random(rng));
        i = i + 1;
    }
    v
}

} // verus!
