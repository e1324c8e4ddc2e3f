//! End-to-end runs of the proof lifecycle against the real Groth16 backend:
//! setup, proving, and verification, driven through the recorded constraint
//! system.

use bellman::groth16::{create_random_proof, generate_random_parameters, Parameters};
use bellman::{Circuit, ConstraintSystem, SynthesisError, Variable};
use bls12_381::{Bls12, Scalar};
use cube_snark::cube::CubeDemo;
use cube_snark::field::Fp;
use cube_snark::lifecycle::{
    parse_proof, parse_verifying_key, preprocess_verifying_key, report_line, verdict_of,
    verify_output, BackendOutcome, BackendProof, PreparedKey, Verdict,
};
use cube_snark::r1cs::{R1cs, Term};

/// Drives the backend's constraint system by replaying the constraint
/// system the library's verified synthesis pass recorded, so the relation
/// is described in one place only.
struct Adapter {
    demo: CubeDemo,
}

impl Circuit<Scalar> for Adapter {
    fn synthesize<CS: ConstraintSystem<Scalar>>(self, cs: &mut CS) -> Result<(), SynthesisError> {
        let mut rec = R1cs::new(false);
        self.demo
            .synthesize(&mut rec)
            .map_err(|_| SynthesisError::AssignmentMissing)?;
        let mut vars: Vec<Variable> = vec![CS::one()];
        let publics = rec.public_indices().clone();
        for i in 1..rec.num_vars() {
            let val = rec.value_at(i);
            let produce = || val.map(|f| f.to_scalar()).ok_or(SynthesisError::AssignmentMissing);
            let v = if publics.contains(&i) {
                cs.alloc_input(|| format!("v{}", i), produce)?
            } else {
                cs.alloc(|| format!("v{}", i), produce)?
            };
            vars.push(v);
        }
        for c in rec.constraint_list() {
            cs.enforce(
                || "constraint",
                |lc| {
                    let mut lc = lc;
                    for t in c.a.terms.iter() {
                        lc = match t {
                            Term::Var { index } => lc + vars[*index],
                            Term::Scaled { coeff, index } => lc + (coeff.to_scalar(), vars[*index]),
                        };
                    }
                    lc
                },
                |lc| {
                    let mut lc = lc;
                    for t in c.b.terms.iter() {
                        lc = match t {
                            Term::Var { index } => lc + vars[*index],
                            Term::Scaled { coeff, index } => lc + (coeff.to_scalar(), vars[*index]),
                        };
                    }
                    lc
                },
                |lc| {
                    let mut lc = lc;
                    for t in c.c.terms.iter() {
                        lc = match t {
                            Term::Var { index } => lc + vars[*index],
                            Term::Scaled { coeff, index } => lc + (coeff.to_scalar(), vars[*index]),
                        };
                    }
                    lc
                },
            );
        }
        Ok(())
    }
}

fn run_setup() -> (Parameters<Bls12>, Vec<u8>) {
    let mut rng = rand::thread_rng();
    let params = generate_random_parameters::<Bls12, _, _>(
        Adapter { demo: CubeDemo::for_setup(Vec::new()) },
        &mut rng,
    )
    .unwrap();
    let mut vk_bytes: Vec<u8> = Vec::new();
    params.vk.write(&mut vk_bytes).unwrap();
    (params, vk_bytes)
}

fn prepare(vk_bytes: &Vec<u8>) -> PreparedKey {
    let bvk = parse_verifying_key(vk_bytes).unwrap();
    preprocess_verifying_key(&bvk)
}

fn prove(params: &Parameters<Bls12>, witness: Fp) -> BackendProof {
    let mut rng = rand::thread_rng();
    let proof = create_random_proof(
        Adapter { demo: CubeDemo::for_proving(witness, Vec::new()) },
        params,
        &mut rng,
    )
    .unwrap();
    let mut bytes: Vec<u8> = Vec::new();
    proof.write(&mut bytes).unwrap();
    parse_proof(&bytes).unwrap()
}

#[test]
fn scenario_a_witness_three_accepts_35() {
    let (params, vk_bytes) = run_setup();
    let pvk = prepare(&vk_bytes);
    let witness = Fp::from_decimal("3").unwrap();
    let expected = cube_snark::cube::expected_public_output(&witness);
    assert!(expected.eq_value(&Fp::from_u64(35)));
    let proof = prove(&params, witness);
    let verdict = verify_output(&pvk, &proof, &expected);
    assert_eq!(verdict, Verdict::Accept);
    assert_eq!(report_line(verdict), "success!");
}

#[test]
fn scenario_b_same_proof_rejects_36() {
    let (params, vk_bytes) = run_setup();
    let pvk = prepare(&vk_bytes);
    let witness = Fp::from_u64(3);
    let proof = prove(&params, witness);
    let verdict = verify_output(&pvk, &proof, &Fp::from_u64(36));
    assert_eq!(verdict, Verdict::Reject);
    assert_eq!(report_line(verdict), "proof rejected");
}

#[test]
fn scenario_c_zero_witness_accepts_5_rejects_4() {
    let (params, vk_bytes) = run_setup();
    let pvk = prepare(&vk_bytes);
    let witness = Fp::from_u64(0);
    let expected = cube_snark::cube::expected_public_output(&witness);
    assert!(expected.eq_value(&Fp::from_u64(5)));
    let proof = prove(&params, witness);
    assert_eq!(verify_output(&pvk, &proof, &expected), Verdict::Accept);
    assert_eq!(verify_output(&pvk, &proof, &Fp::from_u64(4)), Verdict::Reject);
}

#[test]
fn missing_witness_never_yields_a_proof() {
    let (params, _vk_bytes) = run_setup();
    let mut rng = rand::thread_rng();
    let result = create_random_proof(
        Adapter { demo: CubeDemo::for_setup(Vec::new()) },
        &params,
        &mut rng,
    );
    assert!(result.is_err());
}

#[test]
fn fresh_setups_differ_but_each_pair_is_consistent() {
    let (params_a, vk_bytes_a) = run_setup();
    let (params_b, vk_bytes_b) = run_setup();
    assert_ne!(vk_bytes_a, vk_bytes_b);
    let witness = Fp::from_u64(3);
    let expected = cube_snark::cube::expected_public_output(&witness);
    let pvk_a = prepare(&vk_bytes_a);
    let pvk_b = prepare(&vk_bytes_b);
    let proof_a = prove(&params_a, witness);
    let proof_b = prove(&params_b, witness);
    assert_eq!(verify_output(&pvk_a, &proof_a, &expected), Verdict::Accept);
    assert_eq!(verify_output(&pvk_b, &proof_b, &expected), Verdict::Accept);
}

#[test]
fn preprocessing_twice_gives_the_same_outcomes() {
    let (params, vk_bytes) = run_setup();
    let pvk_once = prepare(&vk_bytes);
    let pvk_twice = prepare(&vk_bytes);
    let witness = Fp::from_u64(3);
    let expected = cube_snark::cube::expected_public_output(&witness);
    let proof = prove(&params, witness);
    let good_once = verify_output(&pvk_once, &proof, &expected);
    let good_twice = verify_output(&pvk_twice, &proof, &expected);
    assert_eq!(good_once, good_twice);
    assert_eq!(good_once, Verdict::Accept);
    let bad = Fp::from_u64(36);
    let bad_once = verify_output(&pvk_once, &proof, &bad);
    let bad_twice = verify_output(&pvk_twice, &proof, &bad);
    assert_eq!(bad_once, bad_twice);
    assert_eq!(bad_once, Verdict::Reject);
}

/// A shape with two public inputs, only to provoke a count mismatch.
struct TwoInputs;

impl Circuit<Scalar> for TwoInputs {
    fn synthesize<CS: ConstraintSystem<Scalar>>(self, cs: &mut CS) -> Result<(), SynthesisError> {
        let a = cs.alloc_input(|| "a", || Ok(Scalar::from(1)))?;
        let b = cs.alloc_input(|| "b", || Ok(Scalar::from(1)))?;
        cs.enforce(|| "eq", |lc| lc + a, |lc| lc + CS::one(), |lc| lc + b);
        Ok(())
    }
}

#[test]
fn mismatched_input_count_is_malformed() {
    let mut rng = rand::thread_rng();
    let params = generate_random_parameters::<Bls12, _, _>(TwoInputs, &mut rng).unwrap();
    let mut vk_bytes: Vec<u8> = Vec::new();
    params.vk.write(&mut vk_bytes).unwrap();
    let pvk = prepare(&vk_bytes);
    let proof = create_random_proof(TwoInputs, &params, &mut rng).unwrap();
    let mut proof_bytes: Vec<u8> = Vec::new();
    proof.write(&mut proof_bytes).unwrap();
    let proof = parse_proof(&proof_bytes).unwrap();
    let verdict = verify_output(&pvk, &proof, &Fp::from_u64(1));
    assert_eq!(verdict, Verdict::Malformed);
}

#[test]
fn parsing_rejects_malformed_artifacts() {
    let empty: Vec<u8> = Vec::new();
    assert!(parse_proof(&empty).is_none());
    assert!(parse_verifying_key(&empty).is_none());
    let garbage: Vec<u8> = vec![7u8; 10];
    assert!(parse_proof(&garbage).is_none());
}

#[test]
fn verdicts_mirror_backend_outcomes() {
    assert_eq!(verdict_of(BackendOutcome::Valid), Verdict::Accept);
    assert_eq!(verdict_of(BackendOutcome::ProofRejected), Verdict::Reject);
    assert_eq!(verdict_of(BackendOutcome::KeyMismatch), Verdict::Malformed);
    assert_eq!(report_line(Verdict::Malformed), "malformed public inputs");
}
