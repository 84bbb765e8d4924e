//! Protocol-level behaviour of `verify`, driven through the cubing
//! computation: extension gating, shape rejection, the out-of-domain
//! consistency boundary, grinding enforcement, and determinism.

use stark_verifier::air::ProofOptions;
use stark_verifier::channel::Proof;
use stark_verifier::check_extension_support;
use stark_verifier::field::{Ext, Felt, P};
use stark_verifier::transcript::{
    coin_draw_ints, coin_new, coin_reseed, coin_reseed_int, draw_felt, draw_felts, draw_pairs,
    draw_triples, hash_row, Digest,
};
use stark_verifier::work::WorkAir;
use stark_verifier::{verify, VerifierError};
use winter_air::proof::Queries;
use winter_crypto::hashers::Blake3_256;
use winter_crypto::{ElementHasher, MerkleTree};
use winter_math::fields::f62::BaseElement;
use winter_utils::Serializable;

type Hasher = Blake3_256<BaseElement>;

const TRACE_LEN: usize = 8;
const BLOWUP: usize = 8;
const LDE: usize = TRACE_LEN * BLOWUP;
const NUM_QUERIES: usize = 2;
const SEED_VALUE: u64 = 3;

fn options(grinding: u32) -> ProofOptions {
    ProofOptions {
        num_queries: NUM_QUERIES,
        blowup: BLOWUP,
        grinding_factor: grinding,
        extension: Ext::Base,
        fri_folding: 4,
        fri_max_remainder: 64,
    }
}

fn felt(a: u64) -> Felt {
    Felt { a: a % P, b: 0, c: 0 }
}

/// A commitment tree over one column family: rows over the whole
/// low-degree-extension domain, plus a serialized query set for the given
/// positions.
fn committed_queries(rows: &[Vec<BaseElement>], positions: &[usize]) -> (Digest, Vec<u8>) {
    let leaves: Vec<_> = rows.iter().map(|row| Hasher::hash_elements(row)).collect();
    let tree = MerkleTree::<Hasher>::new(leaves).unwrap();
    let root = Digest::new(winter_crypto::Digest::as_bytes(tree.root()).to_vec()).unwrap();
    let proof = tree.prove_batch(positions).unwrap();
    let values: Vec<Vec<BaseElement>> = positions.iter().map(|&p| rows[p].clone()).collect();
    let queries = Queries::new::<Hasher, BaseElement>(proof, values);
    (root, queries.to_bytes())
}

fn main_rows() -> Vec<Vec<BaseElement>> {
    (0..LDE).map(|i| vec![BaseElement::new(i as u64 + 11)]).collect()
}

fn cons_rows() -> Vec<Vec<BaseElement>> {
    (0..LDE)
        .map(|i| (0..4u64).map(|j| BaseElement::new(i as u64 * 7 + j)).collect())
        .collect()
}

fn fri_proof_bytes() -> Vec<u8> {
    // zero folding layers, a 64-element remainder, one partition
    let mut out = vec![0u8];
    let mut rem: Vec<u8> = Vec::new();
    for i in 0..64u64 {
        rem.extend_from_slice(&i.to_le_bytes());
    }
    out.extend_from_slice(&(rem.len() as u16).to_le_bytes());
    out.extend_from_slice(&rem);
    out.push(0);
    out
}

fn fri_root() -> Digest {
    Digest::new(vec![9u8; 32]).unwrap()
}

fn pub_inputs() -> Vec<u8> {
    vec![42u8, 1]
}

fn context_bytes() -> Vec<u8> {
    vec![8u8, 8, 0]
}

/// Builds a shape-valid proof with the given out-of-domain constraint
/// column values, with query openings made for `positions`.
fn build_proof(ood_evals: [u64; 4], positions: &[usize]) -> Proof {
    let (main_root, main_queries) = committed_queries(&main_rows(), positions);
    let (cons_root, cons_queries) = committed_queries(&cons_rows(), positions);
    Proof {
        context_bytes: context_bytes(),
        trace_commitments: vec![main_root],
        constraint_commitment: cons_root,
        fri_commitments: vec![fri_root()],
        ood_main_current: vec![felt(SEED_VALUE)],
        ood_main_next: vec![felt(SEED_VALUE * SEED_VALUE * SEED_VALUE)],
        ood_aux_current: Vec::new(),
        ood_aux_next: Vec::new(),
        ood_constraint_evaluations: ood_evals.iter().map(|&v| felt(v)).collect(),
        pow_nonce: 7,
        main_trace_queries: main_queries,
        aux_trace_queries: None,
        constraint_queries: cons_queries,
        fri_proof_bytes: fri_proof_bytes(),
    }
}

/// Replays the transcript exactly as the verifier drives it, up to the
/// drawing of the query positions.
fn derive_positions(proof: &Proof) -> Vec<usize> {
    let mut seed = pub_inputs();
    seed.extend_from_slice(&proof.context_bytes);
    let mut coin = coin_new(&seed);
    coin_reseed(&mut coin, &proof.trace_commitments[0]);
    draw_pairs(&mut coin, Ext::Base, 1).unwrap(); // transition coefficients
    draw_pairs(&mut coin, Ext::Base, 1).unwrap(); // boundary coefficients
    coin_reseed(&mut coin, &proof.constraint_commitment);
    draw_felt(&mut coin, Ext::Base).unwrap(); // the point z
    let h_cur = hash_row(Ext::Base, &proof.ood_main_current);
    coin_reseed(&mut coin, &h_cur);
    let h_next = hash_row(Ext::Base, &proof.ood_main_next);
    coin_reseed(&mut coin, &h_next);
    let h_ev = hash_row(Ext::Base, &proof.ood_constraint_evaluations);
    coin_reseed(&mut coin, &h_ev);
    draw_triples(&mut coin, Ext::Base, 1).unwrap(); // trace composition
    draw_felts(&mut coin, Ext::Base, 4).unwrap(); // constraint composition
    draw_pairs(&mut coin, Ext::Base, 1).unwrap(); // degree adjustment
    coin_reseed(&mut coin, &proof.fri_commitments[0]); // commit phase
    draw_felt(&mut coin, Ext::Base).unwrap();
    coin_reseed_int(&mut coin, proof.pow_nonce);
    coin_draw_ints(&mut coin, NUM_QUERIES, LDE).unwrap()
}

fn air(grinding: u32) -> WorkAir {
    WorkAir::new(TRACE_LEN, SEED_VALUE, options(grinding)).unwrap()
}

#[test]
fn unsupported_extension_is_rejected_with_its_degree() {
    assert_eq!(
        check_extension_support(Ext::Quad, false, true),
        Err(VerifierError::UnsupportedFieldExtension(2))
    );
    assert_eq!(
        check_extension_support(Ext::Cube, true, false),
        Err(VerifierError::UnsupportedFieldExtension(3))
    );
    assert!(check_extension_support(Ext::Base, false, false).is_ok());
    assert!(check_extension_support(Ext::Quad, true, false).is_ok());
}

#[test]
fn malformed_frame_shape_is_a_structural_error() {
    let mut proof = build_proof([0; 4], &[0, 1]);
    proof.ood_main_current = vec![felt(1), felt(2)]; // wrong width
    let result = verify(&air(0), proof, &pub_inputs());
    assert_eq!(result, Err(VerifierError::ProofDeserializationError));
}

#[test]
fn inconsistent_ood_evaluations_are_rejected_at_the_boundary() {
    // the frame makes the recomputed constraint value zero, while the
    // claimed column values sum to something else
    let proof = build_proof([1, 0, 0, 0], &[0, 1]);
    let result = verify(&air(0), proof, &pub_inputs());
    assert_eq!(
        result,
        Err(VerifierError::InconsistentOodConstraintEvaluations)
    );
}

#[test]
fn failing_nonce_is_rejected_by_the_grinding_check() {
    // consistent out-of-domain values, so the run reaches the nonce check
    let proof = build_proof([0; 4], &[0, 1]);
    let result = verify(&air(32), proof, &pub_inputs());
    assert_eq!(
        result,
        Err(VerifierError::QuerySeedProofOfWorkVerificationFailed)
    );
}

#[test]
fn zero_grinding_threshold_admits_the_same_nonce() {
    // same nonce as above, threshold zero: the run moves past the
    // grinding check, reads the openings at the derived positions, and
    // only the low-degree test itself rejects
    let template = build_proof([0; 4], &[0, 1]);
    let positions = derive_positions(&template);
    let proof = build_proof([0; 4], &positions);
    let result = verify(&air(0), proof, &pub_inputs());
    match result {
        Err(VerifierError::FriVerificationFailed(_)) => (),
        other => panic!("expected a low-degree-test rejection, got {:?}", other),
    }
}

#[test]
fn verification_is_deterministic_over_identical_proofs() {
    let r1 = verify(&air(32), build_proof([0; 4], &[0, 1]), &pub_inputs());
    let r2 = verify(&air(32), build_proof([0; 4], &[0, 1]), &pub_inputs());
    assert_eq!(r1, r2);
    let r3 = verify(&air(0), build_proof([2, 5, 0, 1], &[3, 9]), &pub_inputs());
    let r4 = verify(&air(0), build_proof([2, 5, 0, 1], &[3, 9]), &pub_inputs());
    assert_eq!(r3, r4);
}

#[test]
fn mutated_commitment_changes_the_outcome_to_rejection() {
    // flip one byte in the constraint commitment of a proof that
    // otherwise fails only at the low-degree test
    let template = build_proof([0; 4], &[0, 1]);
    let positions = derive_positions(&template);
    let mut proof = build_proof([0; 4], &positions);
    let mut bytes = proof.constraint_commitment.bytes.clone();
    bytes[0] ^= 1;
    proof.constraint_commitment = Digest::new(bytes).unwrap();
    let result = verify(&air(0), proof, &pub_inputs());
    assert!(result.is_err());
    // the transcript shifted, so the openings no longer match
    assert_ne!(
        result,
        Err(VerifierError::QuerySeedProofOfWorkVerificationFailed)
    );
}

#[test]
fn mutated_nonce_shifts_the_drawn_positions_and_rejects() {
    let template = build_proof([0; 4], &[0, 1]);
    let positions = derive_positions(&template);
    let mut proof = build_proof([0; 4], &positions);
    proof.pow_nonce ^= 1;
    let result = verify(&air(0), proof, &pub_inputs());
    assert!(result.is_err());
}

#[test]
fn mutated_query_bytes_are_rejected() {
    let template = build_proof([0; 4], &[0, 1]);
    let positions = derive_positions(&template);
    let mut proof = build_proof([0; 4], &positions);
    let mid = proof.main_trace_queries.len() / 2;
    proof.main_trace_queries[mid] ^= 0xff;
    let result = verify(&air(0), proof, &pub_inputs());
    assert!(result.is_err());
    assert_ne!(result, Err(VerifierError::FriVerificationFailed(String::new())));
}

#[test]
fn mutated_ood_value_is_rejected_before_query_work() {
    let proof = {
        let mut p = build_proof([0; 4], &[0, 1]);
        // perturb one out-of-domain frame value: the recomputation from
        // the frame no longer matches the committed column values
        p.ood_main_next = vec![felt(SEED_VALUE * SEED_VALUE * SEED_VALUE + 1)];
        p
    };
    let result = verify(&air(0), proof, &pub_inputs());
    assert_eq!(
        result,
        Err(VerifierError::InconsistentOodConstraintEvaluations)
    );
}

#[test]
fn empty_layer_commitment_list_is_a_structural_error() {
    // a well-typed proof without any layer commitments must be rejected
    // up front with a typed error, not crash inside the low-degree test
    let mut proof = build_proof([0; 4], &[0, 1]);
    proof.fri_commitments = Vec::new();
    let result = verify(&air(0), proof, &pub_inputs());
    assert_eq!(result, Err(VerifierError::ProofDeserializationError));
}

#[test]
fn wrong_remainder_size_is_a_structural_error() {
    // a remainder that does not span the folded domain would drive the
    // query phase out of bounds; it is rejected as malformed shape
    let mut proof = build_proof([0; 4], &[0, 1]);
    let mut bytes = vec![0u8];
    let rem: Vec<u8> = (0..16u64).flat_map(|i| i.to_le_bytes()).collect();
    bytes.extend_from_slice(&(rem.len() as u16).to_le_bytes());
    bytes.extend_from_slice(&rem);
    bytes.push(0);
    proof.fri_proof_bytes = bytes;
    let result = verify(&air(0), proof, &pub_inputs());
    assert_eq!(result, Err(VerifierError::ProofDeserializationError));
}

#[test]
fn oversized_partition_exponent_is_a_structural_error() {
    // a partition byte of 64 would wrap the partition count to zero and
    // divide by zero inside the query phase; it is rejected as shape
    let mut proof = build_proof([0; 4], &[0, 1]);
    let last = proof.fri_proof_bytes.len() - 1;
    proof.fri_proof_bytes[last] = 64;
    let result = verify(&air(0), proof, &pub_inputs());
    assert_eq!(result, Err(VerifierError::ProofDeserializationError));
}
