//! Transcript behaviour: determinism, index drawing, grinding, hashing.

use stark_verifier::check_grinding;
use stark_verifier::field::{Ext, Felt};
use stark_verifier::transcript::{
    coin_draw_ints, coin_leading_zeros, coin_new, coin_reseed, coin_reseed_int, draw_felt,
    hash_row, Digest,
};
use winter_crypto::hashers::Blake3_256;
use winter_crypto::{Digest as _, ElementHasher};
use winter_math::fields::f62::BaseElement;

fn digest_of(byte: u8) -> Digest {
    Digest::new(vec![byte; 32]).unwrap()
}

#[test]
fn identical_histories_draw_identical_values() {
    let seed = vec![1u8, 2, 3, 4];
    let mut c1 = coin_new(&seed);
    let mut c2 = coin_new(&seed);
    coin_reseed(&mut c1, &digest_of(7));
    coin_reseed(&mut c2, &digest_of(7));
    coin_reseed_int(&mut c1, 99);
    coin_reseed_int(&mut c2, 99);
    assert_eq!(draw_felt(&mut c1, Ext::Base), draw_felt(&mut c2, Ext::Base));
    assert_eq!(draw_felt(&mut c1, Ext::Quad), draw_felt(&mut c2, Ext::Quad));
    assert_eq!(draw_felt(&mut c1, Ext::Cube), draw_felt(&mut c2, Ext::Cube));
    assert_eq!(
        coin_draw_ints(&mut c1, 10, 64),
        coin_draw_ints(&mut c2, 10, 64)
    );
    assert_eq!(coin_leading_zeros(&c1), coin_leading_zeros(&c2));
}

#[test]
fn different_absorbed_commitments_change_the_draws() {
    let seed = vec![1u8, 2, 3, 4];
    let mut c1 = coin_new(&seed);
    let mut c2 = coin_new(&seed);
    coin_reseed(&mut c1, &digest_of(7));
    coin_reseed(&mut c2, &digest_of(8));
    assert_ne!(draw_felt(&mut c1, Ext::Base), draw_felt(&mut c2, Ext::Base));
}

#[test]
fn drawn_index_sets_have_the_configured_count_bound_and_no_repeats() {
    let mut c = coin_new(&vec![5u8, 6, 7]);
    let values = coin_draw_ints(&mut c, 20, 64).unwrap();
    assert_eq!(values.len(), 20);
    for (i, v) in values.iter().enumerate() {
        assert!(*v < 64);
        for w in &values[i + 1..] {
            assert_ne!(v, w);
        }
    }
}

#[test]
fn grinding_threshold_zero_admits_any_state() {
    let mut c = coin_new(&vec![9u8, 9, 9]);
    coin_reseed_int(&mut c, 12345);
    assert!(check_grinding(&c, 0).is_ok());
    let lz = coin_leading_zeros(&c);
    assert!(lz <= 64);
    assert!(check_grinding(&c, lz).is_ok());
    if lz < 64 {
        assert!(check_grinding(&c, lz + 1).is_err());
    }
}

#[test]
fn commitments_must_be_exactly_thirty_two_bytes() {
    assert!(Digest::new(vec![0u8; 31]).is_none());
    assert!(Digest::new(vec![0u8; 33]).is_none());
    assert!(Digest::new(vec![0u8; 32]).is_some());
}

#[test]
fn row_hashing_matches_the_hashing_library() {
    let row = vec![Felt { a: 3, b: 0, c: 0 }, Felt { a: 99, b: 0, c: 0 }];
    let ours = hash_row(Ext::Base, &row);
    let elems = vec![BaseElement::new(3), BaseElement::new(99)];
    let theirs = Blake3_256::<BaseElement>::hash_elements(&elems);
    assert_eq!(ours.bytes, theirs.as_bytes().to_vec());
}
