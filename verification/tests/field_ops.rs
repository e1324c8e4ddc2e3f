//! The field interface exercised against the real arithmetic engine.

use cube_snark::field::Fp;
use cube_snark::lifecycle::make_constants;

#[test]
fn addition_and_multiplication_agree_with_small_integers() {
    assert!(Fp::from_u64(2).add(&Fp::from_u64(3)).eq_value(&Fp::from_u64(5)));
    assert!(Fp::from_u64(6).mul(&Fp::from_u64(7)).eq_value(&Fp::from_u64(42)));
    assert!(!Fp::from_u64(2).add(&Fp::from_u64(3)).eq_value(&Fp::from_u64(6)));
}

#[test]
fn squaring_and_cubing_match_repeated_multiplication() {
    let three = Fp::from_u64(3);
    assert!(three.square().eq_value(&Fp::from_u64(9)));
    assert!(three.square().eq_value(&three.mul(&three)));
    assert!(three.cube().eq_value(&Fp::from_u64(27)));
    let two = Fp::from_u64(2);
    assert!(two.cube().eq_value(&Fp::from_u64(8)));
}

#[test]
fn one_is_the_multiplicative_identity() {
    let one = Fp::one();
    assert!(one.eq_value(&Fp::from_u64(1)));
    let x = Fp::from_u64(123456789);
    assert!(x.mul(&one).eq_value(&x));
    assert!(one.mul(&x).eq_value(&x));
}

#[test]
fn decimal_parsing_accepts_exactly_plain_numerals() {
    assert!(Fp::from_decimal("35").unwrap().eq_value(&Fp::from_u64(35)));
    assert!(Fp::from_decimal("0").unwrap().eq_value(&Fp::from_u64(0)));
    assert!(Fp::from_decimal("10").unwrap().eq_value(&Fp::from_u64(10)));
    assert!(Fp::from_decimal("").is_none());
    assert!(Fp::from_decimal("007").is_none());
    assert!(Fp::from_decimal("1a").is_none());
    assert!(Fp::from_decimal("-1").is_none());
}

#[test]
fn decimal_parsing_reduces_modulo_the_field_order() {
    let modulus =
        "52435875175126190479447740508185965837690552500527637822603658699938581184513";
    assert!(Fp::from_decimal(modulus).unwrap().eq_value(&Fp::from_u64(0)));
}

#[test]
fn equality_distinguishes_values() {
    assert!(Fp::from_u64(5).eq_value(&Fp::from_u64(5)));
    assert!(!Fp::from_u64(5).eq_value(&Fp::from_u64(6)));
}

#[test]
fn random_elements_respect_the_field() {
    let mut rng = rand::thread_rng();
    let r = Fp::random(&mut rng);
    assert!(r.mul(&Fp::one()).eq_value(&r));
    let constants = make_constants(322, &mut rng);
    assert_eq!(constants.len(), 322);
}
