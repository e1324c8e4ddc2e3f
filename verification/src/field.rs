//! Elements of the BLS12-381 scalar field, as the circuit layer sees them.
//!
//! The arithmetic engine is an outside collaborator and is not verified here.
//! Each element travels together with its canonical little-endian byte
//! encoding, and that encoding is the element's identity in every contract:
//! the uninterpreted functions below name what the engine returns, and the
//! trusted wrappers state which name each operation produces.

use vstd::prelude::*;

verus! {

#[verifier::external_type_specification]
#[verifier::external_body]
pub struct ExScalar(bls12_381::Scalar);

#[verifier::external_type_specification]
#[verifier::external_body]
pub struct ExThreadRng(rand::rngs::ThreadRng);

/// The canonical encoding of the product of the field elements encoded by `a` and `b`.
pub uninterp spec fn mul_of(a: Seq<u8>, b: Seq<u8>) -> Seq<u8>;

/// The canonical encoding of the sum of the field elements encoded by `a` and `b`.
pub uninterp spec fn add_of(a: Seq<u8>, b: Seq<u8>) -> Seq<u8>;

/// The canonical encoding of the field element that `n` reduces to: every
/// `u64` lies below the modulus, so it is `n`'s own little-endian encoding,
/// zero-padded to 32 bytes.
pub open spec fn from_u64_of(n: u64) -> Seq<u8> {
    Seq::new(32, |i: int| if i < 8 { ((n >> ((8 * i) as u64)) & 0xff) as u8 } else { 0u8 })
}

/// The canonical encoding of the field element that the decimal numeral `s` reduces to.
pub uninterp spec fn from_dec_of(s: Seq<char>) -> Seq<u8>;

/// The little-endian bytes of the scalar-field modulus
/// `q = 0x73eda753299d7d483339d80809a1d80553bda402fffe5bfeffffffff00000001`.
pub open spec fn modulus_le_bytes() -> Seq<u8> {
    seq![
        0x01u8, 0x00, 0x00, 0x00, 0xff, 0xff, 0xff, 0xff,
        0xfe, 0x5b, 0xfe, 0xff, 0x02, 0xa4, 0xbd, 0x53,
        0x05, 0xd8, 0xa1, 0x09, 0x08, 0xd8, 0x39, 0x33,
        0x48, 0x7d, 0x9d, 0x29, 0x53, 0xa7, 0xed, 0x73,
    ]
}

/// Little-endian comparison of `a` and `b` from byte `i` downwards.
pub open spec fn lt_le_from(a: Seq<u8>, b: Seq<u8>, i: int) -> bool
    decreases i + 1,
{
    if i < 0 {
        false
    } else if a[i] < b[i] {
        true
    } else if a[i] > b[i] {
        false
    } else {
        lt_le_from(a, b, i - 1)
    }
}

/// A canonical field-element encoding: 32 little-endian bytes, value below the modulus.
pub open spec fn canonical(b: Seq<u8>) -> bool {
    b.len() == 32 && lt_le_from(b, modulus_le_bytes(), 31)
}

/// The canonical encoding of the field's one.
pub open spec fn one_bytes() -> Seq<u8> {
    seq![
        0x01u8, 0x00, 0x00, 0x00, 0x00, 0x00, 0x00, 0x00,
        0x00, 0x00, 0x00, 0x00, 0x00, 0x00, 0x00, 0x00,
        0x00, 0x00, 0x00, 0x00, 0x00, 0x00, 0x00, 0x00,
        0x00, 0x00, 0x00, 0x00, 0x00, 0x00, 0x00, 0x00,
    ]
}

/// A scalar-field element.  The `bytes` field always holds the canonical
/// little-endian encoding of `scalar`; the wrappers below maintain that
/// pairing, and every contract speaks of the encoding alone.
#[derive(Clone, Copy)]
pub struct Fp {
    scalar: bls12_381::Scalar,
    bytes: [u8; 32],
}

impl View for Fp {
    type V = Seq<u8>;

    closed spec fn view(&self) -> Seq<u8> {
        self.bytes@
    }
}

/// Relies on `Mul for &Scalar` (bls12_381): the product in the scalar field,
/// re-encoded canonically by `Scalar::to_bytes`.
#[verifier::external_body]
fn fp_mul_raw(a: &Fp, b: &Fp) -> (r: Fp)
    ensures
        r@ == mul_of(a@, b@),
        canonical(r@),
{
    let s = &a.scalar * &b.scalar;
    Fp { scalar: s, bytes: s.to_bytes() }
}

/// Relies on `Add for &Scalar` (bls12_381): the sum in the scalar field,
/// re-encoded canonically by `Scalar::to_bytes`.
#[verifier::external_body]
fn fp_add_raw(a: &Fp, b: &Fp) -> (r: Fp)
    ensures
        r@ == add_of(a@, b@),
        canonical(r@),
{
    let s = &a.scalar + &b.scalar;
    Fp { scalar: s, bytes: s.to_bytes() }
}

/// Relies on `Scalar::square` (bls12_381): the element multiplied by itself.
#[verifier::external_body]
fn fp_square_raw(a: &Fp) -> (r: Fp)
    ensures
        r@ == mul_of(a@, a@),
        canonical(r@),
{
    let s = a.scalar.square();
    Fp { scalar: s, bytes: s.to_bytes() }
}

/// Relies on `ff::Field::cube`, whose provided body is `self.square() * self`.
#[verifier::external_body]
fn fp_cube_raw(a: &Fp) -> (r: Fp)
    ensures
        r@ == mul_of(mul_of(a@, a@), a@),
        canonical(r@),
{
    let s = ff::Field::cube(&a.scalar);
    Fp { scalar: s, bytes: s.to_bytes() }
}

/// Relies on `Scalar::one` (bls12_381): the multiplicative identity of the
/// field, whose canonical encoding is the byte 1 followed by zeroes.
#[verifier::external_body]
fn fp_one_raw() -> (r: Fp)
    ensures
        r@ == one_bytes(),
        canonical(r@),
        forall|x: Seq<u8>| canonical(x) ==> #[trigger] mul_of(x, r@) == x,
{
    let s = bls12_381::Scalar::one();
    Fp { scalar: s, bytes: s.to_bytes() }
}

/// Relies on `From<u64> for Scalar` (bls12_381): the reduction of `n` into
/// the field, which leaves every `u64` unchanged, so the encoding is `n`'s
/// own little-endian bytes.
#[verifier::external_body]
fn fp_from_u64_raw(n: u64) -> (r: Fp)
    ensures
        r@ == from_u64_of(n),
        canonical(r@),
{
    let s = bls12_381::Scalar::from(n);
    Fp { scalar: s, bytes: s.to_bytes() }
}

/// A numeral that `ff::PrimeField::from_str_vartime` accepts: non-empty, all
/// decimal digits, and no leading zero except for `"0"` itself.
pub open spec fn valid_decimal(s: Seq<char>) -> bool {
    &&& s.len() > 0
    &&& forall|i: int| 0 <= i < s.len() ==> '0' <= #[trigger] s[i] <= '9'
    &&& (s[0] == '0' ==> s.len() == 1)
}

/// Relies on `ff::PrimeField::from_str_vartime`: parses a decimal numeral,
/// returning `None` exactly on an empty string, a non-digit, or a leading zero.
#[verifier::external_body]
fn fp_from_dec_raw(s: &str) -> (r: Option<Fp>)
    ensures
        r is Some <==> valid_decimal(s@),
        r matches Some(f) ==> f@ == from_dec_of(s@) && canonical(f@),
{
    match <bls12_381::Scalar as ff::PrimeField>::from_str_vartime(s) {
        Some(x) => Some(Fp { scalar: x, bytes: x.to_bytes() }),
        None => None,
    }
}

/// Relies on `ff::Field::random`: a uniformly drawn field element.  Nothing
/// relates the result to the generator's state; only canonicality holds of
/// every outcome.
#[verifier::external_body]
fn fp_random_raw(rng: &mut rand::rngs::ThreadRng) -> (r: Fp)
    ensures
        canonical(r@),
{
    let s = <bls12_381::Scalar as ff::Field>::random(&mut *rng);
    Fp { scalar: s, bytes: s.to_bytes() }
}

impl Fp {
    /// The field element that `n` reduces to.
    pub fn from_u64(n: u64) -> (r: Fp)
        ensures
            r@ == from_u64_of(n),
            canonical(r@),
    {
        fp_from_u64_raw(n)
    }

    /// Parses a decimal numeral; `None` exactly on an empty string, a
    /// non-digit, or a leading zero.
    pub fn from_decimal(s: &str) -> (r: Option<Fp>)
        ensures
            r is Some <==> valid_decimal(s@),
            r matches Some(f) ==> f@ == from_dec_of(s@) && canonical(f@),
    {
        fp_from_dec_raw(s)
    }

    /// The sum of the two elements.
    pub fn add(&self, other: &Fp) -> (r: Fp)
        ensures
            r@ == add_of(self@, other@),
            canonical(r@),
    {
        fp_add_raw(self, other)
    }

    /// The product of the two elements.
    pub fn mul(&self, other: &Fp) -> (r: Fp)
        ensures
            r@ == mul_of(self@, other@),
            canonical(r@),
    {
        fp_mul_raw(self, other)
    }

    /// The element multiplied by itself.
    pub fn square(&self) -> (r: Fp)
        ensures
            r@ == mul_of(self@, self@),
            canonical(r@),
    {
        fp_square_raw(self)
    }

    /// The third power of the element.
    pub fn cube(&self) -> (r: Fp)
        ensures
            r@ == mul_of(mul_of(self@, self@), self@),
            canonical(r@),
    {
        fp_cube_raw(self)
    }

    /// The multiplicative identity.  Multiplying any canonically encoded
    /// element by it gives that element back.
    pub fn one() -> (r: Fp)
        ensures
            r@ == one_bytes(),
            canonical(r@),
            forall|x: Seq<u8>| canonical(x) ==> #[trigger] mul_of(x, r@) == x,
    {
        fp_one_raw()
    }

    /// A uniformly drawn field element.
    pub fn random(rng: &mut rand::rngs::ThreadRng) -> (r: Fp)
        ensures
            canonical(r@),
    {
        fp_random_raw(rng)
    }

    /// Whether the two elements are the same field element.
    pub fn eq_value(&self, other: &Fp) -> (b: bool)
        ensures
            b == (self@ == other@),
    {
        let mut i: usize = 0;
        while i < 32
            invariant
                0 <= i <= 32,
                forall|k: int| 0 <= k < i ==> self.bytes@[k] == other.bytes@[k],
            decreases 32 - i,
        {
            if self.bytes[i] != other.bytes[i] {
                assert(self@[i as int] != other@[i as int]);
                return false;
            }
            i = i + 1;
        }
        proof {
            assert(self.bytes@ =~= other.bytes@);
        }
        true
    }

    /// Hands the underlying scalar to the unverified backend glue; the byte
    /// encoding stays the element's identity for every contract.
    #[verifier::external_body]
    pub fn to_scalar(&self) -> bls12_381::Scalar {
        self.scalar
    }
}

} // verus!
