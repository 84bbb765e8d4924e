//! Field layer for the verification protocol.
//!
//! The protocol runs over the 62-bit prime field of the field library
//! (modulus `4611624995532046337`), or over its quadratic or cubic
//! extension.  An element is held as up to three canonical coordinates, and
//! the active extension degree is carried separately as an [`Ext`] tag.
//! Multiplicative arithmetic is delegated to the field library; additive
//! arithmetic, which is coordinate-wise, is carried out and verified here.

use vstd::prelude::*;

verus! {

use winter_math::FieldElement;
use winter_math::StarkField;
use winter_math::fields::f62::BaseElement;
use winter_math::fields::QuadExtension;
use winter_math::fields::CubeExtension;

/// The field modulus.
pub const P: u64 = 4611624995532046337;

/// Multiplicative generator of the base field.
pub const FIELD_GENERATOR: u64 = 3;

/// A primitive root of unity of order `2^39` in the base field.
pub const TWO_ADIC_ROOT: u64 = 4421547261963328785;

/// Order of the largest two-adic multiplicative subgroup, as a power of two.
pub const TWO_ADICITY: u32 = 39;

/// Field-extension degree over which one verification run operates.
#[derive(Clone, Copy, PartialEq, Eq, Structural, Debug)]
pub enum Ext {
    /// Arithmetic in the base field itself.
    Base,
    /// Arithmetic in the quadratic extension, modulo `x^2 - x - 1`.
    Quad,
    /// Arithmetic in the cubic extension, modulo `x^3 + 2x + 2`.
    Cube,
}

/// A field element: coordinates `a + b*x + c*x^2` over the base field.
///
/// For base-field values `b` and `c` are zero; for quadratic-extension
/// values `c` is zero.  All coordinates are kept canonical, below [`P`].
#[derive(Clone, Copy, PartialEq, Eq, Structural, Debug)]
pub struct Felt {
    pub a: u64,
    pub b: u64,
    pub c: u64,
}

/// Shorthand for a base-field element as a [`Felt`].
pub open spec fn fe1(a: u64) -> Felt {
    Felt { a, b: 0, c: 0 }
}

/// Shorthand for a quadratic-extension element as a [`Felt`].
pub open spec fn fe2(a: u64, b: u64) -> Felt {
    Felt { a, b, c: 0 }
}

/// Shorthand for a cubic-extension element as a [`Felt`].
pub open spec fn fe3(a: u64, b: u64, c: u64) -> Felt {
    Felt { a, b, c }
}

/// Canonical-coordinate well-formedness of an element.
pub open spec fn fe_wf(x: Felt) -> bool {
    x.a < P && x.b < P && x.c < P
}

/// An element lies in the subfield selected by `e`.
pub open spec fn fe_in(e: Ext, x: Felt) -> bool {
    fe_wf(x) && match e {
        Ext::Base => x.b == 0 && x.c == 0,
        Ext::Quad => x.c == 0,
        Ext::Cube => true,
    }
}

/// Modular addition of two canonical coordinates.
pub open spec fn madd(x: int, y: int) -> int {
    (x + y) % (P as int)
}

/// Modular subtraction of two canonical coordinates.
pub open spec fn msub(x: int, y: int) -> int {
    (x + (P as int) - y) % (P as int)
}

/// Modular multiplication of two canonical coordinates.
pub open spec fn mmul(x: int, y: int) -> int {
    (x * y) % (P as int)
}

/// Zero element.
pub open spec fn fe_zero() -> Felt {
    Felt { a: 0, b: 0, c: 0 }
}

/// One element.
pub open spec fn fe_one() -> Felt {
    Felt { a: 1, b: 0, c: 0 }
}

/// Coordinate-wise modular sum; this is addition in every extension.
pub open spec fn fe_add(x: Felt, y: Felt) -> Felt {
    Felt {
        a: madd(x.a as int, y.a as int) as u64,
        b: madd(x.b as int, y.b as int) as u64,
        c: madd(x.c as int, y.c as int) as u64,
    }
}

/// Coordinate-wise modular difference.
pub open spec fn fe_sub(x: Felt, y: Felt) -> Felt {
    Felt {
        a: msub(x.a as int, y.a as int) as u64,
        b: msub(x.b as int, y.b as int) as u64,
        c: msub(x.c as int, y.c as int) as u64,
    }
}

/// Multiplication in the subfield selected by `e`.
///
/// The quadratic rule reduces modulo `x^2 - x - 1` and the cubic rule
/// modulo `x^3 + 2x + 2`; both match the extension constructions of the
/// field library.
#[verifier::opaque]
pub open spec fn fe_mul(e: Ext, x: Felt, y: Felt) -> Felt {
    match e {
        Ext::Base => Felt { a: mmul(x.a as int, y.a as int) as u64, b: 0, c: 0 },
        Ext::Quad => Felt {
            a: madd(mmul(x.a as int, y.a as int), mmul(x.b as int, y.b as int)) as u64,
            b: msub(
                mmul(madd(x.a as int, x.b as int), madd(y.a as int, y.b as int)),
                mmul(x.a as int, y.a as int),
            ) as u64,
            c: 0,
        },
        Ext::Cube => Felt {
            a: msub(
                mmul(x.a as int, y.a as int),
                mmul(2, madd(mmul(x.b as int, y.c as int), mmul(x.c as int, y.b as int))),
            ) as u64,
            b: msub(
                madd(mmul(x.a as int, y.b as int), mmul(x.b as int, y.a as int)),
                mmul(
                    2,
                    madd(
                        madd(mmul(x.b as int, y.c as int), mmul(x.c as int, y.b as int)),
                        mmul(x.c as int, y.c as int),
                    ),
                ),
            ) as u64,
            c: msub(
                madd(
                    mmul(x.a as int, y.c as int),
                    madd(mmul(x.b as int, y.b as int), mmul(x.c as int, y.a as int)),
                ),
                mmul(2, mmul(x.c as int, y.c as int)),
            ) as u64,
        },
    }
}

/// Exponentiation in the subfield selected by `e`.
pub open spec fn fe_pow(e: Ext, x: Felt, n: nat) -> Felt
    decreases n,
{
    if n == 0 {
        fe_one()
    } else {
        fe_mul(e, x, fe_pow(e, x, (n - 1) as nat))
    }
}

/// The multiplicative inverse in the subfield selected by `e`, with zero
/// mapped to zero.  Inverses are unique, so the choice below names the one
/// value the field library returns.
pub open spec fn fe_inv(e: Ext, x: Felt) -> Felt {
    if x == fe_zero() {
        fe_zero()
    } else {
        choose|r: Felt| fe_in(e, r) && fe_mul(e, r, x) == fe_one()
    }
}

/// Division: multiplication by the inverse, so division by zero is zero.
pub open spec fn fe_div(e: Ext, x: Felt, y: Felt) -> Felt {
    fe_mul(e, x, fe_inv(e, y))
}

/// Frobenius coefficients of the cubic extension, from the field library.
pub const CUBE_FROB_11: u64 = 2061766055618274781;
pub const CUBE_FROB_12: u64 = 786836585661389001;
pub const CUBE_FROB_21: u64 = 2868591307402993000;
pub const CUBE_FROB_22: u64 = 3336695525575160559;
pub const CUBE_FROB_31: u64 = 2699230790596717670;
pub const CUBE_FROB_32: u64 = 1743033688129053336;

/// Conjugation: the Frobenius map of the subfield selected by `e`.  The
/// base field is fixed; the quadratic map sends `a + b*x` to
/// `(a + b) - b*x`; the cubic map is linear in the coordinates with the
/// fixed coefficients above.
pub open spec fn fe_conj(e: Ext, x: Felt) -> Felt {
    match e {
        Ext::Base => x,
        Ext::Quad => Felt {
            a: madd(x.a as int, x.b as int) as u64,
            b: msub(0, x.b as int) as u64,
            c: 0,
        },
        Ext::Cube => Felt {
            a: madd(
                x.a as int,
                madd(
                    mmul(CUBE_FROB_11 as int, x.b as int),
                    mmul(CUBE_FROB_12 as int, x.c as int),
                ),
            ) as u64,
            b: madd(
                mmul(CUBE_FROB_21 as int, x.b as int),
                mmul(CUBE_FROB_22 as int, x.c as int),
            ) as u64,
            c: madd(
                mmul(CUBE_FROB_31 as int, x.b as int),
                mmul(CUBE_FROB_32 as int, x.c as int),
            ) as u64,
        },
    }
}

/// Builds a base-field element from a canonical coordinate.
pub fn felt_base(a: u64) -> (r: Felt)
    requires
        a < P,
    ensures
        r == fe1(a),
        fe_in(Ext::Base, r),
{
    Felt { a, b: 0, c: 0 }
}

/// Adds one canonical coordinate to another, modulo [`P`].
fn coord_add(x: u64, y: u64) -> (r: u64)
    requires
        x < P,
        y < P,
    ensures
        r == madd(x as int, y as int),
{
    let s: u128 = (x as u128 + y as u128) % (P as u128);
    s as u64
}

/// Subtracts one canonical coordinate from another, modulo [`P`].
fn coord_sub(x: u64, y: u64) -> (r: u64)
    requires
        x < P,
        y < P,
    ensures
        r == msub(x as int, y as int),
{
    let s: u128 = ((x as u128 + P as u128) - y as u128) % (P as u128);
    s as u64
}

impl Felt {
    /// Field addition: coordinate-wise in every extension.
    pub fn add(self, other: Felt) -> (r: Felt)
        requires
            fe_wf(self),
            fe_wf(other),
        ensures
            r == fe_add(self, other),
            fe_wf(r),
    {
        Felt {
            a: coord_add(self.a, other.a),
            b: coord_add(self.b, other.b),
            c: coord_add(self.c, other.c),
        }
    }

    /// Field subtraction: coordinate-wise in every extension.
    pub fn sub(self, other: Felt) -> (r: Felt)
        requires
            fe_wf(self),
            fe_wf(other),
        ensures
            r == fe_sub(self, other),
            fe_wf(r),
    {
        Felt {
            a: coord_sub(self.a, other.a),
            b: coord_sub(self.b, other.b),
            c: coord_sub(self.c, other.c),
        }
    }
}

/// Relies on the base-field `Mul` impl of the field library: the product of
/// two canonical values is their product modulo the field modulus.
#[verifier::external_body]
pub fn base_mul(x: u64, y: u64) -> (r: u64)
    requires
        x < P,
        y < P,
    ensures
        r == mmul(x as int, y as int),
{
    (BaseElement::new(x) * BaseElement::new(y)).as_int()
}

/// Relies on `FieldElement::exp` of the field library: raises a canonical
/// base-field value to the given power.
#[verifier::external_body]
pub fn base_exp(x: u64, n: u64) -> (r: u64)
    requires
        x < P,
    ensures
        r == fe_pow(Ext::Base, fe1(x), n as nat).a,
        r < P,
{
    BaseElement::new(x).exp(n).as_int()
}

/// Relies on `FieldElement::inv` of the field library: returns the
/// multiplicative inverse of a non-zero element, and zero for zero.
#[verifier::external_body]
pub fn base_inv(x: u64) -> (r: u64)
    requires
        x < P,
    ensures
        r < P,
        fe1(r) == fe_inv(Ext::Base, fe1(x)),
        x != 0 ==> fe_mul(Ext::Base, fe1(r), fe1(x)) == fe_one(),
{
    BaseElement::new(x).inv().as_int()
}

/// Relies on the quadratic-extension `Mul` impl of the field library, which
/// multiplies modulo `x^2 - x - 1` via one Karatsuba step.
#[verifier::external_body]
pub fn quad_mul(x0: u64, x1: u64, y0: u64, y1: u64) -> (r: (u64, u64))
    requires
        x0 < P,
        x1 < P,
        y0 < P,
        y1 < P,
    ensures
        r.0 == fe_mul(Ext::Quad, fe2(x0, x1), fe2(y0, y1)).a,
        r.1 == fe_mul(Ext::Quad, fe2(x0, x1), fe2(y0, y1)).b,
{
    let p = QuadExtension::<BaseElement>::new(BaseElement::new(x0), BaseElement::new(x1))
        * QuadExtension::<BaseElement>::new(BaseElement::new(y0), BaseElement::new(y1));
    let bytes = winter_utils::Serializable::to_bytes(&p);
    (
        u64::from_le_bytes(bytes[0..8].try_into().unwrap()),
        u64::from_le_bytes(bytes[8..16].try_into().unwrap()),
    )
}

/// Relies on `FieldElement::inv` of the quadratic extension: returns the
/// multiplicative inverse of a non-zero element, and zero for zero.
#[verifier::external_body]
pub fn quad_inv(x0: u64, x1: u64) -> (r: (u64, u64))
    requires
        x0 < P,
        x1 < P,
    ensures
        r.0 < P,
        r.1 < P,
        fe2(r.0, r.1) == fe_inv(Ext::Quad, fe2(x0, x1)),
        !(x0 == 0 && x1 == 0) ==> fe_mul(Ext::Quad, fe2(r.0, r.1), fe2(x0, x1)) == fe_one(),
{
    let v = QuadExtension::<BaseElement>::new(BaseElement::new(x0), BaseElement::new(x1)).inv();
    let bytes = winter_utils::Serializable::to_bytes(&v);
    (
        u64::from_le_bytes(bytes[0..8].try_into().unwrap()),
        u64::from_le_bytes(bytes[8..16].try_into().unwrap()),
    )
}

/// Relies on the cubic-extension `Mul` impl of the field library, which
/// multiplies modulo `x^3 + 2x + 2`.
#[verifier::external_body]
pub fn cube_mul(x0: u64, x1: u64, x2: u64, y0: u64, y1: u64, y2: u64) -> (r: (u64, u64, u64))
    requires
        x0 < P,
        x1 < P,
        x2 < P,
        y0 < P,
        y1 < P,
        y2 < P,
    ensures
        r.0 == fe_mul(Ext::Cube, fe3(x0, x1, x2), fe3(y0, y1, y2)).a,
        r.1 == fe_mul(Ext::Cube, fe3(x0, x1, x2), fe3(y0, y1, y2)).b,
        r.2 == fe_mul(Ext::Cube, fe3(x0, x1, x2), fe3(y0, y1, y2)).c,
{
    let p = CubeExtension::<BaseElement>::new(
        BaseElement::new(x0),
        BaseElement::new(x1),
        BaseElement::new(x2),
    ) * CubeExtension::<BaseElement>::new(
        BaseElement::new(y0),
        BaseElement::new(y1),
        BaseElement::new(y2),
    );
    let bytes = winter_utils::Serializable::to_bytes(&p);
    (
        u64::from_le_bytes(bytes[0..8].try_into().unwrap()),
        u64::from_le_bytes(bytes[8..16].try_into().unwrap()),
        u64::from_le_bytes(bytes[16..24].try_into().unwrap()),
    )
}

/// Relies on `FieldElement::inv` of the cubic extension: returns the
/// multiplicative inverse of a non-zero element, and zero for zero.
#[verifier::external_body]
pub fn cube_inv(x0: u64, x1: u64, x2: u64) -> (r: (u64, u64, u64))
    requires
        x0 < P,
        x1 < P,
        x2 < P,
    ensures
        r.0 < P,
        r.1 < P,
        r.2 < P,
        fe3(r.0, r.1, r.2) == fe_inv(Ext::Cube, fe3(x0, x1, x2)),
        !(x0 == 0 && x1 == 0 && x2 == 0) ==> fe_mul(
            Ext::Cube,
            fe3(r.0, r.1, r.2),
            fe3(x0, x1, x2),
        ) == fe_one(),
{
    let v = CubeExtension::<BaseElement>::new(
        BaseElement::new(x0),
        BaseElement::new(x1),
        BaseElement::new(x2),
    ).inv();
    let bytes = winter_utils::Serializable::to_bytes(&v);
    (
        u64::from_le_bytes(bytes[0..8].try_into().unwrap()),
        u64::from_le_bytes(bytes[8..16].try_into().unwrap()),
        u64::from_le_bytes(bytes[16..24].try_into().unwrap()),
    )
}

impl Felt {
    /// Field multiplication in the subfield selected by `e`.
    pub fn mul(self, e: Ext, other: Felt) -> (r: Felt)
        requires
            fe_in(e, self),
            fe_in(e, other),
        ensures
            r == fe_mul(e, self, other),
            fe_in(e, r),
    {
        proof {
            reveal(fe_mul);
        }
        match e {
            Ext::Base => Felt { a: base_mul(self.a, other.a), b: 0, c: 0 },
            Ext::Quad => {
                let m = quad_mul(self.a, self.b, other.a, other.b);
                Felt { a: m.0, b: m.1, c: 0 }
            },
            Ext::Cube => {
                let m = cube_mul(self.a, self.b, self.c, other.a, other.b, other.c);
                Felt { a: m.0, b: m.1, c: m.2 }
            },
        }
    }

    /// Multiplicative inverse in the subfield selected by `e`; zero maps to
    /// zero.
    pub fn inv(self, e: Ext) -> (r: Felt)
        requires
            fe_in(e, self),
        ensures
            r == fe_inv(e, self),
            fe_in(e, r),
            self != fe_zero() ==> fe_mul(e, r, self) == fe_one(),
    {
        match e {
            Ext::Base => Felt { a: base_inv(self.a), b: 0, c: 0 },
            Ext::Quad => {
                let m = quad_inv(self.a, self.b);
                Felt { a: m.0, b: m.1, c: 0 }
            },
            Ext::Cube => {
                let m = cube_inv(self.a, self.b, self.c);
                Felt { a: m.0, b: m.1, c: m.2 }
            },
        }
    }

    /// Exponentiation in the subfield selected by `e`, by repeated
    /// multiplication.
    pub fn pow(self, e: Ext, n: u64) -> (r: Felt)
        requires
            fe_in(e, self),
        ensures
            r == fe_pow(e, self, n as nat),
            fe_in(e, r),
    {
        let mut acc = Felt { a: 1, b: 0, c: 0 };
        let mut i: u64 = 0;
        while i < n
            invariant
                i <= n,
                acc == fe_pow(e, self, i as nat),
                fe_in(e, acc),
                fe_in(e, self),
            decreases n - i,
        {
            acc = self.mul(e, acc);
            i = i + 1;
        }
        acc
    }

    /// Conjugation in the subfield selected by `e`: the Frobenius map,
    /// which fixes base-field values.
    pub fn conjugate(self, e: Ext) -> (r: Felt)
        requires
            fe_in(e, self),
        ensures
            r == fe_conj(e, self),
            fe_in(e, r),
    {
        match e {
            Ext::Base => self,
            Ext::Quad => Felt { a: coord_add(self.a, self.b), b: coord_sub(0, self.b), c: 0 },
            Ext::Cube => Felt {
                a: coord_add(
                    self.a,
                    coord_add(
                        base_mul(CUBE_FROB_11, self.b),
                        base_mul(CUBE_FROB_12, self.c),
                    ),
                ),
                b: coord_add(base_mul(CUBE_FROB_21, self.b), base_mul(CUBE_FROB_22, self.c)),
                c: coord_add(base_mul(CUBE_FROB_31, self.b), base_mul(CUBE_FROB_32, self.c)),
            },
        }
    }

    /// Division in the subfield selected by `e`: multiplication by the
    /// inverse of the divisor, so division by zero yields zero.
    pub fn div(self, e: Ext, other: Felt) -> (r: Felt)
        requires
            fe_in(e, self),
            fe_in(e, other),
        ensures
            r == fe_div(e, self, other),
            fe_in(e, r),
    {
        let i = other.inv(e);
        self.mul(e, i)
    }
}

} // verus!
