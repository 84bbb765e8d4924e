//! Field arithmetic cross-checked against the field library.

use stark_verifier::field::{Ext, Felt, FIELD_GENERATOR, P};
use winter_math::fields::f62::BaseElement;
use winter_math::fields::{CubeExtension, QuadExtension};
use winter_math::{FieldElement, StarkField};
use winter_utils::Serializable;

fn f1(a: u64) -> Felt {
    Felt { a, b: 0, c: 0 }
}

fn f2(a: u64, b: u64) -> Felt {
    Felt { a, b, c: 0 }
}

fn f3(a: u64, b: u64, c: u64) -> Felt {
    Felt { a, b, c }
}

fn quad_coords(x: QuadExtension<BaseElement>) -> (u64, u64) {
    let bytes = x.to_bytes();
    (
        u64::from_le_bytes(bytes[0..8].try_into().unwrap()),
        u64::from_le_bytes(bytes[8..16].try_into().unwrap()),
    )
}

fn cube_coords(x: CubeExtension<BaseElement>) -> (u64, u64, u64) {
    let bytes = x.to_bytes();
    (
        u64::from_le_bytes(bytes[0..8].try_into().unwrap()),
        u64::from_le_bytes(bytes[8..16].try_into().unwrap()),
        u64::from_le_bytes(bytes[16..24].try_into().unwrap()),
    )
}

#[test]
fn base_add_and_sub_wrap_at_the_modulus() {
    assert_eq!(f1(P - 1).add(f1(1)), f1(0));
    assert_eq!(f1(0).sub(f1(1)), f1(P - 1));
    assert_eq!(f1(5).add(f1(7)), f1(12));
}

#[test]
fn base_mul_matches_the_field_library() {
    for (x, y) in [(3u64, 5u64), (P - 1, P - 1), (1234567, 890123456789)] {
        let expected = (BaseElement::new(x) * BaseElement::new(y)).as_int();
        assert_eq!(f1(x).mul(Ext::Base, f1(y)), f1(expected));
    }
}

#[test]
fn base_pow_matches_the_field_library() {
    let g = BaseElement::new(FIELD_GENERATOR);
    for e in [0u64, 1, 2, 13, 64] {
        assert_eq!(f1(FIELD_GENERATOR).pow(Ext::Base, e), f1(g.exp(e).as_int()));
    }
}

#[test]
fn inverses_multiply_to_one_in_every_extension() {
    let x1 = f1(987654321);
    assert_eq!(x1.inv(Ext::Base).mul(Ext::Base, x1), f1(1));
    let x2 = f2(11, 22);
    assert_eq!(x2.inv(Ext::Quad).mul(Ext::Quad, x2), f1(1));
    let x3 = f3(11, 22, 33);
    assert_eq!(x3.inv(Ext::Cube).mul(Ext::Cube, x3), f1(1));
    assert_eq!(f1(0).inv(Ext::Base), f1(0));
}

#[test]
fn quad_mul_matches_the_field_library() {
    let a = QuadExtension::new(BaseElement::new(5), BaseElement::new(P - 2));
    let b = QuadExtension::new(BaseElement::new(123456), BaseElement::new(7));
    let (ea, eb) = quad_coords(a * b);
    assert_eq!(f2(5, P - 2).mul(Ext::Quad, f2(123456, 7)), f2(ea, eb));
}

#[test]
fn cube_mul_matches_the_field_library() {
    let a = CubeExtension::new(
        BaseElement::new(5),
        BaseElement::new(P - 2),
        BaseElement::new(99),
    );
    let b = CubeExtension::new(
        BaseElement::new(123456),
        BaseElement::new(7),
        BaseElement::new(3),
    );
    let (ea, eb, ec) = cube_coords(a * b);
    assert_eq!(
        f3(5, P - 2, 99).mul(Ext::Cube, f3(123456, 7, 3)),
        f3(ea, eb, ec)
    );
}

#[test]
fn conjugate_matches_the_field_library() {
    let q = QuadExtension::new(BaseElement::new(41), BaseElement::new(97));
    let (ea, eb) = quad_coords(q.conjugate());
    assert_eq!(f2(41, 97).conjugate(Ext::Quad), f2(ea, eb));

    let c = CubeExtension::new(
        BaseElement::new(41),
        BaseElement::new(97),
        BaseElement::new(13),
    );
    let (fa, fb, fc) = cube_coords(c.conjugate());
    assert_eq!(f3(41, 97, 13).conjugate(Ext::Cube), f3(fa, fb, fc));

    assert_eq!(f1(41).conjugate(Ext::Base), f1(41));
}

#[test]
fn division_by_zero_yields_zero() {
    assert_eq!(f1(17).div(Ext::Base, f1(0)), f1(0));
}
