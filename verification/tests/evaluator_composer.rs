//! Exact values out of the constraint evaluator and the DEEP composer,
//! cross-checked against the field library's arithmetic.

use stark_verifier::air::{AirContext, Divisor, ProofOptions};
use stark_verifier::composer::{compose_position, DeepCoeffs};
use stark_verifier::evaluator::{evaluate_constraints, ConstraintCoeffs};
use stark_verifier::field::{Ext, Felt};
use stark_verifier::reduce_ood_evaluations;
use winter_math::fields::f62::BaseElement;
use winter_math::{FieldElement, StarkField};

fn felt(a: u64) -> Felt {
    Felt { a, b: 0, c: 0 }
}

fn base(a: u64) -> BaseElement {
    BaseElement::new(a)
}

fn ctx() -> AirContext {
    AirContext {
        trace_length: 8,
        main_width: 1,
        aux_widths: Vec::new(),
        aux_rand_counts: Vec::new(),
        main_t_adjustments: vec![1],
        aux_t_adjustments: Vec::new(),
        num_assertions: 1,
        transition_exemptions: 1,
        ce_blowup: 4,
        options: ProofOptions {
            num_queries: 2,
            blowup: 8,
            grinding_factor: 0,
            extension: Ext::Base,
            fri_folding: 4,
            fri_max_remainder: 64,
        },
    }
}

#[test]
fn ood_reduction_applies_the_power_of_z_weighting() {
    // with z = 7 and values [3, 5] the reduction is 3 + 7 * 5 = 38
    let r = reduce_ood_evaluations(Ext::Base, felt(7), &vec![felt(3), felt(5)]);
    assert_eq!(r, felt(38));
    // and an empty list reduces to zero
    let r0 = reduce_ood_evaluations(Ext::Base, felt(7), &Vec::new());
    assert_eq!(r0, felt(0));
}

#[test]
fn the_evaluator_combines_and_divides_by_the_divisor() {
    // one transition constraint with raw value 2 and coefficients (1, 0),
    // over the divisor z^1 - 0: the result is 2 / z with z = 5
    let c = ctx();
    let coeffs = ConstraintCoeffs {
        transition: vec![(felt(1), felt(0))],
        boundary: Vec::new(),
    };
    let t_div = Divisor { xexp: 1, constant: 0, exemptions: Vec::new() };
    let r = evaluate_constraints(
        Ext::Base,
        &c,
        &vec![felt(2)],
        &Vec::new(),
        &Vec::new(),
        &coeffs,
        &t_div,
        &vec![felt(11)],
        &Vec::new(),
        felt(5),
    );
    let expected = (base(2) * base(5).inv()).as_int();
    assert_eq!(r, felt(expected));
}

#[test]
fn the_composer_forms_the_deep_quotients() {
    // one trace column and one constraint column; at x = 10 with
    // z = 3, z * g = 7, z^m = 8, the DEEP value is
    // (9-4)/(10-3) + (9-6)/(10-7) + (5-2)/(10-8)
    let cc = DeepCoeffs {
        trace: vec![(felt(1), felt(1), felt(0))],
        constraints: vec![felt(1)],
        degree: (felt(1), felt(0)),
    };
    let r = compose_position(
        Ext::Base,
        &vec![felt(9)],
        &vec![felt(4)],
        &vec![felt(6)],
        &cc,
        1,
        false,
        &vec![felt(5)],
        &vec![felt(2)],
        felt(10),
        felt(3),
        felt(7),
        felt(8),
    );
    let expected = (base(5) * base(7).inv() + base(3) * base(3).inv()
        + base(3) * base(2).inv())
    .as_int();
    assert_eq!(r, felt(expected));
}
