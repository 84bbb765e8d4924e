//! The constraint evaluator.
//!
//! Given the out-of-domain frame, the raw constraint evaluations the
//! computation reports over it, the composition coefficients drawn from
//! the transcript, and the out-of-domain point `z`, this module combines
//! everything into the single scalar the constraint composition polynomial
//! must equal at `z`.  Each constraint contributes
//! `C_i(z) * (a_i + b_i * z^d_i)` divided by its divisor; the transition
//! constraints share one divisor, each boundary constraint carries its
//! own.

use vstd::prelude::*;

verus! {

use crate::field::Ext;
use crate::field::Felt;
use crate::field::fe_add;
use crate::field::fe_sub;
use crate::field::fe_mul;
use crate::field::fe_div;
use crate::field::fe_pow;
use crate::field::fe_zero;
use crate::field::fe_in;
use crate::field::fe1;
use crate::air::AirContext;
use crate::air::BoundaryInfo;
use crate::air::Divisor;
use crate::air::get_root_of_unity;
use crate::air::log2_exact;
use crate::air::root_of_unity_spec;

/// Composition coefficients for the constraint composition polynomial:
/// one pair per transition constraint, one pair per boundary assertion.
pub struct ConstraintCoeffs {
    pub transition: Vec<(Felt, Felt)>,
    pub boundary: Vec<(Felt, Felt)>,
}

impl ConstraintCoeffs {
    /// All coefficients lie in the protocol's field.
    pub open spec fn wf(self, e: Ext) -> bool {
        &&& forall|i: int|
            0 <= i < self.transition@.len() ==> fe_in(e, (#[trigger] self.transition@[i]).0)
                && fe_in(e, self.transition@[i].1)
        &&& forall|i: int|
            0 <= i < self.boundary@.len() ==> fe_in(e, (#[trigger] self.boundary@[i]).0)
                && fe_in(e, self.boundary@[i].1)
    }
}

/// Product of `(z - x_k)` over the first `n` exemption points.
pub open spec fn exemptions_prod(e: Ext, z: Felt, xs: Seq<u64>, n: int) -> Felt
    decreases n,
{
    if n <= 0 {
        crate::field::fe_one()
    } else {
        fe_mul(e, exemptions_prod(e, z, xs, n - 1), fe_sub(z, fe1(xs[n - 1])))
    }
}

/// Value of a divisor at `z`: `(z^k - b)` over the exemption product.
pub open spec fn divisor_eval(e: Ext, d: Divisor, z: Felt) -> Felt {
    fe_div(
        e,
        fe_sub(fe_pow(e, z, d.xexp as nat), fe1(d.constant)),
        exemptions_prod(e, z, d.exemptions@, d.exemptions@.len() as int),
    )
}

/// One combined constraint numerator: `C * (a + b * z^adj)`.
pub open spec fn comb_term(e: Ext, ev: Felt, cc: (Felt, Felt), adj: u64, z: Felt) -> Felt {
    fe_mul(e, ev, fe_add(cc.0, fe_mul(e, cc.1, fe_pow(e, z, adj as nat))))
}

/// Sum of the first `n` combined transition terms.
pub open spec fn t_sum(
    e: Ext,
    evals: Seq<Felt>,
    ccs: Seq<(Felt, Felt)>,
    adjs: Seq<u64>,
    z: Felt,
    n: int,
) -> Felt
    decreases n,
{
    if n <= 0 {
        fe_zero()
    } else {
        fe_add(
            t_sum(e, evals, ccs, adjs, z, n - 1),
            comb_term(e, evals[n - 1], ccs[n - 1], adjs[n - 1], z),
        )
    }
}

/// Value of a polynomial at `z`, coefficients low degree first.
pub open spec fn poly_eval(e: Ext, p: Seq<Felt>, z: Felt) -> Felt
    decreases p.len(),
{
    if p.len() == 0 {
        fe_zero()
    } else {
        fe_add(p[0], fe_mul(e, z, poly_eval(e, p.subrange(1, p.len() as int), z)))
    }
}

/// The asserted row value a boundary constraint reads.
pub open spec fn boundary_row_value(b: BoundaryInfo, main_cur: Seq<Felt>, aux_cur: Seq<Felt>) -> Felt {
    if b.is_aux {
        aux_cur[b.column as int]
    } else {
        main_cur[b.column as int]
    }
}

/// One boundary constraint's contribution:
/// `(row[col] - value(z)) * (a + b * z^adj) / divisor(z)`.
pub open spec fn b_term(
    e: Ext,
    b: BoundaryInfo,
    cc: (Felt, Felt),
    main_cur: Seq<Felt>,
    aux_cur: Seq<Felt>,
    z: Felt,
) -> Felt {
    fe_div(
        e,
        comb_term(
            e,
            fe_sub(boundary_row_value(b, main_cur, aux_cur), poly_eval(e, b.poly@, z)),
            cc,
            b.adjustment,
            z,
        ),
        divisor_eval(e, b.divisor, z),
    )
}

/// Sum of the first `n` boundary contributions.
pub open spec fn b_sum(
    e: Ext,
    bs: Seq<BoundaryInfo>,
    ccs: Seq<(Felt, Felt)>,
    main_cur: Seq<Felt>,
    aux_cur: Seq<Felt>,
    z: Felt,
    n: int,
) -> Felt
    decreases n,
{
    if n <= 0 {
        fe_zero()
    } else {
        fe_add(
            b_sum(e, bs, ccs, main_cur, aux_cur, z, n - 1),
            b_term(e, bs[n - 1], ccs[n - 1], main_cur, aux_cur, z),
        )
    }
}

/// The out-of-domain constraint value: combined transition terms over
/// their shared divisor, plus the boundary contributions.
pub open spec fn ood_constraint_value(
    e: Ext,
    ctx: AirContext,
    t_main: Seq<Felt>,
    t_aux: Seq<Felt>,
    bs: Seq<BoundaryInfo>,
    t_ccs: Seq<(Felt, Felt)>,
    b_ccs: Seq<(Felt, Felt)>,
    t_div: Divisor,
    main_cur: Seq<Felt>,
    aux_cur: Seq<Felt>,
    z: Felt,
) -> Felt {
    fe_add(
        fe_div(
            e,
            fe_add(
                t_sum(e, t_main, t_ccs, ctx.main_t_adjustments@, z, t_main.len() as int),
                t_sum(
                    e,
                    t_aux,
                    t_ccs.subrange(t_main.len() as int, t_ccs.len() as int),
                    ctx.aux_t_adjustments@,
                    z,
                    t_aux.len() as int,
                ),
            ),
            divisor_eval(e, t_div, z),
        ),
        b_sum(e, bs, b_ccs, main_cur, aux_cur, z, bs.len() as int),
    )
}

/// Builds the shared transition-constraint divisor:
/// `(x^n - 1) / prod (x - g^(n-j))` over the exempt trailing steps.
pub fn transition_divisor(ctx: &AirContext) -> (r: Divisor)
    requires
        ctx.wf(),
    ensures
        r.wf(),
        r.xexp == ctx.trace_length,
        r.constant == 1,
        r.exemptions@.len() == ctx.transition_exemptions,
        forall|j: int|
            0 <= j < r.exemptions@.len() ==> #[trigger] r.exemptions@[j] == fe_pow(
                Ext::Base,
                fe1(root_of_unity_spec(ctx.log_trace_length())),
                (ctx.trace_length - ctx.transition_exemptions + j) as nat,
            ).a,
{
    let log_n = log2_exact(ctx.trace_length);
    proof {
        crate::air::lemma_log_trace_length(*ctx, log_n);
    }
    let g = get_root_of_unity(log_n);
    let mut exemptions: Vec<u64> = Vec::new();
    let first: usize = ctx.trace_length - ctx.transition_exemptions;
    let mut j: usize = 0;
    while j < ctx.transition_exemptions
        invariant
            j <= ctx.transition_exemptions,
            first == ctx.trace_length - ctx.transition_exemptions,
            first + ctx.transition_exemptions <= u64::MAX,
            ctx.transition_exemptions < ctx.trace_length,
            g == root_of_unity_spec(ctx.log_trace_length()),
            g < crate::field::P,
            exemptions@.len() == j,
            forall|k: int|
                0 <= k < j ==> #[trigger] exemptions@[k] == fe_pow(
                    Ext::Base,
                    fe1(root_of_unity_spec(ctx.log_trace_length())),
                    (first + k) as nat,
                ).a,
            forall|k: int| 0 <= k < j ==> #[trigger] exemptions@[k] < crate::field::P,
        decreases ctx.transition_exemptions - j,
    {
        let step: u64 = (first + j) as u64;
        let v = crate::field::base_exp(g, step);
        exemptions.push(v);
        j = j + 1;
    }
    Divisor { xexp: ctx.trace_length as u64, constant: 1, exemptions }
}

/// Combines raw constraint evaluations, boundary constraints, and the
/// composition coefficients into the out-of-domain constraint value.
#[verifier::rlimit(100)]
pub fn evaluate_constraints(
    e: Ext,
    ctx: &AirContext,
    t_main: &Vec<Felt>,
    t_aux: &Vec<Felt>,
    bs: &Vec<BoundaryInfo>,
    coeffs: &ConstraintCoeffs,
    t_div: &Divisor,
    main_cur: &Vec<Felt>,
    aux_cur: &Vec<Felt>,
    z: Felt,
) -> (r: Felt)
    requires
        ctx.wf(),
        fe_in(e, z),
        t_main@.len() == ctx.main_t_adjustments@.len(),
        t_aux@.len() == ctx.aux_t_adjustments@.len(),
        coeffs.transition@.len() == ctx.num_transition_constraints(),
        coeffs.boundary@.len() == bs@.len(),
        coeffs.wf(e),
        t_div.wf(),
        forall|i: int| 0 <= i < t_main@.len() ==> fe_in(e, #[trigger] t_main@[i]),
        forall|i: int| 0 <= i < t_aux@.len() ==> fe_in(e, #[trigger] t_aux@[i]),
        forall|i: int| 0 <= i < main_cur@.len() ==> fe_in(e, #[trigger] main_cur@[i]),
        forall|i: int| 0 <= i < aux_cur@.len() ==> fe_in(e, #[trigger] aux_cur@[i]),
        forall|i: int|
            0 <= i < bs@.len() ==> (#[trigger] bs@[i]).wf(
                e,
                main_cur@.len() as int,
                aux_cur@.len() as int,
            ),
    ensures
        r == ood_constraint_value(
            e,
            *ctx,
            t_main@,
            t_aux@,
            bs@,
            coeffs.transition@,
            coeffs.boundary@,
            *t_div,
            main_cur@,
            aux_cur@,
            z,
        ),
        fe_in(e, r),
{
    // combined transition terms for the main segment
    let mut acc = crate::field::felt_base(0);
    let mut i: usize = 0;
    while i < t_main.len()
        invariant
            i <= t_main@.len(),
            acc == t_sum(e, t_main@, coeffs.transition@, ctx.main_t_adjustments@, z, i as int),
            fe_in(e, acc),
            fe_in(e, z),
            t_main@.len() == ctx.main_t_adjustments@.len(),
            t_main@.len() <= coeffs.transition@.len(),
            coeffs.wf(e),
            forall|k: int| 0 <= k < t_main@.len() ==> fe_in(e, #[trigger] t_main@[k]),
        decreases t_main@.len() - i,
    {
        let cc = coeffs.transition[i];
        let zp = z.pow(e, ctx.main_t_adjustments[i]);
        let term = t_main[i].mul(e, cc.0.add(cc.1.mul(e, zp)));
        acc = acc.add(term);
        i = i + 1;
    }

    // combined transition terms for the auxiliary segments
    let ghost aux_ccs = coeffs.transition@.subrange(
        t_main@.len() as int,
        coeffs.transition@.len() as int,
    );
    let mut acc_aux = crate::field::felt_base(0);
    let mut j: usize = 0;
    while j < t_aux.len()
        invariant
            j <= t_aux@.len(),
            aux_ccs == coeffs.transition@.subrange(
                t_main@.len() as int,
                coeffs.transition@.len() as int,
            ),
            acc_aux == t_sum(e, t_aux@, aux_ccs, ctx.aux_t_adjustments@, z, j as int),
            fe_in(e, acc_aux),
            fe_in(e, z),
            t_aux@.len() == ctx.aux_t_adjustments@.len(),
            t_main@.len() + t_aux@.len() == coeffs.transition@.len(),
            coeffs.wf(e),
            forall|k: int| 0 <= k < t_aux@.len() ==> fe_in(e, #[trigger] t_aux@[k]),
        decreases t_aux@.len() - j,
    {
        let tlen = coeffs.transition.len();
        proof {
            assert(t_main@.len() + (j as int) < tlen);
        }
        let cc = coeffs.transition[t_main.len() + j];
        proof {
            assert(aux_ccs[j as int] == coeffs.transition@[t_main@.len() + j]);
        }
        let zp = z.pow(e, ctx.aux_t_adjustments[j]);
        let term = t_aux[j].mul(e, cc.0.add(cc.1.mul(e, zp)));
        acc_aux = acc_aux.add(term);
        j = j + 1;
    }

    // divide the transition combination by the shared divisor
    let dv = eval_divisor(e, t_div, z);
    let t_result = acc.add(acc_aux).div(e, dv);

    // boundary contributions
    let mut b_acc = crate::field::felt_base(0);
    let mut k: usize = 0;
    while k < bs.len()
        invariant
            k <= bs@.len(),
            b_acc == b_sum(e, bs@, coeffs.boundary@, main_cur@, aux_cur@, z, k as int),
            fe_in(e, b_acc),
            fe_in(e, z),
            coeffs.boundary@.len() == bs@.len(),
            coeffs.wf(e),
            forall|n: int| 0 <= n < main_cur@.len() ==> fe_in(e, #[trigger] main_cur@[n]),
            forall|n: int| 0 <= n < aux_cur@.len() ==> fe_in(e, #[trigger] aux_cur@[n]),
            forall|n: int|
                0 <= n < bs@.len() ==> (#[trigger] bs@[n]).wf(
                    e,
                    main_cur@.len() as int,
                    aux_cur@.len() as int,
                ),
        decreases bs@.len() - k,
    {
        let b = &bs[k];
        let cc = coeffs.boundary[k];
        let term = boundary_term(e, b, cc, main_cur, aux_cur, z);
        b_acc = b_acc.add(term);
        k = k + 1;
    }

    let r = t_result.add(b_acc);
    r
}

/// One boundary constraint's contribution to the out-of-domain value.
fn boundary_term(
    e: Ext,
    b: &BoundaryInfo,
    cc: (Felt, Felt),
    main_cur: &Vec<Felt>,
    aux_cur: &Vec<Felt>,
    z: Felt,
) -> (r: Felt)
    requires
        fe_in(e, z),
        fe_in(e, cc.0),
        fe_in(e, cc.1),
        b.wf(e, main_cur@.len() as int, aux_cur@.len() as int),
        forall|i: int| 0 <= i < main_cur@.len() ==> fe_in(e, #[trigger] main_cur@[i]),
        forall|i: int| 0 <= i < aux_cur@.len() ==> fe_in(e, #[trigger] aux_cur@[i]),
    ensures
        r == b_term(e, *b, cc, main_cur@, aux_cur@, z),
        fe_in(e, r),
{
    let row_value = if b.is_aux {
        aux_cur[b.column]
    } else {
        main_cur[b.column]
    };
    let value_at_z = eval_poly(e, &b.poly, z);
    let zp = z.pow(e, b.adjustment);
    let numerator = row_value.sub(value_at_z).mul(e, cc.0.add(cc.1.mul(e, zp)));
    let dv_b = eval_divisor(e, &b.divisor, z);
    numerator.div(e, dv_b)
}

/// Evaluates a divisor at `z`.
pub fn eval_divisor(e: Ext, d: &Divisor, z: Felt) -> (r: Felt)
    requires
        d.wf(),
        fe_in(e, z),
    ensures
        r == divisor_eval(e, *d, z),
        fe_in(e, r),
{
    let numerator = z.pow(e, d.xexp).sub(crate::field::felt_base(d.constant));
    let mut den = crate::field::felt_base(1);
    proof {
        assert(den == crate::field::fe_one());
    }
    let mut i: usize = 0;
    while i < d.exemptions.len()
        invariant
            i <= d.exemptions@.len(),
            den == exemptions_prod(e, z, d.exemptions@, i as int),
            fe_in(e, den),
            fe_in(e, z),
            d.wf(),
        decreases d.exemptions@.len() - i,
    {
        den = den.mul(e, z.sub(crate::field::felt_base(d.exemptions[i])));
        i = i + 1;
    }
    numerator.div(e, den)
}

/// Evaluates a polynomial at `z`, coefficients low degree first.
pub fn eval_poly(e: Ext, p: &Vec<Felt>, z: Felt) -> (r: Felt)
    requires
        fe_in(e, z),
        forall|i: int| 0 <= i < p@.len() ==> fe_in(e, #[trigger] p@[i]),
    ensures
        r == poly_eval(e, p@, z),
        fe_in(e, r),
{
    let mut acc = crate::field::felt_base(0);
    let mut i: usize = p.len();
    proof {
        assert(p@.subrange(p@.len() as int, p@.len() as int) =~= Seq::<Felt>::empty());
    }
    while i > 0
        invariant
            i <= p@.len(),
            acc == poly_eval(e, p@.subrange(i as int, p@.len() as int), z),
            fe_in(e, acc),
            fe_in(e, z),
            forall|k: int| 0 <= k < p@.len() ==> fe_in(e, #[trigger] p@[k]),
        decreases i,
    {
        i = i - 1;
        acc = p[i].add(z.mul(e, acc));
        proof {
            let s = p@.subrange(i as int, p@.len() as int);
            assert(s[0] == p@[i as int]);
            assert(s.subrange(1, s.len() as int) =~= p@.subrange(i as int + 1, p@.len() as int));
        }
    }
    proof {
        assert(p@.subrange(0, p@.len() as int) =~= p@);
    }
    acc
}

} // verus!
