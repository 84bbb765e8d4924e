//! The DEEP composer.
//!
//! Reduces the queried trace and constraint evaluations, together with the
//! out-of-domain values, to evaluations of the single DEEP composition
//! polynomial at each queried position: for each trace column the standard
//! quotients against `z`, `z*g` (and, over an extension, the conjugate of
//! `z`), for the constraint columns the quotient against `z^m`, all
//! linearly combined and degree-adjusted by `(lambda + mu * x)`.

use vstd::prelude::*;

verus! {

use crate::field::Ext;
use crate::field::Felt;
use crate::field::fe_add;
use crate::field::fe_sub;
use crate::field::fe_mul;
use crate::field::fe_div;
use crate::field::fe_pow;
use crate::field::fe_conj;
use crate::field::fe_zero;
use crate::field::fe_in;
use crate::field::fe1;
use crate::field::mmul;

/// Composition coefficients for the DEEP polynomial: a triple per trace
/// column, one per constraint column, and the degree-adjustment pair.
pub struct DeepCoeffs {
    pub trace: Vec<(Felt, Felt, Felt)>,
    pub constraints: Vec<Felt>,
    pub degree: (Felt, Felt),
}

impl DeepCoeffs {
    /// All coefficients lie in the protocol's field.
    pub open spec fn wf(self, e: Ext) -> bool {
        &&& forall|i: int|
            0 <= i < self.trace@.len() ==> fe_in(e, (#[trigger] self.trace@[i]).0)
                && fe_in(e, self.trace@[i].1) && fe_in(e, self.trace@[i].2)
        &&& forall|i: int| 0 <= i < self.constraints@.len() ==> fe_in(e, #[trigger] self.constraints@[i])
        &&& fe_in(e, self.degree.0)
        &&& fe_in(e, self.degree.1)
    }
}

/// Sum over the first `n` columns of `cc_k * (row_k - ood_k)`, with the
/// coefficient picked by `pick` out of each triple (0, 1, or 2; the
/// conjugate arm also conjugates the out-of-domain value).
pub open spec fn diff_sum(
    e: Ext,
    row: Seq<Felt>,
    ood: Seq<Felt>,
    ccs: Seq<(Felt, Felt, Felt)>,
    pick: int,
    n: int,
) -> Felt
    decreases n,
{
    if n <= 0 {
        fe_zero()
    } else {
        fe_add(
            diff_sum(e, row, ood, ccs, pick, n - 1),
            fe_mul(
                e,
                if pick == 0 {
                    ccs[n - 1].0
                } else if pick == 1 {
                    ccs[n - 1].1
                } else {
                    ccs[n - 1].2
                },
                fe_sub(
                    row[n - 1],
                    if pick == 2 {
                        fe_conj(e, ood[n - 1])
                    } else {
                        ood[n - 1]
                    },
                ),
            ),
        )
    }
}

/// Sum over the constraint columns of `cc_k * (row_k - ood_k)`.
pub open spec fn cons_diff_sum(
    e: Ext,
    row: Seq<Felt>,
    ood: Seq<Felt>,
    ccs: Seq<Felt>,
    n: int,
) -> Felt
    decreases n,
{
    if n <= 0 {
        fe_zero()
    } else {
        fe_add(
            cons_diff_sum(e, row, ood, ccs, n - 1),
            fe_mul(e, ccs[n - 1], fe_sub(row[n - 1], ood[n - 1])),
        )
    }
}

/// The DEEP value at one position `x`, over the drawn coefficient
/// sequences and the degree-adjustment pair.
pub open spec fn deep_value(
    e: Ext,
    row: Seq<Felt>,
    ood_cur: Seq<Felt>,
    ood_next: Seq<Felt>,
    tccs: Seq<(Felt, Felt, Felt)>,
    cccs: Seq<Felt>,
    lambda: Felt,
    mu: Felt,
    main_width: int,
    use_conj: bool,
    cons_row: Seq<Felt>,
    ood_cons: Seq<Felt>,
    x: Felt,
    z: Felt,
    gz: Felt,
    z_m: Felt,
) -> Felt {
    let t1 = diff_sum(e, row, ood_cur, tccs, 0, row.len() as int);
    let t2 = diff_sum(e, row, ood_next, tccs, 1, row.len() as int);
    let t3 = if use_conj {
        diff_sum(e, row, ood_cur, tccs, 2, main_width)
    } else {
        fe_zero()
    };
    let trace_part = fe_add(
        fe_add(fe_div(e, t1, fe_sub(x, z)), fe_div(e, t2, fe_sub(x, gz))),
        fe_div(e, t3, fe_sub(x, fe_conj(e, z))),
    );
    let cons_part = fe_div(
        e,
        cons_diff_sum(e, cons_row, ood_cons, cccs, cons_row.len() as int),
        fe_sub(x, z_m),
    );
    fe_mul(e, fe_add(trace_part, cons_part), fe_add(lambda, fe_mul(e, mu, x)))
}

/// Computes the DEEP value at one queried position.
#[verifier::rlimit(100)]
pub fn compose_position(
    e: Ext,
    row: &Vec<Felt>,
    ood_cur: &Vec<Felt>,
    ood_next: &Vec<Felt>,
    cc: &DeepCoeffs,
    main_width: usize,
    use_conj: bool,
    cons_row: &Vec<Felt>,
    ood_cons: &Vec<Felt>,
    x: Felt,
    z: Felt,
    gz: Felt,
    z_m: Felt,
) -> (r: Felt)
    requires
        cc.wf(e),
        fe_in(e, x),
        fe_in(e, z),
        fe_in(e, gz),
        fe_in(e, z_m),
        row@.len() == ood_cur@.len(),
        row@.len() == ood_next@.len(),
        row@.len() <= cc.trace@.len(),
        main_width <= row@.len(),
        cons_row@.len() == ood_cons@.len(),
        cons_row@.len() <= cc.constraints@.len(),
        forall|i: int| 0 <= i < row@.len() ==> fe_in(e, #[trigger] row@[i]),
        forall|i: int| 0 <= i < ood_cur@.len() ==> fe_in(e, #[trigger] ood_cur@[i]),
        forall|i: int| 0 <= i < ood_next@.len() ==> fe_in(e, #[trigger] ood_next@[i]),
        forall|i: int| 0 <= i < cons_row@.len() ==> fe_in(e, #[trigger] cons_row@[i]),
        forall|i: int| 0 <= i < ood_cons@.len() ==> fe_in(e, #[trigger] ood_cons@[i]),
    ensures
        r == deep_value(
            e,
            row@,
            ood_cur@,
            ood_next@,
            cc.trace@,
            cc.constraints@,
            cc.degree.0,
            cc.degree.1,
            main_width as int,
            use_conj,
            cons_row@,
            ood_cons@,
            x,
            z,
            gz,
            z_m,
        ),
        fe_in(e, r),
{
    let mut t1 = crate::field::felt_base(0);
    let mut t2 = crate::field::felt_base(0);
    let mut i: usize = 0;
    while i < row.len()
        invariant
            i <= row@.len(),
            t1 == diff_sum(e, row@, ood_cur@, cc.trace@, 0, i as int),
            t2 == diff_sum(e, row@, ood_next@, cc.trace@, 1, i as int),
            fe_in(e, t1),
            fe_in(e, t2),
            cc.wf(e),
            row@.len() == ood_cur@.len(),
            row@.len() == ood_next@.len(),
            row@.len() <= cc.trace@.len(),
            forall|k: int| 0 <= k < row@.len() ==> fe_in(e, #[trigger] row@[k]),
            forall|k: int| 0 <= k < ood_cur@.len() ==> fe_in(e, #[trigger] ood_cur@[k]),
            forall|k: int| 0 <= k < ood_next@.len() ==> fe_in(e, #[trigger] ood_next@[k]),
        decreases row@.len() - i,
    {
        let ccs = cc.trace[i];
        t1 = t1.add(ccs.0.mul(e, row[i].sub(ood_cur[i])));
        t2 = t2.add(ccs.1.mul(e, row[i].sub(ood_next[i])));
        i = i + 1;
    }

    let mut t3 = crate::field::felt_base(0);
    if use_conj {
        let mut j: usize = 0;
        while j < main_width
            invariant
                j <= main_width,
                main_width <= row@.len(),
                t3 == diff_sum(e, row@, ood_cur@, cc.trace@, 2, j as int),
                fe_in(e, t3),
                cc.wf(e),
                row@.len() == ood_cur@.len(),
                row@.len() <= cc.trace@.len(),
                forall|k: int| 0 <= k < row@.len() ==> fe_in(e, #[trigger] row@[k]),
                forall|k: int| 0 <= k < ood_cur@.len() ==> fe_in(e, #[trigger] ood_cur@[k]),
            decreases main_width - j,
        {
            let ccs = cc.trace[j];
            t3 = t3.add(ccs.2.mul(e, row[j].sub(ood_cur[j].conjugate(e))));
            j = j + 1;
        }
    }

    let trace_part = t1.div(e, x.sub(z)).add(t2.div(e, x.sub(gz))).add(
        t3.div(e, x.sub(z.conjugate(e))),
    );

    let mut cs = crate::field::felt_base(0);
    let mut k: usize = 0;
    while k < cons_row.len()
        invariant
            k <= cons_row@.len(),
            cs == cons_diff_sum(e, cons_row@, ood_cons@, cc.constraints@, k as int),
            fe_in(e, cs),
            cc.wf(e),
            cons_row@.len() == ood_cons@.len(),
            cons_row@.len() <= cc.constraints@.len(),
            forall|n: int| 0 <= n < cons_row@.len() ==> fe_in(e, #[trigger] cons_row@[n]),
            forall|n: int| 0 <= n < ood_cons@.len() ==> fe_in(e, #[trigger] ood_cons@[n]),
        decreases cons_row@.len() - k,
    {
        cs = cs.add(cc.constraints[k].mul(e, cons_row[k].sub(ood_cons[k])));
        k = k + 1;
    }
    let cons_part = cs.div(e, x.sub(z_m));

    trace_part.add(cons_part).mul(e, cc.degree.0.add(cc.degree.1.mul(e, x)))
}

/// The x coordinate of a queried position: `g^p * h`, where `g` generates
/// the low-degree-extension domain and `h` is the domain offset.
pub open spec fn position_x(g: u64, offset: u64, p: int) -> Felt {
    fe1(mmul(fe_pow(Ext::Base, fe1(g), p as nat).a as int, offset as int) as u64)
}

/// Computes the DEEP evaluations at all queried positions, in position
/// order.
pub fn compose_deep(
    e: Ext,
    positions: &Vec<usize>,
    rows: &Vec<Vec<Felt>>,
    ood_cur: &Vec<Felt>,
    ood_next: &Vec<Felt>,
    cc: &DeepCoeffs,
    main_width: usize,
    use_conj: bool,
    cons_rows: &Vec<Vec<Felt>>,
    ood_cons: &Vec<Felt>,
    g_lde: u64,
    offset: u64,
    z: Felt,
    gz: Felt,
    z_m: Felt,
) -> (r: Vec<Felt>)
    requires
        cc.wf(e),
        fe_in(e, z),
        fe_in(e, gz),
        fe_in(e, z_m),
        g_lde < crate::field::P,
        offset < crate::field::P,
        rows@.len() == positions@.len(),
        cons_rows@.len() == positions@.len(),
        forall|j: int|
            0 <= j < rows@.len() ==> (#[trigger] rows@[j])@.len() == ood_cur@.len(),
        forall|j: int|
            0 <= j < cons_rows@.len() ==> (#[trigger] cons_rows@[j])@.len() == ood_cons@.len(),
        ood_cur@.len() == ood_next@.len(),
        ood_cur@.len() <= cc.trace@.len(),
        main_width <= ood_cur@.len(),
        ood_cons@.len() <= cc.constraints@.len(),
        forall|j: int, i: int|
            0 <= j < rows@.len() && 0 <= i < rows@[j]@.len() ==> fe_in(e, #[trigger] rows@[j]@[i]),
        forall|j: int, i: int|
            0 <= j < cons_rows@.len() && 0 <= i < cons_rows@[j]@.len() ==> fe_in(
                e,
                #[trigger] cons_rows@[j]@[i],
            ),
        forall|i: int| 0 <= i < ood_cur@.len() ==> fe_in(e, #[trigger] ood_cur@[i]),
        forall|i: int| 0 <= i < ood_next@.len() ==> fe_in(e, #[trigger] ood_next@[i]),
        forall|i: int| 0 <= i < ood_cons@.len() ==> fe_in(e, #[trigger] ood_cons@[i]),
    ensures
        r@.len() == positions@.len(),
        forall|j: int|
            0 <= j < r@.len() ==> #[trigger] r@[j] == deep_value(
                e,
                rows@[j]@,
                ood_cur@,
                ood_next@,
                cc.trace@,
                cc.constraints@,
                cc.degree.0,
                cc.degree.1,
                main_width as int,
                use_conj,
                cons_rows@[j]@,
                ood_cons@,
                position_x(g_lde, offset, positions@[j] as int),
                z,
                gz,
                z_m,
            ),
        forall|j: int| 0 <= j < r@.len() ==> fe_in(e, #[trigger] r@[j]),
{
    let mut out: Vec<Felt> = Vec::new();
    let mut j: usize = 0;
    while j < positions.len()
        invariant
            j <= positions@.len(),
            out@.len() == j,
            cc.wf(e),
            fe_in(e, z),
            fe_in(e, gz),
            fe_in(e, z_m),
            g_lde < crate::field::P,
            offset < crate::field::P,
            rows@.len() == positions@.len(),
            cons_rows@.len() == positions@.len(),
            forall|n: int|
                0 <= n < rows@.len() ==> (#[trigger] rows@[n])@.len() == ood_cur@.len(),
            forall|n: int|
                0 <= n < cons_rows@.len() ==> (#[trigger] cons_rows@[n])@.len() == ood_cons@.len(),
            ood_cur@.len() == ood_next@.len(),
            ood_cur@.len() <= cc.trace@.len(),
            main_width <= ood_cur@.len(),
            ood_cons@.len() <= cc.constraints@.len(),
            forall|n: int, i: int|
                0 <= n < rows@.len() && 0 <= i < rows@[n]@.len() ==> fe_in(
                    e,
                    #[trigger] rows@[n]@[i],
                ),
            forall|n: int, i: int|
                0 <= n < cons_rows@.len() && 0 <= i < cons_rows@[n]@.len() ==> fe_in(
                    e,
                    #[trigger] cons_rows@[n]@[i],
                ),
            forall|i: int| 0 <= i < ood_cur@.len() ==> fe_in(e, #[trigger] ood_cur@[i]),
            forall|i: int| 0 <= i < ood_next@.len() ==> fe_in(e, #[trigger] ood_next@[i]),
            forall|i: int| 0 <= i < ood_cons@.len() ==> fe_in(e, #[trigger] ood_cons@[i]),
            forall|n: int|
                0 <= n < j ==> #[trigger] out@[n] == deep_value(
                    e,
                    rows@[n]@,
                    ood_cur@,
                    ood_next@,
                    cc.trace@,
                    cc.constraints@,
                    cc.degree.0,
                    cc.degree.1,
                    main_width as int,
                    use_conj,
                    cons_rows@[n]@,
                    ood_cons@,
                    position_x(g_lde, offset, positions@[n] as int),
                    z,
                    gz,
                    z_m,
                ),
            forall|n: int| 0 <= n < j ==> fe_in(e, #[trigger] out@[n]),
        decreases positions@.len() - j,
    {
        let p: usize = positions[j];
        let gp = crate::field::felt_base(g_lde).pow(Ext::Base, p as u64);
        let x = crate::field::felt_base(crate::field::base_mul(gp.a, offset));
        proof {
            assert(x == position_x(g_lde, offset, positions@[j as int] as int));
        }
        let v = compose_position(
            e,
            &rows[j],
            ood_cur,
            ood_next,
            cc,
            main_width,
            use_conj,
            &cons_rows[j],
            ood_cons,
            x,
            z,
            gz,
            z_m,
        );
        out.push(v);
        j = j + 1;
    }
    out
}

} // verus!
