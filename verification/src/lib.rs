//! A STARK proof verifier.
//!
//! Given a proof and the public inputs of a computation, the library
//! rebuilds the Fiat-Shamir transcript an honest prover would have
//! produced, re-derives every verifier-chosen value, checks the algebraic
//! claims the proof makes, and reduces the whole check to one low-degree
//! test.  Every value drawn from the transcript is a fixed function of
//! the operations absorbed before it, so two runs over byte-identical
//! proofs and public inputs derive identical coefficients, identical
//! out-of-domain points, and identical query positions.

use vstd::prelude::*;

pub mod field;
pub mod transcript;
pub mod air;
pub mod evaluator;
pub mod composer;
pub mod channel;
pub mod work;

verus! {

use crate::field::Ext;
use crate::field::Felt;
use crate::field::fe_add;
use crate::field::fe_mul;
use crate::field::fe_pow;
use crate::field::fe_zero;
use crate::field::fe_in;
use crate::air::Air;
use crate::transcript::Coin;
use crate::transcript::coin_log;
use crate::transcript::zeros_of;
use crate::transcript::spec_pow2;
use crate::transcript::draw_ints_of;
use crate::transcript::ev_draw_ints;
use crate::transcript::init_log;
use crate::transcript::ev_reseed;
use crate::transcript::ev_reseed_int;
use crate::transcript::ev_draw;
use crate::transcript::draw_of;
use crate::transcript::draws_of;
use crate::transcript::pair_draws_of;
use crate::transcript::triple_draws_of;
use crate::transcript::log_after_draws;
use crate::transcript::hash_row_of;
use crate::channel::VerifierChannel;
use crate::channel::fri_commit_log;
use crate::channel::merkle_ok;
use crate::channel::opening_rep;
use crate::channel::FriState;
use crate::channel::fri_state_wf;
use crate::channel::fri_state_domain;
use crate::channel::fri_state_verdict;
use crate::composer::deep_value;
use crate::composer::position_x;
use crate::transcript::flat3;
use crate::field::fe1;
use crate::air::root_of_unity_spec;
use crate::air::AirContext;
use crate::air::BoundaryInfo;
use crate::air::Divisor;
use crate::evaluator::ood_constraint_value;

/// The reasons a verification run can fail.  All failures are terminal;
/// the first one encountered is returned and no further work happens.
#[derive(Debug, Clone, PartialEq, Eq)]
pub enum VerifierError {
    /// The computation declares a field extension the base field lacks.
    UnsupportedFieldExtension(u64),
    /// The proof's shape does not match the computation's context.
    ProofDeserializationError,
    /// The transcript could not derive an element or index set.
    RandomCoinError,
    /// The two out-of-domain constraint evaluations disagree.
    InconsistentOodConstraintEvaluations,
    /// A queried trace row fails verification against its commitment.
    TraceQueryDoesNotMatchCommitment,
    /// A queried constraint evaluation fails verification against its
    /// commitment.
    ConstraintQueryDoesNotMatchCommitment,
    /// The nonce does not meet the grinding threshold.
    QuerySeedProofOfWorkVerificationFailed,
    /// The declared evaluation domain disagrees with the low-degree
    /// test's domain.
    InconsistentLdeDomainSize,
    /// The low-degree test rejected, with its reason.
    FriVerificationFailed(String),
}

/// Relies on `QuadExtension::is_supported` of the field library: the
/// protocol's base field supports the quadratic extension construction.
#[verifier::external_body]
pub fn quad_extension_supported() -> (r: bool)
    ensures
        r == true,
{
    winter_math::fields::QuadExtension::<winter_math::fields::f62::BaseElement>::is_supported()
}

/// Relies on `CubeExtension::is_supported` of the field library: the
/// protocol's base field supports the cubic extension construction.
#[verifier::external_body]
pub fn cube_extension_supported() -> (r: bool)
    ensures
        r == true,
{
    winter_math::fields::CubeExtension::<winter_math::fields::f62::BaseElement>::is_supported()
}

/// Gate on the declared field extension: a declared quadratic or cubic
/// extension over a base field lacking that construction is rejected with
/// the specific unsupported-extension error, before any transcript work.
pub fn check_extension_support(e: Ext, quad_ok: bool, cube_ok: bool) -> (r: Result<
    (),
    VerifierError,
>)
    ensures
        (r is Ok <==> (e == Ext::Base || (e == Ext::Quad && quad_ok) || (e == Ext::Cube
            && cube_ok))),
        (e == Ext::Quad && !quad_ok ==> r == Err::<(), VerifierError>(
            VerifierError::UnsupportedFieldExtension(2),
        )),
        (e == Ext::Cube && !cube_ok ==> r == Err::<(), VerifierError>(
            VerifierError::UnsupportedFieldExtension(3),
        )),
{
    match e {
        Ext::Base => Ok(()),
        Ext::Quad => {
            if quad_ok {
                Ok(())
            } else {
                Err(VerifierError::UnsupportedFieldExtension(2))
            }
        },
        Ext::Cube => {
            if cube_ok {
                Ok(())
            } else {
                Err(VerifierError::UnsupportedFieldExtension(3))
            }
        },
    }
}

/// The reduction of the out-of-domain constraint column values:
/// the sum of `z^i * value_i` over the first `n` columns.
pub open spec fn ood_sum(e: Ext, z: Felt, vals: Seq<Felt>, n: int) -> Felt
    decreases n,
{
    if n <= 0 {
        fe_zero()
    } else {
        fe_add(ood_sum(e, z, vals, n - 1), fe_mul(e, fe_pow(e, z, (n - 1) as nat), vals[n - 1]))
    }
}

/// Reduces the out-of-domain constraint column values into one scalar by
/// the power-of-`z` weighting.
pub fn reduce_ood_evaluations(e: Ext, z: Felt, vals: &Vec<Felt>) -> (r: Felt)
    requires
        fe_in(e, z),
        forall|i: int| 0 <= i < vals@.len() ==> fe_in(e, #[trigger] vals@[i]),
    ensures
        r == ood_sum(e, z, vals@, vals@.len() as int),
        fe_in(e, r),
{
    let mut acc = crate::field::felt_base(0);
    let mut zp = crate::field::felt_base(1);
    let mut i: usize = 0;
    while i < vals.len()
        invariant
            i <= vals@.len(),
            acc == ood_sum(e, z, vals@, i as int),
            zp == fe_pow(e, z, i as nat),
            fe_in(e, acc),
            fe_in(e, zp),
            fe_in(e, z),
            forall|k: int| 0 <= k < vals@.len() ==> fe_in(e, #[trigger] vals@[k]),
        decreases vals@.len() - i,
    {
        acc = acc.add(zp.mul(e, vals[i]));
        zp = z.mul(e, zp);
        i = i + 1;
    }
    acc
}

/// The grinding check: passes exactly when the transcript's current
/// grinding value reaches the configured threshold, so a threshold of
/// zero admits every nonce.
pub fn check_grinding(coin: &Coin, grinding_factor: u32) -> (r: Result<(), VerifierError>)
    ensures
        (r is Ok <==> zeros_of(coin_log(*coin)) >= grinding_factor),
        (r is Err ==> r == Err::<(), VerifierError>(
            VerifierError::QuerySeedProofOfWorkVerificationFailed,
        )),
{
    if crate::transcript::coin_leading_zeros(coin) < grinding_factor {
        Err(VerifierError::QuerySeedProofOfWorkVerificationFailed)
    } else {
        Ok(())
    }
}

/// Draws the query position set: exactly `count` distinct positions into
/// the evaluation domain, each strictly below `bound`.  A transcript that
/// cannot produce enough distinct values within the sampling bound is a
/// hard failure of the whole verification, never a silent truncation.
pub fn draw_query_positions(coin: &mut Coin, count: usize, bound: usize) -> (r: Result<
    Vec<usize>,
    VerifierError,
>)
    requires
        spec_pow2(bound as nat),
        1 <= count < bound,
    ensures
        coin_log(*final(coin)) == coin_log(*old(coin)) + ev_draw_ints(count as int, bound as int),
        (r is Ok <==> draw_ints_of(coin_log(*old(coin)), count as int, bound as int) is Some),
        (r matches Ok(v) ==> {
            &&& v@.len() == count
            &&& forall|i: int| 0 <= i < v@.len() ==> #[trigger] v@[i] < bound
            &&& forall|i: int, j: int| 0 <= i < j < v@.len() ==> v@[i] != v@[j]
            &&& Some(v@.map_values(|x: usize| x as int)) == draw_ints_of(
                coin_log(*old(coin)),
                count as int,
                bound as int,
            )
        }),
        (r is Err ==> r == Err::<Vec<usize>, VerifierError>(VerifierError::RandomCoinError)),
{
    match crate::transcript::coin_draw_ints(coin, count, bound) {
        Some(v) => Ok(v),
        None => Err(VerifierError::RandomCoinError),
    }
}

/// A grinding threshold of zero admits every transcript state: the
/// grinding value is never negative, so the check accepts whatever nonce
/// was absorbed.
pub proof fn lemma_zero_grinding_admits_all(log: Seq<int>)
    ensures
        zeros_of(log) >= 0,
{
}

/// Concatenates two rows of elements.
pub fn concat_row(a: &Vec<Felt>, b: &Vec<Felt>) -> (r: Vec<Felt>)
    ensures
        r@ == a@ + b@,
{
    let mut out: Vec<Felt> = Vec::new();
    let mut i: usize = 0;
    while i < a.len()
        invariant
            i <= a@.len(),
            out@ == a@.subrange(0, i as int),
        decreases a@.len() - i,
    {
        out.push(a[i]);
        i = i + 1;
    }
    let mut j: usize = 0;
    while j < b.len()
        invariant
            j <= b@.len(),
            out@ == a@.subrange(0, a@.len() as int) + b@.subrange(0, j as int),
        decreases b@.len() - j,
    {
        out.push(b[j]);
        j = j + 1;
    }
    proof {
        assert(a@.subrange(0, a@.len() as int) =~= a@);
        assert(b@.subrange(0, b@.len() as int) =~= b@);
        assert(out@ =~= a@ + b@);
    }
    out
}

/// Concatenates two row tables position by position; an empty second
/// table leaves the first unchanged.
pub fn concat_rows(a: &Vec<Vec<Felt>>, b: &Vec<Vec<Felt>>) -> (r: Vec<Vec<Felt>>)
    requires
        b@.len() == a@.len() || b@.len() == 0,
    ensures
        r@.len() == a@.len(),
        forall|j: int|
            0 <= j < r@.len() ==> (#[trigger] r@[j])@ == if b@.len() > 0 {
                a@[j]@ + b@[j]@
            } else {
                a@[j]@
            },
{
    let mut out: Vec<Vec<Felt>> = Vec::new();
    let mut j: usize = 0;
    while j < a.len()
        invariant
            j <= a@.len(),
            out@.len() == j,
            b@.len() == a@.len() || b@.len() == 0,
            forall|k: int|
                0 <= k < j ==> (#[trigger] out@[k])@ == if b@.len() > 0 {
                    a@[k]@ + b@[k]@
                } else {
                    a@[k]@
                },
        decreases a@.len() - j,
    {
        if b.len() > 0 {
            out.push(concat_row(&a[j], &b[j]));
        } else {
            let empty: Vec<Felt> = Vec::new();
            let row = concat_row(&a[j], &empty);
            proof {
                assert(a@[j as int]@ + Seq::<Felt>::empty() =~= a@[j as int]@);
            }
            out.push(row);
        }
        j = j + 1;
    }
    out
}

/// The smallest power of two that is at least `n`.
pub fn next_pow2(n: usize) -> (r: usize)
    requires
        1 <= n <= 0x4000_0000,
    ensures
        spec_pow2(r as nat),
        r >= n,
        r < 2 * n,
        r == crate::air::next_pow2_spec(n as int),
{
    let mut p: usize = 1;
    while p < n
        invariant
            spec_pow2(p as nat),
            p == 1 || p < 2 * n,
            n <= 0x4000_0000,
        decreases 2 * n - p,
    {
        p = p * 2;
    }
    proof {
        assert(exists|q: nat| (#[trigger] spec_pow2(q)) && q >= n && q < 2 * n) by {
            assert(spec_pow2(p as nat));
            assert(p as nat >= n && (p as nat) < 2 * n);
        }
        let q: nat = choose|q: nat| (#[trigger] spec_pow2(q)) && q >= n && q < 2 * n;
        assert(spec_pow2(q) && q >= n && q < 2 * n);
        assert(crate::air::next_pow2_spec(n as int) == q as int);
        if p as nat <= q {
            crate::air::lemma_pow2_unique(p as nat, q);
        } else {
            crate::air::lemma_pow2_unique(q, p as nat);
        }
    }
    p
}


/// The transcript seed: serialized public inputs, then the proof context.
pub open spec fn seed_spec(pub_inputs: Seq<u8>, context: Seq<u8>) -> Seq<u8> {
    pub_inputs + context
}

/// The log after the main trace commitment is absorbed.
pub open spec fn stage1_pre_log(ch: VerifierChannel, l0: Seq<int>) -> Seq<int> {
    l0 + ev_reseed(ch.trace_commitments@[0].bytes@)
}

/// Whether the auxiliary-segment randomness could be drawn.
pub open spec fn stage1_aux_ok(e: Ext, ch: VerifierChannel, ctx: AirContext, l0: Seq<int>) -> bool {
    ctx.aux_widths@.len() == 0 || draws_of(
        e,
        stage1_pre_log(ch, l0),
        ctx.aux_rand_counts@[0] as nat,
    ) is Some
}

/// The log after the auxiliary randomness and commitment, if any.
pub open spec fn stage1_mid_log(e: Ext, ch: VerifierChannel, ctx: AirContext, l0: Seq<int>) -> Seq<
    int,
> {
    if ctx.aux_widths@.len() == 0 {
        stage1_pre_log(ch, l0)
    } else {
        log_after_draws(e, stage1_pre_log(ch, l0), ctx.aux_rand_counts@[0] as nat) + ev_reseed(
            ch.trace_commitments@[1].bytes@,
        )
    }
}

/// The transition composition coefficients, as drawn.
pub open spec fn t_coeffs_of(e: Ext, ch: VerifierChannel, ctx: AirContext, l0: Seq<int>) -> Option<
    Seq<(Felt, Felt)>,
> {
    pair_draws_of(e, stage1_mid_log(e, ch, ctx, l0), ctx.num_transition_constraints() as nat)
}

/// The log after the transition coefficient draws.
pub open spec fn after_t_log(e: Ext, ch: VerifierChannel, ctx: AirContext, l0: Seq<int>) -> Seq<
    int,
> {
    log_after_draws(
        e,
        stage1_mid_log(e, ch, ctx, l0),
        (2 * ctx.num_transition_constraints()) as nat,
    )
}

/// The boundary composition coefficients, as drawn.
pub open spec fn b_coeffs_of(e: Ext, ch: VerifierChannel, ctx: AirContext, l0: Seq<int>) -> Option<
    Seq<(Felt, Felt)>,
> {
    pair_draws_of(e, after_t_log(e, ch, ctx, l0), ctx.num_assertions as nat)
}

/// The log after the boundary coefficient draws.
pub open spec fn after_b_log(e: Ext, ch: VerifierChannel, ctx: AirContext, l0: Seq<int>) -> Seq<
    int,
> {
    log_after_draws(e, after_t_log(e, ch, ctx, l0), (2 * ctx.num_assertions) as nat)
}

/// The log after the constraint commitment is absorbed.
pub open spec fn z_pre_log(e: Ext, ch: VerifierChannel, ctx: AirContext, l0: Seq<int>) -> Seq<int> {
    after_b_log(e, ch, ctx, l0) + ev_reseed(ch.constraint_commitment.bytes@)
}

/// The out-of-domain point, as drawn.
pub open spec fn z_of(e: Ext, ch: VerifierChannel, ctx: AirContext, l0: Seq<int>) -> Option<Felt> {
    draw_of(e, z_pre_log(e, ch, ctx, l0))
}

/// The log after the out-of-domain frame reseeds.
pub open spec fn stage3_log(e: Ext, ch: VerifierChannel, ctx: AirContext, l0: Seq<int>) -> Seq<
    int,
> {
    z_pre_log(e, ch, ctx, l0) + ev_draw(e) + ev_reseed(
        hash_row_of(e, ch.ood_main_current@ + ch.ood_aux_current@),
    ) + ev_reseed(hash_row_of(e, ch.ood_main_next@ + ch.ood_aux_next@)) + ev_reseed(
        hash_row_of(e, ch.ood_constraint_evaluations@),
    )
}

/// Every derivation up to the out-of-domain point succeeded.
pub open spec fn coeff_draws_ok(e: Ext, ch: VerifierChannel, ctx: AirContext, l0: Seq<int>) -> bool {
    &&& stage1_aux_ok(e, ch, ctx, l0)
    &&& t_coeffs_of(e, ch, ctx, l0) is Some
    &&& b_coeffs_of(e, ch, ctx, l0) is Some
    &&& z_of(e, ch, ctx, l0) is Some
}

/// The out-of-domain consistency check passed: for some constraint
/// evaluations and boundary data of the declared shapes, the evaluator's
/// recomputation from the frame equals the power-of-`z` reduction of the
/// committed column values, at the drawn point and coefficients.
pub open spec fn ood_matched(e: Ext, ch: VerifierChannel, ctx: AirContext, l0: Seq<int>) -> bool {
    match (t_coeffs_of(e, ch, ctx, l0), b_coeffs_of(e, ch, ctx, l0), z_of(e, ch, ctx, l0)) {
        (Some(tccs), Some(bccs), Some(z)) => exists|
            tm: Seq<Felt>,
            ta: Seq<Felt>,
            bs: Seq<BoundaryInfo>,
            dv: Divisor,
        |
            {
                &&& tm.len() == ctx.main_t_adjustments@.len()
                &&& ta.len() == ctx.aux_t_adjustments@.len()
                &&& bs.len() == ctx.num_assertions
                &&& #[trigger] ood_constraint_value(
                    e,
                    ctx,
                    tm,
                    ta,
                    bs,
                    tccs,
                    bccs,
                    dv,
                    ch.ood_main_current@,
                    ch.ood_aux_current@,
                    z,
                ) == ood_sum(
                    e,
                    z,
                    ch.ood_constraint_evaluations@,
                    ch.ood_constraint_evaluations@.len() as int,
                )
            },
        _ => false,
    }
}

/// The DEEP composition coefficients, as drawn.
pub open spec fn deep_draws_ok(e: Ext, ch: VerifierChannel, ctx: AirContext, l0: Seq<int>) -> bool {
    &&& triple_draws_of(e, stage3_log(e, ch, ctx, l0), ctx.full_width() as nat) is Some
    &&& draws_of(
        e,
        log_after_draws(e, stage3_log(e, ch, ctx, l0), (3 * ctx.full_width()) as nat),
        ctx.ce_blowup as nat,
    ) is Some
    &&& pair_draws_of(
        e,
        log_after_draws(
            e,
            log_after_draws(e, stage3_log(e, ch, ctx, l0), (3 * ctx.full_width()) as nat),
            ctx.ce_blowup as nat,
        ),
        1,
    ) is Some
}

/// The log before the query positions are drawn: all composition
/// coefficient draws, the commit phase of the low-degree test, and the
/// absorbed nonce.
pub open spec fn stage5_log(e: Ext, ch: VerifierChannel, ctx: AirContext, l0: Seq<int>) -> Seq<
    int,
> {
    fri_commit_log(
        log_after_draws(
            e,
            log_after_draws(
                e,
                log_after_draws(e, stage3_log(e, ch, ctx, l0), (3 * ctx.full_width()) as nat),
                ctx.ce_blowup as nat,
            ),
            2,
        ),
        ch.fri_commitments@,
        e,
        ch.fri_commitments@.len() as int,
    ) + ev_reseed_int(ch.pow_nonce)
}

/// The query position set, as drawn.
pub open spec fn positions_of(e: Ext, ch: VerifierChannel, ctx: AirContext, l0: Seq<int>) -> Option<
    Seq<int>,
> {
    draw_ints_of(
        stage5_log(e, ch, ctx, l0),
        ctx.options.num_queries as int,
        ctx.lde_domain_size(),
    )
}

/// The declared evaluation domain equals the low-degree test's own.
pub open spec fn domain_sizes_agree(ctx: AirContext) -> bool {
    crate::air::next_pow2_spec(ctx.trace_length - 1) * ctx.options.blowup == ctx.lde_domain_size()
}

/// The main trace openings verified at the drawn positions.
pub open spec fn main_opening_ok(e: Ext, ch: VerifierChannel, ctx: AirContext, l0: Seq<int>) -> bool {
    match positions_of(e, ch, ctx, l0) {
        Some(pos) => merkle_ok(
            ch.trace_commitments@[0].bytes@,
            pos,
            opening_rep(ch.main_opening),
        ),
        None => false,
    }
}

/// The auxiliary trace openings verified at the drawn positions, when an
/// auxiliary segment exists.
pub open spec fn aux_opening_ok(e: Ext, ch: VerifierChannel, ctx: AirContext, l0: Seq<int>) -> bool {
    match ch.aux_opening {
        Some(o) => match positions_of(e, ch, ctx, l0) {
            Some(pos) => merkle_ok(ch.trace_commitments@[1].bytes@, pos, opening_rep(o)),
            None => false,
        },
        None => true,
    }
}

/// The constraint openings verified at the drawn positions.
pub open spec fn cons_opening_ok(e: Ext, ch: VerifierChannel, ctx: AirContext, l0: Seq<int>) -> bool {
    match positions_of(e, ch, ctx, l0) {
        Some(pos) => merkle_ok(
            ch.constraint_commitment.bytes@,
            pos,
            opening_rep(ch.cons_opening),
        ),
        None => false,
    }
}


/// True when the protocol runs over an extension and the conjugate trace
/// term is in play.
pub open spec fn use_conj_spec(e: Ext) -> bool {
    match e {
        Ext::Base => false,
        Ext::Quad => true,
        Ext::Cube => true,
    }
}

/// The drawn DEEP trace coefficient triples, empty if the draw failed.
pub open spec fn t_cc3_val(e: Ext, ch: VerifierChannel, ctx: AirContext, l0: Seq<int>) -> Seq<
    (Felt, Felt, Felt),
> {
    match triple_draws_of(e, stage3_log(e, ch, ctx, l0), ctx.full_width() as nat) {
        Some(v) => v,
        None => Seq::empty(),
    }
}

/// The drawn DEEP constraint coefficients, empty if the draw failed.
pub open spec fn c_cc_val(e: Ext, ch: VerifierChannel, ctx: AirContext, l0: Seq<int>) -> Seq<Felt> {
    match draws_of(
        e,
        log_after_draws(e, stage3_log(e, ch, ctx, l0), (3 * ctx.full_width()) as nat),
        ctx.ce_blowup as nat,
    ) {
        Some(v) => v,
        None => Seq::empty(),
    }
}

/// The drawn degree-adjustment pair, zero if the draw failed.
pub open spec fn d_cc_val(e: Ext, ch: VerifierChannel, ctx: AirContext, l0: Seq<int>) -> (
    Felt,
    Felt,
) {
    match pair_draws_of(
        e,
        log_after_draws(
            e,
            log_after_draws(e, stage3_log(e, ch, ctx, l0), (3 * ctx.full_width()) as nat),
            ctx.ce_blowup as nat,
        ),
        1,
    ) {
        Some(v) => if v.len() >= 1 {
            (v[0].0, v[0].1)
        } else {
            (fe_zero(), fe_zero())
        },
        None => (fe_zero(), fe_zero()),
    }
}

/// The drawn out-of-domain point, zero if the draw failed.
pub open spec fn z_val(e: Ext, ch: VerifierChannel, ctx: AirContext, l0: Seq<int>) -> Felt {
    match z_of(e, ch, ctx, l0) {
        Some(z) => z,
        None => fe_zero(),
    }
}

/// The drawn query positions, empty if the draw failed.
pub open spec fn pos_val(e: Ext, ch: VerifierChannel, ctx: AirContext, l0: Seq<int>) -> Seq<int> {
    match positions_of(e, ch, ctx, l0) {
        Some(p) => p,
        None => Seq::empty(),
    }
}

/// The queried trace row at one position: main columns, then auxiliary.
pub open spec fn full_row_at(ch: VerifierChannel, ctx: AirContext, j: int) -> Seq<Felt> {
    if ctx.aux_widths@.len() > 0 {
        ch.main_rows@[j]@ + ch.aux_rows@[j]@
    } else {
        ch.main_rows@[j]@
    }
}

/// The DEEP composition evaluations the verifier hands to the low-degree
/// test: one [`deep_value`] per drawn position, over the drawn
/// coefficients, the out-of-domain point and the channel's queried rows.
pub open spec fn deep_evals_payload(e: Ext, ch: VerifierChannel, ctx: AirContext, l0: Seq<int>) -> Seq<
    Felt,
> {
    Seq::new(
        pos_val(e, ch, ctx, l0).len(),
        |j: int|
            deep_value(
                e,
                full_row_at(ch, ctx, j),
                ch.ood_main_current@ + ch.ood_aux_current@,
                ch.ood_main_next@ + ch.ood_aux_next@,
                t_cc3_val(e, ch, ctx, l0),
                c_cc_val(e, ch, ctx, l0),
                d_cc_val(e, ch, ctx, l0).0,
                d_cc_val(e, ch, ctx, l0).1,
                ctx.main_width as int,
                use_conj_spec(e),
                ch.cons_rows@[j]@,
                ch.ood_constraint_evaluations@,
                position_x(
                    root_of_unity_spec(ctx.log_lde_size()),
                    crate::field::FIELD_GENERATOR,
                    pos_val(e, ch, ctx, l0)[j],
                ),
                z_val(e, ch, ctx, l0),
                fe_mul(e, z_val(e, ch, ctx, l0), fe1(root_of_unity_spec(ctx.log_trace_length()))),
                fe_pow(e, z_val(e, ch, ctx, l0), ctx.ce_blowup as nat),
            ),
    )
}

/// The low-degree test accepted: some verifier state built by the commit
/// phase over the declared domain returns the accepting verdict on the
/// composed DEEP evaluations at the drawn positions.
pub open spec fn fri_accepted(e: Ext, ch: VerifierChannel, ctx: AirContext, l0: Seq<int>) -> bool {
    &&& deep_draws_ok(e, ch, ctx, l0)
    &&& z_of(e, ch, ctx, l0) is Some
    &&& positions_of(e, ch, ctx, l0) is Some
    &&& exists|st: FriState|
        {
            &&& #[trigger] fri_state_wf(st)
            &&& fri_state_domain(st) == ctx.lde_domain_size()
            &&& fri_state_verdict(
                st,
                flat3(deep_evals_payload(e, ch, ctx, l0)),
                pos_val(e, ch, ctx, l0),
            ) is None
        }
}

/// Results the procedure can only return after the out-of-domain check
/// has passed.
pub open spec fn past_stage3(r: Result<(), VerifierError>) -> bool {
    r is Ok || (r matches Err(e2) && (e2 is InconsistentLdeDomainSize
        || e2 is FriVerificationFailed || e2 is QuerySeedProofOfWorkVerificationFailed
        || e2 is TraceQueryDoesNotMatchCommitment || e2 is ConstraintQueryDoesNotMatchCommitment))
}

/// Results the procedure can only return after the domain-size check has
/// passed.
pub open spec fn past_stage4(r: Result<(), VerifierError>) -> bool {
    r is Ok || (r matches Err(e2) && (e2 is FriVerificationFailed
        || e2 is QuerySeedProofOfWorkVerificationFailed || e2 is TraceQueryDoesNotMatchCommitment
        || e2 is ConstraintQueryDoesNotMatchCommitment))
}

/// Results the procedure can only return after the grinding check has
/// passed and the positions were drawn.
pub open spec fn past_stage5(r: Result<(), VerifierError>) -> bool {
    r is Ok || (r matches Err(e2) && (e2 is TraceQueryDoesNotMatchCommitment
        || e2 is ConstraintQueryDoesNotMatchCommitment))
}

/// Verifies that a proof attests to a correct execution of the
/// computation described by `air` against the given public inputs.
///
/// The transcript seed is the serialized public inputs followed by the
/// proof's serialized context, exactly as the prover builds it; every
/// later value is a fixed function of that seed and the proof, so two
/// runs over byte-identical inputs return the same result and derive the
/// same point, coefficients and positions.  A malformed shape is
/// rejected exactly when [`channel::proof_shape_ok`] fails; success is
/// owed only to a proof that also passed the out-of-domain comparison,
/// the domain-size agreement, the grinding bound, every commitment
/// opening, and the low-degree test, as the contract states.
///
/// The proof's serialized context is absorbed into the seed but not
/// parsed: the caller owns the correspondence between `air` and the
/// context bytes, as it owns building the capability itself.  A mismatch
/// cannot make a wrong proof pass — the transcript simply diverges and a
/// transcript-level or opening failure results — but it surfaces as that
/// failure rather than as a structural error.
pub fn verify<A: Air>(air: &A, stark_proof: channel::Proof, pub_inputs_bytes: &Vec<u8>) -> (r:
    Result<(), VerifierError>)
    ensures
        (r matches Err(err) ==> !(err is UnsupportedFieldExtension)),
        (r == Err::<(), VerifierError>(VerifierError::ProofDeserializationError)
            <==> !channel::proof_shape_ok(stark_proof, air.ctx())),
        (r is Ok ==> exists|ch: VerifierChannel|
            {
                &&& #[trigger] ch.wf(air.ctx())
                &&& ch.trace_commitments@ == stark_proof.trace_commitments@
                &&& ch.constraint_commitment == stark_proof.constraint_commitment
                &&& ch.fri_commitments@ == stark_proof.fri_commitments@
                &&& ch.ood_main_current@ == stark_proof.ood_main_current@
                &&& ch.ood_main_next@ == stark_proof.ood_main_next@
                &&& ch.ood_aux_current@ == stark_proof.ood_aux_current@
                &&& ch.ood_aux_next@ == stark_proof.ood_aux_next@
                &&& ch.ood_constraint_evaluations@ == stark_proof.ood_constraint_evaluations@
                &&& ch.pow_nonce == stark_proof.pow_nonce
                &&& ch.fri_proof_bytes@ == stark_proof.fri_proof_bytes@
                &&& ({
                    let e2 = air.ctx().options.extension;
                    let l0 = init_log(seed_spec(pub_inputs_bytes@, stark_proof.context_bytes@));
                    &&& coeff_draws_ok(e2, ch, air.ctx(), l0)
                    &&& ood_matched(e2, ch, air.ctx(), l0)
                    &&& deep_draws_ok(e2, ch, air.ctx(), l0)
                    &&& domain_sizes_agree(air.ctx())
                    &&& zeros_of(stage5_log(e2, ch, air.ctx(), l0))
                        >= air.ctx().options.grinding_factor
                    &&& positions_of(e2, ch, air.ctx(), l0) is Some
                    &&& main_opening_ok(e2, ch, air.ctx(), l0)
                    &&& aux_opening_ok(e2, ch, air.ctx(), l0)
                    &&& cons_opening_ok(e2, ch, air.ctx(), l0)
                    &&& fri_accepted(e2, ch, air.ctx(), l0)
                })
            }),
{
    // build the transcript seed: public inputs, then the proof context
    let mut seed: Vec<u8> = Vec::new();
    let mut i: usize = 0;
    while i < pub_inputs_bytes.len()
        invariant
            i <= pub_inputs_bytes@.len(),
            seed@ == pub_inputs_bytes@.subrange(0, i as int),
        decreases pub_inputs_bytes@.len() - i,
    {
        seed.push(pub_inputs_bytes[i]);
        i = i + 1;
    }
    let mut j: usize = 0;
    while j < stark_proof.context_bytes.len()
        invariant
            j <= stark_proof.context_bytes@.len(),
            seed@ == pub_inputs_bytes@.subrange(0, pub_inputs_bytes@.len() as int)
                + stark_proof.context_bytes@.subrange(0, j as int),
        decreases stark_proof.context_bytes@.len() - j,
    {
        seed.push(stark_proof.context_bytes[j]);
        j = j + 1;
    }
    proof {
        assert(pub_inputs_bytes@.subrange(0, pub_inputs_bytes@.len() as int)
            =~= pub_inputs_bytes@);
        assert(stark_proof.context_bytes@.subrange(0, stark_proof.context_bytes@.len() as int)
            =~= stark_proof.context_bytes@);
        assert(seed@ =~= seed_spec(pub_inputs_bytes@, stark_proof.context_bytes@));
    }

    // gate on the declared field extension before any transcript work
    let ctx = air.context();
    let e = ctx.options.extension;
    let quad_ok = quad_extension_supported();
    let cube_ok = cube_extension_supported();
    match check_extension_support(e, quad_ok, cube_ok) {
        Ok(()) => (),
        Err(err) => {
            return Err(err);
        },
    }

    // structured reading with shape validation, then the shared procedure
    let ch = match channel::VerifierChannel::new(stark_proof, ctx) {
        Ok(c) => c,
        Err(err) => {
            return Err(err);
        },
    };
    let ghost gch = ch;
    let coin = crate::transcript::coin_new(&seed);
    let result = perform_verification(air, e, ch, coin);
    proof {
        if result is Ok {
            assert(gch.wf(air.ctx()));
        }
    }
    result
}

/// The shared verification procedure: seven ordered stages, each feeding
/// the transcript before the next randomness is drawn, with the first
/// failure terminal.  The contract pins, per result, how far the fixed
/// stage order was driven: which transcript events were absorbed, that
/// the out-of-domain comparison passed before any query-phase work, that
/// the grinding bound was met before positions were drawn, and that every
/// opening verified against its commitment at exactly the drawn
/// positions.
#[verifier::rlimit(100)]
fn perform_verification<A: Air>(
    air: &A,
    e: Ext,
    ch: channel::VerifierChannel,
    mut coin: Coin,
) -> (r: Result<(), VerifierError>)
    requires
        ch.wf(air.ctx()),
        e == air.ctx().options.extension,
    ensures
        (r matches Err(err) ==> !(err is UnsupportedFieldExtension) && !(
        err is ProofDeserializationError)),
        (r == Err::<(), VerifierError>(VerifierError::RandomCoinError) ==> !coeff_draws_ok(
            e,
            ch,
            air.ctx(),
            coin_log(coin),
        ) || !deep_draws_ok(e, ch, air.ctx(), coin_log(coin)) || positions_of(
            e,
            ch,
            air.ctx(),
            coin_log(coin),
        ) is None),
        (past_stage3(r) ==> coeff_draws_ok(e, ch, air.ctx(), coin_log(coin)) && ood_matched(
            e,
            ch,
            air.ctx(),
            coin_log(coin),
        )),
        (r == Err::<(), VerifierError>(VerifierError::InconsistentOodConstraintEvaluations)
            ==> coeff_draws_ok(e, ch, air.ctx(), coin_log(coin))),
        (past_stage4(r) ==> deep_draws_ok(e, ch, air.ctx(), coin_log(coin)) && domain_sizes_agree(
            air.ctx(),
        )),
        (r == Err::<(), VerifierError>(VerifierError::InconsistentLdeDomainSize)
            ==> !domain_sizes_agree(air.ctx())),
        (r == Err::<(), VerifierError>(VerifierError::QuerySeedProofOfWorkVerificationFailed)
            ==> zeros_of(stage5_log(e, ch, air.ctx(), coin_log(coin)))
            < air.ctx().options.grinding_factor),
        (past_stage5(r) ==> zeros_of(stage5_log(e, ch, air.ctx(), coin_log(coin)))
            >= air.ctx().options.grinding_factor && positions_of(
            e,
            ch,
            air.ctx(),
            coin_log(coin),
        ) is Some),
        (r == Err::<(), VerifierError>(VerifierError::TraceQueryDoesNotMatchCommitment)
            ==> !main_opening_ok(e, ch, air.ctx(), coin_log(coin)) || !aux_opening_ok(
            e,
            ch,
            air.ctx(),
            coin_log(coin),
        )),
        (r == Err::<(), VerifierError>(VerifierError::ConstraintQueryDoesNotMatchCommitment)
            ==> main_opening_ok(e, ch, air.ctx(), coin_log(coin)) && aux_opening_ok(
            e,
            ch,
            air.ctx(),
            coin_log(coin),
        ) && !cons_opening_ok(e, ch, air.ctx(), coin_log(coin))),
        (r is Ok ==> main_opening_ok(e, ch, air.ctx(), coin_log(coin)) && aux_opening_ok(
            e,
            ch,
            air.ctx(),
            coin_log(coin),
        ) && cons_opening_ok(e, ch, air.ctx(), coin_log(coin))),
        (r is Ok ==> fri_accepted(e, ch, air.ctx(), coin_log(coin))),
        (coeff_draws_ok(e, ch, air.ctx(), coin_log(coin)) && !deep_draws_ok(
            e,
            ch,
            air.ctx(),
            coin_log(coin),
        ) ==> r == Err::<(), VerifierError>(VerifierError::RandomCoinError) || r == Err::<
            (),
            VerifierError,
        >(VerifierError::InconsistentOodConstraintEvaluations)),
        (coeff_draws_ok(e, ch, air.ctx(), coin_log(coin)) && deep_draws_ok(
            e,
            ch,
            air.ctx(),
            coin_log(coin),
        ) && zeros_of(stage5_log(e, ch, air.ctx(), coin_log(coin)))
            >= air.ctx().options.grinding_factor && positions_of(
            e,
            ch,
            air.ctx(),
            coin_log(coin),
        ) is None ==> r == Err::<(), VerifierError>(VerifierError::RandomCoinError) || r == Err::<
            (),
            VerifierError,
        >(VerifierError::InconsistentOodConstraintEvaluations) || r == Err::<(), VerifierError>(
            VerifierError::InconsistentLdeDomainSize,
        ) || (r matches Err(x) && x is FriVerificationFailed)),
{
    let ctx = air.context();
    let ghost l0 = coin_log(coin);
    let naux = ctx.aux_widths.len();

    // 1 ----- trace commitment: reseed, derive per-segment randomness,
    // and draw the constraint composition coefficients
    crate::transcript::coin_reseed(&mut coin, &ch.trace_commitments[0]);
    proof {
        assert(coin_log(coin) == stage1_pre_log(ch, l0));
    }
    let mut aux_rand: Vec<Vec<Felt>> = Vec::new();
    if naux > 0 {
        let rand = match crate::transcript::draw_felts(&mut coin, e, ctx.aux_rand_counts[0]) {
            Some(v) => v,
            None => {
                return Err(VerifierError::RandomCoinError);
            },
        };
        aux_rand.push(rand);
        crate::transcript::coin_reseed(&mut coin, &ch.trace_commitments[1]);
    }
    proof {
        assert(stage1_aux_ok(e, ch, air.ctx(), l0));
        assert(coin_log(coin) == stage1_mid_log(e, ch, air.ctx(), l0));
    }
    let n_transition = ctx.main_t_adjustments.len() + ctx.aux_t_adjustments.len();
    let t_ccs = match crate::transcript::draw_pairs(&mut coin, e, n_transition) {
        Some(v) => v,
        None => {
            return Err(VerifierError::RandomCoinError);
        },
    };
    proof {
        assert(Some(t_ccs@) == t_coeffs_of(e, ch, air.ctx(), l0));
        assert(coin_log(coin) == after_t_log(e, ch, air.ctx(), l0));
    }
    let b_ccs = match crate::transcript::draw_pairs(&mut coin, e, ctx.num_assertions) {
        Some(v) => v,
        None => {
            return Err(VerifierError::RandomCoinError);
        },
    };
    proof {
        assert(Some(b_ccs@) == b_coeffs_of(e, ch, air.ctx(), l0));
        assert(coin_log(coin) == after_b_log(e, ch, air.ctx(), l0));
    }
    let coeffs = evaluator::ConstraintCoeffs { transition: t_ccs, boundary: b_ccs };

    // 2 ----- constraint commitment: reseed and draw the out-of-domain
    // point z
    crate::transcript::coin_reseed(&mut coin, &ch.constraint_commitment);
    proof {
        assert(coin_log(coin) == z_pre_log(e, ch, air.ctx(), l0));
    }
    let z = match crate::transcript::draw_felt(&mut coin, e) {
        Some(f) => f,
        None => {
            return Err(VerifierError::RandomCoinError);
        },
    };
    proof {
        assert(Some(z) == z_of(e, ch, air.ctx(), l0));
        assert(coeff_draws_ok(e, ch, air.ctx(), l0));
    }

    // 3 ----- out-of-domain consistency: the constraint value recomputed
    // from the frame must match the committed column values
    let t_evals = air.evaluate_transition(
        e,
        &ch.ood_main_current,
        &ch.ood_main_next,
        &ch.ood_aux_current,
        &ch.ood_aux_next,
        &aux_rand,
        z,
    );
    let bs = air.boundary_constraints(e, &aux_rand);
    let t_div = evaluator::transition_divisor(ctx);
    let ood_value_1 = evaluator::evaluate_constraints(
        e,
        ctx,
        &t_evals.0,
        &t_evals.1,
        &bs,
        &coeffs,
        &t_div,
        &ch.ood_main_current,
        &ch.ood_aux_current,
        z,
    );
    let full_current = concat_row(&ch.ood_main_current, &ch.ood_aux_current);
    let full_next = concat_row(&ch.ood_main_next, &ch.ood_aux_next);
    let h_cur = crate::transcript::hash_row(e, &full_current);
    crate::transcript::coin_reseed(&mut coin, &h_cur);
    let h_next = crate::transcript::hash_row(e, &full_next);
    crate::transcript::coin_reseed(&mut coin, &h_next);
    let ood_value_2 = reduce_ood_evaluations(e, z, &ch.ood_constraint_evaluations);
    let h_evals = crate::transcript::hash_row(e, &ch.ood_constraint_evaluations);
    crate::transcript::coin_reseed(&mut coin, &h_evals);
    proof {
        assert(coin_log(coin) == stage3_log(e, ch, air.ctx(), l0));
    }
    if !(ood_value_1 == ood_value_2) {
        return Err(VerifierError::InconsistentOodConstraintEvaluations);
    }
    proof {
        assert(t_coeffs_of(e, ch, air.ctx(), l0) matches Some(x) && x == coeffs.transition@);
        assert(b_coeffs_of(e, ch, air.ctx(), l0) matches Some(x) && x == coeffs.boundary@);
        assert(z_of(e, ch, air.ctx(), l0) matches Some(x) && x == z);
        assert(ood_constraint_value(
            e,
            air.ctx(),
            t_evals.0@,
            t_evals.1@,
            bs@,
            coeffs.transition@,
            coeffs.boundary@,
            t_div,
            ch.ood_main_current@,
            ch.ood_aux_current@,
            z,
        ) == ood_sum(
            e,
            z,
            ch.ood_constraint_evaluations@,
            ch.ood_constraint_evaluations@.len() as int,
        ));
        assert(t_evals.0@.len() == air.ctx().main_t_adjustments@.len());
        assert(t_evals.1@.len() == air.ctx().aux_t_adjustments@.len());
        assert(bs@.len() == air.ctx().num_assertions);
        assert(ood_matched(e, ch, air.ctx(), l0));
    }

    // 4 ----- low-degree-test commitments: draw the composition
    // coefficients, check the domain agreement, and run the commit phase
    proof {
        assert(ctx.aux_width_sum(0) == 0);
        if naux > 0 {
            assert(ctx.aux_width_sum(1) == ctx.aux_width_sum(0) + ctx.aux_widths@[0]);
        }
    }
    let full_width = ctx.main_width + (if naux > 0 {
        ctx.aux_widths[0]
    } else {
        0
    });
    proof {
        assert(full_width == air.ctx().full_width());
    }
    let cc_trace = match crate::transcript::draw_triples(&mut coin, e, full_width) {
        Some(v) => v,
        None => {
            return Err(VerifierError::RandomCoinError);
        },
    };
    proof {
        assert(t_cc3_val(e, ch, air.ctx(), l0) == cc_trace@);
    }
    let cc_cons = match crate::transcript::draw_felts(&mut coin, e, ctx.ce_blowup) {
        Some(v) => v,
        None => {
            return Err(VerifierError::RandomCoinError);
        },
    };
    proof {
        assert(c_cc_val(e, ch, air.ctx(), l0) == cc_cons@);
    }
    let cc_deg_vec = match crate::transcript::draw_pairs(&mut coin, e, 1) {
        Some(v) => v,
        None => {
            return Err(VerifierError::RandomCoinError);
        },
    };
    let cc_degree = (cc_deg_vec[0].0, cc_deg_vec[0].1);
    proof {
        assert(d_cc_val(e, ch, air.ctx(), l0) == cc_degree);
        assert(deep_draws_ok(e, ch, air.ctx(), l0));
        assert(z_val(e, ch, air.ctx(), l0) == z);
    }
    let cc = composer::DeepCoeffs { trace: cc_trace, constraints: cc_cons, degree: cc_degree };

    let lde = ctx.trace_length * ctx.options.blowup;
    proof {
        crate::air::lemma_pow2_mul(ctx.trace_length as nat, ctx.options.blowup as nat);
    }
    let max_degree = ctx.trace_length - 1;
    // the declared evaluation domain must agree with the low-degree
    // test's own domain, which rounds the tested degree up
    proof {
        crate::air::lemma_spec_pow2_pos(ctx.options.blowup as nat);
        assert(ctx.trace_length <= ctx.trace_length * ctx.options.blowup) by (nonlinear_arith)
            requires
                ctx.options.blowup >= 1,
                ctx.trace_length >= 0,
        ;
    }
    let np = next_pow2(max_degree);
    proof {
        assert(np * ctx.options.blowup <= 0x8000_0000) by (nonlinear_arith)
            requires
                np < 2 * max_degree + 2,
                max_degree < ctx.trace_length,
                ctx.options.blowup >= 1,
                ctx.trace_length * ctx.options.blowup <= 0x4000_0000,
                ctx.trace_length >= 2,
        ;
    }
    if np * ctx.options.blowup != lde {
        return Err(VerifierError::InconsistentLdeDomainSize);
    }
    proof {
        assert(domain_sizes_agree(air.ctx()));
    }
    let fri_state = crate::channel::fri_new(
        e,
        &mut coin,
        &ch.fri_commitments,
        &ch.fri_proof_bytes,
        lde,
        ctx.options.fri_folding,
        ctx.options.fri_max_remainder,
        ctx.options.blowup,
        max_degree,
    );
    let fri_state = match fri_state {
        Ok(st) => st,
        Err(msg) => {
            return Err(VerifierError::FriVerificationFailed(msg));
        },
    };

    // 5 ----- queries: absorb the nonce, enforce the grinding threshold,
    // and draw the query positions
    crate::transcript::coin_reseed_int(&mut coin, ch.pow_nonce);
    proof {
        assert(coin_log(coin) == stage5_log(e, ch, air.ctx(), l0));
    }
    match check_grinding(&coin, ctx.options.grinding_factor) {
        Ok(()) => (),
        Err(err) => {
            return Err(err);
        },
    }
    let positions = match draw_query_positions(&mut coin, ctx.options.num_queries, lde) {
        Ok(v) => v,
        Err(err) => {
            return Err(err);
        },
    };
    proof {
        assert(Some(positions@.map_values(|x: usize| x as int)) == positions_of(
            e,
            ch,
            air.ctx(),
            l0,
        ));
    }

    // 6 ----- opening reads: the queried rows must verify against their
    // commitments at the drawn positions
    if !crate::channel::verify_opening(&ch.trace_commitments[0], &positions, &ch.main_opening) {
        return Err(VerifierError::TraceQueryDoesNotMatchCommitment);
    }
    match &ch.aux_opening {
        Some(o) => {
            if !crate::channel::verify_opening(&ch.trace_commitments[1], &positions, o) {
                return Err(VerifierError::TraceQueryDoesNotMatchCommitment);
            }
        },
        None => (),
    }
    if !crate::channel::verify_opening(&ch.constraint_commitment, &positions, &ch.cons_opening) {
        return Err(VerifierError::ConstraintQueryDoesNotMatchCommitment);
    }
    proof {
        assert(main_opening_ok(e, ch, air.ctx(), l0));
        assert(aux_opening_ok(e, ch, air.ctx(), l0));
        assert(cons_opening_ok(e, ch, air.ctx(), l0));
    }

    // 7 ----- DEEP composition and the low-degree test
    let rows = concat_rows(&ch.main_rows, &ch.aux_rows);
    let log_trace = crate::air::log2_exact(ctx.trace_length);
    proof {
        crate::air::lemma_log_trace_length(air.ctx(), log_trace);
    }
    let g_trace = crate::air::get_root_of_unity(log_trace);
    let log_lde = crate::air::log2_exact(lde);
    proof {
        crate::air::lemma_log_lde(air.ctx(), log_lde);
        crate::air::lemma_log_lde_value(air.ctx(), log_lde);
    }
    let g_lde = crate::air::get_root_of_unity(log_lde);
    let gz = z.mul(e, crate::field::felt_base(g_trace));
    let m = ch.ood_constraint_evaluations.len();
    let z_m = z.pow(e, m as u64);
    let use_conj = match e {
        Ext::Base => false,
        Ext::Quad => true,
        Ext::Cube => true,
    };
    let deep_evaluations = composer::compose_deep(
        e,
        &positions,
        &rows,
        &full_current,
        &full_next,
        &cc,
        ctx.main_width,
        use_conj,
        &ch.cons_rows,
        &ch.ood_constraint_evaluations,
        g_lde,
        crate::field::FIELD_GENERATOR,
        z,
        gz,
        z_m,
    );
    let ghost gst = fri_state;
    let verdict = crate::channel::fri_verify(fri_state, &deep_evaluations, &positions);
    proof {
        if verdict is None {
            let ctx0 = air.ctx();
            let ghost pv = pos_val(e, ch, ctx0, l0);
            assert(pv == positions@.map_values(|x: usize| x as int));
            assert(g_lde == root_of_unity_spec(ctx0.log_lde_size()));
            assert(gz == fe_mul(e, z, fe1(root_of_unity_spec(ctx0.log_trace_length()))));
            assert(z_m == fe_pow(e, z, ctx0.ce_blowup as nat));
            assert(use_conj == use_conj_spec(e));
            assert forall|j: int| 0 <= j < positions@.len() implies #[trigger] deep_evaluations@[j]
                == deep_evals_payload(e, ch, ctx0, l0)[j] by {
                assert(full_row_at(ch, ctx0, j) == rows@[j]@);
                assert(pv[j] == positions@[j] as int);
            }
            assert(deep_evaluations@ =~= deep_evals_payload(e, ch, ctx0, l0));
            assert(fri_state_verdict(gst, flat3(deep_evaluations@), crate::channel::positions_rep(positions@)) is None);
            assert(crate::channel::positions_rep(positions@) == pv);
            assert(fri_state_wf(gst));
            assert(fri_state_domain(gst) == ctx0.lde_domain_size());
            assert(fri_accepted(e, ch, ctx0, l0));
        }
    }
    match verdict {
        None => Ok(()),
        Some(msg) => Err(VerifierError::FriVerificationFailed(msg)),
    }
}

} // verus!
