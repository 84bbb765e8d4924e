//! The capability interface to a computation's algebraic intermediate
//! representation.
//!
//! The verifier never evaluates a computation's own constraints; it only
//! needs their raw evaluations over an out-of-domain frame, together with
//! enough shape data — constraint counts, degree adjustments, divisors —
//! to combine them.  A computation supplies that through the [`Air`]
//! trait; everything else in the protocol is generic over it.

use vstd::prelude::*;

verus! {

use crate::field::Ext;
use crate::field::Felt;
use crate::field::P;
use crate::field::fe_in;
use crate::transcript::spec_pow2;

/// Protocol parameters a proof was produced under.
#[derive(Clone, Debug)]
pub struct ProofOptions {
    /// Number of queried positions in the low-degree-extension domain.
    pub num_queries: usize,
    /// Blowup factor of the low-degree extension.
    pub blowup: usize,
    /// Required number of leading zeros of the query seed.
    pub grinding_factor: u32,
    /// Field extension the protocol runs over.
    pub extension: Ext,
    /// Folding factor of the low-degree test.
    pub fri_folding: usize,
    /// Largest remainder (final layer) size of the low-degree test.
    pub fri_max_remainder: usize,
}

impl ProofOptions {
    /// Well-formedness: the bounds under which the protocol and the
    /// low-degree test are defined.
    pub open spec fn wf(self) -> bool {
        &&& self.num_queries >= 1
        &&& spec_pow2(self.blowup as nat)
        &&& (self.fri_folding == 2 || self.fri_folding == 4 || self.fri_folding == 8
            || self.fri_folding == 16)
        &&& self.fri_max_remainder >= 2 * self.fri_folding
        &&& spec_pow2(self.fri_max_remainder as nat)
    }
}

/// A constraint divisor `(x^k - b) / prod_j (x - e_j)`, evaluated at the
/// out-of-domain point.  Transition constraints use
/// `(x^n - 1) / (x - g^(n-1))`; a boundary assertion at step `s` uses
/// `(x - g^s)`.
#[derive(Clone, Debug)]
pub struct Divisor {
    /// Exponent `k` of the numerator term.
    pub xexp: u64,
    /// Constant `b` subtracted in the numerator, a base-field coordinate.
    pub constant: u64,
    /// Exemption points `e_j`, base-field coordinates.
    pub exemptions: Vec<u64>,
}

impl Divisor {
    /// Well-formedness: canonical coordinates and a non-trivial numerator.
    pub open spec fn wf(self) -> bool {
        &&& self.xexp >= 1
        &&& self.constant < P
        &&& forall|i: int| 0 <= i < self.exemptions@.len() ==> #[trigger] self.exemptions@[i] < P
    }
}

/// One boundary constraint: the asserted column, the value polynomial to
/// evaluate at the out-of-domain point, the degree-adjustment exponent and
/// the divisor.
#[derive(Clone, Debug)]
pub struct BoundaryInfo {
    /// True when the column indexes an auxiliary segment row.
    pub is_aux: bool,
    /// Column of the (main or auxiliary) out-of-domain row asserted on.
    pub column: usize,
    /// Coefficients of the asserted value polynomial, low degree first.
    pub poly: Vec<Felt>,
    /// Degree-adjustment exponent for this constraint.
    pub adjustment: u64,
    /// Divisor of this constraint.
    pub divisor: Divisor,
}

impl BoundaryInfo {
    /// Well-formedness against the widths of the two trace row parts and
    /// the extension degree in use.
    pub open spec fn wf(self, e: Ext, main_width: int, aux_width: int) -> bool {
        &&& if self.is_aux {
            self.column < aux_width
        } else {
            self.column < main_width
        }
        &&& forall|i: int| 0 <= i < self.poly@.len() ==> fe_in(e, #[trigger] self.poly@[i])
        &&& self.divisor.wf()
    }
}

/// Shape data of a computation: everything the protocol itself needs to
/// know about the trace and its constraints.
#[derive(Clone, Debug)]
pub struct AirContext {
    /// Number of steps in the execution trace; a power of two.
    pub trace_length: usize,
    /// Number of columns of the main trace segment.
    pub main_width: usize,
    /// Number of columns of each auxiliary trace segment, in order.
    pub aux_widths: Vec<usize>,
    /// Number of random elements each auxiliary segment is built from.
    pub aux_rand_counts: Vec<usize>,
    /// Degree-adjustment exponent of each main transition constraint.
    pub main_t_adjustments: Vec<u64>,
    /// Degree-adjustment exponent of each auxiliary transition constraint.
    pub aux_t_adjustments: Vec<u64>,
    /// Number of boundary assertions (and boundary coefficient pairs).
    pub num_assertions: usize,
    /// Number of steps at the end of the trace exempt from transition
    /// constraints.
    pub transition_exemptions: usize,
    /// Number of columns of the constraint composition polynomial.
    pub ce_blowup: usize,
    /// Protocol parameters.
    pub options: ProofOptions,
}

impl AirContext {
    /// Size of the low-degree-extension domain.
    pub open spec fn lde_domain_size(self) -> int {
        self.trace_length * self.options.blowup
    }

    /// Degree of the trace polynomials.
    pub open spec fn trace_poly_degree(self) -> int {
        self.trace_length - 1
    }

    /// Total number of trace columns over all segments.
    pub open spec fn full_width(self) -> int {
        self.main_width + self.aux_width_sum(self.aux_widths@.len() as int)
    }

    /// Sum of the first `n` auxiliary widths.
    pub open spec fn aux_width_sum(self, n: int) -> int
        decreases n,
    {
        if n <= 0 {
            0
        } else {
            self.aux_width_sum(n - 1) + self.aux_widths@[n - 1]
        }
    }

    /// Number of transition constraints over main and auxiliary segments.
    pub open spec fn num_transition_constraints(self) -> int {
        self.main_t_adjustments@.len() as int + self.aux_t_adjustments@.len() as int
    }

    /// Well-formedness of the shape data.
    pub open spec fn wf(self) -> bool {
        &&& spec_pow2(self.trace_length as nat)
        &&& self.trace_length >= 2
        &&& self.main_width >= 1
        &&& self.aux_widths@.len() == self.aux_rand_counts@.len()
        &&& self.aux_widths@.len() <= 1
        &&& self.num_transition_constraints() < 0x100_0000
        &&& self.num_assertions < 0x100_0000
        &&& self.full_width() < 0x100_0000
        &&& self.ce_blowup < 0x100_0000
        &&& self.transition_exemptions >= 1
        &&& self.transition_exemptions < self.trace_length
        &&& self.ce_blowup >= 1
        &&& self.num_assertions >= 1
        &&& self.options.wf()
        &&& self.options.num_queries < 255
        &&& self.full_width() < 255
        &&& self.ce_blowup < 255
        &&& self.num_queries_ok()
        &&& self.lde_domain_size() <= 0x4000_0000
        &&& fri_rem_spec(
            self.lde_domain_size(),
            self.options.fri_folding as int,
            self.options.fri_max_remainder as int,
        ) >= self.options.fri_folding
    }

    /// The queried-position count fits the low-degree-extension domain.
    pub open spec fn num_queries_ok(self) -> bool {
        self.options.num_queries < self.lde_domain_size()
    }

    /// Base-two logarithm of the trace length.
    pub open spec fn log_trace_length(self) -> u32 {
        choose|k: u32| vstd::arithmetic::power2::pow2(k as nat) == self.trace_length
    }

    /// Base-two logarithm of the low-degree-extension domain size.
    pub open spec fn log_lde_size(self) -> u32 {
        choose|k: u32| vstd::arithmetic::power2::pow2(k as nat) == self.lde_domain_size()
    }
}

/// A computed logarithm of the low-degree-extension domain size equals
/// the abstract one.
pub proof fn lemma_log_lde_value(ctx: AirContext, log_n: u32)
    requires
        ctx.wf(),
        vstd::arithmetic::power2::pow2(log_n as nat) == ctx.lde_domain_size(),
        log_n <= 63,
    ensures
        log_n == ctx.log_lde_size(),
{
    assert(exists|k: u32| vstd::arithmetic::power2::pow2(k as nat) == ctx.lde_domain_size()) by {
        assert(vstd::arithmetic::power2::pow2(log_n as nat) == ctx.lde_domain_size());
    }
    let k = ctx.log_lde_size();
    assert(vstd::arithmetic::power2::pow2(k as nat) == ctx.lde_domain_size());
    lemma_pow2_injective(k as nat, log_n as nat);
}

/// Powers of two are injective in their exponent.
pub proof fn lemma_pow2_injective(a: nat, b: nat)
    requires
        vstd::arithmetic::power2::pow2(a) == vstd::arithmetic::power2::pow2(b),
    ensures
        a == b,
{
    if a < b {
        vstd::arithmetic::power2::lemma_pow2_strictly_increases(a, b);
    }
    if b < a {
        vstd::arithmetic::power2::lemma_pow2_strictly_increases(b, a);
    }
}

/// A computed logarithm of the trace length equals the abstract one, and
/// stays within the two-adicity of the field.
pub proof fn lemma_log_trace_length(ctx: AirContext, log_n: u32)
    requires
        ctx.wf(),
        vstd::arithmetic::power2::pow2(log_n as nat) == ctx.trace_length,
        log_n <= 63,
    ensures
        log_n == ctx.log_trace_length(),
        log_n <= crate::field::TWO_ADICITY,
{
    assert(exists|k: u32| vstd::arithmetic::power2::pow2(k as nat) == ctx.trace_length) by {
        assert(vstd::arithmetic::power2::pow2(log_n as nat) == ctx.trace_length);
    }
    let k = ctx.log_trace_length();
    assert(vstd::arithmetic::power2::pow2(k as nat) == ctx.trace_length);
    lemma_pow2_injective(k as nat, log_n as nat);
    lemma_spec_pow2_pos(ctx.options.blowup as nat);
    assert(ctx.trace_length <= ctx.trace_length * ctx.options.blowup) by (nonlinear_arith)
        requires
            ctx.options.blowup >= 1,
            ctx.trace_length >= 1,
    ;
    if log_n > crate::field::TWO_ADICITY {
        vstd::arithmetic::power2::lemma_pow2_strictly_increases(
            crate::field::TWO_ADICITY as nat,
            log_n as nat,
        );
        vstd::arithmetic::power2::lemma2_to64_rest();
        assert(vstd::arithmetic::power2::pow2(39) == 0x80_0000_0000);
    }
}

/// The capability interface a computation provides to the verifier.
///
/// Implementations are supplied by the computation's own crate and are not
/// verified here; the contracts below only fix the shapes the protocol
/// depends on.
pub trait Air {
    /// Shape data of the computation, as an abstract value.
    spec fn ctx(&self) -> AirContext;

    /// Shape data of the computation.
    fn context(&self) -> (r: &AirContext)
        ensures
            *r == self.ctx(),
            self.ctx().wf(),
    ;

    /// Raw evaluations of the main and auxiliary transition constraints
    /// over the given out-of-domain frame at `z`.
    fn evaluate_transition(
        &self,
        e: Ext,
        main_cur: &Vec<Felt>,
        main_next: &Vec<Felt>,
        aux_cur: &Vec<Felt>,
        aux_next: &Vec<Felt>,
        aux_rand: &Vec<Vec<Felt>>,
        z: Felt,
    ) -> (r: (Vec<Felt>, Vec<Felt>))
        requires
            fe_in(e, z),
            main_cur@.len() == self.ctx().main_width,
            main_next@.len() == self.ctx().main_width,
            forall|i: int| 0 <= i < main_cur@.len() ==> fe_in(e, #[trigger] main_cur@[i]),
            forall|i: int| 0 <= i < main_next@.len() ==> fe_in(e, #[trigger] main_next@[i]),
            forall|i: int| 0 <= i < aux_cur@.len() ==> fe_in(e, #[trigger] aux_cur@[i]),
            forall|i: int| 0 <= i < aux_next@.len() ==> fe_in(e, #[trigger] aux_next@[i]),
        ensures
            r.0@.len() == self.ctx().main_t_adjustments@.len(),
            r.1@.len() == self.ctx().aux_t_adjustments@.len(),
            forall|i: int| 0 <= i < r.0@.len() ==> fe_in(e, #[trigger] r.0@[i]),
            forall|i: int| 0 <= i < r.1@.len() ==> fe_in(e, #[trigger] r.1@[i]),
    ;

    /// The boundary constraints of the computation, one per assertion,
    /// instantiated with the auxiliary random elements.
    fn boundary_constraints(&self, e: Ext, aux_rand: &Vec<Vec<Felt>>) -> (r: Vec<BoundaryInfo>)
        ensures
            r@.len() == self.ctx().num_assertions,
            forall|i: int|
                0 <= i < r@.len() ==> (#[trigger] r@[i]).wf(
                    e,
                    self.ctx().main_width as int,
                    self.ctx().aux_width_sum(self.ctx().aux_widths@.len() as int),
                ),
    ;
}

/// The power of two with the given exponent, as an exact machine value.
pub fn pow2_u64(k: u32) -> (r: u64)
    requires
        k <= 63,
    ensures
        r == vstd::arithmetic::power2::pow2(k as nat),
{
    let mut exp: u64 = 1;
    let mut j: u32 = 0;
    proof {
        vstd::arithmetic::power2::lemma2_to64();
    }
    while j < k
        invariant
            j <= k,
            k <= 63,
            exp == vstd::arithmetic::power2::pow2(j as nat),
        decreases k - j,
    {
        proof {
            vstd::arithmetic::power2::lemma_pow2_strictly_increases(j as nat + 1, 64);
            vstd::arithmetic::power2::lemma_pow2_unfold(j as nat + 1);
            vstd::arithmetic::power2::lemma2_to64();
        }
        exp = exp * 2;
        j = j + 1;
    }
    exp
}

/// The `2^log_n`-th root of unity the protocol uses: the fixed two-adic
/// root raised to `2^(TWO_ADICITY - log_n)`.
pub open spec fn root_of_unity_spec(log_n: u32) -> u64 {
    crate::field::fe_pow(
        Ext::Base,
        crate::field::fe1(crate::field::TWO_ADIC_ROOT),
        vstd::arithmetic::power2::pow2((crate::field::TWO_ADICITY - log_n) as nat),
    ).a
}

/// Returns the root of unity generating the evaluation domain of size
/// `2^log_n`.
pub fn get_root_of_unity(log_n: u32) -> (r: u64)
    requires
        log_n <= crate::field::TWO_ADICITY,
    ensures
        r == root_of_unity_spec(log_n),
        r < P,
{
    let exp = pow2_u64(crate::field::TWO_ADICITY - log_n);
    crate::field::base_exp(crate::field::TWO_ADIC_ROOT, exp)
}

/// Base-two logarithm of a power of two.
pub fn log2_exact(n: usize) -> (r: u32)
    requires
        spec_pow2(n as nat),
    ensures
        vstd::arithmetic::power2::pow2(r as nat) == n,
        r <= 63,
{
    let mut m: usize = n;
    let mut r: u32 = 0;
    proof {
        lemma_spec_pow2_pos(n as nat);
        vstd::arithmetic::power2::lemma2_to64();
    }
    while m > 1
        invariant
            spec_pow2(m as nat),
            m >= 1,
            r <= 63,
            m * vstd::arithmetic::power2::pow2(r as nat) == n,
            vstd::arithmetic::power2::pow2(r as nat) <= n,
        decreases m,
    {
        proof {
            let p = vstd::arithmetic::power2::pow2(r as nat);
            let p1 = vstd::arithmetic::power2::pow2(r as nat + 1);
            vstd::arithmetic::power2::lemma_pow2_pos(r as nat + 1);
            vstd::arithmetic::power2::lemma_pow2_unfold(r as nat + 1);
            assert(p1 == 2 * p);
            assert(m % 2 == 0);
            assert((m / 2) * p1 == m * p) by (nonlinear_arith)
                requires
                    m % 2 == 0,
                    m >= 2,
                    p1 == 2 * p,
                    p >= 0,
            ;
            assert(p1 <= n) by (nonlinear_arith)
                requires
                    (m / 2) * p1 == n,
                    m / 2 >= 1,
                    p1 > 0,
            ;
            if r >= 63 {
                assert(vstd::arithmetic::power2::pow2(64) <= n) by {
                    assert(r == 63);
                    assert(p1 == vstd::arithmetic::power2::pow2(64));
                };
                assert(n < vstd::arithmetic::power2::pow2(64)) by {
                    vstd::arithmetic::power2::lemma2_to64_rest();
                };
            }
        }
        m = m / 2;
        r = r + 1;
    }
    r
}

/// A power of two is positive.
pub proof fn lemma_spec_pow2_pos(n: nat)
    requires
        spec_pow2(n),
    ensures
        n >= 1,
{
}

/// A product of two powers of two is a power of two.
pub proof fn lemma_pow2_mul(a: nat, b: nat)
    requires
        spec_pow2(a),
        spec_pow2(b),
    ensures
        spec_pow2(a * b),
    decreases a,
{
    lemma_spec_pow2_pos(a);
    lemma_spec_pow2_pos(b);
    if a == 1 {
        assert(a * b == b) by (nonlinear_arith)
            requires
                a == 1,
        ;
    } else {
        lemma_pow2_mul(a / 2, b);
        assert(a * b == 2 * ((a / 2) * b)) by (nonlinear_arith)
            requires
                a % 2 == 0,
                a >= 2,
        ;
        assert((a * b) % 2 == 0 && (a * b) / 2 == (a / 2) * b) by (nonlinear_arith)
            requires
                a * b == 2 * ((a / 2) * b),
        ;
        assert(a * b >= 2) by (nonlinear_arith)
            requires
                a >= 2,
                b >= 1,
        ;
    }
}

/// A computed logarithm of the low-degree-extension domain size stays
/// within the two-adicity of the field.
pub proof fn lemma_log_lde(ctx: AirContext, log_n: u32)
    requires
        ctx.wf(),
        vstd::arithmetic::power2::pow2(log_n as nat) == ctx.lde_domain_size(),
        log_n <= 63,
    ensures
        log_n <= crate::field::TWO_ADICITY,
{
    if log_n > crate::field::TWO_ADICITY {
        vstd::arithmetic::power2::lemma_pow2_strictly_increases(
            crate::field::TWO_ADICITY as nat,
            log_n as nat,
        );
        vstd::arithmetic::power2::lemma2_to64_rest();
        assert(vstd::arithmetic::power2::pow2(39) == 0x80_0000_0000);
    }
}

/// Number of folding layers the low-degree test uses for a domain of the
/// given size: fold until the domain fits the remainder bound.
pub open spec fn fri_layers_spec(domain: int, folding: int, max_rem: int) -> int
    decreases domain,
    when folding >= 2 && max_rem >= 1
    via fri_layers_spec_dec
{
    if domain > max_rem {
        1 + fri_layers_spec(domain / folding, folding, max_rem)
    } else {
        0
    }
}

#[via_fn]
proof fn fri_layers_spec_dec(domain: int, folding: int, max_rem: int) {
    if domain > max_rem {
        assert(0 <= domain / folding < domain) by (nonlinear_arith)
            requires
                folding >= 2,
                domain >= 2,
        ;
    }
}

/// Size of the low-degree test's remainder (final) layer for a domain of
/// the given size.
pub open spec fn fri_rem_spec(domain: int, folding: int, max_rem: int) -> int
    decreases domain,
    when folding >= 2 && max_rem >= 1
    via fri_rem_spec_dec
{
    if domain > max_rem {
        fri_rem_spec(domain / folding, folding, max_rem)
    } else {
        domain
    }
}

#[via_fn]
proof fn fri_rem_spec_dec(domain: int, folding: int, max_rem: int) {
    if domain > max_rem {
        assert(0 <= domain / folding < domain) by (nonlinear_arith)
            requires
                folding >= 2,
                domain >= 2,
        ;
    }
}

/// Computes the low-degree test's layer count and remainder size for a
/// domain of the given size.
pub fn fri_shape_counts(domain: usize, folding: usize, max_rem: usize) -> (r: (usize, usize))
    requires
        folding >= 2,
        max_rem >= 2 * folding,
        domain >= 1,
    ensures
        r.0 == fri_layers_spec(domain as int, folding as int, max_rem as int),
        r.1 == fri_rem_spec(domain as int, folding as int, max_rem as int),
        r.0 <= domain,
        1 <= r.1 <= domain,
    decreases domain,
{
    if domain > max_rem {
        proof {
            assert(1 <= domain / folding < domain) by (nonlinear_arith)
                requires
                    folding >= 2,
                    domain > max_rem,
                    max_rem >= 2 * folding,
            ;
        }
        let inner = fri_shape_counts(domain / folding, folding, max_rem);
        (inner.0 + 1, inner.1)
    } else {
        (0, domain)
    }
}

/// The smallest power of two at least `n`: there is exactly one power of
/// two in `[n, 2n)`.
pub open spec fn next_pow2_spec(n: int) -> int {
    (choose|p: nat| (#[trigger] spec_pow2(p)) && p >= n && p < 2 * n) as int
}

/// Two powers of two within a factor of two of each other are equal.
pub proof fn lemma_pow2_unique(a: nat, b: nat)
    requires
        spec_pow2(a),
        spec_pow2(b),
        a <= b < 2 * a,
    ensures
        a == b,
    decreases a,
{
    if a == 1 {
        assert(b == 1);
    } else {
        assert(a % 2 == 0 && spec_pow2(a / 2));
        if b == 1 {
            assert(a <= 1);
        } else {
            assert(b % 2 == 0 && spec_pow2(b / 2));
            assert(a / 2 <= b / 2 < 2 * (a / 2)) by (nonlinear_arith)
                requires
                    a % 2 == 0,
                    b % 2 == 0,
                    a <= b < 2 * a,
                    a >= 2,
            ;
            lemma_pow2_unique(a / 2, b / 2);
        }
    }
}

} // verus!
