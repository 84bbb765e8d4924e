//! The Fiat-Shamir transcript (public coin).
//!
//! The coin itself comes from the hashing library: it keeps a running hash
//! seed and a counter, absorbs prover messages, and deterministically
//! derives field elements and index sets.  Verified code sees the coin
//! through an abstract *log* of the operations applied to it; every drawn
//! value is a fixed function of that log, which is what makes the
//! transcript a sound replacement for an interactive verifier.

use vstd::prelude::*;

verus! {

use winter_crypto::RandomCoin;
use winter_crypto::Hasher;
use winter_crypto::hashers::Blake3_256;
use winter_math::StarkField;
use winter_math::fields::f62::BaseElement;
use winter_math::fields::QuadExtension;
use winter_math::fields::CubeExtension;

use crate::field::Ext;
use crate::field::Felt;
use crate::field::P;
use crate::field::fe1;
use crate::field::fe2;
use crate::field::fe3;
use crate::field::fe_in;

/// The public coin, monomorphised to the protocol's base field and hash.
///
/// The random coin of the hashing library cannot be declared to the
/// verifier (its generics are bounded by outside traits), so it is held
/// opaquely in a private field and reached only through the trusted
/// operations below.
#[verifier::external_body]
pub struct Coin {
    pub(crate) inner: RandomCoin<BaseElement, Blake3_256<BaseElement>>,
}

/// A 32-byte hash commitment as plain bytes.
#[derive(Clone, Debug, PartialEq, Eq)]
pub struct Digest {
    pub bytes: Vec<u8>,
}

impl Digest {
    /// Well-formedness: exactly 32 bytes.
    pub open spec fn wf(self) -> bool {
        self.bytes@.len() == 32
    }

    /// Wraps 32 bytes as a commitment; rejects any other length.
    pub fn new(bytes: Vec<u8>) -> (r: Option<Digest>)
        ensures
            (r matches Some(d) ==> d.wf() && d.bytes@ == bytes@),
            (r is None <==> bytes@.len() != 32),
    {
        if bytes.len() == 32 {
            Some(Digest { bytes })
        } else {
            None
        }
    }
}

/// Bytes of a digest or seed, as abstract log symbols.
pub open spec fn ints_of_bytes(s: Seq<u8>) -> Seq<int> {
    s.map_values(|b: u8| b as int)
}

/// Log of a freshly seeded coin.
pub open spec fn init_log(seed: Seq<u8>) -> Seq<int> {
    seq![0int, seed.len() as int] + ints_of_bytes(seed)
}

/// Log entry for absorbing a 32-byte commitment.
pub open spec fn ev_reseed(d: Seq<u8>) -> Seq<int> {
    seq![1int] + ints_of_bytes(d)
}

/// Log entry for absorbing a plain integer (the nonce).
pub open spec fn ev_reseed_int(v: u64) -> Seq<int> {
    seq![2int, v as int]
}

/// Numeric tag of an extension degree.
pub open spec fn ext_id(e: Ext) -> int {
    match e {
        Ext::Base => 0,
        Ext::Quad => 1,
        Ext::Cube => 2,
    }
}

/// Log entry for drawing one element of the given degree.
pub open spec fn ev_draw(e: Ext) -> Seq<int> {
    seq![3int, ext_id(e)]
}

/// Log entry for drawing a set of integers.
pub open spec fn ev_draw_ints(count: int, bound: int) -> Seq<int> {
    seq![4int, count, bound]
}

/// The operation log a coin has absorbed since it was seeded.
pub uninterp spec fn coin_log(c: Coin) -> Seq<int>;

/// Grinding value of a coin state: trailing zeros of the first seed word.
pub uninterp spec fn zeros_of(log: Seq<int>) -> u32;

/// Result of drawing one base-field element at the given state.
pub uninterp spec fn draw1_of(log: Seq<int>) -> Option<u64>;

/// Result of drawing one quadratic-extension element at the given state.
pub uninterp spec fn draw2_of(log: Seq<int>) -> Option<(u64, u64)>;

/// Result of drawing one cubic-extension element at the given state.
pub uninterp spec fn draw3_of(log: Seq<int>) -> Option<(u64, u64, u64)>;

/// Result of drawing a set of distinct indices at the given state.
pub uninterp spec fn draw_ints_of(log: Seq<int>, count: int, bound: int) -> Option<Seq<int>>;

/// Relies on `RandomCoin::new` of the hashing library: seeds the coin with
/// the hash of the given bytes and resets its counter.
#[verifier::external_body]
pub fn coin_new(seed: &Vec<u8>) -> (c: Coin)
    ensures
        coin_log(c) == init_log(seed@),
{
    Coin { inner: RandomCoin::new(seed.as_slice()) }
}

/// Relies on `RandomCoin::reseed` of the hashing library: merges a
/// commitment into the running seed and resets the counter.
#[verifier::external_body]
pub fn coin_reseed(c: &mut Coin, d: &Digest)
    requires
        d.wf(),
    ensures
        coin_log(*final(c)) == coin_log(*old(c)) + ev_reseed(d.bytes@),
{
    let mut r = winter_utils::SliceReader::new(d.bytes.as_slice());
    let dig = <<Blake3_256<BaseElement> as Hasher>::Digest as winter_utils::Deserializable>::read_from(
        &mut r,
    ).unwrap();
    c.inner.reseed(dig);
}

/// Relies on `RandomCoin::reseed_with_int` of the hashing library: merges a
/// plain integer into the running seed and resets the counter.
#[verifier::external_body]
pub fn coin_reseed_int(c: &mut Coin, v: u64)
    ensures
        coin_log(*final(c)) == coin_log(*old(c)) + ev_reseed_int(v),
{
    c.inner.reseed_with_int(v);
}

/// Relies on `RandomCoin::leading_zeros` of the hashing library: the number
/// of trailing zero bits in the first word of the seed, a fixed function of
/// the coin state, at most 64.
#[verifier::external_body]
pub fn coin_leading_zeros(c: &Coin) -> (r: u32)
    ensures
        r == zeros_of(coin_log(*c)),
        r <= 64,
{
    c.inner.leading_zeros()
}

/// Relies on `RandomCoin::draw` of the hashing library: derives the next
/// base-field element from the coin state by rejection sampling, failing
/// only if no valid element appears within the library's retry bound.
#[verifier::external_body]
pub fn coin_draw1(c: &mut Coin) -> (r: Option<u64>)
    ensures
        coin_log(*final(c)) == coin_log(*old(c)) + ev_draw(Ext::Base),
        r == draw1_of(coin_log(*old(c))),
        (r matches Some(v) ==> v < P),
{
    match c.inner.draw::<BaseElement>() {
        Ok(e) => Some(e.as_int()),
        Err(_) => None,
    }
}

/// Relies on `RandomCoin::draw` of the hashing library, for the quadratic
/// extension; the two canonical coordinates are read back from the
/// element's canonical serialization.
#[verifier::external_body]
pub fn coin_draw2(c: &mut Coin) -> (r: Option<(u64, u64)>)
    ensures
        coin_log(*final(c)) == coin_log(*old(c)) + ev_draw(Ext::Quad),
        r == draw2_of(coin_log(*old(c))),
        (r matches Some(v) ==> v.0 < P && v.1 < P),
{
    match c.inner.draw::<QuadExtension<BaseElement>>() {
        Ok(e) => {
            let bytes = winter_utils::Serializable::to_bytes(&e);
            Some((
                u64::from_le_bytes(bytes[0..8].try_into().unwrap()),
                u64::from_le_bytes(bytes[8..16].try_into().unwrap()),
            ))
        },
        Err(_) => None,
    }
}

/// Relies on `RandomCoin::draw` of the hashing library, for the cubic
/// extension; coordinates read back from the canonical serialization.
#[verifier::external_body]
pub fn coin_draw3(c: &mut Coin) -> (r: Option<(u64, u64, u64)>)
    ensures
        coin_log(*final(c)) == coin_log(*old(c)) + ev_draw(Ext::Cube),
        r == draw3_of(coin_log(*old(c))),
        (r matches Some(v) ==> v.0 < P && v.1 < P && v.2 < P),
{
    match c.inner.draw::<CubeExtension<BaseElement>>() {
        Ok(e) => {
            let bytes = winter_utils::Serializable::to_bytes(&e);
            Some((
                u64::from_le_bytes(bytes[0..8].try_into().unwrap()),
                u64::from_le_bytes(bytes[8..16].try_into().unwrap()),
                u64::from_le_bytes(bytes[16..24].try_into().unwrap()),
            ))
        },
        Err(_) => None,
    }
}

/// True for the powers of two.
pub open spec fn spec_pow2(n: nat) -> bool
    decreases n,
{
    if n == 0 {
        false
    } else if n == 1 {
        true
    } else {
        n % 2 == 0 && spec_pow2(n / 2)
    }
}

/// Decides whether a size is a power of two.
pub fn is_pow2(n: usize) -> (r: bool)
    ensures
        r == spec_pow2(n as nat),
{
    if n == 0 {
        return false;
    }
    let mut m: usize = n;
    while m > 1
        invariant
            m >= 1,
            spec_pow2(n as nat) == spec_pow2(m as nat),
        decreases m,
    {
        if m % 2 == 1 {
            return false;
        }
        m = m / 2;
    }
    true
}

/// Relies on `RandomCoin::draw_integers` of the hashing library: derives
/// the requested number of distinct indices below `bound`, each taken from
/// the low bits of successive pseudo-random words, skipping repeats, and
/// failing once the library's retry bound is exhausted.  The library
/// panics unless `bound` is a power of two larger than the count, so those
/// inputs are excluded here.
#[verifier::external_body]
pub fn coin_draw_ints(c: &mut Coin, count: usize, bound: usize) -> (r: Option<Vec<usize>>)
    requires
        spec_pow2(bound as nat),
        1 <= count < bound,
    ensures
        coin_log(*final(c)) == coin_log(*old(c)) + ev_draw_ints(count as int, bound as int),
        (r is None <==> draw_ints_of(coin_log(*old(c)), count as int, bound as int) is None),
        (r matches Some(v) ==> {
            &&& Some(v@.map_values(|x: usize| x as int)) == draw_ints_of(
                coin_log(*old(c)),
                count as int,
                bound as int,
            )
            &&& v@.len() == count
            &&& forall|i: int| 0 <= i < v@.len() ==> #[trigger] v@[i] < bound
            &&& forall|i: int, j: int| 0 <= i < j < v@.len() ==> v@[i] != v@[j]
        }),
{
    match c.inner.draw_integers(count, bound) {
        Ok(v) => Some(v),
        Err(_) => None,
    }
}

/// What one draw of the given degree yields, as a field element.
pub open spec fn draw_of(e: Ext, log: Seq<int>) -> Option<Felt> {
    match e {
        Ext::Base => match draw1_of(log) {
            Some(v) => Some(fe1(v)),
            None => None,
        },
        Ext::Quad => match draw2_of(log) {
            Some(v) => Some(fe2(v.0, v.1)),
            None => None,
        },
        Ext::Cube => match draw3_of(log) {
            Some(v) => Some(fe3(v.0, v.1, v.2)),
            None => None,
        },
    }
}

/// What a run of `n` draws of the given degree yields.
pub open spec fn draws_of(e: Ext, log: Seq<int>, n: nat) -> Option<Seq<Felt>>
    decreases n,
{
    if n == 0 {
        Some(Seq::empty())
    } else {
        match draw_of(e, log) {
            None => None,
            Some(f) => match draws_of(e, log + ev_draw(e), (n - 1) as nat) {
                None => None,
                Some(rest) => Some(seq![f] + rest),
            },
        }
    }
}

/// The log after `n` draws of the given degree.
pub open spec fn log_after_draws(e: Ext, log: Seq<int>, n: nat) -> Seq<int>
    decreases n,
{
    if n == 0 {
        log
    } else {
        log_after_draws(e, log + ev_draw(e), (n - 1) as nat)
    }
}

/// Draws one element of the given degree from the coin.
pub fn draw_felt(c: &mut Coin, e: Ext) -> (r: Option<Felt>)
    ensures
        coin_log(*final(c)) == coin_log(*old(c)) + ev_draw(e),
        r == draw_of(e, coin_log(*old(c))),
        (r matches Some(f) ==> fe_in(e, f)),
{
    match e {
        Ext::Base => match coin_draw1(c) {
            Some(v) => Some(Felt { a: v, b: 0, c: 0 }),
            None => None,
        },
        Ext::Quad => match coin_draw2(c) {
            Some(v) => Some(Felt { a: v.0, b: v.1, c: 0 }),
            None => None,
        },
        Ext::Cube => match coin_draw3(c) {
            Some(v) => Some(Felt { a: v.0, b: v.1, c: v.2 }),
            None => None,
        },
    }
}

/// Draws `count` elements of the given degree, in order; fails as soon as
/// one draw fails.
pub fn draw_felts(c: &mut Coin, e: Ext, count: usize) -> (r: Option<Vec<Felt>>)
    ensures
        (r matches Some(v) ==> {
            &&& Some(v@) == draws_of(e, coin_log(*old(c)), count as nat)
            &&& coin_log(*final(c)) == log_after_draws(e, coin_log(*old(c)), count as nat)
            &&& v@.len() == count
            &&& forall|i: int| 0 <= i < v@.len() ==> fe_in(e, #[trigger] v@[i])
        }),
        (r is None ==> draws_of(e, coin_log(*old(c)), count as nat) is None),
    decreases count,
{
    if count == 0 {
        Some(Vec::new())
    } else {
        match draw_felt(c, e) {
            None => None,
            Some(f) => match draw_felts(c, e, count - 1) {
                None => None,
                Some(mut rest) => {
                    rest.insert(0, f);
                    Some(rest)
                },
            },
        }
    }
}

/// Base-field coordinates of a row of elements.
pub open spec fn flat1(s: Seq<Felt>) -> Seq<int> {
    s.map_values(|f: Felt| f.a as int)
}

/// Interleaved coordinates of a row of quadratic-extension elements.
pub open spec fn flat2(s: Seq<Felt>) -> Seq<int> {
    s.map_values(|f: Felt| seq![f.a as int, f.b as int]).flatten()
}

/// Interleaved coordinates of a row of cubic-extension elements.
pub open spec fn flat3(s: Seq<Felt>) -> Seq<int> {
    s.map_values(|f: Felt| seq![f.a as int, f.b as int, f.c as int]).flatten()
}

/// Hash of a row of base-field elements.
pub uninterp spec fn hash_row1_of(coords: Seq<int>) -> Seq<u8>;

/// Hash of a row of quadratic-extension elements.
pub uninterp spec fn hash_row2_of(coords: Seq<int>) -> Seq<u8>;

/// Hash of a row of cubic-extension elements.
pub uninterp spec fn hash_row3_of(coords: Seq<int>) -> Seq<u8>;

/// Relies on `ElementHasher::hash_elements` of the hashing library, over
/// base-field elements: the digest is a fixed function of the canonical
/// element values.
#[verifier::external_body]
pub fn hash_felts1(v: &Vec<Felt>) -> (r: Digest)
    requires
        forall|i: int| 0 <= i < v@.len() ==> fe_in(Ext::Base, #[trigger] v@[i]),
    ensures
        r.wf(),
        r.bytes@ == hash_row1_of(flat1(v@)),
{
    let elems: Vec<BaseElement> = v.iter().map(|f| BaseElement::new(f.a)).collect();
    let d = <Blake3_256<BaseElement> as winter_crypto::ElementHasher>::hash_elements(&elems);
    Digest { bytes: winter_crypto::Digest::as_bytes(&d).to_vec() }
}

/// Relies on `ElementHasher::hash_elements` of the hashing library, over
/// quadratic-extension elements.
#[verifier::external_body]
pub fn hash_felts2(v: &Vec<Felt>) -> (r: Digest)
    requires
        forall|i: int| 0 <= i < v@.len() ==> fe_in(Ext::Quad, #[trigger] v@[i]),
    ensures
        r.wf(),
        r.bytes@ == hash_row2_of(flat2(v@)),
{
    let elems: Vec<QuadExtension<BaseElement>> = v
        .iter()
        .map(|f| QuadExtension::new(BaseElement::new(f.a), BaseElement::new(f.b)))
        .collect();
    let d = <Blake3_256<BaseElement> as winter_crypto::ElementHasher>::hash_elements(&elems);
    Digest { bytes: winter_crypto::Digest::as_bytes(&d).to_vec() }
}

/// Relies on `ElementHasher::hash_elements` of the hashing library, over
/// cubic-extension elements.
#[verifier::external_body]
pub fn hash_felts3(v: &Vec<Felt>) -> (r: Digest)
    requires
        forall|i: int| 0 <= i < v@.len() ==> fe_in(Ext::Cube, #[trigger] v@[i]),
    ensures
        r.wf(),
        r.bytes@ == hash_row3_of(flat3(v@)),
{
    let elems: Vec<CubeExtension<BaseElement>> = v
        .iter()
        .map(|f| CubeExtension::new(BaseElement::new(f.a), BaseElement::new(f.b), BaseElement::new(f.c)))
        .collect();
    let d = <Blake3_256<BaseElement> as winter_crypto::ElementHasher>::hash_elements(&elems);
    Digest { bytes: winter_crypto::Digest::as_bytes(&d).to_vec() }
}

/// Hash of a row of elements of the given degree.
pub open spec fn hash_row_of(e: Ext, s: Seq<Felt>) -> Seq<u8> {
    match e {
        Ext::Base => hash_row1_of(flat1(s)),
        Ext::Quad => hash_row2_of(flat2(s)),
        Ext::Cube => hash_row3_of(flat3(s)),
    }
}

/// Hashes a row of elements of the given degree into a commitment.
pub fn hash_row(e: Ext, v: &Vec<Felt>) -> (r: Digest)
    requires
        forall|i: int| 0 <= i < v@.len() ==> fe_in(e, #[trigger] v@[i]),
    ensures
        r.wf(),
        r.bytes@ == hash_row_of(e, v@),
{
    match e {
        Ext::Base => hash_felts1(v),
        Ext::Quad => hash_felts2(v),
        Ext::Cube => hash_felts3(v),
    }
}

/// Two runs over identical transcript states derive identical elements,
/// identical index sets, and an identical grinding value: the drawn values
/// are fixed functions of the operation log alone.
pub proof fn lemma_transcript_determinism(l1: Seq<int>, l2: Seq<int>, e: Ext, count: int, bound: int)
    requires
        l1 == l2,
    ensures
        draw_of(e, l1) == draw_of(e, l2),
        draw_ints_of(l1, count, bound) == draw_ints_of(l2, count, bound),
        zeros_of(l1) == zeros_of(l2),
{
}

/// What a run of `n` coefficient-pair draws yields: two sequential draws
/// per pair.
pub open spec fn pair_draws_of(e: Ext, log: Seq<int>, n: nat) -> Option<Seq<(Felt, Felt)>>
    decreases n,
{
    if n == 0 {
        Some(Seq::empty())
    } else {
        match draw_of(e, log) {
            None => None,
            Some(a) => match draw_of(e, log + ev_draw(e)) {
                None => None,
                Some(b) => match pair_draws_of(e, log + ev_draw(e) + ev_draw(e), (n - 1) as nat) {
                    None => None,
                    Some(rest) => Some(seq![(a, b)] + rest),
                },
            },
        }
    }
}

/// What a run of `n` coefficient-triple draws yields: three sequential
/// draws per triple.
pub open spec fn triple_draws_of(e: Ext, log: Seq<int>, n: nat) -> Option<Seq<(Felt, Felt, Felt)>>
    decreases n,
{
    if n == 0 {
        Some(Seq::empty())
    } else {
        match draw_of(e, log) {
            None => None,
            Some(a) => match draw_of(e, log + ev_draw(e)) {
                None => None,
                Some(b) => match draw_of(e, log + ev_draw(e) + ev_draw(e)) {
                    None => None,
                    Some(g) => match triple_draws_of(
                        e,
                        log + ev_draw(e) + ev_draw(e) + ev_draw(e),
                        (n - 1) as nat,
                    ) {
                        None => None,
                        Some(rest) => Some(seq![(a, b, g)] + rest),
                    },
                },
            },
        }
    }
}

/// Draws `count` coefficient pairs, two sequential draws per pair.
pub fn draw_pairs(c: &mut Coin, e: Ext, count: usize) -> (r: Option<Vec<(Felt, Felt)>>)
    ensures
        (r matches Some(v) ==> {
            &&& Some(v@) == pair_draws_of(e, coin_log(*old(c)), count as nat)
            &&& coin_log(*final(c)) == log_after_draws(e, coin_log(*old(c)), (2 * count) as nat)
            &&& v@.len() == count
            &&& forall|i: int|
                0 <= i < v@.len() ==> fe_in(e, (#[trigger] v@[i]).0) && fe_in(e, v@[i].1)
        }),
        (r is None ==> pair_draws_of(e, coin_log(*old(c)), count as nat) is None),
    decreases count,
{
    if count == 0 {
        Some(Vec::new())
    } else {
        let ghost l0 = coin_log(*c);
        let a = match draw_felt(c, e) {
            Some(f) => f,
            None => {
                return None;
            },
        };
        let b = match draw_felt(c, e) {
            Some(f) => f,
            None => {
                return None;
            },
        };
        proof {
            assert(log_after_draws(e, l0, (2 * count) as nat) == log_after_draws(
                e,
                l0 + ev_draw(e),
                (2 * count - 1) as nat,
            ));
            assert(log_after_draws(e, l0 + ev_draw(e), (2 * count - 1) as nat) == log_after_draws(
                e,
                l0 + ev_draw(e) + ev_draw(e),
                (2 * count - 2) as nat,
            ));
        }
        match draw_pairs(c, e, count - 1) {
            None => None,
            Some(mut rest) => {
                let ghost rest0 = rest@;
                rest.insert(0, (a, b));
                proof {
                    assert(rest@ =~= seq![(a, b)] + rest0);
                }
                Some(rest)
            },
        }
    }
}

/// Draws `count` coefficient triples, three sequential draws per triple.
pub fn draw_triples(c: &mut Coin, e: Ext, count: usize) -> (r: Option<Vec<(Felt, Felt, Felt)>>)
    ensures
        (r matches Some(v) ==> {
            &&& Some(v@) == triple_draws_of(e, coin_log(*old(c)), count as nat)
            &&& coin_log(*final(c)) == log_after_draws(e, coin_log(*old(c)), (3 * count) as nat)
            &&& v@.len() == count
            &&& forall|i: int|
                0 <= i < v@.len() ==> fe_in(e, (#[trigger] v@[i]).0) && fe_in(e, v@[i].1)
                    && fe_in(e, v@[i].2)
        }),
        (r is None ==> triple_draws_of(e, coin_log(*old(c)), count as nat) is None),
    decreases count,
{
    if count == 0 {
        Some(Vec::new())
    } else {
        let ghost l0 = coin_log(*c);
        let a = match draw_felt(c, e) {
            Some(f) => f,
            None => {
                return None;
            },
        };
        let b = match draw_felt(c, e) {
            Some(f) => f,
            None => {
                return None;
            },
        };
        let g = match draw_felt(c, e) {
            Some(f) => f,
            None => {
                return None;
            },
        };
        proof {
            assert(log_after_draws(e, l0, (3 * count) as nat) == log_after_draws(
                e,
                l0 + ev_draw(e),
                (3 * count - 1) as nat,
            ));
            assert(log_after_draws(e, l0 + ev_draw(e), (3 * count - 1) as nat) == log_after_draws(
                e,
                l0 + ev_draw(e) + ev_draw(e),
                (3 * count - 2) as nat,
            ));
            assert(log_after_draws(e, l0 + ev_draw(e) + ev_draw(e), (3 * count - 2) as nat)
                == log_after_draws(
                e,
                l0 + ev_draw(e) + ev_draw(e) + ev_draw(e),
                (3 * count - 3) as nat,
            ));
        }
        match draw_triples(c, e, count - 1) {
            None => None,
            Some(mut rest) => {
                let ghost rest0 = rest@;
                rest.insert(0, (a, b, g));
                proof {
                    assert(rest@ =~= seq![(a, b, g)] + rest0);
                }
                Some(rest)
            },
        }
    }
}

} // verus!
