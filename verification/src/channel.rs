//! The proof channel.
//!
//! Presents a proof's contents as typed reads in protocol order.  All
//! shape checks happen up front, when the channel is built; the queried
//! trace and constraint rows are verified against their commitments, with
//! the opening proofs checked by the hashing library, at the moment they
//! are read.

use vstd::prelude::*;

verus! {

use winter_crypto::BatchMerkleProof;
use winter_crypto::MerkleTree;
use winter_crypto::hashers::Blake3_256;
use winter_math::fields::f62::BaseElement;
use winter_math::fields::QuadExtension;
use winter_math::fields::CubeExtension;
use winter_fri::FriVerifier;
use winter_fri::DefaultVerifierChannel;
use winter_utils::SliceReader;
use winter_utils::Deserializable;

use crate::field::Ext;
use crate::field::Felt;
use crate::field::P;
use crate::field::fe_in;
use crate::transcript::Coin;
use crate::transcript::Digest;
use crate::transcript::coin_log;
use crate::transcript::ev_reseed;
use crate::transcript::ev_draw;
use crate::transcript::spec_pow2;
use crate::transcript::flat3;
use crate::air::fri_layers_spec;
use crate::air::fri_rem_spec;
use crate::air::next_pow2_spec;

/// The digest type of the protocol's hash function.
type DigestOf = <Blake3_256<BaseElement> as winter_crypto::Hasher>::Digest;

/// A parsed batch opening proof, held opaquely for the hashing library.
#[verifier::external_body]
pub struct Opening {
    inner: BatchMerkleProof<Blake3_256<BaseElement>>,
}

/// What an opening proof holds, as an abstract value.
pub uninterp spec fn opening_rep(o: Opening) -> Seq<int>;

/// Whether the hashing library accepts an opening against a commitment at
/// the given positions.
pub uninterp spec fn merkle_ok(root: Seq<u8>, positions: Seq<int>, rep: Seq<int>) -> bool;

/// Coordinates a single element of the given degree occupies.
pub open spec fn ext_deg(e: Ext) -> int {
    match e {
        Ext::Base => 1,
        Ext::Quad => 2,
        Ext::Cube => 3,
    }
}

/// Whether a serialized query set parses for the given shape, over
/// base-field rows.
pub uninterp spec fn queries_ok1(bytes: Seq<u8>, domain: int, n: int, w: int) -> bool;

/// Whether a serialized query set parses, over quadratic-extension rows.
pub uninterp spec fn queries_ok2(bytes: Seq<u8>, domain: int, n: int, w: int) -> bool;

/// Whether a serialized query set parses, over cubic-extension rows.
pub uninterp spec fn queries_ok3(bytes: Seq<u8>, domain: int, n: int, w: int) -> bool;

/// Whether a serialized query set parses for the element kind of `e`.
pub open spec fn queries_ok(e: Ext, bytes: Seq<u8>, domain: int, n: int, w: int) -> bool {
    match e {
        Ext::Base => queries_ok1(bytes, domain, n, w),
        Ext::Quad => queries_ok2(bytes, domain, n, w),
        Ext::Cube => queries_ok3(bytes, domain, n, w),
    }
}

/// Layer count, remainder width (in base coordinates) and partition
/// exponent of a serialized layer proof of the low-degree test.
pub uninterp spec fn fri_shape_of(bytes: Seq<u8>) -> Option<(usize, usize, usize)>;

/// A row table as abstract coordinates.
pub open spec fn rows_flat(rows: Seq<Vec<Felt>>) -> Seq<int> {
    rows.map_values(|r: Vec<Felt>| flat3(r@)).flatten()
}

/// Whether an opening proof authenticates exactly the given rows: its
/// leaves are their hashes.
pub uninterp spec fn authenticates(rep: Seq<int>, rows: Seq<int>) -> bool;

/// Positions as abstract integers.
pub open spec fn positions_rep(p: Seq<usize>) -> Seq<int> {
    p.map_values(|x: usize| x as int)
}

/// Relies on `Queries::parse` of the air library: splits a serialized
/// query set into an opening proof and the queried rows of base-field
/// elements, checking the byte counts against the expected shape.
#[verifier::external_body]
pub(crate) fn parse_queries1(bytes: &Vec<u8>, domain_size: usize, n: usize, w: usize) -> (r: Option<
    (Opening, Vec<Vec<Felt>>),
>)
    requires
        spec_pow2(domain_size as nat),
        1 <= n < 255,
        1 <= w < 255,
    ensures
        (r is Some <==> queries_ok1(bytes@, domain_size as int, n as int, w as int)),
        (r matches Some(t) ==> authenticates(opening_rep(t.0), rows_flat(t.1@))),
        (r matches Some(t) ==> {
            &&& t.1@.len() == n
            &&& forall|j: int| 0 <= j < t.1@.len() ==> (#[trigger] t.1@[j])@.len() == w
            &&& forall|j: int, i: int|
                0 <= j < t.1@.len() && 0 <= i < t.1@[j]@.len() ==> fe_in(
                    Ext::Base,
                    #[trigger] t.1@[j]@[i],
                )
        }),
{
    let mut rd = SliceReader::new(bytes.as_slice());
    let q = <winter_air::proof::Queries as Deserializable>::read_from(&mut rd).ok()?;
    let (pf, table) = q.parse::<Blake3_256<BaseElement>, BaseElement>(domain_size, n, w).ok()?;
    let rows = table
        .rows()
        .map(|row| row.iter().map(|v| Felt { a: winter_math::StarkField::as_int(v), b: 0, c: 0 }).collect())
        .collect();
    Some((Opening { inner: pf }, rows))
}

/// Relies on `Queries::parse` of the air library, for rows of
/// quadratic-extension elements.
#[verifier::external_body]
pub(crate) fn parse_queries2(bytes: &Vec<u8>, domain_size: usize, n: usize, w: usize) -> (r: Option<
    (Opening, Vec<Vec<Felt>>),
>)
    requires
        spec_pow2(domain_size as nat),
        1 <= n < 255,
        1 <= w < 255,
    ensures
        (r is Some <==> queries_ok2(bytes@, domain_size as int, n as int, w as int)),
        (r matches Some(t) ==> authenticates(opening_rep(t.0), rows_flat(t.1@))),
        (r matches Some(t) ==> {
            &&& t.1@.len() == n
            &&& forall|j: int| 0 <= j < t.1@.len() ==> (#[trigger] t.1@[j])@.len() == w
            &&& forall|j: int, i: int|
                0 <= j < t.1@.len() && 0 <= i < t.1@[j]@.len() ==> fe_in(
                    Ext::Quad,
                    #[trigger] t.1@[j]@[i],
                )
        }),
{
    let mut rd = SliceReader::new(bytes.as_slice());
    let q = <winter_air::proof::Queries as Deserializable>::read_from(&mut rd).ok()?;
    let (pf, table) = q.parse::<Blake3_256<BaseElement>, QuadExtension<BaseElement>>(domain_size, n, w).ok()?;
    let rows = table.rows().map(|row| row.iter().map(|v| {
        let x: Vec<u64> = winter_utils::Serializable::to_bytes(v).chunks(8).map(|c2| u64::from_le_bytes(c2.try_into().unwrap())).collect();
        Felt { a: x[0], b: x[1], c: 0 }
    }).collect()).collect();
    Some((Opening { inner: pf }, rows))
}

/// Relies on `Queries::parse` of the air library, for rows of
/// cubic-extension elements.
#[verifier::external_body]
pub(crate) fn parse_queries3(bytes: &Vec<u8>, domain_size: usize, n: usize, w: usize) -> (r: Option<
    (Opening, Vec<Vec<Felt>>),
>)
    requires
        spec_pow2(domain_size as nat),
        1 <= n < 255,
        1 <= w < 255,
    ensures
        (r is Some <==> queries_ok3(bytes@, domain_size as int, n as int, w as int)),
        (r matches Some(t) ==> authenticates(opening_rep(t.0), rows_flat(t.1@))),
        (r matches Some(t) ==> {
            &&& t.1@.len() == n
            &&& forall|j: int| 0 <= j < t.1@.len() ==> (#[trigger] t.1@[j])@.len() == w
            &&& forall|j: int, i: int|
                0 <= j < t.1@.len() && 0 <= i < t.1@[j]@.len() ==> fe_in(
                    Ext::Cube,
                    #[trigger] t.1@[j]@[i],
                )
        }),
{
    let mut rd = SliceReader::new(bytes.as_slice());
    let q = <winter_air::proof::Queries as Deserializable>::read_from(&mut rd).ok()?;
    let (pf, table) = q.parse::<Blake3_256<BaseElement>, CubeExtension<BaseElement>>(domain_size, n, w).ok()?;
    let rows = table.rows().map(|row| row.iter().map(|v| {
        let x: Vec<u64> = winter_utils::Serializable::to_bytes(v).chunks(8).map(|c2| u64::from_le_bytes(c2.try_into().unwrap())).collect();
        Felt { a: x[0], b: x[1], c: x[2] }
    }).collect()).collect();
    Some((Opening { inner: pf }, rows))
}

/// Parses a serialized query set with the element kind selected by `e`.
pub(crate) fn parse_queries(e: Ext, bytes: &Vec<u8>, domain_size: usize, n: usize, w: usize) -> (r:
    Option<(Opening, Vec<Vec<Felt>>)>)
    requires
        spec_pow2(domain_size as nat),
        1 <= n < 255,
        1 <= w < 255,
    ensures
        (r is Some <==> queries_ok(e, bytes@, domain_size as int, n as int, w as int)),
        (r matches Some(t) ==> authenticates(opening_rep(t.0), rows_flat(t.1@))),
        (r matches Some(t) ==> {
            &&& t.1@.len() == n
            &&& forall|j: int| 0 <= j < t.1@.len() ==> (#[trigger] t.1@[j])@.len() == w
            &&& forall|j: int, i: int|
                0 <= j < t.1@.len() && 0 <= i < t.1@[j]@.len() ==> fe_in(e, #[trigger] t.1@[j]@[i])
        }),
{
    match e {
        Ext::Base => parse_queries1(bytes, domain_size, n, w),
        Ext::Quad => parse_queries2(bytes, domain_size, n, w),
        Ext::Cube => parse_queries3(bytes, domain_size, n, w),
    }
}

/// Relies on `MerkleTree::verify_batch` of the hashing library: accepts
/// exactly when the opening proof binds the queried rows to the commitment
/// at the given positions; a fixed function of root, positions and proof.
#[verifier::external_body]
pub(crate) fn verify_opening(root: &Digest, positions: &Vec<usize>, o: &Opening) -> (r: bool)
    requires
        root.wf(),
    ensures
        r == merkle_ok(root.bytes@, positions_rep(positions@), opening_rep(*o)),
{
    let mut rd = SliceReader::new(root.bytes.as_slice());
    let dig = <<Blake3_256<BaseElement> as winter_crypto::Hasher>::Digest as Deserializable>::read_from(
        &mut rd,
    ).unwrap();
    MerkleTree::<Blake3_256<BaseElement>>::verify_batch(&dig, positions.as_slice(), &o.inner)
        .is_ok()
}

/// Relies on the `FriProof` parser of the low-degree-test library: the
/// layer count, remainder width and partition exponent of a serialized
/// layer proof, a fixed function of the bytes.  Trailing bytes are
/// rejected, so the exponent is the final byte of the serialization,
/// which the parsed value keeps private.
#[verifier::external_body]
pub(crate) fn fri_shape(bytes: &Vec<u8>) -> (r: Option<(usize, usize, usize)>)
    ensures
        r == fri_shape_of(bytes@),
{
    let mut rd = SliceReader::new(bytes.as_slice());
    let pf = <winter_fri::FriProof as Deserializable>::read_from(&mut rd).ok()?;
    if winter_utils::ByteReader::has_more_bytes(&rd) {
        return None;
    }
    Some((pf.num_layers(), pf.num_remainder_elements::<BaseElement>(), bytes[bytes.len() - 1] as usize))
}

/// The low-degree-test verifier and its channel, over the base field.
#[verifier::external_body]
pub struct FriStateB {
    v: FriVerifier<
        BaseElement,
        BaseElement,
        DefaultVerifierChannel<BaseElement, Blake3_256<BaseElement>>,
        Blake3_256<BaseElement>,
    >,
    ch: DefaultVerifierChannel<BaseElement, Blake3_256<BaseElement>>,
}

/// The low-degree-test verifier and its channel, over the quadratic
/// extension.
#[verifier::external_body]
pub struct FriStateQ {
    v: FriVerifier<
        BaseElement,
        QuadExtension<BaseElement>,
        DefaultVerifierChannel<QuadExtension<BaseElement>, Blake3_256<BaseElement>>,
        Blake3_256<BaseElement>,
    >,
    ch: DefaultVerifierChannel<QuadExtension<BaseElement>, Blake3_256<BaseElement>>,
}

/// The low-degree-test verifier and its channel, over the cubic extension.
#[verifier::external_body]
pub struct FriStateC {
    v: FriVerifier<
        BaseElement,
        CubeExtension<BaseElement>,
        DefaultVerifierChannel<CubeExtension<BaseElement>, Blake3_256<BaseElement>>,
        Blake3_256<BaseElement>,
    >,
    ch: DefaultVerifierChannel<CubeExtension<BaseElement>, Blake3_256<BaseElement>>,
}

/// A constructed low-degree-test verifier, tagged by extension degree.
pub enum FriState {
    Base(FriStateB),
    Quad(FriStateQ),
    Cube(FriStateC),
}

/// Whether a base-field verifier state was built by the commit phase
/// from a layer proof and commitment list of matching shape and a valid
/// partition exponent; such a state cannot drive the query phase out of
/// bounds or through a zero partition count.
pub uninterp spec fn fri_base_wf(st: FriStateB) -> bool;

/// The evaluation domain a base-field verifier state was built over.
pub uninterp spec fn fri_base_domain(st: FriStateB) -> int;

/// The query-phase verdict of a base-field verifier state on the given
/// evaluations and positions; acceptance is `None`.
pub uninterp spec fn fri_base_verdict(st: FriStateB, evals: Seq<int>, positions: Seq<int>) -> Option<
    Seq<char>,
>;

/// As above, over the quadratic extension.
pub uninterp spec fn fri_quad_wf(st: FriStateQ) -> bool;

pub uninterp spec fn fri_quad_domain(st: FriStateQ) -> int;

pub uninterp spec fn fri_quad_verdict(st: FriStateQ, evals: Seq<int>, positions: Seq<int>) -> Option<
    Seq<char>,
>;

/// As above, over the cubic extension.
pub uninterp spec fn fri_cube_wf(st: FriStateC) -> bool;

pub uninterp spec fn fri_cube_domain(st: FriStateC) -> int;

pub uninterp spec fn fri_cube_verdict(st: FriStateC, evals: Seq<int>, positions: Seq<int>) -> Option<
    Seq<char>,
>;

/// Well-formedness of a tagged verifier state.
pub open spec fn fri_state_wf(st: FriState) -> bool {
    match st {
        FriState::Base(s) => fri_base_wf(s),
        FriState::Quad(s) => fri_quad_wf(s),
        FriState::Cube(s) => fri_cube_wf(s),
    }
}

/// Evaluation domain of a tagged verifier state.
pub open spec fn fri_state_domain(st: FriState) -> int {
    match st {
        FriState::Base(s) => fri_base_domain(s),
        FriState::Quad(s) => fri_quad_domain(s),
        FriState::Cube(s) => fri_cube_domain(s),
    }
}

/// Query-phase verdict of a tagged verifier state.
pub open spec fn fri_state_verdict(st: FriState, evals: Seq<int>, positions: Seq<int>) -> Option<
    Seq<char>,
> {
    match st {
        FriState::Base(s) => fri_base_verdict(s, evals, positions),
        FriState::Quad(s) => fri_quad_verdict(s, evals, positions),
        FriState::Cube(s) => fri_cube_verdict(s, evals, positions),
    }
}

/// The transcript events of the low-degree test's commit phase: one
/// reseed and one draw per layer commitment.
pub open spec fn fri_commit_log(log: Seq<int>, comms: Seq<Digest>, e: Ext, n: int) -> Seq<int>
    decreases n,
{
    if n <= 0 {
        log
    } else {
        fri_commit_log(log, comms, e, n - 1) + ev_reseed(comms[n - 1].bytes@) + ev_draw(e)
    }
}

/// Shared well-formedness demanded of the low-degree-test construction
/// arguments, so the library's own assertions cannot fire.
pub open spec fn fri_args_wf(comms: Seq<Digest>, domain_size: int, folding: int, max_remainder: int, blowup: int) -> bool {
    &&& forall|i: int| 0 <= i < comms.len() ==> (#[trigger] comms[i]).wf()
    &&& spec_pow2(domain_size as nat)
    &&& (folding == 2 || folding == 4 || folding == 8 || folding == 16)
    &&& spec_pow2(blowup as nat)
    &&& max_remainder >= 2 * folding
}

/// Relies on `FriVerifier::new` and `DefaultVerifierChannel::new` of the
/// low-degree-test library, over the base field: parses the layer proof,
/// and runs the commit phase, which absorbs each layer commitment into the
/// coin and draws one element after each.
#[verifier::external_body]
pub(crate) fn fri_new1(
    coin: &mut Coin,
    comms: &Vec<Digest>,
    fri_bytes: &Vec<u8>,
    domain_size: usize,
    folding: usize,
    max_remainder: usize,
    blowup: usize,
    max_degree: usize,
) -> (r: Result<FriStateB, String>)
    requires
        fri_args_wf(comms@, domain_size as int, folding as int, max_remainder as int, blowup as int),
        max_degree >= 1,
        comms@.len() == fri_layers_spec(domain_size as int, folding as int, max_remainder as int)
            + 1,
        (fri_shape_of(fri_bytes@) matches Some(sh) ==> sh.0 + 1 == comms@.len() && sh.1
            == fri_rem_spec(domain_size as int, folding as int, max_remainder as int) * 1 && sh.2
            < 32),
        fri_shape_of(fri_bytes@) is Some,
        fri_rem_spec(domain_size as int, folding as int, max_remainder as int) >= folding,
        next_pow2_spec(max_degree as int) * (blowup as int) == domain_size as int,
        2 <= domain_size <= 0x80_0000_0000,
    ensures
        (r is Ok ==> coin_log(*final(coin)) == fri_commit_log(
            coin_log(*old(coin)),
            comms@,
            Ext::Base,
            comms@.len() as int,
        )),
        (r matches Ok(st) ==> fri_base_wf(st) && fri_base_domain(st) == domain_size),
{
    let mut rd = SliceReader::new(fri_bytes.as_slice());
    let pf = <winter_fri::FriProof as Deserializable>::read_from(&mut rd).map_err(|err| err.to_string())?;
    let digests = comms.iter().map(|d| <DigestOf as Deserializable>::read_from(&mut SliceReader::new(d.bytes.as_slice())).unwrap()).collect();
    let mut ch = DefaultVerifierChannel::new(pf, digests, domain_size, folding).map_err(|err| err.to_string())?;
    let options = winter_fri::FriOptions::new(blowup, folding, max_remainder);
    let v = FriVerifier::new(&mut ch, &mut coin.inner, options, max_degree).map_err(|err| err.to_string())?;
    Ok(FriStateB { v, ch })
}

/// Relies on the same construction over the quadratic extension.
#[verifier::external_body]
pub(crate) fn fri_new2(
    coin: &mut Coin,
    comms: &Vec<Digest>,
    fri_bytes: &Vec<u8>,
    domain_size: usize,
    folding: usize,
    max_remainder: usize,
    blowup: usize,
    max_degree: usize,
) -> (r: Result<FriStateQ, String>)
    requires
        fri_args_wf(comms@, domain_size as int, folding as int, max_remainder as int, blowup as int),
        max_degree >= 1,
        comms@.len() == fri_layers_spec(domain_size as int, folding as int, max_remainder as int)
            + 1,
        (fri_shape_of(fri_bytes@) matches Some(sh) ==> sh.0 + 1 == comms@.len() && sh.1
            == fri_rem_spec(domain_size as int, folding as int, max_remainder as int) * 2 && sh.2
            < 32),
        fri_shape_of(fri_bytes@) is Some,
        fri_rem_spec(domain_size as int, folding as int, max_remainder as int) >= folding,
        next_pow2_spec(max_degree as int) * (blowup as int) == domain_size as int,
        2 <= domain_size <= 0x80_0000_0000,
    ensures
        (r is Ok ==> coin_log(*final(coin)) == fri_commit_log(
            coin_log(*old(coin)),
            comms@,
            Ext::Quad,
            comms@.len() as int,
        )),
        (r matches Ok(st) ==> fri_quad_wf(st) && fri_quad_domain(st) == domain_size),
{
    let mut rd = SliceReader::new(fri_bytes.as_slice());
    let pf = <winter_fri::FriProof as Deserializable>::read_from(&mut rd).map_err(|err| err.to_string())?;
    let digests = comms.iter().map(|d| <DigestOf as Deserializable>::read_from(&mut SliceReader::new(d.bytes.as_slice())).unwrap()).collect();
    let mut ch = DefaultVerifierChannel::new(pf, digests, domain_size, folding).map_err(|err| err.to_string())?;
    let options = winter_fri::FriOptions::new(blowup, folding, max_remainder);
    let v = FriVerifier::new(&mut ch, &mut coin.inner, options, max_degree).map_err(|err| err.to_string())?;
    Ok(FriStateQ { v, ch })
}

/// Relies on the same construction over the cubic extension.
#[verifier::external_body]
pub(crate) fn fri_new3(
    coin: &mut Coin,
    comms: &Vec<Digest>,
    fri_bytes: &Vec<u8>,
    domain_size: usize,
    folding: usize,
    max_remainder: usize,
    blowup: usize,
    max_degree: usize,
) -> (r: Result<FriStateC, String>)
    requires
        fri_args_wf(comms@, domain_size as int, folding as int, max_remainder as int, blowup as int),
        max_degree >= 1,
        comms@.len() == fri_layers_spec(domain_size as int, folding as int, max_remainder as int)
            + 1,
        (fri_shape_of(fri_bytes@) matches Some(sh) ==> sh.0 + 1 == comms@.len() && sh.1
            == fri_rem_spec(domain_size as int, folding as int, max_remainder as int) * 3 && sh.2
            < 32),
        fri_shape_of(fri_bytes@) is Some,
        fri_rem_spec(domain_size as int, folding as int, max_remainder as int) >= folding,
        next_pow2_spec(max_degree as int) * (blowup as int) == domain_size as int,
        2 <= domain_size <= 0x80_0000_0000,
    ensures
        (r is Ok ==> coin_log(*final(coin)) == fri_commit_log(
            coin_log(*old(coin)),
            comms@,
            Ext::Cube,
            comms@.len() as int,
        )),
        (r matches Ok(st) ==> fri_cube_wf(st) && fri_cube_domain(st) == domain_size),
{
    let mut rd = SliceReader::new(fri_bytes.as_slice());
    let pf = <winter_fri::FriProof as Deserializable>::read_from(&mut rd).map_err(|err| err.to_string())?;
    let digests = comms.iter().map(|d| <DigestOf as Deserializable>::read_from(&mut SliceReader::new(d.bytes.as_slice())).unwrap()).collect();
    let mut ch = DefaultVerifierChannel::new(pf, digests, domain_size, folding).map_err(|err| err.to_string())?;
    let options = winter_fri::FriOptions::new(blowup, folding, max_remainder);
    let v = FriVerifier::new(&mut ch, &mut coin.inner, options, max_degree).map_err(|err| err.to_string())?;
    Ok(FriStateC { v, ch })
}

/// Runs the commit phase of the low-degree test with the element kind
/// selected by `e`.
pub(crate) fn fri_new(
    e: Ext,
    coin: &mut Coin,
    comms: &Vec<Digest>,
    fri_bytes: &Vec<u8>,
    domain_size: usize,
    folding: usize,
    max_remainder: usize,
    blowup: usize,
    max_degree: usize,
) -> (r: Result<FriState, String>)
    requires
        fri_args_wf(comms@, domain_size as int, folding as int, max_remainder as int, blowup as int),
        max_degree >= 1,
        comms@.len() == fri_layers_spec(domain_size as int, folding as int, max_remainder as int)
            + 1,
        (fri_shape_of(fri_bytes@) matches Some(sh) ==> sh.0 + 1 == comms@.len() && sh.1
            == fri_rem_spec(domain_size as int, folding as int, max_remainder as int) * ext_deg(e)
            && sh.2 < 32),
        fri_shape_of(fri_bytes@) is Some,
        fri_rem_spec(domain_size as int, folding as int, max_remainder as int) >= folding,
        next_pow2_spec(max_degree as int) * (blowup as int) == domain_size as int,
        2 <= domain_size <= 0x80_0000_0000,
    ensures
        (r is Ok ==> coin_log(*final(coin)) == fri_commit_log(
            coin_log(*old(coin)),
            comms@,
            e,
            comms@.len() as int,
        )),
        (r matches Ok(st) ==> fri_state_wf(st) && fri_state_domain(st) == domain_size),
{
    match e {
        Ext::Base => match fri_new1(
            coin, comms, fri_bytes, domain_size, folding, max_remainder, blowup, max_degree,
        ) {
            Ok(s) => Ok(FriState::Base(s)),
            Err(m) => Err(m),
        },
        Ext::Quad => match fri_new2(
            coin, comms, fri_bytes, domain_size, folding, max_remainder, blowup, max_degree,
        ) {
            Ok(s) => Ok(FriState::Quad(s)),
            Err(m) => Err(m),
        },
        Ext::Cube => match fri_new3(
            coin, comms, fri_bytes, domain_size, folding, max_remainder, blowup, max_degree,
        ) {
            Ok(s) => Ok(FriState::Cube(s)),
            Err(m) => Err(m),
        },
    }
}

/// Relies on `FriVerifier::verify` of the low-degree-test library: accepts
/// exactly when the given evaluations at the given positions pass the
/// query phase against the commit-phase state; rejection carries the
/// library's message.
#[verifier::external_body]
pub(crate) fn fri_verify1(st: FriStateB, evaluations: &Vec<Felt>, positions: &Vec<usize>) -> (r: Option<
    String,
>)
    requires
        fri_base_wf(st),
        forall|i: int| 0 <= i < positions@.len() ==> (#[trigger] positions@[i]) < fri_base_domain(st),
    ensures
        (r is None <==> fri_base_verdict(st, flat3(evaluations@), positions_rep(positions@)) is None),
        (r matches Some(m) ==> Some(m@) == fri_base_verdict(
            st,
            flat3(evaluations@),
            positions_rep(positions@),
        )),
{
    let mut st = st;
    let evals: Vec<BaseElement> = evaluations.iter().map(|f| BaseElement::new(f.a)).collect();
    match st.v.verify(&mut st.ch, &evals, positions.as_slice()) {
        Ok(()) => None,
        Err(err) => Some(format!("{}", err)),
    }
}

/// Relies on `FriVerifier::verify` over the quadratic extension.
#[verifier::external_body]
pub(crate) fn fri_verify2(st: FriStateQ, evaluations: &Vec<Felt>, positions: &Vec<usize>) -> (r: Option<
    String,
>)
    requires
        fri_quad_wf(st),
        forall|i: int| 0 <= i < positions@.len() ==> (#[trigger] positions@[i]) < fri_quad_domain(st),
    ensures
        (r is None <==> fri_quad_verdict(st, flat3(evaluations@), positions_rep(positions@)) is None),
        (r matches Some(m) ==> Some(m@) == fri_quad_verdict(
            st,
            flat3(evaluations@),
            positions_rep(positions@),
        )),
{
    let mut st = st;
    let evals: Vec<QuadExtension<BaseElement>> = evaluations
        .iter()
        .map(|f| QuadExtension::new(BaseElement::new(f.a), BaseElement::new(f.b)))
        .collect();
    match st.v.verify(&mut st.ch, &evals, positions.as_slice()) {
        Ok(()) => None,
        Err(err) => Some(format!("{}", err)),
    }
}

/// Relies on `FriVerifier::verify` over the cubic extension.
#[verifier::external_body]
pub(crate) fn fri_verify3(st: FriStateC, evaluations: &Vec<Felt>, positions: &Vec<usize>) -> (r: Option<
    String,
>)
    requires
        fri_cube_wf(st),
        forall|i: int| 0 <= i < positions@.len() ==> (#[trigger] positions@[i]) < fri_cube_domain(st),
    ensures
        (r is None <==> fri_cube_verdict(st, flat3(evaluations@), positions_rep(positions@)) is None),
        (r matches Some(m) ==> Some(m@) == fri_cube_verdict(
            st,
            flat3(evaluations@),
            positions_rep(positions@),
        )),
{
    let mut st = st;
    let evals: Vec<CubeExtension<BaseElement>> = evaluations
        .iter()
        .map(|f| CubeExtension::new(
            BaseElement::new(f.a),
            BaseElement::new(f.b),
            BaseElement::new(f.c),
        ))
        .collect();
    match st.v.verify(&mut st.ch, &evals, positions.as_slice()) {
        Ok(()) => None,
        Err(err) => Some(format!("{}", err)),
    }
}

/// Runs the query phase of the low-degree test; `None` is acceptance,
/// and the verdict is a fixed function of the constructed state, the
/// evaluations and the positions.
pub(crate) fn fri_verify(st: FriState, evaluations: &Vec<Felt>, positions: &Vec<usize>) -> (r:
    Option<String>)
    requires
        fri_state_wf(st),
        forall|i: int| 0 <= i < positions@.len() ==> (#[trigger] positions@[i]) < fri_state_domain(st),
    ensures
        (r is None <==> fri_state_verdict(st, flat3(evaluations@), positions_rep(positions@))
            is None),
        (r matches Some(m) ==> Some(m@) == fri_state_verdict(
            st,
            flat3(evaluations@),
            positions_rep(positions@),
        )),
{
    match st {
        FriState::Base(s) => fri_verify1(s, evaluations, positions),
        FriState::Quad(s) => fri_verify2(s, evaluations, positions),
        FriState::Cube(s) => fri_verify3(s, evaluations, positions),
    }
}

/// A structured proof: plain protocol artifacts, with the query sets and
/// the low-degree-test layer proof kept as the bytes the prover produced.
pub struct Proof {
    /// Serialized protocol context, absorbed into the transcript seed.
    pub context_bytes: Vec<u8>,
    /// One commitment per trace segment, main segment first.
    pub trace_commitments: Vec<Digest>,
    /// Commitment to the constraint composition polynomial.
    pub constraint_commitment: Digest,
    /// Layer commitments of the low-degree test.
    pub fri_commitments: Vec<Digest>,
    /// Out-of-domain main trace row at `z`.
    pub ood_main_current: Vec<Felt>,
    /// Out-of-domain main trace row at `z * g`.
    pub ood_main_next: Vec<Felt>,
    /// Out-of-domain auxiliary trace row at `z`; empty without one.
    pub ood_aux_current: Vec<Felt>,
    /// Out-of-domain auxiliary trace row at `z * g`; empty without one.
    pub ood_aux_next: Vec<Felt>,
    /// Out-of-domain constraint composition column values at `z^m`.
    pub ood_constraint_evaluations: Vec<Felt>,
    /// Proof-of-work nonce for the query seed.
    pub pow_nonce: u64,
    /// Serialized query set for the main trace segment.
    pub main_trace_queries: Vec<u8>,
    /// Serialized query set for the auxiliary segment, if any.
    pub aux_trace_queries: Option<Vec<u8>>,
    /// Serialized query set for the constraint evaluations.
    pub constraint_queries: Vec<u8>,
    /// Serialized layer proof of the low-degree test.
    pub fri_proof_bytes: Vec<u8>,
}

/// Decides whether every element of a row lies in the subfield of `e`.
pub fn row_in(e: Ext, v: &Vec<Felt>) -> (r: bool)
    ensures
        r == forall|i: int| 0 <= i < v@.len() ==> fe_in(e, #[trigger] v@[i]),
{
    let mut i: usize = 0;
    while i < v.len()
        invariant
            i <= v@.len(),
            forall|k: int| 0 <= k < i ==> fe_in(e, #[trigger] v@[k]),
        decreases v@.len() - i,
    {
        let f = v[i];
        let ok = match e {
            Ext::Base => f.a < P && f.b == 0 && f.c == 0,
            Ext::Quad => f.a < P && f.b < P && f.c == 0,
            Ext::Cube => f.a < P && f.b < P && f.c < P,
        };
        if !ok {
            return false;
        }
        i = i + 1;
    }
    true
}

/// Whether a proof has exactly the shape the computation's context
/// demands: commitment counts and widths, canonical field elements,
/// parseable query sets, and a layer proof matching the options-derived
/// layer count and remainder size.
pub open spec fn proof_shape_ok(pf: Proof, ctx: crate::air::AirContext) -> bool {
    let e = ctx.options.extension;
    let naux = ctx.aux_widths@.len() as int;
    let aux_total = ctx.aux_width_sum(naux);
    let lde = ctx.lde_domain_size();
    let nq = ctx.options.num_queries as int;
    let layers = fri_layers_spec(
        lde,
        ctx.options.fri_folding as int,
        ctx.options.fri_max_remainder as int,
    );
    let rem = fri_rem_spec(lde, ctx.options.fri_folding as int, ctx.options.fri_max_remainder as int);
    &&& pf.trace_commitments@.len() == 1 + naux
    &&& (forall|i: int|
        0 <= i < pf.trace_commitments@.len() ==> (#[trigger] pf.trace_commitments@[i]).wf())
    &&& pf.constraint_commitment.wf()
    &&& (forall|i: int|
        0 <= i < pf.fri_commitments@.len() ==> (#[trigger] pf.fri_commitments@[i]).wf())
    &&& pf.ood_main_current@.len() == ctx.main_width
    &&& pf.ood_main_next@.len() == ctx.main_width
    &&& pf.ood_aux_current@.len() == aux_total
    &&& pf.ood_aux_next@.len() == aux_total
    &&& pf.ood_constraint_evaluations@.len() == ctx.ce_blowup
    &&& (forall|i: int|
        0 <= i < pf.ood_main_current@.len() ==> fe_in(e, #[trigger] pf.ood_main_current@[i]))
    &&& (forall|i: int|
        0 <= i < pf.ood_main_next@.len() ==> fe_in(e, #[trigger] pf.ood_main_next@[i]))
    &&& (forall|i: int|
        0 <= i < pf.ood_aux_current@.len() ==> fe_in(e, #[trigger] pf.ood_aux_current@[i]))
    &&& (forall|i: int|
        0 <= i < pf.ood_aux_next@.len() ==> fe_in(e, #[trigger] pf.ood_aux_next@[i]))
    &&& (forall|i: int|
        0 <= i < pf.ood_constraint_evaluations@.len() ==> fe_in(
            e,
            #[trigger] pf.ood_constraint_evaluations@[i],
        ))
    &&& queries_ok1(pf.main_trace_queries@, lde, nq, ctx.main_width as int)
    &&& (naux > 0 ==> aux_total >= 1 && (pf.aux_trace_queries matches Some(b) && queries_ok(
        e,
        b@,
        lde,
        nq,
        aux_total,
    )))
    &&& queries_ok(e, pf.constraint_queries@, lde, nq, ctx.ce_blowup as int)
    &&& pf.fri_commitments@.len() == layers + 1
    &&& (fri_shape_of(pf.fri_proof_bytes@) matches Some(sh) && sh.0 == layers && sh.1 == rem
        * ext_deg(e) && sh.2 < 32)
}

/// The proof channel: every artifact shape-checked and parsed, ready to
/// be read in protocol order.
pub struct VerifierChannel {
    pub trace_commitments: Vec<Digest>,
    pub constraint_commitment: Digest,
    pub fri_commitments: Vec<Digest>,
    pub ood_main_current: Vec<Felt>,
    pub ood_main_next: Vec<Felt>,
    pub ood_aux_current: Vec<Felt>,
    pub ood_aux_next: Vec<Felt>,
    pub ood_constraint_evaluations: Vec<Felt>,
    pub pow_nonce: u64,
    pub fri_proof_bytes: Vec<u8>,
    pub main_opening: Opening,
    pub main_rows: Vec<Vec<Felt>>,
    pub aux_opening: Option<Opening>,
    pub aux_rows: Vec<Vec<Felt>>,
    pub cons_opening: Opening,
    pub cons_rows: Vec<Vec<Felt>>,
}

impl VerifierChannel {
    /// Well-formedness against the computation's shape data: all
    /// commitments are digests, every row and frame has its declared
    /// width, and every element lies in the protocol's field.
    pub open spec fn wf(self, ctx: crate::air::AirContext) -> bool {
        let e = ctx.options.extension;
        let naux = ctx.aux_widths@.len() as int;
        let aux_total = ctx.aux_width_sum(naux);
        &&& self.trace_commitments@.len() == 1 + naux
        &&& forall|i: int|
            0 <= i < self.trace_commitments@.len() ==> (#[trigger] self.trace_commitments@[i]).wf()
        &&& self.constraint_commitment.wf()
        &&& forall|i: int|
            0 <= i < self.fri_commitments@.len() ==> (#[trigger] self.fri_commitments@[i]).wf()
        &&& self.ood_main_current@.len() == ctx.main_width
        &&& self.ood_main_next@.len() == ctx.main_width
        &&& self.ood_aux_current@.len() == aux_total
        &&& self.ood_aux_next@.len() == aux_total
        &&& self.ood_constraint_evaluations@.len() == ctx.ce_blowup
        &&& forall|i: int|
            0 <= i < self.ood_main_current@.len() ==> fe_in(e, #[trigger] self.ood_main_current@[i])
        &&& forall|i: int|
            0 <= i < self.ood_main_next@.len() ==> fe_in(e, #[trigger] self.ood_main_next@[i])
        &&& forall|i: int|
            0 <= i < self.ood_aux_current@.len() ==> fe_in(e, #[trigger] self.ood_aux_current@[i])
        &&& forall|i: int|
            0 <= i < self.ood_aux_next@.len() ==> fe_in(e, #[trigger] self.ood_aux_next@[i])
        &&& forall|i: int|
            0 <= i < self.ood_constraint_evaluations@.len() ==> fe_in(
                e,
                #[trigger] self.ood_constraint_evaluations@[i],
            )
        &&& self.main_rows@.len() == ctx.options.num_queries
        &&& forall|j: int|
            0 <= j < self.main_rows@.len() ==> (#[trigger] self.main_rows@[j])@.len()
                == ctx.main_width
        &&& forall|j: int, i: int|
            0 <= j < self.main_rows@.len() && 0 <= i < self.main_rows@[j]@.len() ==> fe_in(
                e,
                #[trigger] self.main_rows@[j]@[i],
            )
        &&& (self.aux_opening is Some <==> naux > 0)
        &&& (naux > 0 ==> self.aux_rows@.len() == ctx.options.num_queries)
        &&& (naux == 0 ==> self.aux_rows@.len() == 0)
        &&& forall|j: int|
            0 <= j < self.aux_rows@.len() ==> (#[trigger] self.aux_rows@[j])@.len() == aux_total
        &&& forall|j: int, i: int|
            0 <= j < self.aux_rows@.len() && 0 <= i < self.aux_rows@[j]@.len() ==> fe_in(
                e,
                #[trigger] self.aux_rows@[j]@[i],
            )
        &&& authenticates(opening_rep(self.main_opening), rows_flat(self.main_rows@))
        &&& (self.aux_opening matches Some(o) ==> authenticates(
            opening_rep(o),
            rows_flat(self.aux_rows@),
        ))
        &&& authenticates(opening_rep(self.cons_opening), rows_flat(self.cons_rows@))
        &&& self.fri_commitments@.len() == fri_layers_spec(
            ctx.lde_domain_size(),
            ctx.options.fri_folding as int,
            ctx.options.fri_max_remainder as int,
        ) + 1
        &&& (fri_shape_of(self.fri_proof_bytes@) matches Some(sh) && sh.0 + 1
            == self.fri_commitments@.len() && sh.1 == fri_rem_spec(
            ctx.lde_domain_size(),
            ctx.options.fri_folding as int,
            ctx.options.fri_max_remainder as int,
        ) * ext_deg(e) && sh.2 < 32)
        &&& self.cons_rows@.len() == ctx.options.num_queries
        &&& forall|j: int|
            0 <= j < self.cons_rows@.len() ==> (#[trigger] self.cons_rows@[j])@.len()
                == ctx.ce_blowup
        &&& forall|j: int, i: int|
            0 <= j < self.cons_rows@.len() && 0 <= i < self.cons_rows@[j]@.len() ==> fe_in(
                e,
                #[trigger] self.cons_rows@[j]@[i],
            )
    }

    /// Builds a channel from a proof, rejecting any shape that does not
    /// match the computation's context before any cryptographic work.
    #[verifier::rlimit(100)]
    pub fn new(pf: Proof, ctx: &crate::air::AirContext) -> (r: Result<
        VerifierChannel,
        crate::VerifierError,
    >)
        requires
            ctx.wf(),
        ensures
            (r is Ok <==> proof_shape_ok(pf, *ctx)),
            (r matches Ok(ch) ==> ch.wf(*ctx)),
            (r matches Ok(ch) ==> {
                &&& ch.trace_commitments@ == pf.trace_commitments@
                &&& ch.constraint_commitment == pf.constraint_commitment
                &&& ch.fri_commitments@ == pf.fri_commitments@
                &&& ch.ood_main_current@ == pf.ood_main_current@
                &&& ch.ood_main_next@ == pf.ood_main_next@
                &&& ch.ood_aux_current@ == pf.ood_aux_current@
                &&& ch.ood_aux_next@ == pf.ood_aux_next@
                &&& ch.ood_constraint_evaluations@ == pf.ood_constraint_evaluations@
                &&& ch.pow_nonce == pf.pow_nonce
                &&& ch.fri_proof_bytes@ == pf.fri_proof_bytes@
            }),
            (r is Err ==> r == Err::<VerifierChannel, crate::VerifierError>(
                crate::VerifierError::ProofDeserializationError,
            )),
    {
        let e = ctx.options.extension;
        let naux = ctx.aux_widths.len();
        let aux_total: usize = if naux > 0 {
            ctx.aux_widths[0]
        } else {
            0
        };
        proof {
            assert(ctx.aux_width_sum(0) == 0);
            if naux > 0 {
                assert(ctx.aux_width_sum(1) == ctx.aux_width_sum(0) + ctx.aux_widths@[0]);
            }
        }
        let nq = ctx.options.num_queries;

        // commitments
        if pf.trace_commitments.len() != 1 + naux {
            return Err(crate::VerifierError::ProofDeserializationError);
        }
        let mut i: usize = 0;
        while i < pf.trace_commitments.len()
            invariant
                i <= pf.trace_commitments@.len(),
                forall|k: int|
                    0 <= k < i ==> (#[trigger] pf.trace_commitments@[k]).wf(),
            decreases pf.trace_commitments@.len() - i,
        {
            if pf.trace_commitments[i].bytes.len() != 32 {
                return Err(crate::VerifierError::ProofDeserializationError);
            }
            i = i + 1;
        }
        if pf.constraint_commitment.bytes.len() != 32 {
            return Err(crate::VerifierError::ProofDeserializationError);
        }
        let mut i2: usize = 0;
        while i2 < pf.fri_commitments.len()
            invariant
                i2 <= pf.fri_commitments@.len(),
                forall|k: int| 0 <= k < i2 ==> (#[trigger] pf.fri_commitments@[k]).wf(),
            decreases pf.fri_commitments@.len() - i2,
        {
            if pf.fri_commitments[i2].bytes.len() != 32 {
                return Err(crate::VerifierError::ProofDeserializationError);
            }
            i2 = i2 + 1;
        }

        // out-of-domain frame shapes
        if pf.ood_main_current.len() != ctx.main_width
            || pf.ood_main_next.len() != ctx.main_width
            || pf.ood_aux_current.len() != aux_total
            || pf.ood_aux_next.len() != aux_total
            || pf.ood_constraint_evaluations.len() != ctx.ce_blowup {
            return Err(crate::VerifierError::ProofDeserializationError);
        }
        if !row_in(e, &pf.ood_main_current) || !row_in(e, &pf.ood_main_next)
            || !row_in(e, &pf.ood_aux_current) || !row_in(e, &pf.ood_aux_next)
            || !row_in(e, &pf.ood_constraint_evaluations) {
            return Err(crate::VerifierError::ProofDeserializationError);
        }

        // queried rows, parsed and shape-checked
        let lde = ctx.trace_length * ctx.options.blowup;
        proof {
            crate::air::lemma_pow2_mul(
                ctx.trace_length as nat,
                ctx.options.blowup as nat,
            );
        }
        let main_parsed = parse_queries1(&pf.main_trace_queries, lde, nq, ctx.main_width);
        let (main_opening, main_rows) = match main_parsed {
            Some(t) => t,
            None => {
                return Err(crate::VerifierError::ProofDeserializationError);
            },
        };
        let (aux_opening, aux_rows): (Option<Opening>, Vec<Vec<Felt>>) = if naux > 0 {
            let bytes = match &pf.aux_trace_queries {
                Some(b) => b,
                None => {
                    return Err(crate::VerifierError::ProofDeserializationError);
                },
            };
            if aux_total == 0 {
                return Err(crate::VerifierError::ProofDeserializationError);
            }
            match parse_queries(e, bytes, lde, nq, aux_total) {
                Some(t) => (Some(t.0), t.1),
                None => {
                    return Err(crate::VerifierError::ProofDeserializationError);
                },
            }
        } else {
            (None, Vec::new())
        };
        let cons_parsed = parse_queries(e, &pf.constraint_queries, lde, nq, ctx.ce_blowup);
        let (cons_opening, cons_rows) = match cons_parsed {
            Some(t) => t,
            None => {
                return Err(crate::VerifierError::ProofDeserializationError);
            },
        };

        // the layer proof must have the options-derived layer count and
        // remainder size, or the query phase of the low-degree test would
        // run out of its arrays
        let shape = crate::air::fri_shape_counts(
            lde,
            ctx.options.fri_folding,
            ctx.options.fri_max_remainder,
        );
        if pf.fri_commitments.len() != shape.0 + 1 {
            return Err(crate::VerifierError::ProofDeserializationError);
        }
        let degree: usize = match e {
            Ext::Base => 1,
            Ext::Quad => 2,
            Ext::Cube => 3,
        };
        match fri_shape(&pf.fri_proof_bytes) {
            Some(sh) => {
                if sh.0 != shape.0 || sh.1 != shape.1 * degree || sh.2 >= 32 {
                    return Err(crate::VerifierError::ProofDeserializationError);
                }
            },
            None => {
                return Err(crate::VerifierError::ProofDeserializationError);
            },
        }

        Ok(VerifierChannel {
            trace_commitments: pf.trace_commitments,
            constraint_commitment: pf.constraint_commitment,
            fri_commitments: pf.fri_commitments,
            ood_main_current: pf.ood_main_current,
            ood_main_next: pf.ood_main_next,
            ood_aux_current: pf.ood_aux_current,
            ood_aux_next: pf.ood_aux_next,
            ood_constraint_evaluations: pf.ood_constraint_evaluations,
            pow_nonce: pf.pow_nonce,
            fri_proof_bytes: pf.fri_proof_bytes,
            main_opening,
            main_rows,
            aux_opening,
            aux_rows,
            cons_opening,
            cons_rows,
        })
    }
}

} // verus!
