//! Derived authorities: signing identities that no private key stands behind.
//!
//! An address is derived from a list of byte seeds and the program it belongs
//! to. Whoever holds the seeds and the bump that completes them can present
//! them again, and the ledger re-derives the address to accept the signature.

use vstd::prelude::*;
use vstd::bytes::*;
use anchor_lang::prelude::Pubkey;
use anchor_lang::solana_program::pubkey::PubkeyError;
use crate::identity::Identity;

verus! {

/// Why a list of seeds derives no address.
#[derive(Clone, Copy, Debug, PartialEq, Eq, Structural)]
pub enum SeedError {
    /// More than [`MAX_SEEDS`] seeds, or one longer than [`MAX_SEED_LEN`].
    TooLong,
    /// The seeds hash to a point on the curve, where private keys exist.
    OnCurve,
}

/// The most seeds one derivation takes.
pub const MAX_SEEDS: usize = 16;

/// The most bytes one seed holds.
pub const MAX_SEED_LEN: usize = 32;

/// The address that `Pubkey::create_program_address` derives from `seeds`
/// under `program`; `None` where it reports an error.
pub uninterp spec fn program_address(seeds: Seq<Seq<u8>>, program: Identity) -> Option<Identity>;

/// Whether `Pubkey::is_on_curve` finds `address` on the curve. Only an address
/// on the curve can have a private key, and so sign for itself.
pub uninterp spec fn on_curve(address: Identity) -> bool;

/// Seeds within the limits on their number and on the length of each.
pub open spec fn seeds_fit(seeds: Seq<Seq<u8>>) -> bool {
    &&& seeds.len() <= MAX_SEEDS
    &&& forall|i: int| 0 <= i < seeds.len() ==> (#[trigger] seeds[i]).len() <= MAX_SEED_LEN
}

/// `seeds` completed by a one-byte bump seed.
pub open spec fn with_bump(seeds: Seq<Seq<u8>>, bump: u8) -> Seq<Seq<u8>> {
    seeds.push(seq![bump])
}

/// `bump` is the highest bump, from 255 down to 1, that completes `seeds` to a
/// derivation under `program`, and `address` is what it derives.
pub open spec fn highest_bump(
    seeds: Seq<Seq<u8>>,
    program: Identity,
    address: Identity,
    bump: u8,
) -> bool {
    &&& 1 <= bump
    &&& program_address(with_bump(seeds, bump), program) == Some(address)
    &&& forall|c: u8| bump < c ==> program_address(#[trigger] with_bump(seeds, c), program) is None
}

/// No bump from 255 down to 1 completes `seeds` to a derivation.
pub open spec fn no_bump(seeds: Seq<Seq<u8>>, program: Identity) -> bool {
    forall|c: u8| 1 <= c ==> program_address(#[trigger] with_bump(seeds, c), program) is None
}

/// The result of searching the bumps from `from` down to 1: the first that
/// derives an address, with that address.
pub open spec fn search_from(seeds: Seq<Seq<u8>>, program: Identity, from: u8) -> Option<
    (Identity, u8),
>
    decreases from,
{
    if from == 0 {
        None
    } else {
        match program_address(with_bump(seeds, from), program) {
            Some(address) => Some((address, from)),
            None => search_from(seeds, program, (from - 1) as u8),
        }
    }
}

/// The address and bump derived from `seeds` under `program`: the search over
/// all bumps, from 255 down.
pub open spec fn derived(seeds: Seq<Seq<u8>>, program: Identity) -> Option<(Identity, u8)> {
    search_from(seeds, program, 255)
}

/// Calls `Pubkey::create_program_address`. The claim: the call succeeds exactly
/// where [`program_address`] names an address, which is then the one returned
/// and lies off the curve; it reports seeds as too long exactly when they
/// exceed the limits on their number or on the length of one, before it
/// derives anything.
#[verifier::external_body]
fn create_program_address(seeds: &Vec<Vec<u8>>, program: &Identity) -> (r: Result<
    Identity,
    SeedError,
>)
    ensures
        match r {
            Ok(a) => seeds_fit(seeds.deep_view()) && program_address(seeds.deep_view(), *program)
                == Some(a) && !on_curve(a),
            Err(SeedError::TooLong) => !seeds_fit(seeds.deep_view()) && program_address(
                seeds.deep_view(),
                *program,
            ) is None,
            Err(SeedError::OnCurve) => seeds_fit(seeds.deep_view()) && program_address(
                seeds.deep_view(),
                *program,
            ) is None,
        },
{
    let parts: Vec<&[u8]> = seeds.iter().map(|s| s.as_slice()).collect();
    match Pubkey::create_program_address(&parts, &Pubkey::new_from_array(program.bytes)) {
        Ok(key) => Ok(Identity { bytes: key.to_bytes() }),
        Err(PubkeyError::MaxSeedLengthExceeded) => Err(SeedError::TooLong),
        Err(PubkeyError::InvalidSeeds) => Err(SeedError::OnCurve),
        Err(PubkeyError::IllegalOwner) => Err(SeedError::OnCurve),
    }
}

/// Calls `Pubkey::try_find_program_address`. The claim: it tries the bumps from
/// 255 down to 1 with `create_program_address` and returns the first that
/// derives an address, with that address, which lies off the curve; `None`
/// when none does.
#[verifier::external_body]
fn try_find_program_address(seeds: &Vec<Vec<u8>>, program: &Identity) -> (r: Option<
    (Identity, u8),
>)
    ensures
        match r {
            Some((a, b)) => highest_bump(seeds.deep_view(), *program, a, b) && !on_curve(a),
            None => no_bump(seeds.deep_view(), *program),
        },
{
    let parts: Vec<&[u8]> = seeds.iter().map(|s| s.as_slice()).collect();
    match Pubkey::try_find_program_address(&parts, &Pubkey::new_from_array(program.bytes)) {
        Some((key, bump)) => Some((Identity { bytes: key.to_bytes() }, bump)),
        None => None,
    }
}

/// Calls `Pubkey::is_on_curve`. The claim: its answer is the one that
/// [`on_curve`] names.
#[verifier::external_body]
fn is_on_curve(address: &Identity) -> (r: bool)
    ensures
        r == on_curve(*address),
{
    Pubkey::new_from_array(address.bytes).is_on_curve()
}

/// The search from `from` finds nothing when no bump up to `from` derives.
proof fn lemma_search_none(seeds: Seq<Seq<u8>>, program: Identity, from: u8)
    requires
        forall|c: u8| 1 <= c <= from ==> program_address(#[trigger] with_bump(seeds, c), program) is None,
    ensures
        search_from(seeds, program, from) is None,
    decreases from,
{
    if from != 0 {
        assert(program_address(with_bump(seeds, from), program) is None);
        lemma_search_none(seeds, program, (from - 1) as u8);
    }
}

/// The search from `from` stops at `bump` when `bump` derives `address` and no
/// bump between `bump` and `from` derives anything.
proof fn lemma_search_some(
    seeds: Seq<Seq<u8>>,
    program: Identity,
    from: u8,
    address: Identity,
    bump: u8,
)
    requires
        1 <= bump <= from,
        program_address(with_bump(seeds, bump), program) == Some(address),
        forall|c: u8| bump < c <= from ==> program_address(#[trigger] with_bump(seeds, c), program) is None,
    ensures
        search_from(seeds, program, from) == Some((address, bump)),
    decreases from,
{
    if from != bump {
        assert(program_address(with_bump(seeds, from), program) is None);
        lemma_search_some(seeds, program, (from - 1) as u8, address, bump);
    }
}

/// What the search finds is a derivation: the bump it returns completes the
/// seeds to the address it returns.
pub proof fn lemma_derived_rederives(seeds: Seq<Seq<u8>>, program: Identity, from: u8)
    ensures
        search_from(seeds, program, from) matches Some((address, bump)) ==> 1 <= bump <= from
            && program_address(with_bump(seeds, bump), program) == Some(address),
    decreases from,
{
    if from != 0 {
        if program_address(with_bump(seeds, from), program) is None {
            lemma_derived_rederives(seeds, program, (from - 1) as u8);
        }
    }
}

/// Re-derives the address that `seeds` give under `program`, without a search.
///
/// Succeeds exactly where the seeds derive an address. Otherwise it tells
/// seeds beyond the limits on their number and length from seeds that land on
/// the curve.
pub fn rederive(seeds: &Vec<Vec<u8>>, program: &Identity) -> (r: Result<Identity, SeedError>)
    ensures
        match r {
            Ok(a) => seeds_fit(seeds.deep_view()) && program_address(seeds.deep_view(), *program)
                == Some(a) && !on_curve(a),
            Err(SeedError::TooLong) => !seeds_fit(seeds.deep_view()) && program_address(
                seeds.deep_view(),
                *program,
            ) is None,
            Err(SeedError::OnCurve) => seeds_fit(seeds.deep_view()) && program_address(
                seeds.deep_view(),
                *program,
            ) is None,
        },
{
    create_program_address(seeds, program)
}

/// The address that `seeds` give under `program`, if they give one. It lies
/// off the curve: no private key signs for it.
pub fn address_of(seeds: &Vec<Vec<u8>>, program: &Identity) -> (r: Option<Identity>)
    ensures
        r == program_address(seeds.deep_view(), *program),
        r matches Some(a) ==> !on_curve(a),
{
    match create_program_address(seeds, program) {
        Ok(a) => Some(a),
        Err(_) => None,
    }
}

/// Whether a private key can stand behind `address`, so that it can sign for
/// itself: whether it lies on the curve.
///
/// For use off the chain: a program built for the chain has no curve
/// arithmetic, and the call aborts there.
pub fn can_sign(address: &Identity) -> (r: bool)
    ensures
        r == on_curve(*address),
{
    is_on_curve(address)
}

/// Derives an address and its bump from `seeds` under `program`.
///
/// The result is a function of the arguments alone: the highest bump from 255
/// down to 1 that completes the seeds, and the address it gives, which lies off
/// the curve. `None` when no bump does.
pub fn find_address(seeds: &Vec<Vec<u8>>, program: &Identity) -> (r: Option<(Identity, u8)>)
    ensures
        r == derived(seeds.deep_view(), *program),
        r matches Some((a, _)) ==> !on_curve(a),
{
    let r = try_find_program_address(seeds, program);
    proof {
        match r {
            Some((a, b)) => {
                lemma_search_some(seeds.deep_view(), *program, 255, a, b);
            },
            None => {
                lemma_search_none(seeds.deep_view(), *program, 255);
            },
        }
    }
    r
}

/// The tag that opens the seeds of every escrow record: the bytes of "escrow".
pub open spec fn escrow_tag() -> Seq<u8> {
    seq![101u8, 115u8, 99u8, 114u8, 111u8, 119u8]
}

/// The seeds of the record that `maker` opens under `seed`: the tag, the
/// maker's address, and the seed as eight little-endian bytes.
pub open spec fn escrow_seeds(maker: Identity, seed: u64) -> Seq<Seq<u8>> {
    seq![escrow_tag(), maker.bytes@, spec_u64_to_le_bytes(seed)]
}

/// The seeds that sign for the record of `maker` and `seed`: its seeds
/// completed by the stored bump.
pub open spec fn escrow_signer_seeds(maker: Identity, seed: u64, bump: u8) -> Seq<Seq<u8>> {
    with_bump(escrow_seeds(maker, seed), bump)
}

/// The bytes of a seed list are the bytes of its seeds, one for one.
pub proof fn lemma_seeds_view(seeds: &Vec<Vec<u8>>)
    ensures
        seeds.deep_view().len() == seeds@.len(),
        forall|i: int| 0 <= i < seeds@.len() ==> #[trigger] seeds.deep_view()[i] == seeds@[i]@,
{
    assert forall|i: int| 0 <= i < seeds@.len() implies #[trigger] seeds.deep_view()[i]
        == seeds@[i]@ by {
        assert(seeds@[i].deep_view() =~= seeds@[i]@);
    }
}

/// Builds the seeds of the record that `maker` opens under `seed`.
pub fn escrow_seeds_of(maker: &Identity, seed: u64) -> (seeds: Vec<Vec<u8>>)
    ensures
        seeds.deep_view() == escrow_seeds(*maker, seed),
{
    let mut tag: Vec<u8> = Vec::new();
    tag.push(101u8);
    tag.push(115u8);
    tag.push(99u8);
    tag.push(114u8);
    tag.push(111u8);
    tag.push(119u8);
    assert(tag@ =~= escrow_tag());
    let mut seeds: Vec<Vec<u8>> = Vec::new();
    seeds.push(tag);
    seeds.push(maker.to_vec());
    seeds.push(u64_to_le_bytes(seed));
    proof {
        lemma_seeds_view(&seeds);
        assert(seeds.deep_view() =~= escrow_seeds(*maker, seed));
    }
    seeds
}

/// Builds the seeds that sign for the record of `maker` and `seed` with `bump`.
pub fn escrow_signer_seeds_of(maker: &Identity, seed: u64, bump: u8) -> (seeds: Vec<Vec<u8>>)
    ensures
        seeds.deep_view() == escrow_signer_seeds(*maker, seed, bump),
{
    let mut seeds = escrow_seeds_of(maker, seed);
    let ghost before = seeds;
    let mut last: Vec<u8> = Vec::new();
    last.push(bump);
    assert(last@ =~= seq![bump]);
    seeds.push(last);
    proof {
        lemma_seeds_view(&before);
        lemma_seeds_view(&seeds);
        assert(seeds.deep_view() =~= with_bump(before.deep_view(), bump));
    }
    seeds
}

/// Where the record that `maker` opens under `seed` stands, for the escrow
/// program `program`: its address, and the bump that completes its seeds.
pub open spec fn escrow_home(maker: Identity, seed: u64, program: Identity) -> Option<
    (Identity, u8),
> {
    derived(escrow_seeds(maker, seed), program)
}

/// The address and bump of the record that `maker` opens under `seed`, for the
/// escrow program `program`. `None` when no bump derives one.
pub fn find_escrow_address(maker: &Identity, seed: u64, program: &Identity) -> (r: Option<
    (Identity, u8),
>)
    ensures
        r == escrow_home(*maker, seed, *program),
        r matches Some((a, _)) ==> !on_curve(a),
{
    let seeds = escrow_seeds_of(maker, seed);
    find_address(&seeds, program)
}

/// The bump found for a record re-derives the record's address.
pub proof fn lemma_escrow_home_rederives(maker: Identity, seed: u64, program: Identity)
    ensures
        escrow_home(maker, seed, program) matches Some((address, bump)) ==> program_address(
            escrow_signer_seeds(maker, seed, bump),
            program,
        ) == Some(address),
{
    lemma_derived_rederives(escrow_seeds(maker, seed), program, 255);
}

/// The address that `maker`, `seed` and the stored `bump` re-derive under
/// `program`, without a search. `None` when they derive none.
pub fn escrow_address(maker: &Identity, seed: u64, bump: u8, program: &Identity) -> (r: Option<
    Identity,
>)
    ensures
        r == program_address(escrow_signer_seeds(*maker, seed, bump), *program),
        r matches Some(a) ==> !on_curve(a),
{
    let seeds = escrow_signer_seeds_of(maker, seed, bump);
    address_of(&seeds, program)
}

} // verus!
