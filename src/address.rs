//! Deterministic slot addresses: each record lives at the address derived from
//! a namespace tag and the record's key bytes.
use vstd::prelude::*;
use vstd::bytes::{spec_u32_to_le_bytes, spec_u64_to_le_bytes, u32_to_le_bytes, u64_to_le_bytes};
use crate::keys::Pubkey;

verus! {

/// Most seeds a derivation accepts, the bump seed included.
pub const MAX_SEEDS: usize = 16;

/// Most bytes in one seed.
pub const MAX_SEED_LEN: usize = 32;

/// The address and bump seed derived from `seeds` under `program_id`, or
/// `None` where no address can be derived.
pub uninterp spec fn program_address(seeds: Seq<Seq<u8>>, program_id: Seq<u8>) -> Option<(Seq<u8>, u8)>;

pub open spec fn seed_views(seeds: Seq<Vec<u8>>) -> Seq<Seq<u8>> {
    seeds.map_values(|s: Vec<u8>| s@)
}

/// An exec derivation result, as the spec value it stands for.
pub open spec fn found_view(r: Option<(Pubkey, u8)>) -> Option<(Seq<u8>, u8)> {
    match r {
        Some((address, bump)) => Some((address@, bump)),
        None => None,
    }
}

/// Whether a seed list is beyond what a derivation accepts: room must be
/// left for the bump seed, and each seed is bounded.
pub open spec fn seeds_too_long(seeds: Seq<Seq<u8>>) -> bool {
    ||| seeds.len() >= MAX_SEEDS
    ||| exists|i: int| 0 <= i < seeds.len() && seeds[i].len() > MAX_SEED_LEN
}

/// Relies on `Pubkey::try_find_program_address` (solana-program, through
/// anchor_lang): the address and bump depend on the seeds and the program id
/// alone, and a seed list that is too long, or holds a seed over 32 bytes,
/// gives `None`.
#[verifier::external_body]
fn find_program_address(seeds: &Vec<Vec<u8>>, program_id: &Pubkey) -> (r: Option<(Pubkey, u8)>)
    ensures
        found_view(r) == program_address(seed_views(seeds@), program_id@),
        seeds_too_long(seed_views(seeds@)) ==> r is None,
{
    let parts: Vec<&[u8]> = seeds.iter().map(|s| s.as_slice()).collect();
    let program = anchor_lang::solana_program::pubkey::Pubkey::new_from_array(program_id.bytes);
    anchor_lang::solana_program::pubkey::Pubkey::try_find_program_address(&parts, &program).map(
        |(address, bump)| (Pubkey { bytes: address.to_bytes() }, bump),
    )
}

pub open spec fn registry_tag() -> Seq<u8> {
    seq![114u8, 101, 103, 105, 115, 116, 114, 121]
}

pub open spec fn agent_tag() -> Seq<u8> {
    seq![97u8, 103, 101, 110, 116]
}

pub open spec fn validation_tag() -> Seq<u8> {
    seq![118u8, 97, 108, 105, 100, 97, 116, 105, 111, 110]
}

pub open spec fn feedback_tag() -> Seq<u8> {
    seq![102u8, 101, 101, 100, 98, 97, 99, 107]
}

pub open spec fn anchor_tag() -> Seq<u8> {
    seq![97u8, 110, 99, 104, 111, 114]
}

/// Seeds of the registry singleton.
pub open spec fn registry_seeds() -> Seq<Seq<u8>> {
    seq![registry_tag()]
}

/// Seeds of an agent keyed by its identity.
pub open spec fn agent_seeds(identity: Seq<u8>) -> Seq<Seq<u8>> {
    seq![agent_tag(), identity]
}

/// Seeds of the agent that received sequential id `id`.
pub open spec fn sequential_agent_seeds(id: u64) -> Seq<Seq<u8>> {
    seq![agent_tag(), spec_u64_to_le_bytes(id)]
}

/// Seeds of the validation of `identity` for `day_key`.
pub open spec fn validation_seeds(identity: Seq<u8>, day_key: u32) -> Seq<Seq<u8>> {
    seq![validation_tag(), identity, spec_u32_to_le_bytes(day_key)]
}

/// Seeds of the feedback that one signer left on `identity`.
pub open spec fn feedback_seeds(identity: Seq<u8>, reviewer: Seq<u8>) -> Seq<Seq<u8>> {
    seq![feedback_tag(), identity, reviewer]
}

/// Seeds of the anchor of a plan, given the plan id's bytes.
pub open spec fn anchor_seeds(plan_id: Seq<u8>) -> Seq<Seq<u8>> {
    seq![anchor_tag(), plan_id]
}

fn tag_registry() -> (r: Vec<u8>)
    ensures
        r@ == registry_tag(),
{
    let r = vec![114u8, 101, 103, 105, 115, 116, 114, 121];
    assert(r@ =~= registry_tag());
    r
}

fn tag_agent() -> (r: Vec<u8>)
    ensures
        r@ == agent_tag(),
{
    let r = vec![97u8, 103, 101, 110, 116];
    assert(r@ =~= agent_tag());
    r
}

fn tag_validation() -> (r: Vec<u8>)
    ensures
        r@ == validation_tag(),
{
    let r = vec![118u8, 97, 108, 105, 100, 97, 116, 105, 111, 110];
    assert(r@ =~= validation_tag());
    r
}

fn tag_feedback() -> (r: Vec<u8>)
    ensures
        r@ == feedback_tag(),
{
    let r = vec![102u8, 101, 101, 100, 98, 97, 99, 107];
    assert(r@ =~= feedback_tag());
    r
}

fn tag_anchor() -> (r: Vec<u8>)
    ensures
        r@ == anchor_tag(),
{
    let r = vec![97u8, 110, 99, 104, 111, 114];
    assert(r@ =~= anchor_tag());
    r
}

/// The address and bump of the registry singleton.
pub fn derive_registry_address(program_id: &Pubkey) -> (r: Option<(Pubkey, u8)>)
    ensures
        found_view(r) == program_address(registry_seeds(), program_id@),
{
    let seeds = vec![tag_registry()];
    assert(seed_views(seeds@) =~= registry_seeds());
    find_program_address(&seeds, program_id)
}

/// The address and bump of the agent keyed by `identity`.
pub fn derive_agent_address(program_id: &Pubkey, identity: &Pubkey) -> (r: Option<(Pubkey, u8)>)
    ensures
        found_view(r) == program_address(agent_seeds(identity@), program_id@),
{
    let seeds = vec![tag_agent(), identity.to_vec()];
    assert(seed_views(seeds@) =~= agent_seeds(identity@));
    find_program_address(&seeds, program_id)
}

/// The address and bump of the agent with sequential id `id`.
pub fn derive_sequential_agent_address(program_id: &Pubkey, id: u64) -> (r: Option<(Pubkey, u8)>)
    ensures
        found_view(r) == program_address(sequential_agent_seeds(id), program_id@),
{
    let seeds = vec![tag_agent(), u64_to_le_bytes(id)];
    assert(seed_views(seeds@) =~= sequential_agent_seeds(id));
    find_program_address(&seeds, program_id)
}

/// The address and bump of the validation of `identity` for `day_key`.
pub fn derive_validation_address(program_id: &Pubkey, identity: &Pubkey, day_key: u32) -> (r: Option<(Pubkey, u8)>)
    ensures
        found_view(r) == program_address(validation_seeds(identity@, day_key), program_id@),
{
    let seeds = vec![tag_validation(), identity.to_vec(), u32_to_le_bytes(day_key)];
    assert(seed_views(seeds@) =~= validation_seeds(identity@, day_key));
    find_program_address(&seeds, program_id)
}

/// The address and bump of the feedback of one rater on `identity`.
pub fn derive_feedback_address(program_id: &Pubkey, identity: &Pubkey, reviewer: &Pubkey) -> (r: Option<(Pubkey, u8)>)
    ensures
        found_view(r) == program_address(feedback_seeds(identity@, reviewer@), program_id@),
{
    let seeds = vec![tag_feedback(), identity.to_vec(), reviewer.to_vec()];
    assert(seed_views(seeds@) =~= feedback_seeds(identity@, reviewer@));
    find_program_address(&seeds, program_id)
}

/// The anchor address of a plan whose id is `plan_id` (as bytes); a plan id
/// over 32 bytes has none.
pub fn derive_anchor_address(program_id: &Pubkey, plan_id: Vec<u8>) -> (r: Option<(Pubkey, u8)>)
    ensures
        found_view(r) == program_address(anchor_seeds(plan_id@), program_id@),
        plan_id@.len() > MAX_SEED_LEN ==> r is None,
{
    let ghost p = plan_id@;
    let seeds = vec![tag_anchor(), plan_id];
    assert(seed_views(seeds@) =~= anchor_seeds(p));
    assert(seed_views(seeds@)[1].len() > MAX_SEED_LEN ==> seeds_too_long(seed_views(seeds@)));
    find_program_address(&seeds, program_id)
}

} // verus!
