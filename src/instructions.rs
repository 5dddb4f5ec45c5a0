//! The operations of the registry. Each comes twice: `*_at` applies the
//! operation given the result of deriving its slot address, and the plain
//! form derives that address under the ledger's program id first.
use vstd::prelude::*;
use vstd::utf8::encode_utf8;
use crate::address::{
    derive_agent_address, derive_anchor_address, derive_feedback_address, derive_registry_address,
    derive_sequential_agent_address, derive_validation_address, found_view,
};
use crate::keys::Pubkey;
use crate::ledger::Ledger;
use crate::records::{
    skills_within, text_within, texts_view, Agent, AgentPatch, AnchorMerkleRoot, Event, Feedback,
    InitializeRegistry, MerkleAnchor, PostFeedback, PostValidation, Record, RegisterAgent, Registry,
    RegistryError, UpdateAgent, Validation, MAX_PLAN_ID_LEN, MAX_RATING, MAX_TEXT_LEN,
};
use crate::steps::{
    anchor_call, anchor_step, deactivate_step, event_result, feedback_call, feedback_step, initialize_call,
    initialize_step, profile_fits, register_call, register_step, sequential_call, sequential_step, update_step,
    validation_call, validation_step,
};

verus! {

/// Creates the registry singleton at the address `found`, with `ctx.authority`
/// as its authority and no agents counted.
pub fn initialize_registry_at(ledger: &mut Ledger, ctx: &InitializeRegistry, found: Option<(Pubkey, u8)>) -> (r: Result<(), RegistryError>)
    requires
        old(ledger).wf(),
    ensures
        final(ledger).wf(),
        final(ledger).program() == old(ledger).program(),
        (final(ledger)@, r) == initialize_step(old(ledger)@, found_view(found), ctx.authority@),
{
    let (address, bump) = match found {
        Some(f) => f,
        None => return Err(RegistryError::AddressUnavailable),
    };
    if ledger.lookup(&address).is_some() {
        return Err(RegistryError::AlreadyInitialized);
    }
    ledger.create(address, Record::Registry(Registry { authority: ctx.authority, total_agents: 0, bump }));
    Ok(())
}

/// Creates the registry singleton; a second call fails with
/// `AlreadyInitialized`.
pub fn initialize_registry(ledger: &mut Ledger, ctx: &InitializeRegistry) -> (r: Result<(), RegistryError>)
    requires
        old(ledger).wf(),
    ensures
        final(ledger).wf(),
        final(ledger).program() == old(ledger).program(),
        (final(ledger)@, r) == initialize_call(old(ledger)@, old(ledger).program(), ctx.authority@),
{
    let pid = ledger.program_id();
    let found = derive_registry_address(&pid);
    initialize_registry_at(ledger, ctx, found)
}

/// Creates an agent keyed by `identity`, owned by the signer, at the address
/// `found`.
pub fn register_agent_at(
    ledger: &mut Ledger,
    ctx: &RegisterAgent,
    identity: Pubkey,
    metadata_uri: String,
    found: Option<(Pubkey, u8)>,
    now: i64,
) -> (r: Result<Event, RegistryError>)
    requires
        old(ledger).wf(),
    ensures
        final(ledger).wf(),
        final(ledger).program() == old(ledger).program(),
        (final(ledger)@, event_result(r)) == register_step(old(ledger)@, found_view(found), ctx.owner@, identity@, metadata_uri@, now),
{
    if !text_within(&metadata_uri, MAX_TEXT_LEN) {
        return Err(RegistryError::MetadataTooLong);
    }
    let (address, bump) = match found {
        Some(f) => f,
        None => return Err(RegistryError::AddressUnavailable),
    };
    if ledger.lookup(&address).is_some() {
        return Err(RegistryError::DuplicateAgent);
    }
    let agent = Agent {
        id: None,
        identity,
        owner: ctx.owner,
        name: String::new(),
        description: String::new(),
        version: String::new(),
        skills: Vec::new(),
        metadata_uri,
        bump,
        created_at: now,
        updated_at: now,
        is_active: true,
    };
    assert(texts_view(agent.skills@) =~= Seq::empty());
    ledger.create(address, Record::Agent(agent));
    Ok(Event::AgentRegistered { id: None, identity, owner: ctx.owner, name: String::new() })
}

/// Creates an agent keyed by `identity` and owned by the signer; fails with
/// `DuplicateAgent` where that identity is registered already.
pub fn register_agent(
    ledger: &mut Ledger,
    ctx: &RegisterAgent,
    identity: Pubkey,
    metadata_uri: String,
    now: i64,
) -> (r: Result<Event, RegistryError>)
    requires
        old(ledger).wf(),
    ensures
        final(ledger).wf(),
        final(ledger).program() == old(ledger).program(),
        (final(ledger)@, event_result(r)) == register_call(old(ledger)@, old(ledger).program(), ctx.owner@, identity@, metadata_uri@, now),
{
    let pid = ledger.program_id();
    let found = derive_agent_address(&pid, &identity);
    register_agent_at(ledger, ctx, identity, metadata_uri, found, now)
}

/// Whether the texts of a new agent are within their bounds.
fn profile_within(
    name: &String,
    description: &String,
    version: &String,
    skills: &Vec<String>,
    metadata_uri: &String,
) -> (r: bool)
    ensures
        r == profile_fits(name@, description@, version@, texts_view(skills@), metadata_uri@),
{
    text_within(name, MAX_TEXT_LEN) && text_within(description, MAX_TEXT_LEN) && text_within(version, MAX_TEXT_LEN)
        && text_within(metadata_uri, MAX_TEXT_LEN) && skills_within(skills)
}

/// Creates an agent under the next sequential id. `registry` is the derived
/// address of the registry, and `slot` the one derived from its current count;
/// the new agent's identity is `slot`'s address.
pub fn register_agent_sequential_at(
    ledger: &mut Ledger,
    ctx: &RegisterAgent,
    name: String,
    description: String,
    version: String,
    skills: Vec<String>,
    metadata_uri: String,
    registry: Option<(Pubkey, u8)>,
    slot: Option<(Pubkey, u8)>,
    now: i64,
) -> (r: Result<Event, RegistryError>)
    requires
        old(ledger).wf(),
    ensures
        final(ledger).wf(),
        final(ledger).program() == old(ledger).program(),
        (final(ledger)@, event_result(r)) == sequential_step(
            old(ledger)@,
            found_view(registry),
            found_view(slot),
            ctx.owner@,
            name@,
            description@,
            version@,
            texts_view(skills@),
            metadata_uri@,
            now,
        ),
{
    if !profile_within(&name, &description, &version, &skills, &metadata_uri) {
        return Err(RegistryError::MetadataTooLong);
    }
    let (registry_address, _) = match registry {
        Some(f) => f,
        None => return Err(RegistryError::AddressUnavailable),
    };
    let total: u64 = match ledger.lookup(&registry_address) {
        Some(Record::Registry(reg)) => reg.total_agents,
        _ => return Err(RegistryError::NotFound),
    };
    if total == u64::MAX {
        return Err(RegistryError::CounterOverflow);
    }
    let (address, bump) = match slot {
        Some(f) => f,
        None => return Err(RegistryError::AddressUnavailable),
    };
    if ledger.lookup(&address).is_some() {
        return Err(RegistryError::DuplicateAgent);
    }
    let ghost m0 = ledger@;
    match ledger.take(&registry_address) {
        Some(Record::Registry(reg)) => {
            let counted = Registry { authority: reg.authority, total_agents: total + 1, bump: reg.bump };
            ledger.create(registry_address, Record::Registry(counted));
        },
        _ => {},
    }
    assert(ledger@ =~= m0.insert(registry_address@, ledger@[registry_address@]));
    let event_name = name.clone();
    let agent = Agent {
        id: Some(total),
        identity: address,
        owner: ctx.owner,
        name,
        description,
        version,
        skills,
        metadata_uri,
        bump,
        created_at: now,
        updated_at: now,
        is_active: true,
    };
    ledger.create(address, Record::Agent(agent));
    Ok(Event::AgentRegistered { id: Some(total), identity: address, owner: ctx.owner, name: event_name })
}

/// Creates an agent under the next sequential id, owned by the signer, and
/// counts it in the registry.
pub fn register_agent_sequential(
    ledger: &mut Ledger,
    ctx: &RegisterAgent,
    name: String,
    description: String,
    version: String,
    skills: Vec<String>,
    metadata_uri: String,
    now: i64,
) -> (r: Result<Event, RegistryError>)
    requires
        old(ledger).wf(),
    ensures
        final(ledger).wf(),
        final(ledger).program() == old(ledger).program(),
        (final(ledger)@, event_result(r)) == sequential_call(
            old(ledger)@,
            old(ledger).program(),
            ctx.owner@,
            name@,
            description@,
            version@,
            texts_view(skills@),
            metadata_uri@,
            now,
        ),
{
    let pid = ledger.program_id();
    let registry = derive_registry_address(&pid);
    let total: u64 = match registry {
        Some((registry_address, _)) => match ledger.lookup(&registry_address) {
            Some(Record::Registry(reg)) => reg.total_agents,
            _ => 0,
        },
        None => 0,
    };
    let slot = derive_sequential_agent_address(&pid, total);
    register_agent_sequential_at(ledger, ctx, name, description, version, skills, metadata_uri, registry, slot, now)
}

/// Applies the fields that `patch` supplies to the agent at `ctx.agent`,
/// where the signer is its owner and every supplied field is within bounds.
pub fn update_agent(ledger: &mut Ledger, ctx: &UpdateAgent, patch: AgentPatch, now: i64) -> (r: Result<Event, RegistryError>)
    requires
        old(ledger).wf(),
    ensures
        final(ledger).wf(),
        final(ledger).program() == old(ledger).program(),
        (final(ledger)@, event_result(r)) == update_step(old(ledger)@, ctx.owner@, ctx.agent@, patch@, now),
{
    let (identity, owner) = match ledger.lookup(&ctx.agent) {
        Some(Record::Agent(a)) => (a.identity, a.owner),
        _ => return Err(RegistryError::NotFound),
    };
    if !ctx.owner.same_as(&owner) {
        return Err(RegistryError::Unauthorized);
    }
    if !patch.fits() {
        return Err(RegistryError::MetadataTooLong);
    }
    let ghost m0 = ledger@;
    match ledger.take(&ctx.agent) {
        Some(Record::Agent(a)) => {
            let Agent {
                id,
                identity,
                owner,
                name,
                description,
                version,
                skills,
                metadata_uri,
                bump,
                created_at,
                updated_at: _,
                is_active,
            } = a;
            let AgentPatch { name: new_name, description: new_description, version: new_version, skills: new_skills, metadata_uri: new_uri } = patch;
            let updated = Agent {
                id,
                identity,
                owner,
                name: match new_name {
                    Some(t) => t,
                    None => name,
                },
                description: match new_description {
                    Some(t) => t,
                    None => description,
                },
                version: match new_version {
                    Some(t) => t,
                    None => version,
                },
                skills: match new_skills {
                    Some(t) => t,
                    None => skills,
                },
                metadata_uri: match new_uri {
                    Some(t) => t,
                    None => metadata_uri,
                },
                bump,
                created_at,
                updated_at: now,
                is_active,
            };
            ledger.create(ctx.agent, Record::Agent(updated));
        },
        _ => {},
    }
    assert(ledger@ =~= m0.insert(ctx.agent@, ledger@[ctx.agent@]));
    Ok(Event::AgentUpdated { identity, owner })
}

/// Marks the agent at `ctx.agent` inactive, where the signer is its owner.
/// No operation makes it active again.
pub fn deactivate_agent(ledger: &mut Ledger, ctx: &UpdateAgent, now: i64) -> (r: Result<Event, RegistryError>)
    requires
        old(ledger).wf(),
    ensures
        final(ledger).wf(),
        final(ledger).program() == old(ledger).program(),
        (final(ledger)@, event_result(r)) == deactivate_step(old(ledger)@, ctx.owner@, ctx.agent@, now),
{
    let (identity, owner) = match ledger.lookup(&ctx.agent) {
        Some(Record::Agent(a)) => (a.identity, a.owner),
        _ => return Err(RegistryError::NotFound),
    };
    if !ctx.owner.same_as(&owner) {
        return Err(RegistryError::Unauthorized);
    }
    let ghost m0 = ledger@;
    match ledger.take(&ctx.agent) {
        Some(Record::Agent(a)) => {
            let mut a = a;
            a.is_active = false;
            a.updated_at = now;
            ledger.create(ctx.agent, Record::Agent(a));
        },
        _ => {},
    }
    assert(ledger@ =~= m0.insert(ctx.agent@, ledger@[ctx.agent@]));
    Ok(Event::AgentDeactivated { identity, owner })
}

/// Creates the validation at the address `found`, for the agent at
/// `ctx.agent`; any signer may validate.
pub fn post_validation_at(
    ledger: &mut Ledger,
    ctx: &PostValidation,
    day_yyyymmdd: u32,
    merkle_root: [u8; 32],
    found: Option<(Pubkey, u8)>,
    now: i64,
) -> (r: Result<(), RegistryError>)
    requires
        old(ledger).wf(),
    ensures
        final(ledger).wf(),
        final(ledger).program() == old(ledger).program(),
        (final(ledger)@, r) == validation_step(old(ledger)@, ctx.validator@, ctx.agent@, found_view(found), day_yyyymmdd, merkle_root@, now),
{
    let identity = match ledger.lookup(&ctx.agent) {
        Some(Record::Agent(a)) => a.identity,
        _ => return Err(RegistryError::NotFound),
    };
    let (address, bump) = match found {
        Some(f) => f,
        None => return Err(RegistryError::AddressUnavailable),
    };
    if ledger.lookup(&address).is_some() {
        return Err(RegistryError::DuplicateValidation);
    }
    let v = Validation { identity, validator: ctx.validator, day_yyyymmdd, merkle_root, bump, ts: now };
    ledger.create(address, Record::Validation(v));
    Ok(())
}

/// Records the signer's validation of the agent at `ctx.agent` for a day;
/// a second one for the same identity and day fails with
/// `DuplicateValidation`.
pub fn post_validation(
    ledger: &mut Ledger,
    ctx: &PostValidation,
    day_yyyymmdd: u32,
    merkle_root: [u8; 32],
    now: i64,
) -> (r: Result<(), RegistryError>)
    requires
        old(ledger).wf(),
    ensures
        final(ledger).wf(),
        final(ledger).program() == old(ledger).program(),
        (final(ledger)@, r) == validation_call(old(ledger)@, old(ledger).program(), ctx.validator@, ctx.agent@, day_yyyymmdd, merkle_root@, now),
{
    let pid = ledger.program_id();
    let found = match ledger.lookup(&ctx.agent) {
        Some(Record::Agent(a)) => derive_validation_address(&pid, &a.identity, day_yyyymmdd),
        _ => return Err(RegistryError::NotFound),
    };
    post_validation_at(ledger, ctx, day_yyyymmdd, merkle_root, found, now)
}

/// Creates the feedback at the address `found`, or overwrites its rating,
/// tag and time where it exists.
pub fn post_feedback_at(
    ledger: &mut Ledger,
    ctx: &PostFeedback,
    rating: u8,
    tag: u8,
    found: Option<(Pubkey, u8)>,
    now: i64,
) -> (r: Result<(), RegistryError>)
    requires
        old(ledger).wf(),
    ensures
        final(ledger).wf(),
        final(ledger).program() == old(ledger).program(),
        (final(ledger)@, r) == feedback_step(old(ledger)@, ctx.reviewer@, ctx.agent@, found_view(found), rating, tag, now),
{
    if rating > MAX_RATING {
        return Err(RegistryError::BadRating);
    }
    let identity = match ledger.lookup(&ctx.agent) {
        Some(Record::Agent(a)) => a.identity,
        _ => return Err(RegistryError::NotFound),
    };
    let (address, bump) = match found {
        Some(f) => f,
        None => return Err(RegistryError::AddressUnavailable),
    };
    let ghost m0 = ledger@;
    match ledger.take(&address) {
        None => {
            assert(ledger@ =~= m0);
            let f = Feedback { identity, reviewer: ctx.reviewer, rating, tag, bump, ts: now };
            ledger.create(address, Record::Feedback(f));
            Ok(())
        },
        Some(Record::Feedback(f)) => {
            let f = Feedback { rating, tag, ts: now, ..f };
            ledger.create(address, Record::Feedback(f));
            assert(ledger@ =~= m0.insert(address@, ledger@[address@]));
            Ok(())
        },
        Some(other) => {
            ledger.create(address, other);
            assert(ledger@ =~= m0);
            Err(RegistryError::AddressUnavailable)
        },
    }
}

/// Records the signer's rating of the agent at `ctx.agent`: one feedback
/// per rater and identity, created on the first post and overwritten on
/// later ones.
pub fn post_feedback(ledger: &mut Ledger, ctx: &PostFeedback, rating: u8, tag: u8, now: i64) -> (r: Result<(), RegistryError>)
    requires
        old(ledger).wf(),
    ensures
        final(ledger).wf(),
        final(ledger).program() == old(ledger).program(),
        (final(ledger)@, r) == feedback_call(old(ledger)@, old(ledger).program(), ctx.reviewer@, ctx.agent@, rating, tag, now),
{
    if rating > MAX_RATING {
        return Err(RegistryError::BadRating);
    }
    let pid = ledger.program_id();
    let found = match ledger.lookup(&ctx.agent) {
        Some(Record::Agent(a)) => derive_feedback_address(&pid, &a.identity, &ctx.reviewer),
        _ => return Err(RegistryError::NotFound),
    };
    post_feedback_at(ledger, ctx, rating, tag, found, now)
}

/// The UTF-8 bytes of a text.
fn text_bytes(s: &String) -> (r: Vec<u8>)
    ensures
        r@ == encode_utf8(s@),
{
    let b = s.as_str().as_bytes();
    let mut r: Vec<u8> = Vec::new();
    let mut i: usize = 0;
    while i < b.len()
        invariant
            0 <= i <= b@.len(),
            b@ == encode_utf8(s@),
            r@ == b@.subrange(0, i as int),
        decreases b@.len() - i,
    {
        r.push(b[i]);
        i = i + 1;
    }
    assert(r@ =~= b@);
    r
}

/// Anchors `merkle_root` under `plan_id` at the address `found`, once.
pub fn anchor_merkle_root_at(
    ledger: &mut Ledger,
    ctx: &AnchorMerkleRoot,
    plan_id: String,
    merkle_root: [u8; 32],
    found: Option<(Pubkey, u8)>,
    now: i64,
) -> (r: Result<Event, RegistryError>)
    requires
        old(ledger).wf(),
    ensures
        final(ledger).wf(),
        final(ledger).program() == old(ledger).program(),
        (final(ledger)@, event_result(r)) == anchor_step(old(ledger)@, ctx.authority@, plan_id@, found_view(found), merkle_root@, now),
{
    if !text_within(&plan_id, MAX_PLAN_ID_LEN) {
        return Err(RegistryError::MetadataTooLong);
    }
    let (address, bump) = match found {
        Some(f) => f,
        None => return Err(RegistryError::AddressUnavailable),
    };
    if ledger.lookup(&address).is_some() {
        return Err(RegistryError::DuplicateAnchor);
    }
    let event_plan = plan_id.clone();
    let anchor = MerkleAnchor { plan_id, root: merkle_root, anchored_at: now, authority: ctx.authority, bump };
    ledger.create(address, Record::Anchor(anchor));
    Ok(Event::MerkleRootAnchored { plan_id: event_plan, root: merkle_root, authority: ctx.authority })
}

/// Anchors `merkle_root` under `plan_id`; the digest of a plan can never be
/// replaced, and anchoring it again fails with `DuplicateAnchor`.
pub fn anchor_merkle_root(
    ledger: &mut Ledger,
    ctx: &AnchorMerkleRoot,
    plan_id: String,
    merkle_root: [u8; 32],
    now: i64,
) -> (r: Result<Event, RegistryError>)
    requires
        old(ledger).wf(),
    ensures
        final(ledger).wf(),
        final(ledger).program() == old(ledger).program(),
        (final(ledger)@, event_result(r)) == anchor_call(old(ledger)@, old(ledger).program(), ctx.authority@, plan_id@, merkle_root@, now),
{
    let pid = ledger.program_id();
    let found = derive_anchor_address(&pid, text_bytes(&plan_id));
    anchor_merkle_root_at(ledger, ctx, plan_id, merkle_root, found, now)
}

} // verus!
