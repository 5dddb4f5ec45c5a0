//! Each operation as a transition of the ledger's contents: the new contents
//! and the outcome, given the address that the operation's keys derive to.
use vstd::prelude::*;
use vstd::utf8::encode_utf8;
use crate::address::{
    agent_seeds, anchor_seeds, feedback_seeds, program_address, registry_seeds, sequential_agent_seeds,
    validation_seeds,
};
use crate::records::{
    byte_len, patch_fits, skills_fit, AgentView, AnchorView, Event, EventView, FeedbackView, PatchView, RecordView,
    RegistryError, RegistryView, ValidationView, MAX_PLAN_ID_LEN, MAX_RATING, MAX_TEXT_LEN,
};

verus! {

/// The ledger's contents: the record at each occupied address.
pub type Contents = Map<Seq<u8>, RecordView>;

/// A derivation result: an address and its bump, if one was found.
pub type Found = Option<(Seq<u8>, u8)>;

/// The address of a derivation result, or no bytes where none was found.
pub open spec fn found_address(found: Found) -> Seq<u8> {
    match found {
        Some((a, _)) => a,
        None => Seq::empty(),
    }
}

pub open spec fn event_result(r: Result<Event, RegistryError>) -> Result<EventView, RegistryError> {
    match r {
        Ok(e) => Ok(e@),
        Err(x) => Err(x),
    }
}

/// The agent at `address`, if that slot holds one.
pub open spec fn agent_at(m: Contents, address: Seq<u8>) -> Option<AgentView> {
    if m.contains_key(address) && m[address] is Agent {
        Some(m[address]->Agent_0)
    } else {
        None
    }
}

/// The identity of the agent at `address`, or no bytes where there is none.
pub open spec fn identity_at(m: Contents, address: Seq<u8>) -> Seq<u8> {
    match agent_at(m, address) {
        Some(a) => a.identity,
        None => Seq::empty(),
    }
}

/// The registry at the address `registry` found, if that slot holds it.
pub open spec fn registry_at(m: Contents, registry: Found) -> Option<RegistryView> {
    match registry {
        Some((a, _)) => if m.contains_key(a) && m[a] is Registry {
            Some(m[a]->Registry_0)
        } else {
            None
        },
        None => None,
    }
}

/// The number of agents registered under sequential ids, or zero where
/// there is no registry.
pub open spec fn total_agents(m: Contents, registry: Found) -> u64 {
    match registry_at(m, registry) {
        Some(r) => r.total_agents,
        None => 0,
    }
}

pub open spec fn initialize_step(m: Contents, found: Found, authority: Seq<u8>) -> (Contents, Result<(), RegistryError>) {
    match found {
        None => (m, Err(RegistryError::AddressUnavailable)),
        Some((a, b)) => if m.contains_key(a) {
            (m, Err(RegistryError::AlreadyInitialized))
        } else {
            (m.insert(a, RecordView::Registry(RegistryView { authority, total_agents: 0, bump: b })), Ok(()))
        },
    }
}

pub open spec fn register_step(
    m: Contents,
    found: Found,
    owner: Seq<u8>,
    identity: Seq<u8>,
    metadata_uri: Seq<char>,
    now: i64,
) -> (Contents, Result<EventView, RegistryError>) {
    if byte_len(metadata_uri) > MAX_TEXT_LEN {
        (m, Err(RegistryError::MetadataTooLong))
    } else {
        match found {
            None => (m, Err(RegistryError::AddressUnavailable)),
            Some((a, b)) => if m.contains_key(a) {
                (m, Err(RegistryError::DuplicateAgent))
            } else {
                let agent = AgentView {
                    id: None,
                    identity,
                    owner,
                    name: Seq::empty(),
                    description: Seq::empty(),
                    version: Seq::empty(),
                    skills: Seq::empty(),
                    metadata_uri,
                    bump: b,
                    created_at: now,
                    updated_at: now,
                    is_active: true,
                };
                (
                    m.insert(a, RecordView::Agent(agent)),
                    Ok(EventView::AgentRegistered { id: None, identity, owner, name: Seq::empty() }),
                )
            },
        }
    }
}

/// Whether the texts of a new agent are within their bounds.
pub open spec fn profile_fits(
    name: Seq<char>,
    description: Seq<char>,
    version: Seq<char>,
    skills: Seq<Seq<char>>,
    metadata_uri: Seq<char>,
) -> bool {
    &&& byte_len(name) <= MAX_TEXT_LEN
    &&& byte_len(description) <= MAX_TEXT_LEN
    &&& byte_len(version) <= MAX_TEXT_LEN
    &&& byte_len(metadata_uri) <= MAX_TEXT_LEN
    &&& skills_fit(skills)
}

/// Registration under the next sequential id. `registry` is where the
/// registry lives, `slot` the address derived from its current count.
pub open spec fn sequential_step(
    m: Contents,
    registry: Found,
    slot: Found,
    owner: Seq<u8>,
    name: Seq<char>,
    description: Seq<char>,
    version: Seq<char>,
    skills: Seq<Seq<char>>,
    metadata_uri: Seq<char>,
    now: i64,
) -> (Contents, Result<EventView, RegistryError>) {
    if !profile_fits(name, description, version, skills, metadata_uri) {
        (m, Err(RegistryError::MetadataTooLong))
    } else if registry is None {
        (m, Err(RegistryError::AddressUnavailable))
    } else if registry_at(m, registry) is None {
        (m, Err(RegistryError::NotFound))
    } else {
        let ra = match registry {
            Some((a, _)) => a,
            None => Seq::empty(),
        };
        let reg = registry_at(m, registry)->0;
        let id = reg.total_agents;
        if id == u64::MAX {
            (m, Err(RegistryError::CounterOverflow))
        } else {
            match slot {
                None => (m, Err(RegistryError::AddressUnavailable)),
                Some((a, b)) => if m.contains_key(a) {
                    (m, Err(RegistryError::DuplicateAgent))
                } else {
                    let counted = RegistryView {
                        authority: reg.authority,
                        total_agents: (id + 1) as u64,
                        bump: reg.bump,
                    };
                    let agent = AgentView {
                        id: Some(id),
                        identity: a,
                        owner,
                        name,
                        description,
                        version,
                        skills,
                        metadata_uri,
                        bump: b,
                        created_at: now,
                        updated_at: now,
                        is_active: true,
                    };
                    (
                        m.insert(ra, RecordView::Registry(counted)).insert(a, RecordView::Agent(agent)),
                        Ok(EventView::AgentRegistered { id: Some(id), identity: a, owner, name }),
                    )
                },
            }
        }
    }
}

pub open spec fn pick(patch: Option<Seq<char>>, current: Seq<char>) -> Seq<char> {
    match patch {
        Some(t) => t,
        None => current,
    }
}

/// The agent with the fields that the patch supplies replaced.
pub open spec fn patched(a: AgentView, p: PatchView, now: i64) -> AgentView {
    AgentView {
        name: pick(p.name, a.name),
        description: pick(p.description, a.description),
        version: pick(p.version, a.version),
        skills: match p.skills {
            Some(s) => s,
            None => a.skills,
        },
        metadata_uri: pick(p.metadata_uri, a.metadata_uri),
        updated_at: now,
        ..a
    }
}

pub open spec fn update_step(m: Contents, owner: Seq<u8>, agent: Seq<u8>, patch: PatchView, now: i64) -> (Contents, Result<EventView, RegistryError>) {
    match agent_at(m, agent) {
        None => (m, Err(RegistryError::NotFound)),
        Some(a) => if a.owner != owner {
            (m, Err(RegistryError::Unauthorized))
        } else if !patch_fits(patch) {
            (m, Err(RegistryError::MetadataTooLong))
        } else {
            (
                m.insert(agent, RecordView::Agent(patched(a, patch, now))),
                Ok(EventView::AgentUpdated { identity: a.identity, owner: a.owner }),
            )
        },
    }
}

pub open spec fn deactivate_step(m: Contents, owner: Seq<u8>, agent: Seq<u8>, now: i64) -> (Contents, Result<EventView, RegistryError>) {
    match agent_at(m, agent) {
        None => (m, Err(RegistryError::NotFound)),
        Some(a) => if a.owner != owner {
            (m, Err(RegistryError::Unauthorized))
        } else {
            (
                m.insert(agent, RecordView::Agent(AgentView { is_active: false, updated_at: now, ..a })),
                Ok(EventView::AgentDeactivated { identity: a.identity, owner: a.owner }),
            )
        },
    }
}

pub open spec fn validation_step(
    m: Contents,
    validator: Seq<u8>,
    agent: Seq<u8>,
    found: Found,
    day_yyyymmdd: u32,
    merkle_root: Seq<u8>,
    now: i64,
) -> (Contents, Result<(), RegistryError>) {
    match agent_at(m, agent) {
        None => (m, Err(RegistryError::NotFound)),
        Some(a) => match found {
            None => (m, Err(RegistryError::AddressUnavailable)),
            Some((v, b)) => if m.contains_key(v) {
                (m, Err(RegistryError::DuplicateValidation))
            } else {
                let rec = ValidationView { identity: a.identity, validator, day_yyyymmdd, merkle_root, bump: b, ts: now };
                (m.insert(v, RecordView::Validation(rec)), Ok(()))
            },
        },
    }
}

pub open spec fn feedback_step(
    m: Contents,
    reviewer: Seq<u8>,
    agent: Seq<u8>,
    found: Found,
    rating: u8,
    tag: u8,
    now: i64,
) -> (Contents, Result<(), RegistryError>) {
    if rating > MAX_RATING {
        (m, Err(RegistryError::BadRating))
    } else {
        match agent_at(m, agent) {
            None => (m, Err(RegistryError::NotFound)),
            Some(a) => match found {
                None => (m, Err(RegistryError::AddressUnavailable)),
                Some((f, b)) => if !m.contains_key(f) {
                    let rec = FeedbackView { identity: a.identity, reviewer, rating, tag, bump: b, ts: now };
                    (m.insert(f, RecordView::Feedback(rec)), Ok(()))
                } else if m[f] is Feedback {
                    let rec = FeedbackView { rating, tag, ts: now, ..m[f]->Feedback_0 };
                    (m.insert(f, RecordView::Feedback(rec)), Ok(()))
                } else {
                    (m, Err(RegistryError::AddressUnavailable))
                },
            },
        }
    }
}

pub open spec fn anchor_step(
    m: Contents,
    authority: Seq<u8>,
    plan_id: Seq<char>,
    found: Found,
    root: Seq<u8>,
    now: i64,
) -> (Contents, Result<EventView, RegistryError>) {
    if byte_len(plan_id) > MAX_PLAN_ID_LEN {
        (m, Err(RegistryError::MetadataTooLong))
    } else {
        match found {
            None => (m, Err(RegistryError::AddressUnavailable)),
            Some((a, b)) => if m.contains_key(a) {
                (m, Err(RegistryError::DuplicateAnchor))
            } else {
                let rec = AnchorView { plan_id, root, anchored_at: now, authority, bump: b };
                (
                    m.insert(a, RecordView::Anchor(rec)),
                    Ok(EventView::MerkleRootAnchored { plan_id, root, authority }),
                )
            },
        }
    }
}

/// Creating the registry of program `pid`.
pub open spec fn initialize_call(m: Contents, pid: Seq<u8>, authority: Seq<u8>) -> (Contents, Result<(), RegistryError>) {
    initialize_step(m, program_address(registry_seeds(), pid), authority)
}

/// Registering an agent keyed by `identity` in program `pid`.
pub open spec fn register_call(
    m: Contents,
    pid: Seq<u8>,
    owner: Seq<u8>,
    identity: Seq<u8>,
    metadata_uri: Seq<char>,
    now: i64,
) -> (Contents, Result<EventView, RegistryError>) {
    register_step(m, program_address(agent_seeds(identity), pid), owner, identity, metadata_uri, now)
}

/// Registering an agent under the next sequential id in program `pid`.
pub open spec fn sequential_call(
    m: Contents,
    pid: Seq<u8>,
    owner: Seq<u8>,
    name: Seq<char>,
    description: Seq<char>,
    version: Seq<char>,
    skills: Seq<Seq<char>>,
    metadata_uri: Seq<char>,
    now: i64,
) -> (Contents, Result<EventView, RegistryError>) {
    let registry = program_address(registry_seeds(), pid);
    let slot = program_address(sequential_agent_seeds(total_agents(m, registry)), pid);
    sequential_step(m, registry, slot, owner, name, description, version, skills, metadata_uri, now)
}

/// Posting the validation of the agent at `agent` for a day, in program `pid`.
pub open spec fn validation_call(
    m: Contents,
    pid: Seq<u8>,
    validator: Seq<u8>,
    agent: Seq<u8>,
    day_yyyymmdd: u32,
    merkle_root: Seq<u8>,
    now: i64,
) -> (Contents, Result<(), RegistryError>) {
    let found = program_address(validation_seeds(identity_at(m, agent), day_yyyymmdd), pid);
    validation_step(m, validator, agent, found, day_yyyymmdd, merkle_root, now)
}

/// Posting a rater's feedback on the agent at `agent`, in program `pid`.
pub open spec fn feedback_call(
    m: Contents,
    pid: Seq<u8>,
    reviewer: Seq<u8>,
    agent: Seq<u8>,
    rating: u8,
    tag: u8,
    now: i64,
) -> (Contents, Result<(), RegistryError>) {
    let found = program_address(feedback_seeds(identity_at(m, agent), reviewer), pid);
    feedback_step(m, reviewer, agent, found, rating, tag, now)
}

/// Anchoring a digest under a plan id, in program `pid`.
pub open spec fn anchor_call(
    m: Contents,
    pid: Seq<u8>,
    authority: Seq<u8>,
    plan_id: Seq<char>,
    root: Seq<u8>,
    now: i64,
) -> (Contents, Result<EventView, RegistryError>) {
    anchor_step(m, authority, plan_id, program_address(anchor_seeds(encode_utf8(plan_id)), pid), root, now)
}

} // verus!
