//! Properties that hold across calls of the registry's operations, stated
//! over the transitions that the operations' contracts name.
use vstd::prelude::*;
use vstd::utf8::encode_utf8;
use crate::address::{anchor_seeds, feedback_seeds, program_address, registry_seeds, validation_seeds};
use crate::records::{AnchorView, EventView, PatchView, RecordView, RegistryError, MAX_RATING};
use crate::steps::{
    agent_at, anchor_call, found_address, feedback_call, identity_at, initialize_call, registry_at, sequential_call,
    total_agents, update_step, deactivate_step, validation_call, Contents,
};

verus! {

/// The arguments of one sequential registration.
pub struct SequentialArgs {
    pub owner: Seq<u8>,
    pub name: Seq<char>,
    pub description: Seq<char>,
    pub version: Seq<char>,
    pub skills: Seq<Seq<char>>,
    pub metadata_uri: Seq<char>,
    pub now: i64,
}

/// The contents after a series of sequential registrations, and the outcome
/// of each.
pub open spec fn run_sequential(m: Contents, pid: Seq<u8>, calls: Seq<SequentialArgs>) -> (Contents, Seq<Result<EventView, RegistryError>>)
    decreases calls.len(),
{
    if calls.len() == 0 {
        (m, Seq::empty())
    } else {
        let (m1, rs) = run_sequential(m, pid, calls.drop_last());
        let c = calls.last();
        let (m2, r) = sequential_call(m1, pid, c.owner, c.name, c.description, c.version, c.skills, c.metadata_uri, c.now);
        (m2, rs.push(r))
    }
}

/// Whether an outcome is a registration that handed out sequential id `id`.
pub open spec fn registered_with_id(r: Result<EventView, RegistryError>, id: u64) -> bool {
    r matches Ok(EventView::AgentRegistered { id: given, .. }) && given == Some(id)
}

proof fn lemma_run_len(m: Contents, pid: Seq<u8>, calls: Seq<SequentialArgs>)
    ensures
        run_sequential(m, pid, calls).1.len() == calls.len(),
    decreases calls.len(),
{
    if calls.len() > 0 {
        lemma_run_len(m, pid, calls.drop_last());
    }
}

proof fn lemma_run_counts(m: Contents, pid: Seq<u8>, calls: Seq<SequentialArgs>)
    requires
        registry_at(m, program_address(registry_seeds(), pid)) is Some,
        forall|j: int| 0 <= j < calls.len() ==> (#[trigger] run_sequential(m, pid, calls).1[j]) is Ok,
    ensures
        run_sequential(m, pid, calls).1.len() == calls.len(),
        registry_at(run_sequential(m, pid, calls).0, program_address(registry_seeds(), pid)) is Some,
        total_agents(run_sequential(m, pid, calls).0, program_address(registry_seeds(), pid))
            == total_agents(m, program_address(registry_seeds(), pid)) + calls.len(),
        forall|j: int| 0 <= j < calls.len() ==> registered_with_id(
            #[trigger] run_sequential(m, pid, calls).1[j],
            (total_agents(m, program_address(registry_seeds(), pid)) + j) as u64,
        ),
    decreases calls.len(),
{
    if calls.len() > 0 {
        let reg = program_address(registry_seeds(), pid);
        let prefix = calls.drop_last();
        let (m1, rs) = run_sequential(m, pid, prefix);
        let all = run_sequential(m, pid, calls).1;
        lemma_run_len(m, pid, prefix);
        assert(all == rs.push(all.last()));
        assert forall|j: int| 0 <= j < prefix.len() implies (#[trigger] run_sequential(m, pid, prefix).1[j]) is Ok by {
            assert(all[j] == rs[j]);
        }
        lemma_run_counts(m, pid, prefix);
        assert(all[calls.len() - 1] is Ok);
        assert forall|j: int| 0 <= j < calls.len() implies registered_with_id(
            #[trigger] run_sequential(m, pid, calls).1[j],
            (total_agents(m, reg) + j) as u64,
        ) by {
            if j < prefix.len() {
                assert(all[j] == rs[j]);
            }
        }
    }
}

/// Once the registry is created, a series of sequential registrations that
/// all succeed hands out ids 0, 1, 2, ... in order, and leaves the count at
/// the number of registrations.
pub proof fn lemma_sequential_ids(m0: Contents, pid: Seq<u8>, authority: Seq<u8>, calls: Seq<SequentialArgs>)
    requires
        initialize_call(m0, pid, authority).1 is Ok,
        forall|j: int| 0 <= j < calls.len() ==> (#[trigger] run_sequential(initialize_call(m0, pid, authority).0, pid, calls).1[j]) is Ok,
    ensures
        total_agents(run_sequential(initialize_call(m0, pid, authority).0, pid, calls).0, program_address(registry_seeds(), pid))
            == calls.len(),
        forall|j: int| 0 <= j < calls.len() ==> registered_with_id(
            #[trigger] run_sequential(initialize_call(m0, pid, authority).0, pid, calls).1[j],
            j as u64,
        ),
{
    let m1 = initialize_call(m0, pid, authority).0;
    assert(registry_at(m1, program_address(registry_seeds(), pid)) is Some);
    assert(total_agents(m1, program_address(registry_seeds(), pid)) == 0);
    lemma_run_counts(m1, pid, calls);
}

/// An update signed by anyone but the agent's owner fails with
/// `Unauthorized` and leaves every record as it was.
pub proof fn lemma_update_needs_owner(m: Contents, caller: Seq<u8>, agent: Seq<u8>, patch: PatchView, now: i64)
    requires
        agent_at(m, agent) is Some,
        agent_at(m, agent)->0.owner != caller,
    ensures
        update_step(m, caller, agent, patch, now) == (m, Err::<EventView, RegistryError>(RegistryError::Unauthorized)),
{
}

/// Updates and deactivations keep an agent's id, identity and owner, and
/// never make an inactive agent active again.
pub proof fn lemma_agent_keys_and_deactivation_last(
    m: Contents,
    caller: Seq<u8>,
    agent: Seq<u8>,
    patch: PatchView,
    now: i64,
)
    requires
        agent_at(m, agent) is Some,
    ensures
        ({
            let before = agent_at(m, agent)->0;
            let updated = agent_at(update_step(m, caller, agent, patch, now).0, agent);
            let deactivated = agent_at(deactivate_step(m, caller, agent, now).0, agent);
            &&& updated matches Some(a) && a.id == before.id && a.identity == before.identity && a.owner == before.owner
                && (!before.is_active ==> !a.is_active)
            &&& deactivated matches Some(a) && a.id == before.id && a.identity == before.identity && a.owner
                == before.owner && (!before.is_active ==> !a.is_active)
        }),
{
}

/// Feedback with a rating above 100 always fails with `BadRating` and
/// changes nothing.
pub proof fn lemma_feedback_rejects_bad_rating(
    m: Contents,
    pid: Seq<u8>,
    reviewer: Seq<u8>,
    agent: Seq<u8>,
    rating: u8,
    tag: u8,
    now: i64,
)
    requires
        rating > MAX_RATING,
    ensures
        feedback_call(m, pid, reviewer, agent, rating, tag, now) == (m, Err::<(), RegistryError>(RegistryError::BadRating)),
{
}

/// Feedback with a rating from 0 to 100 on an existing agent succeeds,
/// wherever its slot's address can be derived and holds no record of
/// another kind.
pub proof fn lemma_feedback_accepts_rating(
    m: Contents,
    pid: Seq<u8>,
    reviewer: Seq<u8>,
    agent: Seq<u8>,
    rating: u8,
    tag: u8,
    now: i64,
)
    requires
        rating <= MAX_RATING,
        agent_at(m, agent) is Some,
        program_address(feedback_seeds(identity_at(m, agent), reviewer), pid) matches Some((f, _)) && (m.contains_key(f)
            ==> m[f] is Feedback),
    ensures
        feedback_call(m, pid, reviewer, agent, rating, tag, now).1 is Ok,
{
}

/// Two posts of feedback by one rater on one agent leave one feedback
/// record, at one slot, holding the second post's rating and tag; no other
/// slot changes.
pub proof fn lemma_feedback_upsert(
    m0: Contents,
    pid: Seq<u8>,
    reviewer: Seq<u8>,
    agent: Seq<u8>,
    rating1: u8,
    tag1: u8,
    now1: i64,
    rating2: u8,
    tag2: u8,
    now2: i64,
)
    requires
        rating1 <= MAX_RATING,
        rating2 <= MAX_RATING,
        agent_at(m0, agent) is Some,
        program_address(feedback_seeds(identity_at(m0, agent), reviewer), pid) matches Some((f, _)) && (m0.contains_key(f)
            ==> m0[f] is Feedback),
    ensures
        ({
            let (m1, r1) = feedback_call(m0, pid, reviewer, agent, rating1, tag1, now1);
            let (m2, r2) = feedback_call(m1, pid, reviewer, agent, rating2, tag2, now2);
            let f = found_address(program_address(feedback_seeds(identity_at(m0, agent), reviewer), pid));
            &&& r1 is Ok
            &&& r2 is Ok
            &&& m2.dom() == m0.dom().insert(f)
            &&& forall|k: Seq<u8>| #[trigger] m0.contains_key(k) && k != f ==> m2[k] == m0[k]
            &&& m2[f] matches RecordView::Feedback(fb) && fb.rating == rating2 && fb.tag == tag2
        }),
{
    let (m1, r1) = feedback_call(m0, pid, reviewer, agent, rating1, tag1, now1);
    let f = found_address(program_address(feedback_seeds(identity_at(m0, agent), reviewer), pid));
    assert(f != agent);
    assert(agent_at(m1, agent) == agent_at(m0, agent));
    let (m2, r2) = feedback_call(m1, pid, reviewer, agent, rating2, tag2, now2);
    assert(m2.dom() =~= m0.dom().insert(f));
}

/// Anchoring one plan twice: the second call fails with `DuplicateAnchor`
/// and changes nothing, so the one anchor of the plan keeps the first
/// call's digest.
pub proof fn lemma_anchor_once(
    m0: Contents,
    pid: Seq<u8>,
    plan_id: Seq<char>,
    authority1: Seq<u8>,
    root1: Seq<u8>,
    now1: i64,
    authority2: Seq<u8>,
    root2: Seq<u8>,
    now2: i64,
)
    requires
        anchor_call(m0, pid, authority1, plan_id, root1, now1).1 is Ok,
    ensures
        ({
            let (m1, _) = anchor_call(m0, pid, authority1, plan_id, root1, now1);
            let found = program_address(anchor_seeds(encode_utf8(plan_id)), pid);
            &&& anchor_call(m1, pid, authority2, plan_id, root2, now2) == (m1, Err::<EventView, RegistryError>(RegistryError::DuplicateAnchor))
            &&& found matches Some((a, b)) && !m0.contains_key(a) && m1 == m0.insert(
                a,
                RecordView::Anchor(AnchorView { plan_id, root: root1, anchored_at: now1, authority: authority1, bump: b }),
            )
        }),
{
}

/// Posting a validation for one agent and day twice: the first succeeds, the
/// second fails with `DuplicateValidation` and changes nothing.
pub proof fn lemma_validation_once(
    m0: Contents,
    pid: Seq<u8>,
    agent: Seq<u8>,
    day_yyyymmdd: u32,
    validator1: Seq<u8>,
    root1: Seq<u8>,
    now1: i64,
    validator2: Seq<u8>,
    root2: Seq<u8>,
    now2: i64,
)
    requires
        agent_at(m0, agent) is Some,
        program_address(validation_seeds(identity_at(m0, agent), day_yyyymmdd), pid) matches Some((v, _)) && !m0.contains_key(v),
    ensures
        ({
            let (m1, r1) = validation_call(m0, pid, validator1, agent, day_yyyymmdd, root1, now1);
            &&& r1 is Ok
            &&& validation_call(m1, pid, validator2, agent, day_yyyymmdd, root2, now2) == (m1, Err::<(), RegistryError>(RegistryError::DuplicateValidation))
        }),
{
    let (m1, r1) = validation_call(m0, pid, validator1, agent, day_yyyymmdd, root1, now1);
    assert(agent_at(m1, agent) == agent_at(m0, agent));
}

} // verus!
