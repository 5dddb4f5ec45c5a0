//! The records that the ledger's slots hold, the events operations report,
//! and the errors they fail with.
use vstd::prelude::*;
use vstd::utf8::encode_utf8;
use crate::keys::Pubkey;

verus! {

/// Most bytes in a metadata URI or another free-text field of an agent.
pub const MAX_TEXT_LEN: usize = 200;

/// Most skills an agent lists.
pub const MAX_SKILLS: usize = 16;

/// Most bytes in one skill.
pub const MAX_SKILL_LEN: usize = 32;

/// Most bytes in a plan id: it is one seed of the anchor's address.
pub const MAX_PLAN_ID_LEN: usize = 32;

/// The highest rating a rater may give.
pub const MAX_RATING: u8 = 100;

/// The singleton that counts agents registered under sequential ids.
#[derive(Clone, Debug, PartialEq, Eq)]
pub struct Registry {
    pub authority: Pubkey,
    pub total_agents: u64,
    pub bump: u8,
}

/// An agent identity. `id` is `Some` for an agent registered under a
/// sequential id; such an agent's `identity` is its own slot address.
#[derive(Clone, Debug, PartialEq, Eq)]
pub struct Agent {
    pub id: Option<u64>,
    pub identity: Pubkey,
    pub owner: Pubkey,
    pub name: String,
    pub description: String,
    pub version: String,
    pub skills: Vec<String>,
    pub metadata_uri: String,
    pub bump: u8,
    pub created_at: i64,
    pub updated_at: i64,
    pub is_active: bool,
}

/// A daily integrity digest posted for an agent.
#[derive(Clone, Debug, PartialEq, Eq)]
pub struct Validation {
    pub identity: Pubkey,
    pub validator: Pubkey,
    pub day_yyyymmdd: u32,
    pub merkle_root: [u8; 32],
    pub bump: u8,
    pub ts: i64,
}

/// One rater's rating of an agent.
#[derive(Clone, Debug, PartialEq, Eq)]
pub struct Feedback {
    pub identity: Pubkey,
    pub reviewer: Pubkey,
    pub rating: u8,
    pub tag: u8,
    pub bump: u8,
    pub ts: i64,
}

/// A digest anchored once and for all under a plan id.
#[derive(Clone, Debug, PartialEq, Eq)]
pub struct MerkleAnchor {
    pub plan_id: String,
    pub root: [u8; 32],
    pub anchored_at: i64,
    pub authority: Pubkey,
    pub bump: u8,
}

/// What a slot of the ledger holds.
#[derive(Clone, Debug, PartialEq, Eq)]
pub enum Record {
    Registry(Registry),
    Agent(Agent),
    Validation(Validation),
    Feedback(Feedback),
    Anchor(MerkleAnchor),
}

/// The notification an operation emits when it commits.
#[derive(Clone, Debug, PartialEq, Eq)]
pub enum Event {
    AgentRegistered { id: Option<u64>, identity: Pubkey, owner: Pubkey, name: String },
    AgentUpdated { identity: Pubkey, owner: Pubkey },
    AgentDeactivated { identity: Pubkey, owner: Pubkey },
    MerkleRootAnchored { plan_id: String, root: [u8; 32], authority: Pubkey },
}

#[derive(Clone, Copy, Debug, PartialEq, Eq)]
pub enum RegistryError {
    /// A text field is longer than its bound.
    MetadataTooLong,
    /// The signer is not the agent's owner.
    Unauthorized,
    /// A rating above 100.
    BadRating,
    /// The registry singleton exists already.
    AlreadyInitialized,
    /// The agent's slot is taken.
    DuplicateAgent,
    /// A validation exists already for this identity and day.
    DuplicateValidation,
    /// The plan was anchored already.
    DuplicateAnchor,
    /// The referenced agent or registry does not exist.
    NotFound,
    /// No address can be derived from the keys, or the derived slot holds a
    /// record of another kind.
    AddressUnavailable,
    /// The agent counter cannot grow further.
    CounterOverflow,
}

/// The fields an owner may change; `None` leaves a field as it is.
#[derive(Clone, Debug, PartialEq, Eq)]
pub struct AgentPatch {
    pub name: Option<String>,
    pub description: Option<String>,
    pub version: Option<String>,
    pub skills: Option<Vec<String>>,
    pub metadata_uri: Option<String>,
}

/// The signer that creates the registry.
#[derive(Clone, Copy, Debug, PartialEq, Eq)]
pub struct InitializeRegistry {
    pub authority: Pubkey,
}

/// The signer that registers an agent and becomes its owner.
#[derive(Clone, Copy, Debug, PartialEq, Eq)]
pub struct RegisterAgent {
    pub owner: Pubkey,
}

/// The signer and the address of the agent it means to change.
#[derive(Clone, Copy, Debug, PartialEq, Eq)]
pub struct UpdateAgent {
    pub owner: Pubkey,
    pub agent: Pubkey,
}

/// The validator and the address of the agent it validates.
#[derive(Clone, Copy, Debug, PartialEq, Eq)]
pub struct PostValidation {
    pub validator: Pubkey,
    pub agent: Pubkey,
}

/// The rater and the address of the agent it rates.
#[derive(Clone, Copy, Debug, PartialEq, Eq)]
pub struct PostFeedback {
    pub reviewer: Pubkey,
    pub agent: Pubkey,
}

/// The signer that anchors a digest.
#[derive(Clone, Copy, Debug, PartialEq, Eq)]
pub struct AnchorMerkleRoot {
    pub authority: Pubkey,
}

pub struct RegistryView {
    pub authority: Seq<u8>,
    pub total_agents: u64,
    pub bump: u8,
}

pub struct AgentView {
    pub id: Option<u64>,
    pub identity: Seq<u8>,
    pub owner: Seq<u8>,
    pub name: Seq<char>,
    pub description: Seq<char>,
    pub version: Seq<char>,
    pub skills: Seq<Seq<char>>,
    pub metadata_uri: Seq<char>,
    pub bump: u8,
    pub created_at: i64,
    pub updated_at: i64,
    pub is_active: bool,
}

pub struct ValidationView {
    pub identity: Seq<u8>,
    pub validator: Seq<u8>,
    pub day_yyyymmdd: u32,
    pub merkle_root: Seq<u8>,
    pub bump: u8,
    pub ts: i64,
}

pub struct FeedbackView {
    pub identity: Seq<u8>,
    pub reviewer: Seq<u8>,
    pub rating: u8,
    pub tag: u8,
    pub bump: u8,
    pub ts: i64,
}

pub struct AnchorView {
    pub plan_id: Seq<char>,
    pub root: Seq<u8>,
    pub anchored_at: i64,
    pub authority: Seq<u8>,
    pub bump: u8,
}

pub enum RecordView {
    Registry(RegistryView),
    Agent(AgentView),
    Validation(ValidationView),
    Feedback(FeedbackView),
    Anchor(AnchorView),
}

pub enum EventView {
    AgentRegistered { id: Option<u64>, identity: Seq<u8>, owner: Seq<u8>, name: Seq<char> },
    AgentUpdated { identity: Seq<u8>, owner: Seq<u8> },
    AgentDeactivated { identity: Seq<u8>, owner: Seq<u8> },
    MerkleRootAnchored { plan_id: Seq<char>, root: Seq<u8>, authority: Seq<u8> },
}

pub struct PatchView {
    pub name: Option<Seq<char>>,
    pub description: Option<Seq<char>>,
    pub version: Option<Seq<char>>,
    pub skills: Option<Seq<Seq<char>>>,
    pub metadata_uri: Option<Seq<char>>,
}

pub open spec fn texts_view(v: Seq<String>) -> Seq<Seq<char>> {
    v.map_values(|s: String| s@)
}

pub open spec fn text_view(t: Option<String>) -> Option<Seq<char>> {
    match t {
        Some(s) => Some(s@),
        None => None,
    }
}

/// The number of bytes of a text in UTF-8.
pub open spec fn byte_len(t: Seq<char>) -> nat {
    encode_utf8(t).len()
}

pub open spec fn skills_fit(skills: Seq<Seq<char>>) -> bool {
    &&& skills.len() <= MAX_SKILLS
    &&& forall|i: int| 0 <= i < skills.len() ==> byte_len(#[trigger] skills[i]) <= MAX_SKILL_LEN
}

pub open spec fn opt_text_fits(t: Option<Seq<char>>) -> bool {
    t matches Some(s) ==> byte_len(s) <= MAX_TEXT_LEN
}

/// Whether every field that a patch supplies is within its bound.
pub open spec fn patch_fits(p: PatchView) -> bool {
    &&& opt_text_fits(p.name)
    &&& opt_text_fits(p.description)
    &&& opt_text_fits(p.version)
    &&& opt_text_fits(p.metadata_uri)
    &&& p.skills matches Some(s) ==> skills_fit(s)
}

impl View for Registry {
    type V = RegistryView;

    open spec fn view(&self) -> RegistryView {
        RegistryView { authority: self.authority@, total_agents: self.total_agents, bump: self.bump }
    }
}

impl View for Agent {
    type V = AgentView;

    open spec fn view(&self) -> AgentView {
        AgentView {
            id: self.id,
            identity: self.identity@,
            owner: self.owner@,
            name: self.name@,
            description: self.description@,
            version: self.version@,
            skills: texts_view(self.skills@),
            metadata_uri: self.metadata_uri@,
            bump: self.bump,
            created_at: self.created_at,
            updated_at: self.updated_at,
            is_active: self.is_active,
        }
    }
}

impl View for Validation {
    type V = ValidationView;

    open spec fn view(&self) -> ValidationView {
        ValidationView {
            identity: self.identity@,
            validator: self.validator@,
            day_yyyymmdd: self.day_yyyymmdd,
            merkle_root: self.merkle_root@,
            bump: self.bump,
            ts: self.ts,
        }
    }
}

impl View for Feedback {
    type V = FeedbackView;

    open spec fn view(&self) -> FeedbackView {
        FeedbackView {
            identity: self.identity@,
            reviewer: self.reviewer@,
            rating: self.rating,
            tag: self.tag,
            bump: self.bump,
            ts: self.ts,
        }
    }
}

impl View for MerkleAnchor {
    type V = AnchorView;

    open spec fn view(&self) -> AnchorView {
        AnchorView {
            plan_id: self.plan_id@,
            root: self.root@,
            anchored_at: self.anchored_at,
            authority: self.authority@,
            bump: self.bump,
        }
    }
}

impl View for Record {
    type V = RecordView;

    open spec fn view(&self) -> RecordView {
        match self {
            Record::Registry(r) => RecordView::Registry(r@),
            Record::Agent(a) => RecordView::Agent(a@),
            Record::Validation(v) => RecordView::Validation(v@),
            Record::Feedback(f) => RecordView::Feedback(f@),
            Record::Anchor(m) => RecordView::Anchor(m@),
        }
    }
}

impl View for Event {
    type V = EventView;

    open spec fn view(&self) -> EventView {
        match self {
            Event::AgentRegistered { id, identity, owner, name } => EventView::AgentRegistered {
                id: *id,
                identity: identity@,
                owner: owner@,
                name: name@,
            },
            Event::AgentUpdated { identity, owner } => EventView::AgentUpdated { identity: identity@, owner: owner@ },
            Event::AgentDeactivated { identity, owner } => EventView::AgentDeactivated {
                identity: identity@,
                owner: owner@,
            },
            Event::MerkleRootAnchored { plan_id, root, authority } => EventView::MerkleRootAnchored {
                plan_id: plan_id@,
                root: root@,
                authority: authority@,
            },
        }
    }
}

impl View for AgentPatch {
    type V = PatchView;

    open spec fn view(&self) -> PatchView {
        PatchView {
            name: text_view(self.name),
            description: text_view(self.description),
            version: text_view(self.version),
            skills: match self.skills {
                Some(s) => Some(texts_view(s@)),
                None => None,
            },
            metadata_uri: text_view(self.metadata_uri),
        }
    }
}

/// Whether `s` is at most `max` bytes long in UTF-8.
pub fn text_within(s: &String, max: usize) -> (r: bool)
    ensures
        r == (byte_len(s@) <= max),
{
    s.as_str().as_bytes().len() <= max
}

/// Whether a list of skills is within the bounds on their number and length.
pub fn skills_within(skills: &Vec<String>) -> (r: bool)
    ensures
        r == skills_fit(texts_view(skills@)),
{
    if skills.len() > MAX_SKILLS {
        return false;
    }
    let mut i: usize = 0;
    while i < skills.len()
        invariant
            0 <= i <= skills@.len(),
            forall|j: int| 0 <= j < i ==> byte_len(#[trigger] texts_view(skills@)[j]) <= MAX_SKILL_LEN,
        decreases skills@.len() - i,
    {
        if !text_within(&skills[i], MAX_SKILL_LEN) {
            assert(texts_view(skills@)[i as int] == skills@[i as int]@);
            return false;
        }
        i = i + 1;
    }
    true
}

fn opt_text_within(t: &Option<String>) -> (r: bool)
    ensures
        r == opt_text_fits(text_view(*t)),
{
    match t {
        Some(s) => text_within(s, MAX_TEXT_LEN),
        None => true,
    }
}

impl AgentPatch {
    /// Whether every field the patch supplies is within its bound.
    pub fn fits(&self) -> (r: bool)
        ensures
            r == patch_fits(self@),
    {
        let skills_ok = match &self.skills {
            Some(s) => skills_within(s),
            None => true,
        };
        opt_text_within(&self.name) && opt_text_within(&self.description) && opt_text_within(&self.version)
            && opt_text_within(&self.metadata_uri) && skills_ok
    }
}

} // verus!
