//! A registry of agent identities with reputation and integrity-anchoring
//! records, kept in a ledger whose slots sit at deterministically derived
//! addresses.
pub mod address;
pub mod instructions;
pub mod keys;
pub mod laws;
pub mod ledger;
pub mod records;
pub mod steps;

pub use instructions::{
    anchor_merkle_root, anchor_merkle_root_at, deactivate_agent, initialize_registry, initialize_registry_at,
    post_feedback, post_feedback_at, post_validation, post_validation_at, register_agent, register_agent_at,
    register_agent_sequential, register_agent_sequential_at, update_agent,
};
pub use keys::Pubkey;
pub use ledger::Ledger;
pub use records::{
    Agent, AgentPatch, AnchorMerkleRoot, Event, Feedback, InitializeRegistry, MerkleAnchor, PostFeedback,
    PostValidation, Record, RegisterAgent, Registry, RegistryError, UpdateAgent, Validation,
};
