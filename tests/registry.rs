use agent_registry::address::{derive_agent_address, derive_registry_address};
use agent_registry::{
    anchor_merkle_root, deactivate_agent, initialize_registry, post_feedback, post_feedback_at, post_validation,
    post_validation_at, register_agent, register_agent_at, register_agent_sequential, register_agent_sequential_at,
    update_agent, Agent, AgentPatch, AnchorMerkleRoot, Event, InitializeRegistry, Ledger, PostFeedback,
    PostValidation, Pubkey, Record, RegisterAgent, Registry, RegistryError, UpdateAgent,
};

fn key(n: u8) -> Pubkey {
    Pubkey::new([n; 32])
}

fn program() -> Pubkey {
    key(200)
}

fn no_patch() -> AgentPatch {
    AgentPatch { name: None, description: None, version: None, skills: None, metadata_uri: None }
}

fn agent_record(ledger: &Ledger, address: &Pubkey) -> Agent {
    match ledger.lookup(address) {
        Some(Record::Agent(a)) => a.clone(),
        other => panic!("no agent at the address: {:?}", other),
    }
}

fn total_agents(ledger: &Ledger) -> u64 {
    let (address, _) = derive_registry_address(&ledger.program_id()).unwrap();
    match ledger.lookup(&address) {
        Some(Record::Registry(r)) => r.total_agents,
        other => panic!("no registry: {:?}", other),
    }
}

fn registered_identity(ledger: &mut Ledger, owner: Pubkey, identity: Pubkey) -> Pubkey {
    let r = register_agent(ledger, &RegisterAgent { owner }, identity, "https://example.org/a.json".to_string(), 10);
    assert!(r.is_ok());
    derive_agent_address(&ledger.program_id(), &identity).unwrap().0
}

#[test]
fn derived_address_matches_program_derived_address() {
    let identity = key(7);
    let (address, bump) = derive_agent_address(&program(), &identity).unwrap();
    let expected = anchor_lang::solana_program::pubkey::Pubkey::find_program_address(
        &[b"agent", &identity.bytes],
        &anchor_lang::solana_program::pubkey::Pubkey::new_from_array(program().bytes),
    );
    assert_eq!(address.bytes, expected.0.to_bytes());
    assert_eq!(bump, expected.1);
    assert_ne!(address, identity);
    let other = derive_agent_address(&program(), &key(8)).unwrap();
    assert_ne!(other.0, address);
}

#[test]
fn scenario_register_update_deactivate_and_anchor() {
    let mut ledger = Ledger::new(program());
    let admin = key(1);
    let owner = key(2);
    let stranger = key(3);
    assert_eq!(initialize_registry(&mut ledger, &InitializeRegistry { authority: admin }), Ok(()));
    let ev = register_agent_sequential(
        &mut ledger,
        &RegisterAgent { owner },
        "scout-1".to_string(),
        "a scouting agent".to_string(),
        "1.0".to_string(),
        vec!["search".to_string()],
        "https://example.org/scout-1.json".to_string(),
        100,
    )
    .unwrap();
    let agent = match ev {
        Event::AgentRegistered { id, identity, owner: o, name } => {
            assert_eq!(id, Some(0));
            assert_eq!(o, owner);
            assert_eq!(name, "scout-1");
            identity
        }
        other => panic!("unexpected event {:?}", other),
    };
    let ctx = UpdateAgent { owner, agent };
    let patch = AgentPatch { version: Some("1.1".to_string()), ..no_patch() };
    assert_eq!(update_agent(&mut ledger, &ctx, patch, 101), Ok(Event::AgentUpdated { identity: agent, owner }));
    let a = agent_record(&ledger, &agent);
    assert_eq!(a.version, "1.1");
    assert_eq!(a.name, "scout-1");
    assert_eq!(a.updated_at, 101);
    assert_eq!(deactivate_agent(&mut ledger, &ctx, 102), Ok(Event::AgentDeactivated { identity: agent, owner }));
    let before = agent_record(&ledger, &agent);
    assert!(!before.is_active);
    let bad = UpdateAgent { owner: stranger, agent };
    let patch = AgentPatch { version: Some("9.9".to_string()), ..no_patch() };
    assert_eq!(update_agent(&mut ledger, &bad, patch, 103), Err(RegistryError::Unauthorized));
    assert_eq!(agent_record(&ledger, &agent), before);
    let anchor = AnchorMerkleRoot { authority: admin };
    let first = anchor_merkle_root(&mut ledger, &anchor, "2024-05-01".to_string(), [7u8; 32], 104);
    assert_eq!(
        first,
        Ok(Event::MerkleRootAnchored { plan_id: "2024-05-01".to_string(), root: [7u8; 32], authority: admin })
    );
    let count = ledger.len();
    let second = anchor_merkle_root(&mut ledger, &anchor, "2024-05-01".to_string(), [9u8; 32], 105);
    assert_eq!(second, Err(RegistryError::DuplicateAnchor));
    assert_eq!(ledger.len(), count);
}

#[test]
fn anchor_keeps_first_digest() {
    let mut ledger = Ledger::new(program());
    let anchor = AnchorMerkleRoot { authority: key(1) };
    assert!(anchor_merkle_root(&mut ledger, &anchor, "plan-a".to_string(), [1u8; 32], 5).is_ok());
    assert_eq!(
        anchor_merkle_root(&mut ledger, &anchor, "plan-a".to_string(), [2u8; 32], 6),
        Err(RegistryError::DuplicateAnchor)
    );
    assert_eq!(ledger.len(), 1);
    let (address, _) = agent_registry::address::derive_anchor_address(&program(), b"plan-a".to_vec()).unwrap();
    match ledger.lookup(&address) {
        Some(Record::Anchor(a)) => {
            assert_eq!(a.root, [1u8; 32]);
            assert_eq!(a.anchored_at, 5);
            assert_eq!(a.plan_id, "plan-a");
        }
        other => panic!("no anchor: {:?}", other),
    }
    assert!(anchor_merkle_root(&mut ledger, &anchor, "plan-b".to_string(), [2u8; 32], 6).is_ok());
    assert_eq!(ledger.len(), 2);
}

#[test]
fn anchor_plan_id_bound() {
    let mut ledger = Ledger::new(program());
    let anchor = AnchorMerkleRoot { authority: key(1) };
    assert!(anchor_merkle_root(&mut ledger, &anchor, "p".repeat(32), [1u8; 32], 5).is_ok());
    assert_eq!(
        anchor_merkle_root(&mut ledger, &anchor, "p".repeat(33), [1u8; 32], 5),
        Err(RegistryError::MetadataTooLong)
    );
}

#[test]
fn sequential_ids_count_up() {
    let mut ledger = Ledger::new(program());
    initialize_registry(&mut ledger, &InitializeRegistry { authority: key(1) }).unwrap();
    assert_eq!(total_agents(&ledger), 0);
    let mut identities = Vec::new();
    for n in 0..3u64 {
        let ev = register_agent_sequential(
            &mut ledger,
            &RegisterAgent { owner: key(2) },
            format!("agent-{}", n),
            String::new(),
            "1.0".to_string(),
            Vec::new(),
            String::new(),
            50,
        )
        .unwrap();
        match ev {
            Event::AgentRegistered { id, identity, .. } => {
                assert_eq!(id, Some(n));
                assert_eq!(agent_record(&ledger, &identity).id, Some(n));
                identities.push(identity);
            }
            other => panic!("unexpected event {:?}", other),
        }
        assert_eq!(total_agents(&ledger), n + 1);
    }
    assert_ne!(identities[0], identities[1]);
    assert_ne!(identities[1], identities[2]);
    assert_eq!(ledger.len(), 4);
}

#[test]
fn sequential_needs_registry() {
    let mut ledger = Ledger::new(program());
    let r = register_agent_sequential(
        &mut ledger,
        &RegisterAgent { owner: key(2) },
        "a".to_string(),
        String::new(),
        String::new(),
        Vec::new(),
        String::new(),
        1,
    );
    assert_eq!(r, Err(RegistryError::NotFound));
    assert_eq!(ledger.len(), 0);
}

#[test]
fn sequential_counter_overflow() {
    let mut ledger = Ledger::new(program());
    let registry = key(50);
    ledger.create(registry, Record::Registry(Registry { authority: key(1), total_agents: u64::MAX, bump: 1 }));
    let r = register_agent_sequential_at(
        &mut ledger,
        &RegisterAgent { owner: key(2) },
        "a".to_string(),
        String::new(),
        String::new(),
        Vec::new(),
        String::new(),
        Some((registry, 1)),
        Some((key(51), 2)),
        1,
    );
    assert_eq!(r, Err(RegistryError::CounterOverflow));
}

#[test]
fn sequential_text_bounds() {
    let mut ledger = Ledger::new(program());
    initialize_registry(&mut ledger, &InitializeRegistry { authority: key(1) }).unwrap();
    let long_skills: Vec<String> = (0..17).map(|i| format!("s{}", i)).collect();
    let r = register_agent_sequential(
        &mut ledger,
        &RegisterAgent { owner: key(2) },
        "a".to_string(),
        String::new(),
        String::new(),
        long_skills,
        String::new(),
        1,
    );
    assert_eq!(r, Err(RegistryError::MetadataTooLong));
    let r = register_agent_sequential(
        &mut ledger,
        &RegisterAgent { owner: key(2) },
        "n".repeat(201),
        String::new(),
        String::new(),
        Vec::new(),
        String::new(),
        1,
    );
    assert_eq!(r, Err(RegistryError::MetadataTooLong));
    assert_eq!(total_agents(&ledger), 0);
}

#[test]
fn initialize_twice_fails() {
    let mut ledger = Ledger::new(program());
    assert_eq!(initialize_registry(&mut ledger, &InitializeRegistry { authority: key(1) }), Ok(()));
    assert_eq!(
        initialize_registry(&mut ledger, &InitializeRegistry { authority: key(2) }),
        Err(RegistryError::AlreadyInitialized)
    );
    assert_eq!(ledger.len(), 1);
}

#[test]
fn register_identity_and_duplicate() {
    let mut ledger = Ledger::new(program());
    let owner = key(2);
    let identity = key(9);
    let r = register_agent(&mut ledger, &RegisterAgent { owner }, identity, "https://x.example/9".to_string(), 77);
    assert_eq!(r, Ok(Event::AgentRegistered { id: None, identity, owner, name: String::new() }));
    let address = derive_agent_address(&program(), &identity).unwrap().0;
    let a = agent_record(&ledger, &address);
    assert_eq!(a.identity, identity);
    assert_eq!(a.owner, owner);
    assert_eq!(a.metadata_uri, "https://x.example/9");
    assert_eq!(a.created_at, 77);
    assert!(a.is_active);
    let again = register_agent(&mut ledger, &RegisterAgent { owner: key(3) }, identity, String::new(), 78);
    assert_eq!(again, Err(RegistryError::DuplicateAgent));
    assert_eq!(agent_record(&ledger, &address), a);
}

#[test]
fn register_uri_bound() {
    let mut ledger = Ledger::new(program());
    let ok = register_agent(&mut ledger, &RegisterAgent { owner: key(2) }, key(4), "u".repeat(200), 1);
    assert!(ok.is_ok());
    let too_long = register_agent(&mut ledger, &RegisterAgent { owner: key(2) }, key(5), "u".repeat(201), 1);
    assert_eq!(too_long, Err(RegistryError::MetadataTooLong));
    let multibyte = register_agent(&mut ledger, &RegisterAgent { owner: key(2) }, key(6), "é".repeat(101), 1);
    assert_eq!(multibyte, Err(RegistryError::MetadataTooLong));
    assert_eq!(ledger.len(), 1);
}

#[test]
fn register_without_address() {
    let mut ledger = Ledger::new(program());
    let r = register_agent_at(&mut ledger, &RegisterAgent { owner: key(2) }, key(4), String::new(), None, 1);
    assert_eq!(r, Err(RegistryError::AddressUnavailable));
    assert_eq!(ledger.len(), 0);
}

#[test]
fn update_is_partial() {
    let mut ledger = Ledger::new(program());
    let owner = key(2);
    let agent = registered_identity(&mut ledger, owner, key(4));
    let patch = AgentPatch {
        name: Some("n".to_string()),
        skills: Some(vec!["x".to_string(), "y".to_string()]),
        ..no_patch()
    };
    assert!(update_agent(&mut ledger, &UpdateAgent { owner, agent }, patch, 20).is_ok());
    let a = agent_record(&ledger, &agent);
    assert_eq!(a.name, "n");
    assert_eq!(a.skills, vec!["x".to_string(), "y".to_string()]);
    assert_eq!(a.metadata_uri, "https://example.org/a.json");
    assert_eq!(a.version, "");
    assert_eq!(a.created_at, 10);
    assert_eq!(a.updated_at, 20);
}

#[test]
fn update_bounds_and_missing_agent() {
    let mut ledger = Ledger::new(program());
    let owner = key(2);
    let agent = registered_identity(&mut ledger, owner, key(4));
    let before = agent_record(&ledger, &agent);
    let patch = AgentPatch { metadata_uri: Some("m".repeat(201)), ..no_patch() };
    assert_eq!(update_agent(&mut ledger, &UpdateAgent { owner, agent }, patch, 20), Err(RegistryError::MetadataTooLong));
    let patch = AgentPatch { skills: Some(vec!["k".repeat(33)]), ..no_patch() };
    assert_eq!(update_agent(&mut ledger, &UpdateAgent { owner, agent }, patch, 20), Err(RegistryError::MetadataTooLong));
    assert_eq!(agent_record(&ledger, &agent), before);
    let missing = UpdateAgent { owner, agent: key(99) };
    assert_eq!(update_agent(&mut ledger, &missing, no_patch(), 20), Err(RegistryError::NotFound));
    assert_eq!(deactivate_agent(&mut ledger, &missing, 20), Err(RegistryError::NotFound));
}

#[test]
fn update_by_other_is_unauthorized() {
    let mut ledger = Ledger::new(program());
    let owner = key(2);
    let agent = registered_identity(&mut ledger, owner, key(4));
    let before = agent_record(&ledger, &agent);
    let patch = AgentPatch { name: Some("stolen".to_string()), metadata_uri: Some("m".repeat(300)), ..no_patch() };
    assert_eq!(
        update_agent(&mut ledger, &UpdateAgent { owner: key(3), agent }, patch, 20),
        Err(RegistryError::Unauthorized)
    );
    assert_eq!(deactivate_agent(&mut ledger, &UpdateAgent { owner: key(3), agent }, 20), Err(RegistryError::Unauthorized));
    assert_eq!(agent_record(&ledger, &agent), before);
}

#[test]
fn feedback_rating_bounds() {
    let mut ledger = Ledger::new(program());
    let agent = registered_identity(&mut ledger, key(2), key(4));
    let len = ledger.len();
    assert_eq!(
        post_feedback(&mut ledger, &PostFeedback { reviewer: key(5), agent }, 101, 0, 1),
        Err(RegistryError::BadRating)
    );
    assert_eq!(ledger.len(), len);
    assert_eq!(post_feedback(&mut ledger, &PostFeedback { reviewer: key(5), agent }, 0, 0, 1), Ok(()));
    assert_eq!(post_feedback(&mut ledger, &PostFeedback { reviewer: key(6), agent }, 100, 3, 1), Ok(()));
    assert_eq!(ledger.len(), len + 2);
}

#[test]
fn feedback_upsert_keeps_one_record() {
    let mut ledger = Ledger::new(program());
    let agent = registered_identity(&mut ledger, key(2), key(4));
    let ctx = PostFeedback { reviewer: key(5), agent };
    assert_eq!(post_feedback(&mut ledger, &ctx, 40, 1, 11), Ok(()));
    let len = ledger.len();
    assert_eq!(post_feedback(&mut ledger, &ctx, 90, 2, 12), Ok(()));
    assert_eq!(ledger.len(), len);
    let (address, _) =
        agent_registry::address::derive_feedback_address(&program(), &key(4), &key(5)).unwrap();
    match ledger.lookup(&address) {
        Some(Record::Feedback(f)) => {
            assert_eq!(f.rating, 90);
            assert_eq!(f.tag, 2);
            assert_eq!(f.ts, 12);
            assert_eq!(f.identity, key(4));
            assert_eq!(f.reviewer, key(5));
        }
        other => panic!("no feedback: {:?}", other),
    }
}

#[test]
fn feedback_slot_of_other_kind() {
    let mut ledger = Ledger::new(program());
    let agent = registered_identity(&mut ledger, key(2), key(4));
    let ctx = PostFeedback { reviewer: key(5), agent };
    assert_eq!(post_feedback_at(&mut ledger, &ctx, 10, 1, Some((agent, 3)), 1), Err(RegistryError::AddressUnavailable));
    assert_eq!(post_feedback_at(&mut ledger, &ctx, 10, 1, None, 1), Err(RegistryError::AddressUnavailable));
    assert_eq!(
        post_feedback(&mut ledger, &PostFeedback { reviewer: key(5), agent: key(77) }, 10, 1, 1),
        Err(RegistryError::NotFound)
    );
}

#[test]
fn validation_once_per_day() {
    let mut ledger = Ledger::new(program());
    let agent = registered_identity(&mut ledger, key(2), key(4));
    let ctx = PostValidation { validator: key(6), agent };
    assert_eq!(post_validation(&mut ledger, &ctx, 20240501, [3u8; 32], 1), Ok(()));
    let len = ledger.len();
    let other = PostValidation { validator: key(7), agent };
    assert_eq!(post_validation(&mut ledger, &other, 20240501, [4u8; 32], 2), Err(RegistryError::DuplicateValidation));
    assert_eq!(ledger.len(), len);
    assert_eq!(post_validation(&mut ledger, &other, 20240502, [4u8; 32], 2), Ok(()));
    assert_eq!(ledger.len(), len + 1);
    assert_eq!(
        post_validation(&mut ledger, &PostValidation { validator: key(6), agent: key(88) }, 20240501, [3u8; 32], 1),
        Err(RegistryError::NotFound)
    );
    assert_eq!(post_validation_at(&mut ledger, &ctx, 20240503, [3u8; 32], None, 1), Err(RegistryError::AddressUnavailable));
}

#[test]
fn deactivated_agent_stays_inactive() {
    let mut ledger = Ledger::new(program());
    let owner = key(2);
    let agent = registered_identity(&mut ledger, owner, key(4));
    let ctx = UpdateAgent { owner, agent };
    assert!(deactivate_agent(&mut ledger, &ctx, 30).is_ok());
    let patch = AgentPatch { description: Some("still here".to_string()), ..no_patch() };
    assert!(update_agent(&mut ledger, &ctx, patch, 31).is_ok());
    assert!(deactivate_agent(&mut ledger, &ctx, 32).is_ok());
    let a = agent_record(&ledger, &agent);
    assert!(!a.is_active);
    assert_eq!(a.description, "still here");
    assert_eq!(a.owner, owner);
    assert_eq!(a.identity, key(4));
    assert_eq!(a.updated_at, 32);
}
