use badges::badge_assertion::BadgeAssertion;
use badges::badge_claim::{check_badge_assertion_in_chain, validate_badge_claim, BadgeClaim};
use badges::entry::{ChainEntry, Entity, EntryKind, EntryValidation, ValidationData, ValidationPackage};
use badges::error::ValidationError;

fn agent(a: &str) -> ChainEntry {
    ChainEntry { address: a.to_string(), entity: Entity::AgentId(a.to_string()) }
}

fn assertion(address: &str, class: &str, recipient: &str) -> ChainEntry {
    ChainEntry {
        address: address.to_string(),
        entity: Entity::BadgeAssertion(BadgeAssertion::new(class.to_string(), recipient.to_string())),
    }
}

fn create(issuer: &str, recipient: &str, entries: Option<Vec<ChainEntry>>, sources: &[&str]) -> EntryValidation<BadgeClaim> {
    EntryValidation::Create {
        entry: BadgeClaim::new(issuer.to_string(), recipient.to_string(), "C".to_string(), vec!["proof".to_string()]),
        validation_data: ValidationData {
            package: ValidationPackage { source_chain_entries: entries },
            sources: sources.iter().map(|s| s.to_string()).collect(),
        },
    }
}

#[test]
fn self_claim_rejected_on_own_chain() {
    let op = create("B", "B", Some(vec![agent("B"), assertion("a", "C", "B")]), &["B"]);
    assert_eq!(validate_badge_claim(&op), Err(ValidationError::SelfClaim));
}

#[test]
fn self_claim_rejected_without_package() {
    let op = create("B", "B", None, &[]);
    assert_eq!(validate_badge_claim(&op), Err(ValidationError::SelfClaim));
}

#[test]
fn recipient_chain_without_issuer_signature_rejected() {
    let op = create("B", "F", Some(vec![agent("F")]), &["F"]);
    assert_eq!(validate_badge_claim(&op), Err(ValidationError::MissingCountersignature));
}

#[test]
fn recipient_chain_without_recipient_signature_rejected() {
    let op = create("B", "F", Some(vec![agent("F")]), &["B"]);
    assert_eq!(validate_badge_claim(&op), Err(ValidationError::MissingCountersignature));
}

#[test]
fn recipient_chain_cosigned_accepted() {
    let op = create("B", "F", Some(vec![agent("F")]), &["F", "B"]);
    assert_eq!(validate_badge_claim(&op), Ok(()));
}

#[test]
fn issuer_chain_with_own_assertion_accepted() {
    let op = create("B", "F", Some(vec![agent("B"), assertion("a", "C", "B")]), &["B"]);
    assert_eq!(validate_badge_claim(&op), Ok(()));
}

#[test]
fn issuer_chain_without_assertion_rejected() {
    let op = create("B", "F", Some(vec![agent("B"), assertion("a", "other", "B"), assertion("b", "C", "G")]), &["B"]);
    assert_eq!(validate_badge_claim(&op), Err(ValidationError::IssuerNotCredentialed));
}

#[test]
fn claim_on_third_chain_rejected() {
    let op = create("B", "F", Some(vec![agent("G")]), &["B", "F"]);
    assert_eq!(validate_badge_claim(&op), Err(ValidationError::UnauthorizedWriter));
}

#[test]
fn claim_needs_agent_identity() {
    let op = create("B", "F", Some(vec![assertion("a", "C", "B")]), &["B"]);
    assert_eq!(validate_badge_claim(&op), Err(ValidationError::MissingAgentIdentity));
}

#[test]
fn claim_needs_chain_entries() {
    let op = create("B", "F", None, &["B"]);
    assert_eq!(validate_badge_claim(&op), Err(ValidationError::MissingChainEntries));
}

#[test]
fn claim_cannot_be_deleted() {
    let op = EntryValidation::Delete {
        old_entry: BadgeClaim::new("B".to_string(), "F".to_string(), "C".to_string(), vec![]),
        validation_data: ValidationData { package: ValidationPackage { source_chain_entries: None }, sources: vec![] },
    };
    assert_eq!(validate_badge_claim(&op), Err(ValidationError::ImmutableEntryViolation));
}

#[test]
fn malformed_assertion_stops_the_scan() {
    let chain = vec![
        agent("B"),
        ChainEntry { address: "x".to_string(), entity: Entity::Malformed(EntryKind::BadgeAssertion) },
        assertion("a", "C", "B"),
    ];
    assert_eq!(
        check_badge_assertion_in_chain("C".to_string(), "B".to_string(), &chain),
        Err(ValidationError::MalformedEntry { kind: EntryKind::BadgeAssertion })
    );
}
