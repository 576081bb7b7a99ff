use badges::anchor::{anchor_content, validate_anchor};
use badges::badge::Badge;
use badges::badge_assertion::BadgeAssertion;
use badges::badge_claim::BadgeClaim;
use badges::badge_class::{validate_badge_class, BadgeClass, ClassCreationPolicy};
use badges::entry::{contains_address, ChainEntry, Entity, EntryKind, EntryValidation, ValidationData, ValidationPackage};
use badges::error::ValidationError;
use badges::links::{validate_link, Link, LinkType, LinkValidation};
use badges::utils::{get_chain_agent_id, get_package_entries};
use badges::workflow::{assertion_links, badge_links, claim_links, class_links, recipient_tag};

const ALL_LINK_TYPES: [LinkType; 10] = [
    LinkType::AnchorToBadgeClass,
    LinkType::CreatorToBadgeClass,
    LinkType::BadgeClassToBadgeClaim,
    LinkType::BadgeClassToBadgeAssertion,
    LinkType::IssuerToBadgeClaim,
    LinkType::RecipientToBadgeClaim,
    LinkType::RecipientToBadgeAssertion,
    LinkType::IssuerToBadge,
    LinkType::RecipientToBadge,
    LinkType::BadgeClassToBadge,
];

fn link(base: &str, target: &str, link_type: LinkType) -> Link {
    Link { base: base.to_string(), target: target.to_string(), link_type, tag: String::new() }
}

fn class(creator: &str) -> BadgeClass {
    BadgeClass::new("n".to_string(), "d".to_string(), "i".to_string(), creator.to_string(), 1)
}

fn data(sources: &[&str]) -> ValidationData {
    ValidationData {
        package: ValidationPackage { source_chain_entries: None },
        sources: sources.iter().map(|s| s.to_string()).collect(),
    }
}

#[test]
fn no_link_can_be_removed() {
    for t in ALL_LINK_TYPES {
        let op = LinkValidation::LinkRemove { link: link("A", "C", t) };
        assert_eq!(validate_link(&op, &Some(Entity::BadgeClass(class("A")))), Err(ValidationError::LinkDeletionForbidden));
        assert_eq!(validate_link(&op, &None), Err(ValidationError::LinkDeletionForbidden));
    }
}

#[test]
fn structural_links_accepted() {
    for t in ALL_LINK_TYPES {
        if !t.reads_target() {
            let op = LinkValidation::LinkAdd { link: link("A", "C", t) };
            assert_eq!(validate_link(&op, &None), Ok(()));
        }
    }
}

#[test]
fn creator_link_must_start_at_creator() {
    let ok = LinkValidation::LinkAdd { link: link("A", "C", LinkType::CreatorToBadgeClass) };
    assert_eq!(validate_link(&ok, &Some(Entity::BadgeClass(class("A")))), Ok(()));
    let wrong = LinkValidation::LinkAdd { link: link("B", "C", LinkType::CreatorToBadgeClass) };
    assert_eq!(validate_link(&wrong, &Some(Entity::BadgeClass(class("A")))), Err(ValidationError::LinkBaseMismatch));
    assert_eq!(validate_link(&wrong, &None), Err(ValidationError::ReferenceNotFound));
    assert_eq!(
        validate_link(&wrong, &Some(Entity::Other)),
        Err(ValidationError::MalformedEntry { kind: EntryKind::BadgeClass })
    );
}

#[test]
fn badge_links_must_match_badge() {
    let b = || Some(Entity::Badge(Badge::initial(&"F".to_string(), &"C".to_string())));
    let recipient = LinkValidation::LinkAdd { link: link("F", "b", LinkType::RecipientToBadge) };
    assert_eq!(validate_link(&recipient, &b()), Ok(()));
    let other = LinkValidation::LinkAdd { link: link("G", "b", LinkType::RecipientToBadge) };
    assert_eq!(validate_link(&other, &b()), Err(ValidationError::LinkBaseMismatch));
    let class_ok = LinkValidation::LinkAdd { link: link("C", "b", LinkType::BadgeClassToBadge) };
    assert_eq!(validate_link(&class_ok, &b()), Ok(()));
    let class_bad = LinkValidation::LinkAdd { link: link("X", "b", LinkType::BadgeClassToBadge) };
    assert_eq!(validate_link(&class_bad, &b()), Err(ValidationError::LinkBaseMismatch));
    assert_eq!(
        validate_link(&class_ok, &Some(Entity::Other)),
        Err(ValidationError::MalformedEntry { kind: EntryKind::Badge })
    );
}

#[test]
fn link_type_names() {
    assert_eq!(LinkType::AnchorToBadgeClass.name(), "anchor->badge_class");
    assert_eq!(LinkType::RecipientToBadge.name(), "recipient->badge");
    assert_eq!(LinkType::BadgeClassToBadgeAssertion.name(), "badge_class->badge_assertion");
}

#[test]
fn anchor_created_twice_is_one_entry() {
    let first = anchor_content();
    let second = anchor_content();
    assert_eq!(first, "all_badges_classes");
    assert_eq!(first, second);
}

#[test]
fn anchor_is_immutable() {
    let create = EntryValidation::Create { entry: anchor_content(), validation_data: data(&[]) };
    assert_eq!(validate_anchor(&create), Ok(()));
    let delete = EntryValidation::Delete { old_entry: anchor_content(), validation_data: data(&[]) };
    assert_eq!(validate_anchor(&delete), Err(ValidationError::ImmutableEntryViolation));
}

#[test]
fn class_creation_policies() {
    let open = EntryValidation::Create { entry: class("A"), validation_data: data(&["B"]) };
    assert_eq!(validate_badge_class(&open, ClassCreationPolicy::Open), Ok(()));
    assert_eq!(
        validate_badge_class(&open, ClassCreationPolicy::CreatorMustSign),
        Err(ValidationError::MissingCreatorSignature)
    );
    let signed = EntryValidation::Create { entry: class("A"), validation_data: data(&["A"]) };
    assert_eq!(validate_badge_class(&signed, ClassCreationPolicy::CreatorMustSign), Ok(()));
    let modify = EntryValidation::Modify { new_entry: class("A"), old_entry: class("A"), validation_data: data(&["A"]) };
    assert_eq!(validate_badge_class(&modify, ClassCreationPolicy::Open), Err(ValidationError::ImmutableEntryViolation));
}

#[test]
fn kind_names_round_trip() {
    for k in [EntryKind::Anchor, EntryKind::BadgeClass, EntryKind::BadgeClaim, EntryKind::BadgeAssertion, EntryKind::Badge] {
        assert_eq!(EntryKind::from_kind_name(k.kind_name()), Some(k));
    }
    assert_eq!(EntryKind::from_kind_name("badge_claim"), Some(EntryKind::BadgeClaim));
    assert_eq!(EntryKind::from_kind_name("badges"), None);
    assert_eq!(EntryKind::from_kind_name(""), None);
}

#[test]
fn chain_agent_is_first_identity() {
    let chain = vec![
        ChainEntry { address: "x".to_string(), entity: Entity::Other },
        ChainEntry { address: "B".to_string(), entity: Entity::AgentId("B".to_string()) },
        ChainEntry { address: "D".to_string(), entity: Entity::AgentId("D".to_string()) },
    ];
    assert_eq!(get_chain_agent_id(&chain), Ok("B".to_string()));
    assert_eq!(get_chain_agent_id(&vec![]), Err(ValidationError::MissingAgentIdentity));
}

#[test]
fn package_entries_required() {
    let empty = ValidationPackage { source_chain_entries: None };
    assert_eq!(get_package_entries(&empty).unwrap_err(), ValidationError::MissingChainEntries);
    let some = ValidationPackage { source_chain_entries: Some(vec![]) };
    assert!(get_package_entries(&some).unwrap().is_empty());
}

#[test]
fn address_membership() {
    let l = vec!["A".to_string(), "B".to_string()];
    assert!(contains_address(&l, &"B".to_string()));
    assert!(!contains_address(&l, &"C".to_string()));
}

#[test]
fn issuance_links() {
    let c = class_links(&"anchor".to_string(), &"A".to_string(), &"C".to_string());
    assert_eq!(c.len(), 2);
    assert_eq!((c[0].base.as_str(), c[0].target.as_str(), c[0].link_type), ("anchor", "C", LinkType::AnchorToBadgeClass));
    assert_eq!((c[1].base.as_str(), c[1].link_type), ("A", LinkType::CreatorToBadgeClass));

    let claim = BadgeClaim::new("B".to_string(), "F".to_string(), "C".to_string(), vec![]);
    let l = claim_links(&claim, &"claim".to_string());
    assert_eq!((l[0].base.as_str(), l[0].target.as_str(), l[0].tag.as_str()), ("B", "claim", "C"));
    assert_eq!((l[1].base.as_str(), l[1].link_type), ("F", LinkType::RecipientToBadgeClaim));

    let a = BadgeAssertion::new("C".to_string(), "F".to_string());
    let l = assertion_links(&a, &"asrt".to_string());
    assert_eq!((l[0].base.as_str(), l[0].link_type, l[0].tag.as_str()), ("F", LinkType::RecipientToBadgeAssertion, "C"));
    assert_eq!((l[1].base.as_str(), l[1].link_type), ("C", LinkType::BadgeClassToBadgeAssertion));
}

#[test]
fn legacy_badge_links() {
    let b = Badge::initial(&"F".to_string(), &"C".to_string());
    let l = badge_links(&"D".to_string(), &b, &"b0".to_string(), &"b1".to_string(), false);
    assert_eq!(l.len(), 3);
    assert_eq!((l[0].base.as_str(), l[0].target.as_str(), l[0].tag.as_str()), ("D", "b0", "C"));
    assert_eq!((l[1].base.as_str(), l[1].tag.as_str()), ("F", "temptative"));
    assert_eq!((l[2].base.as_str(), l[2].target.as_str()), ("C", "b1"));
    assert_eq!(recipient_tag(true), "completed");
}
