use vstd::prelude::*;

use crate::badge_class::BadgeClass;
use crate::entry::{Address, ChainEntry, Entity, EntryKind, EntryValidation, ValidationData};
use crate::error::ValidationError;
use crate::utils::{class_in_chain, get_package_entries, package_entries};

pub use crate::utils::get_badge_class_from_chain;

verus! {

/// The recipient publicly holds a credential of the badge class.
#[derive(Debug)]
pub struct BadgeAssertion {
    pub badge_class: Address,
    pub recipient: Address,
}

impl Clone for BadgeAssertion {
    fn clone(&self) -> (r: Self)
        ensures
            r == *self,
    {
        BadgeAssertion { badge_class: self.badge_class.clone(), recipient: self.recipient.clone() }
    }
}

impl BadgeAssertion {
    /// `recipient` asserts that they hold the class at `badge_class`.
    pub fn new(badge_class: Address, recipient: Address) -> (r: BadgeAssertion)
        ensures
            r == (BadgeAssertion { badge_class, recipient }),
    {
        BadgeAssertion { badge_class, recipient }
    }
}

/// Whether the claim vouches for `recipient` in the class at `badge_class`.
pub open spec fn claim_matches(c: crate::badge_claim::BadgeClaim, recipient: Seq<char>, badge_class: Seq<char>) -> bool {
    c.recipient@ == recipient && c.badge_class@ == badge_class
}

/// The quorum scan over a chain, from its start, with `count` matching
/// claims already seen: a claim issued by the class creator accepts at once,
/// a claim entry that does not decode rejects at once, and at the end of the
/// chain the count of claims that match recipient and class must reach
/// `required`.
pub open spec fn claims_scan(
    entries: Seq<ChainEntry>,
    badge_class: Seq<char>,
    creator: Seq<char>,
    recipient: Seq<char>,
    required: usize,
    count: nat,
) -> Result<(), ValidationError>
    decreases entries.len(),
{
    if entries.len() == 0 {
        if count >= required {
            Ok(())
        } else {
            Err(ValidationError::InsufficientClaims { required, actual: count as usize })
        }
    } else {
        match entries[0].entity {
            Entity::BadgeClaim(c) => {
                if c.issuer@ == creator {
                    Ok(())
                } else {
                    claims_scan(
                        entries.drop_first(),
                        badge_class,
                        creator,
                        recipient,
                        required,
                        if claim_matches(c, recipient, badge_class) { count + 1 } else { count },
                    )
                }
            },
            Entity::Malformed(EntryKind::BadgeClaim) => Err(
                ValidationError::MalformedEntry { kind: EntryKind::BadgeClaim },
            ),
            _ => claims_scan(entries.drop_first(), badge_class, creator, recipient, required, count),
        }
    }
}

/// The verdict on creating `assertion` on the chain described by `data`.
pub open spec fn assertion_create_outcome(assertion: BadgeAssertion, data: ValidationData) -> Result<(), ValidationError> {
    match package_entries(data.package) {
        Err(e) => Err(e),
        Ok(entries) => match class_in_chain(entries, assertion.badge_class@) {
            Err(e) => Err(e),
            Ok(class) => {
                if assertion.recipient@ == class.creator_address@ {
                    Ok(())
                } else {
                    claims_scan(
                        entries,
                        assertion.badge_class@,
                        class.creator_address@,
                        assertion.recipient@,
                        class.validators,
                        0,
                    )
                }
            },
        },
    }
}

/// The verdict on any operation on an assertion: only creation can pass.
pub open spec fn assertion_outcome(op: EntryValidation<BadgeAssertion>) -> Result<(), ValidationError> {
    match op {
        EntryValidation::Create { entry, validation_data } => assertion_create_outcome(entry, validation_data),
        _ => Err(ValidationError::ImmutableEntryViolation),
    }
}

/// Succeeds where the chain holds a claim issued by the class creator, or at
/// least as many claims for `recipient` in the class as it requires.
pub fn check_badge_claims(
    badge_class_address: &Address,
    badge_class: &BadgeClass,
    recipient: &Address,
    entries: &Vec<ChainEntry>,
) -> (r: Result<(), ValidationError>)
    ensures
        r == claims_scan(
            entries@,
            badge_class_address@,
            badge_class.creator_address@,
            recipient@,
            badge_class.validators,
            0,
        ),
{
    let n = entries.len();
    let mut i: usize = 0;
    let mut actual_claims: usize = 0;
    assert(entries@.skip(0) =~= entries@);
    while i < n
        invariant
            n == entries@.len(),
            0 <= actual_claims <= i <= n,
            claims_scan(
                entries@,
                badge_class_address@,
                badge_class.creator_address@,
                recipient@,
                badge_class.validators,
                0,
            ) == claims_scan(
                entries@.skip(i as int),
                badge_class_address@,
                badge_class.creator_address@,
                recipient@,
                badge_class.validators,
                actual_claims as nat,
            ),
        decreases n - i,
    {
        assert(entries@.skip(i as int).drop_first() =~= entries@.skip(i + 1));
        match &entries[i].entity {
            Entity::BadgeClaim(claim) => {
                if claim.issuer == badge_class.creator_address {
                    return Ok(());
                }
                if claim.recipient == *recipient && claim.badge_class == *badge_class_address {
                    actual_claims = actual_claims + 1;
                }
            },
            Entity::Malformed(EntryKind::BadgeClaim) => {
                return Err(ValidationError::MalformedEntry { kind: EntryKind::BadgeClaim });
            },
            _ => {},
        }
        i = i + 1;
    }
    if actual_claims >= badge_class.validators {
        Ok(())
    } else {
        Err(ValidationError::InsufficientClaims { required: badge_class.validators, actual: actual_claims })
    }
}

/// Validates the creation of an assertion: the class must be on the
/// asserting chain; its creator may always assert, anyone else needs the
/// claims that `check_badge_claims` asks for.
pub fn validate_assertion_create(assertion: &BadgeAssertion, validation_data: &ValidationData) -> (r: Result<(), ValidationError>)
    ensures
        r == assertion_create_outcome(*assertion, *validation_data),
{
    let entries = get_package_entries(&validation_data.package)?;
    let badge_class = get_badge_class_from_chain(&assertion.badge_class, entries)?;
    if assertion.recipient == badge_class.creator_address {
        return Ok(());
    }
    check_badge_claims(&assertion.badge_class, &badge_class, &assertion.recipient, entries)
}

/// Validates an operation on an assertion entry.
pub fn validate_badge_assertion(op: &EntryValidation<BadgeAssertion>) -> (r: Result<(), ValidationError>)
    ensures
        r == assertion_outcome(*op),
{
    match op {
        EntryValidation::Create { entry, validation_data } => validate_assertion_create(entry, validation_data),
        _ => Err(ValidationError::ImmutableEntryViolation),
    }
}

/// The number of claims on the chain that vouch for `recipient` in the class
/// at `badge_class`, counting every such entry, also from the same issuer.
pub open spec fn matching_claims(entries: Seq<ChainEntry>, recipient: Seq<char>, badge_class: Seq<char>) -> nat
    decreases entries.len(),
{
    if entries.len() == 0 {
        0
    } else {
        (match entries[0].entity {
            Entity::BadgeClaim(c) => if claim_matches(c, recipient, badge_class) { 1nat } else { 0nat },
            _ => 0nat,
        }) + matching_claims(entries.drop_first(), recipient, badge_class)
    }
}

/// Whether the entity is a claim issued by `issuer`.
pub open spec fn is_claim_by(e: Entity, issuer: Seq<char>) -> bool {
    e matches Entity::BadgeClaim(c) && c.issuer@ == issuer
}

/// Whether the chain holds a claim issued by `issuer`, whoever it is for.
pub open spec fn has_claim_by(entries: Seq<ChainEntry>, issuer: Seq<char>) -> bool {
    exists|i: int| 0 <= i < entries.len() && is_claim_by(#[trigger] entries[i].entity, issuer)
}

/// Whether every entry of the chain declared a claim decodes as one.
pub open spec fn claims_decode(entries: Seq<ChainEntry>) -> bool {
    forall|i: int| 0 <= i < entries.len() ==> #[trigger] entries[i].entity != Entity::Malformed(EntryKind::BadgeClaim)
}

/// On a chain whose claims decode, the quorum scan accepts exactly where a
/// claim by the creator is present or the matching claims, with `count`
/// already seen, reach `required`.
proof fn lemma_claims_scan(
    entries: Seq<ChainEntry>,
    badge_class: Seq<char>,
    creator: Seq<char>,
    recipient: Seq<char>,
    required: usize,
    count: nat,
)
    requires
        claims_decode(entries),
    ensures
        claims_scan(entries, badge_class, creator, recipient, required, count) is Ok <==> (has_claim_by(entries, creator)
            || count + matching_claims(entries, recipient, badge_class) >= required),
    decreases entries.len(),
{
    if entries.len() > 0 {
        let rest = entries.drop_first();
        assert(claims_decode(rest)) by {
            assert forall|i: int| 0 <= i < rest.len() implies #[trigger] rest[i].entity != Entity::Malformed(EntryKind::BadgeClaim) by {
                assert(rest[i] == entries[i + 1]);
            }
        }
        assert(entries[0].entity != Entity::Malformed(EntryKind::BadgeClaim));
        let next = match entries[0].entity {
            Entity::BadgeClaim(c) => if claim_matches(c, recipient, badge_class) { count + 1 } else { count },
            _ => count,
        };
        lemma_claims_scan(rest, badge_class, creator, recipient, required, next);
        if has_claim_by(rest, creator) {
            let i = choose|i: int| 0 <= i < rest.len() && is_claim_by(#[trigger] rest[i].entity, creator);
            assert(entries[i + 1] == rest[i]);
        }
        if has_claim_by(entries, creator) && !is_claim_by(entries[0].entity, creator) {
            let i = choose|i: int| 0 <= i < entries.len() && is_claim_by(#[trigger] entries[i].entity, creator);
            assert(rest[i - 1] == entries[i]);
        }
        if is_claim_by(entries[0].entity, creator) {
            assert(has_claim_by(entries, creator));
        }
    }
}

/// The quorum rule: where the class is on the asserting chain and its claims
/// decode, an assertion by anyone but the class creator is accepted exactly
/// where the chain holds at least as many matching claims as the class
/// requires, or a claim issued by the class creator.
pub proof fn lemma_quorum_rule(assertion: BadgeAssertion, validation_data: ValidationData, class: BadgeClass)
    requires
        validation_data.package.source_chain_entries is Some,
        claims_decode(validation_data.package.source_chain_entries->0@),
        class_in_chain(validation_data.package.source_chain_entries->0@, assertion.badge_class@) == Ok::<BadgeClass, ValidationError>(class),
        assertion.recipient@ != class.creator_address@,
    ensures
        ({
            let entries = validation_data.package.source_chain_entries->0@;
            assertion_create_outcome(assertion, validation_data) is Ok <==> (matching_claims(
                entries,
                assertion.recipient@,
                assertion.badge_class@,
            ) >= class.validators || has_claim_by(entries, class.creator_address@))
        }),
{
    lemma_claims_scan(
        validation_data.package.source_chain_entries->0@,
        assertion.badge_class@,
        class.creator_address@,
        assertion.recipient@,
        class.validators,
        0,
    );
}

/// The creator of a class may always assert it on a chain that holds the
/// class, whatever number of claims the class requires.
pub proof fn lemma_creator_asserts(assertion: BadgeAssertion, validation_data: ValidationData, class: BadgeClass)
    requires
        validation_data.package.source_chain_entries is Some,
        class_in_chain(validation_data.package.source_chain_entries->0@, assertion.badge_class@) == Ok::<BadgeClass, ValidationError>(class),
        assertion.recipient@ == class.creator_address@,
    ensures
        assertion_create_outcome(assertion, validation_data) == Ok::<(), ValidationError>(()),
{
}

} // verus!
