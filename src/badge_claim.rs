use vstd::prelude::*;

use crate::entry::{
    contains_address, lists_address, Address, ChainEntry, Entity, EntryKind, EntryValidation,
    ValidationData,
};
use crate::error::ValidationError;
use crate::utils::{chain_agent, get_chain_agent_id, get_package_entries, package_entries};

verus! {

/// The issuer vouches that the recipient deserves the badge class.
#[derive(Debug)]
pub struct BadgeClaim {
    pub issuer: Address,
    pub recipient: Address,
    pub badge_class: Address,
    pub evidences: Vec<Address>,
}

impl Clone for BadgeClaim {
    fn clone(&self) -> (r: Self)
        ensures
            r.issuer == self.issuer,
            r.recipient == self.recipient,
            r.badge_class == self.badge_class,
            r.evidences@ == self.evidences@,
    {
        let evidences = self.evidences.clone();
        assert(evidences@ =~= self.evidences@);
        BadgeClaim {
            issuer: self.issuer.clone(),
            recipient: self.recipient.clone(),
            badge_class: self.badge_class.clone(),
            evidences,
        }
    }
}

impl BadgeClaim {
    /// `issuer` vouches for `recipient` in the class at `badge_class`.
    pub fn new(issuer: Address, recipient: Address, badge_class: Address, evidences: Vec<Address>) -> (r: BadgeClaim)
        ensures
            r == (BadgeClaim { issuer, recipient, badge_class, evidences }),
    {
        BadgeClaim { issuer, recipient, badge_class, evidences }
    }
}

/// Whether the chain holds an assertion that `recipient` holds the class at
/// `badge_class`, scanning from the start: an assertion entry that does not
/// decode ends the scan with an error.
pub open spec fn assertion_in_chain(entries: Seq<ChainEntry>, badge_class: Seq<char>, recipient: Seq<char>) -> Result<(), ValidationError>
    decreases entries.len(),
{
    if entries.len() == 0 {
        Err(ValidationError::IssuerNotCredentialed)
    } else {
        match entries[0].entity {
            Entity::BadgeAssertion(a) => {
                if a.badge_class@ == badge_class && a.recipient@ == recipient {
                    Ok(())
                } else {
                    assertion_in_chain(entries.drop_first(), badge_class, recipient)
                }
            },
            Entity::Malformed(EntryKind::BadgeAssertion) => Err(
                ValidationError::MalformedEntry { kind: EntryKind::BadgeAssertion },
            ),
            _ => assertion_in_chain(entries.drop_first(), badge_class, recipient),
        }
    }
}

/// The verdict on creating `claim` on the chain described by `data`.
pub open spec fn claim_create_outcome(claim: BadgeClaim, data: ValidationData) -> Result<(), ValidationError> {
    if claim.issuer@ == claim.recipient@ {
        Err(ValidationError::SelfClaim)
    } else {
        match package_entries(data.package) {
            Err(e) => Err(e),
            Ok(entries) => match chain_agent(entries) {
                None => Err(ValidationError::MissingAgentIdentity),
                Some(owner) => {
                    if owner == claim.recipient@ {
                        if lists_address(data.sources@, claim.recipient@) && lists_address(
                            data.sources@,
                            claim.issuer@,
                        ) {
                            Ok(())
                        } else {
                            Err(ValidationError::MissingCountersignature)
                        }
                    } else if owner == claim.issuer@ {
                        assertion_in_chain(entries, claim.badge_class@, claim.issuer@)
                    } else {
                        Err(ValidationError::UnauthorizedWriter)
                    }
                },
            },
        }
    }
}

/// The verdict on any operation on a claim: only creation can pass.
pub open spec fn claim_outcome(op: EntryValidation<BadgeClaim>) -> Result<(), ValidationError> {
    match op {
        EntryValidation::Create { entry, validation_data } => claim_create_outcome(entry, validation_data),
        _ => Err(ValidationError::ImmutableEntryViolation),
    }
}

/// Succeeds where the chain holds an assertion that `recipient` holds the class.
pub fn check_badge_assertion_in_chain(badge_class: Address, recipient: Address, chain_entries: &Vec<ChainEntry>) -> (r: Result<(), ValidationError>)
    ensures
        r == assertion_in_chain(chain_entries@, badge_class@, recipient@),
{
    let n = chain_entries.len();
    let mut i: usize = 0;
    assert(chain_entries@.skip(0) =~= chain_entries@);
    while i < n
        invariant
            n == chain_entries@.len(),
            0 <= i <= n,
            assertion_in_chain(chain_entries@, badge_class@, recipient@) == assertion_in_chain(
                chain_entries@.skip(i as int),
                badge_class@,
                recipient@,
            ),
        decreases n - i,
    {
        assert(chain_entries@.skip(i as int).drop_first() =~= chain_entries@.skip(i + 1));
        match &chain_entries[i].entity {
            Entity::BadgeAssertion(assertion) => {
                if assertion.badge_class == badge_class && assertion.recipient == recipient {
                    return Ok(());
                }
            },
            Entity::Malformed(EntryKind::BadgeAssertion) => {
                return Err(ValidationError::MalformedEntry { kind: EntryKind::BadgeAssertion });
            },
            _ => {},
        }
        i = i + 1;
    }
    Err(ValidationError::IssuerNotCredentialed)
}

/// Validates the creation of a claim: the issuer and recipient differ, and
/// either the recipient's chain holds it signed by both, or the issuer's
/// chain already holds the issuer's own assertion in the class.
pub fn validate_claim_create(claim: &BadgeClaim, validation_data: &ValidationData) -> (r: Result<(), ValidationError>)
    ensures
        r == claim_create_outcome(*claim, *validation_data),
{
    if claim.recipient == claim.issuer {
        return Err(ValidationError::SelfClaim);
    }
    let entries = get_package_entries(&validation_data.package)?;
    let author = get_chain_agent_id(entries)?;
    let sources = &validation_data.sources;
    if author == claim.recipient {
        if !contains_address(sources, &claim.recipient) {
            return Err(ValidationError::MissingCountersignature);
        }
        if !contains_address(sources, &claim.issuer) {
            return Err(ValidationError::MissingCountersignature);
        }
        Ok(())
    } else if author == claim.issuer {
        check_badge_assertion_in_chain(claim.badge_class.clone(), claim.issuer.clone(), entries)
    } else {
        Err(ValidationError::UnauthorizedWriter)
    }
}

/// Validates an operation on a claim entry.
pub fn validate_badge_claim(op: &EntryValidation<BadgeClaim>) -> (r: Result<(), ValidationError>)
    ensures
        r == claim_outcome(*op),
{
    match op {
        EntryValidation::Create { entry, validation_data } => validate_claim_create(entry, validation_data),
        _ => Err(ValidationError::ImmutableEntryViolation),
    }
}

/// Whether the entity asserts that `recipient` holds the class at `badge_class`.
pub open spec fn is_assertion_of(e: Entity, badge_class: Seq<char>, recipient: Seq<char>) -> bool {
    e matches Entity::BadgeAssertion(a) && a.badge_class@ == badge_class && a.recipient@ == recipient
}

/// Whether the chain holds an assertion that `recipient` holds the class.
pub open spec fn has_assertion(entries: Seq<ChainEntry>, badge_class: Seq<char>, recipient: Seq<char>) -> bool {
    exists|i: int| 0 <= i < entries.len() && is_assertion_of(#[trigger] entries[i].entity, badge_class, recipient)
}

/// Whether every entry of the chain declared an assertion decodes as one.
pub open spec fn assertions_decode(entries: Seq<ChainEntry>) -> bool {
    forall|i: int| 0 <= i < entries.len() ==> #[trigger] entries[i].entity != Entity::Malformed(EntryKind::BadgeAssertion)
}

/// On a chain whose assertions decode, the scan succeeds exactly where the
/// assertion is present, and otherwise reports the issuer uncredentialed.
proof fn lemma_assertion_scan(entries: Seq<ChainEntry>, badge_class: Seq<char>, recipient: Seq<char>)
    requires
        assertions_decode(entries),
    ensures
        assertion_in_chain(entries, badge_class, recipient) == (if has_assertion(entries, badge_class, recipient) {
            Ok::<(), ValidationError>(())
        } else {
            Err(ValidationError::IssuerNotCredentialed)
        }),
    decreases entries.len(),
{
    if entries.len() > 0 {
        let rest = entries.drop_first();
        assert(assertions_decode(rest)) by {
            assert forall|i: int| 0 <= i < rest.len() implies #[trigger] rest[i].entity != Entity::Malformed(EntryKind::BadgeAssertion) by {
                assert(rest[i] == entries[i + 1]);
            }
        }
        assert(entries[0].entity != Entity::Malformed(EntryKind::BadgeAssertion));
        lemma_assertion_scan(rest, badge_class, recipient);
        if has_assertion(rest, badge_class, recipient) {
            let i = choose|i: int| 0 <= i < rest.len() && is_assertion_of(#[trigger] rest[i].entity, badge_class, recipient);
            assert(entries[i + 1] == rest[i]);
        }
        if has_assertion(entries, badge_class, recipient) && !is_assertion_of(entries[0].entity, badge_class, recipient) {
            let i = choose|i: int| 0 <= i < entries.len() && is_assertion_of(#[trigger] entries[i].entity, badge_class, recipient);
            assert(rest[i - 1] == entries[i]);
        }
        if is_assertion_of(entries[0].entity, badge_class, recipient) {
            assert(has_assertion(entries, badge_class, recipient));
        }
    }
}

/// A claim whose issuer is its recipient is rejected, whatever chain
/// it is written to and whatever that chain holds.
pub proof fn lemma_self_claim_rejected(claim: BadgeClaim, validation_data: ValidationData)
    requires
        claim.issuer@ == claim.recipient@,
    ensures
        claim_create_outcome(claim, validation_data) == Err::<(), ValidationError>(ValidationError::SelfClaim),
{
}

/// On the recipient's chain a claim without the issuer's signature is
/// rejected, and the same claim signed by recipient and issuer is accepted.
pub proof fn lemma_recipient_chain_needs_countersignature(claim: BadgeClaim, validation_data: ValidationData)
    requires
        claim.issuer@ != claim.recipient@,
        validation_data.package.source_chain_entries is Some,
        chain_agent(validation_data.package.source_chain_entries->0@) == Some(claim.recipient@),
    ensures
        !lists_address(validation_data.sources@, claim.issuer@) ==> claim_create_outcome(claim, validation_data)
            == Err::<(), ValidationError>(ValidationError::MissingCountersignature),
        lists_address(validation_data.sources@, claim.issuer@) && lists_address(
            validation_data.sources@,
            claim.recipient@,
        ) ==> claim_create_outcome(claim, validation_data) == Ok::<(), ValidationError>(()),
{
}

/// On the issuer's chain, where its assertions decode, a claim is accepted
/// exactly where the chain already holds the issuer's own assertion in the
/// class, and is otherwise rejected with `IssuerNotCredentialed`.
pub proof fn lemma_issuer_chain_needs_credential(claim: BadgeClaim, validation_data: ValidationData)
    requires
        claim.issuer@ != claim.recipient@,
        validation_data.package.source_chain_entries is Some,
        assertions_decode(validation_data.package.source_chain_entries->0@),
        chain_agent(validation_data.package.source_chain_entries->0@) == Some(claim.issuer@),
    ensures
        claim_create_outcome(claim, validation_data) == (if has_assertion(
            validation_data.package.source_chain_entries->0@,
            claim.badge_class@,
            claim.issuer@,
        ) {
            Ok::<(), ValidationError>(())
        } else {
            Err(ValidationError::IssuerNotCredentialed)
        }),
{
    lemma_assertion_scan(validation_data.package.source_chain_entries->0@, claim.badge_class@, claim.issuer@);
}

} // verus!
