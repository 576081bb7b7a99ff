use vstd::prelude::*;

use crate::badge_class::BadgeClass;
use crate::entry::{Address, ChainEntry, Entity, EntryKind, ValidationPackage};
use crate::error::ValidationError;

verus! {

/// The chain entries of a package, or `MissingChainEntries` where it carries none.
pub open spec fn package_entries(package: ValidationPackage) -> Result<Seq<ChainEntry>, ValidationError> {
    match package.source_chain_entries {
        Some(v) => Ok(v@),
        None => Err(ValidationError::MissingChainEntries),
    }
}

/// The address held by the first agent identity entry of the chain.
pub open spec fn chain_agent(entries: Seq<ChainEntry>) -> Option<Seq<char>>
    decreases entries.len(),
{
    if entries.len() == 0 {
        None
    } else {
        match entries[0].entity {
            Entity::AgentId(a) => Some(a@),
            _ => chain_agent(entries.drop_first()),
        }
    }
}

/// Whether the entry is declared a badge class and stored at `address`.
pub open spec fn is_class_record(e: ChainEntry, address: Seq<char>) -> bool {
    &&& e.address@ == address
    &&& (e.entity is BadgeClass || e.entity == Entity::Malformed(EntryKind::BadgeClass))
}

/// The badge class at `address`, found by scanning the chain from its start:
/// the first entry declared a badge class at that address decides.
pub open spec fn class_in_chain(entries: Seq<ChainEntry>, address: Seq<char>) -> Result<BadgeClass, ValidationError>
    decreases entries.len(),
{
    if entries.len() == 0 {
        Err(ValidationError::BadgeClassNotInChain)
    } else if is_class_record(entries[0], address) {
        match entries[0].entity {
            Entity::BadgeClass(c) => Ok(c),
            _ => Err(ValidationError::MalformedEntry { kind: EntryKind::BadgeClass }),
        }
    } else {
        class_in_chain(entries.drop_first(), address)
    }
}

/// The chain entries that the package carries.
pub fn get_package_entries(package: &ValidationPackage) -> (r: Result<&Vec<ChainEntry>, ValidationError>)
    ensures
        match package_entries(*package) {
            Ok(s) => r matches Ok(v) && v@ == s,
            Err(e) => r == Err::<&Vec<ChainEntry>, ValidationError>(e),
        },
{
    match &package.source_chain_entries {
        Some(v) => Ok(v),
        None => Err(ValidationError::MissingChainEntries),
    }
}

/// The address of the agent who owns the chain, from its identity entry.
pub fn get_chain_agent_id(chain_entries: &Vec<ChainEntry>) -> (r: Result<Address, ValidationError>)
    ensures
        match chain_agent(chain_entries@) {
            Some(a) => r matches Ok(x) && x@ == a,
            None => r == Err::<Address, ValidationError>(ValidationError::MissingAgentIdentity),
        },
{
    let n = chain_entries.len();
    let mut i: usize = 0;
    assert(chain_entries@.skip(0) =~= chain_entries@);
    while i < n
        invariant
            n == chain_entries@.len(),
            0 <= i <= n,
            chain_agent(chain_entries@) == chain_agent(chain_entries@.skip(i as int)),
        decreases n - i,
    {
        assert(chain_entries@.skip(i as int).drop_first() =~= chain_entries@.skip(i + 1));
        if let Entity::AgentId(agent) = &chain_entries[i].entity {
            return Ok(agent.clone());
        }
        i = i + 1;
    }
    Err(ValidationError::MissingAgentIdentity)
}

/// The badge class stored at `badge_class` on the chain.
pub fn get_badge_class_from_chain(badge_class: &Address, entries: &Vec<ChainEntry>) -> (r: Result<BadgeClass, ValidationError>)
    ensures
        r == class_in_chain(entries@, badge_class@),
{
    let n = entries.len();
    let mut i: usize = 0;
    assert(entries@.skip(0) =~= entries@);
    while i < n
        invariant
            n == entries@.len(),
            0 <= i <= n,
            class_in_chain(entries@, badge_class@) == class_in_chain(entries@.skip(i as int), badge_class@),
        decreases n - i,
    {
        assert(entries@.skip(i as int).drop_first() =~= entries@.skip(i + 1));
        let entry = &entries[i];
        if entry.address == *badge_class {
            match &entry.entity {
                Entity::BadgeClass(class) => {
                    return Ok(class.clone());
                },
                Entity::Malformed(EntryKind::BadgeClass) => {
                    return Err(ValidationError::MalformedEntry { kind: EntryKind::BadgeClass });
                },
                _ => {},
            }
        }
        i = i + 1;
    }
    Err(ValidationError::BadgeClassNotInChain)
}

} // verus!
