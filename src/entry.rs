use vstd::prelude::*;

use crate::badge::Badge;
use crate::badge_assertion::BadgeAssertion;
use crate::badge_claim::BadgeClaim;
use crate::badge_class::BadgeClass;
use crate::text::text_eq;

verus! {

/// A content address, or the address of an agent.
pub type Address = String;

/// Whether `list` holds an address whose text is `a`.
pub open spec fn lists_address(list: Seq<Address>, a: Seq<char>) -> bool {
    exists|j: int| 0 <= j < list.len() && #[trigger] list[j]@ == a
}

/// Whether `list` holds `a`.
pub fn contains_address(list: &Vec<Address>, a: &Address) -> (r: bool)
    ensures
        r == lists_address(list@, a@),
{
    let n = list.len();
    let mut i: usize = 0;
    while i < n
        invariant
            n == list@.len(),
            0 <= i <= n,
            forall|j: int| 0 <= j < i ==> list@[j]@ != a@,
        decreases n - i,
    {
        if list[i] == *a {
            return true;
        }
        i = i + 1;
    }
    false
}

/// The kinds of application entry that this library defines.
#[derive(Clone, Copy, Debug, PartialEq, Eq, Structural)]
pub enum EntryKind {
    Anchor,
    BadgeClass,
    BadgeClaim,
    BadgeAssertion,
    Badge,
}

impl EntryKind {
    /// The type name under which entries of this kind are stored.
    pub open spec fn kind_name_spec(self) -> Seq<char> {
        match self {
            EntryKind::Anchor => "anchor"@,
            EntryKind::BadgeClass => "badge_class"@,
            EntryKind::BadgeClaim => "badge_claim"@,
            EntryKind::BadgeAssertion => "badge_assertion"@,
            EntryKind::Badge => "badge"@,
        }
    }

    pub fn kind_name(&self) -> (r: &'static str)
        ensures
            r@ == self.kind_name_spec(),
    {
        match self {
            EntryKind::Anchor => "anchor",
            EntryKind::BadgeClass => "badge_class",
            EntryKind::BadgeClaim => "badge_claim",
            EntryKind::BadgeAssertion => "badge_assertion",
            EntryKind::Badge => "badge",
        }
    }

    /// The kind whose type name is `name`, if any: the closed set of kinds
    /// replaces matching on free-form type names.
    pub fn from_kind_name(name: &str) -> (r: Option<EntryKind>)
        ensures
            r matches Some(k) ==> k.kind_name_spec() == name@,
            r is None ==> forall|k: EntryKind| k.kind_name_spec() != name@,
    {
        if text_eq(name, "anchor") {
            Some(EntryKind::Anchor)
        } else if text_eq(name, "badge_class") {
            Some(EntryKind::BadgeClass)
        } else if text_eq(name, "badge_claim") {
            Some(EntryKind::BadgeClaim)
        } else if text_eq(name, "badge_assertion") {
            Some(EntryKind::BadgeAssertion)
        } else if text_eq(name, "badge") {
            Some(EntryKind::Badge)
        } else {
            proof {
                assert forall|k: EntryKind| k.kind_name_spec() != name@ by {
                    match k {
                        EntryKind::Anchor => {},
                        EntryKind::BadgeClass => {},
                        EntryKind::BadgeClaim => {},
                        EntryKind::BadgeAssertion => {},
                        EntryKind::Badge => {},
                    }
                }
            }
            None
        }
    }
}

/// What a chain entry holds, decoded by its declared kind.
#[derive(Debug)]
pub enum Entity {
    /// The identity entry of the chain's owner, holding the agent's address.
    AgentId(Address),
    Anchor(String),
    BadgeClass(BadgeClass),
    BadgeClaim(BadgeClaim),
    BadgeAssertion(BadgeAssertion),
    Badge(Badge),
    /// An entry declared as this kind whose content does not decode as it.
    Malformed(EntryKind),
    /// Any other entry: system entries and application kinds of other modules.
    Other,
}

/// An entry of a chain with its content address.
#[derive(Debug)]
pub struct ChainEntry {
    pub address: Address,
    pub entity: Entity,
}

/// The slice of a chain's history handed to a validator.
#[derive(Debug)]
pub struct ValidationPackage {
    pub source_chain_entries: Option<Vec<ChainEntry>>,
}

/// The package of the writing chain and the agents who signed this write.
#[derive(Debug)]
pub struct ValidationData {
    pub package: ValidationPackage,
    pub sources: Vec<Address>,
}

/// A request to validate an operation on an entry of type `T`.
#[derive(Debug)]
pub enum EntryValidation<T> {
    Create { entry: T, validation_data: ValidationData },
    Modify { new_entry: T, old_entry: T, validation_data: ValidationData },
    Delete { old_entry: T, validation_data: ValidationData },
}

} // verus!
