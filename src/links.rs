use vstd::prelude::*;

use crate::entry::{Address, Entity, EntryKind};
use crate::error::ValidationError;

verus! {

/// The typed, directed edges of the link graph.
#[derive(Clone, Copy, Debug, PartialEq, Eq, Structural)]
pub enum LinkType {
    AnchorToBadgeClass,
    CreatorToBadgeClass,
    BadgeClassToBadgeClaim,
    BadgeClassToBadgeAssertion,
    IssuerToBadgeClaim,
    RecipientToBadgeClaim,
    RecipientToBadgeAssertion,
    IssuerToBadge,
    RecipientToBadge,
    BadgeClassToBadge,
}

impl LinkType {
    /// The name under which links of this type are stored.
    pub open spec fn name_spec(self) -> Seq<char> {
        match self {
            LinkType::AnchorToBadgeClass => "anchor->badge_class"@,
            LinkType::CreatorToBadgeClass => "creator->badge_class"@,
            LinkType::BadgeClassToBadgeClaim => "badge_class->badge_claim"@,
            LinkType::BadgeClassToBadgeAssertion => "badge_class->badge_assertion"@,
            LinkType::IssuerToBadgeClaim => "issuer->badge_claim"@,
            LinkType::RecipientToBadgeClaim => "recipient->badge_claim"@,
            LinkType::RecipientToBadgeAssertion => "recipient->badge_assertion"@,
            LinkType::IssuerToBadge => "issuer->badge"@,
            LinkType::RecipientToBadge => "recipient->badge"@,
            LinkType::BadgeClassToBadge => "badge_class->badge"@,
        }
    }

    pub fn name(&self) -> (r: &'static str)
        ensures
            r@ == self.name_spec(),
    {
        match self {
            LinkType::AnchorToBadgeClass => "anchor->badge_class",
            LinkType::CreatorToBadgeClass => "creator->badge_class",
            LinkType::BadgeClassToBadgeClaim => "badge_class->badge_claim",
            LinkType::BadgeClassToBadgeAssertion => "badge_class->badge_assertion",
            LinkType::IssuerToBadgeClaim => "issuer->badge_claim",
            LinkType::RecipientToBadgeClaim => "recipient->badge_claim",
            LinkType::RecipientToBadgeAssertion => "recipient->badge_assertion",
            LinkType::IssuerToBadge => "issuer->badge",
            LinkType::RecipientToBadge => "recipient->badge",
            LinkType::BadgeClassToBadge => "badge_class->badge",
        }
    }

    /// Whether adding a link of this type depends on the target entry.
    pub open spec fn reads_target_spec(self) -> bool {
        match self {
            LinkType::CreatorToBadgeClass | LinkType::RecipientToBadge | LinkType::BadgeClassToBadge => true,
            _ => false,
        }
    }

    /// Whether a validator must fetch the target entry of a new link of this
    /// type; the other types are accepted on structure alone.
    pub fn reads_target(&self) -> (r: bool)
        ensures
            r == self.reads_target_spec(),
    {
        match self {
            LinkType::CreatorToBadgeClass | LinkType::RecipientToBadge | LinkType::BadgeClassToBadge => true,
            _ => false,
        }
    }
}

/// An edge from `base` to `target`, qualified by a tag.
#[derive(Debug)]
pub struct Link {
    pub base: Address,
    pub target: Address,
    pub link_type: LinkType,
    pub tag: String,
}

/// A request to validate a change of the link graph.
#[derive(Debug)]
pub enum LinkValidation {
    LinkAdd { link: Link },
    LinkRemove { link: Link },
}

/// Whether `l` is the edge `base -> target` of type `t` with tag `tag`.
pub open spec fn is_link(l: Link, base: Seq<char>, target: Seq<char>, t: LinkType, tag: Seq<char>) -> bool {
    &&& l.base@ == base
    &&& l.target@ == target
    &&& l.link_type == t
    &&& l.tag@ == tag
}

/// The verdict on adding `link`, given the entry found at its target (`None`
/// where the lookup found nothing). Edges from a creator to a class, from a
/// recipient to a badge and from a class to a badge must start at the agent
/// or class that the target names; all other edges are structural.
pub open spec fn link_add_outcome(link: Link, target: Option<Entity>) -> Result<(), ValidationError> {
    match link.link_type {
        LinkType::CreatorToBadgeClass => match target {
            None => Err(ValidationError::ReferenceNotFound),
            Some(Entity::BadgeClass(c)) => {
                if c.creator_address@ == link.base@ {
                    Ok(())
                } else {
                    Err(ValidationError::LinkBaseMismatch)
                }
            },
            Some(_) => Err(ValidationError::MalformedEntry { kind: EntryKind::BadgeClass }),
        },
        LinkType::RecipientToBadge => match target {
            None => Err(ValidationError::ReferenceNotFound),
            Some(Entity::Badge(b)) => {
                if b.recipient@ == link.base@ {
                    Ok(())
                } else {
                    Err(ValidationError::LinkBaseMismatch)
                }
            },
            Some(_) => Err(ValidationError::MalformedEntry { kind: EntryKind::Badge }),
        },
        LinkType::BadgeClassToBadge => match target {
            None => Err(ValidationError::ReferenceNotFound),
            Some(Entity::Badge(b)) => {
                if b.badge_class@ == link.base@ {
                    Ok(())
                } else {
                    Err(ValidationError::LinkBaseMismatch)
                }
            },
            Some(_) => Err(ValidationError::MalformedEntry { kind: EntryKind::Badge }),
        },
        _ => Ok(()),
    }
}

/// The verdict on a change of the link graph: links are only ever added.
pub open spec fn link_outcome(op: LinkValidation, target: Option<Entity>) -> Result<(), ValidationError> {
    match op {
        LinkValidation::LinkAdd { link } => link_add_outcome(link, target),
        LinkValidation::LinkRemove { .. } => Err(ValidationError::LinkDeletionForbidden),
    }
}

/// Validates a change of the link graph. `target` is the entry at the link's
/// target, which only the types whose `reads_target` holds consult.
pub fn validate_link(op: &LinkValidation, target: &Option<Entity>) -> (r: Result<(), ValidationError>)
    ensures
        r == link_outcome(*op, *target),
{
    match op {
        LinkValidation::LinkRemove { .. } => Err(ValidationError::LinkDeletionForbidden),
        LinkValidation::LinkAdd { link } => match link.link_type {
            LinkType::CreatorToBadgeClass => match target {
                None => Err(ValidationError::ReferenceNotFound),
                Some(Entity::BadgeClass(c)) => {
                    if c.creator_address == link.base {
                        Ok(())
                    } else {
                        Err(ValidationError::LinkBaseMismatch)
                    }
                },
                Some(_) => Err(ValidationError::MalformedEntry { kind: EntryKind::BadgeClass }),
            },
            LinkType::RecipientToBadge => match target {
                None => Err(ValidationError::ReferenceNotFound),
                Some(Entity::Badge(b)) => {
                    if b.recipient == link.base {
                        Ok(())
                    } else {
                        Err(ValidationError::LinkBaseMismatch)
                    }
                },
                Some(_) => Err(ValidationError::MalformedEntry { kind: EntryKind::Badge }),
            },
            LinkType::BadgeClassToBadge => match target {
                None => Err(ValidationError::ReferenceNotFound),
                Some(Entity::Badge(b)) => {
                    if b.badge_class == link.base {
                        Ok(())
                    } else {
                        Err(ValidationError::LinkBaseMismatch)
                    }
                },
                Some(_) => Err(ValidationError::MalformedEntry { kind: EntryKind::Badge }),
            },
            _ => Ok(()),
        },
    }
}

/// No link of any type can be removed, whatever its target holds.
pub proof fn lemma_links_are_permanent(link: Link, target: Option<Entity>)
    ensures
        link_outcome(LinkValidation::LinkRemove { link }, target) == Err::<(), ValidationError>(
            ValidationError::LinkDeletionForbidden,
        ),
{
}

/// A link whose type does not read its target is accepted, whatever the
/// target holds.
pub proof fn lemma_structural_links_accepted(link: Link, target: Option<Entity>)
    requires
        !link.link_type.reads_target_spec(),
    ensures
        link_outcome(LinkValidation::LinkAdd { link }, target) == Ok::<(), ValidationError>(()),
{
}

} // verus!
