use vstd::prelude::*;

use crate::badge::Badge;
use crate::badge_assertion::BadgeAssertion;
use crate::badge_claim::BadgeClaim;
use crate::entry::Address;
use crate::links::{is_link, Link, LinkType};

verus! {

/// The edges that record a new class at `class_address`: from the anchor of
/// all classes, and from its creator.
pub fn class_links(anchor: &Address, creator: &Address, class_address: &Address) -> (r: Vec<Link>)
    ensures
        r@.len() == 2,
        is_link(r@[0], anchor@, class_address@, LinkType::AnchorToBadgeClass, Seq::empty()),
        is_link(r@[1], creator@, class_address@, LinkType::CreatorToBadgeClass, Seq::empty()),
{
    let mut r: Vec<Link> = Vec::new();
    r.push(
        Link {
            base: anchor.clone(),
            target: class_address.clone(),
            link_type: LinkType::AnchorToBadgeClass,
            tag: String::new(),
        },
    );
    r.push(
        Link {
            base: creator.clone(),
            target: class_address.clone(),
            link_type: LinkType::CreatorToBadgeClass,
            tag: String::new(),
        },
    );
    r
}

/// The edges that record a claim at `claim_address`: from its issuer and
/// from its recipient, both tagged with the class address.
pub fn claim_links(claim: &BadgeClaim, claim_address: &Address) -> (r: Vec<Link>)
    ensures
        r@.len() == 2,
        is_link(r@[0], claim.issuer@, claim_address@, LinkType::IssuerToBadgeClaim, claim.badge_class@),
        is_link(r@[1], claim.recipient@, claim_address@, LinkType::RecipientToBadgeClaim, claim.badge_class@),
{
    let mut r: Vec<Link> = Vec::new();
    r.push(
        Link {
            base: claim.issuer.clone(),
            target: claim_address.clone(),
            link_type: LinkType::IssuerToBadgeClaim,
            tag: claim.badge_class.clone(),
        },
    );
    r.push(
        Link {
            base: claim.recipient.clone(),
            target: claim_address.clone(),
            link_type: LinkType::RecipientToBadgeClaim,
            tag: claim.badge_class.clone(),
        },
    );
    r
}

/// The edges that record an assertion at `assertion_address`: from its
/// recipient, tagged with the class address, and from its class.
pub fn assertion_links(assertion: &BadgeAssertion, assertion_address: &Address) -> (r: Vec<Link>)
    ensures
        r@.len() == 2,
        is_link(
            r@[0],
            assertion.recipient@,
            assertion_address@,
            LinkType::RecipientToBadgeAssertion,
            assertion.badge_class@,
        ),
        is_link(
            r@[1],
            assertion.badge_class@,
            assertion_address@,
            LinkType::BadgeClassToBadgeAssertion,
            Seq::empty(),
        ),
{
    let mut r: Vec<Link> = Vec::new();
    r.push(
        Link {
            base: assertion.recipient.clone(),
            target: assertion_address.clone(),
            link_type: LinkType::RecipientToBadgeAssertion,
            tag: assertion.badge_class.clone(),
        },
    );
    r.push(
        Link {
            base: assertion.badge_class.clone(),
            target: assertion_address.clone(),
            link_type: LinkType::BadgeClassToBadgeAssertion,
            tag: String::new(),
        },
    );
    r
}

/// The tag of the edge from a recipient to their badge: whether the badge
/// already makes its recipient a valid issuer.
pub open spec fn recipient_tag_spec(completed: bool) -> Seq<char> {
    if completed {
        "completed"@
    } else {
        "temptative"@
    }
}

pub fn recipient_tag(completed: bool) -> (r: &'static str)
    ensures
        r@ == recipient_tag_spec(completed),
{
    if completed {
        "completed"
    } else {
        "temptative"
    }
}

/// The edges that record an issuer's vouching on a badge first stored at
/// `badge_address` and now updated at `updated_address`: from the issuer,
/// tagged with the class; from the recipient, tagged by `completed`; and
/// from the class to the updated badge.
pub fn badge_links(
    issuer: &Address,
    badge: &Badge,
    badge_address: &Address,
    updated_address: &Address,
    completed: bool,
) -> (r: Vec<Link>)
    ensures
        r@.len() == 3,
        is_link(r@[0], issuer@, badge_address@, LinkType::IssuerToBadge, badge.badge_class@),
        is_link(
            r@[1],
            badge.recipient@,
            badge_address@,
            LinkType::RecipientToBadge,
            recipient_tag_spec(completed),
        ),
        is_link(r@[2], badge.badge_class@, updated_address@, LinkType::BadgeClassToBadge, Seq::empty()),
{
    let mut r: Vec<Link> = Vec::new();
    r.push(
        Link {
            base: issuer.clone(),
            target: badge_address.clone(),
            link_type: LinkType::IssuerToBadge,
            tag: badge.badge_class.clone(),
        },
    );
    r.push(
        Link {
            base: badge.recipient.clone(),
            target: badge_address.clone(),
            link_type: LinkType::RecipientToBadge,
            tag: recipient_tag(completed).to_owned(),
        },
    );
    r.push(
        Link {
            base: badge.badge_class.clone(),
            target: updated_address.clone(),
            link_type: LinkType::BadgeClassToBadge,
            tag: String::new(),
        },
    );
    r
}

} // verus!
