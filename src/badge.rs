use vstd::prelude::*;

use crate::badge_class::BadgeClass;
use crate::entry::{contains_address, lists_address, Address, EntryValidation};
use crate::error::ValidationError;

verus! {

/// The mutable badge of the earlier design: one shared record per recipient
/// and class, to which each issuer appends themselves.
#[derive(Debug)]
pub struct Badge {
    pub recipient: Address,
    pub badge_class: Address,
    pub issuers: Vec<Address>,
    pub evidences: Vec<Address>,
}

impl Clone for Badge {
    fn clone(&self) -> (r: Self)
        ensures
            r.recipient == self.recipient,
            r.badge_class == self.badge_class,
            r.issuers@ == self.issuers@,
            r.evidences@ == self.evidences@,
    {
        let issuers = self.issuers.clone();
        let evidences = self.evidences.clone();
        assert(issuers@ =~= self.issuers@);
        assert(evidences@ =~= self.evidences@);
        Badge { recipient: self.recipient.clone(), badge_class: self.badge_class.clone(), issuers, evidences }
    }
}

impl Badge {
    /// The badge of `recipient` in `badge_class` before any issuer: its
    /// content, and so its address, depends on the two addresses alone.
    pub fn initial(recipient: &Address, badge_class: &Address) -> (r: Badge)
        ensures
            r.recipient == *recipient,
            r.badge_class == *badge_class,
            r.issuers@.len() == 0,
            r.evidences@.len() == 0,
    {
        Badge {
            recipient: recipient.clone(),
            badge_class: badge_class.clone(),
            issuers: Vec::new(),
            evidences: Vec::new(),
        }
    }

    /// Adds `issuer` to the issuers and `evidences` to the evidences, as an
    /// issuer does when vouching for the recipient.
    pub fn add_issuer(&mut self, issuer: Address, evidences: &Vec<Address>)
        ensures
            final(self).recipient == old(self).recipient,
            final(self).badge_class == old(self).badge_class,
            final(self).issuers@ == old(self).issuers@.push(issuer),
            final(self).evidences@ == old(self).evidences@ + evidences@,
    {
        self.issuers.push(issuer);
        let mut more = evidences.clone();
        assert(more@ =~= evidences@);
        self.evidences.append(&mut more);
    }
}

/// The texts of the entries of `new` that `old` does not list, in order.
pub open spec fn fresh_issuers(new: Seq<Address>, old: Seq<Address>) -> Seq<Seq<char>>
    decreases new.len(),
{
    if new.len() == 0 {
        Seq::empty()
    } else {
        let rest = fresh_issuers(new.drop_last(), old);
        if lists_address(old, new.last()@) {
            rest
        } else {
            rest.push(new.last()@)
        }
    }
}

/// The one issuer that an update adds: the new list must be one longer than
/// the old, and exactly one of its entries must be missing from the old.
pub open spec fn new_issuer_outcome(new: Seq<Address>, old: Seq<Address>) -> Result<Seq<char>, ValidationError> {
    if new.len() != old.len() + 1 {
        Err(ValidationError::IssuerCountMismatch)
    } else if fresh_issuers(new, old).len() == 0 {
        Err(ValidationError::NoNewIssuer)
    } else if fresh_issuers(new, old).len() == 1 {
        Ok(fresh_issuers(new, old)[0])
    } else {
        Err(ValidationError::MultipleNewIssuers)
    }
}

/// The fresh issuers of a prefix of `new` begin the fresh issuers of `new`.
proof fn lemma_fresh_prefix(new: Seq<Address>, old: Seq<Address>, k: int)
    requires
        0 <= k <= new.len(),
    ensures
        fresh_issuers(new.take(k), old).len() <= fresh_issuers(new, old).len(),
        forall|j: int|
            0 <= j < fresh_issuers(new.take(k), old).len() ==> fresh_issuers(new, old)[j]
                == #[trigger] fresh_issuers(new.take(k), old)[j],
    decreases new.len(),
{
    if k == new.len() {
        assert(new.take(k) =~= new);
    } else {
        lemma_fresh_prefix(new.drop_last(), old, k);
        assert(new.drop_last().take(k) =~= new.take(k));
    }
}

/// The issuer that `new_issuers` adds to `old_issuers`.
pub fn get_new_issuer(new_issuers: &Vec<Address>, old_issuers: &Vec<Address>) -> (r: Result<Address, ValidationError>)
    ensures
        match new_issuer_outcome(new_issuers@, old_issuers@) {
            Ok(a) => r matches Ok(x) && x@ == a,
            Err(e) => r == Err::<Address, ValidationError>(e),
        },
{
    if new_issuers.len() == 0 || new_issuers.len() - 1 != old_issuers.len() {
        return Err(ValidationError::IssuerCountMismatch);
    }
    let n = new_issuers.len();
    let mut new_issuer: Option<Address> = None;
    let mut i: usize = 0;
    while i < n
        invariant
            n == new_issuers@.len(),
            n == old_issuers@.len() + 1,
            0 <= i <= n,
            fresh_issuers(new_issuers@.take(i as int), old_issuers@).len() <= 1,
            new_issuer is None <==> fresh_issuers(new_issuers@.take(i as int), old_issuers@).len() == 0,
            new_issuer matches Some(a) ==> a@ == fresh_issuers(new_issuers@.take(i as int), old_issuers@)[0],
        decreases n - i,
    {
        let ghost prefix = new_issuers@.take(i + 1);
        assert(prefix.drop_last() =~= new_issuers@.take(i as int));
        assert(prefix.last() == new_issuers@[i as int]);
        let issuer = &new_issuers[i];
        if !contains_address(old_issuers, issuer) {
            if new_issuer.is_some() {
                proof {
                    assert(fresh_issuers(prefix, old_issuers@) == fresh_issuers(
                        new_issuers@.take(i as int),
                        old_issuers@,
                    ).push(issuer@));
                    lemma_fresh_prefix(new_issuers@, old_issuers@, i + 1);
                }
                return Err(ValidationError::MultipleNewIssuers);
            }
            new_issuer = Some(issuer.clone());
        }
        i = i + 1;
    }
    assert(new_issuers@.take(n as int) =~= new_issuers@);
    match new_issuer {
        None => Err(ValidationError::NoNewIssuer),
        Some(issuer) => Ok(issuer),
    }
}

/// What a badge operation still needs once its own content has passed.
#[derive(Debug)]
pub enum BadgeVerdict {
    /// Nothing: the operation is valid.
    Accepted,
    /// The author must be a valid issuer in the class (`assert_issuer_valid`),
    /// which needs the class and the author's own badge from the store.
    IssuerMustBeValid { badge_class: Address, issuer: Address },
}

/// The verdict on creating a badge: it starts with no issuers and no evidences.
pub open spec fn badge_create_outcome(badge: Badge) -> Result<(), ValidationError> {
    if badge.issuers@.len() > 0 {
        Err(ValidationError::IssuersOnCreate)
    } else if badge.evidences@.len() > 0 {
        Err(ValidationError::EvidencesOnCreate)
    } else {
        Ok(())
    }
}

/// The verdict on the content of an update of `old` to `new` by `author`,
/// and, where it passes, the author whose standing is still to be checked.
pub open spec fn badge_update_outcome(new: Badge, old: Badge, author: Seq<char>) -> Result<Seq<char>, ValidationError> {
    if lists_address(new.issuers@, new.recipient@) {
        Err(ValidationError::RecipientAmongIssuers)
    } else if new.recipient@ != old.recipient@ {
        Err(ValidationError::RecipientChanged)
    } else if new.badge_class@ != old.badge_class@ {
        Err(ValidationError::BadgeClassChanged)
    } else {
        match new_issuer_outcome(new.issuers@, old.issuers@) {
            Err(e) => Err(e),
            Ok(a) => {
                if a != author {
                    Err(ValidationError::IssuerNotAuthor)
                } else {
                    Ok(author)
                }
            },
        }
    }
}

/// Checks the content of an update of `old_entry` to `new_entry` written by
/// `author`: the recipient and class stay, the recipient never vouches for
/// themselves, and the one issuer added is the author.
pub fn check_badge_update(new_entry: &Badge, old_entry: &Badge, author: &Address) -> (r: Result<(), ValidationError>)
    ensures
        match badge_update_outcome(*new_entry, *old_entry, author@) {
            Ok(_) => r is Ok,
            Err(e) => r == Err::<(), ValidationError>(e),
        },
{
    if contains_address(&new_entry.issuers, &new_entry.recipient) {
        return Err(ValidationError::RecipientAmongIssuers);
    }
    if new_entry.recipient != old_entry.recipient {
        return Err(ValidationError::RecipientChanged);
    }
    if new_entry.badge_class != old_entry.badge_class {
        return Err(ValidationError::BadgeClassChanged);
    }
    let issuer = get_new_issuer(&new_entry.issuers, &old_entry.issuers)?;
    if issuer != *author {
        return Err(ValidationError::IssuerNotAuthor);
    }
    Ok(())
}

/// Whether an operation on a badge carries the author that its update needs.
pub open spec fn badge_op_well_formed(op: EntryValidation<Badge>) -> bool {
    op matches EntryValidation::Modify { validation_data, .. } ==> validation_data.sources@.len() > 0
}

/// The verdict on an operation on a badge: creation and update are judged
/// on their content; an update names its first signer as author.
pub open spec fn badge_outcome(op: EntryValidation<Badge>) -> Result<BadgeVerdict, ValidationError> {
    match op {
        EntryValidation::Create { entry, .. } => match badge_create_outcome(entry) {
            Ok(_) => Ok(BadgeVerdict::Accepted),
            Err(e) => Err(e),
        },
        EntryValidation::Modify { new_entry, old_entry, validation_data } => {
            match badge_update_outcome(new_entry, old_entry, validation_data.sources@[0]@) {
                Ok(_) => Ok(
                    BadgeVerdict::IssuerMustBeValid {
                        badge_class: new_entry.badge_class,
                        issuer: validation_data.sources@[0],
                    },
                ),
                Err(e) => Err(e),
            }
        },
        EntryValidation::Delete { .. } => Err(ValidationError::ImmutableEntryViolation),
    }
}

/// Validates an operation on a badge, up to the issuer's standing, which an
/// accepted update leaves to `assert_issuer_valid`.
pub fn validate_badge(op: &EntryValidation<Badge>) -> (r: Result<BadgeVerdict, ValidationError>)
    requires
        badge_op_well_formed(*op),
    ensures
        r == badge_outcome(*op),
{
    match op {
        EntryValidation::Create { entry, .. } => {
            if entry.issuers.len() > 0 {
                return Err(ValidationError::IssuersOnCreate);
            }
            if entry.evidences.len() > 0 {
                return Err(ValidationError::EvidencesOnCreate);
            }
            Ok(BadgeVerdict::Accepted)
        },
        EntryValidation::Modify { new_entry, old_entry, validation_data } => {
            let author = &validation_data.sources[0];
            check_badge_update(new_entry, old_entry, author)?;
            Ok(
                BadgeVerdict::IssuerMustBeValid {
                    badge_class: new_entry.badge_class.clone(),
                    issuer: author.clone(),
                },
            )
        },
        EntryValidation::Delete { .. } => Err(ValidationError::ImmutableEntryViolation),
    }
}

/// The standing of `issuer` in `badge_class`, given their own latest badge
/// in it (`None` where the store holds none): the creator of the class is
/// always valid; anyone else needs a badge that lists at least as many
/// issuers as the class requires.
pub open spec fn issuer_standing(badge_class: BadgeClass, issuer: Seq<char>, issuer_badge: Option<Badge>) -> Result<(), ValidationError> {
    if badge_class.creator_address@ == issuer {
        Ok(())
    } else {
        match issuer_badge {
            None => Err(ValidationError::ReferenceNotFound),
            Some(b) => {
                if b.issuers@.len() >= badge_class.validators {
                    Ok(())
                } else {
                    Err(ValidationError::IssuerNotValid)
                }
            },
        }
    }
}

/// Succeeds where `issuer` is a valid issuer of `badge_class`.
pub fn assert_issuer_valid(badge_class: &BadgeClass, issuer: &Address, issuer_badge: &Option<Badge>) -> (r: Result<(), ValidationError>)
    ensures
        r == issuer_standing(*badge_class, issuer@, *issuer_badge),
{
    if badge_class.creator_address == *issuer {
        return Ok(());
    }
    match issuer_badge {
        None => Err(ValidationError::ReferenceNotFound),
        Some(b) => {
            if b.issuers.len() >= badge_class.validators {
                Ok(())
            } else {
                Err(ValidationError::IssuerNotValid)
            }
        },
    }
}

} // verus!
