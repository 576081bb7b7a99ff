use vstd::prelude::*;

use crate::entry::{lists_address, Address, EntryValidation};
use crate::error::ValidationError;

verus! {

/// A kind of credential. Immutable once created; its creator is the trust
/// root of the class.
#[derive(Debug)]
pub struct BadgeClass {
    pub name: String,
    pub description: String,
    pub creator_address: Address,
    pub image: String,
    pub validators: usize,
}

impl Clone for BadgeClass {
    fn clone(&self) -> (r: Self)
        ensures
            r == *self,
    {
        BadgeClass {
            name: self.name.clone(),
            description: self.description.clone(),
            creator_address: self.creator_address.clone(),
            image: self.image.clone(),
            validators: self.validators,
        }
    }
}

/// Whether creating a badge class needs its creator among the signers.
#[derive(Clone, Copy, Debug, PartialEq, Eq, Structural)]
pub enum ClassCreationPolicy {
    /// Any chain may create a class.
    Open,
    /// The creator named in the class must sign its creation.
    CreatorMustSign,
}

/// The verdict on an operation on a badge class under `policy`.
pub open spec fn class_outcome(op: EntryValidation<BadgeClass>, policy: ClassCreationPolicy) -> Result<(), ValidationError> {
    match op {
        EntryValidation::Create { entry, validation_data } => {
            if policy == ClassCreationPolicy::Open || lists_address(
                validation_data.sources@,
                entry.creator_address@,
            ) {
                Ok(())
            } else {
                Err(ValidationError::MissingCreatorSignature)
            }
        },
        _ => Err(ValidationError::ImmutableEntryViolation),
    }
}

impl BadgeClass {
    /// A class created by `creator_address`, which asks for `validators`
    /// matching claims before anyone else may assert it.
    pub fn new(name: String, description: String, image: String, creator_address: Address, validators: usize) -> (r: BadgeClass)
        ensures
            r == (BadgeClass { name, description, creator_address, image, validators }),
    {
        BadgeClass { name, description, creator_address, image, validators }
    }
}

/// Validates an operation on a badge class: creation passes (subject to
/// `policy`), update and delete never do.
pub fn validate_badge_class(op: &EntryValidation<BadgeClass>, policy: ClassCreationPolicy) -> (r: Result<(), ValidationError>)
    ensures
        r == class_outcome(*op, policy),
{
    match op {
        EntryValidation::Create { entry, validation_data } => {
            match policy {
                ClassCreationPolicy::Open => Ok(()),
                ClassCreationPolicy::CreatorMustSign => {
                    if crate::entry::contains_address(&validation_data.sources, &entry.creator_address) {
                        Ok(())
                    } else {
                        Err(ValidationError::MissingCreatorSignature)
                    }
                },
            }
        },
        _ => Err(ValidationError::ImmutableEntryViolation),
    }
}

} // verus!
