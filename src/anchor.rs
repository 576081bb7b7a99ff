use vstd::prelude::*;

use crate::entry::EntryValidation;
use crate::error::ValidationError;

verus! {

/// The fixed content of the anchor entry under which all badge classes are
/// linked. Its address is a function of this content alone.
pub open spec fn anchor_content_spec() -> Seq<char> {
    "all_badges_classes"@
}

/// The content of the anchor entry.
pub fn anchor_content() -> (r: String)
    ensures
        r@ == anchor_content_spec(),
{
    "all_badges_classes".to_owned()
}

/// A content-addressed store after `content` was put at `address`: an
/// address that is taken already keeps what it holds.
pub open spec fn store_put(store: Map<Seq<char>, Seq<char>>, address: Seq<char>, content: Seq<char>) -> Map<Seq<char>, Seq<char>> {
    if store.contains_key(address) {
        store
    } else {
        store.insert(address, content)
    }
}

/// Creating the anchor twice leaves the store as creating it once, with one
/// entry at the anchor's address, whatever function of the content gives
/// addresses.
pub proof fn lemma_anchor_idempotent(store: Map<Seq<char>, Seq<char>>, address_of: spec_fn(Seq<char>) -> Seq<char>)
    ensures
        ({
            let a = address_of(anchor_content_spec());
            let once = store_put(store, a, anchor_content_spec());
            &&& store_put(once, a, anchor_content_spec()) == once
            &&& once.dom() == store.dom().insert(a)
            &&& once.contains_key(a)
        }),
{
    let a = address_of(anchor_content_spec());
    let once = store_put(store, a, anchor_content_spec());
    assert(once.dom() =~= store.dom().insert(a));
}

/// The verdict on an operation on the anchor: only creation passes.
pub open spec fn anchor_outcome(op: EntryValidation<String>) -> Result<(), ValidationError> {
    if op is Create {
        Ok(())
    } else {
        Err(ValidationError::ImmutableEntryViolation)
    }
}

/// Validates an operation on the anchor entry.
pub fn validate_anchor(op: &EntryValidation<String>) -> (r: Result<(), ValidationError>)
    ensures
        r == anchor_outcome(*op),
{
    match op {
        EntryValidation::Create { .. } => Ok(()),
        _ => Err(ValidationError::ImmutableEntryViolation),
    }
}

} // verus!
