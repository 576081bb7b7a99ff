use vstd::prelude::*;

use crate::entry::EntryKind;

verus! {

/// Why a validator rejected an entry or a link. Every rejection is terminal.
#[derive(Clone, Copy, Debug, PartialEq, Eq, Structural)]
pub enum ValidationError {
    /// A claim names the same agent as issuer and recipient.
    SelfClaim,
    /// The validation package carries no chain entries.
    MissingChainEntries,
    /// The chain holds no agent identity entry.
    MissingAgentIdentity,
    /// A claim on the recipient's chain lacks the recipient's or the issuer's signature.
    MissingCountersignature,
    /// An issuer vouched in a class whose credential they do not hold on their chain.
    IssuerNotCredentialed,
    /// A claim was written to a chain that belongs to neither issuer nor recipient.
    UnauthorizedWriter,
    /// The badge class that an assertion refers to is not on the asserting chain.
    BadgeClassNotInChain,
    /// Fewer matching claims than the class requires.
    InsufficientClaims { required: usize, actual: usize },
    /// An update or a delete of an entry that can only be created.
    ImmutableEntryViolation,
    /// A link removal: links can only be added.
    LinkDeletionForbidden,
    /// A referenced entry could not be found.
    ReferenceNotFound,
    /// An entry of the given kind whose content could not be decoded, or a
    /// referenced entry that is not of the expected kind.
    MalformedEntry { kind: EntryKind },
    /// A badge class was created without its creator's signature, under a
    /// policy that requires it.
    MissingCreatorSignature,
    /// A new badge that already lists issuers.
    IssuersOnCreate,
    /// A new badge that already lists evidences.
    EvidencesOnCreate,
    /// A badge update that lists the recipient among the issuers.
    RecipientAmongIssuers,
    /// A badge update that changes the recipient.
    RecipientChanged,
    /// A badge update that changes the badge class.
    BadgeClassChanged,
    /// A badge update that does not add exactly one entry to the issuers.
    IssuerCountMismatch,
    /// A badge update that adds more than one new issuer.
    MultipleNewIssuers,
    /// A badge update whose issuers hold no new agent.
    NoNewIssuer,
    /// A badge update whose new issuer is not the author of the update.
    IssuerNotAuthor,
    /// An issuer that is neither the class creator nor vouched for by enough issuers.
    IssuerNotValid,
    /// A link whose base is not the agent or class that its target names.
    LinkBaseMismatch,
}

} // verus!
