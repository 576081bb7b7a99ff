//! Validation and issuance rules for peer-issued badges.
//!
//! Every participant owns an append-only chain of entries. A badge class is
//! created once, issuers vouch for recipients with claims, and a recipient
//! asserts a credential on their own chain once the claims there satisfy the
//! class's quorum. The validators are pure functions of the entry under
//! validation and the chain that is about to hold it, so any peer reaches the
//! same verdict.

mod text;

pub mod entry;
pub mod error;
pub mod badge_class;
pub mod badge_claim;
pub mod badge_assertion;
pub mod badge;
pub mod utils;
pub mod anchor;
pub mod links;
pub mod workflow;
