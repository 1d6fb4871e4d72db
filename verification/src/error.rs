//! Why a header or an entry is refused.

use vstd::prelude::*;
use crate::hash::AnyDhtHash;
use crate::header::AppEntryType;
use crate::header::EntryType;
use crate::header::HeaderType;

verus! {

/// What is wrong between a header and the one before it.
#[derive(Clone, Copy, Debug, PartialEq, Eq, Structural)]
pub enum PrevHeaderError {
    /// A header other than `Dna` stands at the root of the chain.
    InvalidRoot,
    /// The sequence numbers, of the header and of the one before it, are
    /// not consecutive.
    InvalidSeq(u32, u32),
    /// The header names no previous header.
    MissingPrev,
    /// The header is not later than the one before it.
    Timestamp,
}

/// A rule that a header or entry has broken, or a dependency that is not
/// held yet.
#[derive(Clone, Copy, Debug, PartialEq, Eq)]
pub enum ValidationOutcome {
    /// The zome has no entry definition at the declared index.
    EntryDefId(AppEntryType),
    /// The entry's hash is not the one that the header declares.
    EntryHash,
    /// The entry's size and the limit that it reaches.
    EntryTooLarge(usize, usize),
    /// The entry is not of the kind that the header declares.
    EntryType,
    /// The declared visibility is not that of the entry definition.
    EntryVisibility(AppEntryType),
    /// The tag's size and the limit that it reaches.
    TagTooLarge(usize, usize),
    /// The header, of the kind given, brings no entry.
    NotNewEntry(HeaderType),
    /// The dependency is held neither here nor by any peer asked.
    NotHoldingDep(AnyDhtHash),
    PrevHeaderError(PrevHeaderError),
    /// The entry is private and may not be stored in public.
    PrivateEntry,
    /// An update declares another entry type than the header it updates.
    UpdateTypeMismatch(EntryType, EntryType),
    /// The DNA has no zome at the declared index.
    ZomeId(AppEntryType),
}

/// A failure of a service that validation relies on.
#[derive(Clone, Copy, Debug, PartialEq, Eq, Structural)]
pub enum InfrastructureError {
    Cascade,
    Database,
    Keystore,
    Workflow,
}

/// Why a validation attempt ended without success.
#[derive(Clone, Copy, Debug, PartialEq, Eq)]
pub enum SysValidationError {
    ValidationOutcome(ValidationOutcome),
    Infrastructure(InfrastructureError),
}

pub type SysValidationResult<T> = Result<T, SysValidationError>;

/// The failure of a rule as a validation result.
pub open spec fn rejected<T>(outcome: ValidationOutcome) -> SysValidationResult<T> {
    Err(SysValidationError::ValidationOutcome(outcome))
}

/// The failure of a previous-header rule as a validation result.
pub open spec fn rejected_prev<T>(error: PrevHeaderError) -> SysValidationResult<T> {
    rejected(ValidationOutcome::PrevHeaderError(error))
}

impl ValidationOutcome {
    /// Whether the outcome may change when the attempt is made again: only
    /// a dependency that is not held yet.
    pub open spec fn spec_is_retryable(&self) -> bool {
        *self is NotHoldingDep
    }

    #[verifier::when_used_as_spec(spec_is_retryable)]
    pub fn is_retryable(&self) -> (retryable: bool)
        ensures
            retryable == self.spec_is_retryable(),
    {
        match self {
            ValidationOutcome::NotHoldingDep(_) => true,
            _ => false,
        }
    }
}

} // verus!
