//! What holds of the rules and derivations, whatever they are applied to.

use vstd::prelude::*;
use crate::cascade::next_state;
use crate::cascade::ValidationEvent;
use crate::cascade::ValidationState;
use crate::dht_op::identified;
use crate::dht_op::store_element_op;
use crate::element::Element;
use crate::entry::entry_hash_of;
use crate::entry::entry_matches_type;
use crate::entry::Entry;
use crate::entry::EntryDef;
use crate::error::rejected;
use crate::error::rejected_prev;
use crate::error::PrevHeaderError;
use crate::error::SysValidationError;
use crate::error::ValidationOutcome;
use crate::hash::EntryHash;
use crate::header::EntryType;
use crate::header::Header;
use crate::rules::entry_hash_rule;
use crate::rules::entry_size_rule;
use crate::rules::entry_type_rule;
use crate::rules::not_private_rule;
use crate::rules::prev_header_rule;
use crate::rules::prev_seq_rule;
use crate::rules::prev_timestamp_rule;
use crate::rules::MAX_ENTRY_SIZE;

verus! {

/// At the root of a chain only `Dna` is accepted: every other header with
/// sequence number 0 is refused as an invalid root.
pub proof fn root_is_dna_or_invalid(header: Header)
    requires
        header.spec_header_seq() == 0,
    ensures
        prev_header_rule(header) is Ok <==> header is Dna,
        !(header is Dna) ==> prev_header_rule(header) == rejected_prev::<()>(
            PrevHeaderError::InvalidRoot,
        ),
{
}

/// The rule on sequence numbers passes exactly where the header stands one
/// above the one before it, and the rule on time exactly where it is
/// later: neither rule looks at what the other checks, and each fails with
/// its own error.
pub proof fn seq_and_timestamp_rules_are_separate(header: Header, prev_header: Header)
    ensures
        prev_seq_rule(header, prev_header) is Ok <==> header.spec_header_seq()
            == prev_header.spec_header_seq() + 1,
        prev_timestamp_rule(header, prev_header) is Ok <==> header.spec_timestamp().spec_is_after(
            &prev_header.spec_timestamp(),
        ),
        !(prev_seq_rule(header, prev_header) is Ok) ==> prev_seq_rule(header, prev_header)
            == rejected_prev::<()>(
            PrevHeaderError::InvalidSeq(header.spec_header_seq(), prev_header.spec_header_seq()),
        ),
        !(prev_timestamp_rule(header, prev_header) is Ok) ==> prev_timestamp_rule(
            header,
            prev_header,
        ) == rejected_prev::<()>(PrevHeaderError::Timestamp),
{
}

/// The rule on entry types passes exactly where the entry is of the kind
/// that the type is paired with.
pub proof fn entry_type_rule_follows_pairing(entry_type: EntryType, entry: Entry)
    ensures
        entry_type_rule(entry_type, entry) is Ok <==> entry_matches_type(entry_type, entry),
        !entry_matches_type(entry_type, entry) ==> entry_type_rule(entry_type, entry) == rejected::<
            (),
        >(ValidationOutcome::EntryType),
{
}

/// Hashing an entry whose declared hash was accepted gives the declared
/// hash again.
pub proof fn accepted_entry_hash_is_reproduced(hash: EntryHash, entry: Entry, encoded: Seq<u8>)
    requires
        entry_hash_rule(hash, entry, encoded) is Ok,
    ensures
        entry_hash_of(entry, encoded) == hash,
{
}

/// Deriving the `StoreElement` operation of one element twice gives the
/// same identity and the same operation.
pub proof fn store_element_is_repeatable(
    first: Element,
    first_encoded: Seq<u8>,
    second: Element,
    second_encoded: Seq<u8>,
)
    requires
        first == second,
        first_encoded == second_encoded,
    ensures
        identified(store_element_op(first), first_encoded) == identified(
            store_element_op(second),
            second_encoded,
        ),
{
}

/// The size limit is strict: an app entry passes exactly where it is
/// smaller than the limit, so one of the limit's size is refused and one a
/// byte smaller is accepted.
pub proof fn entry_size_limit_is_strict(entry: Entry)
    requires
        entry is App,
    ensures
        entry_size_rule(entry) is Ok <==> entry.spec_app_size() < MAX_ENTRY_SIZE,
        entry.spec_app_size() == MAX_ENTRY_SIZE ==> entry_size_rule(entry) == rejected::<()>(
            ValidationOutcome::EntryTooLarge(MAX_ENTRY_SIZE, MAX_ENTRY_SIZE),
        ),
        entry.spec_app_size() == MAX_ENTRY_SIZE - 1 ==> entry_size_rule(entry) is Ok,
{
}

/// A private entry is refused where an entry is to be stored on its own,
/// and nowhere else does the rule fail.
pub proof fn private_entries_are_excluded(entry_def: EntryDef)
    ensures
        not_private_rule(entry_def) is Ok <==> entry_def.visibility is Public,
        entry_def.visibility is Private ==> not_private_rule(entry_def) == rejected::<()>(
            ValidationOutcome::PrivateEntry,
        ),
{
}

/// An element whose entry was not kept gives no `StoreElement` operation,
/// and every other element gives one.
pub proof fn store_element_needs_the_entry(element: Element)
    ensures
        store_element_op(element) is None <==> element.entry is NotStored,
{
}

/// A dependency that is not held makes no header invalid: the validation
/// awaits it, and is pending again once it has arrived.
pub proof fn missing_dependency_is_awaited(outcome: ValidationOutcome)
    requires
        outcome is NotHoldingDep,
    ensures
        next_state(
            ValidationState::Pending,
            ValidationEvent::Attempted(Err(SysValidationError::ValidationOutcome(outcome))),
        ) == ValidationState::AwaitingDependency,
        next_state(ValidationState::AwaitingDependency, ValidationEvent::DependencyArrived)
            == ValidationState::Pending,
{
}

/// A validation becomes invalid only by an attempt that a rule failed
/// for good, and keeps the reason.
pub proof fn invalid_only_by_a_failed_rule(state: ValidationState, event: ValidationEvent)
    requires
        !(state is Invalid),
        next_state(state, event) is Invalid,
    ensures
        state is Pending,
        event matches ValidationEvent::Attempted(
            Err(SysValidationError::ValidationOutcome(outcome)),
        ) && !(outcome is NotHoldingDep) && next_state(state, event) == ValidationState::Invalid(
            outcome,
        ),
{
}

} // verus!
