//! Resolving what a validation depends on, and handing on what was found
//! on the network so that this node comes to hold it.
//!
//! Reading the local store and asking the network are the caller's part.
//! The network is asked only where the local store has nothing; what each
//! returned comes in as `local` and `network`.

use vstd::prelude::*;
use crate::dht_op::identified;
use crate::dht_op::make_register_add_link;
use crate::dht_op::make_register_agent_activity;
use crate::dht_op::make_store_element;
use crate::dht_op::make_store_entry;
use crate::dht_op::register_add_link_op;
use crate::dht_op::register_agent_activity_op;
use crate::dht_op::store_element_op;
use crate::dht_op::store_entry_op;
use crate::dht_op::DhtOp;
use crate::element::Element;
use crate::error::rejected;
use crate::error::SysValidationError;
use crate::error::SysValidationResult;
use crate::error::ValidationOutcome;
use crate::hash::AnyDhtHash;
use crate::hash::DhtOpHash;
use crate::hash::EntryHash;
use crate::hash::HeaderHash;

verus! {

/// Where an element was found.
#[derive(Clone, Debug, PartialEq, Eq)]
pub enum Source {
    /// Here: this node holds it, or soon will.
    Local(Element),
    /// On the network: this node does not hold it yet.
    Network(Element),
}

/// Where a dependency came from.
#[derive(Clone, Copy, Debug, PartialEq, Eq, Structural)]
pub enum Provenance {
    Local,
    Network,
}

impl Source {
    pub open spec fn spec_element(&self) -> Element {
        match *self {
            Source::Local(element) => element,
            Source::Network(element) => element,
        }
    }

    /// The element that was found.
    pub fn as_ref(&self) -> (element: &Element)
        ensures
            *element == self.spec_element(),
    {
        match self {
            Source::Local(element) => element,
            Source::Network(element) => element,
        }
    }

    pub open spec fn spec_provenance(&self) -> Provenance {
        match *self {
            Source::Local(_) => Provenance::Local,
            Source::Network(_) => Provenance::Network,
        }
    }

    #[verifier::when_used_as_spec(spec_provenance)]
    pub fn provenance(&self) -> (provenance: Provenance)
        ensures
            provenance == self.spec_provenance(),
    {
        match self {
            Source::Local(_) => Provenance::Local,
            Source::Network(_) => Provenance::Network,
        }
    }
}

/// The source of a dependency: the local store comes first, the network
/// second, and a dependency that neither has is not held.
pub open spec fn hold_source(hash: AnyDhtHash, local: Option<Element>, network: Option<Element>)
    -> SysValidationResult<Source> {
    match local {
        Some(element) => Ok(Source::Local(element)),
        None => match network {
            Some(element) => Ok(Source::Network(element)),
            None => rejected(ValidationOutcome::NotHoldingDep(hash)),
        },
    }
}

/// Whether the network is to be asked for a dependency: only where the
/// local store has nothing.
pub fn asks_network(local: &Option<Element>) -> (asks: bool)
    ensures
        asks == (*local is None),
{
    local.is_none()
}

/// Decides where the dependency `hash` comes from.
pub fn check_and_hold(hash: AnyDhtHash, local: Option<Element>, network: Option<Element>) -> (source:
    SysValidationResult<Source>)
    ensures
        source == hold_source(hash, local, network),
{
    match local {
        Some(element) => Ok(Source::Local(element)),
        None => match network {
            Some(element) => Ok(Source::Network(element)),
            None => Err(
                SysValidationError::ValidationOutcome(ValidationOutcome::NotHoldingDep(hash)),
            ),
        },
    }
}

/// The kinds of operation that a dependency can be handed on as.
#[derive(Clone, Copy, Debug, PartialEq, Eq, Structural)]
pub enum OpKind {
    StoreElement,
    StoreEntry,
    RegisterAddLink,
    RegisterAgentActivity,
}

/// The operation of the given kind that an element gives.
pub open spec fn op_of_kind(kind: OpKind, element: Element) -> Option<DhtOp> {
    match kind {
        OpKind::StoreElement => store_element_op(element),
        OpKind::StoreEntry => store_entry_op(element),
        OpKind::RegisterAddLink => register_add_link_op(element),
        OpKind::RegisterAgentActivity => register_agent_activity_op(element),
    }
}

/// A dependency that was resolved and has passed its check.
#[derive(Clone, Debug, PartialEq, Eq)]
pub struct Held {
    /// Where the dependency came from.
    pub provenance: Provenance,
    /// The operation to hand to the ingestion pipeline, if any.
    pub ingest: Option<(DhtOpHash, DhtOp)>,
}

/// The serialized form that the caller supplied, as a sequence.
pub open spec fn encoded_view(encoded: Option<&[u8]>) -> Option<Seq<u8>> {
    match encoded {
        Some(bytes) => Some(bytes@),
        None => None,
    }
}

/// What becomes of a checked dependency: one found on the network is
/// handed on, as the one operation of the given kind that it gives, where
/// the caller asks for that; one found here is held already.
pub open spec fn held_from(kind: OpKind, source: Source, encoded: Option<Seq<u8>>) -> Held {
    match (source, encoded) {
        (Source::Network(element), Some(bytes)) => Held {
            provenance: Provenance::Network,
            ingest: identified(op_of_kind(kind, element), bytes),
        },
        _ => Held { provenance: source.spec_provenance(), ingest: None },
    }
}

/// What a resolved dependency comes to once its check has ended as
/// `checked`: the check's failure, or the held dependency.
pub open spec fn outcome_after_check(
    kind: OpKind,
    source: Source,
    checked: SysValidationResult<()>,
    encoded: Option<Seq<u8>>,
) -> SysValidationResult<Held> {
    match checked {
        Ok(_) => Ok(held_from(kind, source, encoded)),
        Err(error) => Err(error),
    }
}

/// Decides what becomes of a resolved dependency whose check has ended
/// as `checked`. Where the check passed, the dependency came from the
/// network and `encoded` is given, the operation of the given kind is
/// derived from it, to be handed on; `encoded` is the serialized form that
/// identifies that operation.
pub fn hold_checked(
    kind: OpKind,
    source: Source,
    checked: SysValidationResult<()>,
    encoded: Option<&[u8]>,
) -> (result: SysValidationResult<Held>)
    ensures
        result == outcome_after_check(kind, source, checked, encoded_view(encoded)),
{
    match checked {
        Ok(_) => {},
        Err(error) => {
            return Err(error);
        },
    }
    match source {
        Source::Network(element) => match encoded {
            Some(bytes) => {
                let ingest = match kind {
                    OpKind::StoreElement => make_store_element(element, bytes),
                    OpKind::StoreEntry => make_store_entry(element, bytes),
                    OpKind::RegisterAddLink => make_register_add_link(element, bytes),
                    OpKind::RegisterAgentActivity => make_register_agent_activity(element, bytes),
                };
                Ok(Held { provenance: Provenance::Network, ingest })
            },
            None => Ok(Held { provenance: Provenance::Network, ingest: None }),
        },
        Source::Local(_) => Ok(Held { provenance: Provenance::Local, ingest: None }),
    }
}

/// What a resolution with a check comes to, where the check is `f`: the
/// resolution's own failure; else what the dependency comes to after one
/// of the results that `f` can give on it.
pub open spec fn hold_outcome<F: FnOnce(&Element) -> SysValidationResult<()>>(
    kind: OpKind,
    hash: AnyDhtHash,
    local: Option<Element>,
    network: Option<Element>,
    encoded: Option<Seq<u8>>,
    f: F,
    result: SysValidationResult<Held>,
) -> bool {
    match hold_source(hash, local, network) {
        Err(error) => result == Err::<Held, SysValidationError>(error),
        Ok(source) => exists|checked: SysValidationResult<()>|
            #![trigger f.ensures((&source.spec_element(),), checked)]
            f.ensures((&source.spec_element(),), checked) && result == outcome_after_check(
                kind,
                source,
                checked,
                encoded,
            ),
    }
}

/// Whether the check `f` can be applied to the dependency, where there is
/// one.
pub open spec fn check_applies<F: FnOnce(&Element) -> SysValidationResult<()>>(
    hash: AnyDhtHash,
    local: Option<Element>,
    network: Option<Element>,
    f: F,
) -> bool {
    hold_source(hash, local, network) matches Ok(source) ==> f.requires((&source.spec_element(),))
}

/// Resolves a dependency, applies the check to it, and decides what
/// becomes of it as `hold_checked` does.
pub fn hold_and_check<F: FnOnce(&Element) -> SysValidationResult<()>>(
    kind: OpKind,
    hash: AnyDhtHash,
    local: Option<Element>,
    network: Option<Element>,
    encoded: Option<&[u8]>,
    f: F,
) -> (result: SysValidationResult<Held>)
    requires
        check_applies(hash, local, network, f),
    ensures
        hold_outcome(kind, hash, local, network, encoded_view(encoded), f, result),
{
    let source = match check_and_hold(hash, local, network) {
        Ok(source) => source,
        Err(error) => {
            return Err(error);
        },
    };
    let checked = f(source.as_ref());
    hold_checked(kind, source, checked, encoded)
}

/// Resolves the header `hash` and checks it; one found on the network is
/// handed on as a `RegisterAddLink` operation, where `encoded` holds the
/// serialized form that identifies it.
pub fn check_and_hold_register_add_link<F: FnOnce(&Element) -> SysValidationResult<()>>(
    hash: &HeaderHash,
    local: Option<Element>,
    network: Option<Element>,
    encoded: Option<&[u8]>,
    f: F,
) -> (result: SysValidationResult<Held>)
    requires
        check_applies(AnyDhtHash::Header(*hash), local, network, f),
    ensures
        hold_outcome(
            OpKind::RegisterAddLink,
            AnyDhtHash::Header(*hash),
            local,
            network,
            encoded_view(encoded),
            f,
            result,
        ),
{
    hold_and_check(OpKind::RegisterAddLink, AnyDhtHash::Header(*hash), local, network, encoded, f)
}

/// Resolves the header `hash` and checks it; one found on the network is
/// handed on as a `RegisterAgentActivity` operation, where `encoded` holds the
/// serialized form that identifies it.
pub fn check_and_hold_register_agent_activity<F: FnOnce(&Element) -> SysValidationResult<()>>(
    hash: &HeaderHash,
    local: Option<Element>,
    network: Option<Element>,
    encoded: Option<&[u8]>,
    f: F,
) -> (result: SysValidationResult<Held>)
    requires
        check_applies(AnyDhtHash::Header(*hash), local, network, f),
    ensures
        hold_outcome(
            OpKind::RegisterAgentActivity,
            AnyDhtHash::Header(*hash),
            local,
            network,
            encoded_view(encoded),
            f,
            result,
        ),
{
    hold_and_check(
        OpKind::RegisterAgentActivity,
        AnyDhtHash::Header(*hash),
        local,
        network,
        encoded,
        f,
    )
}

/// Resolves the header `hash` and checks it; one found on the network is
/// handed on as a `StoreEntry` operation, where `encoded` holds the
/// serialized form that identifies it.
pub fn check_and_hold_store_entry<F: FnOnce(&Element) -> SysValidationResult<()>>(
    hash: &HeaderHash,
    local: Option<Element>,
    network: Option<Element>,
    encoded: Option<&[u8]>,
    f: F,
) -> (result: SysValidationResult<Held>)
    requires
        check_applies(AnyDhtHash::Header(*hash), local, network, f),
    ensures
        hold_outcome(
            OpKind::StoreEntry,
            AnyDhtHash::Header(*hash),
            local,
            network,
            encoded_view(encoded),
            f,
            result,
        ),
{
    hold_and_check(OpKind::StoreEntry, AnyDhtHash::Header(*hash), local, network, encoded, f)
}

/// Resolves any element that brought the entry `hash` and checks it; one
/// found on the network is handed on as a `StoreEntry` operation, where `encoded` holds the
/// serialized form that identifies it.
pub fn check_and_hold_any_store_entry<F: FnOnce(&Element) -> SysValidationResult<()>>(
    hash: &EntryHash,
    local: Option<Element>,
    network: Option<Element>,
    encoded: Option<&[u8]>,
    f: F,
) -> (result: SysValidationResult<Held>)
    requires
        check_applies(AnyDhtHash::Entry(*hash), local, network, f),
    ensures
        hold_outcome(
            OpKind::StoreEntry,
            AnyDhtHash::Entry(*hash),
            local,
            network,
            encoded_view(encoded),
            f,
            result,
        ),
{
    hold_and_check(OpKind::StoreEntry, AnyDhtHash::Entry(*hash), local, network, encoded, f)
}

/// Resolves the header `hash` and checks it; one found on the network is
/// handed on as a `StoreElement` operation, where `encoded` holds the
/// serialized form that identifies it.
pub fn check_and_hold_store_element<F: FnOnce(&Element) -> SysValidationResult<()>>(
    hash: &HeaderHash,
    local: Option<Element>,
    network: Option<Element>,
    encoded: Option<&[u8]>,
    f: F,
) -> (result: SysValidationResult<Held>)
    requires
        check_applies(AnyDhtHash::Header(*hash), local, network, f),
    ensures
        hold_outcome(
            OpKind::StoreElement,
            AnyDhtHash::Header(*hash),
            local,
            network,
            encoded_view(encoded),
            f,
            result,
        ),
{
    hold_and_check(OpKind::StoreElement, AnyDhtHash::Header(*hash), local, network, encoded, f)
}

/// Where the validation of one header stands.
#[derive(Clone, Copy, Debug, PartialEq, Eq)]
pub enum ValidationState {
    /// Waiting for an attempt.
    Pending,
    /// Every rule has passed on what this node holds.
    Valid,
    /// A rule has failed for good.
    Invalid(ValidationOutcome),
    /// A dependency is not held here yet; the attempt is made again once
    /// it is.
    AwaitingDependency,
}

/// What happens to a validation.
#[derive(Clone, Copy, Debug, PartialEq, Eq)]
pub enum ValidationEvent {
    /// An attempt ended: with the provenance of its dependency, or with
    /// an error.
    Attempted(SysValidationResult<Provenance>),
    /// A dependency has come to be held here.
    DependencyArrived,
}

/// The state that follows `state` on `event`. An attempt decides a pending
/// validation: it is valid where every rule passed on a dependency held
/// here; it awaits its dependency where that was found on the network, or
/// nowhere; it is invalid where a rule failed; and it stays pending where a
/// service failed. The arrival of a dependency makes an awaiting validation
/// pending again. Nothing else changes a state.
pub open spec fn next_state(state: ValidationState, event: ValidationEvent) -> ValidationState {
    match (state, event) {
        (ValidationState::Pending, ValidationEvent::Attempted(Ok(Provenance::Local))) => {
            ValidationState::Valid
        },
        (ValidationState::Pending, ValidationEvent::Attempted(Ok(Provenance::Network))) => {
            ValidationState::AwaitingDependency
        },
        (
            ValidationState::Pending,
            ValidationEvent::Attempted(Err(SysValidationError::ValidationOutcome(outcome))),
        ) => {
            if outcome is NotHoldingDep {
                ValidationState::AwaitingDependency
            } else {
                ValidationState::Invalid(outcome)
            }
        },
        (ValidationState::AwaitingDependency, ValidationEvent::DependencyArrived) => {
            ValidationState::Pending
        },
        _ => state,
    }
}

impl ValidationState {
    /// Moves the validation on by one event.
    pub fn step(self, event: ValidationEvent) -> (next: ValidationState)
        ensures
            next == next_state(self, event),
    {
        match (self, event) {
            (ValidationState::Pending, ValidationEvent::Attempted(Ok(Provenance::Local))) => {
                ValidationState::Valid
            },
            (ValidationState::Pending, ValidationEvent::Attempted(Ok(Provenance::Network))) => {
                ValidationState::AwaitingDependency
            },
            (
                ValidationState::Pending,
                ValidationEvent::Attempted(Err(SysValidationError::ValidationOutcome(outcome))),
            ) => {
                if outcome.is_retryable() {
                    ValidationState::AwaitingDependency
                } else {
                    ValidationState::Invalid(outcome)
                }
            },
            (ValidationState::AwaitingDependency, ValidationEvent::DependencyArrived) => {
                ValidationState::Pending
            },
            (state, _) => state,
        }
    }
}

} // verus!
