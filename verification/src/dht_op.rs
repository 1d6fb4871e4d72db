//! DHT operations, and their derivation from an element.
//!
//! An operation is identified by the hash of a serialized form that only
//! its kind and its header determine. Serializing is the caller's part: each
//! derivation takes that form as `encoded` and hashes it.

use vstd::prelude::*;
use crate::element::Element;
use crate::element::ElementEntry;
use crate::element::Signature;
use crate::entry::Entry;
use crate::hash::hash_of_bytes;
use crate::hash::DhtOpHash;
use crate::header::CreateLink;
use crate::header::Header;
use crate::header::NewEntryHeader;

verus! {

/// A claim that peers store and check on their own.
#[derive(Clone, Debug, PartialEq, Eq)]
pub enum DhtOp {
    /// A header, with its entry where that is public and at hand.
    StoreElement(Signature, Header, Option<Entry>),
    /// An entry, with the header that brought it.
    StoreEntry(Signature, NewEntryHeader, Entry),
    /// A link to add to its base.
    RegisterAddLink(Signature, CreateLink),
    /// A header to record in its author's activity.
    RegisterAgentActivity(Signature, Header),
}

/// The operation with its identity, which is the hash of `encoded`.
pub open spec fn identified(op: Option<DhtOp>, encoded: Seq<u8>) -> Option<(DhtOpHash, DhtOp)> {
    match op {
        Some(op) => Some((DhtOpHash { raw: hash_of_bytes(encoded) }, op)),
        None => None,
    }
}

/// The `StoreElement` operation of an element: there is none where the
/// entry that the header speaks of was not kept.
pub open spec fn store_element_op(element: Element) -> Option<DhtOp> {
    let signature = element.signed_header.signature;
    let header = element.signed_header.header;
    match element.entry {
        ElementEntry::Present(entry) => Some(DhtOp::StoreElement(signature, header, Some(entry))),
        ElementEntry::NotApplicable | ElementEntry::Hidden => Some(
            DhtOp::StoreElement(signature, header, None),
        ),
        ElementEntry::NotStored => None,
    }
}

/// The `StoreEntry` operation of an element: there is one where the entry
/// is at hand and the header is of a kind that brings an entry.
pub open spec fn store_entry_op(element: Element) -> Option<DhtOp> {
    match (element.entry, element.signed_header.header.spec_new_entry_header()) {
        (ElementEntry::Present(entry), Some(header)) => Some(
            DhtOp::StoreEntry(element.signed_header.signature, header, entry),
        ),
        _ => None,
    }
}

/// The `RegisterAddLink` operation of an element: there is one where the
/// header adds a link.
pub open spec fn register_add_link_op(element: Element) -> Option<DhtOp> {
    match element.signed_header.header.spec_create_link() {
        Some(header) => Some(DhtOp::RegisterAddLink(element.signed_header.signature, header)),
        None => None,
    }
}

/// The `RegisterAgentActivity` operation of an element: every element has
/// one.
pub open spec fn register_agent_activity_op(element: Element) -> Option<DhtOp> {
    Some(
        DhtOp::RegisterAgentActivity(
            element.signed_header.signature,
            element.signed_header.header,
        ),
    )
}

/// Derives the `StoreElement` operation of an element. Where none can be
/// derived nothing is returned, and that is no error: the rest of the
/// element will come by gossip.
pub fn make_store_element(element: Element, encoded: &[u8]) -> (op: Option<(DhtOpHash, DhtOp)>)
    ensures
        op == identified(store_element_op(element), encoded@),
{
    let (shh, element_entry) = element.into_inner();
    let signature = shh.signature;
    let header = shh.header;
    let maybe_entry = match element_entry {
        ElementEntry::Present(entry) => Some(entry),
        ElementEntry::NotApplicable | ElementEntry::Hidden => None,
        ElementEntry::NotStored => {
            return None;
        },
    };
    let op = DhtOp::StoreElement(signature, header, maybe_entry);
    let hash = DhtOpHash::with_data_sync(encoded);
    Some((hash, op))
}

/// Derives the `StoreEntry` operation of an element, or nothing.
pub fn make_store_entry(element: Element, encoded: &[u8]) -> (op: Option<(DhtOpHash, DhtOp)>)
    ensures
        op == identified(store_entry_op(element), encoded@),
{
    let (shh, element_entry) = element.into_inner();
    let signature = shh.signature;
    let entry = match element_entry.into_option() {
        Some(entry) => entry,
        None => {
            return None;
        },
    };
    let header = match shh.header.into_new_entry_header() {
        Some(header) => header,
        None => {
            return None;
        },
    };
    let op = DhtOp::StoreEntry(signature, header, entry);
    let hash = DhtOpHash::with_data_sync(encoded);
    Some((hash, op))
}

/// Derives the `RegisterAddLink` operation of an element, or nothing.
pub fn make_register_add_link(element: Element, encoded: &[u8]) -> (op: Option<(DhtOpHash, DhtOp)>)
    ensures
        op == identified(register_add_link_op(element), encoded@),
{
    let (shh, _) = element.into_inner();
    let signature = shh.signature;
    let header = match shh.header.into_create_link() {
        Some(header) => header,
        None => {
            return None;
        },
    };
    let op = DhtOp::RegisterAddLink(signature, header);
    let hash = DhtOpHash::with_data_sync(encoded);
    Some((hash, op))
}

/// Derives the `RegisterAgentActivity` operation of an element.
pub fn make_register_agent_activity(element: Element, encoded: &[u8]) -> (op: Option<
    (DhtOpHash, DhtOp),
>)
    ensures
        op == identified(register_agent_activity_op(element), encoded@),
{
    let (shh, _) = element.into_inner();
    let signature = shh.signature;
    let header = shh.header;
    let op = DhtOp::RegisterAgentActivity(signature, header);
    let hash = DhtOpHash::with_data_sync(encoded);
    Some((hash, op))
}

} // verus!
