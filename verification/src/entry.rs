//! Entries: the content that some headers bring with them.

use vstd::prelude::*;
use crate::hash::hash_of_bytes;
use crate::hash::AgentPubKey;
use crate::hash::EntryHash;
use crate::hash::RawHash;
use crate::header::EntryType;
use crate::header::EntryVisibility;

verus! {

/// The serialized content of an app entry.
#[derive(Clone, Debug, PartialEq, Eq)]
pub struct AppEntryBytes(pub Vec<u8>);

/// A capability claim, held in its serialized form: no rule looks inside.
#[derive(Clone, Debug, PartialEq, Eq)]
pub struct CapClaim(pub Vec<u8>);

/// A capability grant, held in its serialized form: no rule looks inside.
#[derive(Clone, Debug, PartialEq, Eq)]
pub struct CapGrant(pub Vec<u8>);

/// An entry of any kind.
#[derive(Clone, Debug, PartialEq, Eq)]
pub enum Entry {
    Agent(AgentPubKey),
    App(AppEntryBytes),
    CapClaim(CapClaim),
    CapGrant(CapGrant),
}

/// What a zome declares of one type of app entry.
#[derive(Clone, Copy, Debug, PartialEq, Eq, Structural)]
pub struct EntryDef {
    pub visibility: EntryVisibility,
    pub required_validations: u8,
}

/// A zome, as far as validation reads it: the entry types it defines, in
/// the order of their indices.
#[derive(Clone, Debug, PartialEq, Eq)]
pub struct Zome {
    pub entry_defs: Vec<EntryDef>,
}

/// The pairing of declared entry types with entries: each type goes with
/// the entry of the same kind and with no other.
pub open spec fn entry_matches_type(entry_type: EntryType, entry: Entry) -> bool {
    match entry_type {
        EntryType::AgentPubKey => entry is Agent,
        EntryType::App(_) => entry is App,
        EntryType::CapClaim => entry is CapClaim,
        EntryType::CapGrant => entry is CapGrant,
    }
}

/// The hash of an entry whose serialized form is `encoded`. An agent entry
/// is its own hash: the key's bytes, read as the hash of an entry. Every
/// other entry is hashed from its serialized form.
pub open spec fn entry_hash_of(entry: Entry, encoded: Seq<u8>) -> EntryHash {
    match entry {
        Entry::Agent(key) => EntryHash { raw: key.raw },
        _ => EntryHash { raw: hash_of_bytes(encoded) },
    }
}

impl EntryHash {
    /// The hash of `entry`, whose serialized form the caller supplies in
    /// `encoded`.
    pub fn with_data_sync(entry: &Entry, encoded: &[u8]) -> (hash: EntryHash)
        ensures
            hash == entry_hash_of(*entry, encoded@),
    {
        match entry {
            Entry::Agent(key) => EntryHash { raw: key.raw },
            _ => EntryHash { raw: RawHash::with_data(encoded) },
        }
    }
}

impl Entry {
    /// The number of bytes that the size limit counts: the content of an
    /// app entry, and nothing for the other kinds, which are small.
    pub open spec fn spec_app_size(&self) -> nat {
        match *self {
            Entry::App(bytes) => bytes.0@.len(),
            _ => 0,
        }
    }
}

} // verus!
