//! Elements: a signed header together with what is known of its entry.

use vstd::prelude::*;
use crate::entry::Entry;
use crate::hash::HeaderHash;
use crate::header::Header;

verus! {

/// A signature over a header.
#[derive(Clone, Copy, Debug, PartialEq, Eq)]
pub struct Signature(pub [u8; 64]);

/// A header with its hash and its author's signature.
#[derive(Clone, Debug, PartialEq, Eq)]
pub struct SignedHeaderHashed {
    pub header: Header,
    pub hash: HeaderHash,
    pub signature: Signature,
}

/// What an element knows of its entry.
#[derive(Clone, Debug, PartialEq, Eq)]
pub enum ElementEntry {
    /// The entry is here.
    Present(Entry),
    /// The header has an entry, which is private and not shown.
    Hidden,
    /// The header is of a kind that has no entry.
    NotApplicable,
    /// The header has an entry, which was not kept.
    NotStored,
}

impl ElementEntry {
    pub open spec fn spec_option(self) -> Option<Entry> {
        match self {
            ElementEntry::Present(entry) => Some(entry),
            _ => None,
        }
    }

    /// The entry, if it is here.
    pub fn into_option(self) -> (entry: Option<Entry>)
        ensures
            entry == self.spec_option(),
    {
        match self {
            ElementEntry::Present(entry) => Some(entry),
            _ => None,
        }
    }
}

/// A signed header and its entry.
#[derive(Clone, Debug, PartialEq, Eq)]
pub struct Element {
    pub signed_header: SignedHeaderHashed,
    pub entry: ElementEntry,
}

impl Element {
    /// Puts a signed header and its entry together.
    pub fn new(signed_header: SignedHeaderHashed, entry: ElementEntry) -> (element: Element)
        ensures
            element == (Element { signed_header, entry }),
    {
        Element { signed_header, entry }
    }

    /// Takes the element apart.
    pub fn into_inner(self) -> (parts: (SignedHeaderHashed, ElementEntry))
        ensures
            parts == (self.signed_header, self.entry),
    {
        (self.signed_header, self.entry)
    }
}

} // verus!
