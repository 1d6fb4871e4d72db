//! Headers: the records that an agent appends to its source chain.

use vstd::prelude::*;
use crate::hash::AgentPubKey;
use crate::hash::DnaHash;
use crate::hash::EntryHash;
use crate::hash::HeaderHash;

verus! {

/// A point in time: seconds since the epoch, and nanoseconds within the
/// second.
#[derive(Clone, Copy, Debug, PartialEq, Eq, Structural)]
pub struct Timestamp {
    pub secs: i64,
    pub nanos: u32,
}

impl Timestamp {
    /// Whether `self` is strictly later than `other`: seconds decide, then
    /// nanoseconds.
    pub open spec fn spec_is_after(&self, other: &Timestamp) -> bool {
        self.secs > other.secs || (self.secs == other.secs && self.nanos > other.nanos)
    }

    #[verifier::when_used_as_spec(spec_is_after)]
    pub fn is_after(&self, other: &Timestamp) -> (after: bool)
        ensures
            after == self.spec_is_after(other),
    {
        self.secs > other.secs || (self.secs == other.secs && self.nanos > other.nanos)
    }
}

/// Who may see an entry.
#[derive(Clone, Copy, Debug, PartialEq, Eq, Structural)]
pub enum EntryVisibility {
    Public,
    Private,
}

/// The type that a header declares for an app entry: the zome, the entry
/// definition within it, and the visibility.
#[derive(Clone, Copy, Debug, PartialEq, Eq, Structural)]
pub struct AppEntryType {
    pub id: u8,
    pub zome_id: u8,
    pub visibility: EntryVisibility,
}

/// The type that a header declares for its entry.
#[derive(Clone, Copy, Debug, PartialEq, Eq, Structural)]
pub enum EntryType {
    AgentPubKey,
    App(AppEntryType),
    CapClaim,
    CapGrant,
}

/// The tag of a link: bytes that the application chooses.
#[derive(Clone, Debug, PartialEq, Eq)]
pub struct LinkTag(pub Vec<u8>);

/// What every header but the first holds: its author, its time, its place in
/// the chain and the header before it.
#[derive(Clone, Copy, Debug, PartialEq, Eq)]
pub struct ChainLink {
    pub author: AgentPubKey,
    pub timestamp: Timestamp,
    pub header_seq: u32,
    pub prev_header: Option<HeaderHash>,
}

/// The first header of every chain.
#[derive(Clone, Copy, Debug, PartialEq, Eq)]
pub struct Dna {
    pub author: AgentPubKey,
    pub timestamp: Timestamp,
    pub hash: DnaHash,
}

/// The proof with which an agent asks to join.
#[derive(Clone, Debug, PartialEq, Eq)]
pub struct AgentValidationPkg {
    pub link: ChainLink,
    pub membrane_proof: Option<Vec<u8>>,
}

/// The mark that the zomes have been initialized.
#[derive(Clone, Copy, Debug, PartialEq, Eq)]
pub struct InitZomesComplete {
    pub link: ChainLink,
}

/// The header that adds a link from a base to a target.
#[derive(Clone, Debug, PartialEq, Eq)]
pub struct CreateLink {
    pub link: ChainLink,
    pub base_address: EntryHash,
    pub target_address: EntryHash,
    pub zome_id: u8,
    pub tag: LinkTag,
}

/// The header that removes a link.
#[derive(Clone, Copy, Debug, PartialEq, Eq)]
pub struct DeleteLink {
    pub link: ChainLink,
    pub base_address: EntryHash,
    pub link_add_address: HeaderHash,
}

/// The header that opens a chain which continues one of another DNA.
#[derive(Clone, Copy, Debug, PartialEq, Eq)]
pub struct OpenChain {
    pub link: ChainLink,
    pub prev_dna_hash: DnaHash,
}

/// The header that closes a chain to continue it in another DNA.
#[derive(Clone, Copy, Debug, PartialEq, Eq)]
pub struct CloseChain {
    pub link: ChainLink,
    pub new_dna_hash: DnaHash,
}

/// The header that brings a new entry.
#[derive(Clone, Copy, Debug, PartialEq, Eq)]
pub struct Create {
    pub link: ChainLink,
    pub entry_type: EntryType,
    pub entry_hash: EntryHash,
}

/// The header that brings an entry in place of an earlier one.
#[derive(Clone, Copy, Debug, PartialEq, Eq)]
pub struct Update {
    pub link: ChainLink,
    pub original_header_address: HeaderHash,
    pub original_entry_address: EntryHash,
    pub entry_type: EntryType,
    pub entry_hash: EntryHash,
}

/// The header that marks a header and its entry as deleted.
#[derive(Clone, Copy, Debug, PartialEq, Eq)]
pub struct Delete {
    pub link: ChainLink,
    pub deletes_address: HeaderHash,
    pub deletes_entry_address: EntryHash,
}

/// A header of any kind.
#[derive(Clone, Debug, PartialEq, Eq)]
pub enum Header {
    Dna(Dna),
    AgentValidationPkg(AgentValidationPkg),
    InitZomesComplete(InitZomesComplete),
    CreateLink(CreateLink),
    DeleteLink(DeleteLink),
    OpenChain(OpenChain),
    CloseChain(CloseChain),
    Create(Create),
    Update(Update),
    Delete(Delete),
}

/// The kind of a header, without its fields.
#[derive(Clone, Copy, Debug, PartialEq, Eq, Structural)]
pub enum HeaderType {
    Dna,
    AgentValidationPkg,
    InitZomesComplete,
    CreateLink,
    DeleteLink,
    OpenChain,
    CloseChain,
    Create,
    Update,
    Delete,
}

/// A header that brings an entry with it.
#[derive(Clone, Copy, Debug, PartialEq, Eq)]
pub enum NewEntryHeader {
    Create(Create),
    Update(Update),
}

impl Header {
    pub open spec fn spec_link(&self) -> Option<ChainLink> {
        match *self {
            Header::Dna(_) => None,
            Header::AgentValidationPkg(h) => Some(h.link),
            Header::InitZomesComplete(h) => Some(h.link),
            Header::CreateLink(h) => Some(h.link),
            Header::DeleteLink(h) => Some(h.link),
            Header::OpenChain(h) => Some(h.link),
            Header::CloseChain(h) => Some(h.link),
            Header::Create(h) => Some(h.link),
            Header::Update(h) => Some(h.link),
            Header::Delete(h) => Some(h.link),
        }
    }

    /// The chain link of every header but `Dna`.
    #[verifier::when_used_as_spec(spec_link)]
    pub fn link(&self) -> (link: Option<ChainLink>)
        ensures
            link == self.spec_link(),
    {
        match self {
            Header::Dna(_) => None,
            Header::AgentValidationPkg(h) => Some(h.link),
            Header::InitZomesComplete(h) => Some(h.link),
            Header::CreateLink(h) => Some(h.link),
            Header::DeleteLink(h) => Some(h.link),
            Header::OpenChain(h) => Some(h.link),
            Header::CloseChain(h) => Some(h.link),
            Header::Create(h) => Some(h.link),
            Header::Update(h) => Some(h.link),
            Header::Delete(h) => Some(h.link),
        }
    }

    pub open spec fn spec_header_type(&self) -> HeaderType {
        match *self {
            Header::Dna(_) => HeaderType::Dna,
            Header::AgentValidationPkg(_) => HeaderType::AgentValidationPkg,
            Header::InitZomesComplete(_) => HeaderType::InitZomesComplete,
            Header::CreateLink(_) => HeaderType::CreateLink,
            Header::DeleteLink(_) => HeaderType::DeleteLink,
            Header::OpenChain(_) => HeaderType::OpenChain,
            Header::CloseChain(_) => HeaderType::CloseChain,
            Header::Create(_) => HeaderType::Create,
            Header::Update(_) => HeaderType::Update,
            Header::Delete(_) => HeaderType::Delete,
        }
    }

    /// The kind of the header.
    #[verifier::when_used_as_spec(spec_header_type)]
    pub fn header_type(&self) -> (kind: HeaderType)
        ensures
            kind == self.spec_header_type(),
    {
        match self {
            Header::Dna(_) => HeaderType::Dna,
            Header::AgentValidationPkg(_) => HeaderType::AgentValidationPkg,
            Header::InitZomesComplete(_) => HeaderType::InitZomesComplete,
            Header::CreateLink(_) => HeaderType::CreateLink,
            Header::DeleteLink(_) => HeaderType::DeleteLink,
            Header::OpenChain(_) => HeaderType::OpenChain,
            Header::CloseChain(_) => HeaderType::CloseChain,
            Header::Create(_) => HeaderType::Create,
            Header::Update(_) => HeaderType::Update,
            Header::Delete(_) => HeaderType::Delete,
        }
    }

    pub open spec fn spec_author(&self) -> AgentPubKey {
        match *self {
            Header::Dna(h) => h.author,
            _ => self.spec_link().unwrap().author,
        }
    }

    /// The agent that signed the header.
    #[verifier::when_used_as_spec(spec_author)]
    pub fn author(&self) -> (author: AgentPubKey)
        ensures
            author == self.spec_author(),
    {
        match self {
            Header::Dna(h) => h.author,
            _ => self.link().unwrap().author,
        }
    }

    pub open spec fn spec_timestamp(&self) -> Timestamp {
        match *self {
            Header::Dna(h) => h.timestamp,
            _ => self.spec_link().unwrap().timestamp,
        }
    }

    /// The time at which the header was made.
    #[verifier::when_used_as_spec(spec_timestamp)]
    pub fn timestamp(&self) -> (timestamp: Timestamp)
        ensures
            timestamp == self.spec_timestamp(),
    {
        match self {
            Header::Dna(h) => h.timestamp,
            _ => self.link().unwrap().timestamp,
        }
    }

    pub open spec fn spec_header_seq(&self) -> u32 {
        match self.spec_link() {
            None => 0,
            Some(link) => link.header_seq,
        }
    }

    /// The place of the header in its chain; `Dna` stands at 0.
    #[verifier::when_used_as_spec(spec_header_seq)]
    pub fn header_seq(&self) -> (seq: u32)
        ensures
            seq == self.spec_header_seq(),
    {
        match self.link() {
            None => 0,
            Some(link) => link.header_seq,
        }
    }

    pub open spec fn spec_prev_header(&self) -> Option<HeaderHash> {
        match self.spec_link() {
            None => None,
            Some(link) => link.prev_header,
        }
    }

    /// The header before this one; `Dna` has none.
    #[verifier::when_used_as_spec(spec_prev_header)]
    pub fn prev_header(&self) -> (prev: Option<HeaderHash>)
        ensures
            prev == self.spec_prev_header(),
    {
        match self.link() {
            None => None,
            Some(link) => link.prev_header,
        }
    }

    pub open spec fn spec_new_entry_header(self) -> Option<NewEntryHeader> {
        match self {
            Header::Create(h) => Some(NewEntryHeader::Create(h)),
            Header::Update(h) => Some(NewEntryHeader::Update(h)),
            _ => None,
        }
    }

    /// The header as one that brings an entry, if it is `Create` or `Update`.
    pub fn into_new_entry_header(self) -> (header: Option<NewEntryHeader>)
        ensures
            header == self.spec_new_entry_header(),
    {
        match self {
            Header::Create(h) => Some(NewEntryHeader::Create(h)),
            Header::Update(h) => Some(NewEntryHeader::Update(h)),
            _ => None,
        }
    }

    pub open spec fn spec_create_link(self) -> Option<CreateLink> {
        match self {
            Header::CreateLink(h) => Some(h),
            _ => None,
        }
    }

    /// The header as one that adds a link, if it is `CreateLink`.
    pub fn into_create_link(self) -> (header: Option<CreateLink>)
        ensures
            header == self.spec_create_link(),
    {
        match self {
            Header::CreateLink(h) => Some(h),
            _ => None,
        }
    }
}

impl NewEntryHeader {
    pub open spec fn spec_entry_type(&self) -> EntryType {
        match *self {
            NewEntryHeader::Create(h) => h.entry_type,
            NewEntryHeader::Update(h) => h.entry_type,
        }
    }

    /// The type that the header declares for its entry.
    #[verifier::when_used_as_spec(spec_entry_type)]
    pub fn entry_type(&self) -> (entry_type: EntryType)
        ensures
            entry_type == self.spec_entry_type(),
    {
        match self {
            NewEntryHeader::Create(h) => h.entry_type,
            NewEntryHeader::Update(h) => h.entry_type,
        }
    }

    pub open spec fn spec_entry_hash(&self) -> EntryHash {
        match *self {
            NewEntryHeader::Create(h) => h.entry_hash,
            NewEntryHeader::Update(h) => h.entry_hash,
        }
    }

    /// The hash that the header declares for its entry.
    #[verifier::when_used_as_spec(spec_entry_hash)]
    pub fn entry_hash(&self) -> (entry_hash: EntryHash)
        ensures
            entry_hash == self.spec_entry_hash(),
    {
        match self {
            NewEntryHeader::Create(h) => h.entry_hash,
            NewEntryHeader::Update(h) => h.entry_hash,
        }
    }
}

} // verus!
