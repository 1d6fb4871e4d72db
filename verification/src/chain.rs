//! Keys by which the recorded activity of an agent's chain is asked for.

use vstd::prelude::*;
use crate::hash::AgentPubKey;
use crate::hash::HeaderHash;
use crate::header::Header;

verus! {

/// What validation has found of a header.
#[derive(Clone, Copy, Debug, PartialEq, Eq, Structural)]
pub enum ValidationStatus {
    Valid,
    Rejected,
    Abandoned,
}

/// A key into the recorded activity: an agent, and optionally a status and
/// a sequence number that narrow the answer.
#[derive(Clone, Copy, Debug, PartialEq, Eq)]
pub enum ChainItemKey {
    /// All that is recorded of the agent.
    Agent(AgentPubKey),
    /// What is recorded of the agent with the status.
    AgentStatus(AgentPubKey, ValidationStatus),
    /// What is recorded of the agent with the status at the sequence
    /// number.
    AgentStatusSequence(AgentPubKey, ValidationStatus, u32),
}

/// One header as the activity of its author records it.
#[derive(Clone, Copy, Debug, PartialEq, Eq)]
pub struct ChainItem {
    pub agent: AgentPubKey,
    pub status: ValidationStatus,
    pub header_seq: u32,
    pub header_hash: HeaderHash,
}

impl ChainItemKey {
    pub open spec fn spec_agent(&self) -> AgentPubKey {
        match *self {
            ChainItemKey::Agent(agent) => agent,
            ChainItemKey::AgentStatus(agent, _) => agent,
            ChainItemKey::AgentStatusSequence(agent, _, _) => agent,
        }
    }

    /// The agent that the key asks for.
    #[verifier::when_used_as_spec(spec_agent)]
    pub fn agent(&self) -> (agent: AgentPubKey)
        ensures
            agent == self.spec_agent(),
    {
        match self {
            ChainItemKey::Agent(agent) => *agent,
            ChainItemKey::AgentStatus(agent, _) => *agent,
            ChainItemKey::AgentStatusSequence(agent, _, _) => *agent,
        }
    }

    pub open spec fn spec_status(&self) -> Option<ValidationStatus> {
        match *self {
            ChainItemKey::Agent(_) => None,
            ChainItemKey::AgentStatus(_, status) => Some(status),
            ChainItemKey::AgentStatusSequence(_, status, _) => Some(status),
        }
    }

    /// The status that the key asks for, if any.
    #[verifier::when_used_as_spec(spec_status)]
    pub fn status(&self) -> (status: Option<ValidationStatus>)
        ensures
            status == self.spec_status(),
    {
        match self {
            ChainItemKey::Agent(_) => None,
            ChainItemKey::AgentStatus(_, status) => Some(*status),
            ChainItemKey::AgentStatusSequence(_, status, _) => Some(*status),
        }
    }

    pub open spec fn spec_header_seq(&self) -> Option<u32> {
        match *self {
            ChainItemKey::AgentStatusSequence(_, _, header_seq) => Some(header_seq),
            _ => None,
        }
    }

    /// The sequence number that the key asks for, if any.
    #[verifier::when_used_as_spec(spec_header_seq)]
    pub fn header_seq(&self) -> (header_seq: Option<u32>)
        ensures
            header_seq == self.spec_header_seq(),
    {
        match self {
            ChainItemKey::AgentStatusSequence(_, _, header_seq) => Some(*header_seq),
            _ => None,
        }
    }

    /// Whether the key asks for the item: the agent is the key's, and so
    /// are the status and the sequence number where the key names them.
    pub open spec fn spec_selects(&self, item: &ChainItem) -> bool {
        &&& item.agent == self.spec_agent()
        &&& self.spec_status() matches Some(status) ==> item.status == status
        &&& self.spec_header_seq() matches Some(header_seq) ==> item.header_seq == header_seq
    }

    #[verifier::when_used_as_spec(spec_selects)]
    pub fn selects(&self, item: &ChainItem) -> (selected: bool)
        ensures
            selected == self.spec_selects(item),
    {
        if !item.agent.raw.same_as(&self.agent().raw) {
            return false;
        }
        let status_fits = match self.status() {
            Some(status) => item.status == status,
            None => true,
        };
        let seq_fits = match self.header_seq() {
            Some(header_seq) => item.header_seq == header_seq,
            None => true,
        };
        status_fits && seq_fits
    }
}

/// The key under which the root rule looks: all that is recorded of the
/// header's author.
pub open spec fn root_key_of(header: Header) -> ChainItemKey {
    ChainItemKey::Agent(header.spec_author())
}

/// The key under which a rollback is looked for: the valid headers of the
/// header's author at the header's own sequence number.
pub open spec fn rollback_key_of(header: Header) -> ChainItemKey {
    ChainItemKey::AgentStatusSequence(
        header.spec_author(),
        ValidationStatus::Valid,
        header.spec_header_seq(),
    )
}

/// The key to ask the activity with before `Dna` is checked against an
/// empty chain.
pub fn root_key(header: &Header) -> (key: ChainItemKey)
    ensures
        key == root_key_of(*header),
{
    ChainItemKey::Agent(header.author())
}

/// The key to ask the activity with before a rollback is looked for.
pub fn rollback_key(header: &Header) -> (key: ChainItemKey)
    ensures
        key == rollback_key_of(*header),
{
    ChainItemKey::AgentStatusSequence(header.author(), ValidationStatus::Valid, header.header_seq())
}

} // verus!
