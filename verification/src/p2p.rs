//! What validation asks of the network layer.

use vstd::prelude::*;
use crate::hash::AgentPubKey;
use crate::hash::DnaHash;

verus! {

/// A request for a validation package.
#[derive(Clone, Copy, Debug, PartialEq, Eq)]
pub struct GetValidationPackage {
    /// The DNA that the request is made in.
    pub dna_hash: DnaHash,
    /// The agent that asks.
    pub agent_pub_key: AgentPubKey,
}

/// How a `get` is carried out. Where a field is `None` the network does
/// its best.
#[derive(Clone, Copy, Debug, PartialEq, Eq)]
pub struct GetOptions {
    /// How many remote agents are asked.
    pub remote_agent_count: Option<u8>,
    /// How long answers are waited for. When every request times out the
    /// result is empty; it is no error.
    pub timeout_ms: Option<u64>,
    /// Whether the first answers win: with `true`, what has arrived when
    /// `race_timeout_ms` is over is returned, and after that the first
    /// answer to arrive.
    pub as_race: bool,
    /// See `as_race`.
    pub race_timeout_ms: Option<u64>,
    /// Whether the remote agent follows redirects or returns just the
    /// entry asked for.
    pub follow_redirects: bool,
}

impl GetOptions {
    /// The options of a `get` for which nothing was chosen: a race that
    /// follows redirects, with no bound of its own.
    pub open spec fn spec_default() -> GetOptions {
        GetOptions {
            remote_agent_count: None,
            timeout_ms: None,
            as_race: true,
            race_timeout_ms: None,
            follow_redirects: true,
        }
    }
}

impl Default for GetOptions {
    fn default() -> (options: GetOptions)
        ensures
            options == GetOptions::spec_default(),
    {
        GetOptions {
            remote_agent_count: None,
            timeout_ms: None,
            as_race: true,
            race_timeout_ms: None,
            follow_redirects: true,
        }
    }
}

/// A request for the links on a base.
#[derive(Clone, Copy, Debug, PartialEq, Eq)]
pub struct GetLinks {
    /// The DNA that the request is made in.
    pub dna_hash: DnaHash,
    /// The agent that asks.
    pub agent_pub_key: AgentPubKey,
}

/// A handle on the network actor, known by the number of its channel.
#[derive(Clone, Copy, Debug, PartialEq, Eq)]
pub struct HolochainP2pSender {
    pub channel: u64,
}

/// A handle on the network actor that is bound to one cell: one agent in
/// one DNA.
#[derive(Clone, Copy, Debug, PartialEq, Eq)]
pub struct HolochainP2pCell {
    pub sender: HolochainP2pSender,
    pub dna_hash: DnaHash,
    pub from_agent: AgentPubKey,
}

impl HolochainP2pSender {
    /// Binds the handle to a cell.
    pub fn into_cell(self, dna_hash: DnaHash, from_agent: AgentPubKey) -> (cell: HolochainP2pCell)
        ensures
            cell == (HolochainP2pCell { sender: self, dna_hash, from_agent }),
    {
        HolochainP2pCell { sender: self, dna_hash, from_agent }
    }

    /// Binds a copy of the handle to a cell.
    pub fn to_cell(&self, dna_hash: DnaHash, from_agent: AgentPubKey) -> (cell: HolochainP2pCell)
        ensures
            cell == (HolochainP2pCell { sender: *self, dna_hash, from_agent }),
    {
        (*self).into_cell(dna_hash, from_agent)
    }
}

} // verus!
