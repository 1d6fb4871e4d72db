//! System validation for a signed, append-only source chain.
//!
//! Before a header or an entry is accepted or passed on to peers it has to
//! pass the rules in [`rules`], which look only at the values they are
//! given. What a rule depends on is resolved by [`cascade`]: first from the
//! local store, then from the network, and what the network gave is handed
//! on as a DHT operation, derived in [`dht_op`], so that this node comes to
//! hold it. [`laws`] states what holds of the rules and derivations on every
//! input.
//!
//! The library neither reads stores nor waits on the network, and it does
//! not serialize: its callers hand it what they have read, and the
//! serialized bytes of what is to be hashed. Hashing itself is done by the
//! `holo_hash` crate, behind the two functions at the top of [`hash`], whose
//! contracts are taken on trust.

pub mod cascade;
pub mod chain;
pub mod dht_op;
pub mod element;
pub mod entry;
pub mod error;
pub mod guest;
pub mod hash;
pub mod header;
pub mod laws;
pub mod p2p;
pub mod rules;
pub mod wire;
pub mod workflow;
