//! Content hashes.
//!
//! A hash is a 32-byte digest (the core) followed by four bytes that place it
//! on the DHT (the location). What a hash is the hash of is carried by its
//! Rust type; on the wire that type becomes a three-byte prefix.

use vstd::prelude::*;

verus! {

/// What `holo_hash::encode::blake2b_256` returns for the given bytes.
pub uninterp spec fn blake2b_256_digest(data: Seq<u8>) -> Seq<u8>;

/// What `holo_hash::encode::holo_dht_location_bytes` returns for a 32-byte digest.
pub uninterp spec fn dht_location(core: Seq<u8>) -> Seq<u8>;

/// Calls `holo_hash::encode::blake2b_256`, which computes the BLAKE2b digest
/// of `data` with an output length of 32 bytes. The contract only names the
/// digest; the result's type carries its length.
#[verifier::external_body]
pub(crate) fn blake2b_256(data: &[u8]) -> (digest: [u8; 32])
    ensures
        digest@ == blake2b_256_digest(data@),
{
    holo_hash::encode::blake2b_256(data).try_into().unwrap()
}

/// Calls `holo_hash::encode::holo_dht_location_bytes`, which folds a 16-byte
/// BLAKE2b digest of the core into four bytes. The function refuses any
/// input that is not 32 bytes long, which the argument's type rules out.
/// The contract only names the four bytes.
#[verifier::external_body]
pub(crate) fn holo_dht_location_bytes(core: &[u8; 32]) -> (loc: [u8; 4])
    ensures
        loc@ == dht_location(core@),
{
    holo_hash::encode::holo_dht_location_bytes(core).try_into().unwrap()
}

/// Whether two byte arrays of one length hold the same bytes.
pub fn bytes_equal<const N: usize>(a: &[u8; N], b: &[u8; N]) -> (same: bool)
    ensures
        same == (*a == *b),
{
    let mut i: usize = 0;
    while i < N
        invariant
            i <= N,
            forall|j: int| 0 <= j < i ==> a[j] == b[j],
        decreases N - i,
    {
        if a[i] != b[i] {
            return false;
        }
        i += 1;
    }
    assert(*a =~= *b);
    true
}

/// The 36 bytes that every kind of hash holds: core, then location.
#[derive(Clone, Copy, Debug, PartialEq, Eq, Hash)]
pub struct RawHash {
    pub core: [u8; 32],
    pub loc: [u8; 4],
}

/// The BLAKE2b-256 digest of `data`, as the array that holds it.
pub open spec fn digest_of(data: Seq<u8>) -> [u8; 32] {
    choose|core: [u8; 32]| core@ == blake2b_256_digest(data)
}

/// The DHT location of `core`, as the array that holds it.
pub open spec fn location_of(core: [u8; 32]) -> [u8; 4] {
    choose|loc: [u8; 4]| loc@ == dht_location(core@)
}

/// The hash with the given core: the core, then its location.
pub open spec fn located(core: [u8; 32]) -> RawHash {
    RawHash { core, loc: location_of(core) }
}

/// The hash of a byte string: its digest, then the digest's location.
pub open spec fn hash_of_bytes(data: Seq<u8>) -> RawHash {
    located(digest_of(data))
}

/// Two arrays with the same view are the same array.
pub proof fn array_view_injective<const N: usize>(a: [u8; N], b: [u8; N])
    requires
        a@ == b@,
    ensures
        a == b,
{
    assert forall|i: int| 0 <= i < N implies a[i] == b[i] by {
        assert(a[i] == a@[i]);
        assert(b[i] == b@[i]);
    }
    assert(a =~= b);
}

impl RawHash {
    /// The hash with the given core and the location that belongs to it.
    pub fn from_core(core: [u8; 32]) -> (hash: RawHash)
        ensures
            hash == located(core),
    {
        let loc = holo_dht_location_bytes(&core);
        proof {
            array_view_injective(loc, location_of(core));
        }
        RawHash { core, loc }
    }

    /// Hashes a byte string.
    pub fn with_data(data: &[u8]) -> (hash: RawHash)
        ensures
            hash == hash_of_bytes(data@),
    {
        let core = blake2b_256(data);
        proof {
            array_view_injective(core, digest_of(data@));
        }
        RawHash::from_core(core)
    }

    /// Whether both hashes hold the same 36 bytes.
    pub fn same_as(&self, other: &RawHash) -> (same: bool)
        ensures
            same == (*self == *other),
    {
        bytes_equal(&self.core, &other.core) && bytes_equal(&self.loc, &other.loc)
    }

    /// The bytes of the hash behind the given type prefix.
    pub open spec fn spec_raw_39(self, prefix: [u8; 3]) -> Seq<u8> {
        prefix@ + self.core@ + self.loc@
    }

    /// The 39 bytes that travel: type prefix, core, location.
    pub fn get_raw_39(&self, prefix: &[u8; 3]) -> (bytes: Vec<u8>)
        ensures
            bytes@ == self.spec_raw_39(*prefix),
    {
        let mut bytes: Vec<u8> = Vec::new();
        let mut i: usize = 0;
        while i < 3
            invariant
                i <= 3,
                bytes@ == prefix@.subrange(0, i as int),
            decreases 3 - i,
        {
            bytes.push(prefix[i]);
            i += 1;
        }
        i = 0;
        while i < 32
            invariant
                i <= 32,
                bytes@ == prefix@ + self.core@.subrange(0, i as int),
            decreases 32 - i,
        {
            bytes.push(self.core[i]);
            i += 1;
        }
        i = 0;
        while i < 4
            invariant
                i <= 4,
                bytes@ == prefix@ + self.core@ + self.loc@.subrange(0, i as int),
            decreases 4 - i,
        {
            bytes.push(self.loc[i]);
            i += 1;
        }
        bytes
    }
}

/// What a hash is the hash of.
#[derive(Clone, Copy, Debug, PartialEq, Eq, Structural)]
pub enum HashKind {
    Agent,
    Entry,
    DhtOp,
    Header,
    Dna,
}

impl HashKind {
    pub open spec fn spec_prefix(self) -> [u8; 3] {
        match self {
            HashKind::Agent => [0x84u8, 0x20u8, 0x24u8],
            HashKind::Entry => [0x84u8, 0x21u8, 0x24u8],
            HashKind::DhtOp => [0x84u8, 0x24u8, 0x24u8],
            HashKind::Header => [0x84u8, 0x29u8, 0x24u8],
            HashKind::Dna => [0x84u8, 0x2du8, 0x24u8],
        }
    }

    /// The three bytes that announce this kind of hash.
    #[verifier::when_used_as_spec(spec_prefix)]
    pub fn prefix(self) -> (prefix: [u8; 3])
        ensures
            prefix == self.spec_prefix(),
    {
        match self {
            HashKind::Agent => [0x84u8, 0x20u8, 0x24u8],
            HashKind::Entry => [0x84u8, 0x21u8, 0x24u8],
            HashKind::DhtOp => [0x84u8, 0x24u8, 0x24u8],
            HashKind::Header => [0x84u8, 0x29u8, 0x24u8],
            HashKind::Dna => [0x84u8, 0x2du8, 0x24u8],
        }
    }
}

/// The public key of an agent, in the shape of a hash.
#[derive(Clone, Copy, Debug, PartialEq, Eq, Hash)]
pub struct AgentPubKey {
    pub raw: RawHash,
}

/// The hash of a DNA.
#[derive(Clone, Copy, Debug, PartialEq, Eq, Hash)]
pub struct DnaHash {
    pub raw: RawHash,
}

/// The hash of a header.
#[derive(Clone, Copy, Debug, PartialEq, Eq, Hash)]
pub struct HeaderHash {
    pub raw: RawHash,
}

/// The hash of an entry.
#[derive(Clone, Copy, Debug, PartialEq, Eq, Hash)]
pub struct EntryHash {
    pub raw: RawHash,
}

/// The identity of a DHT operation.
#[derive(Clone, Copy, Debug, PartialEq, Eq, Hash)]
pub struct DhtOpHash {
    pub raw: RawHash,
}

/// A hash that the DHT can be asked for: that of a header or of an entry.
#[derive(Clone, Copy, Debug, PartialEq, Eq, Hash)]
pub enum AnyDhtHash {
    Header(HeaderHash),
    Entry(EntryHash),
}

impl AgentPubKey {
    /// The 39 bytes of the hash: prefix, core, location.
    pub fn get_raw_39(&self) -> (bytes: Vec<u8>)
        ensures
            bytes@ == self.raw.spec_raw_39(HashKind::Agent.spec_prefix()),
    {
        self.raw.get_raw_39(&HashKind::Agent.prefix())
    }
}

impl DnaHash {
    /// The 39 bytes of the hash: prefix, core, location.
    pub fn get_raw_39(&self) -> (bytes: Vec<u8>)
        ensures
            bytes@ == self.raw.spec_raw_39(HashKind::Dna.spec_prefix()),
    {
        self.raw.get_raw_39(&HashKind::Dna.prefix())
    }
}

impl HeaderHash {
    /// The hash of a header, from the header's serialized bytes.
    pub fn with_data_sync(encoded_header: &[u8]) -> (hash: HeaderHash)
        ensures
            hash.raw == hash_of_bytes(encoded_header@),
    {
        HeaderHash { raw: RawHash::with_data(encoded_header) }
    }

    /// The 39 bytes of the hash: prefix, core, location.
    pub fn get_raw_39(&self) -> (bytes: Vec<u8>)
        ensures
            bytes@ == self.raw.spec_raw_39(HashKind::Header.spec_prefix()),
    {
        self.raw.get_raw_39(&HashKind::Header.prefix())
    }
}

impl EntryHash {
    /// The 39 bytes of the hash: prefix, core, location.
    pub fn get_raw_39(&self) -> (bytes: Vec<u8>)
        ensures
            bytes@ == self.raw.spec_raw_39(HashKind::Entry.spec_prefix()),
    {
        self.raw.get_raw_39(&HashKind::Entry.prefix())
    }
}

impl DhtOpHash {
    /// The identity of an operation, from the serialized bytes of the form
    /// that makes it unique.
    pub fn with_data_sync(encoded_op: &[u8]) -> (hash: DhtOpHash)
        ensures
            hash.raw == hash_of_bytes(encoded_op@),
    {
        DhtOpHash { raw: RawHash::with_data(encoded_op) }
    }

    /// The 39 bytes of the hash: prefix, core, location.
    pub fn get_raw_39(&self) -> (bytes: Vec<u8>)
        ensures
            bytes@ == self.raw.spec_raw_39(HashKind::DhtOp.spec_prefix()),
    {
        self.raw.get_raw_39(&HashKind::DhtOp.prefix())
    }
}

impl AnyDhtHash {
    pub open spec fn spec_raw(&self) -> RawHash {
        match *self {
            AnyDhtHash::Header(h) => h.raw,
            AnyDhtHash::Entry(h) => h.raw,
        }
    }

    /// The 36 bytes of the hash, whichever kind it is.
    #[verifier::when_used_as_spec(spec_raw)]
    pub fn raw(&self) -> (raw: RawHash)
        ensures
            raw == self.spec_raw(),
    {
        match self {
            AnyDhtHash::Header(h) => h.raw,
            AnyDhtHash::Entry(h) => h.raw,
        }
    }
}

} // verus!
