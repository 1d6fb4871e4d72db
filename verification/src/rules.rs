//! The rules of system validation.
//!
//! Each rule is a function of the values it is given. What a rule needs
//! from a store, a registry or the keystore, its caller reads first and
//! hands over.

use vstd::prelude::*;
use crate::chain::rollback_key;
use crate::chain::rollback_key_of;
use crate::chain::root_key;
use crate::chain::root_key_of;
use crate::chain::ChainItem;
use crate::chain::ChainItemKey;
use crate::entry::entry_hash_of;
use crate::entry::entry_matches_type;
use crate::entry::Entry;
use crate::entry::EntryDef;
use crate::entry::Zome;
use crate::error::rejected;
use crate::error::rejected_prev;
use crate::error::InfrastructureError;
use crate::error::PrevHeaderError;
use crate::error::SysValidationError;
use crate::error::SysValidationResult;
use crate::error::ValidationOutcome;
use crate::hash::hash_of_bytes;
use crate::hash::AgentPubKey;
use crate::hash::EntryHash;
use crate::hash::HeaderHash;
use crate::header::AppEntryType;
use crate::header::EntryType;
use crate::header::EntryVisibility;
use crate::header::Header;
use crate::header::LinkTag;
use crate::header::NewEntryHeader;
use crate::header::Update;

verus! {

/// The size that an app entry must stay under, in bytes.
pub const MAX_ENTRY_SIZE: usize = 16_000_000;

/// The size that a link tag must stay under, in bytes.
pub const MAX_TAG_SIZE: usize = 400;

/// What the keystore's answer means for validation: the answer itself, or
/// the keystore's failure.
pub open spec fn signature_rule(answer: Result<bool, InfrastructureError>) -> SysValidationResult<
    bool,
> {
    match answer {
        Ok(valid) => Ok(valid),
        Err(failure) => Err(SysValidationError::Infrastructure(failure)),
    }
}

/// Passes on what the keystore said of a header's signature. An invalid
/// signature is an answer, not an error.
pub fn verify_header_signature(answer: Result<bool, InfrastructureError>) -> (result:
    SysValidationResult<bool>)
    ensures
        result == signature_rule(answer),
{
    match answer {
        Ok(true) => Ok(true),
        Ok(false) => Ok(false),
        Err(failure) => Err(SysValidationError::Infrastructure(failure)),
    }
}

/// Whether the author's key was valid when it signed. No authority on
/// keys exists yet, so every key is.
pub fn author_key_is_valid(_author: &AgentPubKey) -> (result: SysValidationResult<bool>)
    ensures
        result == Ok::<bool, SysValidationError>(true),
{
    Ok(true)
}

/// The rule on the previous header: `Dna` needs none; every other header
/// stands above the root and names one.
pub open spec fn prev_header_rule(header: Header) -> SysValidationResult<()> {
    if header is Dna {
        Ok(())
    } else if header.spec_header_seq() == 0 {
        rejected_prev(PrevHeaderError::InvalidRoot)
    } else if header.spec_prev_header() is None {
        rejected_prev(PrevHeaderError::MissingPrev)
    } else {
        Ok(())
    }
}

/// Checks that the header has the previous header that its place asks for.
pub fn check_prev_header(header: &Header) -> (result: SysValidationResult<()>)
    ensures
        result == prev_header_rule(*header),
{
    match header {
        Header::Dna(_) => Ok(()),
        _ => {
            if header.header_seq() > 0 {
                match header.prev_header() {
                    Some(_) => Ok(()),
                    None => Err(
                        SysValidationError::ValidationOutcome(
                            ValidationOutcome::PrevHeaderError(PrevHeaderError::MissingPrev),
                        ),
                    ),
                }
            } else {
                Err(
                    SysValidationError::ValidationOutcome(
                        ValidationOutcome::PrevHeaderError(PrevHeaderError::InvalidRoot),
                    ),
                )
            }
        },
    }
}

/// Whether any of the recorded items is one that the key asks for.
pub open spec fn any_selected(activity: Seq<ChainItem>, key: ChainItemKey) -> bool {
    exists|i: int| 0 <= i < activity.len() && key.spec_selects(&#[trigger] activity[i])
}

/// The rule on the root of a chain: `Dna` is accepted only while nothing
/// is recorded of its author.
pub open spec fn valid_if_dna_rule(header: Header, activity: Seq<ChainItem>)
    -> SysValidationResult<()> {
    if header is Dna && any_selected(activity, root_key_of(header)) {
        rejected_prev(PrevHeaderError::InvalidRoot)
    } else {
        Ok(())
    }
}

/// Checks that a `Dna` header starts an empty chain. `activity` is what
/// the chain's metadata holds under the header's root key; items of other
/// agents among it do not count.
pub fn check_valid_if_dna(header: &Header, activity: &Vec<ChainItem>) -> (result:
    SysValidationResult<()>)
    ensures
        result == valid_if_dna_rule(*header, activity@),
{
    match header {
        Header::Dna(_) => {
            let key = root_key(header);
            let mut i: usize = 0;
            while i < activity.len()
                invariant
                    i <= activity.len(),
                    *header is Dna,
                    key == root_key_of(*header),
                    forall|j: int| 0 <= j < i ==> !key.spec_selects(&#[trigger] activity@[j]),
                decreases activity.len() - i,
            {
                if key.selects(&activity[i]) {
                    assert(key.spec_selects(&activity@[i as int]));
                    return Err(
                        SysValidationError::ValidationOutcome(
                            ValidationOutcome::PrevHeaderError(PrevHeaderError::InvalidRoot),
                        ),
                    );
                }
                i += 1;
            }
            Ok(())
        },
        _ => Ok(()),
    }
}

/// Whether the item stands in the way of the header whose hash is `own`:
/// the key asks for it, and it is another header.
pub open spec fn conflicts(item: ChainItem, key: ChainItemKey, own: HeaderHash) -> bool {
    key.spec_selects(&item) && item.header_hash != own
}

/// How many of the recorded items stand in the way of `own`.
pub open spec fn count_conflicts(activity: Seq<ChainItem>, key: ChainItemKey, own: HeaderHash) -> nat
    decreases activity.len(),
{
    if activity.len() == 0 {
        0
    } else {
        count_conflicts(activity.drop_last(), key, own) + if conflicts(activity.last(), key, own) {
            1nat
        } else {
            0nat
        }
    }
}

/// No more items are counted than are recorded.
pub proof fn count_conflicts_bounded(activity: Seq<ChainItem>, key: ChainItemKey, own: HeaderHash)
    ensures
        count_conflicts(activity, key, own) <= activity.len(),
    decreases activity.len(),
{
    if activity.len() > 0 {
        count_conflicts_bounded(activity.drop_last(), key, own);
    }
}

/// Counts the recorded items that the key asks for and that are not `own`.
pub fn count_other_headers(activity: &Vec<ChainItem>, key: &ChainItemKey, own: &HeaderHash) -> (count:
    usize)
    ensures
        count == count_conflicts(activity@, *key, *own),
{
    let mut count: usize = 0;
    let mut i: usize = 0;
    while i < activity.len()
        invariant
            i <= activity.len(),
            count <= i,
            count == count_conflicts(activity@.subrange(0, i as int), *key, *own),
        decreases activity.len() - i,
    {
        proof {
            assert(activity@.subrange(0, i + 1).drop_last() =~= activity@.subrange(0, i as int));
        }
        if key.selects(&activity[i]) && !activity[i].header_hash.raw.same_as(&own.raw) {
            count += 1;
        }
        i += 1;
    }
    proof {
        assert(activity@.subrange(0, i as int) =~= activity@);
    }
    count
}

/// What a look for rollbacks found: how many other headers stand at the
/// header's place, among the validated headers and among those awaiting
/// validation.
#[derive(Clone, Copy, Debug, PartialEq, Eq, Structural)]
pub struct ChainRollback {
    pub in_vault: usize,
    pub pending: usize,
}

impl ChainRollback {
    /// Whether any other header stands at the place.
    pub open spec fn spec_detected(&self) -> bool {
        self.in_vault > 0 || self.pending > 0
    }

    #[verifier::when_used_as_spec(spec_detected)]
    pub fn detected(&self) -> (detected: bool)
        ensures
            detected == self.spec_detected(),
    {
        self.in_vault > 0 || self.pending > 0
    }
}

/// The hash of the header whose serialized form is `encoded`.
pub open spec fn header_hash_of(encoded: Seq<u8>) -> HeaderHash {
    HeaderHash { raw: hash_of_bytes(encoded) }
}

/// What is recorded beside the header, whose serialized form is `encoded`,
/// at its place in its author's chain.
pub open spec fn chain_rollback_of(
    header: Header,
    encoded: Seq<u8>,
    vault: Seq<ChainItem>,
    pending: Seq<ChainItem>,
) -> ChainRollback {
    ChainRollback {
        in_vault: count_conflicts(vault, rollback_key_of(header), header_hash_of(encoded)) as usize,
        pending: count_conflicts(pending, rollback_key_of(header), header_hash_of(encoded)) as usize,
    }
}

/// Looks for other headers at the place of `header`, whose serialized form
/// the caller supplies in `encoded`: `vault` and `pending` are what is
/// recorded under the header's rollback key, among the validated headers
/// and among those awaiting validation. The rule refuses nothing yet: what
/// it found is returned for the caller to report.
pub fn check_chain_rollback(
    header: &Header,
    encoded: &[u8],
    vault: &Vec<ChainItem>,
    pending: &Vec<ChainItem>,
) -> (result: SysValidationResult<ChainRollback>)
    ensures
        result == Ok::<ChainRollback, SysValidationError>(
            chain_rollback_of(*header, encoded@, vault@, pending@),
        ),
        count_conflicts(vault@, rollback_key_of(*header), header_hash_of(encoded@)) <= vault@.len(),
        count_conflicts(pending@, rollback_key_of(*header), header_hash_of(encoded@))
            <= pending@.len(),
{
    let header_hash = HeaderHash::with_data_sync(encoded);
    let key = rollback_key(header);
    proof {
        count_conflicts_bounded(vault@, key, header_hash);
        count_conflicts_bounded(pending@, key, header_hash);
    }
    let in_vault = count_other_headers(vault, &key, &header_hash);
    let pending = count_other_headers(pending, &key, &header_hash);
    Ok(ChainRollback { in_vault, pending })
}

/// Whether the header is published too soon after others. Nothing is
/// limited yet, so every header passes.
pub fn check_spam(_header: &Header) -> (result: SysValidationResult<()>)
    ensures
        result == Ok::<(), SysValidationError>(()),
{
    Ok(())
}

/// The rule on time: a header is strictly later than the one before it.
pub open spec fn prev_timestamp_rule(header: Header, prev_header: Header) -> SysValidationResult<
    (),
> {
    if header.spec_timestamp().spec_is_after(&prev_header.spec_timestamp()) {
        Ok(())
    } else {
        rejected_prev(PrevHeaderError::Timestamp)
    }
}

/// Checks that the header is later than the one before it.
pub fn check_prev_timestamp(header: &Header, prev_header: &Header) -> (result: SysValidationResult<
    (),
>)
    ensures
        result == prev_timestamp_rule(*header, *prev_header),
{
    if header.timestamp().is_after(&prev_header.timestamp()) {
        Ok(())
    } else {
        Err(
            SysValidationError::ValidationOutcome(
                ValidationOutcome::PrevHeaderError(PrevHeaderError::Timestamp),
            ),
        )
    }
}

/// The rule on sequence numbers: a header stands one above the header
/// before it.
pub open spec fn prev_seq_rule(header: Header, prev_header: Header) -> SysValidationResult<()> {
    let header_seq = header.spec_header_seq();
    let prev_seq = prev_header.spec_header_seq();
    if header_seq == prev_seq + 1 {
        Ok(())
    } else {
        rejected_prev(PrevHeaderError::InvalidSeq(header_seq, prev_seq))
    }
}

/// Checks that the header stands one above the one before it.
pub fn check_prev_seq(header: &Header, prev_header: &Header) -> (result: SysValidationResult<()>)
    ensures
        result == prev_seq_rule(*header, *prev_header),
{
    let header_seq = header.header_seq();
    let prev_seq = prev_header.header_seq();
    if header_seq > 0 && prev_seq == header_seq - 1 {
        Ok(())
    } else {
        Err(
            SysValidationError::ValidationOutcome(
                ValidationOutcome::PrevHeaderError(
                    PrevHeaderError::InvalidSeq(header_seq, prev_seq),
                ),
            ),
        )
    }
}

/// The rule on entry types: the entry is of the kind that the header
/// declares.
pub open spec fn entry_type_rule(entry_type: EntryType, entry: Entry) -> SysValidationResult<()> {
    if entry_matches_type(entry_type, entry) {
        Ok(())
    } else {
        rejected(ValidationOutcome::EntryType)
    }
}

/// Checks that the entry is of the kind that the header declares.
pub fn check_entry_type(entry_type: &EntryType, entry: &Entry) -> (result: SysValidationResult<()>)
    ensures
        result == entry_type_rule(*entry_type, *entry),
{
    match (entry_type, entry) {
        (EntryType::AgentPubKey, Entry::Agent(_)) => Ok(()),
        (EntryType::App(_), Entry::App(_)) => Ok(()),
        (EntryType::CapClaim, Entry::CapClaim(_)) => Ok(()),
        (EntryType::CapGrant, Entry::CapGrant(_)) => Ok(()),
        _ => Err(SysValidationError::ValidationOutcome(ValidationOutcome::EntryType)),
    }
}

/// The rule on app entry types: the zome exists, it defines an entry type
/// at the declared index, and that definition has the declared visibility.
/// The result is the definition.
pub open spec fn app_entry_type_rule(entry_type: AppEntryType, zomes: Seq<Zome>)
    -> SysValidationResult<EntryDef> {
    if entry_type.zome_id >= zomes.len() {
        rejected(ValidationOutcome::ZomeId(entry_type))
    } else {
        let entry_defs = zomes[entry_type.zome_id as int].entry_defs@;
        if entry_type.id >= entry_defs.len() {
            rejected(ValidationOutcome::EntryDefId(entry_type))
        } else if entry_defs[entry_type.id as int].visibility != entry_type.visibility {
            rejected(ValidationOutcome::EntryVisibility(entry_type))
        } else {
            Ok(entry_defs[entry_type.id as int])
        }
    }
}

/// Checks an app entry type against the zomes of the DNA, given in the
/// order of their indices.
pub fn check_app_entry_type(entry_type: &AppEntryType, zomes: &Vec<Zome>) -> (result:
    SysValidationResult<EntryDef>)
    ensures
        result == app_entry_type_rule(*entry_type, zomes@),
{
    let zome_index = entry_type.zome_id as usize;
    if zome_index >= zomes.len() {
        return Err(SysValidationError::ValidationOutcome(ValidationOutcome::ZomeId(*entry_type)));
    }
    let zome = &zomes[zome_index];
    let def_index = entry_type.id as usize;
    if def_index >= zome.entry_defs.len() {
        return Err(
            SysValidationError::ValidationOutcome(ValidationOutcome::EntryDefId(*entry_type)),
        );
    }
    let entry_def = zome.entry_defs[def_index];
    if entry_def.visibility == entry_type.visibility {
        Ok(entry_def)
    } else {
        Err(SysValidationError::ValidationOutcome(ValidationOutcome::EntryVisibility(*entry_type)))
    }
}

/// The rule on private entries: only a public entry may be stored as an
/// entry of its own.
pub open spec fn not_private_rule(entry_def: EntryDef) -> SysValidationResult<()> {
    match entry_def.visibility {
        EntryVisibility::Public => Ok(()),
        EntryVisibility::Private => rejected(ValidationOutcome::PrivateEntry),
    }
}

/// Checks that the entry definition is public.
pub fn check_not_private(entry_def: &EntryDef) -> (result: SysValidationResult<()>)
    ensures
        result == not_private_rule(*entry_def),
{
    match entry_def.visibility {
        EntryVisibility::Public => Ok(()),
        EntryVisibility::Private => Err(
            SysValidationError::ValidationOutcome(ValidationOutcome::PrivateEntry),
        ),
    }
}

/// The rule on entry hashes: the declared hash is the hash of the entry.
pub open spec fn entry_hash_rule(hash: EntryHash, entry: Entry, encoded: Seq<u8>)
    -> SysValidationResult<()> {
    if hash == entry_hash_of(entry, encoded) {
        Ok(())
    } else {
        rejected(ValidationOutcome::EntryHash)
    }
}

/// Checks the hash that a header declares against the entry, whose
/// serialized form the caller supplies in `encoded`.
pub fn check_entry_hash(hash: &EntryHash, entry: &Entry, encoded: &[u8]) -> (result:
    SysValidationResult<()>)
    ensures
        result == entry_hash_rule(*hash, *entry, encoded@),
{
    let computed = EntryHash::with_data_sync(entry, encoded);
    if hash.raw.same_as(&computed.raw) {
        Ok(())
    } else {
        Err(SysValidationError::ValidationOutcome(ValidationOutcome::EntryHash))
    }
}

/// The rule on headers that must bring an entry: only `Create` and
/// `Update` do.
pub open spec fn new_entry_header_rule(header: Header) -> SysValidationResult<()> {
    if header is Create || header is Update {
        Ok(())
    } else {
        rejected(ValidationOutcome::NotNewEntry(header.spec_header_type()))
    }
}

/// Checks that the header is of a kind that brings an entry.
pub fn check_new_entry_header(header: &Header) -> (result: SysValidationResult<()>)
    ensures
        result == new_entry_header_rule(*header),
{
    match header {
        Header::Create(_) | Header::Update(_) => Ok(()),
        _ => Err(
            SysValidationError::ValidationOutcome(
                ValidationOutcome::NotNewEntry(header.header_type()),
            ),
        ),
    }
}

/// The rule on entry sizes: the content of an app entry stays under
/// `MAX_ENTRY_SIZE`; the other kinds are small.
pub open spec fn entry_size_rule(entry: Entry) -> SysValidationResult<()> {
    if entry.spec_app_size() < MAX_ENTRY_SIZE {
        Ok(())
    } else {
        rejected(ValidationOutcome::EntryTooLarge(entry.spec_app_size() as usize, MAX_ENTRY_SIZE))
    }
}

/// Checks that the entry is under the size limit.
pub fn check_entry_size(entry: &Entry) -> (result: SysValidationResult<()>)
    ensures
        result == entry_size_rule(*entry),
{
    match entry {
        Entry::App(bytes) => {
            let size = bytes.0.len();
            if size < MAX_ENTRY_SIZE {
                Ok(())
            } else {
                Err(
                    SysValidationError::ValidationOutcome(
                        ValidationOutcome::EntryTooLarge(size, MAX_ENTRY_SIZE),
                    ),
                )
            }
        },
        _ => Ok(()),
    }
}

/// The rule on tag sizes: a link tag stays under `MAX_TAG_SIZE`.
pub open spec fn tag_size_rule(tag: LinkTag) -> SysValidationResult<()> {
    if tag.0@.len() < MAX_TAG_SIZE {
        Ok(())
    } else {
        rejected(ValidationOutcome::TagTooLarge(tag.0@.len() as usize, MAX_TAG_SIZE))
    }
}

/// Checks that the link tag is under the size limit.
pub fn check_tag_size(tag: &LinkTag) -> (result: SysValidationResult<()>)
    ensures
        result == tag_size_rule(*tag),
{
    let size = tag.0.len();
    if size < MAX_TAG_SIZE {
        Ok(())
    } else {
        Err(
            SysValidationError::ValidationOutcome(
                ValidationOutcome::TagTooLarge(size, MAX_TAG_SIZE),
            ),
        )
    }
}

/// The rule on updates: an update declares the entry type of the header
/// that it updates.
pub open spec fn update_reference_rule(update: Update, original: NewEntryHeader)
    -> SysValidationResult<()> {
    if update.entry_type == original.spec_entry_type() {
        Ok(())
    } else {
        rejected(
            ValidationOutcome::UpdateTypeMismatch(update.entry_type, original.spec_entry_type()),
        )
    }
}

/// Checks that an update keeps the entry type of what it updates.
pub fn check_update_reference(eu: &Update, original_entry_header: &NewEntryHeader) -> (result:
    SysValidationResult<()>)
    ensures
        result == update_reference_rule(*eu, *original_entry_header),
{
    let original_type = original_entry_header.entry_type();
    if eu.entry_type == original_type {
        Ok(())
    } else {
        Err(
            SysValidationError::ValidationOutcome(
                ValidationOutcome::UpdateTypeMismatch(eu.entry_type, original_type),
            ),
        )
    }
}

} // verus!
