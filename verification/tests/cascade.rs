use sys_validate::cascade::{
    check_and_hold, check_and_hold_any_store_entry, check_and_hold_register_add_link,
    check_and_hold_register_agent_activity, check_and_hold_store_element,
    check_and_hold_store_entry, asks_network, hold_and_check, hold_checked, Held, OpKind,
    Provenance, Source, ValidationEvent, ValidationState,
};
use sys_validate::dht_op::{
    make_register_add_link, make_register_agent_activity, make_store_element, make_store_entry,
    DhtOp,
};
use sys_validate::element::{Element, ElementEntry, Signature, SignedHeaderHashed};
use sys_validate::entry::{AppEntryBytes, Entry, EntryDef};
use sys_validate::error::{InfrastructureError, SysValidationError, ValidationOutcome};
use sys_validate::hash::{
    bytes_equal, AgentPubKey, AnyDhtHash, DhtOpHash, DnaHash, EntryHash, HashKind, HeaderHash,
    RawHash,
};
use sys_validate::header::{
    ChainLink, Create, CreateLink, Dna, EntryType, EntryVisibility, Header, LinkTag,
    NewEntryHeader, Timestamp, Update,
};
use sys_validate::p2p::{
    GetLinks, GetOptions, GetValidationPackage, HolochainP2pCell, HolochainP2pSender,
};
use sys_validate::rules::{check_not_private, check_update_reference};

fn filled(byte: u8) -> RawHash {
    RawHash { core: [byte; 32], loc: [byte; 4] }
}

fn chain_link(seq: u32) -> ChainLink {
    ChainLink {
        author: AgentPubKey { raw: filled(1) },
        timestamp: Timestamp { secs: 100, nanos: 7 },
        header_seq: seq,
        prev_header: Some(HeaderHash { raw: filled(2) }),
    }
}

fn create_header(entry_type: EntryType) -> Create {
    Create { link: chain_link(3), entry_type, entry_hash: EntryHash { raw: filled(3) } }
}

fn update_header(entry_type: EntryType) -> Update {
    Update {
        link: chain_link(4),
        original_header_address: HeaderHash { raw: filled(11) },
        original_entry_address: EntryHash { raw: filled(12) },
        entry_type,
        entry_hash: EntryHash { raw: filled(13) },
    }
}

fn link_header() -> CreateLink {
    CreateLink {
        link: chain_link(5),
        base_address: EntryHash { raw: filled(4) },
        target_address: EntryHash { raw: filled(5) },
        zome_id: 2,
        tag: LinkTag(vec![9, 9]),
    }
}

fn dna_header() -> Header {
    Header::Dna(Dna {
        author: AgentPubKey { raw: filled(1) },
        timestamp: Timestamp { secs: 1, nanos: 0 },
        hash: DnaHash { raw: filled(6) },
    })
}

fn signature() -> Signature {
    Signature([0xAB; 64])
}

fn element(header: Header, entry: ElementEntry) -> Element {
    Element::new(
        SignedHeaderHashed { header, hash: HeaderHash { raw: filled(7) }, signature: signature() },
        entry,
    )
}

fn app_entry() -> Entry {
    Entry::App(AppEntryBytes(vec![1, 2, 3, 4]))
}

fn op_hash(encoded: &[u8]) -> DhtOpHash {
    DhtOpHash::with_data_sync(encoded)
}

fn not_holding<T>(hash: AnyDhtHash) -> Result<T, SysValidationError> {
    Err(SysValidationError::ValidationOutcome(ValidationOutcome::NotHoldingDep(hash)))
}

#[test]
fn digest_of_nothing_is_the_known_one() {
    let expected: [u8; 32] = [
        0x0e, 0x57, 0x51, 0xc0, 0x26, 0xe5, 0x43, 0xb2, 0xe8, 0xab, 0x2e, 0xb0, 0x60, 0x99, 0xda,
        0xa1, 0xd1, 0xe5, 0xdf, 0x47, 0x77, 0x8f, 0x77, 0x87, 0xfa, 0xab, 0x45, 0xcd, 0xf1, 0x2f,
        0xe3, 0xa8,
    ];
    assert_eq!(RawHash::with_data(&[]).core, expected);
    assert_eq!(op_hash(&[]).raw.core, expected);
    assert_ne!(RawHash::with_data(&[0]).core, expected);
}

#[test]
fn location_of_a_known_core() {
    let hash = HeaderHash { raw: RawHash::from_core([0xdb; 32]) };
    assert_eq!(hash.raw.loc, [0x93, 0xa7, 0x92, 0x2f]);
    let mut expected = vec![0x84, 0x29, 0x24];
    expected.extend_from_slice(&[0xdb; 32]);
    expected.extend_from_slice(&[0x93, 0xa7, 0x92, 0x2f]);
    assert_eq!(hash.get_raw_39(), expected);
}

#[test]
fn hashes_agree_with_the_hashing_crate() {
    let data = b"a header in its serialized form";
    let core = holo_hash::encode::blake2b_256(data);
    assert_eq!(
        HeaderHash::with_data_sync(data).get_raw_39(),
        holo_hash::ActionHash::from_raw_32(core.clone()).get_raw_39().to_vec()
    );
    assert_eq!(
        DhtOpHash::with_data_sync(data).get_raw_39(),
        holo_hash::DhtOpHash::from_raw_32(core.clone()).get_raw_39().to_vec()
    );
    let raw = RawHash::with_data(data);
    assert_eq!(
        AgentPubKey { raw }.get_raw_39(),
        holo_hash::AgentPubKey::from_raw_32(core.clone()).get_raw_39().to_vec()
    );
    assert_eq!(
        DnaHash { raw }.get_raw_39(),
        holo_hash::DnaHash::from_raw_32(core.clone()).get_raw_39().to_vec()
    );
    assert_eq!(
        EntryHash { raw }.get_raw_39(),
        holo_hash::EntryHash::from_raw_32(core).get_raw_39().to_vec()
    );
}

#[test]
fn prefixes_tell_the_kinds_apart() {
    assert_eq!(HashKind::Agent.prefix(), [0x84, 0x20, 0x24]);
    assert_eq!(HashKind::Entry.prefix(), [0x84, 0x21, 0x24]);
    assert_eq!(HashKind::DhtOp.prefix(), [0x84, 0x24, 0x24]);
    assert_eq!(HashKind::Header.prefix(), [0x84, 0x29, 0x24]);
    assert_eq!(HashKind::Dna.prefix(), [0x84, 0x2d, 0x24]);
}

#[test]
fn bytes_are_compared_one_by_one() {
    assert!(bytes_equal(&[1u8, 2, 3], &[1u8, 2, 3]));
    assert!(!bytes_equal(&[1u8, 2, 3], &[1u8, 2, 4]));
    assert!(!bytes_equal(&[0u8, 2, 3], &[1u8, 2, 3]));
    assert!(bytes_equal::<0>(&[], &[]));
    assert!(filled(3).same_as(&filled(3)));
    assert!(!filled(3).same_as(&filled(4)));
    let any = AnyDhtHash::Entry(EntryHash { raw: filled(8) });
    assert_eq!(any.raw(), filled(8));
    assert_eq!(AnyDhtHash::Header(HeaderHash { raw: filled(9) }).raw(), filled(9));
}

#[test]
fn store_element_keeps_a_present_entry() {
    let header = Header::Create(create_header(EntryType::CapClaim));
    let made = make_store_element(element(header.clone(), ElementEntry::Present(app_entry())), &[5]);
    assert_eq!(
        made,
        Some((op_hash(&[5]), DhtOp::StoreElement(signature(), header, Some(app_entry()))))
    );
}

#[test]
fn store_element_without_entry() {
    let header = Header::Create(create_header(EntryType::CapClaim));
    for entry in [ElementEntry::NotApplicable, ElementEntry::Hidden] {
        let made = make_store_element(element(header.clone(), entry), &[5, 6]);
        assert_eq!(
            made,
            Some((op_hash(&[5, 6]), DhtOp::StoreElement(signature(), header.clone(), None)))
        );
    }
    let made = make_store_element(element(dna_header(), ElementEntry::NotApplicable), &[1]);
    assert_eq!(made, Some((op_hash(&[1]), DhtOp::StoreElement(signature(), dna_header(), None))));
}

#[test]
fn store_element_is_not_derived_from_an_entry_that_was_not_stored() {
    let header = Header::Create(create_header(EntryType::CapClaim));
    assert_eq!(make_store_element(element(header, ElementEntry::NotStored), &[5]), None);
}

#[test]
fn store_element_twice_gives_the_same() {
    let header = Header::Update(update_header(EntryType::CapGrant));
    let el = element(header, ElementEntry::Present(app_entry()));
    let first = make_store_element(el.clone(), &[1, 2, 3]);
    let second = make_store_element(el, &[1, 2, 3]);
    assert!(first.is_some());
    assert_eq!(first, second);
    let (first_hash, _) = first.unwrap();
    let (second_hash, _) = second.unwrap();
    assert_eq!(first_hash.get_raw_39(), second_hash.get_raw_39());
}

#[test]
fn store_entry_needs_entry_and_new_entry_header() {
    let create = create_header(EntryType::CapClaim);
    let made =
        make_store_entry(element(Header::Create(create), ElementEntry::Present(app_entry())), &[7]);
    assert_eq!(
        made,
        Some((
            op_hash(&[7]),
            DhtOp::StoreEntry(signature(), NewEntryHeader::Create(create), app_entry())
        ))
    );
    let update = update_header(EntryType::CapClaim);
    let made =
        make_store_entry(element(Header::Update(update), ElementEntry::Present(app_entry())), &[7]);
    assert_eq!(
        made,
        Some((
            op_hash(&[7]),
            DhtOp::StoreEntry(signature(), NewEntryHeader::Update(update), app_entry())
        ))
    );
    for entry in [ElementEntry::NotApplicable, ElementEntry::Hidden, ElementEntry::NotStored] {
        assert_eq!(make_store_entry(element(Header::Create(create), entry), &[7]), None);
    }
    assert_eq!(
        make_store_entry(element(dna_header(), ElementEntry::Present(app_entry())), &[7]),
        None
    );
    assert_eq!(
        make_store_entry(
            element(Header::CreateLink(link_header()), ElementEntry::Present(app_entry())),
            &[7]
        ),
        None
    );
}

#[test]
fn register_add_link_needs_a_link_header() {
    let made = make_register_add_link(
        element(Header::CreateLink(link_header()), ElementEntry::NotApplicable),
        &[8],
    );
    assert_eq!(made, Some((op_hash(&[8]), DhtOp::RegisterAddLink(signature(), link_header()))));
    let create = Header::Create(create_header(EntryType::CapClaim));
    assert_eq!(
        make_register_add_link(element(create, ElementEntry::Present(app_entry())), &[8]),
        None
    );
    assert_eq!(
        make_register_add_link(element(dna_header(), ElementEntry::NotApplicable), &[8]),
        None
    );
}

#[test]
fn register_agent_activity_is_always_derived() {
    for entry in [
        ElementEntry::NotApplicable,
        ElementEntry::Hidden,
        ElementEntry::NotStored,
        ElementEntry::Present(app_entry()),
    ] {
        let made = make_register_agent_activity(element(dna_header(), entry), &[9]);
        assert_eq!(
            made,
            Some((op_hash(&[9]), DhtOp::RegisterAgentActivity(signature(), dna_header())))
        );
    }
}

#[test]
fn element_comes_apart() {
    let el = element(dna_header(), ElementEntry::Present(app_entry()));
    let (signed, entry) = el.into_inner();
    assert_eq!(signed.header, dna_header());
    assert_eq!(signed.signature, signature());
    assert_eq!(entry.clone().into_option(), Some(app_entry()));
    assert_eq!(ElementEntry::NotStored.into_option(), None);
    assert_eq!(ElementEntry::Hidden.into_option(), None);
    assert_eq!(ElementEntry::NotApplicable.into_option(), None);
}

#[test]
fn local_store_comes_before_the_network() {
    let hash = AnyDhtHash::Header(HeaderHash { raw: filled(7) });
    let here = element(dna_header(), ElementEntry::NotApplicable);
    let there = element(Header::CreateLink(link_header()), ElementEntry::NotApplicable);
    assert_eq!(
        check_and_hold(hash, Some(here.clone()), Some(there.clone())),
        Ok(Source::Local(here.clone()))
    );
    assert_eq!(check_and_hold(hash, Some(here.clone()), None), Ok(Source::Local(here.clone())));
    assert_eq!(check_and_hold(hash, None, Some(there.clone())), Ok(Source::Network(there.clone())));
    assert_eq!(check_and_hold(hash, None, None), not_holding(hash));
    assert_eq!(Source::Local(here.clone()).as_ref(), &here);
    assert_eq!(Source::Network(there.clone()).as_ref(), &there);
    assert_eq!(Source::Local(here).provenance(), Provenance::Local);
    assert_eq!(Source::Network(there).provenance(), Provenance::Network);
}

#[test]
fn dependency_held_nowhere_is_not_held() {
    let header_hash = HeaderHash { raw: filled(7) };
    let entry_hash = EntryHash { raw: filled(8) };
    let pass = |_: &Element| Ok(());
    assert_eq!(
        check_and_hold_store_element(&header_hash, None, None, Some(&[1]), pass),
        not_holding(AnyDhtHash::Header(header_hash))
    );
    assert_eq!(
        check_and_hold_store_entry(&header_hash, None, None, Some(&[1]), pass),
        not_holding(AnyDhtHash::Header(header_hash))
    );
    assert_eq!(
        check_and_hold_register_add_link(&header_hash, None, None, Some(&[1]), pass),
        not_holding(AnyDhtHash::Header(header_hash))
    );
    assert_eq!(
        check_and_hold_register_agent_activity(&header_hash, None, None, None, pass),
        not_holding(AnyDhtHash::Header(header_hash))
    );
    assert_eq!(
        check_and_hold_any_store_entry(&entry_hash, None, None, Some(&[1]), pass),
        not_holding(AnyDhtHash::Entry(entry_hash))
    );
}

#[test]
fn dependency_held_here_is_not_handed_on() {
    let header_hash = HeaderHash { raw: filled(7) };
    let here = element(Header::CreateLink(link_header()), ElementEntry::NotApplicable);
    let held = Held { provenance: Provenance::Local, ingest: None };
    let there = element(dna_header(), ElementEntry::NotApplicable);
    assert_eq!(
        check_and_hold_register_add_link(
            &header_hash,
            Some(here.clone()),
            Some(there),
            Some(&[1]),
            |found: &Element| {
                assert_eq!(found.signed_header.header, Header::CreateLink(link_header()));
                Ok(())
            }
        ),
        Ok(held.clone())
    );
    assert_eq!(
        check_and_hold_store_element(&header_hash, Some(here), None, Some(&[1]), |_: &Element| Ok(
            ()
        )),
        Ok(held)
    );
}

#[test]
fn dependency_from_the_network_is_handed_on_once() {
    let header_hash = HeaderHash { raw: filled(7) };
    let entry_hash = EntryHash { raw: filled(3) };
    let create = create_header(EntryType::CapClaim);
    let there = element(Header::Create(create), ElementEntry::Present(app_entry()));
    let pass = |_: &Element| Ok(());
    assert_eq!(
        check_and_hold_store_element(&header_hash, None, Some(there.clone()), Some(&[1]), pass),
        Ok(Held {
            provenance: Provenance::Network,
            ingest: Some((
                op_hash(&[1]),
                DhtOp::StoreElement(signature(), Header::Create(create), Some(app_entry()))
            )),
        })
    );
    let store_entry = Some((
        op_hash(&[2]),
        DhtOp::StoreEntry(signature(), NewEntryHeader::Create(create), app_entry()),
    ));
    assert_eq!(
        check_and_hold_store_entry(&header_hash, None, Some(there.clone()), Some(&[2]), pass),
        Ok(Held { provenance: Provenance::Network, ingest: store_entry.clone() })
    );
    assert_eq!(
        check_and_hold_any_store_entry(&entry_hash, None, Some(there.clone()), Some(&[2]), pass),
        Ok(Held { provenance: Provenance::Network, ingest: store_entry })
    );
    assert_eq!(
        check_and_hold_register_agent_activity(
            &header_hash,
            None,
            Some(there.clone()),
            Some(&[3]),
            pass
        ),
        Ok(Held {
            provenance: Provenance::Network,
            ingest: Some((
                op_hash(&[3]),
                DhtOp::RegisterAgentActivity(signature(), Header::Create(create))
            )),
        })
    );
    assert_eq!(
        check_and_hold_register_add_link(&header_hash, None, Some(there.clone()), Some(&[4]), pass),
        Ok(Held { provenance: Provenance::Network, ingest: None })
    );
    assert_eq!(
        check_and_hold_store_element(&header_hash, None, Some(there), None, pass),
        Ok(Held { provenance: Provenance::Network, ingest: None })
    );
}

#[test]
fn element_that_cannot_be_derived_is_passed_over_in_silence() {
    let header_hash = HeaderHash { raw: filled(7) };
    let create = Header::Create(create_header(EntryType::CapClaim));
    let there = element(create, ElementEntry::NotStored);
    assert_eq!(
        check_and_hold_store_element(&header_hash, None, Some(there), Some(&[1]), |_: &Element| {
            Ok(())
        }),
        Ok(Held { provenance: Provenance::Network, ingest: None })
    );
}

#[test]
fn failed_check_ends_the_attempt() {
    let header_hash = HeaderHash { raw: filled(7) };
    let there = element(dna_header(), ElementEntry::NotApplicable);
    let refuse = |_: &Element| {
        Err(SysValidationError::ValidationOutcome(ValidationOutcome::EntryType))
    };
    assert_eq!(
        check_and_hold_store_element(&header_hash, None, Some(there.clone()), Some(&[1]), refuse),
        Err(SysValidationError::ValidationOutcome(ValidationOutcome::EntryType))
    );
    assert_eq!(
        check_and_hold_register_agent_activity(&header_hash, Some(there), None, Some(&[1]), refuse),
        Err(SysValidationError::ValidationOutcome(ValidationOutcome::EntryType))
    );
}

#[test]
fn private_entry_is_kept_from_store_entry_only() {
    let header_hash = HeaderHash { raw: filled(7) };
    let private = EntryDef { visibility: EntryVisibility::Private, required_validations: 5 };
    let create = create_header(EntryType::CapClaim);
    let there = element(Header::Create(create), ElementEntry::Present(app_entry()));
    assert_eq!(
        check_and_hold_store_entry(
            &header_hash,
            None,
            Some(there.clone()),
            Some(&[1]),
            |_: &Element| check_not_private(&private)
        ),
        Err(SysValidationError::ValidationOutcome(ValidationOutcome::PrivateEntry))
    );
    let stored = check_and_hold_store_element(
        &header_hash,
        None,
        Some(there),
        Some(&[1]),
        |_: &Element| Ok(()),
    );
    assert_eq!(stored.map(|held| held.provenance), Ok(Provenance::Network));
}

#[test]
fn update_awaits_its_original_and_then_passes() {
    let original = create_header(EntryType::CapClaim);
    let original_hash = HeaderHash { raw: filled(11) };
    let update = update_header(EntryType::CapClaim);
    assert_eq!(update.original_header_address, original_hash);
    let on_network = element(Header::Create(original), ElementEntry::Present(app_entry()));
    let check = |found: &Element| match found.signed_header.header.clone().into_new_entry_header()
    {
        Some(header) => check_update_reference(&update, &header),
        None => Err(SysValidationError::ValidationOutcome(ValidationOutcome::EntryType)),
    };

    let first = check_and_hold_store_entry(
        &original_hash,
        None,
        Some(on_network.clone()),
        Some(&[1, 2]),
        check,
    );
    let held = first.clone().unwrap();
    let state = ValidationState::Pending
        .step(ValidationEvent::Attempted(first.map(|held| held.provenance)));
    assert_eq!(state, ValidationState::AwaitingDependency);
    let submitted: Vec<(DhtOpHash, DhtOp)> = held.ingest.into_iter().collect();
    assert_eq!(
        submitted,
        vec![(
            op_hash(&[1, 2]),
            DhtOp::StoreEntry(signature(), NewEntryHeader::Create(original), app_entry())
        )]
    );

    let state = state.step(ValidationEvent::DependencyArrived);
    assert_eq!(state, ValidationState::Pending);
    let second =
        check_and_hold_store_entry(&original_hash, Some(on_network), None, Some(&[1, 2]), check);
    assert_eq!(second, Ok(Held { provenance: Provenance::Local, ingest: None }));
    let state = state.step(ValidationEvent::Attempted(second.map(|held| held.provenance)));
    assert_eq!(state, ValidationState::Valid);
}

#[test]
fn states_follow_the_attempts() {
    let missing = ValidationOutcome::NotHoldingDep(AnyDhtHash::Entry(EntryHash { raw: filled(1) }));
    let attempt = |result| ValidationEvent::Attempted(result);
    let pending = ValidationState::Pending;
    assert_eq!(pending.step(attempt(Ok(Provenance::Local))), ValidationState::Valid);
    assert_eq!(pending.step(attempt(Ok(Provenance::Network))), ValidationState::AwaitingDependency);
    assert_eq!(
        pending.step(attempt(Err(SysValidationError::ValidationOutcome(missing)))),
        ValidationState::AwaitingDependency
    );
    assert_eq!(
        pending.step(attempt(Err(SysValidationError::ValidationOutcome(
            ValidationOutcome::PrivateEntry
        )))),
        ValidationState::Invalid(ValidationOutcome::PrivateEntry)
    );
    assert_eq!(
        pending.step(attempt(Err(SysValidationError::Infrastructure(
            InfrastructureError::Database
        )))),
        ValidationState::Pending
    );
    assert_eq!(pending.step(ValidationEvent::DependencyArrived), ValidationState::Pending);
    assert_eq!(
        ValidationState::AwaitingDependency.step(attempt(Ok(Provenance::Local))),
        ValidationState::AwaitingDependency
    );
    assert_eq!(
        ValidationState::Valid.step(ValidationEvent::DependencyArrived),
        ValidationState::Valid
    );
    let invalid = ValidationState::Invalid(ValidationOutcome::EntryHash);
    assert_eq!(invalid.step(attempt(Ok(Provenance::Local))), invalid);
    assert!(missing.is_retryable());
    assert!(!ValidationOutcome::EntryHash.is_retryable());
}

#[test]
fn get_options_default_to_a_race() {
    assert_eq!(
        GetOptions::default(),
        GetOptions {
            remote_agent_count: None,
            timeout_ms: None,
            as_race: true,
            race_timeout_ms: None,
            follow_redirects: true,
        }
    );
}

#[test]
fn sender_is_bound_to_a_cell() {
    let sender = HolochainP2pSender { channel: 4 };
    let dna_hash = DnaHash { raw: filled(1) };
    let from_agent = AgentPubKey { raw: filled(2) };
    let expected = HolochainP2pCell { sender, dna_hash, from_agent };
    assert_eq!(sender.to_cell(dna_hash, from_agent), expected);
    assert_eq!(sender.into_cell(dna_hash, from_agent), expected);
    let package = GetValidationPackage { dna_hash, agent_pub_key: from_agent };
    let links = GetLinks { dna_hash, agent_pub_key: from_agent };
    assert_eq!(package.dna_hash, links.dna_hash);
    assert_eq!(package.agent_pub_key, links.agent_pub_key);
}

#[test]
fn checked_dependency_is_held_or_refused() {
    let create = create_header(EntryType::CapClaim);
    let found = element(Header::Create(create), ElementEntry::Present(app_entry()));
    let refusal = SysValidationError::ValidationOutcome(ValidationOutcome::EntryHash);
    assert_eq!(
        hold_checked(
            OpKind::StoreEntry,
            Source::Network(found.clone()),
            Err(refusal),
            Some(&[1])
        ),
        Err(refusal)
    );
    assert_eq!(
        hold_checked(OpKind::StoreEntry, Source::Local(found.clone()), Err(refusal), None),
        Err(refusal)
    );
    assert_eq!(
        hold_checked(OpKind::StoreEntry, Source::Local(found.clone()), Ok(()), Some(&[1])),
        Ok(Held { provenance: Provenance::Local, ingest: None })
    );
    assert_eq!(
        hold_checked(OpKind::StoreEntry, Source::Network(found.clone()), Ok(()), None),
        Ok(Held { provenance: Provenance::Network, ingest: None })
    );
    assert_eq!(
        hold_checked(OpKind::StoreEntry, Source::Network(found.clone()), Ok(()), Some(&[1])),
        Ok(Held {
            provenance: Provenance::Network,
            ingest: Some((
                op_hash(&[1]),
                DhtOp::StoreEntry(signature(), NewEntryHeader::Create(create), app_entry())
            )),
        })
    );
    assert_eq!(
        hold_checked(OpKind::RegisterAddLink, Source::Network(found), Ok(()), Some(&[1])),
        Ok(Held { provenance: Provenance::Network, ingest: None })
    );
}

#[test]
fn network_is_asked_only_after_a_local_miss() {
    assert!(asks_network(&None));
    assert!(!asks_network(&Some(element(dna_header(), ElementEntry::NotApplicable))));
    let hash = AnyDhtHash::Entry(EntryHash { raw: filled(3) });
    assert_eq!(
        hold_and_check(OpKind::StoreElement, hash, None, None, None, |_: &Element| Ok(())),
        not_holding(hash)
    );
}
