use stewardship_integrity::{
    genesis_self_check, validate_agent_joining, Actant, Action, ActionHash, AgentPubKey,
    AnyLinkableHash, AppEntry, AppEntryDef, Clause, Create, Entry, EntryCreationAction, EntryHash,
    EntryType, EntryTypes, EntryVisibility, ExternalHash, MembraneProof, Record, RecordEntry,
    Resolution, Store, Timestamp, UnitEntryTypes, ValidateCallbackResult,
};
use stewardship_integrity::hash::same_bytes;
use stewardship_integrity::{Dependency, GenesisSelfCheckData};

fn hash(n: u8) -> ActionHash {
    ActionHash { raw: vec![n; 39] }
}

fn creation(entry_type: EntryType) -> Create {
    Create {
        author: AgentPubKey { raw: vec![1; 39] },
        timestamp: Timestamp(1),
        action_seq: 3,
        prev_action: hash(100),
        entry_type,
        entry_hash: EntryHash { raw: vec![2; 39] },
    }
}

fn actant_record(name: &str) -> Record {
    Record {
        action: Action::Create(creation(EntryType::App(AppEntryDef {
            entry_index: 0,
            zome_index: 0,
            visibility: EntryVisibility::Public,
        }))),
        entry: RecordEntry::Present(Entry::App(AppEntry::Known(EntryTypes::Actant(Actant {
            agents: vec![],
            name: name.to_string(),
        })))),
        link_type: None,
    }
}

#[test]
fn empty_store_holds_nothing() {
    let store = Store::new();
    assert_eq!(store.get_record(&hash(1)), None);
    assert_eq!(store.get_action(&hash(1)), None);
    assert_eq!(store.resolve(&hash(1), UnitEntryTypes::Actant), Resolution::Absent);
    assert!(!store.awaits_record(&hash(1)));
    assert!(!store.awaits_action(&hash(1)));
}

#[test]
fn store_hands_out_what_was_added() {
    let mut store = Store::new();
    store.insert_record(hash(1), actant_record("one"));
    store.insert_record(hash(2), actant_record("two"));
    assert_eq!(store.get_record(&hash(1)), Some(&actant_record("one")));
    assert_eq!(store.get_record(&hash(2)), Some(&actant_record("two")));
    assert_eq!(store.get_record(&hash(3)), None);
    assert_eq!(store.get_action(&hash(1)), None);
}

#[test]
fn later_addition_replaces_earlier_one() {
    let mut store = Store::new();
    store.insert_record(hash(1), actant_record("one"));
    store.insert_record(hash(2), actant_record("two"));
    store.insert_record(hash(1), actant_record("again"));
    assert_eq!(store.get_record(&hash(1)), Some(&actant_record("again")));
    assert_eq!(store.get_record(&hash(2)), Some(&actant_record("two")));
}

#[test]
fn actions_and_records_are_kept_apart() {
    let mut store = Store::new();
    store.insert_action(hash(1), Action::Dna);
    assert_eq!(store.get_action(&hash(1)), Some(&Action::Dna));
    assert_eq!(store.get_record(&hash(1)), None);
    store.insert_action(hash(1), Action::InitZomesComplete);
    assert_eq!(store.get_action(&hash(1)), Some(&Action::InitZomesComplete));
}

#[test]
fn addresses_are_told_apart_by_their_bytes() {
    let mut store = Store::new();
    store.insert_record(ActionHash { raw: vec![1, 2, 3] }, actant_record("short"));
    assert_eq!(store.get_record(&ActionHash { raw: vec![1, 2] }), None);
    assert_eq!(store.get_record(&ActionHash { raw: vec![1, 2, 4] }), None);
    assert_eq!(store.get_record(&ActionHash { raw: vec![1, 2, 3, 0] }), None);
    assert_eq!(
        store.get_record(&ActionHash { raw: vec![1, 2, 3] }),
        Some(&actant_record("short"))
    );
}

#[test]
fn same_bytes_compares_length_and_content() {
    assert!(same_bytes(&vec![], &vec![]));
    assert!(same_bytes(&vec![1, 2, 3], &vec![1, 2, 3]));
    assert!(!same_bytes(&vec![1, 2, 3], &vec![1, 2]));
    assert!(!same_bytes(&vec![1, 2, 3], &vec![1, 2, 4]));
    assert!(!same_bytes(&vec![0, 2, 3], &vec![1, 2, 3]));
    assert!(hash(4).same(&hash(4)));
    assert!(!hash(4).same(&hash(5)));
    assert_eq!(hash(4).duplicate(), hash(4));
}

#[test]
fn resolution_goes_by_the_kind_of_the_entry() {
    let mut store = Store::new();
    store.insert_record(hash(1), actant_record("one"));
    assert_eq!(store.resolve(&hash(1), UnitEntryTypes::Actant), Resolution::Found);
    assert_eq!(store.resolve(&hash(1), UnitEntryTypes::Clause), Resolution::WrongKind);
    assert_eq!(store.resolve(&hash(1), UnitEntryTypes::Report), Resolution::WrongKind);
    assert_eq!(store.resolve(&hash(1), UnitEntryTypes::Endorsement), Resolution::WrongKind);
    assert_eq!(store.resolve(&hash(2), UnitEntryTypes::Actant), Resolution::Absent);
    store.await_dependency(Dependency::ValidRecord(hash(2)));
    assert_eq!(store.resolve(&hash(2), UnitEntryTypes::Actant), Resolution::NotYetAvailable);
    store.await_dependency(Dependency::ValidRecord(hash(1)));
    assert_eq!(store.resolve(&hash(1), UnitEntryTypes::Actant), Resolution::Found);
    store.insert_record(hash(2), actant_record("two"));
    assert_eq!(store.resolve(&hash(2), UnitEntryTypes::Actant), Resolution::Found);
}

#[test]
fn store_awaits_what_it_was_told_to_await() {
    let mut store = Store::new();
    store.await_dependency(Dependency::ValidRecord(hash(1)));
    store.await_dependency(Dependency::Action(hash(2)));
    assert!(store.awaits_record(&hash(1)));
    assert!(!store.awaits_action(&hash(1)));
    assert!(store.awaits_action(&hash(2)));
    assert!(!store.awaits_record(&hash(2)));
    assert!(!store.awaits_record(&hash(3)));
    store.await_all(vec![
        Dependency::ValidRecord(hash(3)),
        Dependency::Action(hash(4)),
        Dependency::ValidRecord(hash(1)),
    ]);
    assert!(store.awaits_record(&hash(1)));
    assert!(store.awaits_record(&hash(3)));
    assert!(store.awaits_action(&hash(4)));
    assert!(store.awaits_action(&hash(2)));
    assert!(!store.awaits_action(&hash(3)));
    store.await_all(vec![]);
    assert!(store.awaits_record(&hash(3)));
    assert_eq!(store.get_record(&hash(1)), None);
    assert_eq!(store.get_action(&hash(2)), None);
}

#[test]
fn record_entry_readings() {
    let known = EntryTypes::Clause(Clause {
        statement: "s".to_string(),
        right_holders: vec![],
        responsibility_holders: vec![],
    });
    let plain = RecordEntry::Present(Entry::App(AppEntry::Known(known.clone())));
    assert_eq!(plain.to_app_option(), Some(&known));
    assert_eq!(plain.as_option(), Some(&Entry::App(AppEntry::Known(known.clone()))));
    assert_eq!(plain.resolution(UnitEntryTypes::Clause), Resolution::Found);
    assert_eq!(plain.resolution(UnitEntryTypes::Actant), Resolution::WrongKind);

    let countersigned = RecordEntry::Present(Entry::CounterSign(AppEntry::Known(known.clone())));
    assert_eq!(countersigned.to_app_option(), None);
    assert_eq!(countersigned.resolution(UnitEntryTypes::Clause), Resolution::WithoutEntry);
    assert_eq!(
        Entry::CounterSign(AppEntry::Known(known.clone())).app_entry(),
        Some(&AppEntry::Known(known.clone()))
    );
    assert_eq!(Entry::CapClaim.app_entry(), None);

    let foreign = RecordEntry::Present(Entry::App(AppEntry::Unknown));
    assert_eq!(foreign.to_app_option(), None);
    assert_eq!(foreign.resolution(UnitEntryTypes::Clause), Resolution::WrongKind);

    for absent in [RecordEntry::Hidden, RecordEntry::NA, RecordEntry::NotStored] {
        assert_eq!(absent.as_option(), None);
        assert_eq!(absent.to_app_option(), None);
        assert_eq!(absent.resolution(UnitEntryTypes::Clause), Resolution::WithoutEntry);
    }
    assert_eq!(known.to_unit(), UnitEntryTypes::Clause);
}

#[test]
fn entry_type_visibility() {
    assert_eq!(EntryType::AgentPubKey.visibility(), EntryVisibility::Public);
    assert_eq!(EntryType::CapClaim.visibility(), EntryVisibility::Private);
    assert_eq!(EntryType::CapGrant.visibility(), EntryVisibility::Private);
    let def = |visibility| EntryType::App(AppEntryDef { entry_index: 1, zome_index: 0, visibility });
    assert_eq!(def(EntryVisibility::Public).visibility(), EntryVisibility::Public);
    assert_eq!(def(EntryVisibility::Private).visibility(), EntryVisibility::Private);
    assert!(EntryVisibility::Public.is_public());
    assert!(!EntryVisibility::Private.is_public());
    assert_eq!(
        EntryCreationAction::Create(creation(EntryType::CapGrant)).entry_type(),
        EntryType::CapGrant
    );
}

#[test]
fn linkable_hash_into_action_hash() {
    assert_eq!(AnyLinkableHash::Action(hash(3)).into_action_hash(), Some(hash(3)));
    assert_eq!(
        AnyLinkableHash::Entry(EntryHash { raw: vec![3; 39] }).into_action_hash(),
        None
    );
    assert_eq!(
        AnyLinkableHash::External(ExternalHash { raw: vec![3; 39] }).into_action_hash(),
        None
    );
}

#[test]
fn joining_is_open() {
    let key = AgentPubKey { raw: vec![9; 39] };
    assert_eq!(validate_agent_joining(&key, &None), ValidateCallbackResult::Valid);
    assert_eq!(
        validate_agent_joining(&key, &Some(MembraneProof(vec![0]))),
        ValidateCallbackResult::Valid
    );
    assert_eq!(
        genesis_self_check(&GenesisSelfCheckData { membrane_proof: None, agent_key: key }),
        ValidateCallbackResult::Valid
    );
    assert_eq!(
        ValidateCallbackResult::invalid("no"),
        ValidateCallbackResult::Invalid("no".to_string())
    );
    assert!(ValidateCallbackResult::Valid.is_valid());
    assert!(!ValidateCallbackResult::invalid("no").is_valid());
}
