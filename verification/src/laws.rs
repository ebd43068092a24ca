//! What holds of the rules, whatever the operation and whatever the store.

use vstd::prelude::*;
use crate::action::{Create, Delete, DeleteLink, Update};
use crate::clause::{create_clause_verdict, holders_verdict, Clause};
use crate::dependency::{dependant_verdict, linked_verdict};
use crate::dispatch::{
    create_link_verdict, create_verdict, delete_link_verdict, delete_verdict, dependencies,
    entry_dependencies, known_entry, link_dependencies, linked_dependencies, operation_verdict,
    stored_delete_verdict, stored_update_verdict, update_verdict,
};
use crate::endorsement::{create_endorsement_verdict, Endorsement};
use crate::hash::{ActionHash, AnyLinkableHash};
use crate::links::{current_revision, is_latest, Link};
use crate::op::{FlatOp, OpEntry, OpRecord, Operation, OriginalEntry, OriginalLink};
use crate::record::Resolution;
use crate::report::{create_report_verdict, Report};
use crate::store::Holdings;
use crate::verdict::{Verdict, Wanted};
use crate::{validate_verdict, EntryTypes, LinkTypes, UnitEntryTypes};

verus! {

/// Whether every hash of `holders` resolves to an actant.
pub open spec fn all_resolve_to_actants(holders: Seq<ActionHash>, store: Holdings) -> bool {
    forall|i: int|
        0 <= i < holders.len() ==> store.resolve(#[trigger] holders[i]@, UnitEntryTypes::Actant)
            == Resolution::Found
}

/// A list of bound actants is in order exactly where each of them resolves
/// to an actant.
pub proof fn holders_are_valid_iff_all_resolve(holders: Seq<ActionHash>, store: Holdings)
    ensures
        holders_verdict(holders, store) is Valid <==> all_resolve_to_actants(holders, store),
    decreases holders.len(),
{
    if holders.len() > 0 {
        let rest = holders.skip(1);
        holders_are_valid_iff_all_resolve(rest, store);
        if all_resolve_to_actants(holders, store) {
            assert forall|i: int| 0 <= i < rest.len() implies store.resolve(
                #[trigger] rest[i]@,
                UnitEntryTypes::Actant,
            ) == Resolution::Found by {
                assert(rest[i] == holders[i + 1]);
            }
        }
        if holders_verdict(holders, store) is Valid {
            assert forall|i: int| 0 <= i < holders.len() implies store.resolve(
                #[trigger] holders[i]@,
                UnitEntryTypes::Actant,
            ) == Resolution::Found by {
                if i > 0 {
                    assert(holders[i] == rest[i - 1]);
                }
            }
        }
    }
}

/// Where the bound actants before place `i` resolve to actants and the one
/// at place `i` does not, the list is answered as that one is.
pub proof fn holders_answer_is_that_of_first_failure(
    holders: Seq<ActionHash>,
    store: Holdings,
    i: int,
)
    requires
        0 <= i < holders.len(),
        forall|j: int|
            0 <= j < i ==> store.resolve(#[trigger] holders[j]@, UnitEntryTypes::Actant)
                == Resolution::Found,
        store.resolve(holders[i]@, UnitEntryTypes::Actant) != Resolution::Found,
    ensures
        holders_verdict(holders, store) == dependant_verdict(
            store,
            holders[i]@,
            UnitEntryTypes::Actant,
        ),
    decreases i,
{
    if i > 0 {
        let rest = holders.skip(1);
        assert(rest[i - 1] == holders[i]);
        assert forall|j: int| 0 <= j < i - 1 implies store.resolve(
            #[trigger] rest[j]@,
            UnitEntryTypes::Actant,
        ) == Resolution::Found by {
            assert(rest[j] == holders[j + 1]);
        }
        holders_answer_is_that_of_first_failure(rest, store, i - 1);
        assert(store.resolve(holders[0]@, UnitEntryTypes::Actant) == Resolution::Found);
    }
}

/// Two lists of the same addresses are answered alike by two stores that
/// resolve each of those addresses alike.
pub proof fn holders_answer_rests_on_their_resolution(
    a: Seq<ActionHash>,
    b: Seq<ActionHash>,
    store_a: Holdings,
    store_b: Holdings,
)
    requires
        a.len() == b.len(),
        forall|i: int| 0 <= i < a.len() ==> #[trigger] a[i]@ == b[i]@,
        forall|i: int|
            0 <= i < a.len() ==> store_a.resolve(#[trigger] a[i]@, UnitEntryTypes::Actant)
                == store_b.resolve(a[i]@, UnitEntryTypes::Actant),
    ensures
        holders_verdict(a, store_a) == holders_verdict(b, store_b),
    decreases a.len(),
{
    if a.len() > 0 {
        assert(a[0]@ == b[0]@);
        assert(store_a.resolve(a[0]@, UnitEntryTypes::Actant) == store_b.resolve(
            a[0]@,
            UnitEntryTypes::Actant,
        ));
        let rest_a = a.skip(1);
        let rest_b = b.skip(1);
        assert forall|i: int| 0 <= i < rest_a.len() implies #[trigger] rest_a[i]@
            == rest_b[i]@ by {
            assert(rest_a[i] == a[i + 1]);
            assert(rest_b[i] == b[i + 1]);
            assert(a[i + 1]@ == b[i + 1]@);
        }
        assert forall|i: int| 0 <= i < rest_a.len() implies store_a.resolve(
            #[trigger] rest_a[i]@,
            UnitEntryTypes::Actant,
        ) == store_b.resolve(rest_a[i]@, UnitEntryTypes::Actant) by {
            assert(rest_a[i] == a[i + 1]);
        }
        holders_answer_rests_on_their_resolution(rest_a, rest_b, store_a, store_b);
    }
}

/// The creation of a clause is valid exactly where every actant that the
/// clause binds resolves to an actant.
pub proof fn clause_is_valid_iff_bound_actants_resolve(clause: Clause, store: Holdings)
    ensures
        create_clause_verdict(clause, store) is Valid <==> all_resolve_to_actants(
            clause.responsibility_holders@,
            store,
        ),
{
    holders_are_valid_iff_all_resolve(clause.responsibility_holders@, store);
}

/// The answer for the creation of a clause does not depend on the actants
/// that the clause entitles, nor on its statement, nor on how anything but
/// the actants that it binds resolves: two clauses that bind the same
/// actants are answered alike by two stores that resolve those alike.
pub proof fn clause_answer_rests_on_bound_actants_alone(
    a: Clause,
    b: Clause,
    store_a: Holdings,
    store_b: Holdings,
)
    requires
        a.responsibility_holders@.len() == b.responsibility_holders@.len(),
        forall|i: int|
            0 <= i < a.responsibility_holders@.len() ==> #[trigger] a.responsibility_holders@[i]@
                == b.responsibility_holders@[i]@,
        forall|i: int|
            0 <= i < a.responsibility_holders@.len() ==> store_a.resolve(
                #[trigger] a.responsibility_holders@[i]@,
                UnitEntryTypes::Actant,
            ) == store_b.resolve(a.responsibility_holders@[i]@, UnitEntryTypes::Actant),
    ensures
        create_clause_verdict(a, store_a) == create_clause_verdict(b, store_b),
{
    holders_answer_rests_on_their_resolution(
        a.responsibility_holders@,
        b.responsibility_holders@,
        store_a,
        store_b,
    );
}

/// A clause that binds an address of which the store says nothing is
/// rejected, where the actants bound before that one resolve to actants:
/// the reference leads nowhere, and the answer does not wait.
pub proof fn clause_that_binds_an_unknown_address_is_rejected(
    clause: Clause,
    store: Holdings,
    i: int,
)
    requires
        0 <= i < clause.responsibility_holders@.len(),
        forall|j: int|
            0 <= j < i ==> store.resolve(
                #[trigger] clause.responsibility_holders@[j]@,
                UnitEntryTypes::Actant,
            ) == Resolution::Found,
        !store.records.contains_key(clause.responsibility_holders@[i]@),
        !store.awaits_record(clause.responsibility_holders@[i]@),
    ensures
        create_clause_verdict(clause, store) == Verdict::Invalid(
            "Dependant action must be accompanied by an entry"@,
        ),
{
    holders_answer_is_that_of_first_failure(clause.responsibility_holders@, store, i);
}

/// The creation of a report is valid exactly where its actant resolves to
/// an actant and its clause to a clause.
pub proof fn report_is_valid_iff_actant_and_clause_resolve(report: Report, store: Holdings)
    ensures
        create_report_verdict(report, store) is Valid <==> (store.resolve(
            report.actant_hash@,
            UnitEntryTypes::Actant,
        ) == Resolution::Found && store.resolve(report.clause_hash@, UnitEntryTypes::Clause)
            == Resolution::Found),
{
}

/// The creation of an endorsement is valid exactly where its report
/// resolves to a report.
pub proof fn endorsement_is_valid_iff_report_resolves(endorsement: Endorsement, store: Holdings)
    ensures
        create_endorsement_verdict(endorsement, store) is Valid <==> store.resolve(
            endorsement.report_hash@,
            UnitEntryTypes::Report,
        ) == Resolution::Found,
{
}

/// The revision of a clause, of a report or of an endorsement is never
/// valid, whatever the entries hold and whatever the store holds. Where
/// the original came with the operation, it is invalid.
pub proof fn only_actants_are_revised(
    action: Update,
    app_entry: EntryTypes,
    original: OriginalEntry,
    store: Holdings,
)
    requires
        !(app_entry is Actant),
    ensures
        !(operation_verdict(Operation::UpdateEntry { action, app_entry, original }, store)
            is Valid),
        original is Given ==> operation_verdict(
            Operation::UpdateEntry { action, app_entry, original },
            store,
        ) is Invalid,
        update_verdict(app_entry.to_unit()) is Invalid,
{
}

/// A stored revision whose original holds an application entry of another
/// kind is a type mismatch. No rule is asked: the answer is the same
/// whatever the new entry refers to and whatever else the store holds.
pub proof fn stored_revision_of_another_kind_is_a_type_mismatch(
    action: Update,
    app_entry: EntryTypes,
    original: ActionHash,
    store: Holdings,
)
    requires
        store.records.contains_key(original@),
        store.records[original@].action is Create || store.records[original@].action is Update,
        store.records[original@].entry.resolution(app_entry.to_unit()) == Resolution::WrongKind,
    ensures
        stored_update_verdict(app_entry, original@, store) == Verdict::Invalid("type mismatch"@),
        operation_verdict(
            Operation::UpdateEntry { action, app_entry, original: OriginalEntry::At(original) },
            store,
        ) == Verdict::Invalid("type mismatch"@),
{
}

/// The deletion of a report or of an endorsement is invalid, and that of
/// an actant or of a clause is valid.
pub proof fn deletion_goes_by_kind(
    action: Delete,
    original_action: crate::action::EntryCreationAction,
    app_entry: EntryTypes,
    store: Holdings,
)
    ensures
        (app_entry is Report || app_entry is Endorsement) ==> operation_verdict(
            Operation::DeleteEntry {
                action,
                original: OriginalEntry::Given { action: original_action, app_entry },
            },
            store,
        ) is Invalid,
        (app_entry is Actant || app_entry is Clause) ==> operation_verdict(
            Operation::DeleteEntry {
                action,
                original: OriginalEntry::Given { action: original_action, app_entry },
            },
            store,
        ) is Valid,
        operation_verdict(
            Operation::DeleteEntry {
                action,
                original: OriginalEntry::Given { action: original_action, app_entry },
            },
            store,
        ) == delete_verdict(app_entry.to_unit()),
{
}

/// A stored deletion goes by the kind of the entry that the original
/// shows, and by nothing else of the original nor of the deletion: valid
/// for an actant and for a clause, invalid for a report and for an
/// endorsement.
pub proof fn stored_deletion_goes_by_kind(
    action: Delete,
    original: ActionHash,
    found: EntryTypes,
    store: Holdings,
)
    requires
        store.records.contains_key(original@),
        store.records[original@].action is Create || store.records[original@].action is Update,
        known_entry(store.records[original@]) == Some(found),
    ensures
        stored_delete_verdict(original@, store) == delete_verdict(found.to_unit()),
        operation_verdict(
            Operation::DeleteEntry { action, original: OriginalEntry::At(original) },
            store,
        ) == delete_verdict(found.to_unit()),
        (found is Actant || found is Clause) ==> stored_delete_verdict(original@, store) is Valid,
        (found is Report || found is Endorsement) ==> stored_delete_verdict(original@, store)
            is Invalid,
{
}

/// The removal of a link is invalid, of whichever of the seven kinds the
/// link is: where the link came with the operation, and where the record
/// that drew it is in the store.
pub proof fn links_are_never_removed(
    link_type: LinkTypes,
    action: DeleteLink,
    base_address: AnyLinkableHash,
    original: OriginalLink,
    store: Holdings,
)
    requires
        match original {
            OriginalLink::Given { link_type: given, .. } => given == link_type,
            OriginalLink::At(hash) => {
                &&& store.records.contains_key(hash@)
                &&& store.records[hash@].action is CreateLink
                &&& store.records[hash@].link_type == Some(link_type)
            },
        },
    ensures
        delete_link_verdict(link_type) is Invalid,
        operation_verdict(Operation::DeleteLink { action, base_address, original }, store)
            is Invalid,
{
}

/// A list of links has at most one latest link.
pub proof fn latest_link_is_unique(links: Seq<Link>, i: int, j: int)
    requires
        is_latest(links, i),
        is_latest(links, j),
    ensures
        i == j,
{
}

/// Where an actant has two revisions and the second one bears the later
/// time, the second one is its current revision.
pub proof fn later_revision_is_current(
    original: ActionHash,
    first: Link,
    second: Link,
    address: Option<Seq<u8>>,
)
    requires
        first.timestamp.0 < second.timestamp.0,
        current_revision(original, seq![first, second], address),
    ensures
        address == second.target.action_hash(),
{
    let links = seq![first, second];
    let i = choose|i: int| is_latest(links, i) && address == links[i].target.action_hash();
    assert(links[0] == first);
    assert(links[1] == second);
    assert(is_latest(links, 1));
    latest_link_is_unique(links, i, 1);
}

/// The storing of an entry with the action that creates it and the
/// storing of the record of that creation are answered alike.
pub proof fn creation_is_answered_alike_as_entry_and_as_record(
    app_entry: EntryTypes,
    action: Create,
    store: Holdings,
)
    ensures
        validate_verdict(FlatOp::StoreEntry(OpEntry::CreateEntry { app_entry, action }), store)
            == validate_verdict(
            FlatOp::StoreRecord(OpRecord::CreateEntry { app_entry, action }),
            store,
        ),
        FlatOp::StoreEntry(OpEntry::CreateEntry { app_entry, action }).spec_classify()
            == FlatOp::StoreRecord(OpRecord::CreateEntry { app_entry, action }).spec_classify(),
{
}

/// What an answer waits for is awaited and is missing from the store.
pub proof fn awaited_dependency_is_missing(op: FlatOp, store: Holdings)
    ensures
        match validate_verdict(op, store) {
            Verdict::Awaiting(Wanted::ValidRecord(hash)) => !store.records.contains_key(hash)
                && store.awaits_record(hash),
            Verdict::Awaiting(Wanted::Action(hash)) => !store.actions.contains_key(hash)
                && store.awaits_action(hash),
            _ => true,
        },
{
    match op.spec_classify() {
        Operation::CreateEntry { app_entry, .. } => {
            creation_waits_for_what_is_missing(app_entry, store);
        },
        Operation::UpdateEntry { app_entry, original: OriginalEntry::At(hash), .. } => {
            creation_waits_for_what_is_missing(app_entry, store);
        },
        _ => {},
    }
}

/// Where nothing is awaited, every answer is for good.
pub proof fn answer_is_for_good_where_nothing_is_awaited(op: FlatOp, store: Holdings)
    requires
        store.awaited == Set::<Wanted>::empty(),
    ensures
        !(validate_verdict(op, store) is Awaiting),
{
    awaited_dependency_is_missing(op, store);
}

/// Once the record that an answer waits for is in the store, the answer
/// waits for it no longer.
pub proof fn answer_moves_on_once_the_awaited_record_is_there(
    op: FlatOp,
    store: Holdings,
    hash: Seq<u8>,
    record: crate::record::Record,
)
    requires
        validate_verdict(op, store) == Verdict::Awaiting(Wanted::ValidRecord(hash)),
    ensures
        validate_verdict(
            op,
            Holdings { records: store.records.insert(hash, record), ..store },
        ) != Verdict::Awaiting(Wanted::ValidRecord(hash)),
{
    awaited_dependency_is_missing(
        op,
        Holdings { records: store.records.insert(hash, record), ..store },
    );
}

/// What the answer for a list of bound actants waits for is awaited and is
/// missing from the store.
pub proof fn holders_wait_for_what_is_missing(holders: Seq<ActionHash>, store: Holdings)
    ensures
        match holders_verdict(holders, store) {
            Verdict::Awaiting(Wanted::ValidRecord(hash)) => !store.records.contains_key(hash)
                && store.awaits_record(hash),
            Verdict::Awaiting(Wanted::Action(_)) => false,
            _ => true,
        },
    decreases holders.len(),
{
    if holders.len() > 0 {
        holders_wait_for_what_is_missing(holders.skip(1), store);
    }
}

/// What the answer for a creation waits for is awaited and is missing from
/// the store.
pub proof fn creation_waits_for_what_is_missing(app_entry: EntryTypes, store: Holdings)
    ensures
        match create_verdict(app_entry, store) {
            Verdict::Awaiting(Wanted::ValidRecord(hash)) => !store.records.contains_key(hash)
                && store.awaits_record(hash),
            Verdict::Awaiting(Wanted::Action(_)) => false,
            _ => true,
        },
{
    match app_entry {
        EntryTypes::Clause(clause) => {
            holders_wait_for_what_is_missing(clause.responsibility_holders@, store);
        },
        _ => {},
    }
}

/// What the answer for a list of bound actants waits for is the record of
/// one of them.
pub proof fn holders_wait_for_one_of_them(holders: Seq<ActionHash>, store: Holdings)
    ensures
        holders_verdict(holders, store) is Awaiting ==> exists|i: int|
            0 <= i < holders.len() && holders_verdict(holders, store) == Verdict::Awaiting(
                Wanted::ValidRecord(#[trigger] holders[i]@),
            ),
    decreases holders.len(),
{
    if holders.len() > 0 && holders_verdict(holders, store) is Awaiting {
        let first = dependant_verdict(store, holders[0]@, UnitEntryTypes::Actant);
        if first is Valid {
            let rest = holders.skip(1);
            holders_wait_for_one_of_them(rest, store);
            let i = choose|i: int|
                0 <= i < rest.len() && holders_verdict(rest, store) == Verdict::Awaiting(
                    Wanted::ValidRecord(#[trigger] rest[i]@),
                );
            assert(rest[i] == holders[i + 1]);
        }
    }
}

/// What the answer for a creation waits for is among the dependencies of
/// the entry.
pub proof fn creation_waits_for_a_dependency(app_entry: EntryTypes, store: Holdings)
    ensures
        match create_verdict(app_entry, store) {
            Verdict::Awaiting(wanted) => entry_dependencies(app_entry).contains(wanted),
            _ => true,
        },
{
    let all = entry_dependencies(app_entry);
    match app_entry {
        EntryTypes::Clause(clause) => {
            let holders = clause.responsibility_holders@;
            holders_wait_for_one_of_them(holders, store);
            if holders_verdict(holders, store) is Awaiting {
                let i = choose|i: int|
                    0 <= i < holders.len() && holders_verdict(holders, store) == Verdict::Awaiting(
                        Wanted::ValidRecord(#[trigger] holders[i]@),
                    );
                assert(all[i] == Wanted::ValidRecord(holders[i]@));
            }
        },
        EntryTypes::Report(report) => {
            assert(all[0] == Wanted::ValidRecord(report.actant_hash@));
            assert(all[1] == Wanted::ValidRecord(report.clause_hash@));
        },
        EntryTypes::Endorsement(endorsement) => {
            assert(all[0] == Wanted::ValidRecord(endorsement.report_hash@));
        },
        EntryTypes::Actant(_) => {},
    }
}

/// What the answer for one end of a link waits for is the record at that
/// end.
pub proof fn link_end_waits_for_its_record(
    store: Holdings,
    address: AnyLinkableHash,
    kind: UnitEntryTypes,
)
    ensures
        match linked_verdict(store, address, kind) {
            Verdict::Awaiting(wanted) => linked_dependencies(address).contains(wanted),
            _ => true,
        },
{
    if linked_verdict(store, address, kind) is Awaiting {
        assert(linked_dependencies(address)[0] == Wanted::ValidRecord(address.action_hash()->0));
    }
}

/// What an answer waits for is among the dependencies of the operation. So
/// a caller that fetches what is awaited and asks again is answered for
/// good after as many fetches as the operation has dependencies, at most.
pub proof fn awaited_dependency_is_a_dependency(operation: Operation, store: Holdings)
    ensures
        match operation_verdict(operation, store) {
            Verdict::Awaiting(wanted) => dependencies(operation).contains(wanted),
            _ => true,
        },
{
    let all = dependencies(operation);
    match operation {
        Operation::CreateEntry { app_entry, .. } => {
            creation_waits_for_a_dependency(app_entry, store);
        },
        Operation::UpdateEntry { app_entry, original: OriginalEntry::At(hash), .. } => {
            creation_waits_for_a_dependency(app_entry, store);
            let of_entry = entry_dependencies(app_entry);
            assert(all[0] == Wanted::ValidRecord(hash@));
            if let Verdict::Awaiting(wanted) = operation_verdict(operation, store) {
                if wanted != Wanted::ValidRecord(hash@) {
                    let i = choose|i: int| 0 <= i < of_entry.len() && of_entry[i] == wanted;
                    assert(all[i + 1] == wanted);
                }
            }
        },
        Operation::DeleteEntry { original: OriginalEntry::At(hash), .. } => {
            assert(all[0] == Wanted::ValidRecord(hash@));
        },
        Operation::CreateLink { base_address, target_address, link_type, .. } => {
            link_waits_for_one_of_its_ends(link_type, base_address, target_address, store);
        },
        Operation::DeleteLink { original: OriginalLink::At(hash), .. } => {
            assert(all[0] == Wanted::ValidRecord(hash@));
        },
        Operation::CreateAgent { action, .. } => {
            assert(all[0] == Wanted::Action(action.prev_action@));
        },
        _ => {},
    }
}

/// The kinds of entry that are expected at the two ends of a link of kind
/// `link_type`. For an index link both are the kind of its target.
spec fn link_ends(link_type: LinkTypes) -> (UnitEntryTypes, UnitEntryTypes) {
    match link_type {
        LinkTypes::ActantUpdates => (UnitEntryTypes::Actant, UnitEntryTypes::Actant),
        LinkTypes::ActantToClauses => (UnitEntryTypes::Actant, UnitEntryTypes::Clause),
        LinkTypes::ActantToReports => (UnitEntryTypes::Actant, UnitEntryTypes::Report),
        LinkTypes::ClauseToReports => (UnitEntryTypes::Clause, UnitEntryTypes::Report),
        LinkTypes::ReportToEndorsements => (UnitEntryTypes::Report, UnitEntryTypes::Endorsement),
        LinkTypes::AllClauses => (UnitEntryTypes::Clause, UnitEntryTypes::Clause),
        LinkTypes::AllActants => (UnitEntryTypes::Actant, UnitEntryTypes::Actant),
    }
}

/// What the answer for the drawing of a link waits for is the record at
/// one of the ends that the rule of its kind looks at.
pub proof fn link_waits_for_one_of_its_ends(
    link_type: LinkTypes,
    base: AnyLinkableHash,
    target: AnyLinkableHash,
    store: Holdings,
)
    ensures
        match create_link_verdict(link_type, base, target, store) {
            Verdict::Awaiting(wanted) => link_dependencies(link_type, base, target).contains(
                wanted,
            ),
            _ => true,
        },
{
    let all = link_dependencies(link_type, base, target);
    let of_base = linked_dependencies(base);
    let of_target = linked_dependencies(target);
    if let Verdict::Awaiting(wanted) = create_link_verdict(link_type, base, target, store) {
        let (base_kind, target_kind) = link_ends(link_type);
        link_end_waits_for_its_record(store, base, base_kind);
        link_end_waits_for_its_record(store, target, target_kind);
        if link_type is AllClauses || link_type is AllActants {
            assert(all == of_target);
        } else if of_base.contains(wanted) {
            let i = choose|i: int| 0 <= i < of_base.len() && of_base[i] == wanted;
            assert(all[i] == wanted);
        } else {
            let i = choose|i: int| 0 <= i < of_target.len() && of_target[i] == wanted;
            assert(all[of_base.len() + i] == wanted);
        }
    }
}

/// Whether two stores say the same of what is wanted: both hold it, and
/// hold the same, or neither holds it and both await it or neither does.
pub open spec fn agree_on(a: Holdings, b: Holdings, wanted: Wanted) -> bool {
    match wanted {
        Wanted::ValidRecord(hash) => {
            &&& a.records.contains_key(hash) == b.records.contains_key(hash)
            &&& a.records.contains_key(hash) ==> a.records[hash] == b.records[hash]
            &&& a.awaits_record(hash) == b.awaits_record(hash)
        },
        Wanted::Action(hash) => {
            &&& a.actions.contains_key(hash) == b.actions.contains_key(hash)
            &&& a.actions.contains_key(hash) ==> a.actions[hash] == b.actions[hash]
            &&& a.awaits_action(hash) == b.awaits_action(hash)
        },
    }
}

/// Whether two stores say the same of each of `wanted`.
pub open spec fn agree_on_all(a: Holdings, b: Holdings, wanted: Seq<Wanted>) -> bool {
    forall|i: int| 0 <= i < wanted.len() ==> agree_on(a, b, #[trigger] wanted[i])
}

/// The answer for a creation rests on the dependencies of the entry alone.
pub proof fn creation_rests_on_its_dependencies_alone(
    app_entry: EntryTypes,
    a: Holdings,
    b: Holdings,
)
    requires
        agree_on_all(a, b, entry_dependencies(app_entry)),
    ensures
        create_verdict(app_entry, a) == create_verdict(app_entry, b),
{
    let all = entry_dependencies(app_entry);
    match app_entry {
        EntryTypes::Clause(clause) => {
            let holders = clause.responsibility_holders@;
            assert forall|i: int| 0 <= i < holders.len() implies a.resolve(
                #[trigger] holders[i]@,
                UnitEntryTypes::Actant,
            ) == b.resolve(holders[i]@, UnitEntryTypes::Actant) by {
                assert(agree_on(a, b, all[i]));
            }
            holders_answer_rests_on_their_resolution(holders, holders, a, b);
        },
        EntryTypes::Report(report) => {
            assert(agree_on(a, b, all[0]));
            assert(agree_on(a, b, all[1]));
        },
        EntryTypes::Endorsement(endorsement) => {
            assert(agree_on(a, b, all[0]));
        },
        EntryTypes::Actant(_) => {},
    }
}

/// Two stores that say the same of what an operation can wait for answer
/// it alike, whatever else they hold.
pub proof fn answer_rests_on_the_dependencies_alone(operation: Operation, a: Holdings, b: Holdings)
    requires
        agree_on_all(a, b, dependencies(operation)),
    ensures
        operation_verdict(operation, a) == operation_verdict(operation, b),
{
    let all = dependencies(operation);
    match operation {
        Operation::CreateEntry { app_entry, .. } => {
            creation_rests_on_its_dependencies_alone(app_entry, a, b);
        },
        Operation::UpdateEntry { app_entry, original: OriginalEntry::At(hash), .. } => {
            let of_entry = entry_dependencies(app_entry);
            assert(agree_on(a, b, all[0]));
            assert forall|i: int| 0 <= i < of_entry.len() implies agree_on(
                a,
                b,
                #[trigger] of_entry[i],
            ) by {
                assert(all[i + 1] == of_entry[i]);
            }
            creation_rests_on_its_dependencies_alone(app_entry, a, b);
        },
        Operation::DeleteEntry { original: OriginalEntry::At(hash), .. } => {
            assert(agree_on(a, b, all[0]));
        },
        Operation::CreateLink { base_address, target_address, link_type, .. } => {
            let of_base = linked_dependencies(base_address);
            let of_target = linked_dependencies(target_address);
            if link_type is AllClauses || link_type is AllActants {
                if of_target.len() > 0 {
                    assert(agree_on(a, b, all[0]));
                }
            } else {
                if of_base.len() > 0 {
                    assert(agree_on(a, b, all[0]));
                }
                if of_target.len() > 0 {
                    assert(all[of_base.len() as int] == of_target[0]);
                    assert(agree_on(a, b, all[of_base.len() as int]));
                }
            }
        },
        Operation::DeleteLink { original: OriginalLink::At(hash), .. } => {
            assert(agree_on(a, b, all[0]));
        },
        Operation::CreateAgent { action, .. } => {
            assert(agree_on(a, b, all[0]));
        },
        _ => {},
    }
}

/// Whether `larger` holds all that `smaller` holds, unchanged.
pub open spec fn holds_all_of(larger: Holdings, smaller: Holdings) -> bool {
    &&& forall|hash: Seq<u8>| #[trigger]
        smaller.records.contains_key(hash) ==> larger.records.contains_key(hash)
            && larger.records[hash] == smaller.records[hash]
    &&& forall|hash: Seq<u8>| #[trigger]
        smaller.actions.contains_key(hash) ==> larger.actions.contains_key(hash)
            && larger.actions[hash] == smaller.actions[hash]
}

/// A creation that is valid stays valid when the store comes to hold more.
pub proof fn valid_creation_stays_valid(app_entry: EntryTypes, smaller: Holdings, larger: Holdings)
    requires
        holds_all_of(larger, smaller),
        create_verdict(app_entry, smaller) is Valid,
    ensures
        create_verdict(app_entry, larger) is Valid,
{
    match app_entry {
        EntryTypes::Clause(clause) => {
            let holders = clause.responsibility_holders@;
            holders_are_valid_iff_all_resolve(holders, smaller);
            holders_are_valid_iff_all_resolve(holders, larger);
            assert forall|i: int| 0 <= i < holders.len() implies larger.resolve(
                #[trigger] holders[i]@,
                UnitEntryTypes::Actant,
            ) == Resolution::Found by {
                assert(smaller.resolve(holders[i]@, UnitEntryTypes::Actant) == Resolution::Found);
                assert(smaller.records.contains_key(holders[i]@));
            }
        },
        EntryTypes::Report(report) => {
            assert(smaller.records.contains_key(report.actant_hash@));
            assert(smaller.records.contains_key(report.clause_hash@));
        },
        EntryTypes::Endorsement(endorsement) => {
            assert(smaller.records.contains_key(endorsement.report_hash@));
        },
        EntryTypes::Actant(_) => {},
    }
}

/// An operation that is valid stays valid when the store comes to hold
/// more: what was accepted on partial knowledge is accepted on fuller
/// knowledge.
pub proof fn valid_stays_valid_on_a_larger_store(
    operation: Operation,
    smaller: Holdings,
    larger: Holdings,
)
    requires
        holds_all_of(larger, smaller),
        operation_verdict(operation, smaller) is Valid,
    ensures
        operation_verdict(operation, larger) is Valid,
{
    match operation {
        Operation::CreateEntry { app_entry, .. } => {
            valid_creation_stays_valid(app_entry, smaller, larger);
        },
        Operation::UpdateEntry { app_entry, original: OriginalEntry::At(hash), .. } => {
            assert(smaller.records.contains_key(hash@));
            valid_creation_stays_valid(app_entry, smaller, larger);
        },
        Operation::DeleteEntry { original: OriginalEntry::At(hash), .. } => {
            assert(smaller.records.contains_key(hash@));
        },
        Operation::CreateLink { base_address, target_address, link_type, .. } => {
            if let Some(hash) = target_address.action_hash() {
                assert(smaller.records.contains_key(hash));
            }
            if let Some(hash) = base_address.action_hash() {
                if !(link_type is AllClauses || link_type is AllActants) {
                    assert(smaller.records.contains_key(hash));
                }
            }
        },
        Operation::DeleteLink { original: OriginalLink::At(hash), .. } => {
            assert(smaller.records.contains_key(hash@));
        },
        Operation::CreateAgent { action, .. } => {
            assert(smaller.actions.contains_key(action.prev_action@));
        },
        _ => {},
    }
}

} // verus!
