//! From an operation to the rule that answers it.

use vstd::prelude::*;
use crate::actant::{
    validate_create_actant, validate_create_link_actant_updates, validate_create_link_all_actants,
    validate_delete_actant, validate_delete_link_actant_updates, validate_delete_link_all_actants,
    validate_update_actant,
};
use crate::action::{
    Action, Create, CreateLink, Delete, DeleteLink, EntryCreationAction, EntryType, LinkTag,
    MembraneProof, Update,
};
use crate::clause::{
    create_clause_verdict, validate_create_clause, validate_create_link_actant_to_clauses,
    validate_create_link_all_clauses, validate_delete_clause,
    validate_delete_link_actant_to_clauses, validate_delete_link_all_clauses,
    validate_update_clause,
};
use crate::dependency::{link_verdict, linked_verdict};
use crate::endorsement::{
    create_endorsement_verdict, validate_create_endorsement,
    validate_create_link_report_to_endorsements, validate_delete_endorsement,
    validate_delete_link_report_to_endorsements, validate_update_endorsement,
};
use crate::hash::{ActionHash, AgentPubKey, AnyLinkableHash};
use crate::op::{Operation, OriginalEntry, OriginalLink};
use crate::record::{AppEntry, Entry, Record, RecordEntry, Resolution};
use crate::report::{
    create_report_verdict, validate_create_link_actant_to_reports,
    validate_create_link_clause_to_reports, validate_create_report,
    validate_delete_link_actant_to_reports, validate_delete_link_clause_to_reports,
    validate_delete_report, validate_update_report,
};
use crate::store::{wanted, Holdings, Store};
use crate::verdict::{Dependency, ValidateCallbackResult, Verdict, Wanted};
use crate::{EntryTypes, LinkTypes, UnitEntryTypes};

verus! {

/// The answer for the creation of `entry`.
pub open spec fn create_verdict(entry: EntryTypes, store: Holdings) -> Verdict {
    match entry {
        EntryTypes::Actant(_) => Verdict::Valid,
        EntryTypes::Clause(clause) => create_clause_verdict(clause, store),
        EntryTypes::Report(report) => create_report_verdict(report, store),
        EntryTypes::Endorsement(endorsement) => create_endorsement_verdict(endorsement, store),
    }
}

/// The answer for the revision of an entry of `kind` by another of the
/// same kind.
pub open spec fn update_verdict(kind: UnitEntryTypes) -> Verdict {
    match kind {
        UnitEntryTypes::Actant => Verdict::Valid,
        UnitEntryTypes::Clause => Verdict::Invalid("Clauses cannot be updated"@),
        UnitEntryTypes::Report => Verdict::Invalid("Reports cannot be updated"@),
        UnitEntryTypes::Endorsement => Verdict::Invalid("Endorsements cannot be updated"@),
    }
}

/// The answer for the deletion of an entry of `kind`.
pub open spec fn delete_verdict(kind: UnitEntryTypes) -> Verdict {
    match kind {
        UnitEntryTypes::Actant => Verdict::Valid,
        UnitEntryTypes::Clause => Verdict::Valid,
        UnitEntryTypes::Report => Verdict::Invalid("Reports cannot be deleted"@),
        UnitEntryTypes::Endorsement => Verdict::Invalid("Endorsements cannot be deleted"@),
    }
}

/// The answer for the drawing of a link of kind `link_type`.
pub open spec fn create_link_verdict(
    link_type: LinkTypes,
    base: AnyLinkableHash,
    target: AnyLinkableHash,
    store: Holdings,
) -> Verdict {
    match link_type {
        LinkTypes::ActantUpdates => link_verdict(
            store,
            base,
            UnitEntryTypes::Actant,
            target,
            UnitEntryTypes::Actant,
        ),
        LinkTypes::ActantToClauses => link_verdict(
            store,
            base,
            UnitEntryTypes::Actant,
            target,
            UnitEntryTypes::Clause,
        ),
        LinkTypes::ActantToReports => link_verdict(
            store,
            base,
            UnitEntryTypes::Actant,
            target,
            UnitEntryTypes::Report,
        ),
        LinkTypes::ClauseToReports => link_verdict(
            store,
            base,
            UnitEntryTypes::Clause,
            target,
            UnitEntryTypes::Report,
        ),
        LinkTypes::ReportToEndorsements => link_verdict(
            store,
            base,
            UnitEntryTypes::Report,
            target,
            UnitEntryTypes::Endorsement,
        ),
        LinkTypes::AllClauses => linked_verdict(store, target, UnitEntryTypes::Clause),
        LinkTypes::AllActants => linked_verdict(store, target, UnitEntryTypes::Actant),
    }
}

/// The answer for the removal of a link of kind `link_type`.
pub open spec fn delete_link_verdict(link_type: LinkTypes) -> Verdict {
    match link_type {
        LinkTypes::ActantUpdates => Verdict::Invalid("ActantUpdates links cannot be deleted"@),
        LinkTypes::ActantToClauses => Verdict::Invalid("ActantToClauses links cannot be deleted"@),
        LinkTypes::ActantToReports => Verdict::Invalid("ActantToReports links cannot be deleted"@),
        LinkTypes::ClauseToReports => Verdict::Invalid("ClauseToReports links cannot be deleted"@),
        LinkTypes::ReportToEndorsements => Verdict::Invalid(
            "ReportToEndorsements links cannot be deleted"@,
        ),
        LinkTypes::AllClauses => Verdict::Invalid("AllClauses links cannot be deleted"@),
        LinkTypes::AllActants => Verdict::Invalid("AllActants links cannot be deleted"@),
    }
}

/// The answer for a revision that came with its original: the two entries
/// must be of one kind, and then the rule of that kind answers.
pub open spec fn given_update_verdict(entry: EntryTypes, original: EntryTypes) -> Verdict {
    if entry.to_unit() == original.to_unit() {
        update_verdict(entry.to_unit())
    } else {
        Verdict::Invalid("Original and updated entry types must be the same"@)
    }
}

/// The answer where the record at `hash` is not there: the answer waits
/// where the record is awaited; where nothing is said of `hash` there will
/// never be such a record, and `reason` rejects.
pub open spec fn missing_record_verdict(store: Holdings, hash: Seq<u8>, reason: Seq<char>)
    -> Verdict {
    if store.awaits_record(hash) {
        Verdict::Awaiting(Wanted::ValidRecord(hash))
    } else {
        Verdict::Invalid(reason)
    }
}

/// The answer for a revision whose original is the record at `original`.
/// The record must be there and be that of a creation or of a revision.
/// Then the kinds are compared, before any rule is asked: an original with
/// an application entry of another kind is a type mismatch, whatever the
/// new entry refers to, and an original that shows no application entry is
/// rejected too. Where the kinds agree, `entry` must be in order as a
/// creation, and at last the rule on revisions of its kind answers.
pub open spec fn stored_update_verdict(entry: EntryTypes, original: Seq<u8>, store: Holdings)
    -> Verdict {
    if !store.records.contains_key(original) {
        missing_record_verdict(
            store,
            original,
            "Original action for an update must be a Create or Update action"@,
        )
    } else {
        let record = store.records[original];
        if !(record.action is Create || record.action is Update) {
            Verdict::Invalid("Original action for an update must be a Create or Update action"@)
        } else {
            match record.entry.resolution(entry.to_unit()) {
                Resolution::Found => {
                    let as_creation = create_verdict(entry, store);
                    if as_creation is Valid {
                        update_verdict(entry.to_unit())
                    } else {
                        as_creation
                    }
                },
                Resolution::WrongKind => Verdict::Invalid("type mismatch"@),
                _ => Verdict::Invalid(
                    "The updated entry type must be the same as the original entry type"@,
                ),
            }
        }
    }
}

/// The kind of entry that the action of a record speaks of, where the
/// action is a creation or a revision.
pub open spec fn created_entry_type(action: Action) -> Option<EntryType> {
    match action {
        Action::Create(create) => Some(create.entry_type),
        Action::Update(update) => Some(update.entry_type),
        _ => None,
    }
}

/// The entry of one of the four kinds that a record shows, plain or
/// countersigned.
pub open spec fn known_entry(record: Record) -> Option<EntryTypes> {
    match record.entry {
        RecordEntry::Present(Entry::App(AppEntry::Known(found))) => Some(found),
        RecordEntry::Present(Entry::CounterSign(AppEntry::Known(found))) => Some(found),
        _ => None,
    }
}

/// The answer for a deletion whose original is the record at `original`.
/// The record must be there and be that of a creation or of a revision.
/// Where it shows an entry of one of the four kinds, the rule on deletions
/// of that kind answers, and nothing else of the record counts. Else,
/// where its action speaks of no application entry, nothing stands against
/// the deletion; where its entry is missing, a public one is owed and a
/// private one is not; and an entry of no kind of this crate is rejected.
pub open spec fn stored_delete_verdict(original: Seq<u8>, store: Holdings) -> Verdict {
    if !store.records.contains_key(original) {
        missing_record_verdict(
            store,
            original,
            "Original action for a delete must be a Create or Update action"@,
        )
    } else {
        let record = store.records[original];
        match (created_entry_type(record.action), known_entry(record)) {
            (None, _) => Verdict::Invalid(
                "Original action for a delete must be a Create or Update action"@,
            ),
            (Some(_), Some(found)) => delete_verdict(found.to_unit()),
            (Some(EntryType::App(def)), None) => if record.entry is Present {
                Verdict::Invalid(
                    "Original app entry must be one of the defined entry types for this zome"@,
                )
            } else if def.visibility is Public {
                Verdict::Invalid(
                    "Original record for a delete of a public entry must contain an entry"@,
                )
            } else {
                Verdict::Valid
            },
            (Some(_), None) => Verdict::Valid,
        }
    }
}

/// The answer for the removal of the link that the record at `original`
/// drew. The record must be there and be that of a link. A link of another
/// application is none of this crate's business; for a link of one of the
/// seven kinds the rule on removals of that kind answers.
pub open spec fn stored_delete_link_verdict(original: Seq<u8>, store: Holdings) -> Verdict {
    if !store.records.contains_key(original) {
        missing_record_verdict(
            store,
            original,
            "The action that a DeleteLink deletes must be a CreateLink"@,
        )
    } else {
        let record = store.records[original];
        if !(record.action is CreateLink) {
            Verdict::Invalid("The action that a DeleteLink deletes must be a CreateLink"@)
        } else {
            match record.link_type {
                Some(link_type) => delete_link_verdict(link_type),
                None => Verdict::Valid,
            }
        }
    }
}

/// The answer for an agent that joins: the action before its first one
/// must be there and be the one that carries its proof. Where it is not
/// there, the answer waits if it is awaited, and rejects if nothing is
/// said of it.
pub open spec fn agent_joining_verdict(previous: Seq<u8>, store: Holdings) -> Verdict {
    if store.actions.contains_key(previous) {
        if store.actions[previous] is AgentValidationPkg {
            Verdict::Valid
        } else {
            Verdict::Invalid(
                "The previous action for a `CreateAgent` action must be an `AgentValidationPkg`"@,
            )
        }
    } else if store.awaits_action(previous) {
        Verdict::Awaiting(Wanted::Action(previous))
    } else {
        Verdict::Invalid(
            "The previous action for a `CreateAgent` action must be an `AgentValidationPkg`"@,
        )
    }
}

/// Asks the rule on creations of the kind of `entry`.
pub fn validate_create_entry(action: &EntryCreationAction, entry: &EntryTypes, store: &Store) -> (r:
    ValidateCallbackResult)
    ensures
        r@ == create_verdict(*entry, store@),
{
    match entry {
        EntryTypes::Actant(actant) => validate_create_actant(action, actant),
        EntryTypes::Clause(clause) => validate_create_clause(action, clause, store),
        EntryTypes::Report(report) => validate_create_report(action, report, store),
        EntryTypes::Endorsement(endorsement) => validate_create_endorsement(
            action,
            endorsement,
            store,
        ),
    }
}

/// Asks the rule on revisions of the kind that `entry` and `original`
/// share, and rejects the revision where they share none.
pub fn validate_update_entry(
    action: &Update,
    entry: &EntryTypes,
    original_action: &EntryCreationAction,
    original: &EntryTypes,
) -> (r: ValidateCallbackResult)
    ensures
        r@ == given_update_verdict(*entry, *original),
{
    match (entry, original) {
        (EntryTypes::Endorsement(endorsement), EntryTypes::Endorsement(original_endorsement)) => {
            validate_update_endorsement(action, endorsement, original_action, original_endorsement)
        },
        (EntryTypes::Report(report), EntryTypes::Report(original_report)) => {
            validate_update_report(action, report, original_action, original_report)
        },
        (EntryTypes::Clause(clause), EntryTypes::Clause(original_clause)) => {
            validate_update_clause(action, clause, original_action, original_clause)
        },
        (EntryTypes::Actant(actant), EntryTypes::Actant(original_actant)) => {
            validate_update_actant(action, actant, original_action, original_actant)
        },
        _ => ValidateCallbackResult::invalid(
            "Original and updated entry types must be the same",
        ),
    }
}

/// Asks the rule on deletions of the kind of `original`.
pub fn validate_delete_entry(
    action: &Delete,
    original_action: &EntryCreationAction,
    original: &EntryTypes,
) -> (r: ValidateCallbackResult)
    ensures
        r@ == delete_verdict(original.to_unit()),
{
    match original {
        EntryTypes::Actant(actant) => validate_delete_actant(action, original_action, actant),
        EntryTypes::Clause(clause) => validate_delete_clause(action, original_action, clause),
        EntryTypes::Report(report) => validate_delete_report(action, original_action, report),
        EntryTypes::Endorsement(endorsement) => validate_delete_endorsement(
            action,
            original_action,
            endorsement,
        ),
    }
}

/// Asks the rule on the drawing of links of kind `link_type`.
pub fn validate_create_link(
    link_type: LinkTypes,
    action: &CreateLink,
    base_address: &AnyLinkableHash,
    target_address: &AnyLinkableHash,
    tag: &LinkTag,
    store: &Store,
) -> (r: ValidateCallbackResult)
    ensures
        r@ == create_link_verdict(link_type, *base_address, *target_address, store@),
{
    match link_type {
        LinkTypes::ActantUpdates => validate_create_link_actant_updates(
            action,
            base_address,
            target_address,
            tag,
            store,
        ),
        LinkTypes::ActantToClauses => validate_create_link_actant_to_clauses(
            action,
            base_address,
            target_address,
            tag,
            store,
        ),
        LinkTypes::ActantToReports => validate_create_link_actant_to_reports(
            action,
            base_address,
            target_address,
            tag,
            store,
        ),
        LinkTypes::ClauseToReports => validate_create_link_clause_to_reports(
            action,
            base_address,
            target_address,
            tag,
            store,
        ),
        LinkTypes::ReportToEndorsements => validate_create_link_report_to_endorsements(
            action,
            base_address,
            target_address,
            tag,
            store,
        ),
        LinkTypes::AllClauses => validate_create_link_all_clauses(
            action,
            base_address,
            target_address,
            tag,
            store,
        ),
        LinkTypes::AllActants => validate_create_link_all_actants(
            action,
            base_address,
            target_address,
            tag,
            store,
        ),
    }
}

/// Asks the rule on the removal of links of kind `link_type`.
pub fn validate_delete_link(
    link_type: LinkTypes,
    action: &DeleteLink,
    original_action: &CreateLink,
    base: &AnyLinkableHash,
    target: &AnyLinkableHash,
    tag: &LinkTag,
) -> (r: ValidateCallbackResult)
    ensures
        r@ == delete_link_verdict(link_type),
{
    match link_type {
        LinkTypes::ActantUpdates => validate_delete_link_actant_updates(
            action,
            original_action,
            base,
            target,
            tag,
        ),
        LinkTypes::ActantToClauses => validate_delete_link_actant_to_clauses(
            action,
            original_action,
            base,
            target,
            tag,
        ),
        LinkTypes::ActantToReports => validate_delete_link_actant_to_reports(
            action,
            original_action,
            base,
            target,
            tag,
        ),
        LinkTypes::ClauseToReports => validate_delete_link_clause_to_reports(
            action,
            original_action,
            base,
            target,
            tag,
        ),
        LinkTypes::ReportToEndorsements => validate_delete_link_report_to_endorsements(
            action,
            original_action,
            base,
            target,
            tag,
        ),
        LinkTypes::AllClauses => validate_delete_link_all_clauses(
            action,
            original_action,
            base,
            target,
            tag,
        ),
        LinkTypes::AllActants => validate_delete_link_all_actants(
            action,
            original_action,
            base,
            target,
            tag,
        ),
    }
}

/// The action of `record` as the action of an original, where it is a
/// creation or a revision.
fn original_action(record: &Record) -> (r: Option<EntryCreationAction>)
    ensures
        r is Some <==> (record.action is Create || record.action is Update),
        r is Some ==> created_entry_type(record.action) == Some(r->0.entry_type()),
{
    match &record.action {
        Action::Create(create) => Some(
            EntryCreationAction::Create(
                Create {
                    author: create.author.clone(),
                    timestamp: create.timestamp,
                    action_seq: create.action_seq,
                    prev_action: create.prev_action.clone(),
                    entry_type: create.entry_type,
                    entry_hash: create.entry_hash.clone(),
                },
            ),
        ),
        Action::Update(update) => Some(
            EntryCreationAction::Update(
                Update {
                    author: update.author.clone(),
                    timestamp: update.timestamp,
                    action_seq: update.action_seq,
                    prev_action: update.prev_action.clone(),
                    original_action_address: update.original_action_address.clone(),
                    original_entry_address: update.original_entry_address.clone(),
                    entry_type: update.entry_type,
                    entry_hash: update.entry_hash.clone(),
                },
            ),
        ),
        _ => None,
    }
}

/// Answers for a record that is not there.
fn missing_record(store: &Store, hash: &ActionHash, reason: &str) -> (r: ValidateCallbackResult)
    ensures
        r@ == missing_record_verdict(store@, hash@, reason@),
{
    if store.awaits_record(hash) {
        ValidateCallbackResult::UnresolvedDependencies(Dependency::ValidRecord(hash.duplicate()))
    } else {
        ValidateCallbackResult::invalid(reason)
    }
}

/// The entry of one of the four kinds that `record` shows.
fn known_entry_of(record: &Record) -> (r: Option<&EntryTypes>)
    ensures
        match r {
            Some(found) => known_entry(*record) == Some(*found),
            None => known_entry(*record).is_none(),
        },
{
    match &record.entry {
        RecordEntry::Present(Entry::App(AppEntry::Known(found))) => Some(found),
        RecordEntry::Present(Entry::CounterSign(AppEntry::Known(found))) => Some(found),
        _ => None,
    }
}

/// Validates a revision whose original is the record at `original`.
pub fn validate_stored_update(
    action: &Update,
    entry: &EntryTypes,
    original: &ActionHash,
    store: &Store,
) -> (r: ValidateCallbackResult)
    ensures
        r@ == stored_update_verdict(*entry, original@, store@),
{
    let record = match store.get_record(original) {
        Some(record) => record,
        None => {
            return missing_record(
                store,
                original,
                "Original action for an update must be a Create or Update action",
            );
        },
    };
    let original_action = match original_action(record) {
        Some(original_action) => original_action,
        None => {
            return ValidateCallbackResult::invalid(
                "Original action for an update must be a Create or Update action",
            );
        },
    };
    let kinds = record.entry.resolution(entry.to_unit());
    let found = match (kinds, record.entry.to_app_option()) {
        (Resolution::Found, Some(found)) => found,
        (Resolution::WrongKind, _) => {
            return ValidateCallbackResult::invalid("type mismatch");
        },
        _ => {
            return ValidateCallbackResult::invalid(
                "The updated entry type must be the same as the original entry type",
            );
        },
    };
    let as_creation = validate_create_entry(
        &EntryCreationAction::Update(action.clone()),
        entry,
        store,
    );
    if as_creation.is_valid() {
        validate_update_entry(action, entry, &original_action, found)
    } else {
        as_creation
    }
}

/// Validates a deletion whose original is the record at `original`.
pub fn validate_stored_delete(action: &Delete, original: &ActionHash, store: &Store) -> (r:
    ValidateCallbackResult)
    ensures
        r@ == stored_delete_verdict(original@, store@),
{
    let record = match store.get_record(original) {
        Some(record) => record,
        None => {
            return missing_record(
                store,
                original,
                "Original action for a delete must be a Create or Update action",
            );
        },
    };
    let original_action = match original_action(record) {
        Some(original_action) => original_action,
        None => {
            return ValidateCallbackResult::invalid(
                "Original action for a delete must be a Create or Update action",
            );
        },
    };
    match known_entry_of(record) {
        Some(found) => {
            return validate_delete_entry(action, &original_action, found);
        },
        None => {},
    }
    let def = match original_action.entry_type() {
        EntryType::App(def) => def,
        _ => {
            return ValidateCallbackResult::Valid;
        },
    };
    match record.entry.as_option() {
        Some(_) => ValidateCallbackResult::invalid(
            "Original app entry must be one of the defined entry types for this zome",
        ),
        None => if def.visibility.is_public() {
            ValidateCallbackResult::invalid(
                "Original record for a delete of a public entry must contain an entry",
            )
        } else {
            ValidateCallbackResult::Valid
        },
    }
}

/// Validates the removal of the link that the record at `original` drew.
pub fn validate_stored_delete_link(
    action: &DeleteLink,
    base_address: &AnyLinkableHash,
    original: &ActionHash,
    store: &Store,
) -> (r: ValidateCallbackResult)
    ensures
        r@ == stored_delete_link_verdict(original@, store@),
{
    let record = match store.get_record(original) {
        Some(record) => record,
        None => {
            return missing_record(
                store,
                original,
                "The action that a DeleteLink deletes must be a CreateLink",
            );
        },
    };
    let create_link = match &record.action {
        Action::CreateLink(create_link) => create_link,
        _ => {
            return ValidateCallbackResult::invalid(
                "The action that a DeleteLink deletes must be a CreateLink",
            );
        },
    };
    match record.link_type {
        Some(link_type) => validate_delete_link(
            link_type,
            action,
            create_link,
            base_address,
            &create_link.target_address,
            &create_link.tag,
        ),
        None => ValidateCallbackResult::Valid,
    }
}

/// An agent that shows its proof may join, whatever the proof holds.
pub fn validate_agent_joining(
    _agent_pub_key: &AgentPubKey,
    _membrane_proof: &Option<MembraneProof>,
) -> (r: ValidateCallbackResult)
    ensures
        r@ == Verdict::Valid,
{
    ValidateCallbackResult::Valid
}

/// Validates the first action of an agent that joins.
pub fn validate_create_agent(agent: &AgentPubKey, action: &Create, store: &Store) -> (r:
    ValidateCallbackResult)
    ensures
        r@ == agent_joining_verdict(action.prev_action@, store@),
{
    match store.get_action(&action.prev_action) {
        Some(Action::AgentValidationPkg { membrane_proof }) => validate_agent_joining(
            agent,
            membrane_proof,
        ),
        Some(_) => ValidateCallbackResult::invalid(
            "The previous action for a `CreateAgent` action must be an `AgentValidationPkg`",
        ),
        None => if store.awaits_action(&action.prev_action) {
            ValidateCallbackResult::UnresolvedDependencies(
                Dependency::Action(action.prev_action.duplicate()),
            )
        } else {
            ValidateCallbackResult::invalid(
                "The previous action for a `CreateAgent` action must be an `AgentValidationPkg`",
            )
        },
    }
}

/// The answer for `operation` against what `store` holds.
pub open spec fn operation_verdict(operation: Operation, store: Holdings) -> Verdict {
    match operation {
        Operation::CreateEntry { app_entry, .. } => create_verdict(app_entry, store),
        Operation::UpdateEntry {
            app_entry,
            original: OriginalEntry::Given { app_entry: found, .. },
            ..
        } => given_update_verdict(app_entry, found),
        Operation::UpdateEntry { app_entry, original: OriginalEntry::At(hash), .. } => {
            stored_update_verdict(app_entry, hash@, store)
        },
        Operation::DeleteEntry { original: OriginalEntry::Given { app_entry: found, .. }, .. } => {
            delete_verdict(found.to_unit())
        },
        Operation::DeleteEntry { original: OriginalEntry::At(hash), .. } => stored_delete_verdict(
            hash@,
            store,
        ),
        Operation::CreateLink { base_address, target_address, link_type, .. } => {
            create_link_verdict(link_type, base_address, target_address, store)
        },
        Operation::DeleteLink { original: OriginalLink::Given { link_type, .. }, .. } => {
            delete_link_verdict(link_type)
        },
        Operation::DeleteLink { original: OriginalLink::At(hash), .. } => {
            stored_delete_link_verdict(hash@, store)
        },
        Operation::CreateAgent { action, .. } => agent_joining_verdict(action.prev_action@, store),
        Operation::Other => Verdict::Valid,
    }
}

/// Validates `operation` against what `store` holds. Where the answer
/// waits for a dependency, it names the first one that is missing.
pub fn validate_operation(operation: &Operation, store: &Store) -> (r: ValidateCallbackResult)
    ensures
        r@ == operation_verdict(*operation, store@),
{
    match operation {
        Operation::CreateEntry { action, app_entry } => validate_create_entry(
            action,
            app_entry,
            store,
        ),
        Operation::UpdateEntry { action, app_entry, original } => match original {
            OriginalEntry::Given { action: original_action, app_entry: found } => {
                validate_update_entry(action, app_entry, original_action, found)
            },
            OriginalEntry::At(hash) => validate_stored_update(action, app_entry, hash, store),
        },
        Operation::DeleteEntry { action, original } => match original {
            OriginalEntry::Given { action: original_action, app_entry: found } => {
                validate_delete_entry(action, original_action, found)
            },
            OriginalEntry::At(hash) => validate_stored_delete(action, hash, store),
        },
        Operation::CreateLink { action, base_address, target_address, tag, link_type } => {
            validate_create_link(*link_type, action, base_address, target_address, tag, store)
        },
        Operation::DeleteLink { action, base_address, original } => match original {
            OriginalLink::Given { action: original_action, target_address, tag, link_type } => {
                validate_delete_link(
                    *link_type,
                    action,
                    original_action,
                    base_address,
                    target_address,
                    tag,
                )
            },
            OriginalLink::At(hash) => {
                validate_stored_delete_link(action, base_address, hash, store)
            },
        },
        Operation::CreateAgent { agent, action } => validate_create_agent(agent, action, store),
        Operation::Other => ValidateCallbackResult::Valid,
    }
}

/// What the answer for an address at one end of a link can wait for.
pub open spec fn linked_dependencies(address: AnyLinkableHash) -> Seq<Wanted> {
    match address.action_hash() {
        Some(hash) => seq![Wanted::ValidRecord(hash)],
        None => seq![],
    }
}

/// What the answer for the drawing of a link of kind `link_type` can wait
/// for: the records at the ends that the rule of that kind looks at.
pub open spec fn link_dependencies(
    link_type: LinkTypes,
    base: AnyLinkableHash,
    target: AnyLinkableHash,
) -> Seq<Wanted> {
    match link_type {
        LinkTypes::AllClauses | LinkTypes::AllActants => linked_dependencies(target),
        _ => linked_dependencies(base) + linked_dependencies(target),
    }
}

/// What the answer for the creation of `entry` can wait for: the records
/// that the entry names in the fields that the rules look at.
pub open spec fn entry_dependencies(entry: EntryTypes) -> Seq<Wanted> {
    match entry {
        EntryTypes::Actant(_) => seq![],
        EntryTypes::Clause(clause) => clause.responsibility_holders@.map_values(
            |hash: ActionHash| Wanted::ValidRecord(hash@),
        ),
        EntryTypes::Report(report) => seq![
            Wanted::ValidRecord(report.actant_hash@),
            Wanted::ValidRecord(report.clause_hash@),
        ],
        EntryTypes::Endorsement(endorsement) => seq![
            Wanted::ValidRecord(endorsement.report_hash@),
        ],
    }
}

/// What the answer for `operation` can wait for, whatever the store holds.
/// All of it is named by the operation itself: nothing that a fetched
/// record holds is ever followed further.
pub open spec fn dependencies(operation: Operation) -> Seq<Wanted> {
    match operation {
        Operation::CreateEntry { app_entry, .. } => entry_dependencies(app_entry),
        Operation::UpdateEntry { app_entry, original: OriginalEntry::At(hash), .. } => seq![
            Wanted::ValidRecord(hash@),
        ] + entry_dependencies(app_entry),
        Operation::DeleteEntry { original: OriginalEntry::At(hash), .. } => seq![
            Wanted::ValidRecord(hash@),
        ],
        Operation::CreateLink { base_address, target_address, link_type, .. } => {
            link_dependencies(link_type, base_address, target_address)
        },
        Operation::DeleteLink { original: OriginalLink::At(hash), .. } => seq![
            Wanted::ValidRecord(hash@),
        ],
        Operation::CreateAgent { action, .. } => seq![Wanted::Action(action.prev_action@)],
        _ => seq![],
    }
}

/// Adds to `found` the record at `address`, where `address` is that of a
/// record.
fn push_linked(found: &mut Vec<Dependency>, address: &AnyLinkableHash)
    ensures
        wanted(final(found)@) == wanted(old(found)@) + linked_dependencies(*address),
{
    let ghost before = wanted(found@);
    match address.into_action_hash() {
        Some(hash) => {
            found.push(Dependency::ValidRecord(hash));
            assert(wanted(found@) =~= before + linked_dependencies(*address));
        },
        None => {
            assert(wanted(found@) =~= before + linked_dependencies(*address));
        },
    }
}

/// Adds to `found` what the answer for the creation of `entry` can wait
/// for.
fn push_entry_dependencies(found: &mut Vec<Dependency>, entry: &EntryTypes)
    ensures
        wanted(final(found)@) == wanted(old(found)@) + entry_dependencies(*entry),
{
    let ghost before = wanted(found@);
    match entry {
        EntryTypes::Actant(_) => {},
        EntryTypes::Clause(clause) => {
            let holders = &clause.responsibility_holders;
            let mut i: usize = 0;
            while i < holders.len()
                invariant
                    i <= holders.len(),
                    wanted(found@) == before + holders@.take(i as int).map_values(
                        |hash: ActionHash| Wanted::ValidRecord(hash@),
                    ),
                decreases holders.len() - i,
            {
                let ghost so_far = wanted(found@);
                found.push(Dependency::ValidRecord(holders[i].duplicate()));
                assert(wanted(found@) =~= so_far.push(Wanted::ValidRecord(holders@[i as int]@)));
                assert(holders@.take(i + 1).map_values(
                    |hash: ActionHash| Wanted::ValidRecord(hash@),
                ) =~= holders@.take(i as int).map_values(
                    |hash: ActionHash| Wanted::ValidRecord(hash@),
                ).push(Wanted::ValidRecord(holders@[i as int]@)));
                i = i + 1;
            }
            assert(holders@.take(holders.len() as int) =~= holders@);
        },
        EntryTypes::Report(report) => {
            found.push(Dependency::ValidRecord(report.actant_hash.duplicate()));
            found.push(Dependency::ValidRecord(report.clause_hash.duplicate()));
        },
        EntryTypes::Endorsement(endorsement) => {
            found.push(Dependency::ValidRecord(endorsement.report_hash.duplicate()));
        },
    }
    assert(wanted(found@) =~= before + entry_dependencies(*entry));
}

impl Operation {
    /// What the answer for this operation can wait for. A caller that is
    /// ready to fetch says of these that they are awaited, before it asks.
    pub fn dependencies(&self) -> (found: Vec<Dependency>)
        ensures
            wanted(found@) == dependencies(*self),
    {
        let mut found: Vec<Dependency> = Vec::new();
        match self {
            Operation::CreateEntry { app_entry, .. } => {
                push_entry_dependencies(&mut found, app_entry);
            },
            Operation::UpdateEntry { app_entry, original: OriginalEntry::At(hash), .. } => {
                found.push(Dependency::ValidRecord(hash.duplicate()));
                push_entry_dependencies(&mut found, app_entry);
            },
            Operation::DeleteEntry { original: OriginalEntry::At(hash), .. } => {
                found.push(Dependency::ValidRecord(hash.duplicate()));
            },
            Operation::CreateLink { base_address, target_address, link_type, .. } => {
                match link_type {
                    LinkTypes::AllClauses | LinkTypes::AllActants => {},
                    _ => {
                        push_linked(&mut found, base_address);
                    },
                }
                push_linked(&mut found, target_address);
            },
            Operation::DeleteLink { original: OriginalLink::At(hash), .. } => {
                found.push(Dependency::ValidRecord(hash.duplicate()));
            },
            Operation::CreateAgent { action, .. } => {
                found.push(Dependency::Action(action.prev_action.duplicate()));
            },
            _ => {},
        }
        assert(wanted(found@) =~= dependencies(*self));
        found
    }
}

} // verus!
