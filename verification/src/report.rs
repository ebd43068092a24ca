//! Reports: what is said of an actant under a clause. A report is never
//! revised and never deleted.

use vstd::prelude::*;
use crate::action::{CreateLink, Delete, DeleteLink, EntryCreationAction, LinkTag, Update};
use crate::dependency::{check_dependant, check_link, dependant_verdict, link_verdict};
use crate::hash::{ActionHash, AnyLinkableHash};
use crate::store::{Holdings, Store};
use crate::verdict::{ValidateCallbackResult, Verdict};
use crate::UnitEntryTypes;

verus! {

/// A statement about one actant under one clause.
#[derive(Clone, Debug, PartialEq)]
pub struct Report {
    pub report_type: String,
    pub content: String,
    pub actant_hash: ActionHash,
    pub clause_hash: ActionHash,
}

/// The answer for the creation of `report`: its actant is looked at first,
/// and its clause only where the actant is in order.
pub open spec fn create_report_verdict(report: Report, store: Holdings) -> Verdict {
    let of_actant = dependant_verdict(store, report.actant_hash@, UnitEntryTypes::Actant);
    if of_actant is Valid {
        dependant_verdict(store, report.clause_hash@, UnitEntryTypes::Clause)
    } else {
        of_actant
    }
}

/// A report may be created where its actant resolves to an actant and its
/// clause to a clause.
pub fn validate_create_report(_action: &EntryCreationAction, report: &Report, store: &Store) -> (r:
    ValidateCallbackResult)
    ensures
        r@ == create_report_verdict(*report, store@),
{
    let of_actant = check_dependant(store, &report.actant_hash, UnitEntryTypes::Actant);
    if of_actant.is_valid() {
        check_dependant(store, &report.clause_hash, UnitEntryTypes::Clause)
    } else {
        of_actant
    }
}

/// A report is never revised.
pub fn validate_update_report(
    _action: &Update,
    _report: &Report,
    _original_action: &EntryCreationAction,
    _original_report: &Report,
) -> (r: ValidateCallbackResult)
    ensures
        r@ == Verdict::Invalid("Reports cannot be updated"@),
{
    ValidateCallbackResult::invalid("Reports cannot be updated")
}

/// A report is never deleted.
pub fn validate_delete_report(
    _action: &Delete,
    _original_action: &EntryCreationAction,
    _original_report: &Report,
) -> (r: ValidateCallbackResult)
    ensures
        r@ == Verdict::Invalid("Reports cannot be deleted"@),
{
    ValidateCallbackResult::invalid("Reports cannot be deleted")
}

/// A link from an actant to a report: the base must hold an actant and
/// the target a report.
pub fn validate_create_link_actant_to_reports(
    _action: &CreateLink,
    base_address: &AnyLinkableHash,
    target_address: &AnyLinkableHash,
    _tag: &LinkTag,
    store: &Store,
) -> (r: ValidateCallbackResult)
    ensures
        r@ == link_verdict(
            store@,
            *base_address,
            UnitEntryTypes::Actant,
            *target_address,
            UnitEntryTypes::Report,
        ),
{
    check_link(
        store,
        base_address,
        UnitEntryTypes::Actant,
        target_address,
        UnitEntryTypes::Report,
    )
}

/// A link of kind `ActantToReports` stays for good: its removal is rejected.
pub fn validate_delete_link_actant_to_reports(
    _action: &DeleteLink,
    _original_action: &CreateLink,
    _base: &AnyLinkableHash,
    _target: &AnyLinkableHash,
    _tag: &LinkTag,
) -> (r: ValidateCallbackResult)
    ensures
        r@ == Verdict::Invalid("ActantToReports links cannot be deleted"@),
{
    ValidateCallbackResult::invalid("ActantToReports links cannot be deleted")
}

/// A link from a clause to a report: the base must hold a clause and the
/// target a report.
pub fn validate_create_link_clause_to_reports(
    _action: &CreateLink,
    base_address: &AnyLinkableHash,
    target_address: &AnyLinkableHash,
    _tag: &LinkTag,
    store: &Store,
) -> (r: ValidateCallbackResult)
    ensures
        r@ == link_verdict(
            store@,
            *base_address,
            UnitEntryTypes::Clause,
            *target_address,
            UnitEntryTypes::Report,
        ),
{
    check_link(
        store,
        base_address,
        UnitEntryTypes::Clause,
        target_address,
        UnitEntryTypes::Report,
    )
}

/// A link of kind `ClauseToReports` stays for good: its removal is rejected.
pub fn validate_delete_link_clause_to_reports(
    _action: &DeleteLink,
    _original_action: &CreateLink,
    _base: &AnyLinkableHash,
    _target: &AnyLinkableHash,
    _tag: &LinkTag,
) -> (r: ValidateCallbackResult)
    ensures
        r@ == Verdict::Invalid("ClauseToReports links cannot be deleted"@),
{
    ValidateCallbackResult::invalid("ClauseToReports links cannot be deleted")
}

} // verus!
