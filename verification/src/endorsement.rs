//! Endorsements of reports. An endorsement is never revised and never
//! deleted.

use vstd::prelude::*;
use crate::action::{CreateLink, Delete, DeleteLink, EntryCreationAction, LinkTag, Update};
use crate::dependency::{check_dependant, check_link, dependant_verdict, link_verdict};
use crate::hash::{ActionHash, AnyLinkableHash};
use crate::store::{Holdings, Store};
use crate::verdict::{ValidateCallbackResult, Verdict};
use crate::UnitEntryTypes;

verus! {

/// The endorsement of one report.
#[derive(Clone, Debug, PartialEq)]
pub struct Endorsement {
    pub report_hash: ActionHash,
}

/// The answer for the creation of `endorsement`.
pub open spec fn create_endorsement_verdict(endorsement: Endorsement, store: Holdings)
    -> Verdict {
    dependant_verdict(store, endorsement.report_hash@, UnitEntryTypes::Report)
}

/// An endorsement may be created where its report resolves to a report.
pub fn validate_create_endorsement(
    _action: &EntryCreationAction,
    endorsement: &Endorsement,
    store: &Store,
) -> (r: ValidateCallbackResult)
    ensures
        r@ == create_endorsement_verdict(*endorsement, store@),
{
    check_dependant(store, &endorsement.report_hash, UnitEntryTypes::Report)
}

/// An endorsement is never revised.
pub fn validate_update_endorsement(
    _action: &Update,
    _endorsement: &Endorsement,
    _original_action: &EntryCreationAction,
    _original_endorsement: &Endorsement,
) -> (r: ValidateCallbackResult)
    ensures
        r@ == Verdict::Invalid("Endorsements cannot be updated"@),
{
    ValidateCallbackResult::invalid("Endorsements cannot be updated")
}

/// An endorsement is never deleted.
pub fn validate_delete_endorsement(
    _action: &Delete,
    _original_action: &EntryCreationAction,
    _original_endorsement: &Endorsement,
) -> (r: ValidateCallbackResult)
    ensures
        r@ == Verdict::Invalid("Endorsements cannot be deleted"@),
{
    ValidateCallbackResult::invalid("Endorsements cannot be deleted")
}

/// A link from a report to an endorsement: the base must hold a report
/// and the target an endorsement.
pub fn validate_create_link_report_to_endorsements(
    _action: &CreateLink,
    base_address: &AnyLinkableHash,
    target_address: &AnyLinkableHash,
    _tag: &LinkTag,
    store: &Store,
) -> (r: ValidateCallbackResult)
    ensures
        r@ == link_verdict(
            store@,
            *base_address,
            UnitEntryTypes::Report,
            *target_address,
            UnitEntryTypes::Endorsement,
        ),
{
    check_link(
        store,
        base_address,
        UnitEntryTypes::Report,
        target_address,
        UnitEntryTypes::Endorsement,
    )
}

/// A link of kind `ReportToEndorsements` stays for good: its removal is rejected.
pub fn validate_delete_link_report_to_endorsements(
    _action: &DeleteLink,
    _original_action: &CreateLink,
    _base: &AnyLinkableHash,
    _target: &AnyLinkableHash,
    _tag: &LinkTag,
) -> (r: ValidateCallbackResult)
    ensures
        r@ == Verdict::Invalid("ReportToEndorsements links cannot be deleted"@),
{
    ValidateCallbackResult::invalid("ReportToEndorsements links cannot be deleted")
}

} // verus!
