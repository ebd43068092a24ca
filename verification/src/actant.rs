//! Actants: named groups of agents. An actant can be revised and deleted.

use vstd::prelude::*;
use crate::action::{CreateLink, Delete, DeleteLink, EntryCreationAction, LinkTag, Update};
use crate::dependency::{check_link, check_linked, link_verdict, linked_verdict};
use crate::hash::{AgentPubKey, AnyLinkableHash};
use crate::store::{Store};
use crate::verdict::{ValidateCallbackResult, Verdict};
use crate::UnitEntryTypes;

verus! {

/// A named group of agents.
#[derive(Clone, Debug, PartialEq)]
pub struct Actant {
    pub agents: Vec<AgentPubKey>,
    pub name: String,
}

/// An actant may always be created.
pub fn validate_create_actant(_action: &EntryCreationAction, _actant: &Actant) -> (r:
    ValidateCallbackResult)
    ensures
        r@ == Verdict::Valid,
{
    ValidateCallbackResult::Valid
}

/// An actant may always be revised.
pub fn validate_update_actant(
    _action: &Update,
    _actant: &Actant,
    _original_action: &EntryCreationAction,
    _original_actant: &Actant,
) -> (r: ValidateCallbackResult)
    ensures
        r@ == Verdict::Valid,
{
    ValidateCallbackResult::Valid
}

/// An actant may always be deleted.
pub fn validate_delete_actant(
    _action: &Delete,
    _original_action: &EntryCreationAction,
    _original_actant: &Actant,
) -> (r: ValidateCallbackResult)
    ensures
        r@ == Verdict::Valid,
{
    ValidateCallbackResult::Valid
}

/// A link from an actant to one of its revisions: both ends must hold an
/// actant.
pub fn validate_create_link_actant_updates(
    _action: &CreateLink,
    base_address: &AnyLinkableHash,
    target_address: &AnyLinkableHash,
    _tag: &LinkTag,
    store: &Store,
) -> (r: ValidateCallbackResult)
    ensures
        r@ == link_verdict(
            store@,
            *base_address,
            UnitEntryTypes::Actant,
            *target_address,
            UnitEntryTypes::Actant,
        ),
{
    check_link(
        store,
        base_address,
        UnitEntryTypes::Actant,
        target_address,
        UnitEntryTypes::Actant,
    )
}

/// A link of kind `ActantUpdates` stays for good: its removal is rejected.
pub fn validate_delete_link_actant_updates(
    _action: &DeleteLink,
    _original_action: &CreateLink,
    _base: &AnyLinkableHash,
    _target: &AnyLinkableHash,
    _tag: &LinkTag,
) -> (r: ValidateCallbackResult)
    ensures
        r@ == Verdict::Invalid("ActantUpdates links cannot be deleted"@),
{
    ValidateCallbackResult::invalid("ActantUpdates links cannot be deleted")
}

/// A link from the index of all actants: the target must hold an actant.
/// The base is a well-known anchor and is not looked at.
pub fn validate_create_link_all_actants(
    _action: &CreateLink,
    _base_address: &AnyLinkableHash,
    target_address: &AnyLinkableHash,
    _tag: &LinkTag,
    store: &Store,
) -> (r: ValidateCallbackResult)
    ensures
        r@ == linked_verdict(store@, *target_address, UnitEntryTypes::Actant),
{
    check_linked(store, target_address, UnitEntryTypes::Actant)
}

/// A link of kind `AllActants` stays for good: its removal is rejected.
pub fn validate_delete_link_all_actants(
    _action: &DeleteLink,
    _original_action: &CreateLink,
    _base: &AnyLinkableHash,
    _target: &AnyLinkableHash,
    _tag: &LinkTag,
) -> (r: ValidateCallbackResult)
    ensures
        r@ == Verdict::Invalid("AllActants links cannot be deleted"@),
{
    ValidateCallbackResult::invalid("AllActants links cannot be deleted")
}

} // verus!
