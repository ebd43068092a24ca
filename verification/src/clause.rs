//! Clauses: statements that give rights to some actants and
//! responsibilities to others. A clause is never revised; it can be deleted.

use vstd::prelude::*;
use crate::action::{CreateLink, Delete, DeleteLink, EntryCreationAction, LinkTag, Update};
use crate::dependency::{
    check_dependant, check_link, check_linked, dependant_verdict, link_verdict, linked_verdict,
};
use crate::hash::{ActionHash, AnyLinkableHash};
use crate::store::{Holdings, Store};
use crate::verdict::{ValidateCallbackResult, Verdict};
use crate::UnitEntryTypes;

verus! {

/// A statement with the actants it entitles and the actants it binds.
#[derive(Clone, Debug, PartialEq)]
pub struct Clause {
    pub statement: String,
    pub right_holders: Vec<ActionHash>,
    pub responsibility_holders: Vec<ActionHash>,
}

/// The answer for the actants that a clause binds: that of the first one,
/// in the order of the list, that does not resolve to an actant, and
/// `Valid` where all of them do.
pub open spec fn holders_verdict(holders: Seq<ActionHash>, store: Holdings) -> Verdict
    decreases holders.len(),
{
    if holders.len() == 0 {
        Verdict::Valid
    } else {
        let first = dependant_verdict(store, holders[0]@, UnitEntryTypes::Actant);
        if first is Valid {
            holders_verdict(holders.skip(1), store)
        } else {
            first
        }
    }
}

/// The answer for the creation of `clause`. Only the actants that it binds
/// are looked at: the actants that it entitles are not.
pub open spec fn create_clause_verdict(clause: Clause, store: Holdings) -> Verdict {
    holders_verdict(clause.responsibility_holders@, store)
}

/// A clause may be created where every actant that it binds resolves to an
/// actant.
pub fn validate_create_clause(_action: &EntryCreationAction, clause: &Clause, store: &Store) -> (r:
    ValidateCallbackResult)
    ensures
        r@ == create_clause_verdict(*clause, store@),
{
    let holders = &clause.responsibility_holders;
    let mut i: usize = 0;
    assert(holders@.skip(0) =~= holders@);
    while i < holders.len()
        invariant
            i <= holders.len(),
            holders@ == clause.responsibility_holders@,
            holders_verdict(holders@, store@) == holders_verdict(holders@.skip(i as int), store@),
        decreases holders.len() - i,
    {
        let result = check_dependant(store, &holders[i], UnitEntryTypes::Actant);
        assert(holders@.skip(i as int)[0] == holders@[i as int]);
        assert(holders@.skip(i as int).skip(1) =~= holders@.skip(i + 1));
        if !result.is_valid() {
            return result;
        }
        i = i + 1;
    }
    ValidateCallbackResult::Valid
}

/// A clause is never revised.
pub fn validate_update_clause(
    _action: &Update,
    _clause: &Clause,
    _original_action: &EntryCreationAction,
    _original_clause: &Clause,
) -> (r: ValidateCallbackResult)
    ensures
        r@ == Verdict::Invalid("Clauses cannot be updated"@),
{
    ValidateCallbackResult::invalid("Clauses cannot be updated")
}

/// A clause may always be deleted.
pub fn validate_delete_clause(
    _action: &Delete,
    _original_action: &EntryCreationAction,
    _original_clause: &Clause,
) -> (r: ValidateCallbackResult)
    ensures
        r@ == Verdict::Valid,
{
    ValidateCallbackResult::Valid
}

/// A link from an actant to a clause: the base must hold an actant and
/// the target a clause.
pub fn validate_create_link_actant_to_clauses(
    _action: &CreateLink,
    base_address: &AnyLinkableHash,
    target_address: &AnyLinkableHash,
    _tag: &LinkTag,
    store: &Store,
) -> (r: ValidateCallbackResult)
    ensures
        r@ == link_verdict(
            store@,
            *base_address,
            UnitEntryTypes::Actant,
            *target_address,
            UnitEntryTypes::Clause,
        ),
{
    check_link(
        store,
        base_address,
        UnitEntryTypes::Actant,
        target_address,
        UnitEntryTypes::Clause,
    )
}

/// A link of kind `ActantToClauses` stays for good: its removal is rejected.
pub fn validate_delete_link_actant_to_clauses(
    _action: &DeleteLink,
    _original_action: &CreateLink,
    _base: &AnyLinkableHash,
    _target: &AnyLinkableHash,
    _tag: &LinkTag,
) -> (r: ValidateCallbackResult)
    ensures
        r@ == Verdict::Invalid("ActantToClauses links cannot be deleted"@),
{
    ValidateCallbackResult::invalid("ActantToClauses links cannot be deleted")
}

/// A link from the index of all clauses: the target must hold a clause.
/// The base is a well-known anchor and is not looked at.
pub fn validate_create_link_all_clauses(
    _action: &CreateLink,
    _base_address: &AnyLinkableHash,
    target_address: &AnyLinkableHash,
    _tag: &LinkTag,
    store: &Store,
) -> (r: ValidateCallbackResult)
    ensures
        r@ == linked_verdict(store@, *target_address, UnitEntryTypes::Clause),
{
    check_linked(store, target_address, UnitEntryTypes::Clause)
}

/// A link of kind `AllClauses` stays for good: its removal is rejected.
pub fn validate_delete_link_all_clauses(
    _action: &DeleteLink,
    _original_action: &CreateLink,
    _base: &AnyLinkableHash,
    _target: &AnyLinkableHash,
    _tag: &LinkTag,
) -> (r: ValidateCallbackResult)
    ensures
        r@ == Verdict::Invalid("AllClauses links cannot be deleted"@),
{
    ValidateCallbackResult::invalid("AllClauses links cannot be deleted")
}

} // verus!
