//! The two ways in which an operation leans on an earlier record: an entry
//! names it in a field, or a link starts from it or points to it.

use vstd::prelude::*;
use crate::hash::{ActionHash, AnyLinkableHash};
use crate::record::Resolution;
use crate::store::{Holdings, Store};
use crate::verdict::{Dependency, ValidateCallbackResult, Verdict, Wanted};
use crate::UnitEntryTypes;

verus! {

/// The answer for a record that an entry names in a field and that must
/// hold an entry of `kind`. A reference that leads nowhere is rejected as
/// one whose record has no entry; only one that is awaited makes the answer
/// wait.
pub open spec fn dependant_verdict(store: Holdings, hash: Seq<u8>, kind: UnitEntryTypes)
    -> Verdict {
    match store.resolve(hash, kind) {
        Resolution::Found => Verdict::Valid,
        Resolution::WrongKind => Verdict::Invalid(
            "Dependant action must reference an entry of the expected type"@,
        ),
        Resolution::WithoutEntry | Resolution::Absent => Verdict::Invalid(
            "Dependant action must be accompanied by an entry"@,
        ),
        Resolution::NotYetAvailable => Verdict::Awaiting(Wanted::ValidRecord(hash)),
    }
}

/// The answer for a record at one end of a link, which must hold an entry
/// of `kind`. An end that leads nowhere is rejected as one whose record has
/// no entry; only one that is awaited makes the answer wait.
pub open spec fn linked_verdict(store: Holdings, address: AnyLinkableHash, kind: UnitEntryTypes)
    -> Verdict {
    match address.action_hash() {
        None => Verdict::Invalid("No action hash associated with link"@),
        Some(hash) => match store.resolve(hash, kind) {
            Resolution::Found => Verdict::Valid,
            Resolution::WrongKind => Verdict::Invalid(
                "Linked action must reference an entry of the expected type"@,
            ),
            Resolution::WithoutEntry | Resolution::Absent => Verdict::Invalid(
                "Linked action must reference an entry"@,
            ),
            Resolution::NotYetAvailable => Verdict::Awaiting(Wanted::ValidRecord(hash)),
        },
    }
}

/// The answer for a link whose base must hold an entry of `base_kind` and
/// whose target must hold one of `target_kind`. The base is looked at
/// first, and the target only where the base is in order.
pub open spec fn link_verdict(
    store: Holdings,
    base: AnyLinkableHash,
    base_kind: UnitEntryTypes,
    target: AnyLinkableHash,
    target_kind: UnitEntryTypes,
) -> Verdict {
    let of_base = linked_verdict(store, base, base_kind);
    if of_base is Valid {
        linked_verdict(store, target, target_kind)
    } else {
        of_base
    }
}

/// Checks a record that an entry names in a field.
pub fn check_dependant(store: &Store, hash: &ActionHash, kind: UnitEntryTypes) -> (r:
    ValidateCallbackResult)
    ensures
        r@ == dependant_verdict(store@, hash@, kind),
{
    match store.resolve(hash, kind) {
        Resolution::Found => ValidateCallbackResult::Valid,
        Resolution::WrongKind => ValidateCallbackResult::invalid(
            "Dependant action must reference an entry of the expected type",
        ),
        Resolution::WithoutEntry | Resolution::Absent => ValidateCallbackResult::invalid(
            "Dependant action must be accompanied by an entry",
        ),
        Resolution::NotYetAvailable => ValidateCallbackResult::UnresolvedDependencies(
            Dependency::ValidRecord(hash.duplicate()),
        ),
    }
}

/// Checks the record at one end of a link.
pub fn check_linked(store: &Store, address: &AnyLinkableHash, kind: UnitEntryTypes) -> (r:
    ValidateCallbackResult)
    ensures
        r@ == linked_verdict(store@, *address, kind),
{
    match address.into_action_hash() {
        None => ValidateCallbackResult::invalid("No action hash associated with link"),
        Some(hash) => match store.resolve(&hash, kind) {
            Resolution::Found => ValidateCallbackResult::Valid,
            Resolution::WrongKind => ValidateCallbackResult::invalid(
                "Linked action must reference an entry of the expected type",
            ),
            Resolution::WithoutEntry | Resolution::Absent => ValidateCallbackResult::invalid(
                "Linked action must reference an entry",
            ),
            Resolution::NotYetAvailable => ValidateCallbackResult::UnresolvedDependencies(
                Dependency::ValidRecord(hash),
            ),
        },
    }
}

/// Checks both ends of a link, the base first.
pub fn check_link(
    store: &Store,
    base: &AnyLinkableHash,
    base_kind: UnitEntryTypes,
    target: &AnyLinkableHash,
    target_kind: UnitEntryTypes,
) -> (r: ValidateCallbackResult)
    ensures
        r@ == link_verdict(store@, *base, base_kind, *target, target_kind),
{
    let of_base = check_linked(store, base, base_kind);
    if of_base.is_valid() {
        check_linked(store, target, target_kind)
    } else {
        of_base
    }
}

} // verus!
