//! Integrity rules of the stewardship record store.
//!
//! Four linked entry kinds live in the store: actants, clauses that bind
//! actants, reports about an actant under a clause, and endorsements of
//! reports. This crate decides whether one operation may join the accepted
//! history. The decision is a function of the operation and of what is
//! known locally: the records that are available, and the addresses that
//! are still awaited.

use vstd::prelude::*;

pub mod actant;
pub mod action;
pub mod clause;
pub mod dependency;
pub mod dispatch;
pub mod endorsement;
pub mod hash;
pub mod laws;
pub mod links;
pub mod op;
pub mod record;
pub mod report;
pub mod store;
pub mod verdict;

pub use actant::{
    validate_create_actant, validate_create_link_actant_updates, validate_create_link_all_actants,
    validate_delete_actant, validate_delete_link_actant_updates, validate_delete_link_all_actants,
    validate_update_actant, Actant,
};
pub use action::{
    Action, AppEntryDef, Create, CreateLink, Delete, DeleteLink, EntryCreationAction, EntryType,
    EntryVisibility, LinkTag, MembraneProof, Timestamp, Update,
};
pub use clause::{
    validate_create_clause, validate_create_link_actant_to_clauses,
    validate_create_link_all_clauses, validate_delete_clause,
    validate_delete_link_actant_to_clauses, validate_delete_link_all_clauses,
    validate_update_clause, Clause,
};
pub use dispatch::{validate_agent_joining, validate_operation};
pub use endorsement::{
    validate_create_endorsement, validate_create_link_report_to_endorsements,
    validate_delete_endorsement, validate_delete_link_report_to_endorsements,
    validate_update_endorsement, Endorsement,
};
pub use hash::{ActionHash, AgentPubKey, AnyLinkableHash, EntryHash, ExternalHash};
pub use links::{
    index_links_for_entry, latest_actant_hash, latest_link, links_for_entry,
    relationship_links_for_entry, Anchor, Link, LinkBase, PlannedLink,
};
pub use op::{
    FlatOp, OpActivity, OpDelete, OpEntry, OpRecord, OpUpdate, Operation, OriginalEntry,
    OriginalLink,
};
pub use record::{AppEntry, Entry, Record, RecordEntry, Resolution};
pub use report::{
    validate_create_link_actant_to_reports, validate_create_link_clause_to_reports,
    validate_create_report, validate_delete_link_actant_to_reports,
    validate_delete_link_clause_to_reports, validate_delete_report, validate_update_report, Report,
};
pub use store::{Holdings, Store};
pub use verdict::{Dependency, ValidateCallbackResult, Verdict, Wanted};

verus! {

/// An entry of one of the four kinds.
#[derive(Clone, Debug, PartialEq)]
pub enum EntryTypes {
    Actant(Actant),
    Clause(Clause),
    Report(Report),
    Endorsement(Endorsement),
}

/// The four entry kinds.
#[derive(Clone, Copy, Debug, PartialEq, Eq, Structural)]
pub enum UnitEntryTypes {
    Actant,
    Clause,
    Report,
    Endorsement,
}

/// The seven link kinds.
#[derive(Clone, Copy, Debug, PartialEq, Eq, Structural)]
pub enum LinkTypes {
    ActantUpdates,
    ActantToClauses,
    ActantToReports,
    ClauseToReports,
    ReportToEndorsements,
    AllClauses,
    AllActants,
}

/// What an agent has in hand when it checks itself before it joins.
#[derive(Clone, Debug, PartialEq)]
pub struct GenesisSelfCheckData {
    pub membrane_proof: Option<MembraneProof>,
    pub agent_key: AgentPubKey,
}

/// The answer for `op` against what `store` holds.
pub open spec fn validate_verdict(op: FlatOp, store: Holdings) -> Verdict {
    dispatch::operation_verdict(op.spec_classify(), store)
}

/// Nothing is asked of an agent before it joins.
pub fn genesis_self_check(_data: &GenesisSelfCheckData) -> (r: ValidateCallbackResult)
    ensures
        r@ == Verdict::Valid,
{
    ValidateCallbackResult::Valid
}

/// Validates `op` against what `store` holds: one operation in, one answer
/// out, and nothing kept between two calls. A reference to an address of
/// which the store says nothing rejects the operation. Where the answer
/// waits, it names the first dependency that is awaited and missing; with
/// that one added to the store, the same call goes on from there.
pub fn validate(op: FlatOp, store: &Store) -> (r: ValidateCallbackResult)
    ensures
        r@ == validate_verdict(op, store@),
{
    let operation = op.classify();
    validate_operation(&operation, store)
}

impl EntryTypes {
    /// The kind of this entry.
    pub open spec fn spec_to_unit(&self) -> UnitEntryTypes {
        match self {
            EntryTypes::Actant(_) => UnitEntryTypes::Actant,
            EntryTypes::Clause(_) => UnitEntryTypes::Clause,
            EntryTypes::Report(_) => UnitEntryTypes::Report,
            EntryTypes::Endorsement(_) => UnitEntryTypes::Endorsement,
        }
    }

    #[verifier::when_used_as_spec(spec_to_unit)]
    pub fn to_unit(&self) -> (r: UnitEntryTypes)
        ensures
            r == self.spec_to_unit(),
    {
        match self {
            EntryTypes::Actant(_) => UnitEntryTypes::Actant,
            EntryTypes::Clause(_) => UnitEntryTypes::Clause,
            EntryTypes::Report(_) => UnitEntryTypes::Report,
            EntryTypes::Endorsement(_) => UnitEntryTypes::Endorsement,
        }
    }
}

} // verus!
