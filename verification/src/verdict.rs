//! What validation answers.

use vstd::prelude::*;
use crate::hash::ActionHash;

verus! {

/// Something validation has to read and that is not yet locally available.
#[derive(Clone, Debug, PartialEq, Eq)]
pub enum Dependency {
    /// The accepted record at this address, with its entry.
    ValidRecord(ActionHash),
    /// The action at this address, whatever became of its record.
    Action(ActionHash),
}

/// The answer of a validation: the operation is accepted, it is rejected
/// for good with a reason, or it waits for a dependency.
#[derive(Clone, Debug, PartialEq, Eq)]
pub enum ValidateCallbackResult {
    Valid,
    Invalid(String),
    UnresolvedDependencies(Dependency),
}

/// A [`Dependency`] in contracts.
pub enum Wanted {
    ValidRecord(Seq<u8>),
    Action(Seq<u8>),
}

/// A [`ValidateCallbackResult`] in contracts.
pub enum Verdict {
    Valid,
    Invalid(Seq<char>),
    Awaiting(Wanted),
}

impl View for Dependency {
    type V = Wanted;

    open spec fn view(&self) -> Wanted {
        match self {
            Dependency::ValidRecord(hash) => Wanted::ValidRecord(hash@),
            Dependency::Action(hash) => Wanted::Action(hash@),
        }
    }
}

impl View for ValidateCallbackResult {
    type V = Verdict;

    open spec fn view(&self) -> Verdict {
        match self {
            ValidateCallbackResult::Valid => Verdict::Valid,
            ValidateCallbackResult::Invalid(reason) => Verdict::Invalid(reason@),
            ValidateCallbackResult::UnresolvedDependencies(dependency) => Verdict::Awaiting(
                dependency@,
            ),
        }
    }
}

impl ValidateCallbackResult {
    /// A rejection with the given reason.
    pub fn invalid(reason: &str) -> (r: ValidateCallbackResult)
        ensures
            r@ == Verdict::Invalid(reason@),
    {
        ValidateCallbackResult::Invalid(reason.to_owned())
    }

    /// Whether the operation is accepted.
    pub fn is_valid(&self) -> (r: bool)
        ensures
            r == (self@ is Valid),
    {
        match self {
            ValidateCallbackResult::Valid => true,
            _ => false,
        }
    }
}

} // verus!
