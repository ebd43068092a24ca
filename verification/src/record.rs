//! Records as the store hands them out: an action and, where there is one
//! and it may be read, the entry that the action brought into being.

use vstd::prelude::*;
use crate::action::Action;
use crate::hash::AgentPubKey;
use crate::{EntryTypes, LinkTypes, UnitEntryTypes};

verus! {

/// An application entry, read against the entry kinds of this crate.
#[derive(Clone, Debug, PartialEq)]
pub enum AppEntry {
    /// An entry of one of the four kinds.
    Known(EntryTypes),
    /// An entry that some other application defined.
    Unknown,
}

/// The entry of a record.
#[derive(Clone, Debug, PartialEq)]
pub enum Entry {
    Agent(AgentPubKey),
    App(AppEntry),
    CounterSign(AppEntry),
    CapClaim,
    CapGrant,
}

/// What a record says of its entry.
#[derive(Clone, Debug, PartialEq)]
pub enum RecordEntry {
    /// The action speaks of an entry, and here it is.
    Present(Entry),
    /// The action speaks of an entry that is private and withheld.
    Hidden,
    /// The action speaks of no entry.
    NA,
    /// The action speaks of a public entry that was stored without it.
    NotStored,
}

/// An action with what is known of its entry.
#[derive(Clone, Debug, PartialEq)]
pub struct Record {
    pub action: Action,
    pub entry: RecordEntry,
    /// Where the action draws a link: the link kind of this crate that it
    /// is of, if it is of one.
    pub link_type: Option<LinkTypes>,
}

/// How a reference resolves when an entry of a given kind is expected
/// behind it.
#[derive(Clone, Copy, Debug, PartialEq, Eq, Structural)]
pub enum Resolution {
    /// A record is there and its entry is of the expected kind.
    Found,
    /// A record is there with an application entry of another kind.
    WrongKind,
    /// A record is there without an application entry.
    WithoutEntry,
    /// No record is there yet, and one is awaited.
    NotYetAvailable,
    /// No record is there and none is awaited: the reference leads nowhere.
    Absent,
}

impl RecordEntry {
    /// The entry, if it is present.
    pub open spec fn spec_as_option(&self) -> Option<&Entry> {
        match self {
            RecordEntry::Present(entry) => Some(entry),
            _ => None,
        }
    }

    #[verifier::when_used_as_spec(spec_as_option)]
    pub fn as_option(&self) -> (r: Option<&Entry>)
        ensures
            r == self.spec_as_option(),
    {
        match self {
            RecordEntry::Present(entry) => Some(entry),
            _ => None,
        }
    }

    /// The application entry of one of the four kinds, if the record shows
    /// one. A countersigned entry does not count.
    pub open spec fn spec_to_app_option(&self) -> Option<&EntryTypes> {
        match self {
            RecordEntry::Present(Entry::App(AppEntry::Known(entry))) => Some(entry),
            _ => None,
        }
    }

    #[verifier::when_used_as_spec(spec_to_app_option)]
    pub fn to_app_option(&self) -> (r: Option<&EntryTypes>)
        ensures
            r == self.spec_to_app_option(),
    {
        match self {
            RecordEntry::Present(Entry::App(AppEntry::Known(entry))) => Some(entry),
            _ => None,
        }
    }

    /// How this entry answers when `kind` is expected: found where it is an
    /// application entry of that kind, of the wrong kind where it is another
    /// application entry, and without entry in every other case.
    pub open spec fn spec_resolution(&self, kind: UnitEntryTypes) -> Resolution {
        match self {
            RecordEntry::Present(Entry::App(AppEntry::Known(entry))) => if entry.to_unit()
                == kind {
                Resolution::Found
            } else {
                Resolution::WrongKind
            },
            RecordEntry::Present(Entry::App(AppEntry::Unknown)) => Resolution::WrongKind,
            _ => Resolution::WithoutEntry,
        }
    }

    #[verifier::when_used_as_spec(spec_resolution)]
    pub fn resolution(&self, kind: UnitEntryTypes) -> (r: Resolution)
        ensures
            r == self.spec_resolution(kind),
    {
        match self {
            RecordEntry::Present(Entry::App(AppEntry::Known(entry))) => if entry.to_unit()
                == kind {
                Resolution::Found
            } else {
                Resolution::WrongKind
            },
            RecordEntry::Present(Entry::App(AppEntry::Unknown)) => Resolution::WrongKind,
            _ => Resolution::WithoutEntry,
        }
    }
}

impl Entry {
    /// The application entry behind a plain or a countersigned entry.
    pub open spec fn spec_app_entry(&self) -> Option<&AppEntry> {
        match self {
            Entry::App(entry) => Some(entry),
            Entry::CounterSign(entry) => Some(entry),
            _ => None,
        }
    }

    #[verifier::when_used_as_spec(spec_app_entry)]
    pub fn app_entry(&self) -> (r: Option<&AppEntry>)
        ensures
            r == self.spec_app_entry(),
    {
        match self {
            Entry::App(entry) => Some(entry),
            Entry::CounterSign(entry) => Some(entry),
            _ => None,
        }
    }
}

} // verus!
