//! Actions: the chain-ordered envelopes that wrap an entry or a link
//! operation. Each type holds, as plain values, what validation can read.

use vstd::prelude::*;
use crate::hash::{ActionHash, AgentPubKey, AnyLinkableHash, EntryHash};

verus! {

/// Microseconds since the Unix epoch.
#[derive(Clone, Copy, Debug, PartialEq, Eq)]
pub struct Timestamp(pub i64);

/// The bytes an author attaches to a link.
#[derive(Clone, Debug, PartialEq, Eq)]
pub struct LinkTag(pub Vec<u8>);

/// The proof an agent shows when it joins.
#[derive(Clone, Debug, PartialEq, Eq)]
pub struct MembraneProof(pub Vec<u8>);

/// Who may read an entry.
#[derive(Clone, Copy, Debug, PartialEq, Eq)]
pub enum EntryVisibility {
    Public,
    Private,
}

/// Where an application entry kind is defined.
#[derive(Clone, Copy, Debug, PartialEq, Eq)]
pub struct AppEntryDef {
    pub entry_index: u8,
    pub zome_index: u8,
    pub visibility: EntryVisibility,
}

/// The kind of entry an action speaks of.
#[derive(Clone, Copy, Debug, PartialEq, Eq)]
pub enum EntryType {
    AgentPubKey,
    App(AppEntryDef),
    CapClaim,
    CapGrant,
}

/// An action that brings a new entry into being.
#[derive(Clone, Debug, PartialEq, Eq)]
pub struct Create {
    pub author: AgentPubKey,
    pub timestamp: Timestamp,
    pub action_seq: u32,
    pub prev_action: ActionHash,
    pub entry_type: EntryType,
    pub entry_hash: EntryHash,
}

/// An action that revises an earlier entry with a new one.
#[derive(Clone, Debug, PartialEq, Eq)]
pub struct Update {
    pub author: AgentPubKey,
    pub timestamp: Timestamp,
    pub action_seq: u32,
    pub prev_action: ActionHash,
    pub original_action_address: ActionHash,
    pub original_entry_address: EntryHash,
    pub entry_type: EntryType,
    pub entry_hash: EntryHash,
}

/// An action that marks an earlier record as deleted.
#[derive(Clone, Debug, PartialEq, Eq)]
pub struct Delete {
    pub author: AgentPubKey,
    pub timestamp: Timestamp,
    pub action_seq: u32,
    pub prev_action: ActionHash,
    pub deletes_address: ActionHash,
    pub deletes_entry_address: EntryHash,
}

/// An action that draws a typed edge from a base to a target.
#[derive(Clone, Debug, PartialEq, Eq)]
pub struct CreateLink {
    pub author: AgentPubKey,
    pub timestamp: Timestamp,
    pub action_seq: u32,
    pub prev_action: ActionHash,
    pub base_address: AnyLinkableHash,
    pub target_address: AnyLinkableHash,
    pub zome_index: u8,
    pub link_type: u8,
    pub tag: LinkTag,
}

/// An action that removes an edge drawn by an earlier `CreateLink`.
#[derive(Clone, Debug, PartialEq, Eq)]
pub struct DeleteLink {
    pub author: AgentPubKey,
    pub timestamp: Timestamp,
    pub action_seq: u32,
    pub prev_action: ActionHash,
    pub base_address: AnyLinkableHash,
    pub link_add_address: ActionHash,
}

/// The two actions that bring an entry into being.
#[derive(Clone, Debug, PartialEq, Eq)]
pub enum EntryCreationAction {
    Create(Create),
    Update(Update),
}

/// Any action of a chain. The variants that validation never looks into
/// carry nothing.
#[derive(Clone, Debug, PartialEq, Eq)]
pub enum Action {
    Dna,
    AgentValidationPkg { membrane_proof: Option<MembraneProof> },
    InitZomesComplete,
    CreateLink(CreateLink),
    DeleteLink(DeleteLink),
    OpenChain,
    CloseChain,
    Create(Create),
    Update(Update),
    Delete(Delete),
}

impl EntryVisibility {
    /// Whether everyone may read the entry.
    pub fn is_public(&self) -> (r: bool)
        ensures
            r == (*self is Public),
    {
        match self {
            EntryVisibility::Public => true,
            EntryVisibility::Private => false,
        }
    }
}

impl EntryType {
    /// Who may read an entry of this kind: an agent key is public, a
    /// capability claim or grant is private, an application entry is as
    /// its definition says.
    pub open spec fn spec_visibility(self) -> EntryVisibility {
        match self {
            EntryType::AgentPubKey => EntryVisibility::Public,
            EntryType::App(def) => def.visibility,
            EntryType::CapClaim => EntryVisibility::Private,
            EntryType::CapGrant => EntryVisibility::Private,
        }
    }

    #[verifier::when_used_as_spec(spec_visibility)]
    pub fn visibility(self) -> (r: EntryVisibility)
        ensures
            r == self.spec_visibility(),
    {
        match self {
            EntryType::AgentPubKey => EntryVisibility::Public,
            EntryType::App(def) => def.visibility,
            EntryType::CapClaim => EntryVisibility::Private,
            EntryType::CapGrant => EntryVisibility::Private,
        }
    }
}

impl EntryCreationAction {
    /// The kind of entry that the action brings into being.
    pub open spec fn spec_entry_type(&self) -> EntryType {
        match *self {
            EntryCreationAction::Create(create) => create.entry_type,
            EntryCreationAction::Update(update) => update.entry_type,
        }
    }

    #[verifier::when_used_as_spec(spec_entry_type)]
    pub fn entry_type(&self) -> (r: EntryType)
        ensures
            r == self.spec_entry_type(),
    {
        match self {
            EntryCreationAction::Create(create) => create.entry_type,
            EntryCreationAction::Update(update) => update.entry_type,
        }
    }
}

} // verus!
