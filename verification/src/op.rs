//! Operations: what is handed in for validation, and the form that the
//! rules are stated on.

use vstd::prelude::*;
use crate::action::{Create, CreateLink, Delete, DeleteLink, EntryCreationAction, LinkTag, Update};
use crate::hash::{ActionHash, AgentPubKey, AnyLinkableHash, EntryHash};
use crate::{EntryTypes, LinkTypes};

verus! {

/// The storing of a whole record. The variants that no rule of this crate
/// speaks of carry nothing.
#[derive(Clone, Debug, PartialEq)]
pub enum OpRecord {
    CreateEntry { app_entry: EntryTypes, action: Create },
    CreatePrivateEntry,
    CreateAgent,
    CreateCapClaim,
    CreateCapGrant,
    UpdateEntry {
        original_action_hash: ActionHash,
        original_entry_hash: EntryHash,
        app_entry: EntryTypes,
        action: Update,
    },
    UpdatePrivateEntry,
    UpdateAgent,
    UpdateCapClaim,
    UpdateCapGrant,
    DeleteEntry {
        original_action_hash: ActionHash,
        original_entry_hash: EntryHash,
        action: Delete,
    },
    CreateLink {
        base_address: AnyLinkableHash,
        target_address: AnyLinkableHash,
        tag: LinkTag,
        link_type: LinkTypes,
        action: CreateLink,
    },
    DeleteLink {
        original_action_hash: ActionHash,
        base_address: AnyLinkableHash,
        action: DeleteLink,
    },
    Dna,
    OpenChain,
    CloseChain,
    AgentValidationPkg,
    InitZomesComplete,
}

/// The storing of an entry with the action that brings it into being.
#[derive(Clone, Debug, PartialEq)]
pub enum OpEntry {
    CreateEntry { app_entry: EntryTypes, action: Create },
    CreateAgent,
    UpdateEntry {
        original_action_hash: ActionHash,
        original_entry_hash: EntryHash,
        app_entry: EntryTypes,
        action: Update,
    },
    UpdateAgent,
    CreateCapGrant,
    CreateCapClaim,
    UpdateCapGrant,
    UpdateCapClaim,
}

/// The registering of a revision with the entry that it revises.
#[derive(Clone, Debug, PartialEq)]
pub enum OpUpdate {
    Entry {
        original_action: EntryCreationAction,
        original_app_entry: EntryTypes,
        app_entry: EntryTypes,
        action: Update,
    },
    PrivateEntry,
    Agent,
    CapClaim,
    CapGrant,
}

/// The registering of a deletion with the entry that it deletes.
#[derive(Clone, Debug, PartialEq)]
pub enum OpDelete {
    Entry { original_action: EntryCreationAction, original_app_entry: EntryTypes, action: Delete },
    PrivateEntry,
    Agent,
    CapClaim,
    CapGrant,
}

/// The registering of an action on the chain of its author.
#[derive(Clone, Debug, PartialEq)]
pub enum OpActivity {
    CreateEntry,
    CreatePrivateEntry,
    CreateAgent { agent: AgentPubKey, action: Create },
    CreateCapClaim,
    CreateCapGrant,
    UpdateEntry,
    UpdatePrivateEntry,
    UpdateAgent,
    UpdateCapClaim,
    UpdateCapGrant,
    DeleteEntry,
    CreateLink,
    DeleteLink,
    Dna,
    OpenChain,
    CloseChain,
    AgentValidationPkg,
    InitZomesComplete,
}

/// An operation as it is handed in: one variant for each authority that
/// validates it.
#[derive(Clone, Debug, PartialEq)]
pub enum FlatOp {
    StoreRecord(OpRecord),
    StoreEntry(OpEntry),
    RegisterAgentActivity(OpActivity),
    RegisterCreateLink {
        base_address: AnyLinkableHash,
        target_address: AnyLinkableHash,
        tag: LinkTag,
        link_type: LinkTypes,
        action: CreateLink,
    },
    RegisterDeleteLink {
        original_action: CreateLink,
        base_address: AnyLinkableHash,
        target_address: AnyLinkableHash,
        tag: LinkTag,
        link_type: LinkTypes,
        action: DeleteLink,
    },
    RegisterUpdate(OpUpdate),
    RegisterDelete(OpDelete),
}

/// The entry that a revision or a deletion is about.
#[derive(Clone, Debug, PartialEq)]
pub enum OriginalEntry {
    /// It came with the operation.
    Given { action: EntryCreationAction, app_entry: EntryTypes },
    /// It is the entry of the record at this address.
    At(ActionHash),
}

/// The link that a deletion is about.
#[derive(Clone, Debug, PartialEq)]
pub enum OriginalLink {
    /// It came with the operation.
    Given {
        action: CreateLink,
        target_address: AnyLinkableHash,
        tag: LinkTag,
        link_type: LinkTypes,
    },
    /// It is the link of the record at this address.
    At(ActionHash),
}

/// An operation as the rules see it.
#[derive(Clone, Debug, PartialEq)]
pub enum Operation {
    /// An entry comes into being, by a creation or as the new side of a
    /// revision.
    CreateEntry { action: EntryCreationAction, app_entry: EntryTypes },
    /// An entry takes the place of an earlier one.
    UpdateEntry { action: Update, app_entry: EntryTypes, original: OriginalEntry },
    /// An entry is deleted.
    DeleteEntry { action: Delete, original: OriginalEntry },
    /// A link is drawn.
    CreateLink {
        action: CreateLink,
        base_address: AnyLinkableHash,
        target_address: AnyLinkableHash,
        tag: LinkTag,
        link_type: LinkTypes,
    },
    /// A link is removed.
    DeleteLink { action: DeleteLink, base_address: AnyLinkableHash, original: OriginalLink },
    /// An agent joins.
    CreateAgent { agent: AgentPubKey, action: Create },
    /// Anything else: no rule of this crate speaks of it.
    Other,
}

impl FlatOp {
    /// The operation that the rules are asked about. The storing of an
    /// entry and the storing of the record of its creation are the same
    /// creation; the storing of the new entry of a revision is a creation
    /// too. A revision or a deletion comes with its original where it is
    /// registered, and with the address of its original where its record
    /// is stored.
    pub open spec fn spec_classify(self) -> Operation {
        match self {
            FlatOp::StoreEntry(OpEntry::CreateEntry { app_entry, action }) => {
                Operation::CreateEntry { action: EntryCreationAction::Create(action), app_entry }
            },
            FlatOp::StoreEntry(OpEntry::UpdateEntry { app_entry, action, .. }) => {
                Operation::CreateEntry { action: EntryCreationAction::Update(action), app_entry }
            },
            FlatOp::StoreEntry(_) => Operation::Other,
            FlatOp::RegisterUpdate(
                OpUpdate::Entry { original_action, original_app_entry, app_entry, action },
            ) => Operation::UpdateEntry {
                action,
                app_entry,
                original: OriginalEntry::Given {
                    action: original_action,
                    app_entry: original_app_entry,
                },
            },
            FlatOp::RegisterUpdate(_) => Operation::Other,
            FlatOp::RegisterDelete(
                OpDelete::Entry { original_action, original_app_entry, action },
            ) => Operation::DeleteEntry {
                action,
                original: OriginalEntry::Given {
                    action: original_action,
                    app_entry: original_app_entry,
                },
            },
            FlatOp::RegisterDelete(_) => Operation::Other,
            FlatOp::RegisterCreateLink { base_address, target_address, tag, link_type, action } => {
                Operation::CreateLink { action, base_address, target_address, tag, link_type }
            },
            FlatOp::RegisterDeleteLink {
                original_action,
                base_address,
                target_address,
                tag,
                link_type,
                action,
            } => Operation::DeleteLink {
                action,
                base_address,
                original: OriginalLink::Given {
                    action: original_action,
                    target_address,
                    tag,
                    link_type,
                },
            },
            FlatOp::StoreRecord(OpRecord::CreateEntry { app_entry, action }) => {
                Operation::CreateEntry { action: EntryCreationAction::Create(action), app_entry }
            },
            FlatOp::StoreRecord(
                OpRecord::UpdateEntry { original_action_hash, app_entry, action, .. },
            ) => Operation::UpdateEntry {
                action,
                app_entry,
                original: OriginalEntry::At(original_action_hash),
            },
            FlatOp::StoreRecord(OpRecord::DeleteEntry { original_action_hash, action, .. }) => {
                Operation::DeleteEntry { action, original: OriginalEntry::At(original_action_hash) }
            },
            FlatOp::StoreRecord(
                OpRecord::CreateLink { base_address, target_address, tag, link_type, action },
            ) => Operation::CreateLink { action, base_address, target_address, tag, link_type },
            FlatOp::StoreRecord(
                OpRecord::DeleteLink { original_action_hash, base_address, action },
            ) => Operation::DeleteLink {
                action,
                base_address,
                original: OriginalLink::At(original_action_hash),
            },
            FlatOp::StoreRecord(_) => Operation::Other,
            FlatOp::RegisterAgentActivity(OpActivity::CreateAgent { agent, action }) => {
                Operation::CreateAgent { agent, action }
            },
            FlatOp::RegisterAgentActivity(_) => Operation::Other,
        }
    }

    /// Sorts the operation into the form that the rules are stated on.
    pub fn classify(self) -> (r: Operation)
        ensures
            r == self.spec_classify(),
    {
        match self {
            FlatOp::StoreEntry(OpEntry::CreateEntry { app_entry, action }) => {
                Operation::CreateEntry { action: EntryCreationAction::Create(action), app_entry }
            },
            FlatOp::StoreEntry(OpEntry::UpdateEntry { app_entry, action, .. }) => {
                Operation::CreateEntry { action: EntryCreationAction::Update(action), app_entry }
            },
            FlatOp::StoreEntry(_) => Operation::Other,
            FlatOp::RegisterUpdate(
                OpUpdate::Entry { original_action, original_app_entry, app_entry, action },
            ) => Operation::UpdateEntry {
                action,
                app_entry,
                original: OriginalEntry::Given {
                    action: original_action,
                    app_entry: original_app_entry,
                },
            },
            FlatOp::RegisterUpdate(_) => Operation::Other,
            FlatOp::RegisterDelete(
                OpDelete::Entry { original_action, original_app_entry, action },
            ) => Operation::DeleteEntry {
                action,
                original: OriginalEntry::Given {
                    action: original_action,
                    app_entry: original_app_entry,
                },
            },
            FlatOp::RegisterDelete(_) => Operation::Other,
            FlatOp::RegisterCreateLink { base_address, target_address, tag, link_type, action } => {
                Operation::CreateLink { action, base_address, target_address, tag, link_type }
            },
            FlatOp::RegisterDeleteLink {
                original_action,
                base_address,
                target_address,
                tag,
                link_type,
                action,
            } => Operation::DeleteLink {
                action,
                base_address,
                original: OriginalLink::Given {
                    action: original_action,
                    target_address,
                    tag,
                    link_type,
                },
            },
            FlatOp::StoreRecord(OpRecord::CreateEntry { app_entry, action }) => {
                Operation::CreateEntry { action: EntryCreationAction::Create(action), app_entry }
            },
            FlatOp::StoreRecord(
                OpRecord::UpdateEntry { original_action_hash, app_entry, action, .. },
            ) => Operation::UpdateEntry {
                action,
                app_entry,
                original: OriginalEntry::At(original_action_hash),
            },
            FlatOp::StoreRecord(OpRecord::DeleteEntry { original_action_hash, action, .. }) => {
                Operation::DeleteEntry { action, original: OriginalEntry::At(original_action_hash) }
            },
            FlatOp::StoreRecord(
                OpRecord::CreateLink { base_address, target_address, tag, link_type, action },
            ) => Operation::CreateLink { action, base_address, target_address, tag, link_type },
            FlatOp::StoreRecord(
                OpRecord::DeleteLink { original_action_hash, base_address, action },
            ) => Operation::DeleteLink {
                action,
                base_address,
                original: OriginalLink::At(original_action_hash),
            },
            FlatOp::StoreRecord(_) => Operation::Other,
            FlatOp::RegisterAgentActivity(OpActivity::CreateAgent { agent, action }) => {
                Operation::CreateAgent { agent, action }
            },
            FlatOp::RegisterAgentActivity(_) => Operation::Other,
        }
    }
}

} // verus!
