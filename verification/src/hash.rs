//! Content hashes, held as their raw bytes.

use vstd::prelude::*;

verus! {

/// The hash of an action: the address of a record.
#[derive(Clone, Debug, PartialEq, Eq)]
pub struct ActionHash {
    pub raw: Vec<u8>,
}

/// The hash of an entry.
#[derive(Clone, Debug, PartialEq, Eq)]
pub struct EntryHash {
    pub raw: Vec<u8>,
}

/// The public key that identifies an agent.
#[derive(Clone, Debug, PartialEq, Eq)]
pub struct AgentPubKey {
    pub raw: Vec<u8>,
}

/// The hash of something that lives outside the store.
#[derive(Clone, Debug, PartialEq, Eq)]
pub struct ExternalHash {
    pub raw: Vec<u8>,
}

/// Anything a link can start from or point to.
#[derive(Clone, Debug, PartialEq, Eq)]
pub enum AnyLinkableHash {
    Entry(EntryHash),
    Action(ActionHash),
    External(ExternalHash),
}

impl View for ActionHash {
    type V = Seq<u8>;

    open spec fn view(&self) -> Seq<u8> {
        self.raw@
    }
}

impl View for EntryHash {
    type V = Seq<u8>;

    open spec fn view(&self) -> Seq<u8> {
        self.raw@
    }
}

impl View for AgentPubKey {
    type V = Seq<u8>;

    open spec fn view(&self) -> Seq<u8> {
        self.raw@
    }
}

impl View for ExternalHash {
    type V = Seq<u8>;

    open spec fn view(&self) -> Seq<u8> {
        self.raw@
    }
}

/// Whether two byte strings hold the same bytes.
pub fn same_bytes(a: &Vec<u8>, b: &Vec<u8>) -> (r: bool)
    ensures
        r == (a@ == b@),
{
    if a.len() != b.len() {
        return false;
    }
    let mut i: usize = 0;
    while i < a.len()
        invariant
            a.len() == b.len(),
            i <= a.len(),
            forall|j: int| 0 <= j < i ==> a@[j] == b@[j],
        decreases a.len() - i,
    {
        if a[i] != b[i] {
            return false;
        }
        i = i + 1;
    }
    assert(a@ =~= b@);
    true
}

impl ActionHash {
    /// Whether `self` and `other` address the same record.
    pub fn same(&self, other: &ActionHash) -> (r: bool)
        ensures
            r == (self@ == other@),
    {
        same_bytes(&self.raw, &other.raw)
    }

    /// A copy of this hash.
    pub fn duplicate(&self) -> (r: ActionHash)
        ensures
            r@ == self@,
    {
        ActionHash { raw: self.raw.clone() }
    }
}

impl AnyLinkableHash {
    /// The action hash that `self` stands for, if it is one.
    pub open spec fn action_hash(self) -> Option<Seq<u8>> {
        match self {
            AnyLinkableHash::Action(hash) => Some(hash@),
            _ => None,
        }
    }

    /// The action hash that this linkable hash stands for. `None` for the
    /// hash of an entry and for an external hash.
    pub fn into_action_hash(&self) -> (r: Option<ActionHash>)
        ensures
            match r {
                Some(hash) => self.action_hash() == Some(hash@),
                None => self.action_hash().is_none(),
            },
    {
        match self {
            AnyLinkableHash::Action(hash) => Some(hash.duplicate()),
            _ => None,
        }
    }
}

} // verus!
