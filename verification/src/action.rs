//! Actions, entries and records, as far as this crate reads them.
//!
//! An action holds its author and the hashes that link it to other actions
//! and entries; a create and an update also hold the type of their entry.

use vstd::prelude::*;

use crate::hash::{ActionHash, AgentPubKey, AnyLinkableHash, EntryHash};

verus! {

/// The ten kinds of action.
#[derive(Clone, Copy, Debug, PartialEq, Eq, Hash, Structural)]
pub enum ActionType {
    Dna,
    AgentValidationPkg,
    InitZomesComplete,
    CreateLink,
    DeleteLink,
    OpenChain,
    CloseChain,
    Create,
    Update,
    Delete,
}

/// The position of a zome among the zomes of a DNA.
#[derive(Clone, Copy, Debug, PartialEq, Eq, Hash, Structural)]
pub struct ZomeIndex(pub u8);

/// The position of an entry definition among those of a zome.
#[derive(Clone, Copy, Debug, PartialEq, Eq, Hash, Structural)]
pub struct EntryDefIndex(pub u8);

/// Whether an entry is published or kept on its author's chain.
#[derive(Clone, Copy, Debug, PartialEq, Eq, Hash, Structural)]
pub enum EntryVisibility {
    Public,
    Private,
}

/// What an action says of the application entry that it carries.
#[derive(Clone, Copy, Debug, PartialEq, Eq, Hash, Structural)]
pub struct AppEntryDef {
    pub entry_index: EntryDefIndex,
    pub zome_index: ZomeIndex,
    pub visibility: EntryVisibility,
}

/// An entry definition together with the zome that defines it: the key under
/// which callers register their entry types.
#[derive(Clone, Copy, Debug, PartialEq, Eq, Hash, Structural)]
pub struct ScopedEntryDefIndex {
    pub zome_index: ZomeIndex,
    pub zome_type: EntryDefIndex,
}

/// The type of entry that a create or update refers to.
#[derive(Clone, Copy, Debug, PartialEq, Eq, Hash, Structural)]
pub enum EntryType {
    AgentPubKey,
    App(AppEntryDef),
    CapClaim,
    CapGrant,
}

/// The first action of a chain: the DNA that the chain belongs to.
#[derive(Clone, Copy, Debug, PartialEq, Eq, Hash)]
pub struct Dna {
    pub author: AgentPubKey,
}

/// The proof with which an agent joins.
#[derive(Clone, Copy, Debug, PartialEq, Eq, Hash)]
pub struct AgentValidationPkg {
    pub author: AgentPubKey,
}

/// The mark that all zomes have been initialised.
#[derive(Clone, Copy, Debug, PartialEq, Eq, Hash)]
pub struct InitZomesComplete {
    pub author: AgentPubKey,
}

/// A link from a base to a target.
#[derive(Clone, Copy, Debug, PartialEq, Eq, Hash)]
pub struct CreateLink {
    pub author: AgentPubKey,
    pub base_address: AnyLinkableHash,
    pub target_address: AnyLinkableHash,
}

/// The removal of a link.
#[derive(Clone, Copy, Debug, PartialEq, Eq, Hash)]
pub struct DeleteLink {
    pub author: AgentPubKey,
    pub base_address: AnyLinkableHash,
    pub link_add_address: ActionHash,
}

/// The opening of a chain that continues another one.
#[derive(Clone, Copy, Debug, PartialEq, Eq, Hash)]
pub struct OpenChain {
    pub author: AgentPubKey,
}

/// The closing of a chain.
#[derive(Clone, Copy, Debug, PartialEq, Eq, Hash)]
pub struct CloseChain {
    pub author: AgentPubKey,
}

/// The creation of an entry.
#[derive(Clone, Copy, Debug, PartialEq, Eq, Hash)]
pub struct Create {
    pub author: AgentPubKey,
    pub entry_type: EntryType,
    pub entry_hash: EntryHash,
}

/// The replacement of an earlier create or update by a new entry.
#[derive(Clone, Copy, Debug, PartialEq, Eq, Hash)]
pub struct Update {
    pub author: AgentPubKey,
    pub original_action_address: ActionHash,
    pub original_entry_address: EntryHash,
    pub entry_type: EntryType,
    pub entry_hash: EntryHash,
}

/// The deletion of an earlier create or update.
#[derive(Clone, Copy, Debug, PartialEq, Eq, Hash)]
pub struct Delete {
    pub author: AgentPubKey,
    pub deletes_address: ActionHash,
    pub deletes_entry_address: EntryHash,
}

/// One step in an agent's history.
#[derive(Clone, Copy, Debug, PartialEq, Eq, Hash)]
pub enum Action {
    Dna(Dna),
    AgentValidationPkg(AgentValidationPkg),
    InitZomesComplete(InitZomesComplete),
    CreateLink(CreateLink),
    DeleteLink(DeleteLink),
    OpenChain(OpenChain),
    CloseChain(CloseChain),
    Create(Create),
    Update(Update),
    Delete(Delete),
}

impl Action {
    /// The kind of the action.
    pub open spec fn action_type_spec(&self) -> ActionType {
        match *self {
            Action::Dna(_) => ActionType::Dna,
            Action::AgentValidationPkg(_) => ActionType::AgentValidationPkg,
            Action::InitZomesComplete(_) => ActionType::InitZomesComplete,
            Action::CreateLink(_) => ActionType::CreateLink,
            Action::DeleteLink(_) => ActionType::DeleteLink,
            Action::OpenChain(_) => ActionType::OpenChain,
            Action::CloseChain(_) => ActionType::CloseChain,
            Action::Create(_) => ActionType::Create,
            Action::Update(_) => ActionType::Update,
            Action::Delete(_) => ActionType::Delete,
        }
    }

    /// The kind of the action.
    #[verifier::when_used_as_spec(action_type_spec)]
    pub fn action_type(&self) -> (kind: ActionType)
        ensures
            kind == self.action_type_spec(),
    {
        match self {
            Action::Dna(_) => ActionType::Dna,
            Action::AgentValidationPkg(_) => ActionType::AgentValidationPkg,
            Action::InitZomesComplete(_) => ActionType::InitZomesComplete,
            Action::CreateLink(_) => ActionType::CreateLink,
            Action::DeleteLink(_) => ActionType::DeleteLink,
            Action::OpenChain(_) => ActionType::OpenChain,
            Action::CloseChain(_) => ActionType::CloseChain,
            Action::Create(_) => ActionType::Create,
            Action::Update(_) => ActionType::Update,
            Action::Delete(_) => ActionType::Delete,
        }
    }

    /// The type of the entry that the action carries; only a create and an
    /// update carry one.
    pub open spec fn entry_type_spec(&self) -> Option<EntryType> {
        match *self {
            Action::Create(create) => Some(create.entry_type),
            Action::Update(update) => Some(update.entry_type),
            _ => None,
        }
    }

    /// The type of the entry that the action carries.
    #[verifier::when_used_as_spec(entry_type_spec)]
    pub fn entry_type(&self) -> (entry_type: Option<EntryType>)
        ensures
            entry_type == self.entry_type_spec(),
    {
        match self {
            Action::Create(create) => Some(create.entry_type),
            Action::Update(update) => Some(update.entry_type),
            _ => None,
        }
    }

    /// The address of the entry that the action carries.
    pub open spec fn entry_hash_spec(&self) -> Option<EntryHash> {
        match *self {
            Action::Create(create) => Some(create.entry_hash),
            Action::Update(update) => Some(update.entry_hash),
            _ => None,
        }
    }

    /// The address of the entry that the action carries.
    #[verifier::when_used_as_spec(entry_hash_spec)]
    pub fn entry_hash(&self) -> (entry_hash: Option<EntryHash>)
        ensures
            entry_hash == self.entry_hash_spec(),
    {
        match self {
            Action::Create(create) => Some(create.entry_hash),
            Action::Update(update) => Some(update.entry_hash),
            _ => None,
        }
    }

    /// The create or update that the action is, if it is one.
    pub open spec fn creation_spec(&self) -> Option<EntryCreationAction> {
        match *self {
            Action::Create(create) => Some(EntryCreationAction::Create(create)),
            Action::Update(update) => Some(EntryCreationAction::Update(update)),
            _ => None,
        }
    }

    /// The create or update that the action is, if it is one.
    #[verifier::when_used_as_spec(creation_spec)]
    pub fn creation(&self) -> (creation: Option<EntryCreationAction>)
        ensures
            creation == self.creation_spec(),
    {
        match self {
            Action::Create(create) => Some(EntryCreationAction::Create(*create)),
            Action::Update(update) => Some(EntryCreationAction::Update(*update)),
            _ => None,
        }
    }
}

/// An action that carries an entry: a create or an update, seen alike.
#[derive(Clone, Copy, Debug, PartialEq, Eq, Hash)]
pub enum EntryCreationAction {
    Create(Create),
    Update(Update),
}

impl EntryCreationAction {
    /// The agent who signed the action.
    pub open spec fn author_spec(&self) -> AgentPubKey {
        match *self {
            EntryCreationAction::Create(create) => create.author,
            EntryCreationAction::Update(update) => update.author,
        }
    }

    /// The agent who signed the action.
    #[verifier::when_used_as_spec(author_spec)]
    pub fn author(&self) -> (author: AgentPubKey)
        ensures
            author == self.author_spec(),
    {
        match self {
            EntryCreationAction::Create(create) => create.author,
            EntryCreationAction::Update(update) => update.author,
        }
    }

    /// The type of the entry that the action carries.
    pub open spec fn entry_type_spec(&self) -> EntryType {
        match *self {
            EntryCreationAction::Create(create) => create.entry_type,
            EntryCreationAction::Update(update) => update.entry_type,
        }
    }

    /// The type of the entry that the action carries.
    #[verifier::when_used_as_spec(entry_type_spec)]
    pub fn entry_type(&self) -> (entry_type: EntryType)
        ensures
            entry_type == self.entry_type_spec(),
    {
        match self {
            EntryCreationAction::Create(create) => create.entry_type,
            EntryCreationAction::Update(update) => update.entry_type,
        }
    }

    /// The address of the entry that the action carries.
    pub open spec fn entry_hash_spec(&self) -> EntryHash {
        match *self {
            EntryCreationAction::Create(create) => create.entry_hash,
            EntryCreationAction::Update(update) => update.entry_hash,
        }
    }

    /// The address of the entry that the action carries.
    #[verifier::when_used_as_spec(entry_hash_spec)]
    pub fn entry_hash(&self) -> (entry_hash: EntryHash)
        ensures
            entry_hash == self.entry_hash_spec(),
    {
        match self {
            EntryCreationAction::Create(create) => create.entry_hash,
            EntryCreationAction::Update(update) => update.entry_hash,
        }
    }

    /// The action that this create or update is.
    pub open spec fn action_spec(&self) -> Action {
        match *self {
            EntryCreationAction::Create(create) => Action::Create(create),
            EntryCreationAction::Update(update) => Action::Update(update),
        }
    }

    /// The action that this create or update is.
    #[verifier::when_used_as_spec(action_spec)]
    pub fn action(&self) -> (action: Action)
        ensures
            action == self.action_spec(),
    {
        match self {
            EntryCreationAction::Create(create) => Action::Create(*create),
            EntryCreationAction::Update(update) => Action::Update(*update),
        }
    }
}

/// The content of an entry, as far as this crate reads it.
#[derive(Clone, Debug, PartialEq, Eq, Hash)]
pub enum Entry {
    Agent(AgentPubKey),
    App(Vec<u8>),
    CounterSign(Vec<u8>),
    CapClaim,
    CapGrant,
}

/// What a record holds in place of its entry.
#[derive(Clone, Debug, PartialEq, Eq, Hash)]
pub enum RecordEntry {
    Present(Entry),
    Hidden,
    NA,
    NotStored,
}

/// A fetched action with its address and, where it has one, its entry.
#[derive(Clone, Debug, PartialEq, Eq, Hash)]
pub struct Record {
    pub action_address: ActionHash,
    pub action: Action,
    pub entry: RecordEntry,
}

} // verus!
