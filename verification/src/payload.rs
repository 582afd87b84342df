//! The payload of each type of action, and fetches that give it.

use vstd::prelude::*;

use crate::action::{
    Action, ActionType, AgentValidationPkg, CloseChain, Create, CreateLink, Delete, DeleteLink,
    Dna, InitZomesComplete, OpenChain, Record, Update,
};
use crate::error::Error;
use crate::hash::ActionHash;
use crate::summon::record_of_type;

verus! {

/// What an action of one type holds. Each of the ten types of action has its
/// payload, and an action holds the payload of its own type only.
pub trait ActionPayload: Sized {
    /// The type of the actions that hold this payload.
    spec fn payload_type() -> ActionType;

    /// The payload inside `action`, where the action is of this type.
    spec fn payload_of(action: Action) -> Option<Self>;

    /// The action that holds `self`.
    spec fn wrapped(self) -> Action;

    /// An action holds this payload exactly where it is of this type, and
    /// the payload taken out of an action is the one that the action holds.
    proof fn payload_belongs_to_type(action: Action)
        ensures
            Self::payload_of(action) is Some <==> action.action_type_spec() == Self::payload_type(),
            Self::payload_of(action) matches Some(payload) ==> payload.wrapped() == action,
    ;

    /// The type of the actions that hold this payload.
    fn action_type() -> (kind: ActionType)
        ensures
            kind == Self::payload_type(),
    ;

    /// Takes the payload out of `action`, where the action is of this type.
    fn from_action(action: Action) -> (payload: Option<Self>)
        ensures
            payload == Self::payload_of(action),
    ;
}

impl ActionPayload for Dna {
    open spec fn payload_type() -> ActionType {
        ActionType::Dna
    }

    open spec fn payload_of(action: Action) -> Option<Self> {
        match action {
            Action::Dna(payload) => Some(payload),
            _ => None,
        }
    }

    open spec fn wrapped(self) -> Action {
        Action::Dna(self)
    }

    proof fn payload_belongs_to_type(action: Action) {
    }

    fn action_type() -> (kind: ActionType) {
        ActionType::Dna
    }

    fn from_action(action: Action) -> (payload: Option<Self>) {
        match action {
            Action::Dna(payload) => Some(payload),
            _ => None,
        }
    }
}

impl ActionPayload for AgentValidationPkg {
    open spec fn payload_type() -> ActionType {
        ActionType::AgentValidationPkg
    }

    open spec fn payload_of(action: Action) -> Option<Self> {
        match action {
            Action::AgentValidationPkg(payload) => Some(payload),
            _ => None,
        }
    }

    open spec fn wrapped(self) -> Action {
        Action::AgentValidationPkg(self)
    }

    proof fn payload_belongs_to_type(action: Action) {
    }

    fn action_type() -> (kind: ActionType) {
        ActionType::AgentValidationPkg
    }

    fn from_action(action: Action) -> (payload: Option<Self>) {
        match action {
            Action::AgentValidationPkg(payload) => Some(payload),
            _ => None,
        }
    }
}

impl ActionPayload for InitZomesComplete {
    open spec fn payload_type() -> ActionType {
        ActionType::InitZomesComplete
    }

    open spec fn payload_of(action: Action) -> Option<Self> {
        match action {
            Action::InitZomesComplete(payload) => Some(payload),
            _ => None,
        }
    }

    open spec fn wrapped(self) -> Action {
        Action::InitZomesComplete(self)
    }

    proof fn payload_belongs_to_type(action: Action) {
    }

    fn action_type() -> (kind: ActionType) {
        ActionType::InitZomesComplete
    }

    fn from_action(action: Action) -> (payload: Option<Self>) {
        match action {
            Action::InitZomesComplete(payload) => Some(payload),
            _ => None,
        }
    }
}

impl ActionPayload for CreateLink {
    open spec fn payload_type() -> ActionType {
        ActionType::CreateLink
    }

    open spec fn payload_of(action: Action) -> Option<Self> {
        match action {
            Action::CreateLink(payload) => Some(payload),
            _ => None,
        }
    }

    open spec fn wrapped(self) -> Action {
        Action::CreateLink(self)
    }

    proof fn payload_belongs_to_type(action: Action) {
    }

    fn action_type() -> (kind: ActionType) {
        ActionType::CreateLink
    }

    fn from_action(action: Action) -> (payload: Option<Self>) {
        match action {
            Action::CreateLink(payload) => Some(payload),
            _ => None,
        }
    }
}

impl ActionPayload for DeleteLink {
    open spec fn payload_type() -> ActionType {
        ActionType::DeleteLink
    }

    open spec fn payload_of(action: Action) -> Option<Self> {
        match action {
            Action::DeleteLink(payload) => Some(payload),
            _ => None,
        }
    }

    open spec fn wrapped(self) -> Action {
        Action::DeleteLink(self)
    }

    proof fn payload_belongs_to_type(action: Action) {
    }

    fn action_type() -> (kind: ActionType) {
        ActionType::DeleteLink
    }

    fn from_action(action: Action) -> (payload: Option<Self>) {
        match action {
            Action::DeleteLink(payload) => Some(payload),
            _ => None,
        }
    }
}

impl ActionPayload for OpenChain {
    open spec fn payload_type() -> ActionType {
        ActionType::OpenChain
    }

    open spec fn payload_of(action: Action) -> Option<Self> {
        match action {
            Action::OpenChain(payload) => Some(payload),
            _ => None,
        }
    }

    open spec fn wrapped(self) -> Action {
        Action::OpenChain(self)
    }

    proof fn payload_belongs_to_type(action: Action) {
    }

    fn action_type() -> (kind: ActionType) {
        ActionType::OpenChain
    }

    fn from_action(action: Action) -> (payload: Option<Self>) {
        match action {
            Action::OpenChain(payload) => Some(payload),
            _ => None,
        }
    }
}

impl ActionPayload for CloseChain {
    open spec fn payload_type() -> ActionType {
        ActionType::CloseChain
    }

    open spec fn payload_of(action: Action) -> Option<Self> {
        match action {
            Action::CloseChain(payload) => Some(payload),
            _ => None,
        }
    }

    open spec fn wrapped(self) -> Action {
        Action::CloseChain(self)
    }

    proof fn payload_belongs_to_type(action: Action) {
    }

    fn action_type() -> (kind: ActionType) {
        ActionType::CloseChain
    }

    fn from_action(action: Action) -> (payload: Option<Self>) {
        match action {
            Action::CloseChain(payload) => Some(payload),
            _ => None,
        }
    }
}

impl ActionPayload for Create {
    open spec fn payload_type() -> ActionType {
        ActionType::Create
    }

    open spec fn payload_of(action: Action) -> Option<Self> {
        match action {
            Action::Create(payload) => Some(payload),
            _ => None,
        }
    }

    open spec fn wrapped(self) -> Action {
        Action::Create(self)
    }

    proof fn payload_belongs_to_type(action: Action) {
    }

    fn action_type() -> (kind: ActionType) {
        ActionType::Create
    }

    fn from_action(action: Action) -> (payload: Option<Self>) {
        match action {
            Action::Create(payload) => Some(payload),
            _ => None,
        }
    }
}

impl ActionPayload for Update {
    open spec fn payload_type() -> ActionType {
        ActionType::Update
    }

    open spec fn payload_of(action: Action) -> Option<Self> {
        match action {
            Action::Update(payload) => Some(payload),
            _ => None,
        }
    }

    open spec fn wrapped(self) -> Action {
        Action::Update(self)
    }

    proof fn payload_belongs_to_type(action: Action) {
    }

    fn action_type() -> (kind: ActionType) {
        ActionType::Update
    }

    fn from_action(action: Action) -> (payload: Option<Self>) {
        match action {
            Action::Update(payload) => Some(payload),
            _ => None,
        }
    }
}

impl ActionPayload for Delete {
    open spec fn payload_type() -> ActionType {
        ActionType::Delete
    }

    open spec fn payload_of(action: Action) -> Option<Self> {
        match action {
            Action::Delete(payload) => Some(payload),
            _ => None,
        }
    }

    open spec fn wrapped(self) -> Action {
        Action::Delete(self)
    }

    proof fn payload_belongs_to_type(action: Action) {
    }

    fn action_type() -> (kind: ActionType) {
        ActionType::Delete
    }

    fn from_action(action: Action) -> (payload: Option<Self>) {
        match action {
            Action::Delete(payload) => Some(payload),
            _ => None,
        }
    }
}

/// What a fetch is reported as when its record must hold the payload `P`:
/// the payload where the action holds it, `ActionTypeMismatch` where the
/// action is of another type, and the fetch's own failure where it failed.
pub open spec fn payload_of_fetched<P: ActionPayload>(fetched: Result<Record, Error>) -> Result<
    P,
    Error,
> {
    match fetched {
        Ok(record) => match P::payload_of(record.action) {
            Some(payload) => Ok(payload),
            None => Err(
                Error::ActionTypeMismatch {
                    expected: P::payload_type(),
                    actual: record.action.action_type_spec(),
                },
            ),
        },
        Err(error) => Err(error),
    }
}

/// Holds a fetched record to the type of action that holds `P`, and takes the
/// payload out.
pub fn expect_action_payload<P: ActionPayload>(fetched: Result<Record, Error>) -> (payload: Result<
    P,
    Error,
>)
    ensures
        payload == payload_of_fetched::<P>(fetched),
{
    match fetched {
        Ok(record) => match P::from_action(record.action) {
            Some(payload) => Ok(payload),
            None => Err(
                Error::ActionTypeMismatch {
                    expected: P::action_type(),
                    actual: record.action.action_type(),
                },
            ),
        },
        Err(error) => Err(error),
    }
}

/// Taking the payload out of a fetched record succeeds exactly where holding
/// the record to the payload's type does, on the payload of that record's
/// action, and fails with the same error.
pub proof fn law_payload_is_that_of_the_asserted_record<P: ActionPayload>(
    fetched: Result<Record, Error>,
)
    ensures
        match record_of_type(fetched, P::payload_type()) {
            Ok(record) => payload_of_fetched::<P>(fetched) matches Ok(payload) && payload.wrapped()
                == record.action,
            Err(error) => payload_of_fetched::<P>(fetched) == Err::<P, Error>(error),
        },
{
    if let Ok(record) = fetched {
        P::payload_belongs_to_type(record.action);
    }
}

/// Fetches the record at `action_addr`, holds it to the type of action that
/// holds `P`, and gives the payload.
///
/// The result is [`payload_of_fetched`] of whatever the fetch returned.
pub fn summon_action_payload<P: ActionPayload, F>(action_addr: &ActionHash, fetch: F) -> (payload:
    Result<P, Error>) where F: Fn(ActionHash) -> Result<Record, Error>
    requires
        call_requires(fetch, (*action_addr,)),
    ensures
        exists|fetched: Result<Record, Error>|
            call_ensures(fetch, (*action_addr,), fetched) && payload == payload_of_fetched::<P>(
                fetched,
            ),
{
    let fetched = fetch(*action_addr);
    expect_action_payload::<P>(fetched)
}

/// Fetches the action at `action_addr`, which must be a `Dna`.
pub fn summon_dna_action<F>(action_addr: &ActionHash, fetch: F) -> (payload: Result<
    Dna,
    Error,
>) where F: Fn(ActionHash) -> Result<Record, Error>
    requires
        call_requires(fetch, (*action_addr,)),
    ensures
        exists|fetched: Result<Record, Error>|
            call_ensures(fetch, (*action_addr,), fetched) && payload == payload_of_fetched::<Dna>(
                fetched,
            ),
{
    summon_action_payload::<Dna, F>(action_addr, fetch)
}

/// Fetches the action at `action_addr`, which must be an `AgentValidationPkg`.
pub fn summon_agent_validation_pkg_action<F>(action_addr: &ActionHash, fetch: F) -> (payload: Result<
    AgentValidationPkg,
    Error,
>) where F: Fn(ActionHash) -> Result<Record, Error>
    requires
        call_requires(fetch, (*action_addr,)),
    ensures
        exists|fetched: Result<Record, Error>|
            call_ensures(fetch, (*action_addr,), fetched) && payload == payload_of_fetched::<AgentValidationPkg>(
                fetched,
            ),
{
    summon_action_payload::<AgentValidationPkg, F>(action_addr, fetch)
}

/// Fetches the action at `action_addr`, which must be an `InitZomesComplete`.
pub fn summon_init_zomes_complete_action<F>(action_addr: &ActionHash, fetch: F) -> (payload: Result<
    InitZomesComplete,
    Error,
>) where F: Fn(ActionHash) -> Result<Record, Error>
    requires
        call_requires(fetch, (*action_addr,)),
    ensures
        exists|fetched: Result<Record, Error>|
            call_ensures(fetch, (*action_addr,), fetched) && payload == payload_of_fetched::<InitZomesComplete>(
                fetched,
            ),
{
    summon_action_payload::<InitZomesComplete, F>(action_addr, fetch)
}

/// Fetches the action at `action_addr`, which must be a `CreateLink`.
pub fn summon_create_link_action<F>(action_addr: &ActionHash, fetch: F) -> (payload: Result<
    CreateLink,
    Error,
>) where F: Fn(ActionHash) -> Result<Record, Error>
    requires
        call_requires(fetch, (*action_addr,)),
    ensures
        exists|fetched: Result<Record, Error>|
            call_ensures(fetch, (*action_addr,), fetched) && payload == payload_of_fetched::<CreateLink>(
                fetched,
            ),
{
    summon_action_payload::<CreateLink, F>(action_addr, fetch)
}

/// Fetches the action at `action_addr`, which must be a `DeleteLink`.
pub fn summon_delete_link_action<F>(action_addr: &ActionHash, fetch: F) -> (payload: Result<
    DeleteLink,
    Error,
>) where F: Fn(ActionHash) -> Result<Record, Error>
    requires
        call_requires(fetch, (*action_addr,)),
    ensures
        exists|fetched: Result<Record, Error>|
            call_ensures(fetch, (*action_addr,), fetched) && payload == payload_of_fetched::<DeleteLink>(
                fetched,
            ),
{
    summon_action_payload::<DeleteLink, F>(action_addr, fetch)
}

/// Fetches the action at `action_addr`, which must be an `OpenChain`.
pub fn summon_open_chain_action<F>(action_addr: &ActionHash, fetch: F) -> (payload: Result<
    OpenChain,
    Error,
>) where F: Fn(ActionHash) -> Result<Record, Error>
    requires
        call_requires(fetch, (*action_addr,)),
    ensures
        exists|fetched: Result<Record, Error>|
            call_ensures(fetch, (*action_addr,), fetched) && payload == payload_of_fetched::<OpenChain>(
                fetched,
            ),
{
    summon_action_payload::<OpenChain, F>(action_addr, fetch)
}

/// Fetches the action at `action_addr`, which must be a `CloseChain`.
pub fn summon_close_chain_action<F>(action_addr: &ActionHash, fetch: F) -> (payload: Result<
    CloseChain,
    Error,
>) where F: Fn(ActionHash) -> Result<Record, Error>
    requires
        call_requires(fetch, (*action_addr,)),
    ensures
        exists|fetched: Result<Record, Error>|
            call_ensures(fetch, (*action_addr,), fetched) && payload == payload_of_fetched::<CloseChain>(
                fetched,
            ),
{
    summon_action_payload::<CloseChain, F>(action_addr, fetch)
}

/// Fetches the action at `action_addr`, which must be a `Create`.
pub fn summon_create_action<F>(action_addr: &ActionHash, fetch: F) -> (payload: Result<
    Create,
    Error,
>) where F: Fn(ActionHash) -> Result<Record, Error>
    requires
        call_requires(fetch, (*action_addr,)),
    ensures
        exists|fetched: Result<Record, Error>|
            call_ensures(fetch, (*action_addr,), fetched) && payload == payload_of_fetched::<Create>(
                fetched,
            ),
{
    summon_action_payload::<Create, F>(action_addr, fetch)
}

/// Fetches the action at `action_addr`, which must be an `Update`.
pub fn summon_update_action<F>(action_addr: &ActionHash, fetch: F) -> (payload: Result<
    Update,
    Error,
>) where F: Fn(ActionHash) -> Result<Record, Error>
    requires
        call_requires(fetch, (*action_addr,)),
    ensures
        exists|fetched: Result<Record, Error>|
            call_ensures(fetch, (*action_addr,), fetched) && payload == payload_of_fetched::<Update>(
                fetched,
            ),
{
    summon_action_payload::<Update, F>(action_addr, fetch)
}

/// Fetches the action at `action_addr`, which must be a `Delete`.
pub fn summon_delete_action<F>(action_addr: &ActionHash, fetch: F) -> (payload: Result<
    Delete,
    Error,
>) where F: Fn(ActionHash) -> Result<Record, Error>
    requires
        call_requires(fetch, (*action_addr,)),
    ensures
        exists|fetched: Result<Record, Error>|
            call_ensures(fetch, (*action_addr,), fetched) && payload == payload_of_fetched::<Delete>(
                fetched,
            ),
{
    summon_action_payload::<Delete, F>(action_addr, fetch)
}

} // verus!
