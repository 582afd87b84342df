//! Resolution helpers over a hash-linked record store: classifying and
//! narrowing content hashes, asserting the kind of a fetched action, decoding
//! application entries and walking a revision chain back to its origin.
//!
//! The store itself is not part of this crate. Every operation that needs it
//! takes the fetch as a function value, and its contract is stated relative to
//! what that function may return.

pub mod action;
pub mod entry_types;
pub mod error;
pub mod hash;
pub mod payload;
pub mod summon;
pub mod trace;

pub use action::{
    Action, ActionType, AgentValidationPkg, AppEntryDef, CloseChain, Create, CreateLink, Delete,
    DeleteLink, Dna, Entry, EntryCreationAction, EntryDefIndex, EntryType, EntryVisibility,
    InitZomesComplete, OpenChain, Record, RecordEntry, ScopedEntryDefIndex, Update, ZomeIndex,
};
pub use entry_types::{
    decode_by_descriptor, decode_checked_record, detect_app_entry_def, detect_app_entry_unit,
    expect_registered, find_registered, record_has_entry_def, unit_by_descriptor,
    ActionTransformer, ScopedTypeConnector,
};
pub use error::{convert_deserialize_error, DecodeFailure, Error};
pub use hash::{
    select_dht_hash, select_linkable_hash, ActionHash, AgentPubKey, AnyDhtHash,
    AnyDhtHashTransformer, AnyLinkableHash, AnyLinkableHashTransformer, EntryHash, ExternalHash,
    HashKind, LinkDirectionInput,
};
pub use payload::{
    expect_action_payload, summon_action_payload, summon_agent_validation_pkg_action,
    summon_close_chain_action, summon_create_action, summon_create_link_action,
    summon_delete_action, summon_delete_link_action, summon_dna_action,
    summon_init_zomes_complete_action, summon_open_chain_action, summon_update_action,
    ActionPayload,
};
pub use summon::{
    decoded_or_error, expect_creation_action, expect_record_type, summon_app_entry,
    summon_creation_action, summon_record_type, verify_app_entry_struct,
};
pub use trace::{trace_origin, trace_origin_root, trace_origin_within, TraceState};
