//! Fetching with an expectation: a record whose action is of one type, a
//! create or update, an entry that decodes into a given type.
//!
//! Each `summon_` function takes the fetch as a function value and says what
//! it returns for whatever the fetch answered. The `expect_` functions take
//! the answer itself, for callers that fetch by themselves.

use vstd::prelude::*;

use crate::action::{Action, ActionType, Entry, EntryCreationAction, Record};
use crate::error::{convert_deserialize_error, normalized, DecodeFailure, Error};
use crate::hash::{ActionHash, AnyLinkableHash, EntryHash, ExternalHash};

verus! {

/// What a fetch is reported as when its record must hold an action of one
/// type: the record itself where the type is the expected one,
/// `ActionTypeMismatch` where it is another, and the fetch's own failure
/// where it failed.
pub open spec fn record_of_type(fetched: Result<Record, Error>, expected: ActionType) -> Result<
    Record,
    Error,
> {
    match fetched {
        Ok(record) => if record.action.action_type_spec() == expected {
            Ok(record)
        } else {
            Err(
                Error::ActionTypeMismatch {
                    expected,
                    actual: record.action.action_type_spec(),
                },
            )
        },
        Err(error) => Err(error),
    }
}

/// What a fetch is reported as when its record must hold a create or an
/// update.
pub open spec fn creation_of(fetched: Result<Record, Error>) -> Result<EntryCreationAction, Error> {
    match fetched {
        Ok(record) => match record.action.creation_spec() {
            Some(creation) => Ok(creation),
            None => Err(Error::NotACreationAction { actual: record.action.action_type_spec() }),
        },
        Err(error) => Err(error),
    }
}

/// Holds a fetched record to the expected type of action.
pub fn expect_record_type(fetched: Result<Record, Error>, expected: &ActionType) -> (asserted:
    Result<Record, Error>)
    ensures
        asserted == record_of_type(fetched, *expected),
{
    match fetched {
        Ok(record) => {
            let actual = record.action.action_type();
            if actual == *expected {
                Ok(record)
            } else {
                Err(Error::ActionTypeMismatch { expected: *expected, actual })
            }
        },
        Err(error) => Err(error),
    }
}

/// Holds a fetched record to being a create or an update.
pub fn expect_creation_action(fetched: Result<Record, Error>) -> (creation: Result<
    EntryCreationAction,
    Error,
>)
    ensures
        creation == creation_of(fetched),
{
    match fetched {
        Ok(record) => match record.action.creation() {
            Some(creation) => Ok(creation),
            None => Err(Error::NotACreationAction { actual: record.action.action_type() }),
        },
        Err(error) => Err(error),
    }
}

/// Fetches the record at `action_addr` and holds it to the type `action_type`.
///
/// The result is [`record_of_type`] of whatever the fetch returned.
pub fn summon_record_type<F>(action_addr: &ActionHash, action_type: &ActionType, fetch: F) -> (record:
    Result<Record, Error>) where F: Fn(ActionHash) -> Result<Record, Error>
    requires
        call_requires(fetch, (*action_addr,)),
    ensures
        exists|fetched: Result<Record, Error>|
            call_ensures(fetch, (*action_addr,), fetched) && record == record_of_type(
                fetched,
                *action_type,
            ),
{
    let fetched = fetch(*action_addr);
    expect_record_type(fetched, action_type)
}

/// Fetches the record at `action_addr` and gives its action as a create or an
/// update, whichever it is.
///
/// The result is [`creation_of`] of whatever the fetch returned.
pub fn summon_creation_action<F>(action_addr: &ActionHash, fetch: F) -> (creation: Result<
    EntryCreationAction,
    Error,
>) where F: Fn(ActionHash) -> Result<Record, Error>
    requires
        call_requires(fetch, (*action_addr,)),
    ensures
        exists|fetched: Result<Record, Error>|
            call_ensures(fetch, (*action_addr,), fetched) && creation == creation_of(fetched),
{
    let fetched = fetch(*action_addr);
    expect_creation_action(fetched)
}

/// Whether `resolved` is a result that resolving `addr` to a value of `T` may
/// have, given the two fetches and the two decoders.
///
/// An external hash resolves to `ResolutionUnsupported`. An action hash has
/// its record fetched and decoded, an entry hash its entry. A failed fetch is
/// reported as it is, a decoder's outcome by [`normalized`].
pub open spec fn resolves_to<T, FR, FE, DR, DE>(
    addr: AnyLinkableHash,
    fetch_record: FR,
    fetch_entry: FE,
    decode_record: DR,
    decode_entry: DE,
    resolved: Result<T, Error>,
) -> bool where
    FR: Fn(ActionHash) -> Result<Record, Error>,
    FE: Fn(EntryHash) -> Result<Entry, Error>,
    DR: Fn(Record) -> Result<T, DecodeFailure>,
    DE: Fn(Entry) -> Result<T, DecodeFailure>,
 {
    match addr {
        AnyLinkableHash::Action(hash) => exists|fetched: Result<Record, Error>|
            #![auto]
            call_ensures(fetch_record, (hash,), fetched) && match fetched {
                Ok(record) => exists|decoded: Result<T, DecodeFailure>|
                    #![auto]
                    call_ensures(decode_record, (record,), decoded) && resolved == normalized(
                        decoded,
                    ),
                Err(error) => resolved == Err::<T, Error>(error),
            },
        AnyLinkableHash::Entry(hash) => exists|fetched: Result<Entry, Error>|
            #![auto]
            call_ensures(fetch_entry, (hash,), fetched) && match fetched {
                Ok(entry) => exists|decoded: Result<T, DecodeFailure>|
                    #![auto]
                    call_ensures(decode_entry, (entry,), decoded) && resolved == normalized(
                        decoded,
                    ),
                Err(error) => resolved == Err::<T, Error>(error),
            },
        AnyLinkableHash::External(_) => resolved == Err::<T, Error>(Error::ResolutionUnsupported),
    }
}

/// Reports a decoder's outcome: its value, or its failure folded into this
/// crate's errors.
pub fn decoded_or_error<T>(decoded: Result<T, DecodeFailure>) -> (reported: Result<T, Error>)
    ensures
        reported == normalized(decoded),
{
    match decoded {
        Ok(value) => Ok(value),
        Err(failure) => Err(convert_deserialize_error(failure)),
    }
}

/// Fetches what `addr` names and decodes it into a value of `T`.
///
/// This holds the payload to the shape of `T` only; it does not look at the
/// entry type that the action declares.
pub fn summon_app_entry<T, FR, FE, DR, DE>(
    addr: &AnyLinkableHash,
    fetch_record: FR,
    fetch_entry: FE,
    decode_record: DR,
    decode_entry: DE,
) -> (resolved: Result<T, Error>) where
    FR: Fn(ActionHash) -> Result<Record, Error>,
    FE: Fn(EntryHash) -> Result<Entry, Error>,
    DR: Fn(Record) -> Result<T, DecodeFailure>,
    DE: Fn(Entry) -> Result<T, DecodeFailure>,

    requires
        *addr matches AnyLinkableHash::Action(hash) ==> call_requires(fetch_record, (hash,)),
        *addr matches AnyLinkableHash::Entry(hash) ==> call_requires(fetch_entry, (hash,)),
        forall|record: Record| call_requires(decode_record, (record,)),
        forall|entry: Entry| call_requires(decode_entry, (entry,)),
    ensures
        resolves_to(*addr, fetch_record, fetch_entry, decode_record, decode_entry, resolved),
        *addr is External ==> resolved == Err::<T, Error>(Error::ResolutionUnsupported),
{
    match addr {
        AnyLinkableHash::Action(action_hash) => match fetch_record(*action_hash) {
            Ok(record) => decoded_or_error(decode_record(record)),
            Err(error) => Err(error),
        },
        AnyLinkableHash::Entry(entry_hash) => match fetch_entry(*entry_hash) {
            Ok(entry) => decoded_or_error(decode_entry(entry)),
            Err(error) => Err(error),
        },
        AnyLinkableHash::External(_) => Err(Error::ResolutionUnsupported),
    }
}

/// Checks that what `addr` names decodes into a value of `T`, and drops the
/// value.
pub fn verify_app_entry_struct<T, FR, FE, DR, DE>(
    addr: &AnyLinkableHash,
    fetch_record: FR,
    fetch_entry: FE,
    decode_record: DR,
    decode_entry: DE,
) -> (verified: Result<(), Error>) where
    FR: Fn(ActionHash) -> Result<Record, Error>,
    FE: Fn(EntryHash) -> Result<Entry, Error>,
    DR: Fn(Record) -> Result<T, DecodeFailure>,
    DE: Fn(Entry) -> Result<T, DecodeFailure>,

    requires
        *addr matches AnyLinkableHash::Action(hash) ==> call_requires(fetch_record, (hash,)),
        *addr matches AnyLinkableHash::Entry(hash) ==> call_requires(fetch_entry, (hash,)),
        forall|record: Record| call_requires(decode_record, (record,)),
        forall|entry: Entry| call_requires(decode_entry, (entry,)),
    ensures
        match verified {
            Ok(()) => exists|value: T|
                resolves_to(
                    *addr,
                    fetch_record,
                    fetch_entry,
                    decode_record,
                    decode_entry,
                    Ok::<T, Error>(value),
                ),
            Err(error) => resolves_to(
                *addr,
                fetch_record,
                fetch_entry,
                decode_record,
                decode_entry,
                Err::<T, Error>(error),
            ),
        },
{
    match summon_app_entry(addr, fetch_record, fetch_entry, decode_record, decode_entry) {
        Ok(_) => Ok(()),
        Err(error) => Err(error),
    }
}

/// Resolving the hash of an entry that the store holds, and that the decoder
/// reads as `value`, gives `value`.
pub proof fn law_stored_entry_resolves_to_its_value<T, FR, FE, DR, DE>(
    hash: EntryHash,
    entry: Entry,
    value: T,
    fetch_record: FR,
    fetch_entry: FE,
    decode_record: DR,
    decode_entry: DE,
    resolved: Result<T, Error>,
) where
    FR: Fn(ActionHash) -> Result<Record, Error>,
    FE: Fn(EntryHash) -> Result<Entry, Error>,
    DR: Fn(Record) -> Result<T, DecodeFailure>,
    DE: Fn(Entry) -> Result<T, DecodeFailure>,

    requires
        forall|fetched: Result<Entry, Error>|
            call_ensures(fetch_entry, (hash,), fetched) ==> fetched == Ok::<Entry, Error>(entry),
        forall|decoded: Result<T, DecodeFailure>|
            call_ensures(decode_entry, (entry,), decoded) ==> decoded == Ok::<T, DecodeFailure>(
                value,
            ),
        resolves_to(
            AnyLinkableHash::Entry(hash),
            fetch_record,
            fetch_entry,
            decode_record,
            decode_entry,
            resolved,
        ),
    ensures
        resolved == Ok::<T, Error>(value),
{
}

/// Resolving an external hash fails with `ResolutionUnsupported`, whatever
/// the store holds.
pub proof fn law_external_hash_is_not_resolved<T, FR, FE, DR, DE>(
    hash: ExternalHash,
    fetch_record: FR,
    fetch_entry: FE,
    decode_record: DR,
    decode_entry: DE,
    resolved: Result<T, Error>,
) where
    FR: Fn(ActionHash) -> Result<Record, Error>,
    FE: Fn(EntryHash) -> Result<Entry, Error>,
    DR: Fn(Record) -> Result<T, DecodeFailure>,
    DE: Fn(Entry) -> Result<T, DecodeFailure>,

    requires
        resolves_to(
            AnyLinkableHash::External(hash),
            fetch_record,
            fetch_entry,
            decode_record,
            decode_entry,
            resolved,
        ),
    ensures
        resolved == Err::<T, Error>(Error::ResolutionUnsupported),
{
}

} // verus!
