//! Entry types: the definition that an action declares for its entry, and
//! the units and decoders that callers register under it.

use vstd::prelude::*;

use crate::action::{
    Action, AppEntryDef, Entry, EntryDefIndex, EntryType, Record, ScopedEntryDefIndex, ZomeIndex,
};
use crate::error::Error;
use crate::hash::EntryHash;

verus! {

impl AppEntryDef {
    /// The key under which the entry type of this definition is registered.
    pub open spec fn scoped_index_spec(&self) -> ScopedEntryDefIndex {
        ScopedEntryDefIndex { zome_index: self.zome_index, zome_type: self.entry_index }
    }

    /// The key under which the entry type of this definition is registered.
    #[verifier::when_used_as_spec(scoped_index_spec)]
    pub fn scoped_index(&self) -> (index: ScopedEntryDefIndex)
        ensures
            index == self.scoped_index_spec(),
    {
        ScopedEntryDefIndex { zome_index: self.zome_index, zome_type: self.entry_index }
    }
}

/// The application entry definition that an action declares. Only a create
/// or an update whose entry is an application entry declares one; every other
/// action gives `NotAppEntry`.
pub open spec fn app_entry_def_of(action: Action) -> Result<AppEntryDef, Error> {
    match action.entry_type_spec() {
        Some(EntryType::App(app_entry_def)) => Ok(app_entry_def),
        _ => Err(Error::NotAppEntry),
    }
}

/// Whether `found` is the place of the first line of `table` that is
/// registered under `key`, or nothing where no line is.
pub open spec fn is_first_match<V>(
    table: Seq<(ScopedEntryDefIndex, V)>,
    key: ScopedEntryDefIndex,
    found: Option<int>,
) -> bool {
    match found {
        Some(place) => {
            &&& 0 <= place < table.len()
            &&& table[place].0 == key
            &&& forall|earlier: int| 0 <= earlier < place ==> (#[trigger] table[earlier]).0 != key
        },
        None => forall|place: int| 0 <= place < table.len() ==> (#[trigger] table[place]).0 != key,
    }
}

/// What a lookup among the registered entry types is reported as: the value
/// that was found, `NoMatchingRegisteredType` where the lookup found no type
/// under the key, and the lookup's own failure where it failed.
pub open spec fn registered_or_missing<T>(
    descriptor: ScopedEntryDefIndex,
    found: Result<Option<T>, Error>,
) -> Result<T, Error> {
    match found {
        Ok(Some(value)) => Ok(value),
        Ok(None) => Err(Error::NoMatchingRegisteredType { descriptor }),
        Err(error) => Err(error),
    }
}

/// Whether `unit` is what a table of units holds under `descriptor`: the unit
/// of the first line under it, and `NoMatchingRegisteredType` where no line
/// is.
pub open spec fn is_unit_by<U>(
    descriptor: ScopedEntryDefIndex,
    units: Seq<(ScopedEntryDefIndex, U)>,
    unit: Result<U, Error>,
) -> bool {
    exists|found: Option<int>|
        #![auto]
        is_first_match(units, descriptor, found) && match found {
            Some(place) => unit == Ok::<U, Error>(units[place].1),
            None => unit == Err::<U, Error>(Error::NoMatchingRegisteredType { descriptor }),
        }
}

/// Whether `decoded` is a result that decoding `entry` by a table of decoders
/// may have: what the first decoder under `descriptor` may return for the
/// entry, and `NoMatchingRegisteredType` where none is registered.
pub open spec fn is_decoded_by<T, D>(
    descriptor: ScopedEntryDefIndex,
    entry: Entry,
    table: Seq<(ScopedEntryDefIndex, D)>,
    decoded: Result<T, Error>,
) -> bool where D: Fn(&Entry) -> Result<T, Error> {
    exists|found: Option<int>|
        #![auto]
        is_first_match(table, descriptor, found) && match found {
            Some(place) => call_ensures(table[place].1, (&entry,), decoded),
            None => decoded == Err::<T, Error>(Error::NoMatchingRegisteredType { descriptor }),
        }
}

/// Whether `unit` is a result that mapping the entry definition of `action`
/// to a unit may have: what `unit_of` may return for the definition's key,
/// and `NotAppEntry` where the action declares no application entry.
pub open spec fn is_unit_of<U, M>(action: Action, unit_of: M, unit: Result<U, Error>) -> bool where
    M: Fn(ScopedEntryDefIndex) -> Result<U, Error>,
 {
    match app_entry_def_of(action) {
        Ok(app_entry_def) => call_ensures(unit_of, (app_entry_def.scoped_index_spec(),), unit),
        Err(error) => unit == Err::<U, Error>(error),
    }
}

/// Whether `decoded` is a result that fetching and decoding the entry of
/// `action` may have.
///
/// An action that is neither a create nor an update gives
/// `NotACreationAction`, one whose entry is no application entry
/// `NotAppEntry`. A failed fetch is reported as it is. The fetched entry is
/// handed to `deserialize_from_type` with the zome and the index of the
/// action's entry definition, and what that returns is reported by
/// [`registered_or_missing`].
pub open spec fn is_app_entry_of<T, F, D>(
    action: Action,
    fetch_entry: F,
    deserialize_from_type: D,
    decoded: Result<T, Error>,
) -> bool where
    F: Fn(EntryHash) -> Result<Entry, Error>,
    D: Fn(ZomeIndex, EntryDefIndex, &Entry) -> Result<Option<T>, Error>,
 {
    match action.creation_spec() {
        Some(creation) => match app_entry_def_of(action) {
            Ok(app_entry_def) => exists|fetched: Result<Entry, Error>|
                #![auto]
                call_ensures(fetch_entry, (creation.entry_hash_spec(),), fetched) && match fetched {
                    Ok(entry) => exists|found: Result<Option<T>, Error>|
                        #![auto]
                        call_ensures(
                            deserialize_from_type,
                            (app_entry_def.zome_index, app_entry_def.entry_index, &entry),
                            found,
                        ) && decoded == registered_or_missing(
                            app_entry_def.scoped_index_spec(),
                            found,
                        ),
                    Err(error) => decoded == Err::<T, Error>(error),
                },
            Err(error) => decoded == Err::<T, Error>(error),
        },
        None => decoded == Err::<T, Error>(
            Error::NotACreationAction { actual: action.action_type_spec() },
        ),
    }
}

/// The application entry definition that `action` declares.
pub fn detect_app_entry_def(action: &Action) -> (detected: Result<AppEntryDef, Error>)
    ensures
        detected == app_entry_def_of(*action),
        *action is Dna || *action is AgentValidationPkg || *action is InitZomesComplete
            ==> detected == Err::<AppEntryDef, Error>(Error::NotAppEntry),
{
    match action.entry_type() {
        Some(EntryType::App(app_entry_def)) => Ok(app_entry_def),
        _ => Err(Error::NotAppEntry),
    }
}

/// The unit that `unit_of` gives for the entry definition of `action`.
pub fn detect_app_entry_unit<U, M>(action: &Action, unit_of: M) -> (unit: Result<U, Error>) where
    M: Fn(ScopedEntryDefIndex) -> Result<U, Error>,

    requires
        forall|key: ScopedEntryDefIndex| call_requires(unit_of, (key,)),
    ensures
        is_unit_of(*action, unit_of, unit),
{
    match detect_app_entry_def(action) {
        Ok(app_entry_def) => unit_of(app_entry_def.scoped_index()),
        Err(error) => Err(error),
    }
}

/// Reports a lookup among the registered entry types.
pub fn expect_registered<T>(descriptor: &ScopedEntryDefIndex, found: Result<Option<T>, Error>) -> (decoded:
    Result<T, Error>)
    ensures
        decoded == registered_or_missing(*descriptor, found),
{
    match found {
        Ok(Some(value)) => Ok(value),
        Ok(None) => Err(Error::NoMatchingRegisteredType { descriptor: *descriptor }),
        Err(error) => Err(error),
    }
}

/// Finds the first line of `table` that is registered under `key`.
pub fn find_registered<V>(table: &Vec<(ScopedEntryDefIndex, V)>, key: &ScopedEntryDefIndex) -> (found:
    Option<usize>)
    ensures
        is_first_match(
            table@,
            *key,
            match found {
                Some(place) => Some(place as int),
                None => None,
            },
        ),
{
    let mut place: usize = 0;
    while place < table.len()
        invariant
            place <= table.len(),
            forall|earlier: int| 0 <= earlier < place ==> (#[trigger] table@[earlier]).0 != *key,
        decreases table.len() - place,
    {
        if table[place].0 == *key {
            return Some(place);
        }
        place += 1;
    }
    None
}

/// The unit that the table `units` holds under `descriptor`.
pub fn unit_by_descriptor<U: Copy>(
    descriptor: &ScopedEntryDefIndex,
    units: &Vec<(ScopedEntryDefIndex, U)>,
) -> (unit: Result<U, Error>)
    ensures
        is_unit_by(*descriptor, units@, unit),
{
    let found = find_registered(units, descriptor);
    match found {
        Some(place) => Ok(units[place].1),
        None => Err(Error::NoMatchingRegisteredType { descriptor: *descriptor }),
    }
}

/// Decodes `entry` with the decoder that `table` holds under `descriptor`.
pub fn decode_by_descriptor<T, D>(
    descriptor: &ScopedEntryDefIndex,
    entry: &Entry,
    table: &Vec<(ScopedEntryDefIndex, D)>,
) -> (decoded: Result<T, Error>) where D: Fn(&Entry) -> Result<T, Error>
    requires
        forall|place: int|
            0 <= place < table.len() ==> #[trigger] call_requires(table[place].1, (entry,)),
    ensures
        is_decoded_by(*descriptor, *entry, table@, decoded),
{
    let found = find_registered(table, descriptor);
    match found {
        Some(place) => (table[place].1)(entry),
        None => Err(Error::NoMatchingRegisteredType { descriptor: *descriptor }),
    }
}

/// Conversions of an action.
pub trait ActionTransformer: Sized {
    /// Fetches the application entry that this action carries and has it
    /// decoded as the entry type of its definition.
    fn summon_app_entry<ET, F, D>(&self, fetch_entry: F, deserialize_from_type: D) -> Result<
        ET,
        Error,
    > where
        F: Fn(EntryHash) -> Result<Entry, Error>,
        D: Fn(ZomeIndex, EntryDefIndex, &Entry) -> Result<Option<ET>, Error>,

        requires
            forall|hash: EntryHash| call_requires(fetch_entry, (hash,)),
            forall|zome_index: ZomeIndex, entry_index: EntryDefIndex, entry: &Entry|
                call_requires(deserialize_from_type, (zome_index, entry_index, entry)),
    ;
}

impl ActionTransformer for Action {
    fn summon_app_entry<ET, F, D>(&self, fetch_entry: F, deserialize_from_type: D) -> (decoded:
        Result<ET, Error>) where
        F: Fn(EntryHash) -> Result<Entry, Error>,
        D: Fn(ZomeIndex, EntryDefIndex, &Entry) -> Result<Option<ET>, Error>,

        ensures
            is_app_entry_of(*self, fetch_entry, deserialize_from_type, decoded),
    {
        match self.creation() {
            Some(creation) => {
                let app_entry_def = detect_app_entry_def(self)?;
                match fetch_entry(creation.entry_hash()) {
                    Ok(entry) => {
                        let found = deserialize_from_type(
                            app_entry_def.zome_index,
                            app_entry_def.entry_index,
                            &entry,
                        );
                        expect_registered(&app_entry_def.scoped_index(), found)
                    },
                    Err(error) => Err(error),
                }
            },
            None => Err(Error::NotACreationAction { actual: self.action_type() }),
        }
    }
}

/// Whether the record's action carries an application entry of the
/// definition `expected`.
pub open spec fn has_entry_def(record: Record, expected: AppEntryDef) -> bool {
    record.action.creation_spec() is Some && record.action.entry_type_spec() == Some(
        EntryType::App(expected),
    )
}

/// What decoding a record into an entry struct registered under `expected`
/// gives, where `decoded` is what the struct's decoder returned, or would
/// have returned, for the record.
///
/// A record whose action is neither a create nor an update gives
/// `NotACreationAction`, one whose entry is no application entry
/// `NotAppEntry`, and one whose entry is of another definition
/// `NoMatchingRegisteredType` with the key of that definition. Only a record
/// of the expected definition is decoded.
pub open spec fn checked_decoding<S>(
    record: Record,
    expected: AppEntryDef,
    decoded: Result<S, Error>,
) -> Result<S, Error> {
    match record.action.creation_spec() {
        Some(creation) => match creation.entry_type_spec() {
            EntryType::App(app_entry_def) => if app_entry_def == expected {
                decoded
            } else {
                Err(
                    Error::NoMatchingRegisteredType {
                        descriptor: app_entry_def.scoped_index_spec(),
                    },
                )
            },
            _ => Err(Error::NotAppEntry),
        },
        None => Err(Error::NotACreationAction { actual: record.action.action_type_spec() }),
    }
}

/// Whether the record's action carries an application entry of the
/// definition `expected`.
pub fn record_has_entry_def(record: &Record, expected: &AppEntryDef) -> (matches: bool)
    ensures
        matches == has_entry_def(*record, *expected),
{
    match record.action.creation() {
        Some(creation) => match creation.entry_type() {
            EntryType::App(app_entry_def) => *expected == app_entry_def,
            _ => false,
        },
        None => false,
    }
}

/// Decodes a record with `decode`, after checking that its action carries an
/// entry of the definition `expected`.
///
/// The decoder is called on a record of the expected definition only, and
/// the result is [`checked_decoding`] of what it returned.
pub fn decode_checked_record<S, D>(record: &Record, expected: &AppEntryDef, decode: D) -> (decoded:
    Result<S, Error>) where D: Fn(&Record) -> Result<S, Error>
    requires
        call_requires(decode, (record,)),
    ensures
        has_entry_def(*record, *expected) ==> exists|returned: Result<S, Error>|
            #![trigger call_ensures(decode, (record,), returned)]
            call_ensures(decode, (record,), returned) && decoded == checked_decoding(
                *record,
                *expected,
                returned,
            ),
        !has_entry_def(*record, *expected) ==> forall|returned: Result<S, Error>|
            decoded == checked_decoding(*record, *expected, returned),
{
    match record.action.creation() {
        Some(creation) => match creation.entry_type() {
            EntryType::App(app_entry_def) => {
                if *expected == app_entry_def {
                    let returned = decode(record);
                    assert(returned == checked_decoding(*record, *expected, returned));
                    returned
                } else {
                    Err(
                        Error::NoMatchingRegisteredType {
                            descriptor: app_entry_def.scoped_index(),
                        },
                    )
                }
            },
            _ => Err(Error::NotAppEntry),
        },
        None => Err(Error::NotACreationAction { actual: record.action.action_type() }),
    }
}

/// The tie between an entry struct, its line in the zome's enum of entry
/// types and its unit.
///
/// An implementation says which entry definition the struct is registered
/// under and how a record is decoded into it; checking a record against the
/// definition is done here.
pub trait ScopedTypeConnector<T, U>: Sized {
    /// The unit of this entry struct.
    fn unit() -> U;

    /// The entry definition that this struct is registered under.
    fn app_entry_def() -> AppEntryDef;

    /// Decodes the entry of a record, whatever entry type its action declares.
    fn decode_record(record: &Record) -> Result<Self, Error>;

    /// This struct as a line of the zome's enum of entry types.
    fn to_input(&self) -> T;

    /// Whether the record's action carries an entry of the definition that
    /// [`ScopedTypeConnector::app_entry_def`] gives.
    fn check_record_entry_type(record: &Record) -> (matches: bool)
        ensures
            exists|expected: AppEntryDef|
                call_ensures(Self::app_entry_def, (), expected) && matches == has_entry_def(
                    *record,
                    expected,
                ),
    {
        let expected = Self::app_entry_def();
        record_has_entry_def(record, &expected)
    }

    /// Decodes a record into this struct, after checking that its action
    /// carries an entry of this struct's definition: see
    /// [`checked_decoding`].
    fn try_from_record(record: &Record) -> (decoded: Result<Self, Error>)
        ensures
            exists|expected: AppEntryDef|
                call_ensures(Self::app_entry_def, (), expected) && {
                    if has_entry_def(*record, expected) {
                        exists|returned: Result<Self, Error>|
                            #![trigger call_ensures(Self::decode_record, (record,), returned)]
                            call_ensures(Self::decode_record, (record,), returned) && decoded
                                == checked_decoding(*record, expected, returned)
                    } else {
                        forall|returned: Result<Self, Error>|
                            decoded == checked_decoding(*record, expected, returned)
                    }
                },
    {
        let expected = Self::app_entry_def();
        decode_checked_record(record, &expected, Self::decode_record)
    }
}

} // verus!
