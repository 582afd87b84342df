//! Content hashes: their kinds, parsing them from text and narrowing them.

use vstd::prelude::*;
use vstd::string::StringSliceAdditionalSpecFns;

use crate::error::Error;

verus! {

/// The kind of object that a content hash names. The kind is part of the hash:
/// telling it needs no fetch.
#[derive(Clone, Copy, Debug, PartialEq, Eq, Hash, Structural)]
pub enum HashKind {
    Action,
    Entry,
    External,
}

/// The address of an action: 32 bytes of digest and 4 bytes of location.
#[derive(Clone, Copy, Debug, PartialEq, Eq, Hash)]
pub struct ActionHash {
    pub raw: [u8; 36],
}

/// The address of an entry: 32 bytes of digest and 4 bytes of location.
#[derive(Clone, Copy, Debug, PartialEq, Eq, Hash)]
pub struct EntryHash {
    pub raw: [u8; 36],
}

/// The address of something outside the record store.
#[derive(Clone, Copy, Debug, PartialEq, Eq, Hash)]
pub struct ExternalHash {
    pub raw: [u8; 36],
}

/// The public key of the agent who signed an action.
#[derive(Clone, Copy, Debug, PartialEq, Eq, Hash)]
pub struct AgentPubKey {
    pub raw: [u8; 36],
}

impl View for ActionHash {
    type V = Seq<u8>;

    open spec fn view(&self) -> Seq<u8> {
        self.raw@
    }
}

impl View for EntryHash {
    type V = Seq<u8>;

    open spec fn view(&self) -> Seq<u8> {
        self.raw@
    }
}

impl View for ExternalHash {
    type V = Seq<u8>;

    open spec fn view(&self) -> Seq<u8> {
        self.raw@
    }
}

impl View for AgentPubKey {
    type V = Seq<u8>;

    open spec fn view(&self) -> Seq<u8> {
        self.raw@
    }
}

/// A hash of anything that a link can point at.
#[derive(Clone, Copy, Debug, PartialEq, Eq, Hash)]
pub enum AnyLinkableHash {
    Action(ActionHash),
    Entry(EntryHash),
    External(ExternalHash),
}

/// A hash of anything that the record store can hold.
#[derive(Clone, Copy, Debug, PartialEq, Eq, Hash)]
pub enum AnyDhtHash {
    Action(ActionHash),
    Entry(EntryHash),
}

impl AnyLinkableHash {
    /// The kind that the hash is tagged with.
    pub open spec fn kind_spec(&self) -> HashKind {
        match *self {
            AnyLinkableHash::Action(_) => HashKind::Action,
            AnyLinkableHash::Entry(_) => HashKind::Entry,
            AnyLinkableHash::External(_) => HashKind::External,
        }
    }

    /// The kind that the hash is tagged with.
    #[verifier::when_used_as_spec(kind_spec)]
    pub fn kind(&self) -> (kind: HashKind)
        ensures
            kind == self.kind_spec(),
    {
        match self {
            AnyLinkableHash::Action(_) => HashKind::Action,
            AnyLinkableHash::Entry(_) => HashKind::Entry,
            AnyLinkableHash::External(_) => HashKind::External,
        }
    }
}

impl AnyDhtHash {
    /// The kind that the hash is tagged with; never `External`.
    pub open spec fn kind_spec(&self) -> HashKind {
        match *self {
            AnyDhtHash::Action(_) => HashKind::Action,
            AnyDhtHash::Entry(_) => HashKind::Entry,
        }
    }

    /// The kind that the hash is tagged with.
    #[verifier::when_used_as_spec(kind_spec)]
    pub fn kind(&self) -> (kind: HashKind)
        ensures
            kind == self.kind_spec(),
    {
        match self {
            AnyDhtHash::Action(_) => HashKind::Action,
            AnyDhtHash::Entry(_) => HashKind::Entry,
        }
    }
}

/// The action hash that `text` encodes, if it encodes one.
pub uninterp spec fn action_hash_of_text(text: Seq<char>) -> Option<ActionHash>;

/// The entry hash that `text` encodes, if it encodes one.
pub uninterp spec fn entry_hash_of_text(text: Seq<char>) -> Option<EntryHash>;

/// The external hash that `text` encodes, if it encodes one.
pub uninterp spec fn external_hash_of_text(text: Seq<char>) -> Option<ExternalHash>;

/// Whether the text begins with a character of one byte. An encoded hash
/// begins with the letter `u`, so a text without such a character encodes
/// nothing, and the decoders are not asked about it.
pub open spec fn has_one_byte_head(text: Seq<char>) -> bool {
    vstd::utf8::is_char_boundary(vstd::utf8::encode_utf8(text), 1)
}

/// `HoloHash::<hash_type::Action>::try_from(&str)` of `holo_hash`: the hash
/// that the text encodes, without its three bytes of prefix, or nothing where
/// the decoder refuses the text. The decoder slices off the first byte of the
/// text before anything else, so the text must have a character boundary there.
#[verifier::external_body]
fn decode_action_hash(text: &str) -> (decoded: Option<ActionHash>)
    requires
        has_one_byte_head(text@),
    ensures
        decoded == action_hash_of_text(text@),
{
    match hdi::prelude::ActionHash::try_from(text) {
        Ok(hash) => Some(ActionHash { raw: hash.get_raw_36().try_into().unwrap() }),
        Err(_) => None,
    }
}

/// `HoloHash::<hash_type::Entry>::try_from(&str)` of `holo_hash`: as
/// [`decode_action_hash`], for the entry prefix.
#[verifier::external_body]
fn decode_entry_hash(text: &str) -> (decoded: Option<EntryHash>)
    requires
        has_one_byte_head(text@),
    ensures
        decoded == entry_hash_of_text(text@),
{
    match hdi::prelude::EntryHash::try_from(text) {
        Ok(hash) => Some(EntryHash { raw: hash.get_raw_36().try_into().unwrap() }),
        Err(_) => None,
    }
}

/// `HoloHash::<hash_type::External>::try_from(&str)` of `holo_hash`: as
/// [`decode_action_hash`], for the external prefix.
#[verifier::external_body]
fn decode_external_hash(text: &str) -> (decoded: Option<ExternalHash>)
    requires
        has_one_byte_head(text@),
    ensures
        decoded == external_hash_of_text(text@),
{
    match hdi::prelude::ExternalHash::try_from(text) {
        Ok(hash) => Some(ExternalHash { raw: hash.get_raw_36().try_into().unwrap() }),
        Err(_) => None,
    }
}

/// Whether the text is the encoding of an action hash.
pub open spec fn is_action_text(text: Seq<char>) -> bool {
    has_one_byte_head(text) && action_hash_of_text(text) is Some
}

/// Whether the text is the encoding of an entry hash.
pub open spec fn is_entry_text(text: Seq<char>) -> bool {
    has_one_byte_head(text) && entry_hash_of_text(text) is Some
}

/// Whether the text is the encoding of an external hash.
pub open spec fn is_external_text(text: Seq<char>) -> bool {
    has_one_byte_head(text) && external_hash_of_text(text) is Some
}

/// The linkable hash that three decodings of one text stand for: the one that
/// succeeded where exactly one did, `InvalidHashString` where none did, and
/// `AmbiguousHash` where more than one did.
pub open spec fn linkable_of_decodings(
    action: Option<ActionHash>,
    entry: Option<EntryHash>,
    external: Option<ExternalHash>,
) -> Result<AnyLinkableHash, Error> {
    match (action, entry, external) {
        (Some(hash), None, None) => Ok(AnyLinkableHash::Action(hash)),
        (None, Some(hash), None) => Ok(AnyLinkableHash::Entry(hash)),
        (None, None, Some(hash)) => Ok(AnyLinkableHash::External(hash)),
        (None, None, None) => Err(Error::InvalidHashString),
        _ => Err(Error::AmbiguousHash),
    }
}

/// The stored-object hash that two decodings of one text stand for.
pub open spec fn dht_of_decodings(action: Option<ActionHash>, entry: Option<EntryHash>) -> Result<
    AnyDhtHash,
    Error,
> {
    match (action, entry) {
        (Some(hash), None) => Ok(AnyDhtHash::Action(hash)),
        (None, Some(hash)) => Ok(AnyDhtHash::Entry(hash)),
        (None, None) => Err(Error::InvalidHashString),
        (Some(_), Some(_)) => Err(Error::AmbiguousHash),
    }
}

/// What a text parses to as a linkable hash.
pub open spec fn linkable_of_text(text: Seq<char>) -> Result<AnyLinkableHash, Error> {
    if has_one_byte_head(text) {
        linkable_of_decodings(
            action_hash_of_text(text),
            entry_hash_of_text(text),
            external_hash_of_text(text),
        )
    } else {
        Err(Error::InvalidHashString)
    }
}

/// What a text parses to as the hash of a stored object.
pub open spec fn dht_of_text(text: Seq<char>) -> Result<AnyDhtHash, Error> {
    if has_one_byte_head(text) {
        dht_of_decodings(action_hash_of_text(text), entry_hash_of_text(text))
    } else {
        Err(Error::InvalidHashString)
    }
}

/// What narrowing a linkable hash to an action hash gives.
pub open spec fn narrowed_to_action(hash: AnyLinkableHash) -> Result<ActionHash, Error> {
    match hash {
        AnyLinkableHash::Action(inner) => Ok(inner),
        _ => Err(Error::HashKindMismatch { expected: HashKind::Action, actual: hash.kind_spec() }),
    }
}

/// What narrowing a linkable hash to an entry hash gives.
pub open spec fn narrowed_to_entry(hash: AnyLinkableHash) -> Result<EntryHash, Error> {
    match hash {
        AnyLinkableHash::Entry(inner) => Ok(inner),
        _ => Err(Error::HashKindMismatch { expected: HashKind::Entry, actual: hash.kind_spec() }),
    }
}

/// Picks the linkable hash out of the three decodings of one text.
pub fn select_linkable_hash(
    action: Option<ActionHash>,
    entry: Option<EntryHash>,
    external: Option<ExternalHash>,
) -> (selected: Result<AnyLinkableHash, Error>)
    ensures
        selected == linkable_of_decodings(action, entry, external),
{
    match (action, entry, external) {
        (Some(hash), None, None) => Ok(AnyLinkableHash::Action(hash)),
        (None, Some(hash), None) => Ok(AnyLinkableHash::Entry(hash)),
        (None, None, Some(hash)) => Ok(AnyLinkableHash::External(hash)),
        (None, None, None) => Err(Error::InvalidHashString),
        _ => Err(Error::AmbiguousHash),
    }
}

/// Picks the stored-object hash out of the two decodings of one text.
pub fn select_dht_hash(action: Option<ActionHash>, entry: Option<EntryHash>) -> (selected: Result<
    AnyDhtHash,
    Error,
>)
    ensures
        selected == dht_of_decodings(action, entry),
{
    match (action, entry) {
        (Some(hash), None) => Ok(AnyDhtHash::Action(hash)),
        (None, Some(hash)) => Ok(AnyDhtHash::Entry(hash)),
        (None, None) => Err(Error::InvalidHashString),
        (Some(_), Some(_)) => Err(Error::AmbiguousHash),
    }
}

/// Conversions of a linkable hash.
pub trait AnyLinkableHashTransformer: Sized {
    /// Finds out from a text which kind of hash it encodes.
    fn try_from_string(input: &str) -> Result<Self, Error>;

    /// The action hash inside, or an error where the hash is of another kind.
    fn must_be_action_hash(&self) -> Result<ActionHash, Error>;

    /// The entry hash inside, or an error where the hash is of another kind.
    fn must_be_entry_hash(&self) -> Result<EntryHash, Error>;
}

impl AnyLinkableHashTransformer for AnyLinkableHash {
    fn try_from_string(input: &str) -> (parsed: Result<Self, Error>)
        ensures
            parsed == linkable_of_text(input@),
    {
        if input.is_char_boundary(1) {
            let action = decode_action_hash(input);
            let entry = decode_entry_hash(input);
            let external = decode_external_hash(input);
            select_linkable_hash(action, entry, external)
        } else {
            Err(Error::InvalidHashString)
        }
    }

    fn must_be_action_hash(&self) -> (narrowed: Result<ActionHash, Error>)
        ensures
            narrowed == narrowed_to_action(*self),
            *self matches AnyLinkableHash::Action(hash) ==> narrowed == Ok::<ActionHash, Error>(hash),
            *self is Entry ==> narrowed == Err::<ActionHash, Error>(
                Error::HashKindMismatch { expected: HashKind::Action, actual: HashKind::Entry },
            ),
    {
        match self {
            AnyLinkableHash::Action(hash) => Ok(*hash),
            _ => Err(Error::HashKindMismatch { expected: HashKind::Action, actual: self.kind() }),
        }
    }

    fn must_be_entry_hash(&self) -> (narrowed: Result<EntryHash, Error>)
        ensures
            narrowed == narrowed_to_entry(*self),
            *self matches AnyLinkableHash::Entry(hash) ==> narrowed == Ok::<EntryHash, Error>(hash),
            *self is Action ==> narrowed == Err::<EntryHash, Error>(
                Error::HashKindMismatch { expected: HashKind::Entry, actual: HashKind::Action },
            ),
    {
        match self {
            AnyLinkableHash::Entry(hash) => Ok(*hash),
            _ => Err(Error::HashKindMismatch { expected: HashKind::Entry, actual: self.kind() }),
        }
    }
}

/// Conversions of the hash of a stored object.
pub trait AnyDhtHashTransformer: Sized {
    /// Finds out from a text which kind of hash it encodes.
    fn try_from_string(input: &str) -> Result<Self, Error>;
}

impl AnyDhtHashTransformer for AnyDhtHash {
    fn try_from_string(input: &str) -> (parsed: Result<Self, Error>)
        ensures
            parsed == dht_of_text(input@),
    {
        if input.is_char_boundary(1) {
            let action = decode_action_hash(input);
            let entry = decode_entry_hash(input);
            select_dht_hash(action, entry)
        } else {
            Err(Error::InvalidHashString)
        }
    }
}

/// A text that is the encoding of a hash of one kind, and of no other,
/// parses to that hash under the tag of its kind. A text that is no encoding
/// at all fails with `InvalidHashString`, and parsing succeeds on no other
/// text than the encodings of exactly one kind.
pub proof fn law_text_parses_to_the_kind_it_encodes(text: Seq<char>)
    ensures
        is_action_text(text) && !is_entry_text(text) && !is_external_text(text)
            ==> linkable_of_text(text) == Ok::<AnyLinkableHash, Error>(
            AnyLinkableHash::Action(action_hash_of_text(text)->0),
        ),
        !is_action_text(text) && is_entry_text(text) && !is_external_text(text)
            ==> linkable_of_text(text) == Ok::<AnyLinkableHash, Error>(
            AnyLinkableHash::Entry(entry_hash_of_text(text)->0),
        ),
        !is_action_text(text) && !is_entry_text(text) && is_external_text(text)
            ==> linkable_of_text(text) == Ok::<AnyLinkableHash, Error>(
            AnyLinkableHash::External(external_hash_of_text(text)->0),
        ),
        !is_action_text(text) && !is_entry_text(text) && !is_external_text(text)
            ==> linkable_of_text(text) == Err::<AnyLinkableHash, Error>(Error::InvalidHashString),
        linkable_of_text(text) is Ok <==> (is_action_text(text) && !is_entry_text(text)
            && !is_external_text(text)) || (!is_action_text(text) && is_entry_text(text)
            && !is_external_text(text)) || (!is_action_text(text) && !is_entry_text(text)
            && is_external_text(text)),
{
}

/// As [`law_text_parses_to_the_kind_it_encodes`], for the hash of a stored
/// object, which is never external.
pub proof fn law_text_parses_to_the_stored_kind_it_encodes(text: Seq<char>)
    ensures
        is_action_text(text) && !is_entry_text(text) ==> dht_of_text(text) == Ok::<
            AnyDhtHash,
            Error,
        >(AnyDhtHash::Action(action_hash_of_text(text)->0)),
        !is_action_text(text) && is_entry_text(text) ==> dht_of_text(text) == Ok::<
            AnyDhtHash,
            Error,
        >(AnyDhtHash::Entry(entry_hash_of_text(text)->0)),
        !is_action_text(text) && !is_entry_text(text) ==> dht_of_text(text) == Err::<
            AnyDhtHash,
            Error,
        >(Error::InvalidHashString),
        is_action_text(text) && is_entry_text(text) ==> dht_of_text(text) == Err::<
            AnyDhtHash,
            Error,
        >(Error::AmbiguousHash),
{
}

/// The two ends of a link, for asking after the links between them.
#[derive(Clone, Copy, Debug, PartialEq, Eq, Hash)]
pub struct LinkDirectionInput {
    pub base: AnyLinkableHash,
    pub target: AnyLinkableHash,
}

} // verus!
