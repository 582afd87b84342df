use hdi_extensions::{
    decode_by_descriptor, decode_checked_record, detect_app_entry_def, detect_app_entry_unit,
    expect_registered, find_registered, record_has_entry_def, unit_by_descriptor, Action,
    ActionHash, ActionTransformer, ActionType, AgentPubKey, AgentValidationPkg, AnyLinkableHash,
    AppEntryDef, CloseChain, Create, CreateLink, Delete, DeleteLink, Dna, Entry, EntryDefIndex,
    EntryHash, EntryType, EntryVisibility, Error, InitZomesComplete, OpenChain, Record,
    RecordEntry, ScopedEntryDefIndex, ScopedTypeConnector, Update, ZomeIndex,
};

fn action_hash(fill: u8) -> ActionHash {
    ActionHash { raw: [fill; 36] }
}

fn entry_hash(fill: u8) -> EntryHash {
    EntryHash { raw: [fill; 36] }
}

fn author() -> AgentPubKey {
    AgentPubKey { raw: [0xaa; 36] }
}

fn def(zome: u8, entry: u8) -> AppEntryDef {
    AppEntryDef {
        entry_index: EntryDefIndex(entry),
        zome_index: ZomeIndex(zome),
        visibility: EntryVisibility::Public,
    }
}

fn key(zome: u8, entry: u8) -> ScopedEntryDefIndex {
    ScopedEntryDefIndex { zome_index: ZomeIndex(zome), zome_type: EntryDefIndex(entry) }
}

fn create_of(entry_type: EntryType) -> Action {
    Action::Create(Create { author: author(), entry_type, entry_hash: entry_hash(5) })
}

fn update_of(entry_type: EntryType) -> Action {
    Action::Update(Update {
        author: author(),
        original_action_address: action_hash(1),
        original_entry_address: entry_hash(1),
        entry_type,
        entry_hash: entry_hash(6),
    })
}

fn actions_without_entry() -> Vec<Action> {
    vec![
        Action::Dna(Dna { author: author() }),
        Action::AgentValidationPkg(AgentValidationPkg { author: author() }),
        Action::InitZomesComplete(InitZomesComplete { author: author() }),
        Action::CreateLink(CreateLink {
            author: author(),
            base_address: AnyLinkableHash::Action(action_hash(1)),
            target_address: AnyLinkableHash::Entry(entry_hash(2)),
        }),
        Action::DeleteLink(DeleteLink {
            author: author(),
            base_address: AnyLinkableHash::Action(action_hash(1)),
            link_add_address: action_hash(3),
        }),
        Action::OpenChain(OpenChain { author: author() }),
        Action::CloseChain(CloseChain { author: author() }),
        Action::Delete(Delete {
            author: author(),
            deletes_address: action_hash(1),
            deletes_entry_address: entry_hash(1),
        }),
    ]
}

#[derive(Clone, Copy, Debug, PartialEq, Eq)]
enum EntryTypesUnit {
    Post,
    Comment,
}

#[derive(Clone, Debug, PartialEq, Eq)]
struct PostEntry {
    message: String,
}

#[derive(Clone, Debug, PartialEq, Eq)]
struct CommentEntry {
    text: String,
}

#[derive(Clone, Debug, PartialEq, Eq)]
enum EntryTypes {
    Post(PostEntry),
    Comment(CommentEntry),
}

fn text_of(entry: &Entry) -> Result<String, Error> {
    match entry {
        Entry::App(bytes) | Entry::CounterSign(bytes) => String::from_utf8(bytes.clone())
            .map_err(|_| Error::DeserializationMismatch { detail: String::from("invalid utf-8") }),
        _ => Err(Error::NotAppEntry),
    }
}

fn decode_post(entry: &Entry) -> Result<EntryTypes, Error> {
    Ok(EntryTypes::Post(PostEntry { message: text_of(entry)? }))
}

fn decode_comment(entry: &Entry) -> Result<EntryTypes, Error> {
    Ok(EntryTypes::Comment(CommentEntry { text: text_of(entry)? }))
}

type Decoder = fn(&Entry) -> Result<EntryTypes, Error>;

fn table() -> Vec<(ScopedEntryDefIndex, Decoder)> {
    vec![(key(0, 0), decode_post as Decoder), (key(0, 1), decode_comment as Decoder)]
}

fn units() -> Vec<(ScopedEntryDefIndex, EntryTypesUnit)> {
    vec![(key(0, 0), EntryTypesUnit::Post), (key(0, 1), EntryTypesUnit::Comment)]
}

fn unit_of(key: ScopedEntryDefIndex) -> Result<EntryTypesUnit, Error> {
    unit_by_descriptor(&key, &units())
}

fn deserialize(
    zome_index: ZomeIndex,
    entry_index: EntryDefIndex,
    entry: &Entry,
) -> Result<Option<EntryTypes>, Error> {
    match (zome_index.0, entry_index.0) {
        (0, 0) => Ok(Some(decode_post(entry)?)),
        (0, 1) => Ok(Some(decode_comment(entry)?)),
        _ => Ok(None),
    }
}

fn entries(held: Vec<(EntryHash, Entry)>) -> impl Fn(EntryHash) -> Result<Entry, Error> {
    move |address| {
        held.iter()
            .find(|(hash, _)| *hash == address)
            .map(|(_, entry)| entry.clone())
            .ok_or(Error::RecordNotFound)
    }
}

impl ScopedTypeConnector<EntryTypes, EntryTypesUnit> for PostEntry {
    fn unit() -> EntryTypesUnit {
        EntryTypesUnit::Post
    }

    fn app_entry_def() -> AppEntryDef {
        def(0, 0)
    }

    fn decode_record(record: &Record) -> Result<Self, Error> {
        match &record.entry {
            RecordEntry::Present(entry) => Ok(PostEntry { message: text_of(entry)? }),
            _ => Err(Error::RecordNotFound),
        }
    }

    fn to_input(&self) -> EntryTypes {
        EntryTypes::Post(self.clone())
    }
}

fn post_record(action: Action, message: &str) -> Record {
    Record {
        action_address: action_hash(1),
        action,
        entry: RecordEntry::Present(Entry::App(message.as_bytes().to_vec())),
    }
}

#[test]
fn app_entry_def_is_read_from_create_and_update() {
    assert_eq!(detect_app_entry_def(&create_of(EntryType::App(def(2, 3)))), Ok(def(2, 3)));
    assert_eq!(detect_app_entry_def(&update_of(EntryType::App(def(4, 1)))), Ok(def(4, 1)));
}

#[test]
fn private_app_entry_def_keeps_its_visibility() {
    let private = AppEntryDef {
        entry_index: EntryDefIndex(1),
        zome_index: ZomeIndex(0),
        visibility: EntryVisibility::Private,
    };
    assert_eq!(detect_app_entry_def(&create_of(EntryType::App(private))), Ok(private));
}

#[test]
fn system_entry_types_are_no_app_entry() {
    for entry_type in [EntryType::AgentPubKey, EntryType::CapClaim, EntryType::CapGrant] {
        assert_eq!(detect_app_entry_def(&create_of(entry_type)), Err(Error::NotAppEntry));
        assert_eq!(detect_app_entry_def(&update_of(entry_type)), Err(Error::NotAppEntry));
    }
}

#[test]
fn genesis_actions_are_no_app_entry() {
    assert_eq!(
        detect_app_entry_def(&Action::Dna(Dna { author: author() })),
        Err(Error::NotAppEntry)
    );
    assert_eq!(
        detect_app_entry_def(&Action::AgentValidationPkg(AgentValidationPkg { author: author() })),
        Err(Error::NotAppEntry)
    );
    assert_eq!(
        detect_app_entry_def(&Action::InitZomesComplete(InitZomesComplete { author: author() })),
        Err(Error::NotAppEntry)
    );
}

#[test]
fn actions_without_entry_are_no_app_entry() {
    for action in actions_without_entry() {
        assert_eq!(detect_app_entry_def(&action), Err(Error::NotAppEntry));
    }
}

#[test]
fn scoped_index_is_zome_and_entry_index() {
    assert_eq!(def(7, 9).scoped_index(), key(7, 9));
}

#[test]
fn first_line_under_the_key_is_found() {
    let lines = vec![(key(0, 0), 'a'), (key(0, 1), 'b'), (key(0, 1), 'c'), (key(1, 0), 'd')];
    assert_eq!(find_registered(&lines, &key(0, 0)), Some(0));
    assert_eq!(find_registered(&lines, &key(0, 1)), Some(1));
    assert_eq!(find_registered(&lines, &key(1, 0)), Some(3));
    assert_eq!(find_registered(&lines, &key(1, 1)), None);
    assert_eq!(find_registered(&Vec::<(ScopedEntryDefIndex, char)>::new(), &key(0, 0)), None);
}

#[test]
fn unit_is_looked_up_by_the_entry_def() {
    assert_eq!(
        detect_app_entry_unit(&create_of(EntryType::App(def(0, 0))), unit_of),
        Ok(EntryTypesUnit::Post)
    );
    assert_eq!(
        detect_app_entry_unit(&update_of(EntryType::App(def(0, 1))), unit_of),
        Ok(EntryTypesUnit::Comment)
    );
}

#[test]
fn unit_of_an_unregistered_def_is_missing() {
    assert_eq!(
        detect_app_entry_unit(&create_of(EntryType::App(def(3, 0))), unit_of),
        Err(Error::NoMatchingRegisteredType { descriptor: key(3, 0) })
    );
}

#[test]
fn unit_of_an_action_without_app_entry_is_refused() {
    assert_eq!(
        detect_app_entry_unit(&create_of(EntryType::CapGrant), unit_of),
        Err(Error::NotAppEntry)
    );
    for action in actions_without_entry() {
        assert_eq!(detect_app_entry_unit(&action, unit_of), Err(Error::NotAppEntry));
    }
}

#[test]
fn entry_is_decoded_by_the_registered_decoder() {
    let entry = Entry::App(b"hello".to_vec());
    assert_eq!(
        decode_by_descriptor(&key(0, 0), &entry, &table()),
        Ok(EntryTypes::Post(PostEntry { message: String::from("hello") }))
    );
    assert_eq!(
        decode_by_descriptor(&key(0, 1), &entry, &table()),
        Ok(EntryTypes::Comment(CommentEntry { text: String::from("hello") }))
    );
}

#[test]
fn unregistered_descriptor_has_no_decoder() {
    let entry = Entry::App(b"hello".to_vec());
    assert_eq!(
        decode_by_descriptor(&key(1, 0), &entry, &table()),
        Err(Error::NoMatchingRegisteredType { descriptor: key(1, 0) })
    );
    let empty: Vec<(ScopedEntryDefIndex, Decoder)> = Vec::new();
    assert_eq!(
        decode_by_descriptor(&key(0, 0), &entry, &empty),
        Err(Error::NoMatchingRegisteredType { descriptor: key(0, 0) })
    );
}

#[test]
fn failure_of_the_registered_decoder_is_handed_on() {
    let entry = Entry::App(vec![0xff, 0xfe]);
    assert_eq!(
        decode_by_descriptor(&key(0, 0), &entry, &table()),
        Err(Error::DeserializationMismatch { detail: String::from("invalid utf-8") })
    );
}

#[test]
fn first_registered_decoder_wins() {
    let doubled: Vec<(ScopedEntryDefIndex, Decoder)> =
        vec![(key(0, 0), decode_comment as Decoder), (key(0, 0), decode_post as Decoder)];
    assert_eq!(
        decode_by_descriptor(&key(0, 0), &Entry::App(b"x".to_vec()), &doubled),
        Ok(EntryTypes::Comment(CommentEntry { text: String::from("x") }))
    );
}

#[test]
fn action_summons_its_app_entry() {
    let action = create_of(EntryType::App(def(0, 0)));
    let fetch = entries(vec![(entry_hash(5), Entry::App(b"hello".to_vec()))]);
    assert_eq!(
        action.summon_app_entry(fetch, deserialize),
        Ok(EntryTypes::Post(PostEntry { message: String::from("hello") }))
    );
}

#[test]
fn update_summons_the_entry_it_carries() {
    let action = update_of(EntryType::App(def(0, 1)));
    let fetch = entries(vec![
        (entry_hash(1), Entry::App(b"old".to_vec())),
        (entry_hash(6), Entry::App(b"new".to_vec())),
    ]);
    assert_eq!(
        action.summon_app_entry(fetch, deserialize),
        Ok(EntryTypes::Comment(CommentEntry { text: String::from("new") }))
    );
}

#[test]
fn action_without_entry_summons_nothing() {
    for action in actions_without_entry() {
        let fetch = entries(vec![(entry_hash(5), Entry::App(b"hello".to_vec()))]);
        assert_eq!(
            action.summon_app_entry(fetch, deserialize),
            Err(Error::NotACreationAction { actual: action.action_type() })
        );
    }
}

#[test]
fn action_with_a_system_entry_summons_nothing() {
    let action = create_of(EntryType::CapClaim);
    let fetch = entries(vec![(entry_hash(5), Entry::CapClaim)]);
    assert_eq!(action.summon_app_entry(fetch, deserialize), Err(Error::NotAppEntry));
}

#[test]
fn action_with_a_missing_entry_fails() {
    let action = create_of(EntryType::App(def(0, 0)));
    assert_eq!(action.summon_app_entry(entries(vec![]), deserialize), Err(Error::RecordNotFound));
}

#[test]
fn action_with_an_unregistered_def_fails() {
    let action = create_of(EntryType::App(def(9, 9)));
    let fetch = entries(vec![(entry_hash(5), Entry::App(b"hello".to_vec()))]);
    assert_eq!(
        action.summon_app_entry(fetch, deserialize),
        Err(Error::NoMatchingRegisteredType { descriptor: key(9, 9) })
    );
}

#[test]
fn connector_names_its_unit_and_input() {
    let post = PostEntry { message: String::from("hello") };
    assert_eq!(PostEntry::unit(), EntryTypesUnit::Post);
    assert_eq!(PostEntry::app_entry_def(), def(0, 0));
    assert_eq!(post.to_input(), EntryTypes::Post(post.clone()));
}

#[test]
fn record_of_the_registered_def_matches() {
    let matching = post_record(create_of(EntryType::App(def(0, 0))), "hello");
    assert!(PostEntry::check_record_entry_type(&matching));
    let updated = post_record(update_of(EntryType::App(def(0, 0))), "hello");
    assert!(PostEntry::check_record_entry_type(&updated));
}

#[test]
fn record_of_another_def_does_not_match() {
    let other = post_record(create_of(EntryType::App(def(0, 1))), "hello");
    assert!(!PostEntry::check_record_entry_type(&other));
    let private = AppEntryDef {
        entry_index: EntryDefIndex(0),
        zome_index: ZomeIndex(0),
        visibility: EntryVisibility::Private,
    };
    let hidden = post_record(create_of(EntryType::App(private)), "hello");
    assert!(!PostEntry::check_record_entry_type(&hidden));
    let system = post_record(create_of(EntryType::AgentPubKey), "hello");
    assert!(!PostEntry::check_record_entry_type(&system));
    for action in actions_without_entry() {
        assert!(!PostEntry::check_record_entry_type(&post_record(action, "hello")));
    }
}

#[test]
fn record_of_the_registered_def_is_decoded() {
    let matching = post_record(create_of(EntryType::App(def(0, 0))), "hello");
    assert_eq!(
        PostEntry::try_from_record(&matching),
        Ok(PostEntry { message: String::from("hello") })
    );
}

#[test]
fn record_of_another_def_is_not_decoded() {
    let other = post_record(create_of(EntryType::App(def(0, 1))), "hello");
    assert_eq!(
        PostEntry::try_from_record(&other),
        Err(Error::NoMatchingRegisteredType { descriptor: key(0, 1) })
    );
}

#[test]
fn record_with_a_system_entry_is_not_decoded() {
    let system = post_record(update_of(EntryType::CapGrant), "hello");
    assert_eq!(PostEntry::try_from_record(&system), Err(Error::NotAppEntry));
}

#[test]
fn record_without_a_creation_action_is_not_decoded() {
    for action in actions_without_entry() {
        assert_eq!(
            PostEntry::try_from_record(&post_record(action, "hello")),
            Err(Error::NotACreationAction { actual: action.action_type() })
        );
    }
    assert_eq!(
        PostEntry::try_from_record(&post_record(
            Action::Delete(Delete {
                author: author(),
                deletes_address: action_hash(1),
                deletes_entry_address: entry_hash(1),
            }),
            "hello"
        )),
        Err(Error::NotACreationAction { actual: ActionType::Delete })
    );
}

#[test]
fn failure_of_the_record_decoder_is_handed_on() {
    let mut broken = post_record(create_of(EntryType::App(def(0, 0))), "hello");
    broken.entry = RecordEntry::Hidden;
    assert_eq!(PostEntry::try_from_record(&broken), Err(Error::RecordNotFound));
}

#[test]
fn record_is_held_to_a_given_def() {
    let matching = post_record(create_of(EntryType::App(def(0, 0))), "hello");
    assert!(record_has_entry_def(&matching, &def(0, 0)));
    assert!(!record_has_entry_def(&matching, &def(0, 1)));
    assert!(!record_has_entry_def(&matching, &def(1, 0)));
}

#[test]
fn decoder_is_asked_about_matching_records_only() {
    let asked = std::cell::Cell::new(0_u32);
    let decode = |record: &Record| {
        asked.set(asked.get() + 1);
        PostEntry::decode_record(record)
    };
    let other = post_record(create_of(EntryType::App(def(0, 1))), "hello");
    assert_eq!(
        decode_checked_record(&other, &def(0, 0), &decode),
        Err(Error::NoMatchingRegisteredType { descriptor: key(0, 1) })
    );
    assert_eq!(asked.get(), 0);
    let matching = post_record(create_of(EntryType::App(def(0, 0))), "hello");
    assert_eq!(
        decode_checked_record(&matching, &def(0, 0), &decode),
        Ok(PostEntry { message: String::from("hello") })
    );
    assert_eq!(asked.get(), 1);
}

#[test]
fn found_type_is_reported_and_a_missing_one_named() {
    assert_eq!(expect_registered(&key(0, 0), Ok(Some(7_u8))), Ok(7));
    assert_eq!(
        expect_registered::<u8>(&key(2, 1), Ok(None)),
        Err(Error::NoMatchingRegisteredType { descriptor: key(2, 1) })
    );
    assert_eq!(
        expect_registered::<u8>(&key(0, 0), Err(Error::RecordNotFound)),
        Err(Error::RecordNotFound)
    );
}

#[test]
fn unit_is_read_from_the_table() {
    assert_eq!(unit_by_descriptor(&key(0, 0), &units()), Ok(EntryTypesUnit::Post));
    assert_eq!(unit_by_descriptor(&key(0, 1), &units()), Ok(EntryTypesUnit::Comment));
    assert_eq!(
        unit_by_descriptor(&key(5, 5), &units()),
        Err(Error::NoMatchingRegisteredType { descriptor: key(5, 5) })
    );
    let doubled = vec![(key(0, 0), EntryTypesUnit::Comment), (key(0, 0), EntryTypesUnit::Post)];
    assert_eq!(unit_by_descriptor(&key(0, 0), &doubled), Ok(EntryTypesUnit::Comment));
}

#[test]
fn failure_of_the_unit_mapping_is_handed_on() {
    let refuse = |_: ScopedEntryDefIndex| Err::<EntryTypesUnit, Error>(Error::RecordNotFound);
    assert_eq!(
        detect_app_entry_unit(&create_of(EntryType::App(def(0, 0))), refuse),
        Err(Error::RecordNotFound)
    );
}

#[test]
fn mapping_gets_the_key_of_the_entry_def() {
    let echo = |key: ScopedEntryDefIndex| Ok::<(u8, u8), Error>((key.zome_index.0, key.zome_type.0));
    assert_eq!(detect_app_entry_unit(&create_of(EntryType::App(def(4, 7))), echo), Ok((4, 7)));
}

#[test]
fn deserializer_gets_zome_index_entry_index_and_entry() {
    let action = create_of(EntryType::App(def(4, 7)));
    let fetch = entries(vec![(entry_hash(5), Entry::App(vec![1, 2, 3]))]);
    let echo = |zome_index: ZomeIndex, entry_index: EntryDefIndex, entry: &Entry| {
        Ok::<Option<(u8, u8, Entry)>, Error>(Some((zome_index.0, entry_index.0, entry.clone())))
    };
    assert_eq!(action.summon_app_entry(fetch, echo), Ok((4, 7, Entry::App(vec![1, 2, 3]))));
}

#[test]
fn failure_of_the_deserializer_is_handed_on() {
    let action = create_of(EntryType::App(def(0, 0)));
    let fetch = entries(vec![(entry_hash(5), Entry::App(vec![0xff, 0xfe]))]);
    assert_eq!(
        action.summon_app_entry(fetch, deserialize),
        Err(Error::DeserializationMismatch { detail: String::from("invalid utf-8") })
    );
}
