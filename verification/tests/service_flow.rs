use dictionary::db::database::DbErr;
use dictionary::db::repository::Repository;
use dictionary::models::shared::{Audio, Pronunciation, PronunciationVariant};
use dictionary::models::vocabulary::{SubDefinition, WordVariant};
use dictionary::oxford;
use dictionary::service::DictionaryService;
use dictionary::vocabulary;

fn voc_fetch(word: &str) -> vocabulary::Definition {
    vocabulary::Definition {
        id_ref: word.to_string(),
        header: word.to_string(),
        pronunciations: vec![Pronunciation {
            variant: PronunciationVariant::Usa,
            ipa_str: "/kat/".to_string(),
            audio: Some(Audio {
                content_type: "audio/mpeg".to_string(),
                bytes: vec![1u8, 2, 3],
            }),
        }],
        other_forms: vec!["cats".to_string()],
        short_description: "a small animal".to_string(),
        long_description: "a small domesticated animal".to_string(),
        definitions: vec![SubDefinition {
            variant: WordVariant::Noun,
            description: "a feline".to_string(),
            image: None,
            short_examples: vec!["the cat sat".to_string()],
            synonyms: vec!["feline".to_string()],
        }],
        examples: Vec::new(),
    }
}

fn ox_fetch(word: &str) -> oxford::Definition {
    oxford::Definition {
        id_ref: format!("{}_1", word),
        header: word.to_string(),
        inflections: String::new(),
        note: String::new(),
        grammar_hint: String::new(),
        word_variant: "noun".to_string(),
        similar_results: Vec::new(),
        pronunciations: vec![Pronunciation {
            variant: PronunciationVariant::Uk,
            ipa_str: "/kat/".to_string(),
            audio: None,
        }],
        definitions: Vec::new(),
        see_also: Vec::new(),
        word_origin: "Old English catt.".to_string(),
        idioms: Vec::new(),
        phrasal_verbs: Vec::new(),
        veb_forms: Vec::new(),
    }
}

#[test]
fn miss_path_persists_and_answers_both_sources() {
    let mut service = DictionaryService::new(Repository::new());

    let plan = service.lookup_plan("cat");
    assert!(!plan.cached);
    assert!(plan.need_vocabulary);
    assert!(plan.need_oxford);

    let response = service
        .get_word_definitions("cat".to_string(), Some(voc_fetch("cat")), Some(ox_fetch("cat")))
        .unwrap();

    assert_eq!(response.word, "cat");
    let voc = response.vocabulary_definition.as_ref().unwrap();
    assert_eq!(voc.header, "cat");
    assert_eq!(voc.short_description, "a small animal");
    assert_eq!(voc.definitions.len(), 1);
    let ox = response.oxford_definition.as_ref().unwrap();
    assert_eq!(ox.oxford_ref, "cat_1");
    assert_eq!(ox.word_origin, "Old English catt.");

    assert_eq!(service.repository.definitions.len(), 1);
    assert_eq!(service.repository.voc_definitions.len(), 1);
    assert_eq!(service.repository.ox_definitions.len(), 1);
    assert_eq!(service.repository.audio.len(), 1);
}

#[test]
fn second_lookup_is_pure_cache_hit() {
    let mut service = DictionaryService::new(Repository::new());
    let first = service
        .get_word_definitions("cat".to_string(), Some(voc_fetch("cat")), Some(ox_fetch("cat")))
        .unwrap();

    let plan = service.lookup_plan("cat");
    assert!(plan.cached);
    assert!(!plan.need_vocabulary);
    assert!(!plan.need_oxford);

    let ids_before = service.repository.next_id;
    // The second call is handed nothing to persist and changes nothing.
    let second = service
        .get_word_definitions("cat".to_string(), None, None)
        .unwrap();
    assert_eq!(first, second);
    assert_eq!(service.repository.next_id, ids_before);
    assert_eq!(service.repository.definitions.len(), 1);
    assert_eq!(service.repository.voc_definitions.len(), 1);
    assert_eq!(service.repository.ox_definitions.len(), 1);
    assert_eq!(service.repository.audio.len(), 1);
}

#[test]
fn audio_round_trip() {
    let mut service = DictionaryService::new(Repository::new());
    let response = service
        .get_word_definitions("cat".to_string(), Some(voc_fetch("cat")), None)
        .unwrap();

    let voc = response.vocabulary_definition.as_ref().unwrap();
    let audio_id = voc.pronunciations[0].audio_id.clone().unwrap();

    let audio = service.get_audio(audio_id).unwrap().unwrap();
    assert_eq!(audio.content_type, "audio/mpeg");
    assert_eq!(audio.bytes, vec![1u8, 2, 3]);
    assert_eq!(audio.word, "cat");
}

#[test]
fn partial_failure_still_succeeds() {
    // Source A's fetch succeeded, source B's failed with a transport
    // error: the lookup still succeeds with only A's definition.
    let mut service = DictionaryService::new(Repository::new());
    let response = service
        .get_word_definitions("cat".to_string(), Some(voc_fetch("cat")), None)
        .unwrap();
    assert_eq!(response.word, "cat");
    assert!(response.vocabulary_definition.is_some());
    assert!(response.oxford_definition.is_none());

    // The miss is remembered: no fetch is needed next time either.
    let plan = service.lookup_plan("cat");
    assert!(plan.cached);
}

#[test]
fn partial_failure_oxford_side() {
    // The mirror case: the vocabulary fetch failed, the Oxford fetch
    // succeeded.
    let mut service = DictionaryService::new(Repository::new());
    let response = service
        .get_word_definitions("cat".to_string(), None, Some(ox_fetch("cat")))
        .unwrap();
    assert!(response.vocabulary_definition.is_none());
    assert!(response.oxford_definition.is_some());
}

#[test]
fn invalidation_deletes_only_the_composite() {
    let mut service = DictionaryService::new(Repository::new());
    service
        .get_word_definitions("cat".to_string(), Some(voc_fetch("cat")), Some(ox_fetch("cat")))
        .unwrap();

    service.invalidate_word("cat".to_string()).unwrap();

    // The direct repository read finds nothing for the word.
    assert_eq!(service.repository.get_definition("cat").unwrap(), None);
    // Sub-records and audio are retained.
    assert_eq!(service.repository.voc_definitions.len(), 1);
    assert_eq!(service.repository.ox_definitions.len(), 1);
    assert_eq!(service.repository.audio.len(), 1);

    // A following lookup is a fresh miss: the composite is rebuilt, and
    // the retained sub-records are reused rather than re-persisted.
    let plan = service.lookup_plan("cat");
    assert!(!plan.cached);
    assert!(!plan.need_vocabulary);
    assert!(!plan.need_oxford);

    let response = service
        .get_word_definitions("cat".to_string(), None, None)
        .unwrap();
    assert!(response.vocabulary_definition.is_some());
    assert!(response.oxford_definition.is_some());
    assert_eq!(service.repository.definitions.len(), 1);
    assert_eq!(service.repository.voc_definitions.len(), 1);
}

#[test]
fn upsert_replaces_wholesale() {
    let mut service = DictionaryService::new(Repository::new());
    service
        .get_word_definitions("cat".to_string(), Some(voc_fetch("cat")), None)
        .unwrap();
    service.invalidate_word("cat".to_string()).unwrap();

    // Re-scrape with different content under the same natural key: the
    // stored record is replaced, never merged.
    let mut changed = voc_fetch("cat");
    changed.short_description = "an updated blurb".to_string();
    changed.pronunciations = Vec::new();

    // Drop the stored source record's visibility by searching fresh:
    // the id lookup finds the old record, so hand-persist the changed
    // one through the repository to observe replacement.
    let id = service
        .repository
        .save_voc_definition(changed, "cat".to_string())
        .unwrap();
    assert!(id.is_some());
    assert_eq!(service.repository.voc_definitions.len(), 1);
    assert_eq!(
        service.repository.voc_definitions[0].short_description,
        "an updated blurb"
    );
    // The replacement kept the record's storage id.
    assert_eq!(service.repository.voc_definitions[0].id, id);
}

#[test]
fn get_audio_rejects_malformed_ids() {
    let service = DictionaryService::new(Repository::new());
    assert_eq!(service.get_audio("not-a-number".to_string()), Err(DbErr::ParseIdErr));
    assert_eq!(service.get_audio("".to_string()), Err(DbErr::ParseIdErr));
    // A well-formed id that nothing is stored under is not-found, not an error.
    assert_eq!(service.get_audio("42".to_string()), Ok(None));
}

#[test]
fn absent_storage_id_renders_empty() {
    // A record that never got a storage id answers with an empty id,
    // never with a digit that could collide with a real id.
    let mut doc = voc_fetch("cat");
    doc.pronunciations = Vec::new();
    let stored = dictionary::models::vocabulary::DefinitionDoc {
        id: None,
        voc_ref: doc.id_ref,
        searched_word: "cat".to_string(),
        header: doc.header,
        pronunciations: Vec::new(),
        other_forms: doc.other_forms,
        short_description: doc.short_description,
        long_description: doc.long_description,
        definitions: doc.definitions,
        examples: doc.examples,
    };
    assert_eq!(stored.into_response().id, "");

    let ox = ox_fetch("cat");
    let stored_ox = dictionary::models::oxford::DefinitionDoc {
        id: None,
        id_ref: ox.id_ref,
        searched_word: "cat".to_string(),
        header: ox.header,
        inflections: ox.inflections,
        note: ox.note,
        grammar_hint: ox.grammar_hint,
        word_variant: ox.word_variant,
        similar_results: ox.similar_results,
        pronunciations: Vec::new(),
        definitions: ox.definitions,
        see_also: ox.see_also,
        word_origin: ox.word_origin,
        idioms: ox.idioms,
        phrasal_verbs: ox.phrasal_verbs,
        veb_forms: ox.veb_forms,
    };
    assert_eq!(stored_ox.into_response().id, "");
}

#[test]
fn response_ids_render_in_decimal() {
    let mut service = DictionaryService::new(Repository::new());
    let response = service
        .get_word_definitions("cat".to_string(), Some(voc_fetch("cat")), Some(ox_fetch("cat")))
        .unwrap();
    let voc = response.vocabulary_definition.as_ref().unwrap();
    let ox = response.oxford_definition.as_ref().unwrap();
    // One audio blob then the vocabulary record then the Oxford record.
    assert_eq!(voc.pronunciations[0].audio_id, Some("0".to_string()));
    assert_eq!(voc.id, "1");
    assert_eq!(ox.id, "2");
}
