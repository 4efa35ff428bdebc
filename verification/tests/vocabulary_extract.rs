use dictionary::models::shared::{Audio, PronunciationVariant};
use dictionary::models::vocabulary::WordVariant;
use dictionary::vocabulary::{
    attach_audio, audio_from_parts, examples_from_feed, examples_from_feed_outcome,
    get_word_examples_url, get_word_url, normalize_word_variant, scrape_definitions,
    scrape_document, scrape_pronunciations, FeedSentence,
};

#[test]
fn scrape_pronunciations_success() {
    let html = r#"
        <div class="ipa-section">
            <div class="ipa-with-audio">
                <div class="us-flag-icon"></div>
                    <a class="audio"></a>
                    <span style="white-space:nowrap;"><h3>/sleɪt/</h3></span>
                </div>
            <div class="ipa-with-audio">
                <div class="uk-flag-icon"></div>
                <a class="audio"><audio class="pron-audio"></audio></a>
                <span style="white-space:nowrap;"><h3>/sleɪt/</h3></span>
            </div>
            <a class="ipa-guide" href="/resources/ipa-pronunciation/">IPA guide</a>
        </div>
    "#;

    let pending = scrape_pronunciations(html);
    let no_audio = vec![None, None];
    let result = attach_audio(&pending, &no_audio);

    let first = &result[0];
    let second = &result[1];

    assert_eq!(first.variant, PronunciationVariant::Usa);
    assert_eq!(first.ipa_str, "/sleɪt/");
    assert_eq!(first.audio, None);

    assert_eq!(second.variant, PronunciationVariant::Uk);
    assert_eq!(second.ipa_str, "/sleɪt/");
    assert_eq!(second.audio, None);
}

#[test]
fn audio_locator_prefers_data_attribute() {
    let html = r#"<div class="ipa-with-audio">
        <div class="us-flag-icon"></div>
        <a class="audio" data-audio="C/CAT001"></a>
        <h3>/kat/</h3>
    </div>"#;
    let pending = scrape_pronunciations(html);
    assert_eq!(pending.len(), 1);
    assert_eq!(
        pending[0].audio_src,
        Some("https://audio.vocab.com/1.0/us/C/CAT001.mp3".to_string())
    );
}

#[test]
fn audio_locator_falls_back_to_media_source() {
    let html = r#"<div class="ipa-with-audio">
        <div class="uk-flag-icon"></div>
        <a class="audio"><audio src="https://a.example/cat.mp3"></audio></a>
        <h3>/kat/</h3>
    </div>"#;
    let pending = scrape_pronunciations(html);
    assert_eq!(
        pending[0].audio_src,
        Some("https://a.example/cat.mp3".to_string())
    );
}

#[test]
fn word_class_fallback_preserves_raw_token() {
    assert_eq!(normalize_word_variant("verb"), WordVariant::Verb);
    assert_eq!(normalize_word_variant(" noun "), WordVariant::Noun);
    assert_eq!(normalize_word_variant("adverb"), WordVariant::Adverb);
    assert_eq!(normalize_word_variant("adjective"), WordVariant::Adjective);
    assert_eq!(
        normalize_word_variant("determiner"),
        WordVariant::Other("determiner".to_string())
    );
    assert_eq!(normalize_word_variant(""), WordVariant::Other("".to_string()));
}

fn definitions_page() -> String {
    r#"<html><body>
    <div id="hdr-word-area">slate</div>
    <div class="word-forms"><b>slates; slated</b></div>
    <p class="short">A short blurb.</p>
    <p class="long">A much longer blurb.</p>
    <div class="word-definitions"><ol>
      <li>
        <div class="definition"><h3>h</h3><a>determiner</a><span>a fine-grained rock</span></div>
        <div class="defContent">
          <div class="example">&#8220;a roof of slate&#8221;</div>
          <div class="instances"><a class="word">shale</a><a class="word">stone</a></div>
        </div>
      </li>
      <li>
        <div class="definition"><h3>h</h3><a>verb</a><span>to criticize harshly</span></div>
      </li>
    </ol></div>
    </body></html>"#
        .to_string()
}

#[test]
fn scrape_definitions_reads_class_description_examples() {
    let defs = scrape_definitions(&definitions_page());
    assert_eq!(defs.len(), 2);
    assert_eq!(defs[0].variant, WordVariant::Other("determiner".to_string()));
    assert_eq!(defs[0].description, "a fine-grained rock");
    assert_eq!(defs[0].short_examples, vec!["a roof of slate".to_string()]);
    assert_eq!(defs[0].synonyms, vec!["shale".to_string(), "stone".to_string()]);
    assert_eq!(defs[0].image, None);
    assert_eq!(defs[1].variant, WordVariant::Verb);
    assert_eq!(defs[1].description, "to criticize harshly");
}

#[test]
fn scrape_document_assembles_record() {
    let examples = examples_from_feed(vec![FeedSentence {
        sentence: "The roof was slate.".to_string(),
        title: "A Book".to_string(),
        author: "An Author".to_string(),
    }]);
    let doc = scrape_document(&definitions_page(), Vec::new(), examples, "slate");
    assert_eq!(doc.id_ref, "slate");
    assert_eq!(doc.header, "slate");
    assert_eq!(
        doc.other_forms,
        vec!["slates".to_string(), "slated".to_string()]
    );
    assert_eq!(doc.short_description, "A short blurb.");
    assert_eq!(doc.long_description, "A much longer blurb.");
    assert_eq!(doc.definitions.len(), 2);
    assert_eq!(doc.examples.len(), 1);
    assert_eq!(doc.examples[0].sentence, "The roof was slate.");
    assert_eq!(doc.examples[0].author, "An Author");
    assert_eq!(doc.examples[0].source_title, "A Book");
}

#[test]
fn vocabulary_extraction_is_deterministic() {
    let page = definitions_page();
    let a = scrape_document(&page, Vec::new(), Vec::new(), "slate");
    let b = scrape_document(&page, Vec::new(), Vec::new(), "slate");
    assert_eq!(a, b);
}

#[test]
fn vocabulary_word_url_ok() {
    assert_eq!(get_word_url("slate"), "https://www.vocabulary.com/dictionary/slate");
}

#[test]
fn get_word_examples_url_ok() {
    assert_eq!(
        get_word_examples_url("slate", 24),
        "https://corpus.vocabulary.com/api/1.0/examples.json?maxResults=24&query=slate&sartOffset=0&domain=F"
    );
}

#[test]
fn audio_from_parts_cases() {
    assert_eq!(
        audio_from_parts(200, Some("audio/mpeg".to_string()), Some(vec![7u8])),
        Some(Audio { content_type: "audio/mpeg".to_string(), bytes: vec![7u8] })
    );
    assert_eq!(audio_from_parts(200, None, Some(vec![7u8])), None);
    assert_eq!(audio_from_parts(200, Some("audio/mpeg".to_string()), None), None);
    // A bad status yields no audio even when a typed body came back.
    assert_eq!(
        audio_from_parts(404, Some("audio/mpeg".to_string()), Some(vec![7u8])),
        None
    );
}

#[test]
fn undecodable_feed_contributes_no_examples() {
    assert_eq!(examples_from_feed_outcome(None), Vec::new());
    let decoded = examples_from_feed_outcome(Some(vec![FeedSentence {
        sentence: "A slate roof.".to_string(),
        title: "A Book".to_string(),
        author: "An Author".to_string(),
    }]));
    assert_eq!(decoded.len(), 1);
    assert_eq!(decoded[0].sentence, "A slate roof.");
}
