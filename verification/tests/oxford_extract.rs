use dictionary::models::shared::PronunciationVariant;
use dictionary::oxford::{
    audio_from_response, get_definitions, get_grammar_hint, get_header, get_id, get_idioms,
    get_inflections, get_note, get_phrasal_verbs, get_pronunciations, get_see_also,
    get_similar_results, get_word_origin, get_word_url, get_word_variant, load_audio, scrape_html,
    scrape_response, ScrapeErr,
};
use dictionary::models::shared::Audio;

fn entry_page() -> String {
    r#"<html><body>
    <div id="relatedentries"><ul>
      <li><a href="/definition/english/wildcat_2"><span>wildcat</span><pos>noun</pos></a></li>
    </ul></div>
    <div class="entry" id="cat_1">
      <h1 class="headword">cat</h1>
      <span class="pos">noun</span>
      <span class="labels"> (formal) </span>
      <span class="grammar"> [intransitive] </span>
      <div class="inflections">(plural <b>cats</b>)</div>
      <div class="phonetics">
        <div geo="br"><span class="phon"> /kat/ </span><div data-src-mp3="https://a.example/cat-uk.mp3"></div></div>
        <div geo="n_am"><span class="phon">/kaet/</span></div>
        <div><span class="phon">/k/</span></div>
      </div>
      <div class="senses_multiple">
        <span class="shcut-g">
          <h2 class="shcut">animal</h2>
          <li class="sense">
            <span class="dis-g"><span class="dis">(also known)</span></span>
            <span class="labels">(informal)</span>
            <span class="def">a small animal with soft fur</span>
            <span class="use">(not used in the plural)</span>
            <ul class="examples"><li><span class="labels">(figurative)</span><span class="x">The cat sat.</span></li><li><span class="x">A big cat.</span></li></ul>
            <span class="xrefs" xt="see"><a href="/definition/english/the-cheshire-cat"><span>the Cheshire Cat</span></a></span>
            <span class="xrefs" xt="syn"><a href="/definition/english/feline"><span>feline</span></a></span>
            <span unbox="extra_examples"><ul><li><span class="unx">My cat purrs.</span></li></ul></span>
          </li>
        </span>
      </div>
      <span class="xrefs unbox-this"></span>
      <div class="senses_multiple"><span class="xrefs"><a href="/definition/english/fat-cat">fat cat</a><a href="/definition/english/wildcat_3">wildcat</a></span></div>
      <div unbox="wordorigin"><span class="body">Old English catt, catte, of Germanic origin; related to Dutch kat and German Katze; reinforced in Middle English by forms from late Latin cattus.</span></div>
      <div class="idioms">
        <span class="idm-g">
          <span class="idm">be the cat's whiskers</span>
          <span class="labels">(old-fashioned, informal)</span>
          <span class="def">to be the best thing</span>
          <ul class="examples"><li><span class="x">He thinks he's the best.</span></li></ul>
        </span>
        <span class="idm-g">
          <span class="idm">like a cat</span>
          <span class="labels">British English</span><span class="v">like the canary</span>
          <span class="def">very pleased</span>
          <span class="xrefs" xt="nsyn"><a href="/definition/english/smug"><span class="xh">smug</span></a></span>
        </span>
      </div>
      <div class="phrasal_verb_links"><a href="/definition/english/fling-off#flingoff2_e"><span class="xh">fling off</span></a></div>
    </div>
    </body></html>"#
        .to_string()
}

#[test]
fn get_id_ok() {
    assert_eq!("cat_1", get_id(&entry_page()).as_str());
}

#[test]
fn get_header_ok() {
    assert_eq!("cat", get_header(&entry_page()).as_str());
}

#[test]
fn get_word_variant_ok() {
    assert_eq!("noun", get_word_variant(&entry_page()).as_str());
}

#[test]
fn get_note_ok() {
    assert_eq!("(formal)", get_note(&entry_page()).as_str());
}

#[test]
fn get_grammar_hint_ok() {
    assert_eq!("[intransitive]", get_grammar_hint(&entry_page()).as_str());
}

#[test]
fn get_inflections_ok() {
    let page = r#"<html><body><div class="entry" id="husky_1">
      <div class="inflections">(<span>comparative</span> huskier, <span>superlative</span> huskiest)</div>
    </div></body></html>"#;
    assert_eq!(
        &get_inflections(page),
        "(comparative huskier, superlative huskiest)"
    );
    assert_eq!("(plural cats)", get_inflections(&entry_page()).as_str());
}

#[test]
fn get_word_origin_ok() {
    assert_eq!("Old English catt, catte, of Germanic origin; related to Dutch kat and German Katze; reinforced in Middle English by forms from late Latin cattus.", get_word_origin(&entry_page()));
}

#[test]
fn get_see_also_ok() {
    let refs = get_see_also(&entry_page());
    assert_eq!(refs.len(), 2);
    assert_eq!(refs[0].id_ref, "fat-cat");
    assert_eq!(refs[0].word, "fat cat");
    assert_eq!(refs[1].id_ref, "wildcat_3");
    assert_eq!(refs[1].word, "wildcat");
}

#[test]
fn get_phrasal_verbs_ok() {
    let verbs = get_phrasal_verbs(&entry_page());
    assert_eq!(verbs.len(), 1);
    assert_eq!(verbs[0].id_ref, "fling-off#flingoff2_e");
    assert_eq!(verbs[0].word, "fling off");
}

#[test]
fn get_pronunciations_maps_regions_and_sources() {
    let pros = get_pronunciations(&entry_page());
    assert_eq!(pros.len(), 3);
    assert_eq!(pros[0].variant, PronunciationVariant::Uk);
    assert_eq!(pros[0].ipa_str, "/kat/");
    assert_eq!(pros[0].audio_src, "https://a.example/cat-uk.mp3");
    assert_eq!(pros[1].variant, PronunciationVariant::Usa);
    assert_eq!(pros[1].audio_src, "");
    assert_eq!(pros[2].variant, PronunciationVariant::Other);
}

#[test]
fn get_similar_results_ok() {
    let similar = get_similar_results(&entry_page());
    assert_eq!(similar.len(), 1);
    assert_eq!(similar[0].id, "wildcat_2");
    assert_eq!(similar[0].word, "wildcat");
    assert_eq!(similar[0].word_variant, Some("noun".to_string()));
}

#[test]
fn get_idioms_ok() {
    let idioms = get_idioms(&entry_page());
    assert_eq!(idioms.len(), 2);
    assert_eq!(idioms[0].idiom, "be the cat's whiskers");
    assert_eq!(idioms[0].description, "to be the best thing");
    assert_eq!(idioms[0].notes, vec!["(old-fashioned, informal)".to_string()]);
    assert_eq!(idioms[0].examples, vec!["He thinks he's the best.".to_string()]);
    assert_eq!(idioms[0].synonyms.len(), 0);
    // A label followed by a variant sibling is folded into parentheses.
    assert_eq!(idioms[1].notes, vec!["(British English like the canary)".to_string()]);
    assert_eq!(idioms[1].synonyms.len(), 1);
    assert_eq!(idioms[1].synonyms[0].id_ref, "smug");
    assert_eq!(idioms[1].synonyms[0].word, "smug");
}

#[test]
fn get_definitions_ok() {
    let groups = get_definitions(&entry_page());
    assert_eq!(groups.len(), 1);
    assert_eq!(groups[0].group_title, Some("animal".to_string()));
    let sense = &groups[0].definitions[0];
    // Both label regions are prefixed onto the description in order.
    assert_eq!(
        sense.description,
        "(also known) (informal) a small animal with soft fur"
    );
    assert_eq!(sense.use_note, "(not used in the plural)");
    assert_eq!(
        sense.examples,
        vec![
            "(figurative) The cat sat.".to_string(),
            "A big cat.".to_string()
        ]
    );
    assert_eq!(sense.see_also.len(), 1);
    assert_eq!(sense.see_also[0].id_ref, "the-cheshire-cat");
    assert_eq!(sense.see_also[0].word, "the Cheshire Cat");
    assert_eq!(sense.synonyms.len(), 1);
    assert_eq!(sense.synonyms[0].id_ref, "feline");
    assert_eq!(sense.synonyms[0].word, "feline");
    assert_eq!(sense.extra_examples, vec!["My cat purrs.".to_string()]);
    assert_eq!(sense.extra_synonyms.len(), 0);
}

#[test]
fn get_definitions_single_sense_fallback() {
    let page = r#"<html><body><div class="entry" id="husky_1">
      <div class="senses_multiple">
        <li class="sense"><span class="def">sounding deep and rough</span></li>
        <li class="sense"><span class="def">big and strong</span></li>
      </div>
    </div></body></html>"#;
    let groups = get_definitions(page);
    assert_eq!(groups.len(), 1);
    assert_eq!(groups[0].group_title, None);
    assert_eq!(groups[0].definitions.len(), 2);
    assert_eq!(groups[0].definitions[0].description, "sounding deep and rough");
    assert_eq!(groups[0].definitions[1].description, "big and strong");
}

#[test]
fn oxford_extraction_is_deterministic() {
    let page = entry_page();
    assert_eq!(scrape_html(&page), scrape_html(&page));
}

#[test]
fn absent_regions_yield_empty_fields() {
    let scraped = scrape_html("<html><body><p>nothing here</p></body></html>");
    assert_eq!(scraped.ref_id, "");
    assert_eq!(scraped.header, "");
    assert_eq!(scraped.note, "");
    assert_eq!(scraped.grammar_hint, "");
    assert_eq!(scraped.word_variant, "");
    assert_eq!(scraped.word_origin, "");
    assert_eq!(scraped.pronunciations.len(), 0);
    assert_eq!(scraped.definitions.len(), 0);
    assert_eq!(scraped.idioms.len(), 0);
}

#[test]
fn scrape_response_dispatches_on_status() {
    let ok = scrape_response(200, &entry_page());
    assert!(ok.is_ok());
    assert_eq!(ok.unwrap().ref_id, "cat_1");

    match scrape_response(404, "<html></html>") {
        Err(ScrapeErr::NotFound(nf)) => assert_eq!(nf.similar_words.len(), 0),
        other => panic!("unexpected outcome: {:?}", other),
    }

    match scrape_response(503, "<html></html>") {
        Err(ScrapeErr::UnexpectedHtmlStatusCode(code)) => assert_eq!(code, 503),
        other => panic!("unexpected outcome: {:?}", other),
    }
}

#[test]
fn oxford_word_url_ok() {
    assert_eq!(
        get_word_url("cat"),
        "https://www.oxfordlearnersdictionaries.com/definition/english/cat"
    );
}

#[test]
fn audio_from_response_cases() {
    let audio = audio_from_response(
        200,
        Some("audio/mpeg".to_string()),
        Some(vec![1u8, 2, 3]),
    );
    assert_eq!(
        audio,
        Some(Audio { content_type: "audio/mpeg".to_string(), bytes: vec![1u8, 2, 3] })
    );
    assert_eq!(audio_from_response(200, None, Some(vec![1u8])), None);
    assert_eq!(audio_from_response(200, Some("audio/mpeg".to_string()), None), None);
    assert_eq!(
        audio_from_response(404, Some("audio/mpeg".to_string()), Some(vec![1u8])),
        None
    );
}

#[test]
fn load_audio_is_index_aligned() {
    let scraped = get_pronunciations(&entry_page());
    let payloads = vec![
        Some(Audio { content_type: "audio/mpeg".to_string(), bytes: vec![9u8] }),
        None,
        None,
    ];
    let loaded = load_audio(&scraped, &payloads);
    assert_eq!(loaded.len(), 3);
    assert_eq!(loaded[0].variant, PronunciationVariant::Uk);
    assert_eq!(loaded[0].ipa_str, "/kat/");
    assert_eq!(
        loaded[0].audio,
        Some(Audio { content_type: "audio/mpeg".to_string(), bytes: vec![9u8] })
    );
    assert_eq!(loaded[1].audio, None);
    assert_eq!(loaded[2].audio, None);
}
