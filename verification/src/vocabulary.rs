//! Extraction of a vocabulary entry page into the structured model.
//!
//! As with the other source, extraction is a pure function of the
//! fetched document text; the page itself arrives through the
//! challenge-bypass fetch, and the literary examples arrive separately
//! from the examples feed.

use vstd::prelude::*;
use vstd::string::*;
use crate::cloning::clone_option;
use crate::cloudflare_bypasser;
use crate::html;
use crate::html::Css;
use crate::html::RawElem;
use crate::html::RawElemV;
use crate::models::shared::lemma_clone_audio;
use crate::models::shared::Audio;
use crate::models::shared::AudioV;
use crate::models::shared::Pronunciation;
use crate::models::shared::PronunciationV;
use crate::models::shared::PronunciationVariant;
use crate::models::vocabulary::Example;
use crate::models::vocabulary::ExampleV;
use crate::models::vocabulary::SubDefinition;
use crate::models::vocabulary::SubDefinitionV;
use crate::models::vocabulary::WordVariant;
use crate::models::vocabulary::WordVariantV;
use crate::text;

verus! {

/// A complete extracted entry: header, pronunciations with audio,
/// other written forms, the two descriptions, senses and literary
/// examples, keyed by the requested word itself.
#[derive(Debug, PartialEq, Eq)]
pub struct Definition {
    pub id_ref: String,
    pub header: String,
    pub pronunciations: Vec<Pronunciation>,
    pub other_forms: Vec<String>,
    pub short_description: String,
    pub long_description: String,
    pub definitions: Vec<SubDefinition>,
    pub examples: Vec<Example>,
}

/// The mathematical shape of a [`Definition`].
pub struct DefinitionV {
    pub id_ref: Seq<char>,
    pub header: Seq<char>,
    pub pronunciations: Seq<PronunciationV>,
    pub other_forms: Seq<Seq<char>>,
    pub short_description: Seq<char>,
    pub long_description: Seq<char>,
    pub definitions: Seq<SubDefinitionV>,
    pub examples: Seq<ExampleV>,
}

impl DeepView for Definition {
    type V = DefinitionV;

    open spec fn deep_view(&self) -> DefinitionV {
        DefinitionV {
            id_ref: self.id_ref@,
            header: self.header@,
            pronunciations: self.pronunciations.deep_view(),
            other_forms: self.other_forms.deep_view(),
            short_description: self.short_description@,
            long_description: self.long_description@,
            definitions: self.definitions.deep_view(),
            examples: self.examples.deep_view(),
        }
    }
}

/// How a scrape fails: the challenge-bypass fetch gave up, or another
/// request failed (the message is the transport error's text).
#[derive(Debug, PartialEq, Eq)]
pub enum ScrapeErr {
    BypassErr(cloudflare_bypasser::BypassErr),
    GetRequestErr(String),
}

/// A pronunciation as scraped: region, phonetic text, and the audio
/// locator derived from the page, when one was found.
#[derive(Debug, PartialEq, Eq)]
pub struct PendingPronunciation {
    pub variant: PronunciationVariant,
    pub ipa_str: String,
    pub audio_src: Option<String>,
}

/// The mathematical shape of a [`PendingPronunciation`].
pub struct PendingPronunciationV {
    pub variant: PronunciationVariant,
    pub ipa_str: Seq<char>,
    pub audio_src: Option<Seq<char>>,
}

impl DeepView for PendingPronunciation {
    type V = PendingPronunciationV;

    open spec fn deep_view(&self) -> PendingPronunciationV {
        PendingPronunciationV {
            variant: self.variant,
            ipa_str: self.ipa_str@,
            audio_src: self.audio_src.deep_view(),
        }
    }
}

/// One sentence of the auxiliary examples feed: the sentence and its
/// volume's title and author, as the feed carries them.
#[derive(Debug, PartialEq, Eq)]
pub struct FeedSentence {
    pub sentence: String,
    pub title: String,
    pub author: String,
}

/// The mathematical shape of a [`FeedSentence`].
pub struct FeedSentenceV {
    pub sentence: Seq<char>,
    pub title: Seq<char>,
    pub author: Seq<char>,
}

impl DeepView for FeedSentence {
    type V = FeedSentenceV;

    open spec fn deep_view(&self) -> FeedSentenceV {
        FeedSentenceV { sentence: self.sentence@, title: self.title@, author: self.author@ }
    }
}

/// The entry page URL for a word.
pub open spec fn spec_get_word_url(word: Seq<char>) -> Seq<char> {
    "https://www.vocabulary.com/dictionary/"@ + word
}

/// The entry page URL for a word.
pub fn get_word_url(word: &str) -> (r: String)
    ensures
        r@ == spec_get_word_url(word@),
{
    let mut r = String::from_str("https://www.vocabulary.com/dictionary/");
    r.append(word);
    r
}

/// The examples-feed URL for a word and a result budget.
pub open spec fn spec_get_word_examples_url(word: Seq<char>, max_results: u8) -> Seq<char> {
    "https://corpus.vocabulary.com/api/1.0/examples.json?maxResults="@
        + text::spec_render_u64(max_results as u64) + "&query="@ + word + "&sartOffset=0&domain=F"@
}

/// The examples-feed URL for a word and a result budget.
pub fn get_word_examples_url(word: &str, max_results: u8) -> (r: String)
    ensures
        r@ == spec_get_word_examples_url(word@, max_results),
{
    let mut r = String::from_str("https://corpus.vocabulary.com/api/1.0/examples.json?maxResults=");
    let n = text::u64_string(max_results as u64);
    r.append(n.as_str());
    r.append("&query=");
    r.append(word);
    r.append("&sartOffset=0&domain=F");
    proof {
        assert(r@ =~= spec_get_word_examples_url(word@, max_results));
    }
    r
}

/// The word class a raw token denotes: one of the four known classes,
/// and any other token preserved verbatim (trimmed), never discarded.
pub open spec fn spec_word_variant_of(raw: Seq<char>) -> WordVariantV {
    let t = text::trim_spec(raw);
    if t == "verb"@ {
        WordVariantV::Verb
    } else if t == "noun"@ {
        WordVariantV::Noun
    } else if t == "adverb"@ {
        WordVariantV::Adverb
    } else if t == "adjective"@ {
        WordVariantV::Adjective
    } else {
        WordVariantV::Other(t)
    }
}

/// The word class a raw token denotes; a token outside the four known
/// classes comes back verbatim as the fallback class.
pub fn normalize_word_variant(raw: &str) -> (r: WordVariant)
    ensures
        r.deep_view() == spec_word_variant_of(raw@),
{
    let t = text::trim_str(raw);
    if text::str_eq(t.as_str(), "verb") {
        WordVariant::Verb
    } else if text::str_eq(t.as_str(), "noun") {
        WordVariant::Noun
    } else if text::str_eq(t.as_str(), "adverb") {
        WordVariant::Adverb
    } else if text::str_eq(t.as_str(), "adjective") {
        WordVariant::Adjective
    } else {
        WordVariant::Other(t)
    }
}

/// The trimmed text nodes of the first sense-description element of a
/// sense block; empty when the block has none.
pub open spec fn spec_definition_texts(e: RawElemV) -> Seq<Seq<char>> {
    let dl = html::frag_elems(e.html, ".definition"@);
    if dl.len() == 0 {
        Seq::empty()
    } else {
        dl.first().texts.map_values(|t: Seq<char>| text::trim_spec(t))
    }
}

/// One short usage example: the element's text nodes, each rid of curly
/// quotation marks and trimmed, the empty ones dropped, the rest joined
/// with single spaces and trimmed once more.
pub open spec fn spec_example_text_of(ex: RawElemV) -> Seq<char> {
    text::trim_spec(
        text::join_spec(
            ex.texts.map_values(
                |t: Seq<char>| text::trim_spec(text::unquoted_spec(t)),
            ).filter(|t: Seq<char>| t.len() != 0),
            " "@,
        ),
    )
}

/// The sense one sense block denotes: its class token and description
/// read from the trimmed description texts, its short examples and
/// one-word synonyms.
pub open spec fn spec_sub_definition_of(e: RawElemV) -> SubDefinitionV {
    let texts = spec_definition_texts(e);
    let variant_raw: Seq<char> = if texts.len() > 1 {
        texts[1]
    } else {
        Seq::empty()
    };
    let description: Seq<char> = if texts.len() > 2 {
        texts[2]
    } else {
        Seq::empty()
    };
    SubDefinitionV {
        variant: spec_word_variant_of(variant_raw),
        description: description,
        image: None,
        short_examples: html::frag_elems(e.html, ".example"@).map_values(
            |ex: RawElemV| spec_example_text_of(ex),
        ),
        synonyms: html::frag_elems(e.html, ".defContent > .instances .word"@).map_values(
            |w: RawElemV| html::spec_first_text(w),
        ),
    }
}

/// The senses of the entry, one per listed definition block.
pub open spec fn spec_scrape_definitions(h: Seq<char>) -> Seq<SubDefinitionV> {
    html::doc_elems(h, ".word-definitions > ol > li"@).map_values(
        |e: RawElemV| spec_sub_definition_of(e),
    )
}

fn example_text_of(ex: &RawElem) -> (r: String)
    ensures
        r@ == spec_example_text_of(ex.deep_view()),
{
    let ghost f = |t: Seq<char>| text::trim_spec(text::unquoted_spec(t));
    let ghost p = |t: Seq<char>| t.len() != 0;
    let ghost mapped = ex.deep_view().texts.map_values(f);
    let mut pieces: Vec<String> = Vec::new();
    let mut i: usize = 0;
    proof {
        assert(mapped.take(0).filter(p) =~= Seq::<Seq<char>>::empty());
        assert(pieces.deep_view() =~= Seq::<Seq<char>>::empty());
    }
    while i < ex.texts.len()
        invariant
            0 <= i <= ex.texts@.len(),
            ex.deep_view().texts.len() == ex.texts@.len(),
            mapped == ex.deep_view().texts.map_values(f),
            f == (|t: Seq<char>| text::trim_spec(text::unquoted_spec(t))),
            p == (|t: Seq<char>| t.len() != 0),
            pieces.deep_view() == mapped.take(i as int).filter(p),
        decreases ex.texts@.len() - i,
    {
        proof {
            assert(ex.deep_view().texts[i as int] == ex.texts@[i as int]@);
        }
        let cs = text::chars_of(ex.texts[i].as_str());
        let unq = text::remove_curly_quotes(&cs);
        let t = text::trim_chars(&unq);
        proof {
            let u = mapped.take(i as int).push(mapped[i as int]);
            assert(mapped.take(i + 1) =~= u);
            reveal(Seq::filter);
            assert(u.drop_last() =~= mapped.take(i as int));
            assert(u.last() == mapped[i as int]);
            assert(mapped[i as int] == t@);
        }
        if t.len() != 0 {
            let piece = text::string_of(&t);
            let ghost prev = pieces.deep_view();
            pieces.push(piece);
            proof {
                assert(pieces.deep_view() =~= prev.push(piece@));
            }
        }
        i = i + 1;
    }
    proof {
        assert(mapped.take(ex.texts@.len() as int) =~= mapped);
    }
    let joined = text::join_all(&pieces, " ");
    text::trim_str(joined.as_str())
}

fn sub_definition_of(e: &RawElem) -> (r: SubDefinition)
    ensures
        r.deep_view() == spec_sub_definition_of(e.deep_view()),
{
    let dl = html::frag_select(e.html.as_str(), Css(".definition").as_str());
    let ghost texts_spec = spec_definition_texts(e.deep_view());
    let mut texts: Vec<String> = Vec::new();
    if dl.len() > 0 {
        proof {
            assert(dl.deep_view().first() == dl@[0].deep_view());
        }
        let first = &dl[0];
        let ghost tmap = dl@[0].deep_view().texts.map_values(
            |t: Seq<char>| text::trim_spec(t),
        );
        let mut i: usize = 0;
        while i < first.texts.len()
            invariant
                0 <= i <= first.texts@.len(),
                tmap == first.deep_view().texts.map_values(|t: Seq<char>| text::trim_spec(t)),
                first.deep_view().texts.len() == first.texts@.len(),
                texts.deep_view() == tmap.take(i as int),
            decreases first.texts@.len() - i,
        {
            proof {
                assert(first.deep_view().texts[i as int] == first.texts@[i as int]@);
            }
            let t = text::trim_str(first.texts[i].as_str());
            let ghost prev = texts.deep_view();
            texts.push(t);
            proof {
                assert(texts.deep_view() =~= prev.push(t@));
                assert(tmap.take(i + 1) =~= tmap.take(i as int).push(tmap[i as int]));
            }
            i = i + 1;
        }
        proof {
            assert(tmap.take(first.texts@.len() as int) =~= tmap);
            assert(texts.deep_view() == texts_spec);
        }
    } else {
        proof {
            assert(texts.deep_view() =~= texts_spec);
        }
    }

    let variant_raw: String = if texts.len() > 1 {
        proof {
            assert(texts.deep_view()[1] == texts@[1]@);
        }
        texts[1].clone()
    } else {
        let e = String::new();
        e
    };
    let description: String = if texts.len() > 2 {
        proof {
            assert(texts.deep_view()[2] == texts@[2]@);
        }
        texts[2].clone()
    } else {
        let e = String::new();
        e
    };

    let ex_els = html::frag_select(e.html.as_str(), Css(".example").as_str());
    let ghost ex_spec = ex_els.deep_view().map_values(|ex: RawElemV| spec_example_text_of(ex));
    let mut short_examples: Vec<String> = Vec::new();
    let mut j: usize = 0;
    while j < ex_els.len()
        invariant
            0 <= j <= ex_els@.len(),
            ex_els@.len() == ex_els.deep_view().len(),
            ex_spec == ex_els.deep_view().map_values(|ex: RawElemV| spec_example_text_of(ex)),
            short_examples.deep_view() == ex_spec.take(j as int),
        decreases ex_els@.len() - j,
    {
        proof {
            assert(ex_els.deep_view()[j as int] == ex_els@[j as int].deep_view());
        }
        let t = example_text_of(&ex_els[j]);
        let ghost prev = short_examples.deep_view();
        short_examples.push(t);
        proof {
            assert(short_examples.deep_view() =~= prev.push(t@));
            assert(ex_spec.take(j + 1) =~= ex_spec.take(j as int).push(ex_spec[j as int]));
        }
        j = j + 1;
    }
    proof {
        assert(ex_spec.take(ex_els@.len() as int) =~= ex_spec);
    }

    let syn_els = html::frag_select(e.html.as_str(), Css(".defContent > .instances .word").as_str());
    let ghost syn_spec = syn_els.deep_view().map_values(|w: RawElemV| html::spec_first_text(w));
    let mut synonyms: Vec<String> = Vec::new();
    let mut k: usize = 0;
    while k < syn_els.len()
        invariant
            0 <= k <= syn_els@.len(),
            syn_els@.len() == syn_els.deep_view().len(),
            syn_spec == syn_els.deep_view().map_values(|w: RawElemV| html::spec_first_text(w)),
            synonyms.deep_view() == syn_spec.take(k as int),
        decreases syn_els@.len() - k,
    {
        proof {
            assert(syn_els.deep_view()[k as int] == syn_els@[k as int].deep_view());
        }
        let t = syn_els[k].first_text();
        let ghost prev = synonyms.deep_view();
        synonyms.push(t);
        proof {
            assert(synonyms.deep_view() =~= prev.push(t@));
            assert(syn_spec.take(k + 1) =~= syn_spec.take(k as int).push(syn_spec[k as int]));
        }
        k = k + 1;
    }
    proof {
        assert(syn_spec.take(syn_els@.len() as int) =~= syn_spec);
    }

    SubDefinition {
        variant: normalize_word_variant(variant_raw.as_str()),
        description,
        image: None,
        short_examples,
        synonyms,
    }
}

/// The senses of the entry.
pub fn scrape_definitions(html_src: &str) -> (r: Vec<SubDefinition>)
    ensures
        r.deep_view() == spec_scrape_definitions(html_src@),
{
    let els = html::doc_select(html_src, Css(".word-definitions > ol > li").as_str());
    let ghost spec_out = els.deep_view().map_values(|e: RawElemV| spec_sub_definition_of(e));
    let mut out: Vec<SubDefinition> = Vec::new();
    let mut i: usize = 0;
    while i < els.len()
        invariant
            0 <= i <= els@.len(),
            els@.len() == els.deep_view().len(),
            spec_out == els.deep_view().map_values(|e: RawElemV| spec_sub_definition_of(e)),
            out.deep_view() == spec_out.take(i as int),
        decreases els@.len() - i,
    {
        proof {
            assert(els.deep_view()[i as int] == els@[i as int].deep_view());
        }
        let w = sub_definition_of(&els[i]);
        let ghost prev = out.deep_view();
        out.push(w);
        proof {
            assert(out.deep_view() =~= prev.push(w.deep_view()));
            assert(spec_out.take(i + 1) =~= spec_out.take(i as int).push(spec_out[i as int]));
        }
        i = i + 1;
    }
    proof {
        assert(spec_out.take(els@.len() as int) =~= spec_out);
    }
    out
}

/// The region a pronunciation block's flag icon denotes.
pub open spec fn spec_flag_variant(e: RawElemV) -> PronunciationVariant {
    let divs = html::frag_elems(e.html, "div"@);
    if divs.len() == 0 {
        PronunciationVariant::Other
    } else if html::spec_has_class(divs.first(), "us-flag-icon"@, true) {
        PronunciationVariant::Usa
    } else if html::spec_has_class(divs.first(), "uk-flag-icon"@, true) {
        PronunciationVariant::Uk
    } else {
        PronunciationVariant::Other
    }
}

/// The audio locator a pronunciation block carries: the fixed audio base
/// with the player's data attribute, or the embedded media element's
/// source, tried in that order; nothing when neither is present.
pub open spec fn spec_audio_src_of(e: RawElemV) -> Option<Seq<char>> {
    let auds = html::frag_elems(e.html, ".audio"@);
    if auds.len() == 0 {
        None
    } else {
        match html::spec_attr(auds.first().attrs, "data-audio"@) {
            Some(v) => Some("https://audio.vocab.com/1.0/us/"@ + v + ".mp3"@),
            None => {
                let media = html::frag_elems(auds.first().html, "audio"@);
                if media.len() == 0 {
                    None
                } else {
                    html::spec_attr(media.first().attrs, "src"@)
                }
            },
        }
    }
}

/// The audio locator a pronunciation block carries, if any.
pub fn get_audio_src_url(el: &RawElem) -> (r: Option<String>)
    ensures
        r.deep_view() == spec_audio_src_of(el.deep_view()),
{
    let auds = html::frag_select(el.html.as_str(), Css(".audio").as_str());
    if auds.len() == 0 {
        return None;
    }
    proof {
        assert(auds.deep_view().first() == auds@[0].deep_view());
    }
    let first = &auds[0];
    match first.attr("data-audio") {
        Some(v) => {
            let mut url = String::from_str("https://audio.vocab.com/1.0/us/");
            url.append(v.as_str());
            url.append(".mp3");
            proof {
                assert(url@ =~= "https://audio.vocab.com/1.0/us/"@ + v@ + ".mp3"@);
            }
            Some(url)
        },
        None => {
            let media = html::frag_select(first.html.as_str(), Css("audio").as_str());
            if media.len() == 0 {
                None
            } else {
                proof {
                    assert(media.deep_view().first() == media@[0].deep_view());
                }
                media[0].attr("src")
            }
        },
    }
}

/// The pronunciation a block denotes: its flag's region, its phonetic
/// heading's first text, and its audio locator.
pub open spec fn spec_pending_of(e: RawElemV) -> PendingPronunciationV {
    PendingPronunciationV {
        variant: spec_flag_variant(e),
        ipa_str: html::spec_list_first_text(html::frag_elems(e.html, "h3"@)),
        audio_src: spec_audio_src_of(e),
    }
}

/// The pronunciations of the entry, one per phonetic block.
pub open spec fn spec_scrape_pronunciations(h: Seq<char>) -> Seq<PendingPronunciationV> {
    html::doc_elems(h, ".ipa-with-audio"@).map_values(|e: RawElemV| spec_pending_of(e))
}

/// The pronunciations of the entry, with their audio locators.
pub fn scrape_pronunciations(html_src: &str) -> (r: Vec<PendingPronunciation>)
    ensures
        r.deep_view() == spec_scrape_pronunciations(html_src@),
{
    let els = html::doc_select(html_src, Css(".ipa-with-audio").as_str());
    let ghost spec_out = els.deep_view().map_values(|e: RawElemV| spec_pending_of(e));
    let mut out: Vec<PendingPronunciation> = Vec::new();
    let mut i: usize = 0;
    while i < els.len()
        invariant
            0 <= i <= els@.len(),
            els@.len() == els.deep_view().len(),
            spec_out == els.deep_view().map_values(|e: RawElemV| spec_pending_of(e)),
            out.deep_view() == spec_out.take(i as int),
        decreases els@.len() - i,
    {
        let el = &els[i];
        proof {
            assert(els.deep_view()[i as int] == els@[i as int].deep_view());
        }
        let divs = html::frag_select(el.html.as_str(), Css("div").as_str());
        let variant = if divs.len() == 0 {
            PronunciationVariant::Other
        } else {
            proof {
                assert(divs.deep_view().first() == divs@[0].deep_view());
            }
            if divs[0].has_class("us-flag-icon", true) {
                PronunciationVariant::Usa
            } else if divs[0].has_class("uk-flag-icon", true) {
                PronunciationVariant::Uk
            } else {
                PronunciationVariant::Other
            }
        };
        let h3 = html::frag_select(el.html.as_str(), Css("h3").as_str());
        let w = PendingPronunciation {
            variant,
            ipa_str: html::first_text_of(&h3),
            audio_src: get_audio_src_url(el),
        };
        let ghost prev = out.deep_view();
        out.push(w);
        proof {
            assert(out.deep_view() =~= prev.push(w.deep_view()));
            assert(spec_out.take(i + 1) =~= spec_out.take(i as int).push(spec_out[i as int]));
        }
        i = i + 1;
    }
    proof {
        assert(spec_out.take(els@.len() as int) =~= spec_out);
    }
    out
}

/// The pronunciations with their fetched audio attached, index-aligned.
pub open spec fn spec_attach_audio(
    pending: Seq<PendingPronunciationV>,
    audio: Seq<Option<AudioV>>,
) -> Seq<PronunciationV> {
    Seq::new(
        pending.len(),
        |i: int|
            PronunciationV {
                variant: pending[i].variant,
                ipa_str: pending[i].ipa_str,
                audio: audio[i],
            },
    )
}

/// Attaches the fetched audio payloads to the scraped pronunciations,
/// index for index; a failed fetch leaves that entry's audio absent.
/// The result always has exactly one entry per pronunciation, in the
/// input order.
pub fn attach_audio(pending: &Vec<PendingPronunciation>, audio: &Vec<Option<Audio>>) -> (r: Vec<
    Pronunciation,
>)
    requires
        audio@.len() == pending@.len(),
    ensures
        r.deep_view() == spec_attach_audio(pending.deep_view(), audio.deep_view()),
        r@.len() == pending@.len(),
{
    let ghost spec_out = spec_attach_audio(pending.deep_view(), audio.deep_view());
    let mut out: Vec<Pronunciation> = Vec::new();
    let mut i: usize = 0;
    while i < pending.len()
        invariant
            0 <= i <= pending@.len(),
            audio@.len() == pending@.len(),
            pending@.len() == pending.deep_view().len(),
            audio@.len() == audio.deep_view().len(),
            spec_out == spec_attach_audio(pending.deep_view(), audio.deep_view()),
            out.deep_view() == spec_out.take(i as int),
        decreases pending@.len() - i,
    {
        proof {
            assert(pending.deep_view()[i as int] == pending@[i as int].deep_view());
            assert(audio.deep_view()[i as int] == audio@[i as int].deep_view());
            lemma_clone_audio();
        }
        let p = &pending[i];
        let w = Pronunciation {
            variant: p.variant,
            ipa_str: p.ipa_str.clone(),
            audio: clone_option(&audio[i]),
        };
        let ghost prev = out.deep_view();
        out.push(w);
        proof {
            assert(out.deep_view() =~= prev.push(w.deep_view()));
            assert(spec_out.take(i + 1) =~= spec_out.take(i as int).push(spec_out[i as int]));
        }
        i = i + 1;
    }
    proof {
        assert(spec_out.take(pending@.len() as int) =~= spec_out);
    }
    out
}

/// The audio an HTTP response yields: present exactly when the status
/// is OK and both a content type and a body came back; a bad status,
/// a missing content type or an unreadable body yield nothing.
pub open spec fn spec_audio_from_parts(
    status: u16,
    ct: Option<Seq<char>>,
    bytes: Option<Seq<u8>>,
) -> Option<AudioV> {
    if status == 200 {
        match (ct, bytes) {
            (Some(c), Some(b)) => Some(AudioV { content_type: c, bytes: b }),
            _ => None,
        }
    } else {
        None
    }
}

/// The audio an HTTP response carries: its content type and bytes when
/// the status is OK and both are present, and nothing otherwise — a
/// failed fetch silently contributes no audio.
pub fn audio_from_parts(status: u16, content_type: Option<String>, bytes: Option<Vec<u8>>) -> (r:
    Option<Audio>)
    ensures
        r.deep_view() == spec_audio_from_parts(
            status,
            content_type.deep_view(),
            bytes.deep_view(),
        ),
{
    if status == 200 {
        match (content_type, bytes) {
            (Some(c), Some(b)) => {
                proof {
                    assert(b.deep_view() =~= b@);
                }
                Some(Audio { content_type: c, bytes: b })
            },
            _ => None,
        }
    } else {
        None
    }
}

/// The literary examples the feed's sentences denote, in feed order.
pub open spec fn spec_examples_from_feed(rows: Seq<FeedSentenceV>) -> Seq<ExampleV> {
    rows.map_values(
        |s: FeedSentenceV|
            ExampleV { sentence: s.sentence, author: s.author, source_title: s.title },
    )
}

/// The literary examples a feed outcome contributes: a decoded feed
/// maps row for row; a feed whose body could not be decoded yields no
/// examples — a parse failure of the auxiliary feed empties the field
/// rather than failing the source branch.
pub fn examples_from_feed_outcome(feed: Option<Vec<FeedSentence>>) -> (r: Vec<Example>)
    ensures
        r.deep_view() == (match feed.deep_view() {
            Some(rows) => spec_examples_from_feed(rows),
            None => Seq::<ExampleV>::empty(),
        }),
{
    match feed {
        Some(rows) => examples_from_feed(rows),
        None => {
            let r: Vec<Example> = Vec::new();
            proof {
                assert(r.deep_view() =~= Seq::<ExampleV>::empty());
            }
            r
        },
    }
}

/// The literary examples the feed's sentences denote, in feed order.
pub fn examples_from_feed(rows: Vec<FeedSentence>) -> (r: Vec<Example>)
    ensures
        r.deep_view() == spec_examples_from_feed(rows.deep_view()),
{
    let ghost spec_out = spec_examples_from_feed(rows.deep_view());
    let mut out: Vec<Example> = Vec::new();
    let mut i: usize = 0;
    while i < rows.len()
        invariant
            0 <= i <= rows@.len(),
            rows@.len() == rows.deep_view().len(),
            spec_out == spec_examples_from_feed(rows.deep_view()),
            out.deep_view() == spec_out.take(i as int),
        decreases rows@.len() - i,
    {
        proof {
            assert(rows.deep_view()[i as int] == rows@[i as int].deep_view());
        }
        let s = &rows[i];
        let w = Example {
            sentence: s.sentence.clone(),
            author: s.author.clone(),
            source_title: s.title.clone(),
        };
        let ghost prev = out.deep_view();
        out.push(w);
        proof {
            assert(out.deep_view() =~= prev.push(w.deep_view()));
            assert(spec_out.take(i + 1) =~= spec_out.take(i as int).push(spec_out[i as int]));
        }
        i = i + 1;
    }
    proof {
        assert(spec_out.take(rows@.len() as int) =~= spec_out);
    }
    out
}

/// The page's header: the first text of the header area, trimmed.
pub open spec fn spec_get_header(h: Seq<char>) -> Seq<char> {
    text::trim_spec(html::spec_list_first_text(html::doc_elems(h, "[id=hdr-word-area]"@)))
}

/// The other written forms: the first text of the forms element,
/// trimmed, split on semicolons, each piece trimmed.
pub open spec fn spec_get_other_forms(h: Seq<char>) -> Seq<Seq<char>> {
    text::split_spec(
        text::trim_spec(
            html::spec_list_first_text(html::doc_elems(h, ".word-forms > b:nth-child(1)"@)),
        ),
        ';',
    ).map_values(|t: Seq<char>| text::trim_spec(t))
}

/// The short description: the joined text of its region, trimmed.
pub open spec fn spec_get_short_description(h: Seq<char>) -> Seq<char> {
    text::trim_spec(html::spec_list_first_joined(html::doc_elems(h, ".short"@)))
}

/// The long description: the joined text of its region, trimmed.
pub open spec fn spec_get_long_description(h: Seq<char>) -> Seq<char> {
    text::trim_spec(html::spec_list_first_joined(html::doc_elems(h, ".long"@)))
}

/// Everything the extraction reads from the entry page itself, with the
/// separately supplied pronunciations and literary examples attached and
/// the requested word as the record's own key.
pub open spec fn spec_scrape_document(
    h: Seq<char>,
    pronunciations: Seq<PronunciationV>,
    examples: Seq<ExampleV>,
    word: Seq<char>,
) -> DefinitionV {
    DefinitionV {
        id_ref: word,
        header: spec_get_header(h),
        pronunciations: pronunciations,
        other_forms: spec_get_other_forms(h),
        short_description: spec_get_short_description(h),
        long_description: spec_get_long_description(h),
        definitions: spec_scrape_definitions(h),
        examples: examples,
    }
}

/// Extracts the entry page into the structured definition, attaching
/// the audio-loaded pronunciations and the feed's examples.
pub fn scrape_document(
    html_src: &str,
    pronunciations: Vec<Pronunciation>,
    examples: Vec<Example>,
    word: &str,
) -> (r: Definition)
    ensures
        r.deep_view() == spec_scrape_document(
            html_src@,
            pronunciations.deep_view(),
            examples.deep_view(),
            word@,
        ),
{
    let headers = html::doc_select(html_src, Css("[id=hdr-word-area]").as_str());
    let raw_header = html::first_text_of(&headers);
    let header = text::trim_str(raw_header.as_str());

    let forms_els = html::doc_select(html_src, Css(".word-forms > b:nth-child(1)").as_str());
    let raw_forms = html::first_text_of(&forms_els);
    let trimmed_forms = text::trim_str(raw_forms.as_str());
    let fchars = text::chars_of(trimmed_forms.as_str());
    let parts = text::split_chars(&fchars, ';');
    let ghost forms_spec = spec_get_other_forms(html_src@);
    let ghost parts_dv = parts.deep_view();
    let mut other_forms: Vec<String> = Vec::new();
    let mut i: usize = 0;
    proof {
        assert(forms_spec == parts_dv.map_values(|t: Seq<char>| text::trim_spec(t)));
    }
    while i < parts.len()
        invariant
            0 <= i <= parts@.len(),
            parts@.len() == parts_dv.len(),
            parts_dv == parts.deep_view(),
            forms_spec == parts_dv.map_values(|t: Seq<char>| text::trim_spec(t)),
            other_forms.deep_view() == forms_spec.take(i as int),
        decreases parts@.len() - i,
    {
        proof {
            text::lemma_chars_deep(&parts@[i as int]);
            assert(parts_dv[i as int] == parts@[i as int].deep_view());
        }
        let t = text::trim_chars(&parts[i]);
        let piece = text::string_of(&t);
        let ghost prev = other_forms.deep_view();
        other_forms.push(piece);
        proof {
            assert(other_forms.deep_view() =~= prev.push(piece@));
            assert(forms_spec.take(i + 1) =~= forms_spec.take(i as int).push(
                forms_spec[i as int],
            ));
        }
        i = i + 1;
    }
    proof {
        assert(forms_spec.take(parts@.len() as int) =~= forms_spec);
    }

    let shorts = html::doc_select(html_src, Css(".short").as_str());
    let raw_short = html::first_joined_of(&shorts);
    let short_description = text::trim_str(raw_short.as_str());

    let longs = html::doc_select(html_src, Css(".long").as_str());
    let raw_long = html::first_joined_of(&longs);
    let long_description = text::trim_str(raw_long.as_str());

    Definition {
        id_ref: word.to_owned(),
        header,
        pronunciations,
        other_forms,
        short_description,
        long_description,
        definitions: scrape_definitions(html_src),
        examples,
    }
}

/// Law: extraction is deterministic — equal page texts with equal
/// attachments yield the same structured result, field for field.
pub proof fn lemma_extraction_deterministic(
    a: Seq<char>,
    b: Seq<char>,
    pronunciations: Seq<PronunciationV>,
    examples: Seq<ExampleV>,
    word: Seq<char>,
)
    requires
        a == b,
    ensures
        spec_scrape_document(a, pronunciations, examples, word) == spec_scrape_document(
            b,
            pronunciations,
            examples,
            word,
        ),
{
}

} // verus!
