//! Extraction of an Oxford entry page into the structured model.
//!
//! Extraction is a pure function of the fetched document text: every
//! field below is specified as a composition of the named CSS queries of
//! [`crate::html`] and verified text transformations, so repeated
//! extraction of the same document yields the same structure.

use vstd::prelude::*;
use vstd::string::*;
use crate::cloning::clone_option;
use crate::html;
use crate::html::Css;
use crate::html::RawElem;
use crate::html::RawElemV;
use crate::models::oxford::DefinitionGroup;
use crate::models::oxford::DefinitionGroupV;
use crate::models::oxford::Idiom;
use crate::models::oxford::IdiomV;
use crate::models::oxford::SimilarResult;
use crate::models::oxford::SimilarResultV;
use crate::models::oxford::SubDefinition;
use crate::models::oxford::SubDefinitionV;
use crate::models::oxford::VebForm;
use crate::models::oxford::VebFormV;
use crate::models::oxford::WordRef;
use crate::models::oxford::WordRefV;
use crate::models::shared::lemma_clone_audio;
use crate::models::shared::Audio;
use crate::models::shared::AudioV;
use crate::models::shared::Pronunciation;
use crate::models::shared::PronunciationV;
use crate::models::shared::PronunciationVariant;
use crate::text;

verus! {

/// A pronunciation as scraped: region, phonetic text, and the audio
/// locator found beside it (possibly empty), not yet fetched.
#[derive(Debug, PartialEq, Eq)]
pub struct ScrapedPronunciation {
    pub variant: PronunciationVariant,
    pub ipa_str: String,
    pub audio_src: String,
}

/// The mathematical shape of a [`ScrapedPronunciation`].
pub struct ScrapedPronunciationV {
    pub variant: PronunciationVariant,
    pub ipa_str: Seq<char>,
    pub audio_src: Seq<char>,
}

impl DeepView for ScrapedPronunciation {
    type V = ScrapedPronunciationV;

    open spec fn deep_view(&self) -> ScrapedPronunciationV {
        ScrapedPronunciationV {
            variant: self.variant,
            ipa_str: self.ipa_str@,
            audio_src: self.audio_src@,
        }
    }
}

/// Everything extracted from the entry page, before any audio has been
/// fetched.
#[derive(Debug, PartialEq, Eq)]
pub struct Scraped {
    pub ref_id: String,
    pub header: String,
    pub inflections: String,
    pub note: String,
    pub grammar_hint: String,
    pub word_variant: String,
    pub similar_results: Vec<SimilarResult>,
    pub pronunciations: Vec<ScrapedPronunciation>,
    pub definitions: Vec<DefinitionGroup>,
    pub see_also: Vec<WordRef>,
    pub word_origin: String,
    pub idioms: Vec<Idiom>,
    pub phrasal_verbs: Vec<WordRef>,
    pub veb_forms: Vec<VebForm>,
}

/// The mathematical shape of a [`Scraped`].
pub struct ScrapedV {
    pub ref_id: Seq<char>,
    pub header: Seq<char>,
    pub inflections: Seq<char>,
    pub note: Seq<char>,
    pub grammar_hint: Seq<char>,
    pub word_variant: Seq<char>,
    pub similar_results: Seq<SimilarResultV>,
    pub pronunciations: Seq<ScrapedPronunciationV>,
    pub definitions: Seq<DefinitionGroupV>,
    pub see_also: Seq<WordRefV>,
    pub word_origin: Seq<char>,
    pub idioms: Seq<IdiomV>,
    pub phrasal_verbs: Seq<WordRefV>,
    pub veb_forms: Seq<VebFormV>,
}

impl DeepView for Scraped {
    type V = ScrapedV;

    open spec fn deep_view(&self) -> ScrapedV {
        ScrapedV {
            ref_id: self.ref_id@,
            header: self.header@,
            inflections: self.inflections@,
            note: self.note@,
            grammar_hint: self.grammar_hint@,
            word_variant: self.word_variant@,
            similar_results: self.similar_results.deep_view(),
            pronunciations: self.pronunciations.deep_view(),
            definitions: self.definitions.deep_view(),
            see_also: self.see_also.deep_view(),
            word_origin: self.word_origin@,
            idioms: self.idioms.deep_view(),
            phrasal_verbs: self.phrasal_verbs.deep_view(),
            veb_forms: self.veb_forms.deep_view(),
        }
    }
}

/// A complete extracted entry, its audio fetched and attached.
#[derive(Debug, PartialEq, Eq)]
pub struct Definition {
    pub id_ref: String,
    pub header: String,
    pub inflections: String,
    pub note: String,
    pub grammar_hint: String,
    pub word_variant: String,
    pub similar_results: Vec<SimilarResult>,
    pub pronunciations: Vec<Pronunciation>,
    pub definitions: Vec<DefinitionGroup>,
    pub see_also: Vec<WordRef>,
    pub word_origin: String,
    pub idioms: Vec<Idiom>,
    pub phrasal_verbs: Vec<WordRef>,
    pub veb_forms: Vec<VebForm>,
}

/// The mathematical shape of a [`Definition`].
pub struct DefinitionV {
    pub id_ref: Seq<char>,
    pub header: Seq<char>,
    pub inflections: Seq<char>,
    pub note: Seq<char>,
    pub grammar_hint: Seq<char>,
    pub word_variant: Seq<char>,
    pub similar_results: Seq<SimilarResultV>,
    pub pronunciations: Seq<PronunciationV>,
    pub definitions: Seq<DefinitionGroupV>,
    pub see_also: Seq<WordRefV>,
    pub word_origin: Seq<char>,
    pub idioms: Seq<IdiomV>,
    pub phrasal_verbs: Seq<WordRefV>,
    pub veb_forms: Seq<VebFormV>,
}

impl DeepView for Definition {
    type V = DefinitionV;

    open spec fn deep_view(&self) -> DefinitionV {
        DefinitionV {
            id_ref: self.id_ref@,
            header: self.header@,
            inflections: self.inflections@,
            note: self.note@,
            grammar_hint: self.grammar_hint@,
            word_variant: self.word_variant@,
            similar_results: self.similar_results.deep_view(),
            pronunciations: self.pronunciations.deep_view(),
            definitions: self.definitions.deep_view(),
            see_also: self.see_also.deep_view(),
            word_origin: self.word_origin@,
            idioms: self.idioms.deep_view(),
            phrasal_verbs: self.phrasal_verbs.deep_view(),
            veb_forms: self.veb_forms.deep_view(),
        }
    }
}

/// The not-found page's content; its similar-word suggestions are not
/// read.
#[derive(Debug, PartialEq, Eq)]
pub struct NotFound {
    pub similar_words: Vec<WordRef>,
}

/// How a scrape fails: the request itself (the message is the transport
/// error's text), an unexpected HTTP status, or the entry not existing.
#[derive(Debug, PartialEq, Eq)]
pub enum ScrapeErr {
    GetRequestErr(String),
    UnexpectedHtmlStatusCode(u16),
    NotFound(NotFound),
}

/// The entry page URL for a word.
pub open spec fn spec_get_word_url(word: Seq<char>) -> Seq<char> {
    "https://www.oxfordlearnersdictionaries.com/definition/english/"@ + word
}

/// The entry page URL for a word.
pub fn get_word_url(word: &str) -> (r: String)
    ensures
        r@ == spec_get_word_url(word@),
{
    let mut r = String::from_str("https://www.oxfordlearnersdictionaries.com/definition/english/");
    r.append(word);
    r
}

/// The entry's own id: the `id` attribute of the entry division, trimmed.
pub open spec fn spec_get_id(h: Seq<char>) -> Seq<char> {
    text::trim_spec(html::spec_list_first_attr(html::doc_elems(h, "div.entry"@), "id"@))
}

/// The entry's own id, read from the entry division.
pub fn get_id(html_src: &str) -> (r: String)
    ensures
        r@ == spec_get_id(html_src@),
{
    let els = html::doc_select(html_src, Css("div.entry").as_str());
    let s = html::first_attr_of(&els, "id");
    text::trim_str(s.as_str())
}

/// The headword: the first text of the first headline element, trimmed;
/// empty when the page has none.
pub open spec fn spec_get_header(h: Seq<char>) -> Seq<char> {
    text::trim_spec(html::spec_list_first_text(html::doc_elems(h, "h1.headword"@)))
}

/// The headword of the page.
pub fn get_header(html_src: &str) -> (r: String)
    ensures
        r@ == spec_get_header(html_src@),
{
    let els = html::doc_select(html_src, Css("h1.headword").as_str());
    let s = html::first_text_of(&els);
    text::trim_str(s.as_str())
}

/// The raw word-class token of the entry, trimmed.
pub open spec fn spec_get_word_variant(h: Seq<char>) -> Seq<char> {
    text::trim_spec(html::spec_list_first_text(html::doc_elems(h, "span.pos"@)))
}

/// The raw word-class token of the entry.
pub fn get_word_variant(html_src: &str) -> (r: String)
    ensures
        r@ == spec_get_word_variant(html_src@),
{
    let els = html::doc_select(html_src, Css("span.pos").as_str());
    let s = html::first_text_of(&els);
    text::trim_str(s.as_str())
}

/// The entry's register label, trimmed.
pub open spec fn spec_get_note(h: Seq<char>) -> Seq<char> {
    text::trim_spec(html::spec_list_first_text(html::doc_elems(h, "div.entry .labels"@)))
}

/// The entry's register label.
pub fn get_note(html_src: &str) -> (r: String)
    ensures
        r@ == spec_get_note(html_src@),
{
    let els = html::doc_select(html_src, Css("div.entry .labels").as_str());
    let s = html::first_text_of(&els);
    text::trim_str(s.as_str())
}

/// The entry's grammar hint, trimmed.
pub open spec fn spec_get_grammar_hint(h: Seq<char>) -> Seq<char> {
    text::trim_spec(html::spec_list_first_text(html::doc_elems(h, "div.entry .grammar"@)))
}

/// The entry's grammar hint.
pub fn get_grammar_hint(html_src: &str) -> (r: String)
    ensures
        r@ == spec_get_grammar_hint(html_src@),
{
    let els = html::doc_select(html_src, Css("div.entry .grammar").as_str());
    let s = html::first_text_of(&els);
    text::trim_str(s.as_str())
}

/// The entry's word origin: the joined text of the origin box.
pub open spec fn spec_get_word_origin(h: Seq<char>) -> Seq<char> {
    html::spec_list_first_joined(html::doc_elems(h, "[unbox='wordorigin'] .body"@))
}

/// The entry's word origin.
pub fn get_word_origin(html_src: &str) -> (r: String)
    ensures
        r@ == spec_get_word_origin(html_src@),
{
    let els = html::doc_select(html_src, Css("[unbox='wordorigin'] .body").as_str());
    html::first_joined_of(&els)
}

/// The entry's inflections: the joined text of the inflections region.
pub open spec fn spec_get_inflections(h: Seq<char>) -> Seq<char> {
    html::spec_list_first_joined(html::doc_elems(h, ".inflections"@))
}

/// The entry's inflections.
pub fn get_inflections(html_src: &str) -> (r: String)
    ensures
        r@ == spec_get_inflections(html_src@),
{
    let els = html::doc_select(html_src, Css(".inflections").as_str());
    html::first_joined_of(&els)
}

/// The cross-reference a link element denotes: the last piece of its
/// `href` and its first text.
pub open spec fn spec_word_ref_of(e: RawElemV) -> WordRefV {
    WordRefV { id_ref: html::spec_href_last_part(e), word: html::spec_first_text(e) }
}

/// The see-also cross-references of the entry.
pub open spec fn spec_get_see_also(h: Seq<char>) -> Seq<WordRefV> {
    html::doc_elems(h, "div.entry .senses_multiple > .xrefs a"@).map_values(
        |e: RawElemV| spec_word_ref_of(e),
    )
}

/// The see-also cross-references of the entry.
pub fn get_see_also(html_src: &str) -> (r: Vec<WordRef>)
    ensures
        r.deep_view() == spec_get_see_also(html_src@),
{
    let els = html::doc_select(html_src, Css("div.entry .senses_multiple > .xrefs a").as_str());
    let ghost spec_out = els.deep_view().map_values(|e: RawElemV| spec_word_ref_of(e));
    let mut out: Vec<WordRef> = Vec::new();
    let mut i: usize = 0;
    while i < els.len()
        invariant
            0 <= i <= els@.len(),
            els@.len() == els.deep_view().len(),
            spec_out == els.deep_view().map_values(|e: RawElemV| spec_word_ref_of(e)),
            out.deep_view() == spec_out.take(i as int),
        decreases els@.len() - i,
    {
        let el = &els[i];
        proof {
            assert(els.deep_view()[i as int] == els@[i as int].deep_view());
        }
        let w = WordRef { id_ref: el.href_last_part(), word: el.first_text() };
        let ghost prev = out.deep_view();
        out.push(w);
        proof {
            assert(out.deep_view() =~= prev.push(w.deep_view()));
            assert(spec_out.take(i + 1) =~= spec_out.take(i as int).push(spec_out[i as int]));
        }
        i = i + 1;
    }
    proof {
        assert(spec_out.take(els@.len() as int) =~= spec_out);
    }
    out
}

/// The phrasal-verb cross-reference a link denotes: the last piece of
/// its `href`, and the first text of its headword span.
pub open spec fn spec_phrasal_ref_of(e: RawElemV) -> WordRefV {
    WordRefV {
        id_ref: html::spec_href_last_part(e),
        word: html::spec_list_first_text(html::frag_elems(e.html, ".xh"@)),
    }
}

/// The phrasal-verb cross-references of the entry.
pub open spec fn spec_get_phrasal_verbs(h: Seq<char>) -> Seq<WordRefV> {
    html::doc_elems(h, ".phrasal_verb_links a"@).map_values(|e: RawElemV| spec_phrasal_ref_of(e))
}

/// The phrasal-verb cross-references of the entry.
pub fn get_phrasal_verbs(html_src: &str) -> (r: Vec<WordRef>)
    ensures
        r.deep_view() == spec_get_phrasal_verbs(html_src@),
{
    let els = html::doc_select(html_src, Css(".phrasal_verb_links a").as_str());
    let ghost spec_out = els.deep_view().map_values(|e: RawElemV| spec_phrasal_ref_of(e));
    let mut out: Vec<WordRef> = Vec::new();
    let mut i: usize = 0;
    while i < els.len()
        invariant
            0 <= i <= els@.len(),
            els@.len() == els.deep_view().len(),
            spec_out == els.deep_view().map_values(|e: RawElemV| spec_phrasal_ref_of(e)),
            out.deep_view() == spec_out.take(i as int),
        decreases els@.len() - i,
    {
        let el = &els[i];
        proof {
            assert(els.deep_view()[i as int] == els@[i as int].deep_view());
        }
        let inner = html::frag_select(el.html.as_str(), Css(".xh").as_str());
        let w = WordRef { id_ref: el.href_last_part(), word: html::first_text_of(&inner) };
        let ghost prev = out.deep_view();
        out.push(w);
        proof {
            assert(out.deep_view() =~= prev.push(w.deep_view()));
            assert(spec_out.take(i + 1) =~= spec_out.take(i as int).push(spec_out[i as int]));
        }
        i = i + 1;
    }
    proof {
        assert(spec_out.take(els@.len() as int) =~= spec_out);
    }
    out
}

/// The region a pronunciation block's `geo` attribute denotes.
pub open spec fn spec_geo_variant(e: RawElemV) -> PronunciationVariant {
    match html::spec_attr(e.attrs, "geo"@) {
        Some(v) => if v == "br"@ {
            PronunciationVariant::Uk
        } else if v == "n_am"@ {
            PronunciationVariant::Usa
        } else {
            PronunciationVariant::Other
        },
        None => PronunciationVariant::Other,
    }
}

/// The pronunciation a phonetics block denotes: its region, its trimmed
/// phonetic text, and the audio locator of its player division.
pub open spec fn spec_pronunciation_of(e: RawElemV) -> ScrapedPronunciationV {
    ScrapedPronunciationV {
        variant: spec_geo_variant(e),
        ipa_str: text::trim_spec(
            html::spec_list_first_text(html::frag_elems(e.html, "span.phon"@)),
        ),
        audio_src: html::spec_list_first_attr(
            html::frag_elems(e.html, "div[data-src-mp3]"@),
            "data-src-mp3"@,
        ),
    }
}

/// The pronunciations of the entry, one per phonetics block.
pub open spec fn spec_get_pronunciations(h: Seq<char>) -> Seq<ScrapedPronunciationV> {
    html::doc_elems(h, ".phonetics > div"@).map_values(|e: RawElemV| spec_pronunciation_of(e))
}

/// The pronunciations of the entry, with their audio locators.
pub fn get_pronunciations(html_src: &str) -> (r: Vec<ScrapedPronunciation>)
    ensures
        r.deep_view() == spec_get_pronunciations(html_src@),
{
    let els = html::doc_select(html_src, Css(".phonetics > div").as_str());
    let ghost spec_out = els.deep_view().map_values(|e: RawElemV| spec_pronunciation_of(e));
    let mut out: Vec<ScrapedPronunciation> = Vec::new();
    let mut i: usize = 0;
    while i < els.len()
        invariant
            0 <= i <= els@.len(),
            els@.len() == els.deep_view().len(),
            spec_out == els.deep_view().map_values(|e: RawElemV| spec_pronunciation_of(e)),
            out.deep_view() == spec_out.take(i as int),
        decreases els@.len() - i,
    {
        let el = &els[i];
        proof {
            assert(els.deep_view()[i as int] == els@[i as int].deep_view());
        }
        let variant = match el.attr("geo") {
            Some(v) => {
                if text::str_eq(v.as_str(), "br") {
                    PronunciationVariant::Uk
                } else if text::str_eq(v.as_str(), "n_am") {
                    PronunciationVariant::Usa
                } else {
                    PronunciationVariant::Other
                }
            },
            None => PronunciationVariant::Other,
        };
        let phon = html::frag_select(el.html.as_str(), Css("span.phon").as_str());
        let raw_ipa = html::first_text_of(&phon);
        let players = html::frag_select(el.html.as_str(), Css("div[data-src-mp3]").as_str());
        let w = ScrapedPronunciation {
            variant,
            ipa_str: text::trim_str(raw_ipa.as_str()),
            audio_src: html::first_attr_of(&players, "data-src-mp3"),
        };
        let ghost prev = out.deep_view();
        out.push(w);
        proof {
            assert(out.deep_view() =~= prev.push(w.deep_view()));
            assert(spec_out.take(i + 1) =~= spec_out.take(i as int).push(spec_out[i as int]));
        }
        i = i + 1;
    }
    proof {
        assert(spec_out.take(els@.len() as int) =~= spec_out);
    }
    out
}

/// The related entry a result link denotes: the last piece of its
/// `href`, the first text of its word span, and its raw class token.
pub open spec fn spec_similar_of(e: RawElemV) -> SimilarResultV {
    SimilarResultV {
        id: html::spec_href_last_part(e),
        word: html::spec_list_first_text(html::frag_elems(e.html, "span"@)),
        word_variant: Some(html::spec_list_first_text(html::frag_elems(e.html, "pos"@))),
    }
}

/// The related entries offered beside the result.
pub open spec fn spec_get_similar_results(h: Seq<char>) -> Seq<SimilarResultV> {
    html::doc_elems(h, "#relatedentries li a"@).map_values(|e: RawElemV| spec_similar_of(e))
}

/// The related entries offered beside the result.
pub fn get_similar_results(html_src: &str) -> (r: Vec<SimilarResult>)
    ensures
        r.deep_view() == spec_get_similar_results(html_src@),
{
    let els = html::doc_select(html_src, Css("#relatedentries li a").as_str());
    let ghost spec_out = els.deep_view().map_values(|e: RawElemV| spec_similar_of(e));
    let mut out: Vec<SimilarResult> = Vec::new();
    let mut i: usize = 0;
    while i < els.len()
        invariant
            0 <= i <= els@.len(),
            els@.len() == els.deep_view().len(),
            spec_out == els.deep_view().map_values(|e: RawElemV| spec_similar_of(e)),
            out.deep_view() == spec_out.take(i as int),
        decreases els@.len() - i,
    {
        let el = &els[i];
        proof {
            assert(els.deep_view()[i as int] == els@[i as int].deep_view());
        }
        let spans = html::frag_select(el.html.as_str(), Css("span").as_str());
        let poss = html::frag_select(el.html.as_str(), Css("pos").as_str());
        let w = SimilarResult {
            id: el.href_last_part(),
            word: html::first_text_of(&spans),
            word_variant: Some(html::first_text_of(&poss)),
        };
        let ghost prev = out.deep_view();
        out.push(w);
        proof {
            assert(out.deep_view() =~= prev.push(w.deep_view()));
            assert(spec_out.take(i + 1) =~= spec_out.take(i as int).push(spec_out[i as int]));
        }
        i = i + 1;
    }
    proof {
        assert(spec_out.take(els@.len() as int) =~= spec_out);
    }
    out
}

/// The not-found page, whose similar-word suggestions are left unread.
pub fn parse_not_found_page(html_src: &str) -> (r: NotFound)
    ensures
        r.similar_words@.len() == 0,
{
    let _ = html_src;
    NotFound { similar_words: Vec::new() }
}

/// The note text a label element contributes to an idiom: its first
/// text; when its next sibling is a variant element, both texts joined
/// in parentheses.
pub open spec fn spec_idiom_note(l: RawElemV, next: Option<RawElemV>) -> Seq<char> {
    let base = html::spec_first_text(l);
    match next {
        Some(n) => if html::spec_has_class(n, "v"@, false) {
            "("@ + base + " "@ + html::spec_first_text(n) + ")"@
        } else {
            base
        },
        None => base,
    }
}

/// The notes of one idiom block, one per label element.
pub open spec fn spec_idiom_notes(frag: Seq<char>) -> Seq<Seq<char>> {
    let labels = html::frag_elems(frag, ".labels"@);
    let nexts = html::frag_next_elems(frag, ".labels"@);
    Seq::new(labels.len(), |i: int| spec_idiom_note(labels[i], nexts[i]))
}

/// The synonym cross-reference an idiom link denotes.
pub open spec fn spec_nsyn_ref_of(a: RawElemV) -> WordRefV {
    WordRefV {
        id_ref: html::spec_href_last_part(a),
        word: html::spec_list_first_text(html::frag_elems(a.html, ".xh"@)),
    }
}

/// The idiom one idiom block denotes.
pub open spec fn spec_idiom_of(e: RawElemV) -> IdiomV {
    IdiomV {
        idiom: html::spec_list_first_text(html::frag_elems(e.html, ".idm"@)),
        description: html::spec_list_first_joined(html::frag_elems(e.html, ".def"@)),
        notes: spec_idiom_notes(e.html),
        synonyms: html::frag_elems(e.html, ".xrefs[xt='nsyn'] a"@).map_values(
            |a: RawElemV| spec_nsyn_ref_of(a),
        ),
        examples: html::frag_elems(e.html, ".examples li .x"@).map_values(
            |x: RawElemV| html::spec_join_text(x),
        ),
    }
}

/// The idioms of the entry.
pub open spec fn spec_get_idioms(h: Seq<char>) -> Seq<IdiomV> {
    html::doc_elems(h, ".idioms .idm-g"@).map_values(|e: RawElemV| spec_idiom_of(e))
}

fn idiom_of(el: &RawElem) -> (r: Idiom)
    ensures
        r.deep_view() == spec_idiom_of(el.deep_view()),
{
    let idms = html::frag_select(el.html.as_str(), Css(".idm").as_str());
    let defs = html::frag_select(el.html.as_str(), Css(".def").as_str());

    let labels = html::frag_select(el.html.as_str(), Css(".labels").as_str());
    let nexts = html::frag_select_next(el.html.as_str(), Css(".labels").as_str());
    let ghost notes_spec = spec_idiom_notes(el.deep_view().html);
    let mut notes: Vec<String> = Vec::new();
    let mut i: usize = 0;
    while i < labels.len()
        invariant
            0 <= i <= labels@.len(),
            labels@.len() == labels.deep_view().len(),
            nexts@.len() == labels@.len(),
            nexts@.len() == nexts.deep_view().len(),
            labels.deep_view() == html::frag_elems(el.deep_view().html, ".labels"@),
            nexts.deep_view() == html::frag_next_elems(el.deep_view().html, ".labels"@),
            notes_spec == spec_idiom_notes(el.deep_view().html),
            notes.deep_view() == notes_spec.take(i as int),
        decreases labels@.len() - i,
    {
        proof {
            assert(labels.deep_view()[i as int] == labels@[i as int].deep_view());
            assert(nexts.deep_view()[i as int] == nexts@[i as int].deep_view());
        }
        let base = labels[i].first_text();
        let note = match &nexts[i] {
            Some(n) => {
                if n.has_class("v", false) {
                    let val = n.first_text();
                    text::parenthesize_pair(base.as_str(), val.as_str())
                } else {
                    base
                }
            },
            None => base,
        };
        let ghost prev = notes.deep_view();
        notes.push(note);
        proof {
            assert(notes.deep_view() =~= prev.push(note@));
            assert(notes_spec.take(i + 1) =~= notes_spec.take(i as int).push(
                notes_spec[i as int],
            ));
        }
        i = i + 1;
    }
    proof {
        assert(notes_spec.take(labels@.len() as int) =~= notes_spec);
    }

    let syn_els = html::frag_select(el.html.as_str(), Css(".xrefs[xt='nsyn'] a").as_str());
    let ghost syn_spec = syn_els.deep_view().map_values(|a: RawElemV| spec_nsyn_ref_of(a));
    let mut synonyms: Vec<WordRef> = Vec::new();
    let mut j: usize = 0;
    while j < syn_els.len()
        invariant
            0 <= j <= syn_els@.len(),
            syn_els@.len() == syn_els.deep_view().len(),
            syn_spec == syn_els.deep_view().map_values(|a: RawElemV| spec_nsyn_ref_of(a)),
            synonyms.deep_view() == syn_spec.take(j as int),
        decreases syn_els@.len() - j,
    {
        let a = &syn_els[j];
        proof {
            assert(syn_els.deep_view()[j as int] == syn_els@[j as int].deep_view());
        }
        let xh = html::frag_select(a.html.as_str(), Css(".xh").as_str());
        let w = WordRef { id_ref: a.href_last_part(), word: html::first_text_of(&xh) };
        let ghost prev = synonyms.deep_view();
        synonyms.push(w);
        proof {
            assert(synonyms.deep_view() =~= prev.push(w.deep_view()));
            assert(syn_spec.take(j + 1) =~= syn_spec.take(j as int).push(syn_spec[j as int]));
        }
        j = j + 1;
    }
    proof {
        assert(syn_spec.take(syn_els@.len() as int) =~= syn_spec);
    }

    let ex_els = html::frag_select(el.html.as_str(), Css(".examples li .x").as_str());
    let ghost ex_spec = ex_els.deep_view().map_values(|x: RawElemV| html::spec_join_text(x));
    let mut examples: Vec<String> = Vec::new();
    let mut k: usize = 0;
    while k < ex_els.len()
        invariant
            0 <= k <= ex_els@.len(),
            ex_els@.len() == ex_els.deep_view().len(),
            ex_spec == ex_els.deep_view().map_values(|x: RawElemV| html::spec_join_text(x)),
            examples.deep_view() == ex_spec.take(k as int),
        decreases ex_els@.len() - k,
    {
        proof {
            assert(ex_els.deep_view()[k as int] == ex_els@[k as int].deep_view());
        }
        let e = ex_els[k].join_text();
        let ghost prev = examples.deep_view();
        examples.push(e);
        proof {
            assert(examples.deep_view() =~= prev.push(e@));
            assert(ex_spec.take(k + 1) =~= ex_spec.take(k as int).push(ex_spec[k as int]));
        }
        k = k + 1;
    }
    proof {
        assert(ex_spec.take(ex_els@.len() as int) =~= ex_spec);
    }

    Idiom {
        idiom: html::first_text_of(&idms),
        description: html::first_joined_of(&defs),
        notes,
        synonyms,
        examples,
    }
}

/// The idioms of the entry, with their notes, synonyms and examples.
pub fn get_idioms(html_src: &str) -> (r: Vec<Idiom>)
    ensures
        r.deep_view() == spec_get_idioms(html_src@),
{
    let els = html::doc_select(html_src, Css(".idioms .idm-g").as_str());
    let ghost spec_out = els.deep_view().map_values(|e: RawElemV| spec_idiom_of(e));
    let mut out: Vec<Idiom> = Vec::new();
    let mut i: usize = 0;
    while i < els.len()
        invariant
            0 <= i <= els@.len(),
            els@.len() == els.deep_view().len(),
            spec_out == els.deep_view().map_values(|e: RawElemV| spec_idiom_of(e)),
            out.deep_view() == spec_out.take(i as int),
        decreases els@.len() - i,
    {
        proof {
            assert(els.deep_view()[i as int] == els@[i as int].deep_view());
        }
        let w = idiom_of(&els[i]);
        let ghost prev = out.deep_view();
        out.push(w);
        proof {
            assert(out.deep_view() =~= prev.push(w.deep_view()));
            assert(spec_out.take(i + 1) =~= spec_out.take(i as int).push(spec_out[i as int]));
        }
        i = i + 1;
    }
    proof {
        assert(spec_out.take(els@.len() as int) =~= spec_out);
    }
    out
}

/// A label-prefixed text: the label, a space and the text, or the text
/// alone when the label is empty.
pub open spec fn spec_prefix_note(note: Seq<char>, body: Seq<char>) -> Seq<char> {
    if note.len() != 0 {
        note + " "@ + body
    } else {
        body
    }
}

/// The example one list item of a sense denotes: its joined example
/// text, prefixed by its label when one is present.
pub open spec fn spec_sense_example_of(li: RawElemV) -> Seq<char> {
    spec_prefix_note(
        html::spec_list_first_text(html::frag_elems(li.html, ".labels"@)),
        html::spec_list_first_joined(html::frag_elems(li.html, ".x"@)),
    )
}

/// The cross-reference a link denotes, its word read from its span.
pub open spec fn spec_span_ref_of(a: RawElemV) -> WordRefV {
    WordRefV {
        id_ref: html::spec_href_last_part(a),
        word: html::spec_list_first_joined(html::frag_elems(a.html, "span"@)),
    }
}

/// The sense one sense block denotes: its description (prefixed by its
/// labels), usage note, examples and cross-references.
pub open spec fn spec_sense_of(sv: RawElemV) -> SubDefinitionV {
    let base = html::spec_list_first_joined(html::frag_elems(sv.html, ".def"@));
    let with_label = spec_prefix_note(
        html::spec_list_first_text(html::frag_elems(sv.html, ".labels"@)),
        base,
    );
    let description = spec_prefix_note(
        html::spec_list_first_joined(html::frag_elems(sv.html, ".dis-g"@)),
        with_label,
    );
    SubDefinitionV {
        description: description,
        use_note: html::spec_list_first_joined(html::frag_elems(sv.html, ".use"@)),
        examples: html::frag_elems(sv.html, ".sense > .examples li"@).map_values(
            |li: RawElemV| spec_sense_example_of(li),
        ),
        see_also: html::frag_elems(sv.html, ".xrefs[xt='see'] a"@).map_values(
            |a: RawElemV| spec_span_ref_of(a),
        ),
        synonyms: html::frag_elems(sv.html, ".xrefs[xt='syn'] a"@).map_values(
            |a: RawElemV| spec_span_ref_of(a),
        ),
        extra_examples: html::frag_elems(sv.html, "[unbox='extra_examples'] li"@).map_values(
            |x: RawElemV| html::spec_join_text(x),
        ),
        extra_synonyms: Seq::empty(),
    }
}

/// The title of a sense group: the first text of its heading element,
/// absent when the group has no heading or the heading no text.
pub open spec fn spec_group_title_of(g: RawElemV) -> Option<Seq<char>> {
    let sh = html::frag_elems(g.html, ".shcut"@);
    if sh.len() == 0 {
        None
    } else if sh.first().texts.len() == 0 {
        None
    } else {
        Some(sh.first().texts.first())
    }
}

/// The group of senses one group block denotes.
pub open spec fn spec_group_of(g: RawElemV) -> DefinitionGroupV {
    DefinitionGroupV {
        group_title: spec_group_title_of(g),
        definitions: html::frag_elems(g.html, ".sense"@).map_values(
            |sv: RawElemV| spec_sense_of(sv),
        ),
    }
}

/// The sense groups of the entry: the grouped layout's blocks, or the
/// whole multiple-senses region as a single group when the page renders
/// a single-sense layout.
pub open spec fn spec_get_definitions(h: Seq<char>) -> Seq<DefinitionGroupV> {
    let grouped = html::doc_elems(h, ".senses_multiple .shcut-g"@);
    let base = if grouped.len() == 0 {
        html::doc_elems(h, ".senses_multiple"@)
    } else {
        grouped
    };
    base.map_values(|g: RawElemV| spec_group_of(g))
}

fn prefix_note(note: &str, body: String) -> (r: String)
    ensures
        r@ == spec_prefix_note(note@, body@),
{
    if note.is_empty() {
        body
    } else {
        text::space_join(note, body.as_str())
    }
}

fn span_ref_of(a: &RawElem) -> (r: WordRef)
    ensures
        r.deep_view() == spec_span_ref_of(a.deep_view()),
{
    let spans = html::frag_select(a.html.as_str(), Css("span").as_str());
    WordRef { id_ref: a.href_last_part(), word: html::first_joined_of(&spans) }
}

fn sense_of(sv: &RawElem) -> (r: SubDefinition)
    ensures
        r.deep_view() == spec_sense_of(sv.deep_view()),
{
    let defs = html::frag_select(sv.html.as_str(), Css(".def").as_str());
    let labels = html::frag_select(sv.html.as_str(), Css(".labels").as_str());
    let dis = html::frag_select(sv.html.as_str(), Css(".dis-g").as_str());
    let uses = html::frag_select(sv.html.as_str(), Css(".use").as_str());

    let base = html::first_joined_of(&defs);
    let label = html::first_text_of(&labels);
    let with_label = prefix_note(label.as_str(), base);
    let dis_note = html::first_joined_of(&dis);
    let description = prefix_note(dis_note.as_str(), with_label);

    let ex_els = html::frag_select(sv.html.as_str(), Css(".sense > .examples li").as_str());
    let ghost ex_spec = ex_els.deep_view().map_values(|li: RawElemV| spec_sense_example_of(li));
    let mut examples: Vec<String> = Vec::new();
    let mut i: usize = 0;
    while i < ex_els.len()
        invariant
            0 <= i <= ex_els@.len(),
            ex_els@.len() == ex_els.deep_view().len(),
            ex_spec == ex_els.deep_view().map_values(|li: RawElemV| spec_sense_example_of(li)),
            examples.deep_view() == ex_spec.take(i as int),
        decreases ex_els@.len() - i,
    {
        proof {
            assert(ex_els.deep_view()[i as int] == ex_els@[i as int].deep_view());
        }
        let li = &ex_els[i];
        let xs = html::frag_select(li.html.as_str(), Css(".x").as_str());
        let lnotes = html::frag_select(li.html.as_str(), Css(".labels").as_str());
        let lnote = html::first_text_of(&lnotes);
        let e = prefix_note(lnote.as_str(), html::first_joined_of(&xs));
        let ghost prev = examples.deep_view();
        examples.push(e);
        proof {
            assert(examples.deep_view() =~= prev.push(e@));
            assert(ex_spec.take(i + 1) =~= ex_spec.take(i as int).push(ex_spec[i as int]));
        }
        i = i + 1;
    }
    proof {
        assert(ex_spec.take(ex_els@.len() as int) =~= ex_spec);
    }

    let see_els = html::frag_select(sv.html.as_str(), Css(".xrefs[xt='see'] a").as_str());
    let ghost see_spec = see_els.deep_view().map_values(|a: RawElemV| spec_span_ref_of(a));
    let mut see_also: Vec<WordRef> = Vec::new();
    let mut j: usize = 0;
    while j < see_els.len()
        invariant
            0 <= j <= see_els@.len(),
            see_els@.len() == see_els.deep_view().len(),
            see_spec == see_els.deep_view().map_values(|a: RawElemV| spec_span_ref_of(a)),
            see_also.deep_view() == see_spec.take(j as int),
        decreases see_els@.len() - j,
    {
        proof {
            assert(see_els.deep_view()[j as int] == see_els@[j as int].deep_view());
        }
        let w = span_ref_of(&see_els[j]);
        let ghost prev = see_also.deep_view();
        see_also.push(w);
        proof {
            assert(see_also.deep_view() =~= prev.push(w.deep_view()));
            assert(see_spec.take(j + 1) =~= see_spec.take(j as int).push(see_spec[j as int]));
        }
        j = j + 1;
    }
    proof {
        assert(see_spec.take(see_els@.len() as int) =~= see_spec);
    }

    let syn_els = html::frag_select(sv.html.as_str(), Css(".xrefs[xt='syn'] a").as_str());
    let ghost syn_spec = syn_els.deep_view().map_values(|a: RawElemV| spec_span_ref_of(a));
    let mut synonyms: Vec<WordRef> = Vec::new();
    let mut k: usize = 0;
    while k < syn_els.len()
        invariant
            0 <= k <= syn_els@.len(),
            syn_els@.len() == syn_els.deep_view().len(),
            syn_spec == syn_els.deep_view().map_values(|a: RawElemV| spec_span_ref_of(a)),
            synonyms.deep_view() == syn_spec.take(k as int),
        decreases syn_els@.len() - k,
    {
        proof {
            assert(syn_els.deep_view()[k as int] == syn_els@[k as int].deep_view());
        }
        let w = span_ref_of(&syn_els[k]);
        let ghost prev = synonyms.deep_view();
        synonyms.push(w);
        proof {
            assert(synonyms.deep_view() =~= prev.push(w.deep_view()));
            assert(syn_spec.take(k + 1) =~= syn_spec.take(k as int).push(syn_spec[k as int]));
        }
        k = k + 1;
    }
    proof {
        assert(syn_spec.take(syn_els@.len() as int) =~= syn_spec);
    }

    let extra_els = html::frag_select(sv.html.as_str(), Css("[unbox='extra_examples'] li").as_str());
    let ghost extra_spec = extra_els.deep_view().map_values(|x: RawElemV| html::spec_join_text(x));
    let mut extra_examples: Vec<String> = Vec::new();
    let mut m: usize = 0;
    while m < extra_els.len()
        invariant
            0 <= m <= extra_els@.len(),
            extra_els@.len() == extra_els.deep_view().len(),
            extra_spec == extra_els.deep_view().map_values(|x: RawElemV| html::spec_join_text(x)),
            extra_examples.deep_view() == extra_spec.take(m as int),
        decreases extra_els@.len() - m,
    {
        proof {
            assert(extra_els.deep_view()[m as int] == extra_els@[m as int].deep_view());
        }
        let e = extra_els[m].join_text();
        let ghost prev = extra_examples.deep_view();
        extra_examples.push(e);
        proof {
            assert(extra_examples.deep_view() =~= prev.push(e@));
            assert(extra_spec.take(m + 1) =~= extra_spec.take(m as int).push(extra_spec[m as int]));
        }
        m = m + 1;
    }
    proof {
        assert(extra_spec.take(extra_els@.len() as int) =~= extra_spec);
    }
    let extra_synonyms: Vec<String> = Vec::new();
    proof {
        assert(extra_synonyms.deep_view() =~= Seq::<Seq<char>>::empty());
    }

    SubDefinition {
        description,
        use_note: html::first_joined_of(&uses),
        examples,
        see_also,
        synonyms,
        extra_examples,
        extra_synonyms,
    }
}

fn group_of(g: &RawElem) -> (r: DefinitionGroup)
    ensures
        r.deep_view() == spec_group_of(g.deep_view()),
{
    let sh = html::frag_select(g.html.as_str(), Css(".shcut").as_str());
    let group_title: Option<String> = if sh.len() == 0 {
        None
    } else {
        proof {
            assert(sh.deep_view().first() == sh@[0].deep_view());
        }
        if sh[0].texts.len() == 0 {
            None
        } else {
            proof {
                assert(sh@[0].deep_view().texts.first() == sh@[0].texts@[0]@);
            }
            Some(sh[0].texts[0].clone())
        }
    };

    let sense_els = html::frag_select(g.html.as_str(), Css(".sense").as_str());
    let ghost sense_spec = sense_els.deep_view().map_values(|sv: RawElemV| spec_sense_of(sv));
    let mut definitions: Vec<SubDefinition> = Vec::new();
    let mut i: usize = 0;
    while i < sense_els.len()
        invariant
            0 <= i <= sense_els@.len(),
            sense_els@.len() == sense_els.deep_view().len(),
            sense_spec == sense_els.deep_view().map_values(|sv: RawElemV| spec_sense_of(sv)),
            definitions.deep_view() == sense_spec.take(i as int),
        decreases sense_els@.len() - i,
    {
        proof {
            assert(sense_els.deep_view()[i as int] == sense_els@[i as int].deep_view());
        }
        let w = sense_of(&sense_els[i]);
        let ghost prev = definitions.deep_view();
        definitions.push(w);
        proof {
            assert(definitions.deep_view() =~= prev.push(w.deep_view()));
            assert(sense_spec.take(i + 1) =~= sense_spec.take(i as int).push(
                sense_spec[i as int],
            ));
        }
        i = i + 1;
    }
    proof {
        assert(sense_spec.take(sense_els@.len() as int) =~= sense_spec);
    }
    DefinitionGroup { group_title, definitions }
}

/// The sense groups of the entry, falling back to the whole region as a
/// single group on the single-sense layout.
pub fn get_definitions(html_src: &str) -> (r: Vec<DefinitionGroup>)
    ensures
        r.deep_view() == spec_get_definitions(html_src@),
{
    let mut els = html::doc_select(html_src, Css(".senses_multiple .shcut-g").as_str());
    if els.len() == 0 {
        proof {
            assert(els.deep_view().len() == 0);
        }
        els = html::doc_select(html_src, Css(".senses_multiple").as_str());
    }
    let ghost spec_out = els.deep_view().map_values(|g: RawElemV| spec_group_of(g));
    let mut out: Vec<DefinitionGroup> = Vec::new();
    let mut i: usize = 0;
    while i < els.len()
        invariant
            0 <= i <= els@.len(),
            els@.len() == els.deep_view().len(),
            spec_out == els.deep_view().map_values(|g: RawElemV| spec_group_of(g)),
            spec_out == spec_get_definitions(html_src@),
            out.deep_view() == spec_out.take(i as int),
        decreases els@.len() - i,
    {
        proof {
            assert(els.deep_view()[i as int] == els@[i as int].deep_view());
        }
        let w = group_of(&els[i]);
        let ghost prev = out.deep_view();
        out.push(w);
        proof {
            assert(out.deep_view() =~= prev.push(w.deep_view()));
            assert(spec_out.take(i + 1) =~= spec_out.take(i as int).push(spec_out[i as int]));
        }
        i = i + 1;
    }
    proof {
        assert(spec_out.take(els@.len() as int) =~= spec_out);
    }
    out
}

/// Everything the extraction reads from an entry page.
pub open spec fn spec_scrape_html(h: Seq<char>) -> ScrapedV {
    ScrapedV {
        ref_id: spec_get_id(h),
        header: spec_get_header(h),
        inflections: spec_get_inflections(h),
        note: spec_get_note(h),
        grammar_hint: spec_get_grammar_hint(h),
        word_variant: spec_get_word_variant(h),
        similar_results: spec_get_similar_results(h),
        pronunciations: spec_get_pronunciations(h),
        definitions: spec_get_definitions(h),
        see_also: spec_get_see_also(h),
        word_origin: spec_get_word_origin(h),
        idioms: spec_get_idioms(h),
        phrasal_verbs: spec_get_phrasal_verbs(h),
        veb_forms: Seq::empty(),
    }
}

/// Extracts the whole entry page into the structured scrape result.
pub fn scrape_html(html_src: &str) -> (r: Scraped)
    ensures
        r.deep_view() == spec_scrape_html(html_src@),
{
    let r = Scraped {
        ref_id: get_id(html_src),
        header: get_header(html_src),
        inflections: get_inflections(html_src),
        note: get_note(html_src),
        grammar_hint: get_grammar_hint(html_src),
        word_variant: get_word_variant(html_src),
        similar_results: get_similar_results(html_src),
        pronunciations: get_pronunciations(html_src),
        definitions: get_definitions(html_src),
        see_also: get_see_also(html_src),
        word_origin: get_word_origin(html_src),
        idioms: get_idioms(html_src),
        phrasal_verbs: get_phrasal_verbs(html_src),
        veb_forms: Vec::new(),
    };
    proof {
        assert(r.veb_forms.deep_view() =~= Seq::<VebFormV>::empty());
    }
    r
}

/// Law: extraction is deterministic — equal document texts yield the
/// same structured result, field for field.
pub proof fn lemma_extraction_deterministic(a: Seq<char>, b: Seq<char>)
    requires
        a == b,
    ensures
        spec_scrape_html(a) == spec_scrape_html(b),
{
}

/// What the fetch outcome means: an OK page is extracted, a not-found
/// page is the not-found error, and any other status is surfaced as
/// unexpected.
pub fn scrape_response(status: u16, html_src: &str) -> (r: Result<Scraped, ScrapeErr>)
    ensures
        status == 200 ==> (r is Ok) && r->Ok_0.deep_view() == spec_scrape_html(html_src@),
        status == 404 ==> (r matches Err(ScrapeErr::NotFound(nf)) && nf.similar_words@.len()
            == 0),
        status != 200 && status != 404 ==> r == Err::<Scraped, ScrapeErr>(
            ScrapeErr::UnexpectedHtmlStatusCode(status),
        ),
{
    if status == 200 {
        Ok(scrape_html(html_src))
    } else if status == 404 {
        Err(ScrapeErr::NotFound(parse_not_found_page(html_src)))
    } else {
        Err(ScrapeErr::UnexpectedHtmlStatusCode(status))
    }
}

/// The pronunciations with their fetched audio attached, index-aligned.
pub open spec fn spec_load_audio(
    scraped: Seq<ScrapedPronunciationV>,
    audio: Seq<Option<AudioV>>,
) -> Seq<PronunciationV> {
    Seq::new(
        scraped.len(),
        |i: int|
            PronunciationV {
                variant: scraped[i].variant,
                ipa_str: scraped[i].ipa_str,
                audio: audio[i],
            },
    )
}

/// Attaches the fetched audio payloads to the scraped pronunciations,
/// index for index; a failed fetch leaves that entry's audio absent.
/// The result always has exactly one entry per scraped pronunciation,
/// in the input order.
pub fn load_audio(scraped: &Vec<ScrapedPronunciation>, audio: &Vec<Option<Audio>>) -> (r: Vec<
    Pronunciation,
>)
    requires
        audio@.len() == scraped@.len(),
    ensures
        r.deep_view() == spec_load_audio(scraped.deep_view(), audio.deep_view()),
        r@.len() == scraped@.len(),
{
    let ghost spec_out = spec_load_audio(scraped.deep_view(), audio.deep_view());
    let mut out: Vec<Pronunciation> = Vec::new();
    let mut i: usize = 0;
    while i < scraped.len()
        invariant
            0 <= i <= scraped@.len(),
            audio@.len() == scraped@.len(),
            scraped@.len() == scraped.deep_view().len(),
            audio@.len() == audio.deep_view().len(),
            spec_out == spec_load_audio(scraped.deep_view(), audio.deep_view()),
            out.deep_view() == spec_out.take(i as int),
        decreases scraped@.len() - i,
    {
        proof {
            assert(scraped.deep_view()[i as int] == scraped@[i as int].deep_view());
            assert(audio.deep_view()[i as int] == audio@[i as int].deep_view());
            lemma_clone_audio();
        }
        let p = &scraped[i];
        let w = Pronunciation {
            variant: p.variant,
            ipa_str: p.ipa_str.clone(),
            audio: clone_option(&audio[i]),
        };
        let ghost prev = out.deep_view();
        out.push(w);
        proof {
            assert(out.deep_view() =~= prev.push(w.deep_view()));
            assert(spec_out.take(i + 1) =~= spec_out.take(i as int).push(spec_out[i as int]));
        }
        i = i + 1;
    }
    proof {
        assert(spec_out.take(scraped@.len() as int) =~= spec_out);
    }
    out
}

impl Scraped {
    /// The scrape as a complete definition, its pronunciations replaced
    /// by the audio-carrying ones.
    pub fn into_definition(self, pros: Vec<Pronunciation>) -> (r: Definition)
        ensures
            r.deep_view() == (DefinitionV {
                id_ref: self.deep_view().ref_id,
                header: self.deep_view().header,
                inflections: self.deep_view().inflections,
                note: self.deep_view().note,
                grammar_hint: self.deep_view().grammar_hint,
                word_variant: self.deep_view().word_variant,
                similar_results: self.deep_view().similar_results,
                pronunciations: pros.deep_view(),
                definitions: self.deep_view().definitions,
                see_also: self.deep_view().see_also,
                word_origin: self.deep_view().word_origin,
                idioms: self.deep_view().idioms,
                phrasal_verbs: self.deep_view().phrasal_verbs,
                veb_forms: self.deep_view().veb_forms,
            }),
    {
        Definition {
            id_ref: self.ref_id,
            header: self.header,
            inflections: self.inflections,
            note: self.note,
            grammar_hint: self.grammar_hint,
            word_variant: self.word_variant,
            similar_results: self.similar_results,
            pronunciations: pros,
            definitions: self.definitions,
            see_also: self.see_also,
            word_origin: self.word_origin,
            idioms: self.idioms,
            phrasal_verbs: self.phrasal_verbs,
            veb_forms: self.veb_forms,
        }
    }
}

/// The audio an HTTP response yields: present exactly when the status
/// is OK and both a content type and a body came back.
pub open spec fn spec_audio_from_response(
    status: u16,
    ct: Option<Seq<char>>,
    bytes: Option<Seq<u8>>,
) -> Option<AudioV> {
    if status == 200 {
        match (ct, bytes) {
            (Some(c), Some(b)) => Some(AudioV { content_type: c, bytes: b }),
            _ => None,
        }
    } else {
        None
    }
}

/// The audio an HTTP response carries: its content type and bytes when
/// the status is OK and both are present, and nothing otherwise.
pub fn audio_from_response(status: u16, content_type: Option<String>, bytes: Option<Vec<u8>>) -> (r:
    Option<Audio>)
    ensures
        r.deep_view() == spec_audio_from_response(
            status,
            content_type.deep_view(),
            bytes.deep_view(),
        ),
{
    if status == 200 {
        match (content_type, bytes) {
            (Some(c), Some(b)) => {
                proof {
                    assert(b.deep_view() =~= b@);
                }
                Some(Audio { content_type: c, bytes: b })
            },
            _ => None,
        }
    } else {
        None
    }
}

} // verus!
