//! The externally visible response shapes, and the conversions from the
//! persisted documents into them.

use vstd::prelude::*;
use crate::models::audio::AudioDoc;
use crate::models::oxford::DefinitionDoc as OxfordDefinitionDoc;
use crate::models::oxford::DefinitionDocV as OxfordDefinitionDocV;
use crate::models::oxford::DefinitionGroup as OxDefinitionGroup;
use crate::models::oxford::DefinitionGroupV as OxDefinitionGroupV;
use crate::models::oxford::Idiom as OxIdiom;
use crate::models::oxford::IdiomV as OxIdiomV;
use crate::models::oxford::SimilarResult as OxSimilarResult;
use crate::models::oxford::SimilarResultV as OxSimilarResultV;
use crate::models::oxford::SubDefinition as OxSubDefinition;
use crate::models::oxford::SubDefinitionV as OxSubDefinitionV;
use crate::models::oxford::WordRef as OxWordRef;
use crate::models::oxford::WordRefV as OxWordRefV;
use crate::models::shared::PronunciationDoc;
use crate::models::shared::PronunciationDocV;
use crate::models::shared;
use crate::models::vocabulary::DefinitionDoc as VocDefinitionDoc;
use crate::models::vocabulary::DefinitionDocV as VocDefinitionDocV;
use crate::models::vocabulary::Example as VocExample;
use crate::models::vocabulary::ExampleV as VocExampleV;
use crate::models::vocabulary::SubDefinition as VocSubDefinition;
use crate::models::vocabulary::SubDefinitionV as VocSubDefinitionV;
use crate::models::vocabulary;
use crate::cloning::clone_bytes;
use crate::cloning::clone_strings;
use crate::text;

verus! {

/// A regional pronunciation marker, in the response vocabulary.
#[derive(Debug, Clone, Copy, PartialEq, Eq)]
pub enum PronunciationVariant {
    Uk,
    Usa,
    Other,
}

impl PronunciationVariant {
    /// The marker a stored pronunciation's region maps to.
    pub fn from(value: shared::PronunciationVariant) -> (r: Self)
        ensures
            r == spec_pron_variant_resp(value),
    {
        match value {
            shared::PronunciationVariant::Uk => PronunciationVariant::Uk,
            shared::PronunciationVariant::Usa => PronunciationVariant::Usa,
            shared::PronunciationVariant::Other => PronunciationVariant::Other,
        }
    }

    /// The stable name of the marker.
    pub fn as_str_name(&self) -> (r: &'static str)
        ensures
            self is Uk ==> r@ == "Uk"@,
            self is Usa ==> r@ == "Usa"@,
            self is Other ==> r@ == "Other"@,
    {
        match self {
            PronunciationVariant::Uk => "Uk",
            PronunciationVariant::Usa => "Usa",
            PronunciationVariant::Other => "Other",
        }
    }

    /// The marker a stable name denotes, if any.
    pub fn from_str_name(value: &str) -> (r: Option<Self>)
        ensures
            r == (if value@ == "Uk"@ {
                Some(PronunciationVariant::Uk)
            } else if value@ == "Usa"@ {
                Some(PronunciationVariant::Usa)
            } else if value@ == "Other"@ {
                Some(PronunciationVariant::Other)
            } else {
                None::<PronunciationVariant>
            }),
    {
        if text::str_eq(value, "Uk") {
            Some(PronunciationVariant::Uk)
        } else if text::str_eq(value, "Usa") {
            Some(PronunciationVariant::Usa)
        } else if text::str_eq(value, "Other") {
            Some(PronunciationVariant::Other)
        } else {
            None
        }
    }
}

/// The response marker a stored region maps to.
pub open spec fn spec_pron_variant_resp(v: shared::PronunciationVariant) -> PronunciationVariant {
    match v {
        shared::PronunciationVariant::Uk => PronunciationVariant::Uk,
        shared::PronunciationVariant::Usa => PronunciationVariant::Usa,
        shared::PronunciationVariant::Other => PronunciationVariant::Other,
    }
}

/// A pronunciation in the response: region, phonetic text, and the
/// audio storage id rendered as a string, when audio was stored.
#[derive(Debug, Clone, PartialEq, Eq)]
pub struct Pronunciation {
    pub variant: PronunciationVariant,
    pub ipa_str: String,
    pub audio_id: Option<String>,
}

/// The mathematical shape of a response [`Pronunciation`].
pub struct PronunciationRespV {
    pub variant: PronunciationVariant,
    pub ipa_str: Seq<char>,
    pub audio_id: Option<Seq<char>>,
}

impl DeepView for Pronunciation {
    type V = PronunciationRespV;

    open spec fn deep_view(&self) -> PronunciationRespV {
        PronunciationRespV {
            variant: self.variant,
            ipa_str: self.ipa_str@,
            audio_id: self.audio_id.deep_view(),
        }
    }
}

/// The response pronunciation a stored one maps to: the storage id is
/// rendered in decimal.
pub open spec fn spec_pron_resp(p: PronunciationDocV) -> PronunciationRespV {
    PronunciationRespV {
        variant: spec_pron_variant_resp(p.variant),
        ipa_str: p.ipa_str,
        audio_id: match p.audio_id {
            Some(id) => Some(text::spec_render_u64(id)),
            None => None,
        },
    }
}

/// A cross-reference in the response.
#[derive(Debug, Clone, PartialEq, Eq)]
pub struct WordRef {
    pub oxford_ref: String,
    pub word: String,
}

/// The mathematical shape of a response [`WordRef`].
pub struct WordRefRespV {
    pub oxford_ref: Seq<char>,
    pub word: Seq<char>,
}

impl DeepView for WordRef {
    type V = WordRefRespV;

    open spec fn deep_view(&self) -> WordRefRespV {
        WordRefRespV { oxford_ref: self.oxford_ref@, word: self.word@ }
    }
}

/// The response cross-reference a stored one maps to.
pub open spec fn spec_word_ref_resp(w: OxWordRefV) -> WordRefRespV {
    WordRefRespV { oxford_ref: w.id_ref, word: w.word }
}

/// The response cross-reference a similar-result entry maps to; its
/// class token is not carried over.
pub open spec fn spec_similar_resp(s: OxSimilarResultV) -> WordRefRespV {
    WordRefRespV { oxford_ref: s.id, word: s.word }
}

impl WordRef {
    /// The response cross-reference a stored one maps to.
    pub fn from(value: &OxWordRef) -> (r: Self)
        ensures
            r.deep_view() == spec_word_ref_resp(value.deep_view()),
    {
        WordRef { oxford_ref: value.id_ref.clone(), word: value.word.clone() }
    }

    /// The response cross-reference a similar-result entry maps to.
    pub fn from_similar(value: &OxSimilarResult) -> (r: Self)
        ensures
            r.deep_view() == spec_similar_resp(value.deep_view()),
    {
        WordRef { oxford_ref: value.id.clone(), word: value.word.clone() }
    }
}

/// One sense in the response.
#[derive(Debug, Clone, PartialEq, Eq)]
pub struct SubDefinition {
    pub description: String,
    pub use_note: String,
    pub examples: Vec<String>,
    pub see_also: Vec<WordRef>,
    pub synonyms: Vec<WordRef>,
    pub extra_examples: Vec<String>,
    pub extra_synonyms: Vec<String>,
}

/// The mathematical shape of a response [`SubDefinition`].
pub struct SubDefinitionRespV {
    pub description: Seq<char>,
    pub use_note: Seq<char>,
    pub examples: Seq<Seq<char>>,
    pub see_also: Seq<WordRefRespV>,
    pub synonyms: Seq<WordRefRespV>,
    pub extra_examples: Seq<Seq<char>>,
    pub extra_synonyms: Seq<Seq<char>>,
}

impl DeepView for SubDefinition {
    type V = SubDefinitionRespV;

    open spec fn deep_view(&self) -> SubDefinitionRespV {
        SubDefinitionRespV {
            description: self.description@,
            use_note: self.use_note@,
            examples: self.examples.deep_view(),
            see_also: self.see_also.deep_view(),
            synonyms: self.synonyms.deep_view(),
            extra_examples: self.extra_examples.deep_view(),
            extra_synonyms: self.extra_synonyms.deep_view(),
        }
    }
}

/// The response sense a stored one maps to.
pub open spec fn spec_sub_def_resp(s: OxSubDefinitionV) -> SubDefinitionRespV {
    SubDefinitionRespV {
        description: s.description,
        use_note: s.use_note,
        examples: s.examples,
        see_also: s.see_also.map_values(|w: OxWordRefV| spec_word_ref_resp(w)),
        synonyms: s.synonyms.map_values(|w: OxWordRefV| spec_word_ref_resp(w)),
        extra_examples: s.extra_examples,
        extra_synonyms: s.extra_synonyms,
    }
}

/// A titled group of senses in the response; an untitled group carries
/// an empty title.
#[derive(Debug, Clone, PartialEq, Eq)]
pub struct DefinitionGroup {
    pub group_title: String,
    pub definitions: Vec<SubDefinition>,
}

/// The mathematical shape of a response [`DefinitionGroup`].
pub struct DefinitionGroupRespV {
    pub group_title: Seq<char>,
    pub definitions: Seq<SubDefinitionRespV>,
}

impl DeepView for DefinitionGroup {
    type V = DefinitionGroupRespV;

    open spec fn deep_view(&self) -> DefinitionGroupRespV {
        DefinitionGroupRespV {
            group_title: self.group_title@,
            definitions: self.definitions.deep_view(),
        }
    }
}

/// The response group a stored one maps to.
pub open spec fn spec_group_resp(g: OxDefinitionGroupV) -> DefinitionGroupRespV {
    DefinitionGroupRespV {
        group_title: match g.group_title {
            Some(t) => t,
            None => Seq::empty(),
        },
        definitions: g.definitions.map_values(|s: OxSubDefinitionV| spec_sub_def_resp(s)),
    }
}

/// An idiom in the response.
#[derive(Debug, Clone, PartialEq, Eq)]
pub struct Idiom {
    pub idiom: String,
    pub description: String,
    pub notes: Vec<String>,
    pub synonyms: Vec<WordRef>,
    pub examples: Vec<String>,
}

/// The mathematical shape of a response [`Idiom`].
pub struct IdiomRespV {
    pub idiom: Seq<char>,
    pub description: Seq<char>,
    pub notes: Seq<Seq<char>>,
    pub synonyms: Seq<WordRefRespV>,
    pub examples: Seq<Seq<char>>,
}

impl DeepView for Idiom {
    type V = IdiomRespV;

    open spec fn deep_view(&self) -> IdiomRespV {
        IdiomRespV {
            idiom: self.idiom@,
            description: self.description@,
            notes: self.notes.deep_view(),
            synonyms: self.synonyms.deep_view(),
            examples: self.examples.deep_view(),
        }
    }
}

/// The response idiom a stored one maps to.
pub open spec fn spec_idiom_resp(v: OxIdiomV) -> IdiomRespV {
    IdiomRespV {
        idiom: v.idiom,
        description: v.description,
        notes: v.notes,
        synonyms: v.synonyms.map_values(|w: OxWordRefV| spec_word_ref_resp(w)),
        examples: v.examples,
    }
}

/// The word-class tag of a response sense: a known class, or any other
/// raw token carried verbatim.
#[derive(Debug, Clone, PartialEq, Eq)]
pub enum WordVariant {
    WordVariant(KnownWordVariant),
    OtherWordVariant(String),
}

/// The four word classes the response names outright.
#[derive(Debug, Clone, Copy, PartialEq, Eq)]
pub enum KnownWordVariant {
    Noun,
    Verb,
    Adjective,
    Adverb,
}

impl KnownWordVariant {
    /// The stable name of the class.
    pub fn as_str_name(&self) -> (r: &'static str)
        ensures
            self is Noun ==> r@ == "Noun"@,
            self is Verb ==> r@ == "Verb"@,
            self is Adjective ==> r@ == "Adjective"@,
            self is Adverb ==> r@ == "Adverb"@,
    {
        match self {
            KnownWordVariant::Noun => "Noun",
            KnownWordVariant::Verb => "Verb",
            KnownWordVariant::Adjective => "Adjective",
            KnownWordVariant::Adverb => "Adverb",
        }
    }

    /// The class a stable name denotes, if any.
    pub fn from_str_name(value: &str) -> (r: Option<Self>)
        ensures
            r == (if value@ == "Noun"@ {
                Some(KnownWordVariant::Noun)
            } else if value@ == "Verb"@ {
                Some(KnownWordVariant::Verb)
            } else if value@ == "Adjective"@ {
                Some(KnownWordVariant::Adjective)
            } else if value@ == "Adverb"@ {
                Some(KnownWordVariant::Adverb)
            } else {
                None::<KnownWordVariant>
            }),
    {
        if text::str_eq(value, "Noun") {
            Some(KnownWordVariant::Noun)
        } else if text::str_eq(value, "Verb") {
            Some(KnownWordVariant::Verb)
        } else if text::str_eq(value, "Adjective") {
            Some(KnownWordVariant::Adjective)
        } else if text::str_eq(value, "Adverb") {
            Some(KnownWordVariant::Adverb)
        } else {
            None
        }
    }
}

/// The mathematical shape of a response [`WordVariant`].
pub enum WordVariantRespV {
    WordVariant(KnownWordVariant),
    OtherWordVariant(Seq<char>),
}

impl DeepView for WordVariant {
    type V = WordVariantRespV;

    open spec fn deep_view(&self) -> WordVariantRespV {
        match self {
            WordVariant::WordVariant(k) => WordVariantRespV::WordVariant(*k),
            WordVariant::OtherWordVariant(s) => WordVariantRespV::OtherWordVariant(s@),
        }
    }
}

/// The response word-class tag a stored class maps to: the four known
/// classes by name, anything else verbatim.
pub open spec fn spec_word_variant_resp(v: vocabulary::WordVariantV) -> WordVariantRespV {
    match v {
        vocabulary::WordVariantV::Noun => WordVariantRespV::WordVariant(KnownWordVariant::Noun),
        vocabulary::WordVariantV::Verb => WordVariantRespV::WordVariant(KnownWordVariant::Verb),
        vocabulary::WordVariantV::Adjective => WordVariantRespV::WordVariant(
            KnownWordVariant::Adjective,
        ),
        vocabulary::WordVariantV::Adverb => WordVariantRespV::WordVariant(
            KnownWordVariant::Adverb,
        ),
        vocabulary::WordVariantV::Other(s) => WordVariantRespV::OtherWordVariant(s),
    }
}

impl WordVariant {
    /// The response tag a stored word class maps to.
    pub fn from(value: &vocabulary::WordVariant) -> (r: Self)
        ensures
            r.deep_view() == spec_word_variant_resp(value.deep_view()),
    {
        match value {
            vocabulary::WordVariant::Noun => WordVariant::WordVariant(KnownWordVariant::Noun),
            vocabulary::WordVariant::Verb => WordVariant::WordVariant(KnownWordVariant::Verb),
            vocabulary::WordVariant::Adjective => WordVariant::WordVariant(
                KnownWordVariant::Adjective,
            ),
            vocabulary::WordVariant::Adverb => WordVariant::WordVariant(KnownWordVariant::Adverb),
            vocabulary::WordVariant::Other(s) => WordVariant::OtherWordVariant(s.clone()),
        }
    }
}

/// One sense of the vocabulary source, in the response.
#[derive(Debug, Clone, PartialEq, Eq)]
pub struct VocabularySubDefinition {
    pub description: String,
    pub short_examples: Vec<String>,
    pub synonyms: Vec<String>,
    pub word_variant: Option<WordVariant>,
}

/// The mathematical shape of a response [`VocabularySubDefinition`].
pub struct VocabularySubDefinitionV {
    pub description: Seq<char>,
    pub short_examples: Seq<Seq<char>>,
    pub synonyms: Seq<Seq<char>>,
    pub word_variant: Option<WordVariantRespV>,
}

impl DeepView for VocabularySubDefinition {
    type V = VocabularySubDefinitionV;

    open spec fn deep_view(&self) -> VocabularySubDefinitionV {
        VocabularySubDefinitionV {
            description: self.description@,
            short_examples: self.short_examples.deep_view(),
            synonyms: self.synonyms.deep_view(),
            word_variant: self.word_variant.deep_view(),
        }
    }
}

/// The response sense a stored vocabulary sense maps to; its word class
/// is always carried.
pub open spec fn spec_voc_sub_resp(s: VocSubDefinitionV) -> VocabularySubDefinitionV {
    VocabularySubDefinitionV {
        description: s.description,
        short_examples: s.short_examples,
        synonyms: s.synonyms,
        word_variant: Some(spec_word_variant_resp(s.variant)),
    }
}

/// A literary example in the response.
#[derive(Debug, Clone, PartialEq, Eq)]
pub struct VocabularyExample {
    pub sentence: String,
    pub author: String,
    pub source_title: String,
}

/// The mathematical shape of a response [`VocabularyExample`].
pub struct VocabularyExampleV {
    pub sentence: Seq<char>,
    pub author: Seq<char>,
    pub source_title: Seq<char>,
}

impl DeepView for VocabularyExample {
    type V = VocabularyExampleV;

    open spec fn deep_view(&self) -> VocabularyExampleV {
        VocabularyExampleV {
            sentence: self.sentence@,
            author: self.author@,
            source_title: self.source_title@,
        }
    }
}

/// The response example a stored one maps to.
pub open spec fn spec_example_resp(e: VocExampleV) -> VocabularyExampleV {
    VocabularyExampleV { sentence: e.sentence, author: e.author, source_title: e.source_title }
}

/// The vocabulary source's definition, in the response.
#[derive(Debug, Clone, PartialEq, Eq)]
pub struct VocabularyDefinition {
    pub id: String,
    pub header: String,
    pub long_description: String,
    pub short_description: String,
    pub pronunciations: Vec<Pronunciation>,
    pub definitions: Vec<VocabularySubDefinition>,
    pub examples: Vec<VocabularyExample>,
    pub other_forms: Vec<String>,
}

/// The mathematical shape of a response [`VocabularyDefinition`].
pub struct VocabularyDefinitionV {
    pub id: Seq<char>,
    pub header: Seq<char>,
    pub long_description: Seq<char>,
    pub short_description: Seq<char>,
    pub pronunciations: Seq<PronunciationRespV>,
    pub definitions: Seq<VocabularySubDefinitionV>,
    pub examples: Seq<VocabularyExampleV>,
    pub other_forms: Seq<Seq<char>>,
}

impl DeepView for VocabularyDefinition {
    type V = VocabularyDefinitionV;

    open spec fn deep_view(&self) -> VocabularyDefinitionV {
        VocabularyDefinitionV {
            id: self.id@,
            header: self.header@,
            long_description: self.long_description@,
            short_description: self.short_description@,
            pronunciations: self.pronunciations.deep_view(),
            definitions: self.definitions.deep_view(),
            examples: self.examples.deep_view(),
            other_forms: self.other_forms.deep_view(),
        }
    }
}

/// The response definition a stored vocabulary document maps to: its
/// storage id rendered in decimal (empty when the record has none),
/// and each nested part mapped in order.
pub open spec fn spec_voc_response(d: VocDefinitionDocV) -> VocabularyDefinitionV {
    VocabularyDefinitionV {
        id: match d.id {
            Some(i) => text::spec_render_u64(i),
            None => Seq::empty(),
        },
        header: d.header,
        long_description: d.long_description,
        short_description: d.short_description,
        pronunciations: d.pronunciations.map_values(|p: PronunciationDocV| spec_pron_resp(p)),
        definitions: d.definitions.map_values(|s: VocSubDefinitionV| spec_voc_sub_resp(s)),
        examples: d.examples.map_values(|e: VocExampleV| spec_example_resp(e)),
        other_forms: d.other_forms,
    }
}

/// The Oxford source's definition, in the response.
#[derive(Debug, Clone, PartialEq, Eq)]
pub struct OxfordDefinition {
    pub id: String,
    pub header: String,
    pub oxford_ref: String,
    pub inflections: String,
    pub note: String,
    pub word_variant: String,
    pub word_origin: String,
    pub similar_results: Vec<WordRef>,
    pub pronunciations: Vec<Pronunciation>,
    pub definitions: Vec<DefinitionGroup>,
    pub see_also: Vec<WordRef>,
    pub idioms: Vec<Idiom>,
    pub phrasal_verbs: Vec<WordRef>,
}

/// The mathematical shape of a response [`OxfordDefinition`].
pub struct OxfordDefinitionV {
    pub id: Seq<char>,
    pub header: Seq<char>,
    pub oxford_ref: Seq<char>,
    pub inflections: Seq<char>,
    pub note: Seq<char>,
    pub word_variant: Seq<char>,
    pub word_origin: Seq<char>,
    pub similar_results: Seq<WordRefRespV>,
    pub pronunciations: Seq<PronunciationRespV>,
    pub definitions: Seq<DefinitionGroupRespV>,
    pub see_also: Seq<WordRefRespV>,
    pub idioms: Seq<IdiomRespV>,
    pub phrasal_verbs: Seq<WordRefRespV>,
}

impl DeepView for OxfordDefinition {
    type V = OxfordDefinitionV;

    open spec fn deep_view(&self) -> OxfordDefinitionV {
        OxfordDefinitionV {
            id: self.id@,
            header: self.header@,
            oxford_ref: self.oxford_ref@,
            inflections: self.inflections@,
            note: self.note@,
            word_variant: self.word_variant@,
            word_origin: self.word_origin@,
            similar_results: self.similar_results.deep_view(),
            pronunciations: self.pronunciations.deep_view(),
            definitions: self.definitions.deep_view(),
            see_also: self.see_also.deep_view(),
            idioms: self.idioms.deep_view(),
            phrasal_verbs: self.phrasal_verbs.deep_view(),
        }
    }
}

/// The response definition a stored Oxford document maps to; its id is
/// rendered in decimal (empty when the record has none), and its
/// grammar hint and searched word are not part of the response.
pub open spec fn spec_ox_response(d: OxfordDefinitionDocV) -> OxfordDefinitionV {
    OxfordDefinitionV {
        id: match d.id {
            Some(i) => text::spec_render_u64(i),
            None => Seq::empty(),
        },
        header: d.header,
        oxford_ref: d.id_ref,
        inflections: d.inflections,
        note: d.note,
        word_variant: d.word_variant,
        word_origin: d.word_origin,
        similar_results: d.similar_results.map_values(
            |s: OxSimilarResultV| spec_similar_resp(s),
        ),
        pronunciations: d.pronunciations.map_values(|p: PronunciationDocV| spec_pron_resp(p)),
        definitions: d.definitions.map_values(|g: OxDefinitionGroupV| spec_group_resp(g)),
        see_also: d.see_also.map_values(|w: OxWordRefV| spec_word_ref_resp(w)),
        idioms: d.idioms.map_values(|v: OxIdiomV| spec_idiom_resp(v)),
        phrasal_verbs: d.phrasal_verbs.map_values(|w: OxWordRefV| spec_word_ref_resp(w)),
    }
}

/// The combined answer for one word: whatever each source contributed.
#[derive(Debug, Clone, PartialEq, Eq)]
pub struct GetWordDefinitionsResponse {
    pub word: String,
    pub vocabulary_definition: Option<VocabularyDefinition>,
    pub oxford_definition: Option<OxfordDefinition>,
}

/// The mathematical shape of a [`GetWordDefinitionsResponse`].
pub struct GetWordDefinitionsResponseV {
    pub word: Seq<char>,
    pub vocabulary_definition: Option<VocabularyDefinitionV>,
    pub oxford_definition: Option<OxfordDefinitionV>,
}

impl DeepView for GetWordDefinitionsResponse {
    type V = GetWordDefinitionsResponseV;

    open spec fn deep_view(&self) -> GetWordDefinitionsResponseV {
        GetWordDefinitionsResponseV {
            word: self.word@,
            vocabulary_definition: self.vocabulary_definition.deep_view(),
            oxford_definition: self.oxford_definition.deep_view(),
        }
    }
}

/// The answer for a word and whatever documents were found for it.
pub open spec fn spec_response(
    word: Seq<char>,
    voc: Option<VocDefinitionDocV>,
    ox: Option<OxfordDefinitionDocV>,
) -> GetWordDefinitionsResponseV {
    GetWordDefinitionsResponseV {
        word: word,
        vocabulary_definition: match voc {
            Some(d) => Some(spec_voc_response(d)),
            None => None,
        },
        oxford_definition: match ox {
            Some(d) => Some(spec_ox_response(d)),
            None => None,
        },
    }
}

/// One stored audio blob, as the audio retrieval path answers it.
#[derive(Debug, Clone, PartialEq, Eq)]
pub struct GetAudioResponse {
    pub word: String,
    pub content_type: String,
    pub bytes: Vec<u8>,
}

/// The mathematical shape of a [`GetAudioResponse`].
pub struct GetAudioResponseV {
    pub word: Seq<char>,
    pub content_type: Seq<char>,
    pub bytes: Seq<u8>,
}

impl DeepView for GetAudioResponse {
    type V = GetAudioResponseV;

    open spec fn deep_view(&self) -> GetAudioResponseV {
        GetAudioResponseV {
            word: self.word@,
            content_type: self.content_type@,
            bytes: self.bytes@,
        }
    }
}

/// The response a stored audio document maps to.
pub open spec fn spec_audio_resp(d: crate::models::audio::AudioDocV) -> GetAudioResponseV {
    GetAudioResponseV { word: d.word, content_type: d.content_type, bytes: d.bytes }
}

impl AudioDoc {
    /// The audio response this stored blob answers with.
    pub fn to_response(&self) -> (r: GetAudioResponse)
        ensures
            r.deep_view() == spec_audio_resp(self.deep_view()),
    {
        GetAudioResponse {
            word: self.word.clone(),
            content_type: self.content_type.clone(),
            bytes: clone_bytes(&self.bytes),
        }
    }
}

fn pron_resp(p: &PronunciationDoc) -> (r: Pronunciation)
    ensures
        r.deep_view() == spec_pron_resp(p.deep_view()),
{
    Pronunciation {
        variant: PronunciationVariant::from(p.variant),
        ipa_str: p.ipa_str.clone(),
        audio_id: match p.audio_id {
            Some(id) => Some(text::u64_string(id)),
            None => None,
        },
    }
}

fn prons_resp(ps: &Vec<PronunciationDoc>) -> (r: Vec<Pronunciation>)
    ensures
        r.deep_view() == ps.deep_view().map_values(|p: PronunciationDocV| spec_pron_resp(p)),
{
    let ghost spec_out = ps.deep_view().map_values(|p: PronunciationDocV| spec_pron_resp(p));
    let mut out: Vec<Pronunciation> = Vec::new();
    let mut i: usize = 0;
    while i < ps.len()
        invariant
            0 <= i <= ps@.len(),
            ps@.len() == ps.deep_view().len(),
            spec_out == ps.deep_view().map_values(|p: PronunciationDocV| spec_pron_resp(p)),
            out.deep_view() == spec_out.take(i as int),
        decreases ps@.len() - i,
    {
        proof {
            assert(ps.deep_view()[i as int] == ps@[i as int].deep_view());
        }
        let w = pron_resp(&ps[i]);
        let ghost prev = out.deep_view();
        out.push(w);
        proof {
            assert(out.deep_view() =~= prev.push(w.deep_view()));
            assert(spec_out.take(i + 1) =~= spec_out.take(i as int).push(spec_out[i as int]));
        }
        i = i + 1;
    }
    proof {
        assert(spec_out.take(ps@.len() as int) =~= spec_out);
    }
    out
}

fn word_refs_resp(ws: &Vec<OxWordRef>) -> (r: Vec<WordRef>)
    ensures
        r.deep_view() == ws.deep_view().map_values(|w: OxWordRefV| spec_word_ref_resp(w)),
{
    let ghost spec_out = ws.deep_view().map_values(|w: OxWordRefV| spec_word_ref_resp(w));
    let mut out: Vec<WordRef> = Vec::new();
    let mut i: usize = 0;
    while i < ws.len()
        invariant
            0 <= i <= ws@.len(),
            ws@.len() == ws.deep_view().len(),
            spec_out == ws.deep_view().map_values(|w: OxWordRefV| spec_word_ref_resp(w)),
            out.deep_view() == spec_out.take(i as int),
        decreases ws@.len() - i,
    {
        proof {
            assert(ws.deep_view()[i as int] == ws@[i as int].deep_view());
        }
        let w = WordRef::from(&ws[i]);
        let ghost prev = out.deep_view();
        out.push(w);
        proof {
            assert(out.deep_view() =~= prev.push(w.deep_view()));
            assert(spec_out.take(i + 1) =~= spec_out.take(i as int).push(spec_out[i as int]));
        }
        i = i + 1;
    }
    proof {
        assert(spec_out.take(ws@.len() as int) =~= spec_out);
    }
    out
}

fn idiom_resp(v: &OxIdiom) -> (r: Idiom)
    ensures
        r.deep_view() == spec_idiom_resp(v.deep_view()),
{
    Idiom {
        idiom: v.idiom.clone(),
        description: v.description.clone(),
        notes: clone_strings(&v.notes),
        synonyms: word_refs_resp(&v.synonyms),
        examples: clone_strings(&v.examples),
    }
}

fn sub_def_resp(s: &OxSubDefinition) -> (r: SubDefinition)
    ensures
        r.deep_view() == spec_sub_def_resp(s.deep_view()),
{
    SubDefinition {
        description: s.description.clone(),
        use_note: s.use_note.clone(),
        examples: clone_strings(&s.examples),
        see_also: word_refs_resp(&s.see_also),
        synonyms: word_refs_resp(&s.synonyms),
        extra_examples: clone_strings(&s.extra_examples),
        extra_synonyms: clone_strings(&s.extra_synonyms),
    }
}

fn group_resp(g: &OxDefinitionGroup) -> (r: DefinitionGroup)
    ensures
        r.deep_view() == spec_group_resp(g.deep_view()),
{
    let ghost spec_defs = g.deep_view().definitions.map_values(
        |s: OxSubDefinitionV| spec_sub_def_resp(s),
    );
    let mut definitions: Vec<SubDefinition> = Vec::new();
    let mut i: usize = 0;
    while i < g.definitions.len()
        invariant
            0 <= i <= g.definitions@.len(),
            g.definitions@.len() == g.deep_view().definitions.len(),
            spec_defs == g.deep_view().definitions.map_values(
                |s: OxSubDefinitionV| spec_sub_def_resp(s),
            ),
            definitions.deep_view() == spec_defs.take(i as int),
        decreases g.definitions@.len() - i,
    {
        proof {
            assert(g.deep_view().definitions[i as int] == g.definitions@[i as int].deep_view());
        }
        let w = sub_def_resp(&g.definitions[i]);
        let ghost prev = definitions.deep_view();
        definitions.push(w);
        proof {
            assert(definitions.deep_view() =~= prev.push(w.deep_view()));
            assert(spec_defs.take(i + 1) =~= spec_defs.take(i as int).push(spec_defs[i as int]));
        }
        i = i + 1;
    }
    proof {
        assert(spec_defs.take(g.definitions@.len() as int) =~= spec_defs);
    }
    let group_title: String = match &g.group_title {
        Some(t) => t.clone(),
        None => {
            let e = String::new();
            e
        },
    };
    DefinitionGroup { group_title, definitions }
}

impl OxfordDefinitionDoc {
    /// The response definition this stored document answers with.
    pub fn into_response(self) -> (r: OxfordDefinition)
        ensures
            r.deep_view() == spec_ox_response(self.deep_view()),
    {
        let ghost dv = self.deep_view();

        let ghost sim_spec = dv.similar_results.map_values(
            |s: OxSimilarResultV| spec_similar_resp(s),
        );
        let mut similar_results: Vec<WordRef> = Vec::new();
        let mut i: usize = 0;
        while i < self.similar_results.len()
            invariant
                0 <= i <= self.similar_results@.len(),
                self.similar_results@.len() == dv.similar_results.len(),
                dv == self.deep_view(),
                sim_spec == dv.similar_results.map_values(
                    |s: OxSimilarResultV| spec_similar_resp(s),
                ),
                similar_results.deep_view() == sim_spec.take(i as int),
            decreases self.similar_results@.len() - i,
        {
            proof {
                assert(dv.similar_results[i as int] == self.similar_results@[
                    i as int].deep_view());
            }
            let w = WordRef::from_similar(&self.similar_results[i]);
            let ghost prev = similar_results.deep_view();
            similar_results.push(w);
            proof {
                assert(similar_results.deep_view() =~= prev.push(w.deep_view()));
                assert(sim_spec.take(i + 1) =~= sim_spec.take(i as int).push(sim_spec[i as int]));
            }
            i = i + 1;
        }
        proof {
            assert(sim_spec.take(self.similar_results@.len() as int) =~= sim_spec);
        }

        let ghost grp_spec = dv.definitions.map_values(
            |g: OxDefinitionGroupV| spec_group_resp(g),
        );
        let mut definitions: Vec<DefinitionGroup> = Vec::new();
        let mut j: usize = 0;
        while j < self.definitions.len()
            invariant
                0 <= j <= self.definitions@.len(),
                self.definitions@.len() == dv.definitions.len(),
                dv == self.deep_view(),
                grp_spec == dv.definitions.map_values(
                    |g: OxDefinitionGroupV| spec_group_resp(g),
                ),
                definitions.deep_view() == grp_spec.take(j as int),
            decreases self.definitions@.len() - j,
        {
            proof {
                assert(dv.definitions[j as int] == self.definitions@[j as int].deep_view());
            }
            let w = group_resp(&self.definitions[j]);
            let ghost prev = definitions.deep_view();
            definitions.push(w);
            proof {
                assert(definitions.deep_view() =~= prev.push(w.deep_view()));
                assert(grp_spec.take(j + 1) =~= grp_spec.take(j as int).push(grp_spec[j as int]));
            }
            j = j + 1;
        }
        proof {
            assert(grp_spec.take(self.definitions@.len() as int) =~= grp_spec);
        }

        let ghost idm_spec = dv.idioms.map_values(|v: OxIdiomV| spec_idiom_resp(v));
        let mut idioms: Vec<Idiom> = Vec::new();
        let mut k: usize = 0;
        while k < self.idioms.len()
            invariant
                0 <= k <= self.idioms@.len(),
                self.idioms@.len() == dv.idioms.len(),
                dv == self.deep_view(),
                idm_spec == dv.idioms.map_values(|v: OxIdiomV| spec_idiom_resp(v)),
                idioms.deep_view() == idm_spec.take(k as int),
            decreases self.idioms@.len() - k,
        {
            proof {
                assert(dv.idioms[k as int] == self.idioms@[k as int].deep_view());
            }
            let w = idiom_resp(&self.idioms[k]);
            let ghost prev = idioms.deep_view();
            idioms.push(w);
            proof {
                assert(idioms.deep_view() =~= prev.push(w.deep_view()));
                assert(idm_spec.take(k + 1) =~= idm_spec.take(k as int).push(idm_spec[k as int]));
            }
            k = k + 1;
        }
        proof {
            assert(idm_spec.take(self.idioms@.len() as int) =~= idm_spec);
        }

        let id_str: String = match self.id {
            Some(i) => text::u64_string(i),
            None => {
                let e = String::new();
                e
            },
        };

        OxfordDefinition {
            id: id_str,
            header: self.header,
            oxford_ref: self.id_ref,
            inflections: self.inflections,
            note: self.note,
            word_variant: self.word_variant,
            word_origin: self.word_origin,
            similar_results,
            pronunciations: prons_resp(&self.pronunciations),
            definitions,
            see_also: word_refs_resp(&self.see_also),
            idioms,
            phrasal_verbs: word_refs_resp(&self.phrasal_verbs),
        }
    }
}

fn voc_sub_resp(s: &VocSubDefinition) -> (r: VocabularySubDefinition)
    ensures
        r.deep_view() == spec_voc_sub_resp(s.deep_view()),
{
    VocabularySubDefinition {
        description: s.description.clone(),
        short_examples: clone_strings(&s.short_examples),
        synonyms: clone_strings(&s.synonyms),
        word_variant: Some(WordVariant::from(&s.variant)),
    }
}

impl VocDefinitionDoc {
    /// The response definition this stored document answers with.
    pub fn into_response(self) -> (r: VocabularyDefinition)
        ensures
            r.deep_view() == spec_voc_response(self.deep_view()),
    {
        let ghost dv = self.deep_view();

        let ghost sub_spec = dv.definitions.map_values(
            |s: VocSubDefinitionV| spec_voc_sub_resp(s),
        );
        let mut definitions: Vec<VocabularySubDefinition> = Vec::new();
        let mut i: usize = 0;
        while i < self.definitions.len()
            invariant
                0 <= i <= self.definitions@.len(),
                self.definitions@.len() == dv.definitions.len(),
                dv == self.deep_view(),
                sub_spec == dv.definitions.map_values(
                    |s: VocSubDefinitionV| spec_voc_sub_resp(s),
                ),
                definitions.deep_view() == sub_spec.take(i as int),
            decreases self.definitions@.len() - i,
        {
            proof {
                assert(dv.definitions[i as int] == self.definitions@[i as int].deep_view());
            }
            let w = voc_sub_resp(&self.definitions[i]);
            let ghost prev = definitions.deep_view();
            definitions.push(w);
            proof {
                assert(definitions.deep_view() =~= prev.push(w.deep_view()));
                assert(sub_spec.take(i + 1) =~= sub_spec.take(i as int).push(sub_spec[i as int]));
            }
            i = i + 1;
        }
        proof {
            assert(sub_spec.take(self.definitions@.len() as int) =~= sub_spec);
        }

        let ghost ex_spec = dv.examples.map_values(|e: VocExampleV| spec_example_resp(e));
        let mut examples: Vec<VocabularyExample> = Vec::new();
        let mut j: usize = 0;
        while j < self.examples.len()
            invariant
                0 <= j <= self.examples@.len(),
                self.examples@.len() == dv.examples.len(),
                dv == self.deep_view(),
                ex_spec == dv.examples.map_values(|e: VocExampleV| spec_example_resp(e)),
                examples.deep_view() == ex_spec.take(j as int),
            decreases self.examples@.len() - j,
        {
            proof {
                assert(dv.examples[j as int] == self.examples@[j as int].deep_view());
            }
            let e = &self.examples[j];
            let w = VocabularyExample {
                sentence: e.sentence.clone(),
                author: e.author.clone(),
                source_title: e.source_title.clone(),
            };
            let ghost prev = examples.deep_view();
            examples.push(w);
            proof {
                assert(examples.deep_view() =~= prev.push(w.deep_view()));
                assert(ex_spec.take(j + 1) =~= ex_spec.take(j as int).push(ex_spec[j as int]));
            }
            j = j + 1;
        }
        proof {
            assert(ex_spec.take(self.examples@.len() as int) =~= ex_spec);
        }

        let id_str: String = match self.id {
            Some(i) => text::u64_string(i),
            None => {
                let e = String::new();
                e
            },
        };

        VocabularyDefinition {
            id: id_str,
            header: self.header,
            long_description: self.long_description,
            short_description: self.short_description,
            pronunciations: prons_resp(&self.pronunciations),
            definitions,
            examples,
            other_forms: self.other_forms,
        }
    }
}

/// Builds the combined answer out of whatever each source's lookup
/// found.
pub struct GetWordDefinitionsResponseBuilder {
    pub word: String,
    pub vocabulary: Option<VocDefinitionDoc>,
    pub oxford: Option<OxfordDefinitionDoc>,
}

impl GetWordDefinitionsResponseBuilder {
    /// A builder for the given word and source documents.
    pub fn new(word: &str, voc: Option<VocDefinitionDoc>, oxford: Option<OxfordDefinitionDoc>) -> (r:
        Self)
        ensures
            r.word@ == word@,
            r.vocabulary.deep_view() == voc.deep_view(),
            r.oxford.deep_view() == oxford.deep_view(),
    {
        GetWordDefinitionsResponseBuilder { word: word.to_owned(), vocabulary: voc, oxford }
    }

    /// The combined answer: the word, and each source's definition
    /// where one was found.
    pub fn build(self) -> (r: GetWordDefinitionsResponse)
        ensures
            r.deep_view() == spec_response(
                self.word@,
                self.vocabulary.deep_view(),
                self.oxford.deep_view(),
            ),
    {
        GetWordDefinitionsResponse {
            word: self.word,
            vocabulary_definition: match self.vocabulary {
                Some(d) => Some(d.into_response()),
                None => None,
            },
            oxford_definition: match self.oxford {
                Some(d) => Some(d.into_response()),
                None => None,
            },
        }
    }
}

} // verus!
