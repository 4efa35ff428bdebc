//! The persisted document for the Oxford source, and its parts.

use vstd::prelude::*;
use crate::cloning::clone_keeps_view;
use crate::cloning::clone_option;
use crate::cloning::clone_strings;
use crate::cloning::clone_vec;
use crate::models::shared::Pronunciation;
use crate::models::shared::lemma_clone_pronunciation;
use crate::models::shared::lemma_clone_pronunciation_doc;
use crate::models::shared::PronunciationDoc;
use crate::models::shared::PronunciationDocV;
use crate::models::shared::PronunciationV;

verus! {

/// A lightweight cross-reference to another word's entry.
#[derive(Debug, PartialEq, Eq)]
pub struct WordRef {
    pub id_ref: String,
    pub word: String,
}

/// The mathematical shape of a [`WordRef`].
pub struct WordRefV {
    pub id_ref: Seq<char>,
    pub word: Seq<char>,
}

impl DeepView for WordRef {
    type V = WordRefV;

    open spec fn deep_view(&self) -> WordRefV {
        WordRefV { id_ref: self.id_ref@, word: self.word@ }
    }
}

/// A related entry offered beside the main result.
#[derive(Debug, PartialEq, Eq)]
pub struct SimilarResult {
    pub id: String,
    pub word: String,
    pub word_variant: Option<String>,
}

/// The mathematical shape of a [`SimilarResult`].
pub struct SimilarResultV {
    pub id: Seq<char>,
    pub word: Seq<char>,
    pub word_variant: Option<Seq<char>>,
}

impl DeepView for SimilarResult {
    type V = SimilarResultV;

    open spec fn deep_view(&self) -> SimilarResultV {
        SimilarResultV {
            id: self.id@,
            word: self.word@,
            word_variant: self.word_variant.deep_view(),
        }
    }
}

/// One sense: description, usage note, examples and cross-references.
#[derive(Debug, PartialEq, Eq)]
pub struct SubDefinition {
    pub description: String,
    pub use_note: String,
    pub examples: Vec<String>,
    pub see_also: Vec<WordRef>,
    pub synonyms: Vec<WordRef>,
    pub extra_examples: Vec<String>,
    pub extra_synonyms: Vec<String>,
}

/// The mathematical shape of a [`SubDefinition`].
pub struct SubDefinitionV {
    pub description: Seq<char>,
    pub use_note: Seq<char>,
    pub examples: Seq<Seq<char>>,
    pub see_also: Seq<WordRefV>,
    pub synonyms: Seq<WordRefV>,
    pub extra_examples: Seq<Seq<char>>,
    pub extra_synonyms: Seq<Seq<char>>,
}

impl DeepView for SubDefinition {
    type V = SubDefinitionV;

    open spec fn deep_view(&self) -> SubDefinitionV {
        SubDefinitionV {
            description: self.description@,
            use_note: self.use_note@,
            examples: self.examples.deep_view(),
            see_also: self.see_also.deep_view(),
            synonyms: self.synonyms.deep_view(),
            extra_examples: self.extra_examples.deep_view(),
            extra_synonyms: self.extra_synonyms.deep_view(),
        }
    }
}

/// An optionally titled, ordered group of senses.
#[derive(Debug, PartialEq, Eq)]
pub struct DefinitionGroup {
    pub group_title: Option<String>,
    pub definitions: Vec<SubDefinition>,
}

/// The mathematical shape of a [`DefinitionGroup`].
pub struct DefinitionGroupV {
    pub group_title: Option<Seq<char>>,
    pub definitions: Seq<SubDefinitionV>,
}

impl DeepView for DefinitionGroup {
    type V = DefinitionGroupV;

    open spec fn deep_view(&self) -> DefinitionGroupV {
        DefinitionGroupV {
            group_title: self.group_title.deep_view(),
            definitions: self.definitions.deep_view(),
        }
    }
}

/// An idiom entry: the phrase, its description, register notes,
/// synonyms and usage examples.
#[derive(Debug, PartialEq, Eq)]
pub struct Idiom {
    pub idiom: String,
    pub description: String,
    pub notes: Vec<String>,
    pub synonyms: Vec<WordRef>,
    pub examples: Vec<String>,
}

/// The mathematical shape of an [`Idiom`].
pub struct IdiomV {
    pub idiom: Seq<char>,
    pub description: Seq<char>,
    pub notes: Seq<Seq<char>>,
    pub synonyms: Seq<WordRefV>,
    pub examples: Seq<Seq<char>>,
}

impl DeepView for Idiom {
    type V = IdiomV;

    open spec fn deep_view(&self) -> IdiomV {
        IdiomV {
            idiom: self.idiom@,
            description: self.description@,
            notes: self.notes.deep_view(),
            synonyms: self.synonyms.deep_view(),
            examples: self.examples.deep_view(),
        }
    }
}

/// A verb form with its own pronunciations.
#[derive(Debug, PartialEq, Eq)]
pub struct VebForm {
    pub note: String,
    pub word: String,
    pub pronunciations: Vec<Pronunciation>,
}

/// The mathematical shape of a [`VebForm`].
pub struct VebFormV {
    pub note: Seq<char>,
    pub word: Seq<char>,
    pub pronunciations: Seq<PronunciationV>,
}

impl DeepView for VebForm {
    type V = VebFormV;

    open spec fn deep_view(&self) -> VebFormV {
        VebFormV {
            note: self.note@,
            word: self.word@,
            pronunciations: self.pronunciations.deep_view(),
        }
    }
}

/// The Oxford source's persisted record: keyed by the source's own
/// entry id, remembering the word it was searched under.
#[derive(Debug, PartialEq, Eq)]
pub struct DefinitionDoc {
    pub id: Option<u64>,
    pub id_ref: String,
    pub searched_word: String,
    pub header: String,
    pub inflections: String,
    pub note: String,
    pub grammar_hint: String,
    pub word_variant: String,
    pub similar_results: Vec<SimilarResult>,
    pub pronunciations: Vec<PronunciationDoc>,
    pub definitions: Vec<DefinitionGroup>,
    pub see_also: Vec<WordRef>,
    pub word_origin: String,
    pub idioms: Vec<Idiom>,
    pub phrasal_verbs: Vec<WordRef>,
    pub veb_forms: Vec<VebForm>,
}

/// The mathematical shape of a [`DefinitionDoc`].
pub struct DefinitionDocV {
    pub id: Option<u64>,
    pub id_ref: Seq<char>,
    pub searched_word: Seq<char>,
    pub header: Seq<char>,
    pub inflections: Seq<char>,
    pub note: Seq<char>,
    pub grammar_hint: Seq<char>,
    pub word_variant: Seq<char>,
    pub similar_results: Seq<SimilarResultV>,
    pub pronunciations: Seq<PronunciationDocV>,
    pub definitions: Seq<DefinitionGroupV>,
    pub see_also: Seq<WordRefV>,
    pub word_origin: Seq<char>,
    pub idioms: Seq<IdiomV>,
    pub phrasal_verbs: Seq<WordRefV>,
    pub veb_forms: Seq<VebFormV>,
}

impl DeepView for DefinitionDoc {
    type V = DefinitionDocV;

    open spec fn deep_view(&self) -> DefinitionDocV {
        DefinitionDocV {
            id: self.id,
            id_ref: self.id_ref@,
            searched_word: self.searched_word@,
            header: self.header@,
            inflections: self.inflections@,
            note: self.note@,
            grammar_hint: self.grammar_hint@,
            word_variant: self.word_variant@,
            similar_results: self.similar_results.deep_view(),
            pronunciations: self.pronunciations.deep_view(),
            definitions: self.definitions.deep_view(),
            see_also: self.see_also.deep_view(),
            word_origin: self.word_origin@,
            idioms: self.idioms.deep_view(),
            phrasal_verbs: self.phrasal_verbs.deep_view(),
            veb_forms: self.veb_forms.deep_view(),
        }
    }
}

impl Clone for WordRef {
    /// A copy with the same view.
    fn clone(&self) -> (r: Self)
        ensures
            r.deep_view() == self.deep_view(),
    {
        WordRef { id_ref: self.id_ref.clone(), word: self.word.clone() }
    }
}

/// `WordRef::clone` keeps the view.
pub proof fn lemma_clone_word_ref()
    ensures
        clone_keeps_view::<WordRef>(),
{
    assert forall|x: WordRef, y: WordRef| call_ensures(WordRef::clone, (&x,), y)
        implies y.deep_view() == x.deep_view() by {}
}

impl Clone for SimilarResult {
    /// A copy with the same view.
    fn clone(&self) -> (r: Self)
        ensures
            r.deep_view() == self.deep_view(),
    {
        proof {
            crate::cloning::lemma_clone_string();
        }
        SimilarResult {
            id: self.id.clone(),
            word: self.word.clone(),
            word_variant: clone_option(&self.word_variant),
        }
    }
}

/// `SimilarResult::clone` keeps the view.
pub proof fn lemma_clone_similar_result()
    ensures
        clone_keeps_view::<SimilarResult>(),
{
    assert forall|x: SimilarResult, y: SimilarResult| call_ensures(SimilarResult::clone, (&x,), y)
        implies y.deep_view() == x.deep_view() by {}
}

impl Clone for SubDefinition {
    /// A copy with the same view.
    fn clone(&self) -> (r: Self)
        ensures
            r.deep_view() == self.deep_view(),
    {
        proof {
            lemma_clone_word_ref();
        }
        SubDefinition {
            description: self.description.clone(),
            use_note: self.use_note.clone(),
            examples: clone_strings(&self.examples),
            see_also: clone_vec(&self.see_also),
            synonyms: clone_vec(&self.synonyms),
            extra_examples: clone_strings(&self.extra_examples),
            extra_synonyms: clone_strings(&self.extra_synonyms),
        }
    }
}

/// `SubDefinition::clone` keeps the view.
pub proof fn lemma_clone_sub_definition()
    ensures
        clone_keeps_view::<SubDefinition>(),
{
    assert forall|x: SubDefinition, y: SubDefinition| call_ensures(SubDefinition::clone, (&x,), y)
        implies y.deep_view() == x.deep_view() by {}
}

impl Clone for DefinitionGroup {
    /// A copy with the same view.
    fn clone(&self) -> (r: Self)
        ensures
            r.deep_view() == self.deep_view(),
    {
        proof {
            crate::cloning::lemma_clone_string();
            lemma_clone_sub_definition();
        }
        DefinitionGroup {
            group_title: clone_option(&self.group_title),
            definitions: clone_vec(&self.definitions),
        }
    }
}

/// `DefinitionGroup::clone` keeps the view.
pub proof fn lemma_clone_definition_group()
    ensures
        clone_keeps_view::<DefinitionGroup>(),
{
    assert forall|x: DefinitionGroup, y: DefinitionGroup| call_ensures(
        DefinitionGroup::clone,
        (&x,),
        y,
    ) implies y.deep_view() == x.deep_view() by {}
}

impl Clone for Idiom {
    /// A copy with the same view.
    fn clone(&self) -> (r: Self)
        ensures
            r.deep_view() == self.deep_view(),
    {
        proof {
            lemma_clone_word_ref();
        }
        Idiom {
            idiom: self.idiom.clone(),
            description: self.description.clone(),
            notes: clone_strings(&self.notes),
            synonyms: clone_vec(&self.synonyms),
            examples: clone_strings(&self.examples),
        }
    }
}

/// `Idiom::clone` keeps the view.
pub proof fn lemma_clone_idiom()
    ensures
        clone_keeps_view::<Idiom>(),
{
    assert forall|x: Idiom, y: Idiom| call_ensures(Idiom::clone, (&x,), y)
        implies y.deep_view() == x.deep_view() by {}
}

impl Clone for VebForm {
    /// A copy with the same view.
    fn clone(&self) -> (r: Self)
        ensures
            r.deep_view() == self.deep_view(),
    {
        proof {
            lemma_clone_pronunciation();
        }
        VebForm {
            note: self.note.clone(),
            word: self.word.clone(),
            pronunciations: clone_vec(&self.pronunciations),
        }
    }
}

/// `VebForm::clone` keeps the view.
pub proof fn lemma_clone_veb_form()
    ensures
        clone_keeps_view::<VebForm>(),
{
    assert forall|x: VebForm, y: VebForm| call_ensures(VebForm::clone, (&x,), y)
        implies y.deep_view() == x.deep_view() by {}
}

impl Clone for DefinitionDoc {
    /// A copy with the same view.
    fn clone(&self) -> (r: Self)
        ensures
            r.deep_view() == self.deep_view(),
    {
        proof {
            lemma_clone_similar_result();
            lemma_clone_pronunciation_doc();
            lemma_clone_definition_group();
            lemma_clone_word_ref();
            lemma_clone_idiom();
            lemma_clone_veb_form();
        }
        DefinitionDoc {
            id: self.id,
            id_ref: self.id_ref.clone(),
            searched_word: self.searched_word.clone(),
            header: self.header.clone(),
            inflections: self.inflections.clone(),
            note: self.note.clone(),
            grammar_hint: self.grammar_hint.clone(),
            word_variant: self.word_variant.clone(),
            similar_results: clone_vec(&self.similar_results),
            pronunciations: clone_vec(&self.pronunciations),
            definitions: clone_vec(&self.definitions),
            see_also: clone_vec(&self.see_also),
            word_origin: self.word_origin.clone(),
            idioms: clone_vec(&self.idioms),
            phrasal_verbs: clone_vec(&self.phrasal_verbs),
            veb_forms: clone_vec(&self.veb_forms),
        }
    }
}

/// `DefinitionDoc::clone` keeps the view.
pub proof fn lemma_clone_definition_doc()
    ensures
        clone_keeps_view::<DefinitionDoc>(),
{
    assert forall|x: DefinitionDoc, y: DefinitionDoc| call_ensures(DefinitionDoc::clone, (&x,), y)
        implies y.deep_view() == x.deep_view() by {}
}

} // verus!
