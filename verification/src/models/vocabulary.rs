//! The persisted document for the vocabulary source, and its parts.

use vstd::prelude::*;
use crate::cloning::clone_keeps_view;
use crate::cloning::clone_bytes;
use crate::cloning::clone_option;
use crate::cloning::clone_strings;
use crate::cloning::clone_vec;
use crate::models::shared::PronunciationDoc;
use crate::models::shared::PronunciationDocV;
use crate::models::shared::lemma_clone_pronunciation_doc;

verus! {

/// The word class of one sense. A raw token outside the four known
/// classes is preserved verbatim, never discarded.
#[derive(Debug, PartialEq, Eq)]
pub enum WordVariant {
    Noun,
    Verb,
    Adjective,
    Adverb,
    Other(String),
}

impl Default for WordVariant {
    fn default() -> (r: Self)
        ensures
            r == WordVariant::Noun,
    {
        WordVariant::Noun
    }
}

/// The mathematical shape of a [`WordVariant`].
pub enum WordVariantV {
    Noun,
    Verb,
    Adjective,
    Adverb,
    Other(Seq<char>),
}

impl DeepView for WordVariant {
    type V = WordVariantV;

    open spec fn deep_view(&self) -> WordVariantV {
        match self {
            WordVariant::Noun => WordVariantV::Noun,
            WordVariant::Verb => WordVariantV::Verb,
            WordVariant::Adjective => WordVariantV::Adjective,
            WordVariant::Adverb => WordVariantV::Adverb,
            WordVariant::Other(s) => WordVariantV::Other(s@),
        }
    }
}

/// A literary usage example from the auxiliary examples feed.
#[derive(Debug, PartialEq, Eq)]
pub struct Example {
    pub sentence: String,
    pub author: String,
    pub source_title: String,
}

/// The mathematical shape of an [`Example`].
pub struct ExampleV {
    pub sentence: Seq<char>,
    pub author: Seq<char>,
    pub source_title: Seq<char>,
}

impl DeepView for Example {
    type V = ExampleV;

    open spec fn deep_view(&self) -> ExampleV {
        ExampleV {
            sentence: self.sentence@,
            author: self.author@,
            source_title: self.source_title@,
        }
    }
}

/// An illustration attached to a sense.
#[derive(Debug, PartialEq, Eq)]
pub struct Image {
    pub bytes: Vec<u8>,
    pub format: String,
}

/// The mathematical shape of an [`Image`].
pub struct ImageV {
    pub bytes: Seq<u8>,
    pub format: Seq<char>,
}

impl DeepView for Image {
    type V = ImageV;

    open spec fn deep_view(&self) -> ImageV {
        ImageV { bytes: self.bytes@, format: self.format@ }
    }
}

/// One sense of the word: its class, description, short usage examples
/// and one-word synonyms.
#[derive(Debug, PartialEq, Eq)]
pub struct SubDefinition {
    pub variant: WordVariant,
    pub description: String,
    pub image: Option<Image>,
    pub short_examples: Vec<String>,
    pub synonyms: Vec<String>,
}

/// The mathematical shape of a [`SubDefinition`].
pub struct SubDefinitionV {
    pub variant: WordVariantV,
    pub description: Seq<char>,
    pub image: Option<ImageV>,
    pub short_examples: Seq<Seq<char>>,
    pub synonyms: Seq<Seq<char>>,
}

impl DeepView for SubDefinition {
    type V = SubDefinitionV;

    open spec fn deep_view(&self) -> SubDefinitionV {
        SubDefinitionV {
            variant: self.variant.deep_view(),
            description: self.description@,
            image: self.image.deep_view(),
            short_examples: self.short_examples.deep_view(),
            synonyms: self.synonyms.deep_view(),
        }
    }
}

/// The vocabulary source's persisted record: keyed by the source's own
/// reference, remembering the word it was searched under.
#[derive(Debug, PartialEq, Eq)]
pub struct DefinitionDoc {
    pub id: Option<u64>,
    pub voc_ref: String,
    pub searched_word: String,
    pub header: String,
    pub pronunciations: Vec<PronunciationDoc>,
    pub other_forms: Vec<String>,
    pub short_description: String,
    pub long_description: String,
    pub definitions: Vec<SubDefinition>,
    pub examples: Vec<Example>,
}

/// The mathematical shape of a [`DefinitionDoc`].
pub struct DefinitionDocV {
    pub id: Option<u64>,
    pub voc_ref: Seq<char>,
    pub searched_word: Seq<char>,
    pub header: Seq<char>,
    pub pronunciations: Seq<PronunciationDocV>,
    pub other_forms: Seq<Seq<char>>,
    pub short_description: Seq<char>,
    pub long_description: Seq<char>,
    pub definitions: Seq<SubDefinitionV>,
    pub examples: Seq<ExampleV>,
}

impl DeepView for DefinitionDoc {
    type V = DefinitionDocV;

    open spec fn deep_view(&self) -> DefinitionDocV {
        DefinitionDocV {
            id: self.id,
            voc_ref: self.voc_ref@,
            searched_word: self.searched_word@,
            header: self.header@,
            pronunciations: self.pronunciations.deep_view(),
            other_forms: self.other_forms.deep_view(),
            short_description: self.short_description@,
            long_description: self.long_description@,
            definitions: self.definitions.deep_view(),
            examples: self.examples.deep_view(),
        }
    }
}

impl Clone for WordVariant {
    /// A copy with the same view.
    fn clone(&self) -> (r: Self)
        ensures
            r.deep_view() == self.deep_view(),
    {
        match self {
            WordVariant::Noun => WordVariant::Noun,
            WordVariant::Verb => WordVariant::Verb,
            WordVariant::Adjective => WordVariant::Adjective,
            WordVariant::Adverb => WordVariant::Adverb,
            WordVariant::Other(s) => WordVariant::Other(s.clone()),
        }
    }
}

/// `WordVariant::clone` keeps the view.
pub proof fn lemma_clone_word_variant()
    ensures
        clone_keeps_view::<WordVariant>(),
{
    assert forall|x: WordVariant, y: WordVariant| call_ensures(WordVariant::clone, (&x,), y)
        implies y.deep_view() == x.deep_view() by {}
}

impl Clone for Example {
    /// A copy with the same view.
    fn clone(&self) -> (r: Self)
        ensures
            r.deep_view() == self.deep_view(),
    {
        Example {
            sentence: self.sentence.clone(),
            author: self.author.clone(),
            source_title: self.source_title.clone(),
        }
    }
}

/// `Example::clone` keeps the view.
pub proof fn lemma_clone_example()
    ensures
        clone_keeps_view::<Example>(),
{
    assert forall|x: Example, y: Example| call_ensures(Example::clone, (&x,), y)
        implies y.deep_view() == x.deep_view() by {}
}

impl Clone for Image {
    /// A copy with the same view.
    fn clone(&self) -> (r: Self)
        ensures
            r.deep_view() == self.deep_view(),
    {
        Image { bytes: clone_bytes(&self.bytes), format: self.format.clone() }
    }
}

/// `Image::clone` keeps the view.
pub proof fn lemma_clone_image()
    ensures
        clone_keeps_view::<Image>(),
{
    assert forall|x: Image, y: Image| call_ensures(Image::clone, (&x,), y)
        implies y.deep_view() == x.deep_view() by {}
}

impl Clone for SubDefinition {
    /// A copy with the same view.
    fn clone(&self) -> (r: Self)
        ensures
            r.deep_view() == self.deep_view(),
    {
        proof {
            lemma_clone_image();
        }
        SubDefinition {
            variant: self.variant.clone(),
            description: self.description.clone(),
            image: clone_option(&self.image),
            short_examples: clone_strings(&self.short_examples),
            synonyms: clone_strings(&self.synonyms),
        }
    }
}

/// `SubDefinition::clone` keeps the view.
pub proof fn lemma_clone_sub_definition()
    ensures
        clone_keeps_view::<SubDefinition>(),
{
    assert forall|x: SubDefinition, y: SubDefinition| call_ensures(SubDefinition::clone, (&x,), y)
        implies y.deep_view() == x.deep_view() by {}
}

impl Clone for DefinitionDoc {
    /// A copy with the same view.
    fn clone(&self) -> (r: Self)
        ensures
            r.deep_view() == self.deep_view(),
    {
        proof {
            lemma_clone_pronunciation_doc();
            lemma_clone_sub_definition();
            lemma_clone_example();
        }
        DefinitionDoc {
            id: self.id,
            voc_ref: self.voc_ref.clone(),
            searched_word: self.searched_word.clone(),
            header: self.header.clone(),
            pronunciations: clone_vec(&self.pronunciations),
            other_forms: clone_strings(&self.other_forms),
            short_description: self.short_description.clone(),
            long_description: self.long_description.clone(),
            definitions: clone_vec(&self.definitions),
            examples: clone_vec(&self.examples),
        }
    }
}

/// `DefinitionDoc::clone` keeps the view.
pub proof fn lemma_clone_definition_doc()
    ensures
        clone_keeps_view::<DefinitionDoc>(),
{
    assert forall|x: DefinitionDoc, y: DefinitionDoc| call_ensures(DefinitionDoc::clone, (&x,), y)
        implies y.deep_view() == x.deep_view() by {}
}

} // verus!
