//! Shapes shared by both dictionary sources: pronunciations before and
//! after their audio is stored, and raw audio payloads.

use vstd::prelude::*;
use crate::cloning::clone_keeps_view;
use crate::cloning::clone_bytes;
use crate::cloning::clone_option;

verus! {

/// Which regional pronunciation a phonetic entry describes.
#[derive(Debug, Clone, Copy, PartialEq, Eq)]
pub enum PronunciationVariant {
    Uk,
    Usa,
    Other,
}

impl Default for PronunciationVariant {
    fn default() -> (r: Self)
        ensures
            r == PronunciationVariant::Uk,
    {
        PronunciationVariant::Uk
    }
}

/// A fetched audio payload: its content type and raw bytes.
#[derive(Debug, PartialEq, Eq)]
pub struct Audio {
    pub content_type: String,
    pub bytes: Vec<u8>,
}

/// The mathematical shape of an [`Audio`].
pub struct AudioV {
    pub content_type: Seq<char>,
    pub bytes: Seq<u8>,
}

impl DeepView for Audio {
    type V = AudioV;

    open spec fn deep_view(&self) -> AudioV {
        AudioV { content_type: self.content_type@, bytes: self.bytes@ }
    }
}

/// A pronunciation whose audio, if any, has been fetched but not yet
/// stored: it still carries the raw payload.
#[derive(Debug, PartialEq, Eq)]
pub struct Pronunciation {
    pub variant: PronunciationVariant,
    pub ipa_str: String,
    pub audio: Option<Audio>,
}

/// The mathematical shape of a [`Pronunciation`].
pub struct PronunciationV {
    pub variant: PronunciationVariant,
    pub ipa_str: Seq<char>,
    pub audio: Option<AudioV>,
}

impl DeepView for Pronunciation {
    type V = PronunciationV;

    open spec fn deep_view(&self) -> PronunciationV {
        PronunciationV {
            variant: self.variant,
            ipa_str: self.ipa_str@,
            audio: self.audio.deep_view(),
        }
    }
}

/// A pronunciation as persisted: the audio payload has been replaced by
/// the storage id it was saved under, if it was saved.
#[derive(Debug, PartialEq, Eq)]
pub struct PronunciationDoc {
    pub variant: PronunciationVariant,
    pub ipa_str: String,
    pub audio_id: Option<u64>,
}

/// The mathematical shape of a [`PronunciationDoc`].
pub struct PronunciationDocV {
    pub variant: PronunciationVariant,
    pub ipa_str: Seq<char>,
    pub audio_id: Option<u64>,
}

impl DeepView for PronunciationDoc {
    type V = PronunciationDocV;

    open spec fn deep_view(&self) -> PronunciationDocV {
        PronunciationDocV {
            variant: self.variant,
            ipa_str: self.ipa_str@,
            audio_id: self.audio_id,
        }
    }
}

impl Clone for Audio {
    /// A copy with the same view.
    fn clone(&self) -> (r: Self)
        ensures
            r.deep_view() == self.deep_view(),
    {
        Audio { content_type: self.content_type.clone(), bytes: clone_bytes(&self.bytes) }
    }
}

/// `Audio::clone` keeps the view.
pub proof fn lemma_clone_audio()
    ensures
        clone_keeps_view::<Audio>(),
{
    assert forall|x: Audio, y: Audio| call_ensures(Audio::clone, (&x,), y) implies y.deep_view()
        == x.deep_view() by {}
}

impl Clone for Pronunciation {
    /// A copy with the same view.
    fn clone(&self) -> (r: Self)
        ensures
            r.deep_view() == self.deep_view(),
    {
        proof {
            lemma_clone_audio();
        }
        Pronunciation {
            variant: self.variant,
            ipa_str: self.ipa_str.clone(),
            audio: clone_option(&self.audio),
        }
    }
}

/// `Pronunciation::clone` keeps the view.
pub proof fn lemma_clone_pronunciation()
    ensures
        clone_keeps_view::<Pronunciation>(),
{
    assert forall|x: Pronunciation, y: Pronunciation| call_ensures(
        Pronunciation::clone,
        (&x,),
        y,
    ) implies y.deep_view() == x.deep_view() by {}
}

impl Clone for PronunciationDoc {
    /// A copy with the same view.
    fn clone(&self) -> (r: Self)
        ensures
            r.deep_view() == self.deep_view(),
    {
        PronunciationDoc {
            variant: self.variant,
            ipa_str: self.ipa_str.clone(),
            audio_id: self.audio_id,
        }
    }
}

/// `PronunciationDoc::clone` keeps the view.
pub proof fn lemma_clone_pronunciation_doc()
    ensures
        clone_keeps_view::<PronunciationDoc>(),
{
    assert forall|x: PronunciationDoc, y: PronunciationDoc| call_ensures(
        PronunciationDoc::clone,
        (&x,),
        y,
    ) implies y.deep_view() == x.deep_view() by {}
}

} // verus!
