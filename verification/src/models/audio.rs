//! The persisted audio blob.

use vstd::prelude::*;
use crate::cloning::clone_bytes;
use crate::cloning::clone_keeps_view;

verus! {

/// An audio blob as persisted: its storage id, the word it was fetched
/// for (kept for diagnostics only), its content type and raw bytes.
#[derive(Debug, PartialEq, Eq)]
pub struct AudioDoc {
    pub id: Option<u64>,
    pub word: String,
    pub content_type: String,
    pub bytes: Vec<u8>,
}

/// The mathematical shape of an [`AudioDoc`].
pub struct AudioDocV {
    pub id: Option<u64>,
    pub word: Seq<char>,
    pub content_type: Seq<char>,
    pub bytes: Seq<u8>,
}

impl DeepView for AudioDoc {
    type V = AudioDocV;

    open spec fn deep_view(&self) -> AudioDocV {
        AudioDocV {
            id: self.id,
            word: self.word@,
            content_type: self.content_type@,
            bytes: self.bytes@,
        }
    }
}

impl Clone for AudioDoc {
    /// A copy with the same view.
    fn clone(&self) -> (r: Self)
        ensures
            r.deep_view() == self.deep_view(),
    {
        AudioDoc {
            id: self.id,
            word: self.word.clone(),
            content_type: self.content_type.clone(),
            bytes: clone_bytes(&self.bytes),
        }
    }
}

/// `AudioDoc::clone` keeps the view.
pub proof fn lemma_clone_audio_doc()
    ensures
        clone_keeps_view::<AudioDoc>(),
{
    assert forall|x: AudioDoc, y: AudioDoc| call_ensures(AudioDoc::clone, (&x,), y)
        implies y.deep_view() == x.deep_view() by {}
}

} // verus!
