//! The composite definition record tying a word to its per-source
//! sub-records.

use vstd::prelude::*;
use crate::cloning::clone_keeps_view;

verus! {

/// The composite record for one requested word: an optional reference
/// to each source's sub-record. A source that produced nothing leaves
/// its reference absent; the record itself still remembers the miss.
#[derive(Debug, PartialEq, Eq)]
pub struct DefinitionDoc {
    pub word: String,
    pub vocabulary_id: Option<u64>,
    pub oxford_id: Option<u64>,
}

/// The mathematical shape of a [`DefinitionDoc`].
pub struct DefinitionDocV {
    pub word: Seq<char>,
    pub vocabulary_id: Option<u64>,
    pub oxford_id: Option<u64>,
}

impl DeepView for DefinitionDoc {
    type V = DefinitionDocV;

    open spec fn deep_view(&self) -> DefinitionDocV {
        DefinitionDocV {
            word: self.word@,
            vocabulary_id: self.vocabulary_id,
            oxford_id: self.oxford_id,
        }
    }
}

impl Clone for DefinitionDoc {
    /// A copy with the same view.
    fn clone(&self) -> (r: Self)
        ensures
            r.deep_view() == self.deep_view(),
    {
        DefinitionDoc {
            word: self.word.clone(),
            vocabulary_id: self.vocabulary_id,
            oxford_id: self.oxford_id,
        }
    }
}

/// `DefinitionDoc::clone` keeps the view.
pub proof fn lemma_clone_definition_doc()
    ensures
        clone_keeps_view::<DefinitionDoc>(),
{
    assert forall|x: DefinitionDoc, y: DefinitionDoc| call_ensures(DefinitionDoc::clone, (&x,), y)
        implies y.deep_view() == x.deep_view() by {}
}

} // verus!
