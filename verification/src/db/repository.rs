//! The natural-key document store behind the orchestration: idempotent
//! upsert, natural-key lookup, identifier-only lookup, deletion of the
//! composite record, and blob lookup by id.
//!
//! Every operation's effect is stated exactly over the store's view, so
//! the cache-or-fetch laws are proved against these contracts.

use vstd::prelude::*;
use crate::db::database::DbErr;
use crate::models::audio::AudioDoc;
use crate::models::audio::AudioDocV;
use crate::models::definition::DefinitionDoc;
use crate::models::definition::DefinitionDocV;
use crate::models::oxford::DefinitionDoc as OxDefinitionDoc;
use crate::models::oxford::DefinitionDocV as OxDefinitionDocV;
use crate::models::vocabulary::DefinitionDoc as VocDefinitionDoc;
use crate::models::vocabulary::DefinitionDocV as VocDefinitionDocV;
use crate::models::shared::Pronunciation;
use crate::models::shared::PronunciationV;
use crate::models::shared::PronunciationDoc;
use crate::models::shared::PronunciationDocV;
use crate::text;

verus! {

/// The index of the first element satisfying `p`, or a negative value
/// when none does.
pub open spec fn first_match_index<T>(s: Seq<T>, p: spec_fn(T) -> bool) -> int
    decreases s.len(),
{
    if s.len() == 0 {
        -1
    } else if p(s.first()) {
        0
    } else {
        let r = first_match_index(s.drop_first(), p);
        if r < 0 {
            -1
        } else {
            r + 1
        }
    }
}

/// A first match at `i`, with no match before it, is the first match.
pub proof fn lemma_first_match_at<T>(s: Seq<T>, p: spec_fn(T) -> bool, i: int)
    requires
        0 <= i < s.len(),
        p(s[i]),
        forall|j: int| 0 <= j < i ==> !p(#[trigger] s[j]),
    ensures
        first_match_index(s, p) == i,
    decreases i,
{
    if i == 0 {
    } else {
        assert(!p(s.first()));
        assert(forall|j: int| 0 <= j < i - 1 ==> s.drop_first()[j] == #[trigger] s[j + 1]);
        lemma_first_match_at(s.drop_first(), p, i - 1);
    }
}

/// With no match anywhere, there is no first match.
pub proof fn lemma_first_match_none<T>(s: Seq<T>, p: spec_fn(T) -> bool)
    requires
        forall|j: int| 0 <= j < s.len() ==> !p(#[trigger] s[j]),
    ensures
        first_match_index(s, p) == -1,
    decreases s.len(),
{
    if s.len() > 0 {
        assert(forall|j: int| 0 <= j < s.len() - 1 ==> s.drop_first()[j] == #[trigger] s[j + 1]);
        lemma_first_match_none(s.drop_first(), p);
    }
}

/// What a non-negative first match means: in bounds, matching, and
/// preceded by no match.
pub proof fn lemma_first_match_found<T>(s: Seq<T>, p: spec_fn(T) -> bool)
    requires
        first_match_index(s, p) >= 0,
    ensures
        first_match_index(s, p) < s.len(),
        p(s[first_match_index(s, p)]),
        forall|j: int| 0 <= j < first_match_index(s, p) ==> !p(#[trigger] s[j]),
    decreases s.len(),
{
    if s.len() > 0 && !p(s.first()) {
        lemma_first_match_found(s.drop_first(), p);
        assert(forall|j: int| 0 <= j < s.len() - 1 ==> s.drop_first()[j] == #[trigger] s[j + 1]);
        let idx = first_match_index(s, p);
        assert(idx == first_match_index(s.drop_first(), p) + 1);
        assert forall|j: int| 0 <= j < idx implies !p(s[j]) by {
            if j == 0 {
            } else {
                assert(s.drop_first()[j - 1] == s[j]);
            }
        }
    }
}

/// With no first match, there is no match anywhere.
pub proof fn lemma_first_match_missing<T>(s: Seq<T>, p: spec_fn(T) -> bool)
    requires
        first_match_index(s, p) < 0,
    ensures
        forall|j: int| 0 <= j < s.len() ==> !p(#[trigger] s[j]),
    decreases s.len(),
{
    if s.len() > 0 {
        assert(!p(s.first()));
        lemma_first_match_missing(s.drop_first(), p);
        assert forall|j: int| 0 <= j < s.len() implies !p(#[trigger] s[j]) by {
            if j > 0 {
                assert(s.drop_first()[j - 1] == s[j]);
            }
        }
    }
}

/// The store's view: each collection's documents in insertion order,
/// and the next storage id to hand out.
pub struct RepoV {
    pub definitions: Seq<DefinitionDocV>,
    pub voc_definitions: Seq<VocDefinitionDocV>,
    pub ox_definitions: Seq<OxDefinitionDocV>,
    pub audio: Seq<AudioDocV>,
    pub next_id: u64,
}

/// The document store: one vector per collection, plus the id counter.
/// Natural keys are unique by invariant, and upsert is the only write
/// path for documents.
#[derive(Debug)]
pub struct Repository {
    pub definitions: Vec<DefinitionDoc>,
    pub voc_definitions: Vec<VocDefinitionDoc>,
    pub ox_definitions: Vec<OxDefinitionDoc>,
    pub audio: Vec<AudioDoc>,
    pub next_id: u64,
}

impl View for Repository {
    type V = RepoV;

    open spec fn view(&self) -> RepoV {
        RepoV {
            definitions: self.definitions.deep_view(),
            voc_definitions: self.voc_definitions.deep_view(),
            ox_definitions: self.ox_definitions.deep_view(),
            audio: self.audio.deep_view(),
            next_id: self.next_id,
        }
    }
}

/// The predicate picking composite records for a word.
pub open spec fn def_word_pred(word: Seq<char>) -> spec_fn(DefinitionDocV) -> bool {
    |d: DefinitionDocV| d.word == word
}

/// The predicate picking vocabulary records searched under a word.
pub open spec fn voc_word_pred(word: Seq<char>) -> spec_fn(VocDefinitionDocV) -> bool {
    |d: VocDefinitionDocV| d.searched_word == word
}

/// The predicate picking Oxford records searched under a word.
pub open spec fn ox_word_pred(word: Seq<char>) -> spec_fn(OxDefinitionDocV) -> bool {
    |d: OxDefinitionDocV| d.searched_word == word
}

/// The predicate picking vocabulary records by their own reference.
pub open spec fn voc_ref_pred(id_ref: Seq<char>) -> spec_fn(VocDefinitionDocV) -> bool {
    |d: VocDefinitionDocV| d.voc_ref == id_ref
}

/// The predicate picking Oxford records by their own entry id.
pub open spec fn ox_ref_pred(id_ref: Seq<char>) -> spec_fn(OxDefinitionDocV) -> bool {
    |d: OxDefinitionDocV| d.id_ref == id_ref
}

/// The predicate picking audio blobs by storage id.
pub open spec fn audio_id_pred(id: u64) -> spec_fn(AudioDocV) -> bool {
    |d: AudioDocV| d.id == Some(id)
}

/// The first composite record for the word, if one is stored.
pub open spec fn spec_find_def(defs: Seq<DefinitionDocV>, word: Seq<char>) -> Option<
    DefinitionDocV,
> {
    let i = first_match_index(defs, def_word_pred(word));
    if i < 0 {
        None
    } else {
        Some(defs[i])
    }
}

/// The first vocabulary record searched under the word, if any.
pub open spec fn spec_find_voc_by_word(vocs: Seq<VocDefinitionDocV>, word: Seq<char>) -> Option<
    VocDefinitionDocV,
> {
    let i = first_match_index(vocs, voc_word_pred(word));
    if i < 0 {
        None
    } else {
        Some(vocs[i])
    }
}

/// The first Oxford record searched under the word, if any.
pub open spec fn spec_find_ox_by_word(oxs: Seq<OxDefinitionDocV>, word: Seq<char>) -> Option<
    OxDefinitionDocV,
> {
    let i = first_match_index(oxs, ox_word_pred(word));
    if i < 0 {
        None
    } else {
        Some(oxs[i])
    }
}

/// The storage id of the vocabulary record searched under the word.
pub open spec fn spec_voc_id_by_word(vocs: Seq<VocDefinitionDocV>, word: Seq<char>) -> Option<
    u64,
> {
    match spec_find_voc_by_word(vocs, word) {
        Some(d) => d.id,
        None => None,
    }
}

/// The storage id of the Oxford record searched under the word.
pub open spec fn spec_ox_id_by_word(oxs: Seq<OxDefinitionDocV>, word: Seq<char>) -> Option<u64> {
    match spec_find_ox_by_word(oxs, word) {
        Some(d) => d.id,
        None => None,
    }
}

/// The first stored audio blob with the storage id, if any.
pub open spec fn spec_find_audio(auds: Seq<AudioDocV>, id: u64) -> Option<AudioDocV> {
    let i = first_match_index(auds, audio_id_pred(id));
    if i < 0 {
        None
    } else {
        Some(auds[i])
    }
}

/// Whether some vocabulary record carries the storage id.
pub open spec fn spec_voc_id_exists(vocs: Seq<VocDefinitionDocV>, id: u64) -> bool {
    exists|k: int| 0 <= k < vocs.len() && #[trigger] vocs[k].id == Some(id)
}

/// Whether some Oxford record carries the storage id.
pub open spec fn spec_ox_id_exists(oxs: Seq<OxDefinitionDocV>, id: u64) -> bool {
    exists|k: int| 0 <= k < oxs.len() && #[trigger] oxs[k].id == Some(id)
}

/// The composite collection without its first record for the word.
pub open spec fn spec_remove_def(defs: Seq<DefinitionDocV>, word: Seq<char>) -> Seq<
    DefinitionDocV,
> {
    let i = first_match_index(defs, def_word_pred(word));
    if i < 0 {
        defs
    } else {
        defs.remove(i)
    }
}

/// The composite collection with the record for its word replaced in
/// place, or appended when the word was absent.
pub open spec fn spec_upsert_def(defs: Seq<DefinitionDocV>, d: DefinitionDocV) -> Seq<
    DefinitionDocV,
> {
    let i = first_match_index(defs, def_word_pred(d.word));
    if i < 0 {
        defs.push(d)
    } else {
        defs.update(i, d)
    }
}

/// Whether a composite record's references resolve in the given
/// collections.
pub open spec fn spec_def_refs_ok(
    d: DefinitionDocV,
    vocs: Seq<VocDefinitionDocV>,
    oxs: Seq<OxDefinitionDocV>,
) -> bool {
    &&& (match d.vocabulary_id {
        Some(v) => spec_voc_id_exists(vocs, v),
        None => true,
    })
    &&& (match d.oxford_id {
        Some(v) => spec_ox_id_exists(oxs, v),
        None => true,
    })
}

/// The store's well-formedness: unique natural keys, ids below the
/// counter, and composite references that resolve to stored records.
pub open spec fn spec_repo_wf(r: RepoV) -> bool {
    &&& forall|i: int, j: int|
        #![trigger r.definitions[i], r.definitions[j]]
        0 <= i < j < r.definitions.len() ==> r.definitions[i].word != r.definitions[j].word
    &&& forall|i: int, j: int|
        #![trigger r.voc_definitions[i], r.voc_definitions[j]]
        0 <= i < j < r.voc_definitions.len() ==> r.voc_definitions[i].voc_ref
            != r.voc_definitions[j].voc_ref
    &&& forall|i: int, j: int|
        #![trigger r.ox_definitions[i], r.ox_definitions[j]]
        0 <= i < j < r.ox_definitions.len() ==> r.ox_definitions[i].id_ref
            != r.ox_definitions[j].id_ref
    &&& forall|i: int|
        0 <= i < r.voc_definitions.len() ==> (match #[trigger] r.voc_definitions[i].id {
            Some(v) => v < r.next_id,
            None => true,
        })
    &&& forall|i: int|
        0 <= i < r.ox_definitions.len() ==> (match #[trigger] r.ox_definitions[i].id {
            Some(v) => v < r.next_id,
            None => true,
        })
    &&& forall|i: int|
        0 <= i < r.audio.len() ==> (#[trigger] r.audio[i].id) is Some && r.audio[i].id->0
            < r.next_id
    &&& forall|i: int|
        0 <= i < r.definitions.len() ==> spec_def_refs_ok(
            #[trigger] r.definitions[i],
            r.voc_definitions,
            r.ox_definitions,
        )
}

impl Repository {
    /// The store's well-formedness invariant.
    pub open spec fn wf(&self) -> bool {
        spec_repo_wf(self@)
    }

    /// An empty store.
    pub fn new() -> (r: Self)
        ensures
            r@.definitions.len() == 0,
            r@.voc_definitions.len() == 0,
            r@.ox_definitions.len() == 0,
            r@.audio.len() == 0,
            r@.next_id == 0,
            r.wf(),
    {
        Repository {
            definitions: Vec::new(),
            voc_definitions: Vec::new(),
            ox_definitions: Vec::new(),
            audio: Vec::new(),
            next_id: 0,
        }
    }

    fn find_def_index(&self, word: &str) -> (r: Option<usize>)
        ensures
            (match r {
                Some(i) => i < self@.definitions.len() && first_match_index(
                    self@.definitions,
                    def_word_pred(word@),
                ) == i as int,
                None => first_match_index(self@.definitions, def_word_pred(word@)) == -1,
            }),
    {
        let ghost p = def_word_pred(word@);
        let mut i: usize = 0;
        while i < self.definitions.len()
            invariant
                0 <= i <= self.definitions@.len(),
                self@.definitions.len() == self.definitions@.len(),
                p == def_word_pred(word@),
                forall|j: int| 0 <= j < i ==> !p(#[trigger] self@.definitions[j]),
            decreases self.definitions@.len() - i,
        {
            proof {
                assert(self@.definitions[i as int] == self.definitions@[i as int].deep_view());
            }
            if text::str_eq(self.definitions[i].word.as_str(), word) {
                proof {
                    lemma_first_match_at(self@.definitions, p, i as int);
                }
                return Some(i);
            }
            i = i + 1;
        }
        proof {
            lemma_first_match_none(self@.definitions, p);
        }
        None
    }

    /// The stored composite record for the word; reading cannot fail.
    pub fn get_definition(&self, word: &str) -> (r: Result<Option<DefinitionDoc>, DbErr>)
        ensures
            (r matches Ok(d) && d.deep_view() == spec_find_def(self@.definitions, word@)),
    {
        match self.find_def_index(word) {
            Some(i) => Ok(Some(self.definitions[i].clone())),
            None => Ok(None),
        }
    }

    fn find_voc_word_index(&self, word: &str) -> (r: Option<usize>)
        ensures
            (match r {
                Some(i) => i < self@.voc_definitions.len() && first_match_index(
                    self@.voc_definitions,
                    voc_word_pred(word@),
                ) == i as int,
                None => first_match_index(self@.voc_definitions, voc_word_pred(word@)) == -1,
            }),
    {
        let ghost p = voc_word_pred(word@);
        let mut i: usize = 0;
        while i < self.voc_definitions.len()
            invariant
                0 <= i <= self.voc_definitions@.len(),
                self@.voc_definitions.len() == self.voc_definitions@.len(),
                p == voc_word_pred(word@),
                forall|j: int| 0 <= j < i ==> !p(#[trigger] self@.voc_definitions[j]),
            decreases self.voc_definitions@.len() - i,
        {
            proof {
                assert(self@.voc_definitions[i as int] == self.voc_definitions@[
                    i as int].deep_view());
            }
            if text::str_eq(self.voc_definitions[i].searched_word.as_str(), word) {
                proof {
                    lemma_first_match_at(self@.voc_definitions, p, i as int);
                }
                return Some(i);
            }
            i = i + 1;
        }
        proof {
            lemma_first_match_none(self@.voc_definitions, p);
        }
        None
    }

    fn find_ox_word_index(&self, word: &str) -> (r: Option<usize>)
        ensures
            (match r {
                Some(i) => i < self@.ox_definitions.len() && first_match_index(
                    self@.ox_definitions,
                    ox_word_pred(word@),
                ) == i as int,
                None => first_match_index(self@.ox_definitions, ox_word_pred(word@)) == -1,
            }),
    {
        let ghost p = ox_word_pred(word@);
        let mut i: usize = 0;
        while i < self.ox_definitions.len()
            invariant
                0 <= i <= self.ox_definitions@.len(),
                self@.ox_definitions.len() == self.ox_definitions@.len(),
                p == ox_word_pred(word@),
                forall|j: int| 0 <= j < i ==> !p(#[trigger] self@.ox_definitions[j]),
            decreases self.ox_definitions@.len() - i,
        {
            proof {
                assert(self@.ox_definitions[i as int] == self.ox_definitions@[
                    i as int].deep_view());
            }
            if text::str_eq(self.ox_definitions[i].searched_word.as_str(), word) {
                proof {
                    lemma_first_match_at(self@.ox_definitions, p, i as int);
                }
                return Some(i);
            }
            i = i + 1;
        }
        proof {
            lemma_first_match_none(self@.ox_definitions, p);
        }
        None
    }

    /// The stored vocabulary record searched under the word, if any.
    pub fn get_voc_definition(&self, word: &str) -> (r: Option<VocDefinitionDoc>)
        ensures
            r.deep_view() == spec_find_voc_by_word(self@.voc_definitions, word@),
    {
        match self.find_voc_word_index(word) {
            Some(i) => Some(self.voc_definitions[i].clone()),
            None => None,
        }
    }

    /// The stored Oxford record searched under the word, if any.
    pub fn get_ox_definition(&self, word: &str) -> (r: Option<OxDefinitionDoc>)
        ensures
            r.deep_view() == spec_find_ox_by_word(self@.ox_definitions, word@),
    {
        match self.find_ox_word_index(word) {
            Some(i) => Some(self.ox_definitions[i].clone()),
            None => None,
        }
    }

    /// The storage id of the vocabulary record for the word, without
    /// the record itself; a record that exists always yields its id.
    pub fn get_voc_definition_id(&self, word: &str) -> (r: Option<u64>)
        ensures
            r == spec_voc_id_by_word(self@.voc_definitions, word@),
            (r matches Some(v) ==> spec_voc_id_exists(self@.voc_definitions, v)),
    {
        match self.find_voc_word_index(word) {
            Some(i) => {
                proof {
                    if self@.voc_definitions[i as int].id is Some {
                        assert(spec_voc_id_exists(
                            self@.voc_definitions,
                            self@.voc_definitions[i as int].id->0,
                        ));
                    }
                }
                self.voc_definitions[i].id
            },
            None => None,
        }
    }

    /// The storage id of the Oxford record for the word, if any.
    pub fn get_ox_definition_id(&self, word: &str) -> (r: Option<u64>)
        ensures
            r == spec_ox_id_by_word(self@.ox_definitions, word@),
            (r matches Some(v) ==> spec_ox_id_exists(self@.ox_definitions, v)),
    {
        match self.find_ox_word_index(word) {
            Some(i) => {
                proof {
                    if self@.ox_definitions[i as int].id is Some {
                        assert(spec_ox_id_exists(
                            self@.ox_definitions,
                            self@.ox_definitions[i as int].id->0,
                        ));
                    }
                }
                self.ox_definitions[i].id
            },
            None => None,
        }
    }

    /// Deletes the composite record for the word, and nothing else:
    /// sub-records and audio are intentionally retained for reuse.
    pub fn delete_definition(&mut self, word: &str) -> (r: Result<(), DbErr>)
        requires
            old(self).wf(),
        ensures
            (r is Ok),
            final(self).wf(),
            final(self)@.definitions == spec_remove_def(old(self)@.definitions, word@),
            final(self)@.voc_definitions == old(self)@.voc_definitions,
            final(self)@.ox_definitions == old(self)@.ox_definitions,
            final(self)@.audio == old(self)@.audio,
            final(self)@.next_id == old(self)@.next_id,
    {
        let ghost oldv = self@;
        let ghost olddefs = self@.definitions;
        match self.find_def_index(word) {
            Some(i) => {
                let ghost prev = self.definitions.deep_view();
                self.definitions.remove(i);
                proof {
                    assert(self.definitions.deep_view() =~= prev.remove(i as int));
                    assert(spec_remove_def(olddefs, word@) == olddefs.remove(i as int));
                }
            },
            None => {
            },
        }
        proof {
            let newdefs = self@.definitions;
            assert forall|a: int, b: int|
                #![trigger newdefs[a], newdefs[b]]
                0 <= a < b < newdefs.len() implies newdefs[a].word != newdefs[b].word by {
                let i = first_match_index(olddefs, def_word_pred(word@));
                if i >= 0 {
                    let oa: int = if a < i { a } else { a + 1 };
                    let ob: int = if b < i { b } else { b + 1 };
                    assert(newdefs[a] == olddefs[oa]);
                    assert(newdefs[b] == olddefs[ob]);
                }
            }
            assert forall|k: int| 0 <= k < newdefs.len() implies spec_def_refs_ok(
                #[trigger] newdefs[k],
                self@.voc_definitions,
                self@.ox_definitions,
            ) by {
                let i = first_match_index(olddefs, def_word_pred(word@));
                if i >= 0 {
                    let ok: int = if k < i { k } else { k + 1 };
                    assert(newdefs[k] == olddefs[ok]);
                    assert(spec_def_refs_ok(
                        olddefs[ok],
                        oldv.voc_definitions,
                        oldv.ox_definitions,
                    ));
                }
            }
        }
        Ok(())
    }

    /// Replaces the composite record for its word wholesale, or inserts
    /// it when absent; each reference it carries must resolve.
    pub fn replace_definition(&mut self, definition: &DefinitionDoc) -> (r: Result<(), DbErr>)
        requires
            old(self).wf(),
            spec_def_refs_ok(
                definition.deep_view(),
                old(self)@.voc_definitions,
                old(self)@.ox_definitions,
            ),
        ensures
            (r is Ok),
            final(self).wf(),
            final(self)@.definitions == spec_upsert_def(
                old(self)@.definitions,
                definition.deep_view(),
            ),
            final(self)@.voc_definitions == old(self)@.voc_definitions,
            final(self)@.ox_definitions == old(self)@.ox_definitions,
            final(self)@.audio == old(self)@.audio,
            final(self)@.next_id == old(self)@.next_id,
    {
        let ghost oldv = self@;
        let ghost olddefs = self@.definitions;
        let ghost dv = definition.deep_view();
        let d = definition.clone();
        proof {
            assert(d.deep_view() == dv);
            assert(d.word@ == dv.word);
        }
        match self.find_def_index(d.word.as_str()) {
            Some(i) => {
                proof {
                    lemma_first_match_found(olddefs, def_word_pred(dv.word));
                }
                let ghost prev = self.definitions.deep_view();
                self.definitions.set(i, d);
                proof {
                    assert(self.definitions.deep_view() =~= prev.update(i as int, dv));
                }
            },
            None => {
                let ghost prev = self.definitions.deep_view();
                self.definitions.push(d);
                proof {
                    assert(self.definitions.deep_view() =~= prev.push(dv));
                }
            },
        }
        proof {
            let p = def_word_pred(dv.word);
            let i = first_match_index(olddefs, p);
            if i >= 0 {
                lemma_first_match_found(olddefs, p);
            } else {
                lemma_first_match_missing(olddefs, p);
            }
            assert(self@.definitions =~= spec_upsert_def(olddefs, dv));
            let newdefs = self@.definitions;
            assert forall|a: int, b: int|
                #![trigger newdefs[a], newdefs[b]]
                0 <= a < b < newdefs.len() implies newdefs[a].word != newdefs[b].word by {
                if i >= 0 {
                    if a != i && b != i {
                        assert(newdefs[a] == olddefs[a]);
                        assert(newdefs[b] == olddefs[b]);
                    } else if a == i {
                        assert(newdefs[a].word == olddefs[i].word);
                        assert(newdefs[b] == olddefs[b]);
                    } else {
                        assert(newdefs[a] == olddefs[a]);
                        assert(newdefs[b].word == olddefs[i].word);
                    }
                } else {
                    if b == newdefs.len() - 1 {
                        assert(newdefs[a] == olddefs[a]);
                        assert(!p(olddefs[a]));
                    } else {
                        assert(newdefs[a] == olddefs[a]);
                        assert(newdefs[b] == olddefs[b]);
                    }
                }
            }
            assert forall|k: int| 0 <= k < newdefs.len() implies spec_def_refs_ok(
                #[trigger] newdefs[k],
                self@.voc_definitions,
                self@.ox_definitions,
            ) by {
                if (i >= 0 && k == i) || (i < 0 && k == newdefs.len() - 1) {
                    assert(newdefs[k] == dv || newdefs[k] == olddefs[k]);
                } else {
                    assert(newdefs[k] == olddefs[k]);
                    assert(spec_def_refs_ok(
                        olddefs[k],
                        oldv.voc_definitions,
                        oldv.ox_definitions,
                    ));
                }
            }
        }
        Ok(())
    }
}

/// The audio collection, id counter and rewritten pronunciations that
/// persisting a batch of fetched pronunciations leaves behind.
pub struct SavedAudioV {
    pub audio: Seq<AudioDocV>,
    pub next_id: u64,
    pub docs: Seq<PronunciationDocV>,
}

/// What persisting the fetched pronunciations does, item by item and in
/// order: an item with audio stores one blob under a fresh id and keeps
/// that id; an item without audio, or one whose insert cannot be given
/// an id, keeps no reference. Exactly one rewritten pronunciation comes
/// out per item.
pub open spec fn spec_save_audio(
    audio: Seq<AudioDocV>,
    next_id: u64,
    word: Seq<char>,
    items: Seq<PronunciationV>,
) -> SavedAudioV
    decreases items.len(),
{
    if items.len() == 0 {
        SavedAudioV { audio, next_id, docs: Seq::empty() }
    } else {
        let it = items.first();
        let step: (Seq<AudioDocV>, u64, PronunciationDocV) = match it.audio {
            Some(a) => if next_id < u64::MAX {
                (
                    audio.push(
                        AudioDocV {
                            id: Some(next_id),
                            word,
                            content_type: a.content_type,
                            bytes: a.bytes,
                        },
                    ),
                    (next_id + 1) as u64,
                    PronunciationDocV {
                        variant: it.variant,
                        ipa_str: it.ipa_str,
                        audio_id: Some(next_id),
                    },
                )
            } else {
                (
                    audio,
                    next_id,
                    PronunciationDocV { variant: it.variant, ipa_str: it.ipa_str, audio_id: None },
                )
            },
            None => (
                audio,
                next_id,
                PronunciationDocV { variant: it.variant, ipa_str: it.ipa_str, audio_id: None },
            ),
        };
        let rest = spec_save_audio(step.0, step.1, word, items.drop_first());
        SavedAudioV {
            audio: rest.audio,
            next_id: rest.next_id,
            docs: seq![step.2] + rest.docs,
        }
    }
}

/// `spec_save_audio` from a mid-way state, with the already rewritten
/// pronunciations in front.
pub open spec fn spec_save_audio_from(
    audio: Seq<AudioDocV>,
    next_id: u64,
    word: Seq<char>,
    remaining: Seq<PronunciationV>,
    done: Seq<PronunciationDocV>,
) -> SavedAudioV {
    let rest = spec_save_audio(audio, next_id, word, remaining);
    SavedAudioV { audio: rest.audio, next_id: rest.next_id, docs: done + rest.docs }
}

/// The store and assigned id that upserting one source document leaves
/// behind.
pub struct SavedDocV {
    pub repo: RepoV,
    pub id: Option<u64>,
}

/// What persisting a scraped vocabulary definition does: its audio is
/// stored first, then the record is upserted under the source's own
/// reference — replaced wholesale keeping its storage id when present,
/// inserted under a fresh id otherwise (with no id only when none can
/// be handed out).
pub open spec fn spec_save_voc(
    r: RepoV,
    defv: crate::vocabulary::DefinitionV,
    word: Seq<char>,
) -> SavedDocV {
    let sa = spec_save_audio(r.audio, r.next_id, defv.id_ref, defv.pronunciations);
    let base = VocDefinitionDocV {
        id: None,
        voc_ref: defv.id_ref,
        searched_word: word,
        header: defv.header,
        pronunciations: sa.docs,
        other_forms: defv.other_forms,
        short_description: defv.short_description,
        long_description: defv.long_description,
        definitions: defv.definitions,
        examples: defv.examples,
    };
    let i = first_match_index(r.voc_definitions, voc_ref_pred(defv.id_ref));
    if i >= 0 {
        let kept = r.voc_definitions[i].id;
        SavedDocV {
            repo: RepoV {
                voc_definitions: r.voc_definitions.update(
                    i,
                    VocDefinitionDocV { id: kept, ..base },
                ),
                audio: sa.audio,
                next_id: sa.next_id,
                ..r
            },
            id: kept,
        }
    } else if sa.next_id < u64::MAX {
        SavedDocV {
            repo: RepoV {
                voc_definitions: r.voc_definitions.push(
                    VocDefinitionDocV { id: Some(sa.next_id), ..base },
                ),
                audio: sa.audio,
                next_id: (sa.next_id + 1) as u64,
                ..r
            },
            id: Some(sa.next_id),
        }
    } else {
        SavedDocV {
            repo: RepoV {
                voc_definitions: r.voc_definitions.push(base),
                audio: sa.audio,
                next_id: sa.next_id,
                ..r
            },
            id: None,
        }
    }
}

/// What persisting a scraped Oxford definition does, mirroring the
/// vocabulary case with the Oxford record shape.
pub open spec fn spec_save_ox(
    r: RepoV,
    defv: crate::oxford::DefinitionV,
    word: Seq<char>,
) -> SavedDocV {
    let sa = spec_save_audio(r.audio, r.next_id, defv.id_ref, defv.pronunciations);
    let base = OxDefinitionDocV {
        id: None,
        id_ref: defv.id_ref,
        searched_word: word,
        header: defv.header,
        inflections: defv.inflections,
        note: defv.note,
        grammar_hint: defv.grammar_hint,
        word_variant: defv.word_variant,
        similar_results: defv.similar_results,
        pronunciations: sa.docs,
        definitions: defv.definitions,
        see_also: defv.see_also,
        word_origin: defv.word_origin,
        idioms: defv.idioms,
        phrasal_verbs: defv.phrasal_verbs,
        veb_forms: defv.veb_forms,
    };
    let i = first_match_index(r.ox_definitions, ox_ref_pred(defv.id_ref));
    if i >= 0 {
        let kept = r.ox_definitions[i].id;
        SavedDocV {
            repo: RepoV {
                ox_definitions: r.ox_definitions.update(i, OxDefinitionDocV { id: kept, ..base }),
                audio: sa.audio,
                next_id: sa.next_id,
                ..r
            },
            id: kept,
        }
    } else if sa.next_id < u64::MAX {
        SavedDocV {
            repo: RepoV {
                ox_definitions: r.ox_definitions.push(
                    OxDefinitionDocV { id: Some(sa.next_id), ..base },
                ),
                audio: sa.audio,
                next_id: (sa.next_id + 1) as u64,
                ..r
            },
            id: Some(sa.next_id),
        }
    } else {
        SavedDocV {
            repo: RepoV {
                ox_definitions: r.ox_definitions.push(base),
                audio: sa.audio,
                next_id: sa.next_id,
                ..r
            },
            id: None,
        }
    }
}

impl Repository {
    fn save_audio(&mut self, word: &str, data: &Vec<Pronunciation>) -> (r: Vec<PronunciationDoc>)
        requires
            old(self).wf(),
        ensures
            final(self).wf(),
            final(self)@.definitions == old(self)@.definitions,
            final(self)@.voc_definitions == old(self)@.voc_definitions,
            final(self)@.ox_definitions == old(self)@.ox_definitions,
            old(self)@.next_id <= final(self)@.next_id,
            ({
                let sa = spec_save_audio(
                    old(self)@.audio,
                    old(self)@.next_id,
                    word@,
                    data.deep_view(),
                );
                final(self)@.audio == sa.audio && final(self)@.next_id == sa.next_id
                    && r.deep_view() == sa.docs
            }),
    {
        let ghost items = data.deep_view();
        let ghost goal = spec_save_audio(old(self)@.audio, old(self)@.next_id, word@, items);
        let mut out: Vec<PronunciationDoc> = Vec::new();
        let mut i: usize = 0;
        proof {
            assert(items.skip(0) =~= items);
            assert(out.deep_view() =~= Seq::<PronunciationDocV>::empty());
            assert(Seq::<PronunciationDocV>::empty() + spec_save_audio(
                self@.audio,
                self@.next_id,
                word@,
                items,
            ).docs =~= spec_save_audio(self@.audio, self@.next_id, word@, items).docs);
        }
        while i < data.len()
            invariant
                0 <= i <= data@.len(),
                data@.len() == items.len(),
                items == data.deep_view(),
                self.wf(),
                self@.definitions == old(self)@.definitions,
                self@.voc_definitions == old(self)@.voc_definitions,
                self@.ox_definitions == old(self)@.ox_definitions,
                old(self)@.next_id <= self@.next_id,
                goal == spec_save_audio_from(
                    self@.audio,
                    self@.next_id,
                    word@,
                    items.skip(i as int),
                    out.deep_view(),
                ),
            decreases data@.len() - i,
        {
            let ghost rem = items.skip(i as int);
            proof {
                assert(rem.len() > 0);
                assert(rem.first() == items[i as int]);
                assert(rem.drop_first() =~= items.skip(i + 1));
                assert(items[i as int] == data@[i as int].deep_view());
            }
            let item = &data[i];
            let ghost pre_audio = self@.audio;
            let ghost pre_next = self@.next_id;
            let doc: PronunciationDoc = match &item.audio {
                Some(a) => {
                    if self.next_id < u64::MAX {
                        let id = self.next_id;
                        let blob = AudioDoc {
                            id: Some(id),
                            word: word.to_owned(),
                            content_type: a.content_type.clone(),
                            bytes: crate::cloning::clone_bytes(&a.bytes),
                        };
                        let ghost prev = self.audio.deep_view();
                        self.audio.push(blob);
                        proof {
                            assert(self.audio.deep_view() =~= prev.push(
                                AudioDocV {
                                    id: Some(id),
                                    word: word@,
                                    content_type: a.content_type@,
                                    bytes: a.bytes@,
                                },
                            ));
                        }
                        self.next_id = id + 1;
                        PronunciationDoc {
                            variant: item.variant,
                            ipa_str: item.ipa_str.clone(),
                            audio_id: Some(id),
                        }
                    } else {
                        PronunciationDoc {
                            variant: item.variant,
                            ipa_str: item.ipa_str.clone(),
                            audio_id: None,
                        }
                    }
                },
                None => PronunciationDoc {
                    variant: item.variant,
                    ipa_str: item.ipa_str.clone(),
                    audio_id: None,
                },
            };
            let ghost prev_out = out.deep_view();
            out.push(doc);
            proof {
                assert(out.deep_view() =~= prev_out.push(doc.deep_view()));
                assert(spec_save_audio(pre_audio, pre_next, word@, rem).audio == spec_save_audio(
                    self@.audio,
                    self@.next_id,
                    word@,
                    items.skip(i + 1),
                ).audio);
                assert(prev_out + (seq![doc.deep_view()] + spec_save_audio(
                    self@.audio,
                    self@.next_id,
                    word@,
                    items.skip(i + 1),
                ).docs) =~= out.deep_view() + spec_save_audio(
                    self@.audio,
                    self@.next_id,
                    word@,
                    items.skip(i + 1),
                ).docs);
            }
            i = i + 1;
        }
        proof {
            assert(items.skip(i as int) =~= Seq::<PronunciationV>::empty());
            assert(out.deep_view() + Seq::<PronunciationDocV>::empty() =~= out.deep_view());
        }
        out
    }

    fn find_voc_ref_index(&self, id_ref: &str) -> (r: Option<usize>)
        ensures
            (match r {
                Some(i) => i < self@.voc_definitions.len() && first_match_index(
                    self@.voc_definitions,
                    voc_ref_pred(id_ref@),
                ) == i as int,
                None => first_match_index(self@.voc_definitions, voc_ref_pred(id_ref@)) == -1,
            }),
    {
        let ghost p = voc_ref_pred(id_ref@);
        let mut i: usize = 0;
        while i < self.voc_definitions.len()
            invariant
                0 <= i <= self.voc_definitions@.len(),
                self@.voc_definitions.len() == self.voc_definitions@.len(),
                p == voc_ref_pred(id_ref@),
                forall|j: int| 0 <= j < i ==> !p(#[trigger] self@.voc_definitions[j]),
            decreases self.voc_definitions@.len() - i,
        {
            proof {
                assert(self@.voc_definitions[i as int] == self.voc_definitions@[
                    i as int].deep_view());
            }
            if text::str_eq(self.voc_definitions[i].voc_ref.as_str(), id_ref) {
                proof {
                    lemma_first_match_at(self@.voc_definitions, p, i as int);
                }
                return Some(i);
            }
            i = i + 1;
        }
        proof {
            lemma_first_match_none(self@.voc_definitions, p);
        }
        None
    }

    fn find_ox_ref_index(&self, id_ref: &str) -> (r: Option<usize>)
        ensures
            (match r {
                Some(i) => i < self@.ox_definitions.len() && first_match_index(
                    self@.ox_definitions,
                    ox_ref_pred(id_ref@),
                ) == i as int,
                None => first_match_index(self@.ox_definitions, ox_ref_pred(id_ref@)) == -1,
            }),
    {
        let ghost p = ox_ref_pred(id_ref@);
        let mut i: usize = 0;
        while i < self.ox_definitions.len()
            invariant
                0 <= i <= self.ox_definitions@.len(),
                self@.ox_definitions.len() == self.ox_definitions@.len(),
                p == ox_ref_pred(id_ref@),
                forall|j: int| 0 <= j < i ==> !p(#[trigger] self@.ox_definitions[j]),
            decreases self.ox_definitions@.len() - i,
        {
            proof {
                assert(self@.ox_definitions[i as int] == self.ox_definitions@[
                    i as int].deep_view());
            }
            if text::str_eq(self.ox_definitions[i].id_ref.as_str(), id_ref) {
                proof {
                    lemma_first_match_at(self@.ox_definitions, p, i as int);
                }
                return Some(i);
            }
            i = i + 1;
        }
        proof {
            lemma_first_match_none(self@.ox_definitions, p);
        }
        None
    }

    /// Persists a scraped vocabulary definition: stores its audio, then
    /// upserts the record under the source's own reference, remembering
    /// the word it was searched under; yields the record's storage id.
    pub fn save_voc_definition(&mut self, def: crate::vocabulary::Definition, word: String) -> (r:
        Result<Option<u64>, DbErr>)
        requires
            old(self).wf(),
        ensures
            final(self).wf(),
            ({
                let sv = spec_save_voc(old(self)@, def.deep_view(), word@);
                final(self)@ == sv.repo && r == Ok::<Option<u64>, DbErr>(sv.id)
            }),
            (r matches Ok(Some(v)) ==> spec_voc_id_exists(final(self)@.voc_definitions, v)),
            final(self)@.definitions == old(self)@.definitions,
            final(self)@.ox_definitions == old(self)@.ox_definitions,
    {
        let ghost oldv = self@;
        let ghost defv = def.deep_view();
        let idr = def.id_ref.clone();
        let pros = self.save_audio(idr.as_str(), &def.pronunciations);
        let ghost sa = spec_save_audio(oldv.audio, oldv.next_id, defv.id_ref, defv.pronunciations);
        let doc = VocDefinitionDoc {
            id: None,
            voc_ref: def.id_ref,
            searched_word: word,
            header: def.header,
            pronunciations: pros,
            other_forms: def.other_forms,
            short_description: def.short_description,
            long_description: def.long_description,
            definitions: def.definitions,
            examples: def.examples,
        };
        let ghost oldvocs = self@.voc_definitions;
        let ghost basev = doc.deep_view();
        let result: Option<u64>;
        match self.find_voc_ref_index(idr.as_str()) {
            Some(i) => {
                proof {
                    lemma_first_match_found(oldvocs, voc_ref_pred(defv.id_ref));
                }
                let kept = self.voc_definitions[i].id;
                let mut d2 = doc;
                d2.id = kept;
                let ghost prev = self.voc_definitions.deep_view();
                self.voc_definitions.set(i, d2);
                proof {
                    assert(self.voc_definitions.deep_view() =~= prev.update(
                        i as int,
                        VocDefinitionDocV { id: kept, ..basev },
                    ));
                }
                proof {
                    if kept is Some {
                        assert(self@.voc_definitions[i as int].id == Some(kept->0));
                        assert(spec_voc_id_exists(self@.voc_definitions, kept->0));
                    }
                }
                result = kept;
            },
            None => {
                proof {
                    lemma_first_match_missing(oldvocs, voc_ref_pred(defv.id_ref));
                }
                if self.next_id < u64::MAX {
                    let id = self.next_id;
                    let mut d2 = doc;
                    d2.id = Some(id);
                    let ghost prev = self.voc_definitions.deep_view();
                    self.voc_definitions.push(d2);
                    proof {
                        assert(self.voc_definitions.deep_view() =~= prev.push(
                            VocDefinitionDocV { id: Some(id), ..basev },
                        ));
                    }
                    self.next_id = id + 1;
                    proof {
                        assert(self@.voc_definitions[self@.voc_definitions.len() - 1].id == Some(
                            id,
                        ));
                        assert(spec_voc_id_exists(self@.voc_definitions, id));
                    }
                    result = Some(id);
                } else {
                    let ghost prev = self.voc_definitions.deep_view();
                    self.voc_definitions.push(doc);
                    proof {
                        assert(self.voc_definitions.deep_view() =~= prev.push(basev));
                    }
                    result = None;
                }
            },
        }
        proof {
            let sv = spec_save_voc(oldv, defv, word@);
            assert(self@ =~~= sv.repo);
            let newvocs = self@.voc_definitions;
            let i = first_match_index(oldvocs, voc_ref_pred(defv.id_ref));
            assert forall|a: int, b: int|
                #![trigger newvocs[a], newvocs[b]]
                0 <= a < b < newvocs.len() implies newvocs[a].voc_ref != newvocs[b].voc_ref by {
                if i >= 0 {
                    if a != i {
                        assert(newvocs[a] == oldvocs[a]);
                    }
                    if b != i {
                        assert(newvocs[b] == oldvocs[b]);
                    }
                    assert(newvocs[i].voc_ref == oldvocs[i].voc_ref);
                } else {
                    if b == newvocs.len() - 1 {
                        assert(newvocs[a] == oldvocs[a]);
                        assert(!voc_ref_pred(defv.id_ref)(oldvocs[a]));
                    } else {
                        assert(newvocs[a] == oldvocs[a]);
                        assert(newvocs[b] == oldvocs[b]);
                    }
                }
            }
            assert forall|k: int| 0 <= k < self@.definitions.len() implies spec_def_refs_ok(
                #[trigger] self@.definitions[k],
                newvocs,
                self@.ox_definitions,
            ) by {
                assert(self@.definitions[k] == oldv.definitions[k]);
                assert(spec_def_refs_ok(
                    oldv.definitions[k],
                    oldv.voc_definitions,
                    oldv.ox_definitions,
                ));
                match oldv.definitions[k].vocabulary_id {
                    Some(v) => {
                        let w = choose|w: int|
                            0 <= w < oldvocs.len() && #[trigger] oldvocs[w].id == Some(v);
                        if i >= 0 && w == i {
                            assert(newvocs[i].id == oldvocs[i].id);
                            assert(spec_voc_id_exists(newvocs, v));
                        } else {
                            assert(newvocs[w] == oldvocs[w]);
                            assert(spec_voc_id_exists(newvocs, v));
                        }
                    },
                    None => {},
                }
            }
        }
        Ok(result)
    }

    /// Persists a scraped Oxford definition: stores its audio, then
    /// upserts the record under the source's own entry id, remembering
    /// the word it was searched under; yields the record's storage id.
    pub fn save_ox_definition(&mut self, def: crate::oxford::Definition, word: String) -> (r:
        Result<Option<u64>, DbErr>)
        requires
            old(self).wf(),
        ensures
            final(self).wf(),
            ({
                let sv = spec_save_ox(old(self)@, def.deep_view(), word@);
                final(self)@ == sv.repo && r == Ok::<Option<u64>, DbErr>(sv.id)
            }),
            (r matches Ok(Some(v)) ==> spec_ox_id_exists(final(self)@.ox_definitions, v)),
            final(self)@.definitions == old(self)@.definitions,
            final(self)@.voc_definitions == old(self)@.voc_definitions,
    {
        let ghost oldv = self@;
        let ghost defv = def.deep_view();
        let idr = def.id_ref.clone();
        let pros = self.save_audio(idr.as_str(), &def.pronunciations);
        let doc = OxDefinitionDoc {
            id: None,
            id_ref: def.id_ref,
            searched_word: word,
            header: def.header,
            inflections: def.inflections,
            note: def.note,
            grammar_hint: def.grammar_hint,
            word_variant: def.word_variant,
            similar_results: def.similar_results,
            pronunciations: pros,
            definitions: def.definitions,
            see_also: def.see_also,
            word_origin: def.word_origin,
            idioms: def.idioms,
            phrasal_verbs: def.phrasal_verbs,
            veb_forms: def.veb_forms,
        };
        let ghost oldoxs = self@.ox_definitions;
        let ghost basev = doc.deep_view();
        let result: Option<u64>;
        match self.find_ox_ref_index(idr.as_str()) {
            Some(i) => {
                proof {
                    lemma_first_match_found(oldoxs, ox_ref_pred(defv.id_ref));
                }
                let kept = self.ox_definitions[i].id;
                let mut d2 = doc;
                d2.id = kept;
                let ghost prev = self.ox_definitions.deep_view();
                self.ox_definitions.set(i, d2);
                proof {
                    assert(self.ox_definitions.deep_view() =~= prev.update(
                        i as int,
                        OxDefinitionDocV { id: kept, ..basev },
                    ));
                }
                proof {
                    if kept is Some {
                        assert(self@.ox_definitions[i as int].id == Some(kept->0));
                        assert(spec_ox_id_exists(self@.ox_definitions, kept->0));
                    }
                }
                result = kept;
            },
            None => {
                proof {
                    lemma_first_match_missing(oldoxs, ox_ref_pred(defv.id_ref));
                }
                if self.next_id < u64::MAX {
                    let id = self.next_id;
                    let mut d2 = doc;
                    d2.id = Some(id);
                    let ghost prev = self.ox_definitions.deep_view();
                    self.ox_definitions.push(d2);
                    proof {
                        assert(self.ox_definitions.deep_view() =~= prev.push(
                            OxDefinitionDocV { id: Some(id), ..basev },
                        ));
                    }
                    self.next_id = id + 1;
                    proof {
                        assert(self@.ox_definitions[self@.ox_definitions.len() - 1].id == Some(
                            id,
                        ));
                        assert(spec_ox_id_exists(self@.ox_definitions, id));
                    }
                    result = Some(id);
                } else {
                    let ghost prev = self.ox_definitions.deep_view();
                    self.ox_definitions.push(doc);
                    proof {
                        assert(self.ox_definitions.deep_view() =~= prev.push(basev));
                    }
                    result = None;
                }
            },
        }
        proof {
            let sv = spec_save_ox(oldv, defv, word@);
            assert(self@ =~~= sv.repo);
            let newoxs = self@.ox_definitions;
            let i = first_match_index(oldoxs, ox_ref_pred(defv.id_ref));
            assert forall|a: int, b: int|
                #![trigger newoxs[a], newoxs[b]]
                0 <= a < b < newoxs.len() implies newoxs[a].id_ref != newoxs[b].id_ref by {
                if i >= 0 {
                    if a != i {
                        assert(newoxs[a] == oldoxs[a]);
                    }
                    if b != i {
                        assert(newoxs[b] == oldoxs[b]);
                    }
                    assert(newoxs[i].id_ref == oldoxs[i].id_ref);
                } else {
                    if b == newoxs.len() - 1 {
                        assert(newoxs[a] == oldoxs[a]);
                        assert(!ox_ref_pred(defv.id_ref)(oldoxs[a]));
                    } else {
                        assert(newoxs[a] == oldoxs[a]);
                        assert(newoxs[b] == oldoxs[b]);
                    }
                }
            }
            assert forall|k: int| 0 <= k < self@.definitions.len() implies spec_def_refs_ok(
                #[trigger] self@.definitions[k],
                self@.voc_definitions,
                newoxs,
            ) by {
                assert(self@.definitions[k] == oldv.definitions[k]);
                assert(spec_def_refs_ok(
                    oldv.definitions[k],
                    oldv.voc_definitions,
                    oldv.ox_definitions,
                ));
                match oldv.definitions[k].oxford_id {
                    Some(v) => {
                        let w = choose|w: int|
                            0 <= w < oldoxs.len() && #[trigger] oldoxs[w].id == Some(v);
                        if i >= 0 && w == i {
                            assert(newoxs[i].id == oldoxs[i].id);
                            assert(spec_ox_id_exists(newoxs, v));
                        } else {
                            assert(newoxs[w] == oldoxs[w]);
                            assert(spec_ox_id_exists(newoxs, v));
                        }
                    },
                    None => {},
                }
            }
        }
        Ok(result)
    }

    /// The stored audio blob for a rendered storage id: a not-found id
    /// yields nothing, and an id that is not a decimal number fails.
    pub fn get_audio(&self, id: String) -> (r: Result<Option<AudioDoc>, DbErr>)
        ensures
            (match text::spec_parse_u64(id@) {
                Some(n) => (r is Ok) && r->Ok_0.deep_view() == spec_find_audio(self@.audio, n),
                None => r == Err::<Option<AudioDoc>, DbErr>(DbErr::ParseIdErr),
            }),
    {
        let cs = text::chars_of(id.as_str());
        proof {
            assert(cs@ == id@);
        }
        let parsed = text::parse_u64(&cs);
        proof {
            assert(parsed == text::spec_parse_u64(id@));
        }
        let n: u64 = match parsed {
            Some(v) => v,
            None => {
                return Err(DbErr::ParseIdErr);
            },
        };
        proof {
            assert(parsed == Some(n));
            assert(text::spec_parse_u64(id@) == Some(n));
        }
        let ghost p = audio_id_pred(n);
        let mut i: usize = 0;
        while i < self.audio.len()
            invariant
                0 <= i <= self.audio@.len(),
                self@.audio.len() == self.audio@.len(),
                p == audio_id_pred(n),
                text::spec_parse_u64(id@) == Some(n),
                forall|j: int| 0 <= j < i ==> !p(#[trigger] self@.audio[j]),
            decreases self.audio@.len() - i,
        {
            proof {
                assert(self@.audio[i as int] == self.audio@[i as int].deep_view());
            }
            let hit = match self.audio[i].id {
                Some(v) => v == n,
                None => false,
            };
            if hit {
                proof {
                    lemma_first_match_at(self@.audio, p, i as int);
                    assert(spec_find_audio(self@.audio, n) == Some(self@.audio[i as int]));
                }
                let d = self.audio[i].clone();
                let out: Result<Option<AudioDoc>, DbErr> = Ok(Some(d));
                proof {
                    assert(out is Ok);
                    assert(out->Ok_0 is Some);
                    assert(out->Ok_0.deep_view() == Some(out->Ok_0->0.deep_view()));
                    assert(out->Ok_0->0.deep_view() == self@.audio[i as int]);
                    assert(out->Ok_0.deep_view() == spec_find_audio(self@.audio, n));
                    assert(text::spec_parse_u64(id@) == Some(n));
                }
                return out;
            }
            i = i + 1;
        }
        proof {
            lemma_first_match_none(self@.audio, p);
        }
        Ok(None)
    }
}

/// Law: after upserting a composite record, looking its word up finds
/// exactly that record.
pub proof fn lemma_find_def_after_upsert(defs: Seq<DefinitionDocV>, d: DefinitionDocV)
    ensures
        spec_find_def(spec_upsert_def(defs, d), d.word) == Some(d),
{
    let p = def_word_pred(d.word);
    let i = first_match_index(defs, p);
    if i >= 0 {
        lemma_first_match_found(defs, p);
        let new = defs.update(i, d);
        assert(p(new[i]));
        assert(forall|j: int| 0 <= j < i ==> new[j] == #[trigger] defs[j]);
        lemma_first_match_at(new, p, i);
    } else {
        lemma_first_match_missing(defs, p);
        let new = defs.push(d);
        assert(p(new[defs.len() as int]));
        assert(forall|j: int| 0 <= j < defs.len() ==> new[j] == #[trigger] defs[j]);
        lemma_first_match_at(new, p, defs.len() as int);
    }
}

/// Law: with unique words, removing the composite record for a word
/// leaves no record for it behind.
pub proof fn lemma_find_def_after_remove(defs: Seq<DefinitionDocV>, word: Seq<char>)
    requires
        forall|a: int, b: int|
            #![trigger defs[a], defs[b]]
            0 <= a < b < defs.len() ==> defs[a].word != defs[b].word,
    ensures
        spec_find_def(spec_remove_def(defs, word), word) is None,
{
    let p = def_word_pred(word);
    let i = first_match_index(defs, p);
    if i >= 0 {
        lemma_first_match_found(defs, p);
        let new = defs.remove(i);
        assert forall|k: int| 0 <= k < new.len() implies !p(#[trigger] new[k]) by {
            let ok: int = if k < i { k } else { k + 1 };
            assert(new[k] == defs[ok]);
            if ok < i {
                assert(defs[ok].word != defs[i].word);
            } else {
                assert(defs[i].word != defs[ok].word);
            }
        }
        lemma_first_match_none(new, p);
    }
}

/// Law: persisting a batch of fetched pronunciations rewrites them one
/// for one, in order; each item that was given a storage id had audio,
/// and that id retrieves a blob holding exactly the fetched content
/// type and bytes. Previously stored blobs are untouched.
pub proof fn lemma_save_audio_props(
    audio: Seq<AudioDocV>,
    next: u64,
    word: Seq<char>,
    items: Seq<PronunciationV>,
)
    requires
        forall|k: int|
            0 <= k < audio.len() ==> (#[trigger] audio[k].id) is Some && audio[k].id->0 < next,
    ensures
        ({
            let sa = spec_save_audio(audio, next, word, items);
            &&& sa.docs.len() == items.len()
            &&& next <= sa.next_id
            &&& sa.audio.len() >= audio.len()
            &&& forall|k: int| 0 <= k < audio.len() ==> #[trigger] sa.audio[k] == audio[k]
            &&& forall|k: int|
                audio.len() <= k < sa.audio.len() ==> (#[trigger] sa.audio[k].id) is Some && next
                    <= sa.audio[k].id->0 < sa.next_id && sa.audio[k].word == word
            &&& forall|i: int|
                0 <= i < items.len() ==> (#[trigger] sa.docs[i]).variant == items[i].variant
                    && sa.docs[i].ipa_str == items[i].ipa_str
            &&& forall|i: int|
                0 <= i < items.len() ==> (match (#[trigger] sa.docs[i]).audio_id {
                    Some(id) => items[i].audio is Some && spec_find_audio(sa.audio, id) == Some(
                        AudioDocV {
                            id: Some(id),
                            word,
                            content_type: items[i].audio->0.content_type,
                            bytes: items[i].audio->0.bytes,
                        },
                    ),
                    None => true,
                })
        }),
    decreases items.len(),
{
    if items.len() == 0 {
    } else {
        let sa = spec_save_audio(audio, next, word, items);
        let it = items.first();
        let rest = items.drop_first();
        if it.audio is Some && next < u64::MAX {
            let a = it.audio->0;
            let blob = AudioDocV {
                id: Some(next),
                word,
                content_type: a.content_type,
                bytes: a.bytes,
            };
            let audio1 = audio.push(blob);
            let next1 = (next + 1) as u64;
            assert(forall|k: int|
                0 <= k < audio1.len() ==> (#[trigger] audio1[k].id) is Some && audio1[k].id->0
                    < next1);
            lemma_save_audio_props(audio1, next1, word, rest);
            let sb = spec_save_audio(audio1, next1, word, rest);
            assert(sa.audio == sb.audio && sa.next_id == sb.next_id);
            assert(sa.docs =~= seq![
                PronunciationDocV { variant: it.variant, ipa_str: it.ipa_str, audio_id: Some(next) },
            ] + sb.docs);
            assert(sa.audio[audio.len() as int] == blob);
            let pd = audio_id_pred(next);
            assert forall|j: int| 0 <= j < audio.len() implies !pd(#[trigger] sa.audio[j]) by {
                assert(sa.audio[j] == audio[j]);
                assert(audio[j].id->0 < next);
            }
            assert(pd(sa.audio[audio.len() as int]));
            lemma_first_match_at(sa.audio, pd, audio.len() as int);
            assert(spec_find_audio(sa.audio, next) == Some(blob));
            assert forall|i: int|
                0 <= i < items.len() implies (match (#[trigger] sa.docs[i]).audio_id {
                    Some(id) => items[i].audio is Some && spec_find_audio(sa.audio, id) == Some(
                        AudioDocV {
                            id: Some(id),
                            word,
                            content_type: items[i].audio->0.content_type,
                            bytes: items[i].audio->0.bytes,
                        },
                    ),
                    None => true,
                }) by {
                if i == 0 {
                    assert(sa.docs[0].audio_id == Some(next));
                } else {
                    assert(sa.docs[i] == sb.docs[i - 1]);
                    assert(rest[i - 1] == items[i]);
                }
            }
            assert forall|i: int|
                0 <= i < items.len() implies (#[trigger] sa.docs[i]).variant == items[i].variant
                    && sa.docs[i].ipa_str == items[i].ipa_str by {
                if i > 0 {
                    assert(sa.docs[i] == sb.docs[i - 1]);
                    assert(rest[i - 1] == items[i]);
                }
            }
        } else {
            lemma_save_audio_props(audio, next, word, rest);
            let sb = spec_save_audio(audio, next, word, rest);
            assert(sa.audio == sb.audio && sa.next_id == sb.next_id);
            let doc0 = PronunciationDocV {
                variant: it.variant,
                ipa_str: it.ipa_str,
                audio_id: None,
            };
            assert(sa.docs =~= seq![doc0] + sb.docs);
            assert forall|i: int|
                0 <= i < items.len() implies (match (#[trigger] sa.docs[i]).audio_id {
                    Some(id) => items[i].audio is Some && spec_find_audio(sa.audio, id) == Some(
                        AudioDocV {
                            id: Some(id),
                            word,
                            content_type: items[i].audio->0.content_type,
                            bytes: items[i].audio->0.bytes,
                        },
                    ),
                    None => true,
                }) by {
                if i > 0 {
                    assert(sa.docs[i] == sb.docs[i - 1]);
                    assert(rest[i - 1] == items[i]);
                }
            }
            assert forall|i: int|
                0 <= i < items.len() implies (#[trigger] sa.docs[i]).variant == items[i].variant
                    && sa.docs[i].ipa_str == items[i].ipa_str by {
                if i > 0 {
                    assert(sa.docs[i] == sb.docs[i - 1]);
                    assert(rest[i - 1] == items[i]);
                }
            }
        }
    }
}

/// Law: a pronunciation whose audio was persisted round-trips — the
/// storage id it carries, rendered in decimal as responses carry it,
/// parses back and retrieves a blob with exactly the content type and
/// bytes that were fetched and persisted.
pub proof fn lemma_audio_round_trip(
    audio: Seq<AudioDocV>,
    next: u64,
    word: Seq<char>,
    items: Seq<PronunciationV>,
    i: int,
)
    requires
        forall|k: int|
            0 <= k < audio.len() ==> (#[trigger] audio[k].id) is Some && audio[k].id->0 < next,
        0 <= i < items.len(),
        spec_save_audio(audio, next, word, items).docs[i].audio_id is Some,
    ensures
        ({
            let sa = spec_save_audio(audio, next, word, items);
            let id = sa.docs[i].audio_id->0;
            &&& crate::text::spec_parse_u64(crate::text::spec_render_u64(id)) == Some(id)
            &&& items[i].audio is Some
            &&& (match spec_find_audio(sa.audio, id) {
                Some(a) => a.content_type == items[i].audio->0.content_type && a.bytes == items[
                    i
                ].audio->0.bytes,
                None => false,
            })
        }),
{
    lemma_save_audio_props(audio, next, word, items);
    let sa = spec_save_audio(audio, next, word, items);
    let id = sa.docs[i].audio_id->0;
    crate::text::lemma_parse_render(id);
}

} // verus!
