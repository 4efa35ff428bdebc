//! The cache-or-fetch orchestration: consult the store, fill in what a
//! miss needs from the supplied source fetches, persist the composite
//! record, and assemble the response.
//!
//! Fetching is network work and happens outside the library: a driver
//! first asks [`DictionaryService::lookup_plan`] which sources need a
//! fetch, performs exactly those, and hands the outcomes to
//! [`DictionaryService::get_word_definitions`]. A source that failed
//! contributes nothing rather than failing the lookup.

use vstd::prelude::*;
use crate::db::database::DbErr;
use crate::db::repository::spec_find_audio;
use crate::db::repository::spec_find_def;
use crate::db::repository::spec_find_ox_by_word;
use crate::db::repository::spec_find_voc_by_word;
use crate::db::repository::spec_ox_id_by_word;
use crate::db::repository::spec_remove_def;
use crate::db::repository::spec_repo_wf;
use crate::db::repository::spec_save_ox;
use crate::db::repository::spec_save_voc;
use crate::db::repository::spec_upsert_def;
use crate::db::repository::spec_voc_id_by_word;
use crate::db::repository::RepoV;
use crate::db::repository::Repository;
use crate::db::repository::SavedDocV;
use crate::dtos::spec_audio_resp;
use crate::dtos::spec_response;
use crate::dtos::GetAudioResponse;
use crate::dtos::GetWordDefinitionsResponse;
use crate::dtos::GetWordDefinitionsResponseBuilder;
use crate::dtos::GetWordDefinitionsResponseV;
use crate::models::definition::DefinitionDoc;
use crate::models::definition::DefinitionDocV;
use crate::oxford;
use crate::text;
use crate::vocabulary;

verus! {

/// The dictionary service: the orchestration over one document store.
#[derive(Debug)]
pub struct DictionaryService {
    pub repository: Repository,
}

/// What a lookup for a word would do before it can be answered: nothing
/// when the composite record is cached, and otherwise one fetch per
/// source that has no stored record for the word.
#[derive(Debug, Clone, Copy, PartialEq, Eq)]
pub struct LookupPlan {
    pub cached: bool,
    pub need_vocabulary: bool,
    pub need_oxford: bool,
}

/// What persisting one optional source fetch does: a fetched definition
/// is saved, an absent one contributes nothing.
pub open spec fn spec_create_voc(
    r: RepoV,
    word: Seq<char>,
    fetch: Option<vocabulary::DefinitionV>,
) -> SavedDocV {
    match fetch {
        Some(d) => spec_save_voc(r, d, word),
        None => SavedDocV { repo: r, id: None },
    }
}

/// As [`spec_create_voc`], for the Oxford source.
pub open spec fn spec_create_ox(
    r: RepoV,
    word: Seq<char>,
    fetch: Option<oxford::DefinitionV>,
) -> SavedDocV {
    match fetch {
        Some(d) => spec_save_ox(r, d, word),
        None => SavedDocV { repo: r, id: None },
    }
}

/// The get-or-create step for one source: the stored record's id when
/// one exists for the word, and otherwise whatever persisting the
/// supplied fetch yields.
pub open spec fn spec_get_or_create_voc(
    r: RepoV,
    word: Seq<char>,
    fetch: Option<vocabulary::DefinitionV>,
) -> SavedDocV {
    match spec_voc_id_by_word(r.voc_definitions, word) {
        Some(id) => SavedDocV { repo: r, id: Some(id) },
        None => spec_create_voc(r, word, fetch),
    }
}

/// As [`spec_get_or_create_voc`], for the Oxford source.
pub open spec fn spec_get_or_create_ox(
    r: RepoV,
    word: Seq<char>,
    fetch: Option<oxford::DefinitionV>,
) -> SavedDocV {
    match spec_ox_id_by_word(r.ox_definitions, word) {
        Some(id) => SavedDocV { repo: r, id: Some(id) },
        None => spec_create_ox(r, word, fetch),
    }
}

/// What completing a miss does: run get-or-create for each source in
/// turn, then upsert the composite record referencing whatever ids were
/// obtained — possibly neither, so the cache still remembers the miss.
pub open spec fn spec_create_definition(
    r: RepoV,
    word: Seq<char>,
    vf: Option<vocabulary::DefinitionV>,
    of: Option<oxford::DefinitionV>,
) -> (RepoV, DefinitionDocV) {
    let sv = spec_get_or_create_voc(r, word, vf);
    let so = spec_get_or_create_ox(sv.repo, word, of);
    let d = DefinitionDocV { word: word, vocabulary_id: sv.id, oxford_id: so.id };
    (RepoV { definitions: spec_upsert_def(so.repo.definitions, d), ..so.repo }, d)
}

/// What a whole lookup does: nothing on a cache hit, the miss path
/// otherwise; either way the answer is assembled from the records then
/// stored for the word.
pub open spec fn spec_get_word_definitions(
    r: RepoV,
    word: Seq<char>,
    vf: Option<vocabulary::DefinitionV>,
    of: Option<oxford::DefinitionV>,
) -> (RepoV, GetWordDefinitionsResponseV) {
    let r1 = if spec_find_def(r.definitions, word) is Some {
        r
    } else {
        spec_create_definition(r, word, vf, of).0
    };
    (
        r1,
        spec_response(
            word,
            spec_find_voc_by_word(r1.voc_definitions, word),
            spec_find_ox_by_word(r1.ox_definitions, word),
        ),
    )
}

impl DictionaryService {
    /// A service over the given store.
    pub fn new(repository: Repository) -> (r: DictionaryService)
        ensures
            r.repository == repository,
    {
        DictionaryService { repository }
    }

    /// Which outbound work a lookup for the word would do: none on a
    /// cache hit, and otherwise one fetch per source whose record is
    /// not already stored for the word.
    pub fn lookup_plan(&self, word: &str) -> (r: LookupPlan)
        ensures
            r.cached == (spec_find_def(self.repository@.definitions, word@) is Some),
            r.need_vocabulary == (!r.cached && spec_voc_id_by_word(
                self.repository@.voc_definitions,
                word@,
            ) is None),
            r.need_oxford == (!r.cached && spec_ox_id_by_word(
                self.repository@.ox_definitions,
                word@,
            ) is None),
    {
        let cached = match self.repository.get_definition(word) {
            Ok(Some(_)) => true,
            _ => false,
        };
        let need_vocabulary = !cached && self.repository.get_voc_definition_id(word).is_none();
        let need_oxford = !cached && self.repository.get_ox_definition_id(word).is_none();
        LookupPlan { cached, need_vocabulary, need_oxford }
    }

    fn create_voc_definition(&mut self, word: &str, fetch: Option<vocabulary::Definition>) -> (r:
        Option<u64>)
        requires
            old(self).repository.wf(),
        ensures
            final(self).repository.wf(),
            ({
                let sv = spec_create_voc(old(self).repository@, word@, fetch.deep_view());
                final(self).repository@ == sv.repo && r == sv.id
            }),
            (r matches Some(v) ==> crate::db::repository::spec_voc_id_exists(
                final(self).repository@.voc_definitions,
                v,
            )),
            final(self).repository@.definitions == old(self).repository@.definitions,
            final(self).repository@.ox_definitions == old(self).repository@.ox_definitions,
    {
        match fetch {
            Some(scraped) => {
                match self.repository.save_voc_definition(scraped, word.to_owned()) {
                    Ok(id) => id,
                    Err(_) => None,
                }
            },
            None => None,
        }
    }

    fn create_ox_definition(&mut self, word: &str, fetch: Option<oxford::Definition>) -> (r:
        Option<u64>)
        requires
            old(self).repository.wf(),
        ensures
            final(self).repository.wf(),
            ({
                let sv = spec_create_ox(old(self).repository@, word@, fetch.deep_view());
                final(self).repository@ == sv.repo && r == sv.id
            }),
            (r matches Some(v) ==> crate::db::repository::spec_ox_id_exists(
                final(self).repository@.ox_definitions,
                v,
            )),
            final(self).repository@.definitions == old(self).repository@.definitions,
            final(self).repository@.voc_definitions == old(self).repository@.voc_definitions,
    {
        match fetch {
            Some(scraped) => {
                match self.repository.save_ox_definition(scraped, word.to_owned()) {
                    Ok(id) => id,
                    Err(_) => None,
                }
            },
            None => None,
        }
    }

    fn get_voc_definition_id(&mut self, word: &str, fetch: Option<vocabulary::Definition>) -> (r:
        Option<u64>)
        requires
            old(self).repository.wf(),
        ensures
            final(self).repository.wf(),
            ({
                let sv = spec_get_or_create_voc(old(self).repository@, word@, fetch.deep_view());
                final(self).repository@ == sv.repo && r == sv.id
            }),
            (r matches Some(v) ==> crate::db::repository::spec_voc_id_exists(
                final(self).repository@.voc_definitions,
                v,
            )),
            final(self).repository@.definitions == old(self).repository@.definitions,
            final(self).repository@.ox_definitions == old(self).repository@.ox_definitions,
    {
        match self.repository.get_voc_definition_id(word) {
            Some(id) => Some(id),
            None => self.create_voc_definition(word, fetch),
        }
    }

    fn get_ox_definition_id(&mut self, word: &str, fetch: Option<oxford::Definition>) -> (r:
        Option<u64>)
        requires
            old(self).repository.wf(),
        ensures
            final(self).repository.wf(),
            ({
                let sv = spec_get_or_create_ox(old(self).repository@, word@, fetch.deep_view());
                final(self).repository@ == sv.repo && r == sv.id
            }),
            (r matches Some(v) ==> crate::db::repository::spec_ox_id_exists(
                final(self).repository@.ox_definitions,
                v,
            )),
            final(self).repository@.definitions == old(self).repository@.definitions,
            final(self).repository@.voc_definitions == old(self).repository@.voc_definitions,
    {
        match self.repository.get_ox_definition_id(word) {
            Some(id) => Some(id),
            None => self.create_ox_definition(word, fetch),
        }
    }

    fn create_definition(
        &mut self,
        word: &str,
        voc_fetch: Option<vocabulary::Definition>,
        ox_fetch: Option<oxford::Definition>,
    ) -> (r: Result<DefinitionDoc, DbErr>)
        requires
            old(self).repository.wf(),
        ensures
            final(self).repository.wf(),
            (r is Ok),
            ({
                let cd = spec_create_definition(
                    old(self).repository@,
                    word@,
                    voc_fetch.deep_view(),
                    ox_fetch.deep_view(),
                );
                final(self).repository@ == cd.0 && r->Ok_0.deep_view() == cd.1
            }),
    {
        let vocabulary_id = self.get_voc_definition_id(word, voc_fetch);
        let oxford_id = self.get_ox_definition_id(word, ox_fetch);
        let definition = DefinitionDoc { word: word.to_owned(), vocabulary_id, oxford_id };
        proof {
            assert(crate::db::repository::spec_def_refs_ok(
                definition.deep_view(),
                self.repository@.voc_definitions,
                self.repository@.ox_definitions,
            ));
        }
        match self.repository.replace_definition(&definition) {
            Ok(()) => Ok(definition),
            Err(e) => Err(e),
        }
    }

    /// Answers a lookup: on a cache hit the store is untouched; on a
    /// miss, each source's supplied fetch outcome is persisted where the
    /// store had nothing, the composite record is written, and either
    /// way the answer is assembled from the records stored for the word.
    /// A source that contributed nothing leaves its definition absent;
    /// the lookup itself still succeeds.
    pub fn get_word_definitions(
        &mut self,
        word: String,
        voc_fetch: Option<vocabulary::Definition>,
        ox_fetch: Option<oxford::Definition>,
    ) -> (r: Result<GetWordDefinitionsResponse, DbErr>)
        requires
            old(self).repository.wf(),
        ensures
            final(self).repository.wf(),
            (r is Ok),
            ({
                let gw = spec_get_word_definitions(
                    old(self).repository@,
                    word@,
                    voc_fetch.deep_view(),
                    ox_fetch.deep_view(),
                );
                final(self).repository@ == gw.0 && r->Ok_0.deep_view() == gw.1
            }),
    {
        let cached = match self.repository.get_definition(word.as_str()) {
            Ok(v) => v,
            Err(e) => {
                return Err(e);
            },
        };
        match cached {
            Some(_) => {
            },
            None => {
                match self.create_definition(word.as_str(), voc_fetch, ox_fetch) {
                    Ok(_) => {
                    },
                    Err(e) => {
                        return Err(e);
                    },
                }
            },
        }
        let voc = self.repository.get_voc_definition(word.as_str());
        let ox = self.repository.get_ox_definition(word.as_str());
        let builder = GetWordDefinitionsResponseBuilder::new(word.as_str(), voc, ox);
        Ok(builder.build())
    }

    /// Forgets the composite record for the word; source records and
    /// audio are intentionally retained for reuse.
    pub fn invalidate_word(&mut self, word: String) -> (r: Result<(), DbErr>)
        requires
            old(self).repository.wf(),
        ensures
            final(self).repository.wf(),
            (r is Ok),
            final(self).repository@.definitions == spec_remove_def(
                old(self).repository@.definitions,
                word@,
            ),
            final(self).repository@.voc_definitions == old(self).repository@.voc_definitions,
            final(self).repository@.ox_definitions == old(self).repository@.ox_definitions,
            final(self).repository@.audio == old(self).repository@.audio,
            final(self).repository@.next_id == old(self).repository@.next_id,
    {
        self.repository.delete_definition(word.as_str())
    }

    /// The stored audio blob for a rendered storage id, as a response;
    /// an id that is stored under nothing yields no response, and an id
    /// that is not a decimal number fails.
    pub fn get_audio(&self, id: String) -> (r: Result<Option<GetAudioResponse>, DbErr>)
        ensures
            (match text::spec_parse_u64(id@) {
                Some(n) => (r is Ok) && r->Ok_0.deep_view() == (match spec_find_audio(
                    self.repository@.audio,
                    n,
                ) {
                    Some(a) => Some(spec_audio_resp(a)),
                    None => None,
                }),
                None => r == Err::<Option<GetAudioResponse>, DbErr>(DbErr::ParseIdErr),
            }),
    {
        match self.repository.get_audio(id) {
            Ok(found) => Ok(
                match found {
                    Some(a) => Some(a.to_response()),
                    None => None,
                },
            ),
            Err(e) => Err(e),
        }
    }
}

/// Law: the miss-path is idempotent — after any lookup for a word the
/// composite record is cached, so a second lookup for the same word,
/// whatever fetch outcomes it is handed, is a pure cache hit: it
/// changes the store not at all and returns the same response.
pub proof fn lemma_lookup_idempotent(
    r: RepoV,
    word: Seq<char>,
    vf: Option<vocabulary::DefinitionV>,
    of: Option<oxford::DefinitionV>,
    vf2: Option<vocabulary::DefinitionV>,
    of2: Option<oxford::DefinitionV>,
)
    ensures
        ({
            let first = spec_get_word_definitions(r, word, vf, of);
            let second = spec_get_word_definitions(first.0, word, vf2, of2);
            second.0 == first.0 && second.1 == first.1
        }),
{
    let first = spec_get_word_definitions(r, word, vf, of);
    if spec_find_def(r.definitions, word) is Some {
        assert(first.0 == r);
    } else {
        let cd = spec_create_definition(r, word, vf, of);
        assert(cd.1.word == word);
        crate::db::repository::lemma_find_def_after_upsert(
            spec_get_or_create_ox(
                spec_get_or_create_voc(r, word, vf).repo,
                word,
                of,
            ).repo.definitions,
            cd.1,
        );
        assert(spec_find_def(first.0.definitions, word) is Some);
    }
}

/// Law: invalidation deletes only the composite record — afterwards the
/// direct cache read for the word finds nothing, every source record
/// and every audio blob is retained, and a following lookup for the
/// word takes the fresh miss path rather than reusing a composite
/// record.
pub proof fn lemma_invalidation_forces_fresh_lookup(
    r: RepoV,
    word: Seq<char>,
    vf: Option<vocabulary::DefinitionV>,
    of: Option<oxford::DefinitionV>,
)
    requires
        spec_repo_wf(r),
    ensures
        ({
            let r1 = RepoV { definitions: spec_remove_def(r.definitions, word), ..r };
            &&& spec_find_def(r1.definitions, word) is None
            &&& r1.voc_definitions == r.voc_definitions
            &&& r1.ox_definitions == r.ox_definitions
            &&& r1.audio == r.audio
            &&& spec_get_word_definitions(r1, word, vf, of).0 == spec_create_definition(
                r1,
                word,
                vf,
                of,
            ).0
        }),
{
    crate::db::repository::lemma_find_def_after_remove(r.definitions, word);
}

/// Law: a lookup for a word with no cached composite and no stored
/// source records, whose vocabulary fetch succeeded while the Oxford
/// fetch failed, still succeeds: its answer carries the vocabulary
/// definition and leaves the Oxford definition absent.
pub proof fn lemma_partial_failure(r: RepoV, word: Seq<char>, vf: vocabulary::DefinitionV)
    requires
        spec_repo_wf(r),
        spec_find_def(r.definitions, word) is None,
        spec_find_voc_by_word(r.voc_definitions, word) is None,
        spec_find_ox_by_word(r.ox_definitions, word) is None,
    ensures
        ({
            let gw = spec_get_word_definitions(r, word, Some(vf), None);
            &&& gw.1.word == word
            &&& gw.1.vocabulary_definition is Some
            &&& gw.1.oxford_definition is None
        }),
{
    let sv = spec_get_or_create_voc(r, word, Some(vf));
    assert(spec_voc_id_by_word(r.voc_definitions, word) is None);
    assert(sv == spec_save_voc(r, vf, word));
    let sa = crate::db::repository::spec_save_audio(
        r.audio,
        r.next_id,
        vf.id_ref,
        vf.pronunciations,
    );
    let oldvocs = r.voc_definitions;
    let newvocs = sv.repo.voc_definitions;
    let pw = crate::db::repository::voc_word_pred(word);
    let pr = crate::db::repository::voc_ref_pred(vf.id_ref);
    crate::db::repository::lemma_first_match_missing(oldvocs, pw);
    let i = crate::db::repository::first_match_index(oldvocs, pr);
    if i >= 0 {
        crate::db::repository::lemma_first_match_found(oldvocs, pr);
        assert(newvocs[i].searched_word == word);
        assert(forall|j: int| 0 <= j < i ==> newvocs[j] == #[trigger] oldvocs[j]);
        crate::db::repository::lemma_first_match_at(newvocs, pw, i);
    } else {
        assert(newvocs[oldvocs.len() as int].searched_word == word);
        assert(forall|j: int| 0 <= j < oldvocs.len() ==> newvocs[j] == #[trigger] oldvocs[j]);
        crate::db::repository::lemma_first_match_at(newvocs, pw, oldvocs.len() as int);
    }
    assert(spec_find_voc_by_word(newvocs, word) is Some);
    let so = spec_get_or_create_ox(sv.repo, word, None);
    assert(sv.repo.ox_definitions == r.ox_definitions);
    assert(so.repo.voc_definitions == newvocs);
    assert(so.repo.ox_definitions == r.ox_definitions);
    let gw = spec_get_word_definitions(r, word, Some(vf), None);
    assert(gw.0.voc_definitions == newvocs);
    assert(gw.0.ox_definitions == r.ox_definitions);
}

/// Law: the mirror case — the Oxford fetch succeeded while the
/// vocabulary fetch failed: the lookup still succeeds, answering with
/// the Oxford definition and leaving the vocabulary definition absent.
pub proof fn lemma_partial_failure_oxford(r: RepoV, word: Seq<char>, of: oxford::DefinitionV)
    requires
        spec_repo_wf(r),
        spec_find_def(r.definitions, word) is None,
        spec_find_voc_by_word(r.voc_definitions, word) is None,
        spec_find_ox_by_word(r.ox_definitions, word) is None,
    ensures
        ({
            let gw = spec_get_word_definitions(r, word, None, Some(of));
            &&& gw.1.word == word
            &&& gw.1.vocabulary_definition is None
            &&& gw.1.oxford_definition is Some
        }),
{
    let sv = spec_get_or_create_voc(r, word, None);
    assert(spec_voc_id_by_word(r.voc_definitions, word) is None);
    assert(sv.repo == r);
    let so = spec_get_or_create_ox(r, word, Some(of));
    assert(spec_ox_id_by_word(r.ox_definitions, word) is None);
    assert(so == spec_save_ox(r, of, word));
    let oldoxs = r.ox_definitions;
    let newoxs = so.repo.ox_definitions;
    let pw = crate::db::repository::ox_word_pred(word);
    let pr = crate::db::repository::ox_ref_pred(of.id_ref);
    crate::db::repository::lemma_first_match_missing(oldoxs, pw);
    let i = crate::db::repository::first_match_index(oldoxs, pr);
    if i >= 0 {
        crate::db::repository::lemma_first_match_found(oldoxs, pr);
        assert(newoxs[i].searched_word == word);
        assert(forall|j: int| 0 <= j < i ==> newoxs[j] == #[trigger] oldoxs[j]);
        crate::db::repository::lemma_first_match_at(newoxs, pw, i);
    } else {
        assert(newoxs[oldoxs.len() as int].searched_word == word);
        assert(forall|j: int| 0 <= j < oldoxs.len() ==> newoxs[j] == #[trigger] oldoxs[j]);
        crate::db::repository::lemma_first_match_at(newoxs, pw, oldoxs.len() as int);
    }
    assert(spec_find_ox_by_word(newoxs, word) is Some);
    let gw = spec_get_word_definitions(r, word, None, Some(of));
    assert(gw.0.voc_definitions == r.voc_definitions);
    assert(gw.0.ox_definitions == newoxs);
}

} // verus!
