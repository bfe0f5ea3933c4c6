//! The table of voices that the relay knows.

use vstd::prelude::*;
use vstd::string::*;

use crate::text::{
    contains_text, distinct, lemma_distinct_has_no_duplicates, lemma_distinct_keeps_members, texts,
};

verus! {

/// One voice of the catalog.
#[derive(Clone, Debug, PartialEq, Eq)]
pub struct Voice {
    pub id: String,
    pub name: String,
}

/// The identifiers of a list of voices, in order.
pub open spec fn voice_ids(voices: Seq<Voice>) -> Seq<Seq<char>> {
    voices.map_values(|v: Voice| v.id@)
}

/// The voices of the catalog as they were loaded.
pub fn get_raw_voices(catalog: &Vec<Voice>) -> (voices: &[Voice])
    ensures
        voices@ == catalog@,
{
    catalog.as_slice()
}

/// Whether the catalog holds a voice with this identifier.
pub fn check_voice(catalog: &Vec<Voice>, voice: &str) -> (known: bool)
    ensures
        known == voice_ids(catalog@).contains(voice@),
{
    let mut i: usize = 0;
    while i < catalog.len()
        invariant
            i <= catalog.len(),
            forall|k: int| 0 <= k < i ==> catalog@[k].id@ != voice@,
        decreases catalog.len() - i,
    {
        if catalog[i].id.as_str().eq(voice) {
            assert(voice_ids(catalog@)[i as int] == voice@);
            return true;
        }
        i = i + 1;
    }
    false
}

/// The identifiers of the catalog's voices as a set: each once, in the order
/// in which the catalog first names it.
pub fn get_voices(catalog: &Vec<Voice>) -> (ids: Vec<String>)
    ensures
        texts(ids@) == distinct(voice_ids(catalog@)),
        texts(ids@).no_duplicates(),
        forall|id: Seq<char>| texts(ids@).contains(id) <==> voice_ids(catalog@).contains(id),
{
    let mut ids: Vec<String> = Vec::new();
    let mut i: usize = 0;
    assert(voice_ids(catalog@).take(0) =~= Seq::<Seq<char>>::empty());
    assert(texts(ids@) =~= Seq::<Seq<char>>::empty());
    while i < catalog.len()
        invariant
            i <= catalog.len(),
            texts(ids@) == distinct(voice_ids(catalog@).take(i as int)),
        decreases catalog.len() - i,
    {
        let id = catalog[i].id.as_str();
        proof {
            let next = voice_ids(catalog@).take(i + 1);
            assert(next.drop_last() =~= voice_ids(catalog@).take(i as int));
            assert(next.last() == id@);
        }
        if !contains_text(&ids, id) {
            let ghost before = ids@;
            ids.push(String::from_str(id));
            assert(texts(ids@) =~= texts(before).push(id@));
        }
        i = i + 1;
    }
    assert(voice_ids(catalog@).take(i as int) =~= voice_ids(catalog@));
    proof {
        lemma_distinct_has_no_duplicates(voice_ids(catalog@));
        assert forall|id: Seq<char>| texts(ids@).contains(id) <==> voice_ids(catalog@).contains(
            id,
        ) by {
            lemma_distinct_keeps_members(voice_ids(catalog@), id);
        }
    }
    ids
}

/// What a cell holds after `voices` were offered to it: what it held
/// before, if it held a catalog, else `voices`.
pub open spec fn loaded(before: Option<Seq<Voice>>, voices: Seq<Voice>) -> Option<Seq<Voice>> {
    match before {
        Some(earlier) => Some(earlier),
        None => Some(voices),
    }
}

/// A place for the catalog that is filled at most once and never changes
/// afterwards.
pub struct CatalogCell {
    slot: Option<Vec<Voice>>,
}

impl CatalogCell {
    /// The catalog held, if the cell was filled.
    pub closed spec fn content(&self) -> Option<Seq<Voice>> {
        match self.slot {
            Some(voices) => Some(voices@),
            None => None,
        }
    }

    /// An empty cell.
    pub fn new() -> (cell: CatalogCell)
        ensures
            cell.content() is None,
    {
        CatalogCell { slot: None }
    }

    /// The catalog, once it was loaded.
    pub fn get(&self) -> (catalog: Option<&Vec<Voice>>)
        ensures
            match catalog {
                Some(voices) => self.content() == Some(voices@),
                None => self.content() is None,
            },
    {
        self.slot.as_ref()
    }

    /// Fills an empty cell with `voices`; a cell that holds a catalog keeps
    /// it and drops `voices`. Tells whether the cell took them.
    pub fn load(&mut self, voices: Vec<Voice>) -> (taken: bool)
        ensures
            taken == (old(self).content() is None),
            final(self).content() == loaded(old(self).content(), voices@),
    {
        if self.slot.is_none() {
            self.slot = Some(voices);
            true
        } else {
            false
        }
    }
}

/// Loading is idempotent: after the first load the cell holds a catalog, and
/// every later load, whatever it offers, leaves that catalog as it is.
pub proof fn lemma_load_is_idempotent(
    before: Option<Seq<Voice>>,
    first: Seq<Voice>,
    second: Seq<Voice>,
)
    ensures
        loaded(before, first) is Some,
        loaded(loaded(before, first), second) == loaded(before, first),
        before is None ==> loaded(loaded(before, first), second) == Some(first),
{
}

} // verus!
