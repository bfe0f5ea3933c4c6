//! Small helpers on strings that the other modules share.

use vstd::prelude::*;
use vstd::string::*;

verus! {

/// The character sequences of a list of strings, in order.
pub open spec fn texts(list: Seq<String>) -> Seq<Seq<char>> {
    list.map_values(|s: String| s@)
}

/// `str`'s `==`: two string slices are equal exactly when they hold the same
/// characters.
pub assume_specification[ <str as PartialEq>::eq ](a: &str, b: &str) -> (same: bool)
    ensures
        same == (a@ == b@),
;

/// Whether `list` holds a string with the characters of `wanted`.
pub fn contains_text(list: &Vec<String>, wanted: &str) -> (found: bool)
    ensures
        found == texts(list@).contains(wanted@),
{
    let mut i: usize = 0;
    while i < list.len()
        invariant
            i <= list.len(),
            forall|k: int| 0 <= k < i ==> list@[k]@ != wanted@,
        decreases list.len() - i,
    {
        if list[i].as_str().eq(wanted) {
            assert(texts(list@)[i as int] == wanted@);
            return true;
        }
        i = i + 1;
    }
    false
}

/// The members of a list, each once, in the order in which they first
/// occur.
pub open spec fn distinct(list: Seq<Seq<char>>) -> Seq<Seq<char>>
    decreases list.len(),
{
    if list.len() == 0 {
        Seq::empty()
    } else {
        let earlier = distinct(list.drop_last());
        if earlier.contains(list.last()) {
            earlier
        } else {
            earlier.push(list.last())
        }
    }
}

/// Nothing occurs twice among the distinct members of a list.
pub proof fn lemma_distinct_has_no_duplicates(list: Seq<Seq<char>>)
    ensures
        distinct(list).no_duplicates(),
    decreases list.len(),
{
    if list.len() > 0 {
        lemma_distinct_has_no_duplicates(list.drop_last());
    }
}

/// The distinct members of a list are its members, all of them.
pub proof fn lemma_distinct_keeps_members(list: Seq<Seq<char>>, wanted: Seq<char>)
    ensures
        distinct(list).contains(wanted) <==> list.contains(wanted),
    decreases list.len(),
{
    if list.len() > 0 {
        let shorter = list.drop_last();
        let earlier = distinct(shorter);
        lemma_distinct_keeps_members(shorter, wanted);
        lemma_distinct_keeps_members(shorter, list.last());
        assert(list[list.len() - 1] == list.last());
        if list.contains(wanted) {
            let k = choose|k: int| 0 <= k < list.len() && list[k] == wanted;
            if k < list.len() - 1 {
                assert(shorter[k] == wanted);
            }
        }
        if shorter.contains(wanted) {
            let k = choose|k: int| 0 <= k < shorter.len() && shorter[k] == wanted;
            assert(list[k] == wanted);
        }
        if !earlier.contains(list.last()) {
            let grown = earlier.push(list.last());
            assert(grown[earlier.len() as int] == list.last());
            if earlier.contains(wanted) {
                let k = choose|k: int| 0 <= k < earlier.len() && earlier[k] == wanted;
                assert(grown[k] == wanted);
            }
            if grown.contains(wanted) {
                let k = choose|k: int| 0 <= k < grown.len() && grown[k] == wanted;
                if k < earlier.len() {
                    assert(earlier[k] == wanted);
                }
            }
        }
    }
}

} // verus!
