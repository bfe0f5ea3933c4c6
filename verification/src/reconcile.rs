//! The start-up comparison of the catalog with what the daemon reports.

use vstd::prelude::*;
use vstd::string::*;

use serde_json::Value;

use crate::json::{
    json_document, json_items, json_member, json_text, parse_document, value_as_array,
    value_as_str, value_member,
};
use crate::text::{contains_text, distinct, lemma_distinct_keeps_members, texts};

verus! {

/// The identifier that one element of the daemon's list gives: a string is
/// its own identifier, an object gives the string under `id`, anything else
/// gives none.
pub open spec fn entry_id(entry: Value) -> Option<Seq<char>> {
    match json_text(entry) {
        Some(id) => Some(id),
        None => match json_member(entry, "id"@) {
            Some(member) => json_text(member),
            None => None,
        },
    }
}

/// The identifiers that a list of elements gives, each once, in the order in
/// which they first occur.
pub open spec fn reported_ids(entries: Seq<Value>) -> Seq<Seq<char>>
    decreases entries.len(),
{
    if entries.len() == 0 {
        Seq::empty()
    } else {
        let earlier = reported_ids(entries.drop_last());
        match entry_id(entries.last()) {
            Some(id) if !earlier.contains(id) => earlier.push(id),
            _ => earlier,
        }
    }
}

/// Why the daemon's voices could not be read.
#[derive(Clone, Copy, Debug, PartialEq, Eq, Structural)]
pub enum VoicesError {
    /// The body is not JSON.
    NotJson,
    /// The body is JSON but not an array.
    NotAnArray,
}

/// The identifiers in a document that the daemon sent: those of the
/// elements of an array, and an error for any other document.
pub fn voice_ids_of(document: &Value) -> (ids: Result<Vec<String>, VoicesError>)
    ensures
        match ids {
            Ok(list) => json_items(*document) matches Some(entries) && texts(list@)
                == reported_ids(entries),
            Err(e) => json_items(*document) is None && e == VoicesError::NotAnArray,
        },
{
    let entries = match value_as_array(document) {
        Some(entries) => entries,
        None => {
            return Err(VoicesError::NotAnArray);
        },
    };
    let mut ids: Vec<String> = Vec::new();
    let mut i: usize = 0;
    assert(entries@.take(0) =~= Seq::<Value>::empty());
    assert(texts(ids@) =~= Seq::<Seq<char>>::empty());
    while i < entries.len()
        invariant
            i <= entries.len(),
            texts(ids@) == reported_ids(entries@.take(i as int)),
        decreases entries.len() - i,
    {
        let entry = &entries[i];
        let found: Option<&str> = match value_as_str(entry) {
            Some(id) => Some(id),
            None => match value_member(entry, "id") {
                Some(member) => value_as_str(member),
                None => None,
            },
        };
        proof {
            let next = entries@.take(i + 1);
            assert(next.drop_last() =~= entries@.take(i as int));
            assert(next.last() == *entry);
            assert(match found {
                Some(id) => entry_id(*entry) == Some(id@),
                None => entry_id(*entry) is None,
            });
        }
        if let Some(id) = found {
            if !contains_text(&ids, id) {
                let ghost before = ids@;
                ids.push(String::from_str(id));
                assert(texts(ids@) =~= texts(before).push(id@));
            }
        }
        i = i + 1;
    }
    assert(entries@.take(i as int) =~= entries@);
    Ok(ids)
}

/// The identifiers in the body of the daemon's answer.
pub fn daemon_voice_ids(body: &[u8]) -> (ids: Result<Vec<String>, VoicesError>)
    ensures
        match ids {
            Ok(list) => json_document(body@) matches Some(document) && json_items(document)
                matches Some(entries) && texts(list@) == reported_ids(entries),
            Err(VoicesError::NotJson) => json_document(body@) is None,
            Err(VoicesError::NotAnArray) => json_document(body@) matches Some(document)
                && json_items(document) is None,
        },
{
    match parse_document(body) {
        Some(document) => voice_ids_of(&document),
        None => Err(VoicesError::NotJson),
    }
}

/// The members of `ours` that `theirs` lacks, each once, in the order in
/// which they first occur in `ours`.
pub open spec fn only_in(ours: Seq<Seq<char>>, theirs: Seq<Seq<char>>) -> Seq<Seq<char>>
    decreases ours.len(),
{
    if ours.len() == 0 {
        Seq::empty()
    } else {
        let earlier = only_in(ours.drop_last(), theirs);
        let id = ours.last();
        if !theirs.contains(id) && !earlier.contains(id) {
            earlier.push(id)
        } else {
            earlier
        }
    }
}

/// The identifiers of `ours` that `theirs` lacks.
pub fn ids_only_in(ours: &Vec<String>, theirs: &Vec<String>) -> (ids: Vec<String>)
    ensures
        texts(ids@) == only_in(texts(ours@), texts(theirs@)),
{
    let mut ids: Vec<String> = Vec::new();
    let mut i: usize = 0;
    assert(texts(ours@).take(0) =~= Seq::<Seq<char>>::empty());
    assert(texts(ids@) =~= Seq::<Seq<char>>::empty());
    while i < ours.len()
        invariant
            i <= ours.len(),
            texts(ids@) == only_in(texts(ours@).take(i as int), texts(theirs@)),
        decreases ours.len() - i,
    {
        let id = ours[i].as_str();
        proof {
            let next = texts(ours@).take(i + 1);
            assert(next.drop_last() =~= texts(ours@).take(i as int));
            assert(next.last() == id@);
        }
        if !contains_text(theirs, id) && !contains_text(&ids, id) {
            let ghost before = ids@;
            ids.push(String::from_str(id));
            assert(texts(ids@) =~= texts(before).push(id@));
        }
        i = i + 1;
    }
    assert(texts(ours@).take(i as int) =~= texts(ours@));
    ids
}

/// An identifier is among those only in `ours` exactly when `ours` has it
/// and `theirs` lacks it.
pub proof fn lemma_only_in_is_difference(
    ours: Seq<Seq<char>>,
    theirs: Seq<Seq<char>>,
    id: Seq<char>,
)
    ensures
        only_in(ours, theirs).contains(id) <==> ours.contains(id) && !theirs.contains(id),
    decreases ours.len(),
{
    if ours.len() > 0 {
        let earlier = only_in(ours.drop_last(), theirs);
        let last = ours.last();
        lemma_only_in_is_difference(ours.drop_last(), theirs, id);
        if ours.contains(id) {
            let k = choose|k: int| 0 <= k < ours.len() && ours[k] == id;
            if k < ours.len() - 1 {
                assert(ours.drop_last()[k] == id);
            }
        }
        if ours.drop_last().contains(id) {
            let k = choose|k: int| 0 <= k < ours.drop_last().len() && ours.drop_last()[k] == id;
            assert(ours[k] == id);
        }
        assert(ours[ours.len() - 1] == last);
        if !theirs.contains(last) && !earlier.contains(last) {
            let grown = earlier.push(last);
            assert(grown[earlier.len() as int] == last);
            if earlier.contains(id) {
                let k = choose|k: int| 0 <= k < earlier.len() && earlier[k] == id;
                assert(grown[k] == id);
            }
            if grown.contains(id) {
                let k = choose|k: int| 0 <= k < grown.len() && grown[k] == id;
                if k < earlier.len() {
                    assert(earlier[k] == id);
                }
            }
        }
    }
}

/// No identifier occurs twice among those only in `ours`.
pub proof fn lemma_only_in_has_no_duplicates(ours: Seq<Seq<char>>, theirs: Seq<Seq<char>>)
    ensures
        only_in(ours, theirs).no_duplicates(),
    decreases ours.len(),
{
    if ours.len() > 0 {
        lemma_only_in_has_no_duplicates(ours.drop_last(), theirs);
    }
}

/// An identifier is reported exactly when some element of the list gives it.
pub proof fn lemma_reported_ids_are_the_entries(entries: Seq<Value>, id: Seq<char>)
    ensures
        reported_ids(entries).contains(id) <==> exists|k: int|
            0 <= k < entries.len() && entry_id(#[trigger] entries[k]) == Some(id),
    decreases entries.len(),
{
    if entries.len() > 0 {
        let shorter = entries.drop_last();
        let earlier = reported_ids(shorter);
        lemma_reported_ids_are_the_entries(shorter, id);
        if exists|k: int| 0 <= k < shorter.len() && entry_id(#[trigger] shorter[k]) == Some(id) {
            let k = choose|k: int|
                0 <= k < shorter.len() && entry_id(#[trigger] shorter[k]) == Some(id);
            assert(entries[k] == shorter[k]);
        }
        if exists|k: int| 0 <= k < entries.len() && entry_id(#[trigger] entries[k]) == Some(id) {
            let k = choose|k: int|
                0 <= k < entries.len() && entry_id(#[trigger] entries[k]) == Some(id);
            if k < shorter.len() {
                assert(shorter[k] == entries[k]);
            }
        }
        match entry_id(entries.last()) {
            Some(last) => {
                if !earlier.contains(last) {
                    let grown = earlier.push(last);
                    assert(grown[earlier.len() as int] == last);
                    if earlier.contains(id) {
                        let k = choose|k: int| 0 <= k < earlier.len() && earlier[k] == id;
                        assert(grown[k] == id);
                    }
                    if grown.contains(id) {
                        let k = choose|k: int| 0 <= k < grown.len() && grown[k] == id;
                        if k < earlier.len() {
                            assert(earlier[k] == id);
                        }
                    }
                }
            },
            None => {},
        }
    }
}

/// No identifier is reported twice.
pub proof fn lemma_reported_ids_have_no_duplicates(entries: Seq<Value>)
    ensures
        reported_ids(entries).no_duplicates(),
    decreases entries.len(),
{
    if entries.len() > 0 {
        lemma_reported_ids_have_no_duplicates(entries.drop_last());
    }
}

/// What is only in `ours` does not depend on how often `ours` names a
/// member.
pub proof fn lemma_only_in_ignores_repeats(ours: Seq<Seq<char>>, theirs: Seq<Seq<char>>)
    ensures
        only_in(distinct(ours), theirs) == only_in(ours, theirs),
    decreases ours.len(),
{
    if ours.len() > 0 {
        let shorter = ours.drop_last();
        let last = ours.last();
        let once = distinct(shorter);
        lemma_only_in_ignores_repeats(shorter, theirs);
        if once.contains(last) {
            lemma_distinct_keeps_members(shorter, last);
            lemma_only_in_is_difference(shorter, theirs, last);
        } else {
            assert(once.push(last).drop_last() =~= once);
            assert(once.push(last).last() == last);
        }
    }
}

/// What is only in `ours` depends on the other list through its members
/// alone.
pub proof fn lemma_only_in_sees_members_only(
    ours: Seq<Seq<char>>,
    theirs: Seq<Seq<char>>,
    others: Seq<Seq<char>>,
)
    requires
        forall|id: Seq<char>| theirs.contains(id) <==> others.contains(id),
    ensures
        only_in(ours, theirs) == only_in(ours, others),
    decreases ours.len(),
{
    if ours.len() > 0 {
        lemma_only_in_sees_members_only(ours.drop_last(), theirs, others);
    }
}

/// One line for the log that the comparison produces.
#[derive(Clone, Debug, PartialEq, Eq)]
pub enum Notice {
    /// The daemon answered the health check with success.
    HealthPassed,
    /// The daemon answered the health check with another status.
    HealthRejected { status: u16 },
    /// The health check did not reach the daemon.
    Unreachable { reason: String },
    /// The request for the voices failed in transport.
    VoicesFailed { reason: String },
    /// The daemon answered the request for the voices with an error status.
    VoicesRefused { status: u16 },
    /// The daemon's list of voices could not be read.
    VoicesUnreadable { error: VoicesError },
    /// Voices of the catalog that the daemon does not report.
    MissingFromDaemon { ids: Vec<String> },
    /// Voices that the daemon reports and the catalog lacks.
    AdditionalInDaemon { ids: Vec<String> },
    /// An event arrived that the probe was not waiting for.
    OutOfTurn,
}

/// What a notice says, as plain values.
pub enum NoticeView {
    HealthPassed,
    HealthRejected { status: u16 },
    Unreachable { reason: Seq<char> },
    VoicesFailed { reason: Seq<char> },
    VoicesRefused { status: u16 },
    VoicesUnreadable { error: VoicesError },
    MissingFromDaemon { ids: Seq<Seq<char>> },
    AdditionalInDaemon { ids: Seq<Seq<char>> },
    OutOfTurn,
}

impl View for Notice {
    type V = NoticeView;

    open spec fn view(&self) -> NoticeView {
        match *self {
            Notice::HealthPassed => NoticeView::HealthPassed,
            Notice::HealthRejected { status } => NoticeView::HealthRejected { status },
            Notice::Unreachable { reason } => NoticeView::Unreachable { reason: reason@ },
            Notice::VoicesFailed { reason } => NoticeView::VoicesFailed { reason: reason@ },
            Notice::VoicesRefused { status } => NoticeView::VoicesRefused { status },
            Notice::VoicesUnreadable { error } => NoticeView::VoicesUnreadable { error },
            Notice::MissingFromDaemon { ids } => NoticeView::MissingFromDaemon { ids: texts(ids@) },
            Notice::AdditionalInDaemon { ids } => NoticeView::AdditionalInDaemon {
                ids: texts(ids@),
            },
            Notice::OutOfTurn => NoticeView::OutOfTurn,
        }
    }
}

/// What a list of notices says, in order.
pub open spec fn notice_views(notices: Seq<Notice>) -> Seq<NoticeView> {
    notices.map_values(|n: Notice| n@)
}

/// The notices for two lists of identifiers: one for the known identifiers
/// that were not reported, if there are any, then one for the reported
/// identifiers that are not known, if there are any.
pub open spec fn comparison(known: Seq<Seq<char>>, reported: Seq<Seq<char>>) -> Seq<NoticeView> {
    let missing = only_in(known, reported);
    let extra = only_in(reported, known);
    let first = if missing.len() > 0 {
        seq![NoticeView::MissingFromDaemon { ids: missing }]
    } else {
        Seq::empty()
    };
    if extra.len() > 0 {
        first.push(NoticeView::AdditionalInDaemon { ids: extra })
    } else {
        first
    }
}

/// Compares the identifiers of the catalog with those that the daemon
/// reported.
pub fn compare_voices(known: &Vec<String>, reported: &Vec<String>) -> (notices: Vec<Notice>)
    ensures
        notice_views(notices@) == comparison(texts(known@), texts(reported@)),
{
    let missing = ids_only_in(known, reported);
    let extra = ids_only_in(reported, known);
    let mut notices: Vec<Notice> = Vec::new();
    if missing.len() > 0 {
        notices.push(Notice::MissingFromDaemon { ids: missing });
    }
    if extra.len() > 0 {
        notices.push(Notice::AdditionalInDaemon { ids: extra });
    }
    assert(notice_views(notices@) =~= comparison(texts(known@), texts(reported@)));
    notices
}

/// The comparison does not depend on how often the known identifiers are
/// named.
pub proof fn lemma_comparison_ignores_repeats(known: Seq<Seq<char>>, reported: Seq<Seq<char>>)
    ensures
        comparison(distinct(known), reported) == comparison(known, reported),
{
    lemma_only_in_ignores_repeats(known, reported);
    assert forall|id: Seq<char>| distinct(known).contains(id) <==> known.contains(id) by {
        lemma_distinct_keeps_members(known, id);
    }
    lemma_only_in_sees_members_only(reported, distinct(known), known);
}

/// The notices for the body of the daemon's answer.
pub open spec fn body_notices(known: Seq<Seq<char>>, body: Seq<u8>) -> Seq<NoticeView> {
    match json_document(body) {
        None => seq![NoticeView::VoicesUnreadable { error: VoicesError::NotJson }],
        Some(document) => match json_items(document) {
            None => seq![NoticeView::VoicesUnreadable { error: VoicesError::NotAnArray }],
            Some(entries) => comparison(known, reported_ids(entries)),
        },
    }
}

/// The notices for a body do not depend on how often the known identifiers
/// are named.
pub proof fn lemma_body_notices_ignore_repeats(known: Seq<Seq<char>>, body: Seq<u8>)
    ensures
        body_notices(distinct(known), body) == body_notices(known, body),
{
    match json_document(body) {
        Some(document) => match json_items(document) {
            Some(entries) => lemma_comparison_ignores_repeats(known, reported_ids(entries)),
            None => {},
        },
        None => {},
    }
}

/// Reads the daemon's voices from a body and compares them with the known
/// identifiers.
pub fn compare_with_body(known: &Vec<String>, body: &[u8]) -> (notices: Vec<Notice>)
    ensures
        notice_views(notices@) == body_notices(texts(known@), body@),
{
    match daemon_voice_ids(body) {
        Ok(reported) => compare_voices(known, &reported),
        Err(error) => {
            let notices = vec![Notice::VoicesUnreadable { error }];
            assert(notice_views(notices@) =~= body_notices(texts(known@), body@));
            notices
        },
    }
}

} // verus!
