use gwent::reconcile::{
    compare_voices, compare_with_body, daemon_voice_ids, ids_only_in, voice_ids_of, Notice,
    VoicesError,
};

fn ids(list: &[&str]) -> Vec<String> {
    list.iter().map(|s| s.to_string()).collect()
}

#[test]
fn plain_strings_are_identifiers() {
    assert_eq!(daemon_voice_ids(br#"["en-a","en-b"]"#), Ok(ids(&["en-a", "en-b"])));
}

#[test]
fn objects_give_their_id() {
    assert_eq!(
        daemon_voice_ids(br#"[{"id":"en-a","name":"Alice"},{"name":"x","id":"en-b"}]"#),
        Ok(ids(&["en-a", "en-b"]))
    );
}

#[test]
fn strings_and_objects_may_be_mixed() {
    assert_eq!(
        daemon_voice_ids(br#"["en-a",{"id":"en-b"},"en-c"]"#),
        Ok(ids(&["en-a", "en-b", "en-c"]))
    );
}

#[test]
fn other_elements_are_skipped() {
    assert_eq!(
        daemon_voice_ids(
            br#"[1, null, true, ["en-x"], {"name":"no id"}, {"id": 7}, {"id": null}, {"ID":"en-y"}, "en-a", {}]"#
        ),
        Ok(ids(&["en-a"]))
    );
}

#[test]
fn an_identifier_is_reported_once() {
    assert_eq!(
        daemon_voice_ids(br#"["en-a",{"id":"en-a"},"en-b","en-a"]"#),
        Ok(ids(&["en-a", "en-b"]))
    );
}

#[test]
fn an_empty_array_reports_nothing() {
    assert_eq!(daemon_voice_ids(b"[]"), Ok(Vec::new()));
    assert_eq!(daemon_voice_ids(b" [ ] \n"), Ok(Vec::new()));
}

#[test]
fn escapes_are_decoded() {
    assert_eq!(daemon_voice_ids(br#"["en\u002da","\"q\""]"#), Ok(ids(&["en-a", "\"q\""])));
}

#[test]
fn a_document_that_is_no_array_is_an_error() {
    for body in [&br#"{"voices":["en-a"]}"#[..], b"\"en-a\"", b"3", b"null", b"true"] {
        assert_eq!(daemon_voice_ids(body), Err(VoicesError::NotAnArray));
    }
}

#[test]
fn a_body_that_is_no_json_is_an_error() {
    for body in [&b""[..], b"[", b"[\"en-a\",]", b"<html>", b"[] []", b"\xff\xfe"] {
        assert_eq!(daemon_voice_ids(body), Err(VoicesError::NotJson));
    }
}

#[test]
fn identifiers_of_a_parsed_document() {
    let document: serde_json::Value = serde_json::from_str(r#"["a",{"id":"b"},5]"#).unwrap();
    assert_eq!(voice_ids_of(&document), Ok(ids(&["a", "b"])));
    let document: serde_json::Value = serde_json::from_str(r#"{"id":"b"}"#).unwrap();
    assert_eq!(voice_ids_of(&document), Err(VoicesError::NotAnArray));
}

#[test]
fn difference_of_two_lists() {
    assert_eq!(
        ids_only_in(&ids(&["en-a", "en-c"]), &ids(&["en-a", "en-b"])),
        ids(&["en-c"])
    );
    assert_eq!(
        ids_only_in(&ids(&["en-a", "en-b"]), &ids(&["en-a", "en-c"])),
        ids(&["en-b"])
    );
}

#[test]
fn difference_keeps_order_and_drops_repeats() {
    assert_eq!(
        ids_only_in(&ids(&["z", "a", "z", "m", "a", "k"]), &ids(&["m"])),
        ids(&["z", "a", "k"])
    );
}

#[test]
fn difference_with_empty_lists() {
    assert_eq!(ids_only_in(&ids(&[]), &ids(&["a"])), ids(&[]));
    assert_eq!(ids_only_in(&ids(&["a", "b"]), &ids(&[])), ids(&["a", "b"]));
    assert_eq!(ids_only_in(&ids(&["a", "b"]), &ids(&["b", "a"])), ids(&[]));
}

#[test]
fn missing_and_additional_voices_are_reported() {
    let notices = compare_voices(&ids(&["en-a", "en-c"]), &ids(&["en-a", "en-b"]));
    assert_eq!(
        notices,
        vec![
            Notice::MissingFromDaemon { ids: ids(&["en-c"]) },
            Notice::AdditionalInDaemon { ids: ids(&["en-b"]) },
        ]
    );
}

#[test]
fn only_missing_voices_are_reported() {
    assert_eq!(
        compare_voices(&ids(&["en-a", "en-c"]), &ids(&["en-a"])),
        vec![Notice::MissingFromDaemon { ids: ids(&["en-c"]) }]
    );
}

#[test]
fn only_additional_voices_are_reported() {
    assert_eq!(
        compare_voices(&ids(&["en-a"]), &ids(&["en-b", "en-a", "en-d"])),
        vec![Notice::AdditionalInDaemon { ids: ids(&["en-b", "en-d"]) }]
    );
}

#[test]
fn equal_sets_report_nothing() {
    assert_eq!(compare_voices(&ids(&["en-a", "en-b"]), &ids(&["en-b", "en-a"])), vec![]);
    assert_eq!(compare_voices(&ids(&[]), &ids(&[])), vec![]);
}

#[test]
fn a_body_is_compared_with_the_known_voices() {
    assert_eq!(
        compare_with_body(&ids(&["en-a", "en-c"]), br#"["en-a",{"id":"en-b"}]"#),
        vec![
            Notice::MissingFromDaemon { ids: ids(&["en-c"]) },
            Notice::AdditionalInDaemon { ids: ids(&["en-b"]) },
        ]
    );
}

#[test]
fn an_unreadable_body_gives_one_notice() {
    assert_eq!(
        compare_with_body(&ids(&["en-a"]), b"{}"),
        vec![Notice::VoicesUnreadable { error: VoicesError::NotAnArray }]
    );
    assert_eq!(
        compare_with_body(&ids(&["en-a"]), b"oops"),
        vec![Notice::VoicesUnreadable { error: VoicesError::NotJson }]
    );
}
