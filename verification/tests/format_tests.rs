use gwent::format::AudioFormat;
use reqwest::header::HeaderValue;

#[test]
fn lower_case_mp3_selects_mp3() {
    assert_eq!(AudioFormat::parse(Some("mp3")), AudioFormat::Mp3);
}

#[test]
fn upper_case_mp3_selects_mp3() {
    assert_eq!(AudioFormat::parse(Some("MP3")), AudioFormat::Mp3);
}

#[test]
fn mixed_case_mp3_selects_mp3() {
    assert_eq!(AudioFormat::parse(Some("Mp3")), AudioFormat::Mp3);
    assert_eq!(AudioFormat::parse(Some("mP3")), AudioFormat::Mp3);
}

#[test]
fn no_preference_selects_ogg() {
    assert_eq!(AudioFormat::parse(None), AudioFormat::Ogg);
}

#[test]
fn empty_preference_selects_ogg() {
    assert_eq!(AudioFormat::parse(Some("")), AudioFormat::Ogg);
}

#[test]
fn other_preferences_select_ogg() {
    assert_eq!(AudioFormat::parse(Some("wav")), AudioFormat::Ogg);
    assert_eq!(AudioFormat::parse(Some("ogg")), AudioFormat::Ogg);
    assert_eq!(AudioFormat::parse(Some("mp4")), AudioFormat::Ogg);
    assert_eq!(AudioFormat::parse(Some("mp3 ")), AudioFormat::Ogg);
    assert_eq!(AudioFormat::parse(Some(" mp3")), AudioFormat::Ogg);
    assert_eq!(AudioFormat::parse(Some("mp")), AudioFormat::Ogg);
    assert_eq!(AudioFormat::parse(Some("m\u{00fe}3")), AudioFormat::Ogg);
    assert_eq!(AudioFormat::parse(Some("\u{ff4d}p3")), AudioFormat::Ogg);
}

#[test]
fn parse_agrees_with_ascii_case_folding() {
    let samples = [
        "mp3", "MP3", "Mp3", "mP3", "", "m", "mp", "mp33", "ogg", "OGG", "wav", "mp\u{00b3}",
        "\u{212a}p3", "np3", "mq3", "mp2",
    ];
    for s in samples {
        let expected = if s.eq_ignore_ascii_case("mp3") {
            AudioFormat::Mp3
        } else {
            AudioFormat::Ogg
        };
        assert_eq!(AudioFormat::parse(Some(s)), expected, "{s:?}");
    }
}

#[test]
fn format_names() {
    assert_eq!(AudioFormat::Mp3.as_str(), "mp3");
    assert_eq!(AudioFormat::Ogg.as_str(), "ogg");
}

#[test]
fn content_type_names() {
    assert_eq!(AudioFormat::Mp3.content_type(), "audio/mpeg");
    assert_eq!(AudioFormat::Ogg.content_type(), "audio/ogg");
}

#[test]
fn default_content_types() {
    assert_eq!(
        AudioFormat::Mp3.default_content_type(),
        HeaderValue::from_static("audio/mpeg")
    );
    assert_eq!(
        AudioFormat::Ogg.default_content_type(),
        HeaderValue::from_static("audio/ogg")
    );
    assert_eq!(AudioFormat::Ogg.default_content_type().as_bytes(), b"audio/ogg");
    assert!(!AudioFormat::Ogg.default_content_type().is_sensitive());
}
