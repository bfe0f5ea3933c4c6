//! Audio formats the relay can ask the daemon for.

use vstd::prelude::*;
use vstd::string::*;
use vstd::utf8::encode_utf8;

use reqwest::header::HeaderValue;

use crate::http::{header_bytes, is_header_text, static_header, static_header_value};

verus! {

/// The container format requested from the daemon.
#[derive(Clone, Copy, Debug, PartialEq, Eq, Structural)]
pub enum AudioFormat {
    Ogg,
    Mp3,
}

/// Whether `s` spells `mp3`, letters taken without regard to ASCII case.
pub open spec fn spells_mp3(s: Seq<char>) -> bool {
    &&& s.len() == 3
    &&& (s[0] == 'm' || s[0] == 'M')
    &&& (s[1] == 'p' || s[1] == 'P')
    &&& s[2] == '3'
}

/// The characters of an optional string slice.
pub open spec fn preference(preferred: Option<&str>) -> Option<Seq<char>> {
    match preferred {
        Some(s) => Some(s@),
        None => None,
    }
}

/// The format selected for an optional preference.
pub open spec fn resolved_format(preferred: Option<Seq<char>>) -> AudioFormat {
    match preferred {
        Some(s) if spells_mp3(s) => AudioFormat::Mp3,
        _ => AudioFormat::Ogg,
    }
}

/// The name by which the daemon knows a format.
pub open spec fn format_name(format: AudioFormat) -> Seq<char> {
    match format {
        AudioFormat::Mp3 => "mp3"@,
        AudioFormat::Ogg => "ogg"@,
    }
}

/// The content type of audio in a format.
pub open spec fn content_type_name(format: AudioFormat) -> Seq<char> {
    match format {
        AudioFormat::Mp3 => "audio/mpeg"@,
        AudioFormat::Ogg => "audio/ogg"@,
    }
}

impl AudioFormat {
    /// MP3 when the preference spells `mp3` in any ASCII case; OGG for every
    /// other preference and for none.
    pub fn parse(preferred: Option<&str>) -> (format: AudioFormat)
        ensures
            format == resolved_format(preference(preferred)),
    {
        match preferred {
            Some(s) => {
                if s.unicode_len() != 3 {
                    return AudioFormat::Ogg;
                }
                let c0 = s.get_char(0);
                let c1 = s.get_char(1);
                let c2 = s.get_char(2);
                if (c0 == 'm' || c0 == 'M') && (c1 == 'p' || c1 == 'P') && c2 == '3' {
                    AudioFormat::Mp3
                } else {
                    AudioFormat::Ogg
                }
            },
            None => AudioFormat::Ogg,
        }
    }

    /// The format's name in a synthesis request.
    pub fn as_str(self) -> (name: &'static str)
        ensures
            name@ == format_name(self),
    {
        match self {
            AudioFormat::Mp3 => "mp3",
            AudioFormat::Ogg => "ogg",
        }
    }

    /// The content type as text.
    pub fn content_type(self) -> (name: &'static str)
        ensures
            name@ == content_type_name(self),
            is_header_text(name@),
    {
        proof {
            reveal_strlit("audio/mpeg");
            reveal_strlit("audio/ogg");
        }
        match self {
            AudioFormat::Mp3 => "audio/mpeg",
            AudioFormat::Ogg => "audio/ogg",
        }
    }

    /// The content type assumed for audio that arrives without one.
    pub fn default_content_type(self) -> (value: HeaderValue)
        ensures
            value == default_header(self),
            header_bytes(value) == encode_utf8(content_type_name(self)),
    {
        static_header(self.content_type())
    }
}

/// The header value that stands for a format's content type.
pub open spec fn default_header(format: AudioFormat) -> HeaderValue {
    static_header_value(content_type_name(format))
}

/// Any spelling of `mp3` selects MP3.
pub proof fn lemma_mp3_in_any_case(c0: char, c1: char)
    requires
        c0 == 'm' || c0 == 'M',
        c1 == 'p' || c1 == 'P',
    ensures
        resolved_format(Some(seq![c0, c1, '3'])) == AudioFormat::Mp3,
{
}

/// No preference, and every preference that does not spell `mp3`, selects
/// OGG.
pub proof fn lemma_other_preferences_select_ogg(preferred: Option<Seq<char>>)
    requires
        preferred matches Some(s) ==> !spells_mp3(s),
    ensures
        resolved_format(preferred) == AudioFormat::Ogg,
{
}

} // verus!
