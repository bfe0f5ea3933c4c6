//! One synthesis call: admission, the request, and what is made of the
//! daemon's answer. The caller waits for admission, sends and reads; the
//! dispatcher decides what to do next and what the call returns.

use vstd::prelude::*;
use vstd::string::*;
use vstd::utf8::encode_utf8;

use bytes::Bytes;
use reqwest::header::HeaderValue;

use crate::format::{
    content_type_name, default_header, preference, resolved_format, AudioFormat,
};
use crate::http::{canonical_reason, header_bytes, is_success, reason_phrase, status_is_success};
use crate::number::{decimal_digits, decimal_text};

verus! {

/// What is sent to the daemon for one call. The speaking rate is kept as the
/// bits of a 32-bit float.
#[derive(Clone, Debug, PartialEq, Eq)]
pub struct TtsRequest {
    pub text: String,
    pub voice: String,
    pub speaking_rate_bits: u32,
    pub format: AudioFormat,
    pub max_length: Option<u64>,
}

/// A request as plain values.
pub struct TtsRequestView {
    pub text: Seq<char>,
    pub voice: Seq<char>,
    pub speaking_rate_bits: u32,
    pub format: AudioFormat,
    pub max_length: Option<u64>,
}

impl View for TtsRequest {
    type V = TtsRequestView;

    open spec fn view(&self) -> TtsRequestView {
        TtsRequestView {
            text: self.text@,
            voice: self.voice@,
            speaking_rate_bits: self.speaking_rate_bits,
            format: self.format,
            max_length: self.max_length,
        }
    }
}

/// Why a call failed.
#[derive(Clone, Debug, PartialEq, Eq)]
pub enum TtsError {
    /// The semaphore no longer admits calls; `reason` is what it says of
    /// that.
    AdmissionClosed { reason: String },
    /// The request or the reading of the answer failed in transport.
    Transport { reason: String },
    /// The daemon answered with a status other than success.
    Rejected { status: u16, body: String },
    /// An event arrived that the call was not waiting for.
    OutOfTurn,
}

/// An error as plain values.
pub enum TtsErrorView {
    AdmissionClosed { reason: Seq<char> },
    Transport { reason: Seq<char> },
    Rejected { status: u16, body: Seq<char> },
    OutOfTurn,
}

impl View for TtsError {
    type V = TtsErrorView;

    open spec fn view(&self) -> TtsErrorView {
        match *self {
            TtsError::AdmissionClosed { reason } => TtsErrorView::AdmissionClosed {
                reason: reason@,
            },
            TtsError::Transport { reason } => TtsErrorView::Transport { reason: reason@ },
            TtsError::Rejected { status, body } => TtsErrorView::Rejected { status, body: body@ },
            TtsError::OutOfTurn => TtsErrorView::OutOfTurn,
        }
    }
}

/// A status as it is written in a message: its number, a space, and its
/// reason phrase, or a placeholder where it has none.
pub open spec fn status_line(status: u16, phrase: Option<Seq<char>>) -> Seq<char> {
    decimal_digits(status as nat) + " "@ + match phrase {
        Some(words) => words,
        None => "<unknown status code>"@,
    }
}

/// The message of a rejected call, for a status with this reason phrase: it
/// holds the status and the body that the daemon sent.
pub open spec fn rejection_text(status: u16, phrase: Option<Seq<char>>, body: Seq<char>) -> Seq<
    char,
> {
    "Gwent daemon request failed ("@ + status_line(status, phrase) + "): "@ + body
}

/// The message of a rejected call, with the standard reason phrase of its
/// status.
pub open spec fn rejection_message(status: u16, body: Seq<char>) -> Seq<char> {
    rejection_text(status, reason_phrase(status), body)
}

/// The message of an error.
pub open spec fn error_message(error: TtsErrorView) -> Seq<char> {
    match error {
        TtsErrorView::AdmissionClosed { reason } => reason,
        TtsErrorView::Transport { reason } => reason,
        TtsErrorView::Rejected { status, body } => rejection_message(status, body),
        TtsErrorView::OutOfTurn => "Gwent synthesis call received an event out of turn"@,
    }
}

/// Writes the message of a rejected call for a status with this reason
/// phrase.
pub fn write_rejection(status: u16, phrase: Option<&str>, body: &str) -> (text: String)
    ensures
        text@ == rejection_text(status, preference(phrase), body@),
{
    let mut text = String::from_str("Gwent daemon request failed (");
    let digits = decimal_text(status as u64);
    text.append(digits.as_str());
    text.append(" ");
    match phrase {
        Some(words) => text.append(words),
        None => text.append("<unknown status code>"),
    }
    text.append("): ");
    text.append(body);
    assert(text@ =~= rejection_text(status, preference(phrase), body@));
    text
}

impl TtsError {
    /// The error in words.
    pub fn message(&self) -> (text: String)
        ensures
            text@ == error_message(self@),
    {
        match self {
            TtsError::AdmissionClosed { reason } => reason.clone(),
            TtsError::Transport { reason } => reason.clone(),
            TtsError::Rejected { status, body } => {
                write_rejection(*status, canonical_reason(*status), body.as_str())
            },
            TtsError::OutOfTurn => String::from_str(
                "Gwent synthesis call received an event out of turn",
            ),
        }
    }
}

/// What a call is waiting for.
#[derive(Debug, PartialEq, Eq)]
pub enum SynthesisStage {
    /// A permit of the admission semaphore.
    Admission,
    /// The status and the headers of the daemon's answer.
    Response,
    /// The text of an answer that reported no success.
    ErrorBody { status: u16 },
    /// The audio of an answer that reported success.
    Audio { content_type: HeaderValue },
    /// Nothing: the call is over.
    Done,
}

/// What came of the step that the dispatcher asked for.
#[derive(Debug)]
pub enum SynthesisEvent {
    /// The semaphore gave a permit.
    Admitted,
    /// The semaphore is closed, and says so in these words.
    AdmissionClosed(String),
    /// The daemon answered with this status and this content type.
    Head { status: u16, content_type: Option<HeaderValue> },
    /// The text of the answer.
    ErrorText(String),
    /// The audio of the answer.
    Audio(Bytes),
    /// Sending or reading failed, for this reason.
    Failed(String),
}

/// An event as plain values.
pub enum SynthesisEventView {
    Admitted,
    AdmissionClosed(Seq<char>),
    Head { status: u16, content_type: Option<HeaderValue> },
    ErrorText(Seq<char>),
    Audio(Bytes),
    Failed(Seq<char>),
}

impl View for SynthesisEvent {
    type V = SynthesisEventView;

    open spec fn view(&self) -> SynthesisEventView {
        match *self {
            SynthesisEvent::Admitted => SynthesisEventView::Admitted,
            SynthesisEvent::AdmissionClosed(reason) => SynthesisEventView::AdmissionClosed(
                reason@,
            ),
            SynthesisEvent::Head { status, content_type } => SynthesisEventView::Head {
                status,
                content_type,
            },
            SynthesisEvent::ErrorText(text) => SynthesisEventView::ErrorText(text@),
            SynthesisEvent::Audio(audio) => SynthesisEventView::Audio(audio),
            SynthesisEvent::Failed(reason) => SynthesisEventView::Failed(reason@),
        }
    }
}

/// What the caller does next.
#[derive(Debug)]
pub enum SynthesisAction {
    /// Send the request to the daemon and report the head of the answer.
    Post,
    /// Read the answer as text and report it.
    ReadErrorText,
    /// Read the answer as bytes and report them.
    ReadAudio,
    /// Release the permit, if one is held, and return this.
    Finish(Result<(Bytes, Option<HeaderValue>), TtsError>),
}

/// An action as plain values.
pub enum SynthesisActionView {
    Post,
    ReadErrorText,
    ReadAudio,
    Finish(Result<(Bytes, Option<HeaderValue>), TtsErrorView>),
}

impl View for SynthesisAction {
    type V = SynthesisActionView;

    open spec fn view(&self) -> SynthesisActionView {
        match *self {
            SynthesisAction::Post => SynthesisActionView::Post,
            SynthesisAction::ReadErrorText => SynthesisActionView::ReadErrorText,
            SynthesisAction::ReadAudio => SynthesisActionView::ReadAudio,
            SynthesisAction::Finish(Ok(output)) => SynthesisActionView::Finish(Ok(output)),
            SynthesisAction::Finish(Err(error)) => SynthesisActionView::Finish(Err(error@)),
        }
    }
}

/// The content type of an answer: the daemon's own where it sent one, else
/// the one that stands for the format.
pub open spec fn settled_content_type(
    format: AudioFormat,
    sent: Option<HeaderValue>,
) -> HeaderValue {
    match sent {
        Some(value) => value,
        None => default_header(format),
    }
}

/// The stage after an event and the action it calls for, in a call for
/// audio in `format`.
pub open spec fn synthesis_step(
    stage: SynthesisStage,
    format: AudioFormat,
    event: SynthesisEventView,
) -> (SynthesisStage, SynthesisActionView) {
    match (stage, event) {
        (SynthesisStage::Admission, SynthesisEventView::Admitted) => (
            SynthesisStage::Response,
            SynthesisActionView::Post,
        ),
        (SynthesisStage::Admission, SynthesisEventView::AdmissionClosed(reason)) => (
            SynthesisStage::Done,
            SynthesisActionView::Finish(Err(TtsErrorView::AdmissionClosed { reason })),
        ),
        (SynthesisStage::Response, SynthesisEventView::Head { status, content_type }) => if is_success(
            status,
        ) {
            (
                SynthesisStage::Audio {
                    content_type: settled_content_type(format, content_type),
                },
                SynthesisActionView::ReadAudio,
            )
        } else {
            (SynthesisStage::ErrorBody { status }, SynthesisActionView::ReadErrorText)
        },
        (SynthesisStage::Response, SynthesisEventView::Failed(reason)) => (
            SynthesisStage::Done,
            SynthesisActionView::Finish(Err(TtsErrorView::Transport { reason })),
        ),
        (SynthesisStage::ErrorBody { status }, SynthesisEventView::ErrorText(body)) => (
            SynthesisStage::Done,
            SynthesisActionView::Finish(Err(TtsErrorView::Rejected { status, body })),
        ),
        (SynthesisStage::ErrorBody { status }, SynthesisEventView::Failed(_)) => (
            SynthesisStage::Done,
            SynthesisActionView::Finish(
                Err(TtsErrorView::Rejected { status, body: Seq::empty() }),
            ),
        ),
        (SynthesisStage::Audio { content_type }, SynthesisEventView::Audio(audio)) => (
            SynthesisStage::Done,
            SynthesisActionView::Finish(Ok((audio, Some(content_type)))),
        ),
        (SynthesisStage::Audio { content_type }, SynthesisEventView::Failed(reason)) => (
            SynthesisStage::Done,
            SynthesisActionView::Finish(Err(TtsErrorView::Transport { reason })),
        ),
        _ => (SynthesisStage::Done, SynthesisActionView::Finish(Err(TtsErrorView::OutOfTurn))),
    }
}

/// One synthesis call in progress.
pub struct Synthesis {
    request: TtsRequest,
    stage: SynthesisStage,
}

impl Synthesis {
    /// What is sent to the daemon.
    pub closed spec fn spec_request(&self) -> TtsRequestView {
        self.request@
    }

    /// What the call is waiting for.
    pub closed spec fn spec_stage(&self) -> SynthesisStage {
        self.stage
    }

    /// A call that waits for admission, which the caller asks for first. The
    /// format is MP3 where the preference spells `mp3` in any ASCII case, and
    /// OGG otherwise; the voice is taken as it is.
    pub fn start(
        text: &str,
        voice: &str,
        speaking_rate_bits: u32,
        preferred_format: Option<&str>,
        max_length: Option<u64>,
    ) -> (call: Synthesis)
        ensures
            call.spec_stage() == SynthesisStage::Admission,
            call.spec_request() == (TtsRequestView {
                text: text@,
                voice: voice@,
                speaking_rate_bits,
                format: resolved_format(preference(preferred_format)),
                max_length,
            }),
    {
        let request = TtsRequest {
            text: String::from_str(text),
            voice: String::from_str(voice),
            speaking_rate_bits,
            format: AudioFormat::parse(preferred_format),
            max_length,
        };
        Synthesis { request, stage: SynthesisStage::Admission }
    }

    /// What is sent to the daemon.
    pub fn request(&self) -> (request: &TtsRequest)
        ensures
            request@ == self.spec_request(),
    {
        &self.request
    }

    /// Whether the call is over.
    pub fn is_done(&self) -> (done: bool)
        ensures
            done == (self.spec_stage() == SynthesisStage::Done),
    {
        match self.stage {
            SynthesisStage::Done => true,
            _ => false,
        }
    }

    /// Takes what came of the last step, and answers with the next one.
    pub fn advance(&mut self, event: SynthesisEvent) -> (action: SynthesisAction)
        ensures
            (final(self).spec_stage(), action@) == synthesis_step(
                old(self).spec_stage(),
                old(self).spec_request().format,
                event@,
            ),
            final(self).spec_request() == old(self).spec_request(),
            old(self).spec_stage() == SynthesisStage::Response && (event matches SynthesisEvent::Head {
                status,
                content_type: None,
            } && is_success(status)) ==> (final(self).spec_stage() matches SynthesisStage::Audio {
                content_type,
            } && header_bytes(content_type) == encode_utf8(
                content_type_name(old(self).spec_request().format),
            )),
    {
        let mut stage = SynthesisStage::Done;
        std::mem::swap(&mut self.stage, &mut stage);
        match (stage, event) {
            (SynthesisStage::Admission, SynthesisEvent::Admitted) => {
                self.stage = SynthesisStage::Response;
                SynthesisAction::Post
            },
            (SynthesisStage::Admission, SynthesisEvent::AdmissionClosed(reason)) => {
                SynthesisAction::Finish(Err(TtsError::AdmissionClosed { reason }))
            },
            (SynthesisStage::Response, SynthesisEvent::Head { status, content_type }) => {
                if status_is_success(status) {
                    let content_type = match content_type {
                        Some(value) => value,
                        None => self.request.format.default_content_type(),
                    };
                    self.stage = SynthesisStage::Audio { content_type };
                    SynthesisAction::ReadAudio
                } else {
                    self.stage = SynthesisStage::ErrorBody { status };
                    SynthesisAction::ReadErrorText
                }
            },
            (SynthesisStage::Response, SynthesisEvent::Failed(reason)) => {
                SynthesisAction::Finish(Err(TtsError::Transport { reason }))
            },
            (SynthesisStage::ErrorBody { status }, SynthesisEvent::ErrorText(body)) => {
                SynthesisAction::Finish(Err(TtsError::Rejected { status, body }))
            },
            (SynthesisStage::ErrorBody { status }, SynthesisEvent::Failed(_)) => {
                SynthesisAction::Finish(Err(TtsError::Rejected { status, body: String::new() }))
            },
            (SynthesisStage::Audio { content_type }, SynthesisEvent::Audio(audio)) => {
                SynthesisAction::Finish(Ok((audio, Some(content_type))))
            },
            (SynthesisStage::Audio { content_type }, SynthesisEvent::Failed(reason)) => {
                SynthesisAction::Finish(Err(TtsError::Transport { reason }))
            },
            _ => SynthesisAction::Finish(Err(TtsError::OutOfTurn)),
        }
    }
}

/// How far a stage is from the start.
pub open spec fn stage_rank(stage: SynthesisStage) -> nat {
    match stage {
        SynthesisStage::Admission => 0,
        SynthesisStage::Response => 1,
        SynthesisStage::ErrorBody { .. } => 2,
        SynthesisStage::Audio { .. } => 2,
        SynthesisStage::Done => 3,
    }
}

/// Whether a call in this stage holds a permit of the admission semaphore.
pub open spec fn holds_permit(stage: SynthesisStage) -> bool {
    stage is Response || stage is ErrorBody || stage is Audio
}

/// A call holds a permit exactly while it deals with the daemon: it gets
/// the permit by being admitted, keeps it through every step that is not
/// its last, and has given it back when it returns, however it ends.
pub proof fn lemma_permit_spans_the_exchange(
    stage: SynthesisStage,
    format: AudioFormat,
    event: SynthesisEventView,
)
    ensures
        ({
            let (next, action) = synthesis_step(stage, format, event);
            &&& (holds_permit(next) <==> !(action is Finish))
            &&& (!holds_permit(stage) && holds_permit(next) ==> stage == SynthesisStage::Admission
                && event == SynthesisEventView::Admitted)
            &&& (action == SynthesisActionView::Post ==> holds_permit(next))
        }),
{
}

/// The request is sent only by a call that waited for admission and was
/// admitted: no call reaches the daemon without a permit.
pub proof fn lemma_post_needs_admission(
    stage: SynthesisStage,
    format: AudioFormat,
    event: SynthesisEventView,
)
    ensures
        synthesis_step(stage, format, event).1 == SynthesisActionView::Post <==> stage
            == SynthesisStage::Admission && event == SynthesisEventView::Admitted,
{
}

/// Every event moves the call on: towards its end, or it is at its end. The
/// call returns exactly when it is over, so it is over after three events at
/// most.
pub proof fn lemma_call_always_ends(
    stage: SynthesisStage,
    format: AudioFormat,
    event: SynthesisEventView,
)
    ensures
        ({
            let (next, action) = synthesis_step(stage, format, event);
            &&& (stage_rank(next) > stage_rank(stage) || next == SynthesisStage::Done)
            &&& (action is Finish <==> next == SynthesisStage::Done)
        }),
{
}

/// An answer that reports success gives the audio as it came, with the
/// daemon's content type where it sent one, unchanged, and the content type
/// of the resolved format where it sent none.
pub proof fn lemma_content_type_fallback(
    format: AudioFormat,
    status: u16,
    sent: Option<HeaderValue>,
    audio: Bytes,
)
    requires
        is_success(status),
    ensures
        ({
            let (reading, first) = synthesis_step(
                SynthesisStage::Response,
                format,
                SynthesisEventView::Head { status, content_type: sent },
            );
            let (end, last) = synthesis_step(reading, format, SynthesisEventView::Audio(audio));
            &&& first == SynthesisActionView::ReadAudio
            &&& end == SynthesisStage::Done
            &&& last == SynthesisActionView::Finish(
                Ok(
                    (
                        audio,
                        Some(
                            match sent {
                                Some(value) => value,
                                None => default_header(format),
                            },
                        ),
                    ),
                ),
            )
        }),
{
}

/// An answer that reports no success gives an error that holds the status
/// and the text of the answer.
pub proof fn lemma_rejection_carries_status_and_body(
    format: AudioFormat,
    status: u16,
    sent: Option<HeaderValue>,
    body: Seq<char>,
)
    requires
        !is_success(status),
    ensures
        ({
            let (reading, first) = synthesis_step(
                SynthesisStage::Response,
                format,
                SynthesisEventView::Head { status, content_type: sent },
            );
            let (end, last) = synthesis_step(reading, format, SynthesisEventView::ErrorText(body));
            &&& first == SynthesisActionView::ReadErrorText
            &&& end == SynthesisStage::Done
            &&& last == SynthesisActionView::Finish(Err(TtsErrorView::Rejected { status, body }))
        }),
{
}

/// The message of a rejected call holds the decimal digits of the status,
/// right after the opening words, and ends with the body.
pub proof fn lemma_message_embeds_status_and_body(status: u16, body: Seq<char>)
    ensures
        ({
            let message = error_message(TtsErrorView::Rejected { status, body });
            let digits = decimal_digits(status as nat);
            let at = "Gwent daemon request failed ("@.len() as int;
            &&& at + digits.len() <= message.len()
            &&& message.subrange(at, at + digits.len()) == digits
            &&& body.len() <= message.len()
            &&& message.subrange(message.len() - body.len(), message.len() as int) == body
        }),
{
    let message = error_message(TtsErrorView::Rejected { status, body });
    let digits = decimal_digits(status as nat);
    let at = "Gwent daemon request failed ("@.len() as int;
    assert(message.subrange(at, at + digits.len()) =~= digits);
    assert(message.subrange(message.len() - body.len(), message.len() as int) =~= body);
}

} // verus!
