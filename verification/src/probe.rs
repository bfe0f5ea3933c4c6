//! The start-up probe: a health check, then the comparison of voices. The
//! caller performs the requests and reports what came of them; the probe
//! decides what to do next and what to log, and never fails.

use vstd::prelude::*;
use vstd::string::*;

use crate::catalog::{get_voices, voice_ids, Voice};
use crate::http::{is_error, is_success, status_is_error, status_is_success};
use crate::reconcile::{
    body_notices, compare_with_body, lemma_body_notices_ignore_repeats, notice_views, Notice,
    NoticeView,
};

verus! {

/// What the probe is waiting for.
#[derive(Clone, Copy, Debug, PartialEq, Eq, Structural)]
pub enum ProbeStage {
    /// The answer to the health check.
    Health,
    /// The status of the answer to the request for the voices.
    VoicesHead,
    /// The body of that answer.
    VoicesBody,
    /// Nothing: the probe is over.
    Done,
}

/// What the caller does next.
#[derive(Clone, Copy, Debug, PartialEq, Eq, Structural)]
pub enum ProbeAction {
    /// Request the voices and report the status of the answer.
    GetVoices,
    /// Read the body of the answer and report it.
    ReadBody,
    /// Nothing more.
    Stop,
}

/// What came of the request that the probe asked for.
#[derive(Clone, Debug, PartialEq, Eq)]
pub enum ProbeEvent {
    /// The daemon answered with this status.
    Status(u16),
    /// The body of the answer.
    Body(Vec<u8>),
    /// The request or the reading failed, for this reason.
    Failed(String),
}

/// An event as plain values.
pub enum ProbeEventView {
    Status(u16),
    Body(Seq<u8>),
    Failed(Seq<char>),
}

impl View for ProbeEvent {
    type V = ProbeEventView;

    open spec fn view(&self) -> ProbeEventView {
        match *self {
            ProbeEvent::Status(status) => ProbeEventView::Status(status),
            ProbeEvent::Body(body) => ProbeEventView::Body(body@),
            ProbeEvent::Failed(reason) => ProbeEventView::Failed(reason@),
        }
    }
}

/// The probe's answer to an event.
pub struct ProbeStep {
    pub action: ProbeAction,
    pub notices: Vec<Notice>,
}

/// The stage after an event, the action it calls for and the notices it
/// produces, for a catalog with the identifiers `known`.
pub open spec fn probe_step(stage: ProbeStage, known: Seq<Seq<char>>, event: ProbeEventView) -> (
    ProbeStage,
    ProbeAction,
    Seq<NoticeView>,
) {
    match (stage, event) {
        (ProbeStage::Health, ProbeEventView::Status(status)) => if is_success(status) {
            (ProbeStage::VoicesHead, ProbeAction::GetVoices, seq![NoticeView::HealthPassed])
        } else {
            (ProbeStage::Done, ProbeAction::Stop, seq![NoticeView::HealthRejected { status }])
        },
        (ProbeStage::Health, ProbeEventView::Failed(reason)) => (
            ProbeStage::Done,
            ProbeAction::Stop,
            seq![NoticeView::Unreachable { reason }],
        ),
        (ProbeStage::VoicesHead, ProbeEventView::Status(status)) => if is_error(status) {
            (ProbeStage::Done, ProbeAction::Stop, seq![NoticeView::VoicesRefused { status }])
        } else {
            (ProbeStage::VoicesBody, ProbeAction::ReadBody, Seq::empty())
        },
        (ProbeStage::VoicesBody, ProbeEventView::Body(body)) => (
            ProbeStage::Done,
            ProbeAction::Stop,
            body_notices(known, body),
        ),
        (ProbeStage::VoicesHead, ProbeEventView::Failed(reason)) => (
            ProbeStage::Done,
            ProbeAction::Stop,
            seq![NoticeView::VoicesFailed { reason }],
        ),
        (ProbeStage::VoicesBody, ProbeEventView::Failed(reason)) => (
            ProbeStage::Done,
            ProbeAction::Stop,
            seq![NoticeView::VoicesFailed { reason }],
        ),
        _ => (ProbeStage::Done, ProbeAction::Stop, seq![NoticeView::OutOfTurn]),
    }
}

/// How far a stage is from the start.
pub open spec fn stage_rank(stage: ProbeStage) -> nat {
    match stage {
        ProbeStage::Health => 0,
        ProbeStage::VoicesHead => 1,
        ProbeStage::VoicesBody => 2,
        ProbeStage::Done => 3,
    }
}

/// A probe of the daemon in progress.
pub struct Probe {
    stage: ProbeStage,
}

impl Probe {
    /// What the probe is waiting for.
    pub closed spec fn spec_stage(&self) -> ProbeStage {
        self.stage
    }

    /// A probe that waits for the answer to the health check, which the
    /// caller requests first.
    pub fn new() -> (probe: Probe)
        ensures
            probe.spec_stage() == ProbeStage::Health,
    {
        Probe { stage: ProbeStage::Health }
    }

    /// What the probe is waiting for.
    #[verifier::when_used_as_spec(spec_stage)]
    pub fn stage(&self) -> (stage: ProbeStage)
        ensures
            stage == self.spec_stage(),
    {
        self.stage
    }

    /// Takes what came of the last request, and answers with the next action
    /// and the notices to log.
    pub fn advance(&mut self, catalog: &Vec<Voice>, event: ProbeEvent) -> (step: ProbeStep)
        ensures
            (final(self).spec_stage(), step.action, notice_views(step.notices@)) == probe_step(
                old(self).spec_stage(),
                voice_ids(catalog@),
                event@,
            ),
    {
        let stage = self.stage;
        self.stage = ProbeStage::Done;
        let mut action = ProbeAction::Stop;
        let notices: Vec<Notice> = match (stage, event) {
            (ProbeStage::Health, ProbeEvent::Status(status)) => {
                if status_is_success(status) {
                    self.stage = ProbeStage::VoicesHead;
                    action = ProbeAction::GetVoices;
                    vec![Notice::HealthPassed]
                } else {
                    vec![Notice::HealthRejected { status }]
                }
            },
            (ProbeStage::Health, ProbeEvent::Failed(reason)) => {
                vec![Notice::Unreachable { reason }]
            },
            (ProbeStage::VoicesHead, ProbeEvent::Status(status)) => {
                if status_is_error(status) {
                    vec![Notice::VoicesRefused { status }]
                } else {
                    self.stage = ProbeStage::VoicesBody;
                    action = ProbeAction::ReadBody;
                    Vec::new()
                }
            },
            (ProbeStage::VoicesBody, ProbeEvent::Body(body)) => {
                let known = get_voices(catalog);
                proof {
                    lemma_body_notices_ignore_repeats(voice_ids(catalog@), body@);
                }
                compare_with_body(&known, body.as_slice())
            },
            (ProbeStage::VoicesHead, ProbeEvent::Failed(reason)) => {
                vec![Notice::VoicesFailed { reason }]
            },
            (ProbeStage::VoicesBody, ProbeEvent::Failed(reason)) => {
                vec![Notice::VoicesFailed { reason }]
            },
            _ => vec![Notice::OutOfTurn],
        };
        assert(notice_views(notices@) =~= probe_step(stage, voice_ids(catalog@), event@).2);
        ProbeStep { action, notices }
    }
}

/// Every event moves the probe on: towards its end, or it is at its end. The
/// probe stops exactly when it is over, so it is over after three events at
/// most, whatever the daemon did.
pub proof fn lemma_probe_always_ends(
    stage: ProbeStage,
    known: Seq<Seq<char>>,
    event: ProbeEventView,
)
    ensures
        ({
            let (next, action, notices) = probe_step(stage, known, event);
            &&& (stage_rank(next) > stage_rank(stage) || next == ProbeStage::Done)
            &&& (action == ProbeAction::Stop <==> next == ProbeStage::Done)
        }),
{
}

/// The voices are requested only after a health check that succeeded.
pub proof fn lemma_voices_only_after_health(
    stage: ProbeStage,
    known: Seq<Seq<char>>,
    event: ProbeEventView,
)
    ensures
        probe_step(stage, known, event).1 == ProbeAction::GetVoices <==> stage
            == ProbeStage::Health && (event matches ProbeEventView::Status(status) && is_success(
            status,
        )),
{
}

} // verus!
