//! The messages between the coordinator and the stage workers: the tagged
//! results the workers push, and the dispatch actions the coordinator hands
//! the host to enqueue.

use vstd::prelude::*;
use crate::dpsreport::{DpsReportOutcome, DpsReportOutcomeView};
use crate::evtc::{Encounter, EncounterView};
use crate::wingman::{WingmanOutcome, WingmanOutcomeView};

verus! {

/// One stage's result payload.
pub enum WorkerType {
    /// The report-upload worker's observation.
    DpsReport(DpsReportOutcome),
    /// The statistics-upload worker's observation.
    Wingman(WingmanOutcome),
    /// The parse worker's result: a summary, or the parser's message.
    Evtc(Result<Encounter, String>),
}

/// The mathematical value of a `WorkerType`.
pub enum WorkerTypeView {
    DpsReport(DpsReportOutcomeView),
    Wingman(WingmanOutcomeView),
    Evtc(Result<EncounterView, Seq<char>>),
}

impl View for WorkerType {
    type V = WorkerTypeView;

    open spec fn view(&self) -> WorkerTypeView {
        match self {
            WorkerType::DpsReport(o) => WorkerTypeView::DpsReport(o@),
            WorkerType::Wingman(o) => WorkerTypeView::Wingman(o@),
            WorkerType::Evtc(r) => WorkerTypeView::Evtc(
                match r {
                    Ok(e) => Ok(e@),
                    Err(m) => Err(m@),
                },
            ),
        }
    }
}

/// One worker result, tagged with the identity it answers.
pub struct WorkerMessage {
    /// The identity of the job this result belongs to.
    pub index: usize,
    /// The stage's result.
    pub payload: WorkerType,
}

/// The mathematical value of a `WorkerMessage`.
pub struct WorkerMessageView {
    pub index: usize,
    pub payload: WorkerTypeView,
}

impl View for WorkerMessage {
    type V = WorkerMessageView;

    open spec fn view(&self) -> WorkerMessageView {
        WorkerMessageView { index: self.index, payload: self.payload@ }
    }
}

impl DeepView for WorkerMessage {
    type V = WorkerMessageView;

    open spec fn deep_view(&self) -> WorkerMessageView {
        self.view()
    }
}

impl WorkerMessage {
    /// A parse result for the job at `index`.
    pub fn evtc(index: usize, evtc: Result<Encounter, String>) -> (r: Self)
        ensures
            r == (WorkerMessage { index, payload: WorkerType::Evtc(evtc) }),
    {
        Self { index, payload: WorkerType::Evtc(evtc) }
    }

    /// A report-upload result for the job at `index`.
    pub fn dpsreport(index: usize, dpsreport: DpsReportOutcome) -> (r: WorkerMessage)
        ensures
            r == (WorkerMessage { index, payload: WorkerType::DpsReport(dpsreport) }),
    {
        WorkerMessage { index, payload: WorkerType::DpsReport(dpsreport) }
    }

    /// A statistics-upload result for the job at `index`.
    pub fn wingman(index: usize, wingman: WingmanOutcome) -> (r: WorkerMessage)
        ensures
            r == (WorkerMessage { index, payload: WorkerType::Wingman(wingman) }),
    {
        WorkerMessage { index, payload: WorkerType::Wingman(wingman) }
    }
}

/// What the coordinator asks the host to enqueue on a tick.
pub enum DispatchAction {
    /// Hand the file to the parse worker.
    Evtc { identity: usize, location: String },
    /// Hand the file and the current bearer token to the report-upload
    /// worker.
    DpsReport { identity: usize, location: String, token: String },
    /// Hand the file, the recording account and the category id to the
    /// statistics-upload worker.
    Wingman { identity: usize, location: String, account: String, boss_id: u16 },
}

/// The mathematical value of a `DispatchAction`.
pub enum DispatchActionView {
    Evtc { identity: usize, location: Seq<char> },
    DpsReport { identity: usize, location: Seq<char>, token: Seq<char> },
    Wingman { identity: usize, location: Seq<char>, account: Seq<char>, boss_id: u16 },
}

impl View for DispatchAction {
    type V = DispatchActionView;

    open spec fn view(&self) -> DispatchActionView {
        match self {
            DispatchAction::Evtc { identity, location } => DispatchActionView::Evtc {
                identity: *identity,
                location: location@,
            },
            DispatchAction::DpsReport { identity, location, token } => (
            DispatchActionView::DpsReport {
                identity: *identity,
                location: location@,
                token: token@,
            }),
            DispatchAction::Wingman { identity, location, account, boss_id } => (
            DispatchActionView::Wingman {
                identity: *identity,
                location: location@,
                account: account@,
                boss_id: *boss_id,
            }),
        }
    }
}

impl DeepView for DispatchAction {
    type V = DispatchActionView;

    open spec fn deep_view(&self) -> DispatchActionView {
        self.view()
    }
}

} // verus!
