//! The per-stage state machine and the failure taxonomy shared by all
//! stages.

use vstd::prelude::*;
use crate::text::{dec_rep, u64_to_string};

verus! {

/// Why a stage failed for good.
pub enum StageFailure {
    /// The binary parse failed; carries the parser's message.
    Parse(String),
    /// A stage rejected the file's content permanently; carries the reply body.
    PermanentRejection(String),
    /// Synthesized once the retry cap is exhausted.
    RetryExhausted,
    /// A transport-level failure, fatal for the stage; carries the message.
    Transport(String),
    /// An HTTP status outside the understood set.
    UnexpectedStatus(u16),
    /// A success reply whose payload did not decode.
    MalformedPayload,
}

/// The mathematical value of a `StageFailure`.
pub enum StageFailureView {
    Parse(Seq<char>),
    PermanentRejection(Seq<char>),
    RetryExhausted,
    Transport(Seq<char>),
    UnexpectedStatus(u16),
    MalformedPayload,
}

impl View for StageFailure {
    type V = StageFailureView;

    open spec fn view(&self) -> StageFailureView {
        match self {
            StageFailure::Parse(m) => StageFailureView::Parse(m@),
            StageFailure::PermanentRejection(m) => StageFailureView::PermanentRejection(m@),
            StageFailure::RetryExhausted => StageFailureView::RetryExhausted,
            StageFailure::Transport(m) => StageFailureView::Transport(m@),
            StageFailure::UnexpectedStatus(s) => StageFailureView::UnexpectedStatus(*s),
            StageFailure::MalformedPayload => StageFailureView::MalformedPayload,
        }
    }
}

impl DeepView for StageFailure {
    type V = StageFailureView;

    open spec fn deep_view(&self) -> StageFailureView {
        self.view()
    }
}

/// The text shown for a failure.
pub open spec fn describe_failure(f: StageFailureView) -> Seq<char> {
    match f {
        StageFailureView::Parse(m) => m,
        StageFailureView::PermanentRejection(m) => "Error 403: "@ + m,
        StageFailureView::RetryExhausted => "Retry limit reached"@,
        StageFailureView::Transport(m) => "Failed to upload file: "@ + m,
        StageFailureView::UnexpectedStatus(s) => "Unknown Response Code: "@ + dec_rep(s as nat),
        StageFailureView::MalformedPayload => "Error parsing json"@,
    }
}

impl StageFailure {
    /// A fresh copy with the same value.
    pub fn duplicate(&self) -> (r: Self)
        ensures
            r@ == self@,
    {
        match self {
            StageFailure::Parse(m) => StageFailure::Parse(m.clone()),
            StageFailure::PermanentRejection(m) => StageFailure::PermanentRejection(m.clone()),
            StageFailure::RetryExhausted => StageFailure::RetryExhausted,
            StageFailure::Transport(m) => StageFailure::Transport(m.clone()),
            StageFailure::UnexpectedStatus(s) => StageFailure::UnexpectedStatus(*s),
            StageFailure::MalformedPayload => StageFailure::MalformedPayload,
        }
    }

    /// A human-readable account of the failure.
    pub fn describe(&self) -> (r: String)
        ensures
            r@ == describe_failure(self@),
    {
        match self {
            StageFailure::Parse(m) => m.clone(),
            StageFailure::PermanentRejection(m) => {
                let mut r = String::from_str("Error 403: ");
                r.append(m.as_str());
                r
            },
            StageFailure::RetryExhausted => String::from_str("Retry limit reached"),
            StageFailure::Transport(m) => {
                let mut r = String::from_str("Failed to upload file: ");
                r.append(m.as_str());
                r
            },
            StageFailure::UnexpectedStatus(s) => {
                let mut r = String::from_str("Unknown Response Code: ");
                r.append(u64_to_string(*s as u64).as_str());
                r
            },
            StageFailure::MalformedPayload => String::from_str("Error parsing json"),
        }
    }
}

/// One stage's state machine on a job.  The one-directional transitions are
/// `Pending -> Active -> {Done, Error, Retry}`, with `Retry -> Pending` once
/// the deadline passes, and `Pending -> Skipped` by policy.
pub enum Step<T> {
    /// Eligible for dispatch; nothing sent yet.
    Pending,
    /// Sent to a worker; at most one result outstanding.
    Active,
    /// Terminal success with the stage's output.
    Done(T),
    /// Terminal; the stage was not run by policy decision.
    Skipped,
    /// Terminal failure, not retryable.
    Error(StageFailure),
    /// Eligible to return to `Pending` once the clock passes the deadline
    /// (milliseconds on the host's monotonic clock).
    Retry(u64),
}

/// The mathematical value of a `Step`.
pub enum StepView<T> {
    Pending,
    Active,
    Done(T),
    Skipped,
    Error(StageFailureView),
    Retry(u64),
}

impl<T: View> View for Step<T> {
    type V = StepView<T::V>;

    open spec fn view(&self) -> StepView<T::V> {
        match self {
            Step::Pending => StepView::Pending,
            Step::Active => StepView::Active,
            Step::Done(v) => StepView::Done(v@),
            Step::Skipped => StepView::Skipped,
            Step::Error(f) => StepView::Error(f@),
            Step::Retry(d) => StepView::Retry(*d),
        }
    }
}

impl<T: View> Step<T> {
    /// The step for a finished unit of work: its success value, or its
    /// terminal failure.
    pub fn from_value(value: Result<T, StageFailure>) -> (r: Self)
        ensures
            r == (match value {
                Ok(v) => Step::Done(v),
                Err(e) => Step::<T>::Error(e),
            }),
    {
        match value {
            Ok(v) => Self::Done(v),
            Err(e) => Self::Error(e),
        }
    }
}

/// A stage of the pipeline.
#[derive(Clone, Copy, PartialEq, Eq, Structural, Debug)]
pub enum Stage {
    /// The binary parse of the log file.
    Parse,
    /// The upload to the report service.
    Report,
    /// The upload to the statistics service.
    Stats,
}

/// The retry policy's classification of a stage outcome.
pub enum Disposition<T> {
    /// The stage finished; carries its typed output.
    Success(T),
    /// The stage failed for good.
    Fatal(StageFailure),
    /// The stage failed transiently; retry after the carried backoff
    /// (milliseconds).
    Transient(u64),
}

/// The mathematical value of a `Disposition`.
pub enum DispositionView<T> {
    Success(T),
    Fatal(StageFailureView),
    Transient(u64),
}

impl<T: View> View for Disposition<T> {
    type V = DispositionView<T::V>;

    open spec fn view(&self) -> DispositionView<T::V> {
        match self {
            Disposition::Success(v) => DispositionView::Success(v@),
            Disposition::Fatal(f) => DispositionView::Fatal(f@),
            Disposition::Transient(d) => DispositionView::Transient(*d),
        }
    }
}

} // verus!
