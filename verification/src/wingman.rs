//! The retry policy for the statistics-upload stage.
//!
//! The wire call is the host's; the pipeline consumes the HTTP status and
//! the decoded boolean result flag.  This stage defines no retry: transport
//! failures and unexpected statuses are fatal, and the status meaning
//! "duplicate, already accepted" counts as success.

use vstd::prelude::*;
use crate::step::{Disposition, DispositionView, StageFailure, StageFailureView};

verus! {

/// The category id of the one reserved encounter type that is never
/// uploaded to the statistics service.
pub const WVW_BOSS_ID: u16 = 1;

/// The status with which the service reports a duplicate it has already
/// accepted.
pub const DUPLICATE_ACCEPTED_STATUS: u16 = 409;

/// What the statistics-upload worker observed for one job.
pub enum WingmanOutcome {
    /// An HTTP reply: its status and, when the body decoded, the service's
    /// boolean result flag.
    Reply { status: u16, result: Option<bool> },
    /// No reply: a transport-level failure such as a timeout.
    Transport { message: String },
}

/// The mathematical value of a `WingmanOutcome`.
pub enum WingmanOutcomeView {
    Reply { status: u16, result: Option<bool> },
    Transport { message: Seq<char> },
}

impl View for WingmanOutcome {
    type V = WingmanOutcomeView;

    open spec fn view(&self) -> WingmanOutcomeView {
        match self {
            WingmanOutcome::Reply { status, result } => WingmanOutcomeView::Reply {
                status: *status,
                result: *result,
            },
            WingmanOutcome::Transport { message } => WingmanOutcomeView::Transport {
                message: message@,
            },
        }
    }
}

/// The retry policy for the statistics-upload stage: the duplicate status
/// succeeds outright; a decoded 2xx reply carries the service's own result
/// flag; everything else — an undecodable 2xx body, any other status, and
/// every transport failure — is fatal.
pub open spec fn classify_wingman_spec(o: WingmanOutcomeView) -> DispositionView<bool> {
    match o {
        WingmanOutcomeView::Transport { message } => DispositionView::Fatal(
            StageFailureView::Transport(message),
        ),
        WingmanOutcomeView::Reply { status, result } => {
            if status == DUPLICATE_ACCEPTED_STATUS {
                DispositionView::Success(true)
            } else if 200 <= status && status < 300 {
                match result {
                    Some(b) => DispositionView::Success(b),
                    None => DispositionView::Fatal(StageFailureView::MalformedPayload),
                }
            } else {
                DispositionView::Fatal(StageFailureView::UnexpectedStatus(status))
            }
        },
    }
}

/// Classify one statistics-upload outcome.
pub fn classify_wingman(o: WingmanOutcome) -> (d: Disposition<bool>)
    ensures
        d@ == classify_wingman_spec(o@),
{
    match o {
        WingmanOutcome::Transport { message } => Disposition::Fatal(
            StageFailure::Transport(message),
        ),
        WingmanOutcome::Reply { status, result } => {
            if status == DUPLICATE_ACCEPTED_STATUS {
                Disposition::Success(true)
            } else if 200 <= status && status < 300 {
                match result {
                    Some(b) => Disposition::Success(b),
                    None => Disposition::Fatal(StageFailure::MalformedPayload),
                }
            } else {
                Disposition::Fatal(StageFailure::UnexpectedStatus(status))
            }
        },
    }
}

} // verus!
