//! The read-only rows that `snapshot` derives from the ledger for
//! presentation: a coarse per-job status, the log's kind, and the permalink
//! and retry countdown where the stages produced them.

use vstd::prelude::*;
use crate::coordinator::JobView;
use crate::dpsreport::{DpsReportResponse, DpsReportResponseView};
use crate::step::{StageFailure, StageFailureView, StepView, describe_failure};
use crate::text::{basename_of, basename_spec};
use crate::wingman::WVW_BOSS_ID;

verus! {

/// Which stage a surfaced error came from.
pub enum ErrorKind {
    /// The parse stage failed.
    Parser(StageFailure),
    /// The report-upload stage failed.
    DpsReport(StageFailure),
    /// The statistics-upload stage failed.
    Wingman(StageFailure),
}

/// The mathematical value of an `ErrorKind`.
pub enum ErrorKindView {
    Parser(StageFailureView),
    DpsReport(StageFailureView),
    Wingman(StageFailureView),
}

impl View for ErrorKind {
    type V = ErrorKindView;

    open spec fn view(&self) -> ErrorKindView {
        match self {
            ErrorKind::Parser(f) => ErrorKindView::Parser(f@),
            ErrorKind::DpsReport(f) => ErrorKindView::DpsReport(f@),
            ErrorKind::Wingman(f) => ErrorKindView::Wingman(f@),
        }
    }
}

/// The text shown for a surfaced error: the stage's tag and the failure's
/// own account.
pub open spec fn describe_error_kind(e: ErrorKindView) -> Seq<char> {
    match e {
        ErrorKindView::Parser(f) => "[Parser] Error: "@ + describe_failure(f),
        ErrorKindView::DpsReport(f) => "[DpsReport] Error: "@ + describe_failure(f),
        ErrorKindView::Wingman(f) => "[Wingman] Error: "@ + describe_failure(f),
    }
}

impl ErrorKind {
    /// A human-readable account of the error.
    pub fn describe(&self) -> (r: String)
        ensures
            r@ == describe_error_kind(self@),
    {
        match self {
            ErrorKind::Parser(f) => {
                let mut r = String::from_str("[Parser] Error: ");
                r.append(f.describe().as_str());
                r
            },
            ErrorKind::DpsReport(f) => {
                let mut r = String::from_str("[DpsReport] Error: ");
                r.append(f.describe().as_str());
                r
            },
            ErrorKind::Wingman(f) => {
                let mut r = String::from_str("[Wingman] Error: ");
                r.append(f.describe().as_str());
                r
            },
        }
    }
}

/// The coarse per-job status a presentation layer shows.
pub enum UploadStatus {
    /// Nothing to show yet: parsing has not finished, or the report stage
    /// has not been dispatched.
    Pending,
    /// The report upload is under way or awaiting its retry.
    DpsReportInProgress,
    /// The report stage finished; the statistics stage has not started.
    DpsReportDone,
    /// The statistics upload is under way.
    WingmanInProgress,
    /// The statistics stage was skipped by policy.
    WingmanSkipped,
    /// Every stage that was going to run has finished.
    Done,
    /// A stage failed; carries which one and why.
    Error(ErrorKind),
}

/// The mathematical value of an `UploadStatus`.
pub enum UploadStatusView {
    Pending,
    DpsReportInProgress,
    DpsReportDone,
    WingmanInProgress,
    WingmanSkipped,
    Done,
    Error(ErrorKindView),
}

impl View for UploadStatus {
    type V = UploadStatusView;

    open spec fn view(&self) -> UploadStatusView {
        match self {
            UploadStatus::Pending => UploadStatusView::Pending,
            UploadStatus::DpsReportInProgress => UploadStatusView::DpsReportInProgress,
            UploadStatus::DpsReportDone => UploadStatusView::DpsReportDone,
            UploadStatus::WingmanInProgress => UploadStatusView::WingmanInProgress,
            UploadStatus::WingmanSkipped => UploadStatusView::WingmanSkipped,
            UploadStatus::Done => UploadStatusView::Done,
            UploadStatus::Error(e) => UploadStatusView::Error(e@),
        }
    }
}

/// The status line a presentation layer shows for each coarse status.
pub open spec fn status_label(s: UploadStatusView) -> Seq<char> {
    match s {
        UploadStatusView::Pending => "Pending"@,
        UploadStatusView::DpsReportInProgress => "Uploading to dps.report"@,
        UploadStatusView::DpsReportDone => "Finished dps.report upload"@,
        UploadStatusView::WingmanInProgress => "Adding to wingman Queue"@,
        UploadStatusView::WingmanSkipped => "Wingman disabled or WvW Log"@,
        UploadStatusView::Done => "All done"@,
        UploadStatusView::Error(ErrorKindView::Parser(_)) => "Parser Error"@,
        UploadStatusView::Error(ErrorKindView::DpsReport(_)) => "DpsReport Error"@,
        UploadStatusView::Error(ErrorKindView::Wingman(_)) => "Wingman Error"@,
    }
}

impl UploadStatus {
    /// The status line shown for this status.
    pub fn label(&self) -> (r: String)
        ensures
            r@ == status_label(self@),
    {
        match self {
            UploadStatus::Pending => String::from_str("Pending"),
            UploadStatus::DpsReportInProgress => String::from_str("Uploading to dps.report"),
            UploadStatus::DpsReportDone => String::from_str("Finished dps.report upload"),
            UploadStatus::WingmanInProgress => String::from_str("Adding to wingman Queue"),
            UploadStatus::WingmanSkipped => String::from_str("Wingman disabled or WvW Log"),
            UploadStatus::Done => String::from_str("All done"),
            UploadStatus::Error(ErrorKind::Parser(_)) => String::from_str("Parser Error"),
            UploadStatus::Error(ErrorKind::DpsReport(_)) => String::from_str("DpsReport Error"),
            UploadStatus::Error(ErrorKind::Wingman(_)) => String::from_str("Wingman Error"),
        }
    }
}

/// Whether a log records the one reserved encounter type or an ordinary
/// one.
#[derive(Clone, Copy, PartialEq, Eq, Structural, Debug)]
pub enum Logtype {
    /// An ordinary encounter.
    Pve,
    /// The reserved encounter type that is never uploaded to the
    /// statistics service.
    Wvw,
}

/// The log kind for a parsed category id.
pub open spec fn logtype_of(boss_id: u16) -> Logtype {
    if boss_id == WVW_BOSS_ID {
        Logtype::Wvw
    } else {
        Logtype::Pve
    }
}

impl Logtype {
    /// The log kind for a parsed category id.
    pub fn of_boss(boss_id: u16) -> (r: Logtype)
        ensures
            r == logtype_of(boss_id),
    {
        if boss_id == WVW_BOSS_ID {
            Logtype::Wvw
        } else {
            Logtype::Pve
        }
    }
}

/// One row of the snapshot: everything a presentation layer shows about a
/// job.
pub struct Upload {
    /// The coarse status.
    pub status: UploadStatus,
    /// The log's kind, once parsing determined it; `Pve` before that.
    pub logtype: Logtype,
    /// The path of the source file.
    pub file: String,
    /// The report service's payload, once the report stage finished.
    pub dpsreportobject: Option<DpsReportResponse>,
    /// The report permalink, once the report stage finished.
    pub dpsreporturl: Option<String>,
    /// The statistics service's permalink; it returns none in this
    /// revision, so the field stays empty.
    pub wingmanurl: Option<String>,
    /// The retry deadline (milliseconds), when the report stage awaits one.
    pub retry_at: Option<u64>,
}

/// The mathematical value of an `Upload`.
#[verifier::ext_equal]
pub struct UploadView {
    pub status: UploadStatusView,
    pub logtype: Logtype,
    pub file: Seq<char>,
    pub dpsreportobject: Option<DpsReportResponseView>,
    pub dpsreporturl: Option<Seq<char>>,
    pub wingmanurl: Option<Seq<char>>,
    pub retry_at: Option<u64>,
}

impl View for Upload {
    type V = UploadView;

    open spec fn view(&self) -> UploadView {
        UploadView {
            status: self.status@,
            logtype: self.logtype,
            file: self.file@,
            dpsreportobject: self.dpsreportobject.deep_view(),
            dpsreporturl: self.dpsreporturl.deep_view(),
            wingmanurl: self.wingmanurl.deep_view(),
            retry_at: self.retry_at,
        }
    }
}

impl DeepView for Upload {
    type V = UploadView;

    open spec fn deep_view(&self) -> UploadView {
        self.view()
    }
}

/// The coarse status derived from a job's three stages.  An error wins,
/// earliest stage first; then, in pipeline order: still parsing, report
/// under way or awaiting retry, report not yet dispatched, statistics under
/// way, statistics not yet dispatched, statistics skipped, all done.
pub open spec fn status_of(j: JobView) -> UploadStatusView {
    match (j.parse_state, j.report_state, j.stats_state) {
        (StepView::Error(f), _, _) => UploadStatusView::Error(ErrorKindView::Parser(f)),
        (_, StepView::Error(f), _) => UploadStatusView::Error(ErrorKindView::DpsReport(f)),
        (_, _, StepView::Error(f)) => UploadStatusView::Error(ErrorKindView::Wingman(f)),
        _ => if !(j.parse_state is Done) {
            UploadStatusView::Pending
        } else if j.report_state is Active || j.report_state is Retry {
            UploadStatusView::DpsReportInProgress
        } else if j.report_state is Pending {
            UploadStatusView::Pending
        } else if j.stats_state is Active {
            UploadStatusView::WingmanInProgress
        } else if j.stats_state is Pending {
            UploadStatusView::DpsReportDone
        } else if j.stats_state is Skipped {
            UploadStatusView::WingmanSkipped
        } else {
            UploadStatusView::Done
        },
    }
}

/// The snapshot row derived from one job.
pub open spec fn row_of(j: JobView) -> UploadView {
    UploadView {
        status: status_of(j),
        logtype: match j.parse_state {
            StepView::Done(e) => logtype_of(e.boss_id),
            _ => Logtype::Pve,
        },
        file: j.location,
        dpsreportobject: match j.report_state {
            StepView::Done(r) => Some(r),
            _ => None,
        },
        dpsreporturl: match j.report_state {
            StepView::Done(r) => Some(r.permalink),
            _ => None,
        },
        wingmanurl: None,
        retry_at: match j.report_state {
            StepView::Retry(d) => Some(d),
            _ => None,
        },
    }
}

impl Upload {
    /// The final directory name and file name of the row's path.
    pub fn basename(&self) -> (r: String)
        ensures
            r@ == basename_spec(self.file@),
    {
        basename_of(self.file.as_str())
    }

    /// The countdown, in whole seconds, from `now` to the retry deadline;
    /// zero once the deadline has passed, and nothing when no retry is
    /// scheduled.
    pub fn retry_countdown(&self, now: u64) -> (r: Option<u64>)
        ensures
            r == (match self.retry_at {
                Some(d) => Some(if now < d { ((d - now) / 1000) as u64 } else { 0u64 }),
                None => None::<u64>,
            }),
    {
        match self.retry_at {
            Some(d) => if now < d {
                Some((d - now) / 1000)
            } else {
                Some(0)
            },
            None => None,
        }
    }
}

} // verus!
