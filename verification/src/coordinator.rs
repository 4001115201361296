//! The pipeline coordinator: the job ledger, the drain of worker results,
//! the expiry of retry deadlines, and the dispatch of eligible stages.
//!
//! The coordinator owns the ledger and the settings; the host drives it by
//! calling `tick` on a fixed cadence with the clock and the results drained
//! from the worker queues, and enqueues the returned dispatch actions.  All
//! transitions are given by spec functions over the views, and `tick` is
//! exactly their composition.

use vstd::prelude::*;
use crate::common::{
    DispatchAction, DispatchActionView, WorkerMessage, WorkerMessageView, WorkerType,
    WorkerTypeView,
};
use crate::dpslog::{row_of, ErrorKind, Logtype, Upload, UploadStatus};
use crate::dpsreport::{
    classify_dpsreport, classify_dpsreport_spec, format_mode_spec, DpsReportResponse,
    DpsReportResponseView, RETRY_BACKOFF_MS, RETRY_CAP,
};
use crate::evtc::{Encounter, EncounterView};
use crate::settings::{Settings, SettingsView};
use crate::step::{
    Disposition, DispositionView, Stage, StageFailure, StageFailureView, Step, StepView,
};
use crate::text::{
    contains_u16, i64_to_string, int_rep, join_crlf, join_lines, replace_seq, replace_str,
};
use crate::wingman::{classify_wingman, classify_wingman_spec, WVW_BOSS_ID};

verus! {

/// One discovered log file and its three independent stage state machines.
pub struct Job {
    /// The job's stable index into the ledger; the correlation key for
    /// every worker result.  Never reused.
    pub identity: usize,
    /// The path of the source file; immutable after creation.
    pub location: String,
    /// The parse stage.
    pub parse_state: Step<Encounter>,
    /// The report-upload stage.
    pub report_state: Step<DpsReportResponse>,
    /// The statistics-upload stage.
    pub stats_state: Step<bool>,
    /// How often the report stage has returned from `Retry` to `Pending`.
    pub report_retry_count: u32,
}

/// The mathematical value of a `Job`.
#[verifier::ext_equal]
pub struct JobView {
    pub identity: usize,
    pub location: Seq<char>,
    pub parse_state: StepView<EncounterView>,
    pub report_state: StepView<DpsReportResponseView>,
    pub stats_state: StepView<bool>,
    pub report_retry_count: u32,
}

impl View for Job {
    type V = JobView;

    open spec fn view(&self) -> JobView {
        JobView {
            identity: self.identity,
            location: self.location@,
            parse_state: self.parse_state@,
            report_state: self.report_state@,
            stats_state: self.stats_state@,
            report_retry_count: self.report_retry_count,
        }
    }
}

impl DeepView for Job {
    type V = JobView;

    open spec fn deep_view(&self) -> JobView {
        self.view()
    }
}

/// A fresh job: all stages pending, no retries spent.
pub open spec fn new_job_view(identity: usize, location: Seq<char>) -> JobView {
    JobView {
        identity,
        location,
        parse_state: StepView::Pending,
        report_state: StepView::Pending,
        stats_state: StepView::Pending,
        report_retry_count: 0,
    }
}

/// The per-job invariant the coordinator maintains:
/// - the parse stage is never skipped and never retried;
/// - the report and statistics stages leave `Pending` only once the parse
///   stage is `Done`;
/// - the statistics stage is never retried;
/// - the retry count never exceeds the cap, and a scheduled retry implies
///   the cap is not yet reached.
pub open spec fn job_inv(j: JobView) -> bool {
    &&& !(j.parse_state is Skipped)
    &&& !(j.parse_state is Retry)
    &&& (!(j.report_state is Pending) ==> j.parse_state is Done)
    &&& (!(j.stats_state is Pending) ==> j.parse_state is Done)
    &&& !(j.stats_state is Retry)
    &&& j.report_retry_count <= RETRY_CAP
    &&& (j.report_state is Retry ==> j.report_retry_count < RETRY_CAP)
}

impl Job {
    /// A job for a newly discovered file.
    pub fn new(identity: usize, location: String) -> (r: Self)
        ensures
            r@ == new_job_view(identity, location@),
    {
        Job {
            identity,
            location,
            parse_state: Step::Pending,
            report_state: Step::Pending,
            stats_state: Step::Pending,
            report_retry_count: 0,
        }
    }
}

/// `message` with every occurrence of a non-empty secret replaced.
pub open spec fn redact_seq(m: Seq<char>, token: Seq<char>) -> Seq<char> {
    if token.len() >= 1 {
        replace_seq(m, token, "******"@)
    } else {
        m
    }
}

/// A failure with the secret token scrubbed from its carried text.
pub open spec fn redact_failure_spec(f: StageFailureView, token: Seq<char>) -> StageFailureView {
    match f {
        StageFailureView::PermanentRejection(m) => StageFailureView::PermanentRejection(
            redact_seq(m, token),
        ),
        StageFailureView::Transport(m) => StageFailureView::Transport(redact_seq(m, token)),
        other => other,
    }
}

/// Scrub the bearer token from a message before it is surfaced.
pub fn redact(m: String, token: &str) -> (r: String)
    ensures
        r@ == redact_seq(m@, token@),
{
    if token.unicode_len() >= 1 {
        replace_str(m.as_str(), token, "******")
    } else {
        m
    }
}

/// Scrub the bearer token from a failure's carried text.
pub fn redact_failure(f: StageFailure, token: &str) -> (r: StageFailure)
    ensures
        r@ == redact_failure_spec(f@, token@),
{
    match f {
        StageFailure::PermanentRejection(m) => StageFailure::PermanentRejection(redact(m, token)),
        StageFailure::Transport(m) => StageFailure::Transport(redact(m, token)),
        other => other,
    }
}

/// The report step written for a classified outcome: success and fatal
/// classifications are terminal, and a transient one schedules a retry —
/// unless the cap is already spent, in which case it converts to the
/// synthesized terminal error.
pub open spec fn report_step_after(
    j: JobView,
    d: DispositionView<DpsReportResponseView>,
    now: u64,
    token: Seq<char>,
) -> StepView<DpsReportResponseView> {
    match d {
        DispositionView::Success(r) => StepView::Done(r),
        DispositionView::Fatal(c) => StepView::Error(redact_failure_spec(c, token)),
        DispositionView::Transient(backoff) => if j.report_retry_count >= RETRY_CAP {
            StepView::Error(StageFailureView::RetryExhausted)
        } else {
            StepView::Retry((now + backoff) as u64)
        },
    }
}

/// One worker result applied to the ledger: the outcome is classified by
/// the stage's retry policy and written into the job it answers; a result
/// for a stage that is not `Active` is stale and ignored.  A successful
/// report reply also refreshes the session token.
pub open spec fn drain_one(
    jobs: Seq<JobView>,
    token: Seq<char>,
    m: WorkerMessageView,
    now: u64,
) -> (Seq<JobView>, Seq<char>) {
    let idx = m.index as int;
    if idx >= jobs.len() {
        (jobs, token)
    } else {
        let j = jobs[idx];
        match m.payload {
            WorkerTypeView::Evtc(res) => {
                if j.parse_state is Active {
                    let p = match res {
                        Ok(e) => StepView::Done(e),
                        Err(msg) => StepView::Error(StageFailureView::Parse(msg)),
                    };
                    (jobs.update(idx, JobView { parse_state: p, ..j }), token)
                } else {
                    (jobs, token)
                }
            },
            WorkerTypeView::DpsReport(o) => {
                if j.report_state is Active {
                    let d = classify_dpsreport_spec(o);
                    let t2 = match d {
                        DispositionView::Success(r) => r.user_token,
                        _ => token,
                    };
                    (
                        jobs.update(
                            idx,
                            JobView { report_state: report_step_after(j, d, now, token), ..j },
                        ),
                        t2,
                    )
                } else {
                    (jobs, token)
                }
            },
            WorkerTypeView::Wingman(o) => {
                if j.stats_state is Active {
                    let s = match classify_wingman_spec(o) {
                        DispositionView::Success(b) => StepView::Done(b),
                        DispositionView::Fatal(c) => StepView::Error(
                            redact_failure_spec(c, token),
                        ),
                        DispositionView::Transient(_) => StepView::Error(
                            StageFailureView::MalformedPayload,
                        ),
                    };
                    (jobs.update(idx, JobView { stats_state: s, ..j }), token)
                } else {
                    (jobs, token)
                }
            },
        }
    }
}

/// Worker results applied to the ledger in drain order.
pub open spec fn drain_fold(
    jobs: Seq<JobView>,
    token: Seq<char>,
    ms: Seq<WorkerMessageView>,
    now: u64,
) -> (Seq<JobView>, Seq<char>)
    decreases ms.len(),
{
    if ms.len() == 0 {
        (jobs, token)
    } else {
        let (j1, t1) = drain_one(jobs, token, ms[0], now);
        drain_fold(j1, t1, ms.skip(1), now)
    }
}

proof fn lemma_drain_fold_snoc(
    jobs: Seq<JobView>,
    token: Seq<char>,
    ms: Seq<WorkerMessageView>,
    m: WorkerMessageView,
    now: u64,
)
    ensures
        drain_fold(jobs, token, ms.push(m), now) == ({
            let (j1, t1) = drain_fold(jobs, token, ms, now);
            drain_one(j1, t1, m, now)
        }),
    decreases ms.len(),
{
    if ms.len() == 0 {
        let (j1, t1) = drain_one(jobs, token, m, now);
        assert(ms.push(m)[0] == m);
        assert(ms.push(m).skip(1) =~= Seq::<WorkerMessageView>::empty());
        assert(drain_fold(jobs, token, ms.push(m), now) == drain_fold(
            j1,
            t1,
            ms.push(m).skip(1),
            now,
        ));
        assert(drain_fold(j1, t1, ms.push(m).skip(1), now) == (j1, t1));
        assert(drain_fold(jobs, token, ms, now) == (jobs, token));
    } else {
        let (j1, t1) = drain_one(jobs, token, ms[0], now);
        assert(ms.push(m)[0] == ms[0]);
        assert(ms.push(m).skip(1) =~= ms.skip(1).push(m));
        assert(drain_fold(jobs, token, ms.push(m), now) == drain_fold(
            j1,
            t1,
            ms.skip(1).push(m),
            now,
        ));
        lemma_drain_fold_snoc(j1, t1, ms.skip(1), m, now);
        assert(drain_fold(jobs, token, ms, now) == drain_fold(j1, t1, ms.skip(1), now));
    }
}

/// A job with an elapsed retry deadline returned to `Pending`; the retry
/// count grows by exactly one on that transition and only there.
pub open spec fn expire_job(j: JobView, now: u64) -> JobView {
    match j.report_state {
        StepView::Retry(d) => if d <= now {
            JobView {
                report_state: StepView::Pending,
                report_retry_count: (j.report_retry_count + 1) as u32,
                ..j
            }
        } else {
            j
        },
        _ => j,
    }
}

/// The report stage runs when enabled and the category is not excluded.
pub open spec fn report_allowed(s: SettingsView, e: EncounterView) -> bool {
    s.enable_dpsreport && !s.filter_dpsreport.contains(e.boss_id)
}

/// The statistics stage runs when enabled, the category is not the
/// reserved one, and not excluded.
pub open spec fn wingman_allowed(s: SettingsView, e: EncounterView) -> bool {
    s.enable_wingman && e.boss_id != WVW_BOSS_ID && !s.filter_wingman.contains(e.boss_id)
}

/// The recording account handed to the statistics service; empty when the
/// log carries none.
pub open spec fn account_of(e: EncounterView) -> Seq<char> {
    match e.pov_account {
        Some(a) => a,
        None => Seq::empty(),
    }
}

/// One job advanced by the dispatch rules: a pending parse goes active; a
/// job whose parse is active or failed is left alone; once the parse is
/// done, each pending downstream stage independently goes active when its
/// policy allows it and is skipped otherwise.
pub open spec fn dispatch_job(j: JobView, s: SettingsView) -> JobView {
    match j.parse_state {
        StepView::Pending => JobView { parse_state: StepView::Active, ..j },
        StepView::Done(e) => {
            let rs = if j.report_state is Pending {
                if report_allowed(s, e) {
                    StepView::Active
                } else {
                    StepView::Skipped
                }
            } else {
                j.report_state
            };
            let ws = if j.stats_state is Pending {
                if wingman_allowed(s, e) {
                    StepView::Active
                } else {
                    StepView::Skipped
                }
            } else {
                j.stats_state
            };
            JobView { report_state: rs, stats_state: ws, ..j }
        },
        _ => j,
    }
}

/// One job taken through a tick's expiry and dispatch.
pub open spec fn advance_job(j: JobView, s: SettingsView, now: u64) -> JobView {
    dispatch_job(expire_job(j, now), s)
}

/// The dispatch actions one job contributes on a tick, in order: the parse
/// job, or — once parsing is done — the report job and then the statistics
/// job, each exactly when its stage goes active.
pub open spec fn job_actions(j: JobView, s: SettingsView, now: u64) -> Seq<DispatchActionView> {
    let je = expire_job(j, now);
    match je.parse_state {
        StepView::Pending => seq![
            DispatchActionView::Evtc { identity: je.identity, location: je.location },
        ],
        StepView::Done(e) => {
            let r: Seq<DispatchActionView> = if je.report_state is Pending && report_allowed(
                s,
                e,
            ) {
                seq![
                    DispatchActionView::DpsReport {
                        identity: je.identity,
                        location: je.location,
                        token: s.dpsreport_token,
                    },
                ]
            } else {
                Seq::empty()
            };
            let w: Seq<DispatchActionView> = if je.stats_state is Pending && wingman_allowed(
                s,
                e,
            ) {
                seq![
                    DispatchActionView::Wingman {
                        identity: je.identity,
                        location: je.location,
                        account: account_of(e),
                        boss_id: e.boss_id,
                    },
                ]
            } else {
                Seq::empty()
            };
            r + w
        },
        _ => Seq::empty(),
    }
}

/// The dispatch actions of a whole tick, in ledger order.
pub open spec fn all_actions(jobs: Seq<JobView>, s: SettingsView, now: u64) -> Seq<
    DispatchActionView,
>
    decreases jobs.len(),
{
    if jobs.len() == 0 {
        Seq::empty()
    } else {
        job_actions(jobs[0], s, now) + all_actions(jobs.skip(1), s, now)
    }
}

proof fn lemma_all_actions_snoc(jobs: Seq<JobView>, j: JobView, s: SettingsView, now: u64)
    ensures
        all_actions(jobs.push(j), s, now) == all_actions(jobs, s, now) + job_actions(j, s, now),
    decreases jobs.len(),
{
    if jobs.len() == 0 {
        assert(jobs.push(j)[0] == j);
        assert(jobs.push(j).skip(1) =~= Seq::<JobView>::empty());
        assert(all_actions(jobs.push(j), s, now) == job_actions(j, s, now) + all_actions(
            jobs.push(j).skip(1),
            s,
            now,
        ));
        assert(all_actions(jobs.push(j).skip(1), s, now) == Seq::<DispatchActionView>::empty());
        assert(all_actions(jobs, s, now) == Seq::<DispatchActionView>::empty());
        assert(job_actions(j, s, now) + Seq::<DispatchActionView>::empty() =~= job_actions(
            j,
            s,
            now,
        ));
        assert(Seq::<DispatchActionView>::empty() + job_actions(j, s, now) =~= job_actions(
            j,
            s,
            now,
        ));
    } else {
        assert(jobs.push(j)[0] == jobs[0]);
        assert(jobs.push(j).skip(1) =~= jobs.skip(1).push(j));
        assert(all_actions(jobs.push(j), s, now) == job_actions(jobs[0], s, now) + all_actions(
            jobs.skip(1).push(j),
            s,
            now,
        ));
        lemma_all_actions_snoc(jobs.skip(1), j, s, now);
        assert(all_actions(jobs, s, now) == job_actions(jobs[0], s, now) + all_actions(
            jobs.skip(1),
            s,
            now,
        ));
        assert(job_actions(jobs[0], s, now) + (all_actions(jobs.skip(1), s, now) + job_actions(
            j,
            s,
            now,
        )) =~= (job_actions(jobs[0], s, now) + all_actions(jobs.skip(1), s, now)) + job_actions(
            j,
            s,
            now,
        ));
    }
}

/// A settings view with the session token replaced.
pub open spec fn with_token(s: SettingsView, t: Seq<char>) -> SettingsView {
    SettingsView { dpsreport_token: t, ..s }
}

/// An active stage resolves to exactly one of `Done`, `Error` or `Retry`,
/// and only through a drained result: draining writes one of those three
/// into an active stage (`Retry` only for the report stage), and a stage
/// that is not active is never written by a drain.  Together with
/// `lemma_dispatch_only_from_pending` this shows each stage has at most one
/// result in flight: a stage goes active only from `Pending`, and stays
/// active until its one result arrives.
pub proof fn lemma_active_resolves(
    jobs: Seq<JobView>,
    token: Seq<char>,
    m: WorkerMessageView,
    now: u64,
    i: int,
)
    requires
        0 <= i < jobs.len(),
    ensures
        ({
            let j0 = jobs[i];
            let j1 = drain_one(jobs, token, m, now).0[i];
            &&& (j0.parse_state is Active ==> j1.parse_state is Active || j1.parse_state is Done
                || j1.parse_state is Error)
            &&& (j0.report_state is Active ==> j1.report_state is Active || j1.report_state
                is Done || j1.report_state is Error || j1.report_state is Retry)
            &&& (j0.stats_state is Active ==> j1.stats_state is Active || j1.stats_state is Done
                || j1.stats_state is Error)
            &&& (!(j0.parse_state is Active) ==> j1.parse_state == j0.parse_state)
            &&& (!(j0.report_state is Active) ==> j1.report_state == j0.report_state)
            &&& (!(j0.stats_state is Active) ==> j1.stats_state == j0.stats_state)
        }),
{
}

/// A tick's expiry and dispatch never touch an active stage, and a stage
/// becomes active only from `Pending` — for the report stage also through
/// the one allowed cycle, `Retry -> Pending -> Active`, once the deadline
/// elapsed.  Since draining is the only other transition, a stage that is
/// `Active` was dispatched exactly once for this activation and awaits
/// exactly one result.
pub proof fn lemma_dispatch_only_from_pending(j: JobView, s: SettingsView, now: u64)
    ensures
        ({
            let j1 = advance_job(j, s, now);
            &&& (j.parse_state is Active ==> j1.parse_state == j.parse_state)
            &&& (j.report_state is Active ==> j1.report_state == j.report_state)
            &&& (j.stats_state is Active ==> j1.stats_state == j.stats_state)
            &&& (j1.parse_state is Active ==> j.parse_state is Active || j.parse_state
                is Pending)
            &&& (j1.report_state is Active ==> j.report_state is Active || j.report_state
                is Pending || (j.report_state matches StepView::Retry(d) && d <= now))
            &&& (j1.stats_state is Active ==> j.stats_state is Active || j.stats_state
                is Pending)
        }),
{
}

/// The retry count is monotonically non-decreasing under every transition,
/// and never exceeds the cap on a well-formed job: draining a result never
/// changes it, and a tick's expiry grows it by at most one, only on the
/// `Retry -> Pending` transition, staying within the cap.
pub proof fn lemma_retry_count_monotonic(
    jobs: Seq<JobView>,
    token: Seq<char>,
    m: WorkerMessageView,
    s: SettingsView,
    now: u64,
    i: int,
)
    requires
        0 <= i < jobs.len(),
        job_inv(jobs[i]),
    ensures
        drain_one(jobs, token, m, now).0[i].report_retry_count == jobs[i].report_retry_count,
        advance_job(jobs[i], s, now).report_retry_count >= jobs[i].report_retry_count,
        advance_job(jobs[i], s, now).report_retry_count <= RETRY_CAP,
{
}

/// The report and statistics stages are never dispatched while the parse
/// stage is not `Done`: a tick makes a downstream stage active only when
/// the job's parse stage is `Done` at that moment.
pub proof fn lemma_downstream_needs_parse(j: JobView, s: SettingsView, now: u64)
    ensures
        ({
            let j1 = advance_job(j, s, now);
            &&& (!(j.report_state is Active) && j1.report_state is Active ==> j1.parse_state
                is Done)
            &&& (!(j.stats_state is Active) && j1.stats_state is Active ==> j1.parse_state
                is Done)
        }),
{
}

/// A result tagged with identity `i` is applied to the job at position `i`
/// and to no other job.
pub proof fn lemma_identity_routing(
    jobs: Seq<JobView>,
    token: Seq<char>,
    m: WorkerMessageView,
    now: u64,
)
    ensures
        drain_one(jobs, token, m, now).0.len() == jobs.len(),
        forall|t: int|
            0 <= t < jobs.len() && t != m.index as int ==> drain_one(jobs, token, m, now).0[t]
                == jobs[t],
{
}

/// Whatever order worker results arrive in, a job receives exactly the
/// results tagged with its identity: a drain of results none of which
/// carries identity `t` leaves the job at `t` untouched.
pub proof fn lemma_identity_routing_fold(
    jobs: Seq<JobView>,
    token: Seq<char>,
    ms: Seq<WorkerMessageView>,
    now: u64,
    t: int,
)
    requires
        0 <= t < jobs.len(),
        forall|k: int| 0 <= k < ms.len() ==> (#[trigger] ms[k].index) as int != t,
    ensures
        drain_fold(jobs, token, ms, now).0.len() == jobs.len(),
        drain_fold(jobs, token, ms, now).0[t] == jobs[t],
    decreases ms.len(),
{
    if ms.len() > 0 {
        let (j1, t1) = drain_one(jobs, token, ms[0], now);
        lemma_identity_routing(jobs, token, ms[0], now);
        assert(ms[0].index as int != t);
        assert forall|k: int| 0 <= k < ms.skip(1).len() implies (#[trigger] ms.skip(
            1,
        )[k].index) as int != t by {
            assert(ms.skip(1)[k] == ms[k + 1]);
        }
        lemma_identity_routing_fold(j1, t1, ms.skip(1), now, t);
    }
}

/// A tick with no new discoveries and no pending worker results is a no-op
/// on job states: draining nothing changes nothing, advancing an
/// already-advanced job changes nothing — the second tick finds no elapsed
/// deadline to expire and no dispatchable stage — and the second tick
/// emits no dispatch actions.
pub proof fn lemma_tick_idempotent(j: JobView, s: SettingsView, now: u64)
    requires
        job_inv(j),
    ensures
        advance_job(advance_job(j, s, now), s, now) == advance_job(j, s, now),
        job_actions(advance_job(j, s, now), s, now) == Seq::<DispatchActionView>::empty(),
{
    let j1 = advance_job(j, s, now);
    assert(expire_job(j1, now) == j1);
    assert(advance_job(j1, s, now) =~= j1);
}

/// Draining an empty batch of results is the identity on the ledger and
/// the session token.
pub proof fn lemma_drain_nothing(jobs: Seq<JobView>, token: Seq<char>, now: u64)
    ensures
        drain_fold(jobs, token, Seq::empty(), now) == (jobs, token),
{
}

/// The retry count of every job is untouched by a whole drain, whatever
/// results it carries: with expiry the only transition that grows it, the
/// count is monotonically non-decreasing across any run of ticks.
pub proof fn lemma_retry_count_fold(
    jobs: Seq<JobView>,
    token: Seq<char>,
    ms: Seq<WorkerMessageView>,
    now: u64,
    t: int,
)
    requires
        0 <= t < jobs.len(),
    ensures
        drain_fold(jobs, token, ms, now).0.len() == jobs.len(),
        drain_fold(jobs, token, ms, now).0[t].report_retry_count == jobs[t].report_retry_count,
    decreases ms.len(),
{
    if ms.len() > 0 {
        let (j1, t1) = drain_one(jobs, token, ms[0], now);
        assert(j1.len() == jobs.len());
        assert(j1[t].report_retry_count == jobs[t].report_retry_count);
        lemma_retry_count_fold(j1, t1, ms.skip(1), now, t);
    }
}

proof fn lemma_all_actions_empty(jobs: Seq<JobView>, s: SettingsView, now: u64)
    requires
        forall|i: int|
            0 <= i < jobs.len() ==> job_actions(#[trigger] jobs[i], s, now) == Seq::<
                DispatchActionView,
            >::empty(),
    ensures
        all_actions(jobs, s, now) == Seq::<DispatchActionView>::empty(),
    decreases jobs.len(),
{
    if jobs.len() > 0 {
        assert forall|i: int| 0 <= i < jobs.skip(1).len() implies job_actions(
            #[trigger] jobs.skip(1)[i],
            s,
            now,
        ) == Seq::<DispatchActionView>::empty() by {
            assert(jobs.skip(1)[i] == jobs[i + 1]);
        }
        lemma_all_actions_empty(jobs.skip(1), s, now);
        assert(all_actions(jobs, s, now) =~= Seq::<DispatchActionView>::empty());
    }
}

/// Idempotence lifted to the whole ledger: once a tick has advanced every
/// job, a second advance with the same clock moves nothing and emits no
/// dispatch actions.
pub proof fn lemma_quiescent_ledger(jobs: Seq<JobView>, s: SettingsView, now: u64)
    requires
        forall|i: int| 0 <= i < jobs.len() ==> job_inv(#[trigger] jobs[i]),
    ensures
        ({
            let once = jobs.map_values(|j: JobView| advance_job(j, s, now));
            &&& once.map_values(|j: JobView| advance_job(j, s, now)) == once
            &&& all_actions(once, s, now) == Seq::<DispatchActionView>::empty()
        }),
{
    let once = jobs.map_values(|j: JobView| advance_job(j, s, now));
    let twice = once.map_values(|j: JobView| advance_job(j, s, now));
    assert forall|i: int| 0 <= i < once.len() implies #[trigger] twice[i] == once[i]
        && job_actions(once[i], s, now) == Seq::<DispatchActionView>::empty() by {
        assert(once[i] == advance_job(jobs[i], s, now));
        lemma_tick_idempotent(jobs[i], s, now);
    }
    assert(twice =~= once);
    lemma_all_actions_empty(once, s, now);
}

proof fn lemma_drain_one_wf(
    jobs: Seq<JobView>,
    token: Seq<char>,
    m: WorkerMessageView,
    now: u64,
)
    requires
        forall|t: int|
            0 <= t < jobs.len() ==> #[trigger] job_inv(jobs[t]) && jobs[t].identity == t,
    ensures
        ({
            let (j1, t1) = drain_one(jobs, token, m, now);
            &&& j1.len() == jobs.len()
            &&& forall|t: int|
                0 <= t < j1.len() ==> #[trigger] job_inv(j1[t]) && j1[t].identity == t
        }),
{
    let idx = m.index as int;
    let (j1, t1) = drain_one(jobs, token, m, now);
    if 0 <= idx < jobs.len() {
        let j = jobs[idx];
        assert(job_inv(j));
        assert forall|t: int| 0 <= t < j1.len() implies #[trigger] job_inv(j1[t])
            && j1[t].identity == t by {
            if t != idx {
                assert(j1[t] == jobs[t]);
                assert(job_inv(jobs[t]) && jobs[t].identity == t);
            } else {
                assert(job_inv(jobs[t]) && jobs[t].identity == t);
            }
        }
    }
}

proof fn lemma_advance_job_inv(j: JobView, s: SettingsView, now: u64)
    requires
        job_inv(j),
    ensures
        job_inv(advance_job(j, s, now)),
        advance_job(j, s, now).identity == j.identity,
{
}

/// The tick-driven engine owning the ledger and the policy inputs.
pub struct Coordinator {
    /// The ledger: one job per discovered file, ordered by discovery, never
    /// reordered and never removed while a session runs.
    pub jobs: Vec<Job>,
    /// The policy inputs read on every dispatch, and the session token the
    /// report service hands back.
    pub settings: Settings,
}

impl Coordinator {
    /// The ledger's mathematical value.
    pub open spec fn ledger(self) -> Seq<JobView> {
        self.jobs.deep_view()
    }

    /// Every job satisfies its invariant and sits at the index its identity
    /// names.
    pub open spec fn wf(self) -> bool {
        forall|i: int|
            0 <= i < self.ledger().len() ==> #[trigger] job_inv(self.ledger()[i])
                && self.ledger()[i].identity == i
    }

    /// A coordinator with an empty ledger.
    pub fn new(settings: Settings) -> (r: Self)
        ensures
            r.wf(),
            r.ledger().len() == 0,
            r.settings == settings,
    {
        let r = Coordinator { jobs: Vec::new(), settings };
        proof {
            assert(r.ledger() =~= Seq::<JobView>::empty());
        }
        r
    }

    /// Append a job for a newly discovered file; every stage starts
    /// `Pending`.  Returns the job's identity.
    pub fn submit(&mut self, location: String) -> (id: usize)
        requires
            old(self).wf(),
        ensures
            final(self).wf(),
            final(self).settings == old(self).settings,
            id == old(self).ledger().len(),
            final(self).ledger() == old(self).ledger().push(new_job_view(id, location@)),
    {
        let id = self.jobs.len();
        let job = Job::new(id, location);
        self.jobs.push(job);
        proof {
            assert(self.ledger() =~= old(self).ledger().push(new_job_view(id, location@)));
        }
        id
    }

    /// Append one job per discovered path, in announcement order.
    pub fn get_new_logs(&mut self, paths: Vec<String>)
        requires
            old(self).wf(),
        ensures
            final(self).wf(),
            final(self).settings == old(self).settings,
            final(self).ledger() == old(self).ledger() + Seq::new(
                paths.deep_view().len(),
                |i: int|
                    new_job_view(
                        (old(self).ledger().len() + i) as usize,
                        paths.deep_view()[i],
                    ),
            ),
    {
        let ghost base = self.ledger();
        let ghost ps = paths.deep_view();
        let mut k: usize = 0;
        while k < paths.len()
            invariant
                old(self).wf(),
                self.wf(),
                k <= ps.len(),
                ps == paths.deep_view(),
                base == old(self).ledger(),
                self.settings == old(self).settings,
                self.ledger() =~= base + Seq::new(
                    k as nat,
                    |i: int| new_job_view((base.len() + i) as usize, ps[i]),
                ),
            decreases ps.len() - k,
        {
            let location = paths[k].clone();
            proof {
                assert(paths.deep_view()[k as int] == paths@[k as int].deep_view());
            }
            self.submit(location);
            k += 1;
            proof {
                assert(self.ledger() =~= base + Seq::new(
                    k as nat,
                    |i: int| new_job_view((base.len() + i) as usize, ps[i]),
                ));
            }
        }
        proof {
            assert(self.ledger() =~= base + Seq::new(
                ps.len(),
                |i: int| new_job_view((base.len() + i) as usize, ps[i]),
            ));
        }
    }

    /// Drain worker results into the ledger: classify each outcome with its
    /// stage's retry policy and write the resulting step into the job it
    /// answers, refreshing the session token on report success.
    pub fn update_logs(&mut self, results: Vec<WorkerMessage>, now: u64)
        requires
            old(self).wf(),
            now <= u64::MAX - RETRY_BACKOFF_MS,
        ensures
            final(self).wf(),
            final(self).ledger().len() == old(self).ledger().len(),
            (final(self).ledger(), final(self).settings.dpsreport_token@) == drain_fold(
                old(self).ledger(),
                old(self).settings.dpsreport_token@,
                results.deep_view(),
                now,
            ),
            final(self).settings@ == with_token(
                old(self).settings@,
                final(self).settings.dpsreport_token@,
            ),
            final(self).settings.logpath == old(self).settings.logpath,
            final(self).settings.dpsreport_copyformat == old(self).settings.dpsreport_copyformat,
            final(self).settings.filter_dpsreport == old(self).settings.filter_dpsreport,
            final(self).settings.filter_wingman == old(self).settings.filter_wingman,
    {
        let ghost all = results.deep_view();
        let ghost base = self.ledger();
        let ghost base_token = self.settings.dpsreport_token@;
        let mut rest = results;
        let ghost mut k: int = 0;
        while rest.len() > 0
            invariant
                0 <= k <= all.len(),
                rest.deep_view() =~= all.skip(k),
                (self.ledger(), self.settings.dpsreport_token@) == drain_fold(
                    base,
                    base_token,
                    all.take(k),
                    now,
                ),
                self.wf(),
                self.ledger().len() == base.len(),
                now <= u64::MAX - RETRY_BACKOFF_MS,
                self.settings@ == with_token(old(self).settings@, self.settings.dpsreport_token@),
                self.settings.logpath == old(self).settings.logpath,
                self.settings.dpsreport_copyformat == old(self).settings.dpsreport_copyformat,
                self.settings.filter_dpsreport == old(self).settings.filter_dpsreport,
                self.settings.filter_wingman == old(self).settings.filter_wingman,
                base == old(self).ledger(),
                base_token == old(self).settings.dpsreport_token@,
            decreases rest@.len(),
        {
            let ghost pre_rest = rest@;
            let ghost pre_deep = rest.deep_view();
            let m = rest.remove(0);
            let ghost pre_jobs = self.ledger();
            let ghost pre_token = self.settings.dpsreport_token@;
            proof {
                assert(pre_deep.len() == pre_rest.len());
                assert(all.skip(k).len() == all.len() - k);
                assert(0 <= k < all.len());
                assert(pre_deep[0] == pre_rest[0].deep_view());
                assert(all.skip(k)[0] == all[k]);
                assert(m@ == all[k]);
                assert forall|t: int| 0 <= t < rest@.len() implies #[trigger] rest.deep_view()[t]
                    == all.skip(k + 1)[t] by {
                    assert(rest@[t] == pre_rest[t + 1]);
                    assert(pre_deep[t + 1] == pre_rest[t + 1].deep_view());
                    assert(all.skip(k)[t + 1] == all[k + 1 + t]);
                    assert(all.skip(k + 1)[t] == all[k + 1 + t]);
                }
                assert(rest.deep_view() =~= all.skip(k + 1));
                assert forall|t: int| 0 <= t < pre_jobs.len() implies #[trigger] job_inv(
                    pre_jobs[t],
                ) && pre_jobs[t].identity == t by {}
            }
            let WorkerMessage { index, payload } = m;
            if index < self.jobs.len() {
                match payload {
                    WorkerType::Evtc(res) => {
                        if matches!(self.jobs[index].parse_state, Step::Active) {
                            let step = match res {
                                Ok(e) => Step::Done(e),
                                Err(msg) => Step::Error(StageFailure::Parse(msg)),
                            };
                            self.jobs[index].parse_state = step;
                        }
                    },
                    WorkerType::DpsReport(o) => {
                        if matches!(self.jobs[index].report_state, Step::Active) {
                            let d = classify_dpsreport(o);
                            match d {
                                Disposition::Success(r) => {
                                    self.settings.dpsreport_token = r.user_token.clone();
                                    self.jobs[index].report_state = Step::Done(r);
                                },
                                Disposition::Fatal(c) => {
                                    let tok = self.settings.dpsreport_token.clone();
                                    let cause = redact_failure(c, tok.as_str());
                                    self.jobs[index].report_state = Step::Error(cause);
                                },
                                Disposition::Transient(backoff) => {
                                    proof {
                                        assert(backoff == RETRY_BACKOFF_MS);
                                    }
                                    if self.jobs[index].report_retry_count >= RETRY_CAP {
                                        self.jobs[index].report_state = Step::Error(
                                            StageFailure::RetryExhausted,
                                        );
                                    } else {
                                        self.jobs[index].report_state = Step::Retry(now + backoff);
                                    }
                                },
                            }
                        }
                    },
                    WorkerType::Wingman(o) => {
                        if matches!(self.jobs[index].stats_state, Step::Active) {
                            let d = classify_wingman(o);
                            match d {
                                Disposition::Success(b) => {
                                    self.jobs[index].stats_state = Step::Done(b);
                                },
                                Disposition::Fatal(c) => {
                                    let tok = self.settings.dpsreport_token.clone();
                                    let cause = redact_failure(c, tok.as_str());
                                    self.jobs[index].stats_state = Step::Error(cause);
                                },
                                Disposition::Transient(_) => {
                                    proof {
                                        assert(false);
                                    }
                                },
                            }
                        }
                    },
                }
            }
            proof {
                let (j1, t1) = drain_one(pre_jobs, pre_token, all[k], now);
                assert(self.ledger() =~= j1);
                assert(self.settings.dpsreport_token@ == t1);
                lemma_drain_one_wf(pre_jobs, pre_token, all[k], now);
                lemma_drain_fold_snoc(base, base_token, all.take(k), all[k], now);
                assert(all.take(k).push(all[k]) =~= all.take(k + 1));
                k = k + 1;
            }
        }
        proof {
            assert(all.take(k) =~= all);
        }
    }

    /// Expire elapsed retry deadlines and dispatch every eligible stage, in
    /// ledger order; returns the actions for the host to enqueue.
    pub fn advance_logs(&mut self, now: u64) -> (actions: Vec<DispatchAction>)
        requires
            old(self).wf(),
        ensures
            final(self).wf(),
            final(self).settings == old(self).settings,
            final(self).ledger().len() == old(self).ledger().len(),
            forall|i: int|
                0 <= i < final(self).ledger().len() ==> final(self).ledger()[i] == advance_job(
                    #[trigger] old(self).ledger()[i],
                    old(self).settings@,
                    now,
                ),
            actions.deep_view() == all_actions(old(self).ledger(), old(self).settings@, now),
    {
        let ghost base = self.ledger();
        let ghost s = self.settings@;
        let mut actions: Vec<DispatchAction> = Vec::new();
        let mut i: usize = 0;
        proof {
            assert(actions.deep_view() =~= all_actions(base.take(0), s, now));
        }
        while i < self.jobs.len()
            invariant
                old(self).wf(),
                self.wf(),
                i <= base.len(),
                base == old(self).ledger(),
                s == old(self).settings@,
                self.settings == old(self).settings,
                self.ledger().len() == base.len(),
                forall|m: int|
                    0 <= m < i ==> self.ledger()[m] == advance_job(
                        #[trigger] base[m],
                        s,
                        now,
                    ),
                forall|m: int| i <= m < base.len() ==> #[trigger] self.ledger()[m] == base[m],
                actions.deep_view() == all_actions(base.take(i as int), s, now),
            decreases base.len() - i,
        {
            let ghost top = self.ledger();
            let ghost pre = self.ledger()[i as int];
            let ghost pre_actions = actions.deep_view();
            proof {
                assert(job_inv(pre));
                assert(pre == self.jobs@[i as int]@);
            }
            // Expire an elapsed retry deadline.
            let mut do_expire = false;
            if let Step::Retry(d) = &self.jobs[i].report_state {
                if *d <= now {
                    do_expire = true;
                }
            }
            if do_expire {
                let c = self.jobs[i].report_retry_count;
                self.jobs[i].report_retry_count = c + 1;
                self.jobs[i].report_state = Step::Pending;
            }
            let ghost expired = self.ledger()[i as int];
            proof {
                assert(expired =~= expire_job(pre, now));
            }
            // Dispatch.
            if matches!(self.jobs[i].parse_state, Step::Pending) {
                self.jobs[i].parse_state = Step::Active;
                let id = self.jobs[i].identity;
                let loc = self.jobs[i].location.clone();
                actions.push(DispatchAction::Evtc { identity: id, location: loc });
            } else {
                let summary: Option<(u16, String)> = match &self.jobs[i].parse_state {
                    Step::Done(e) => Some(
                        (
                            e.boss_id,
                            match &e.pov_account {
                                Some(a) => a.clone(),
                                None => String::new(),
                            },
                        ),
                    ),
                    _ => None,
                };
                if let Some((boss_id, account)) = summary {
                    if matches!(self.jobs[i].report_state, Step::Pending) {
                        let allowed = self.settings.enable_dpsreport && !contains_u16(
                            &self.settings.filter_dpsreport,
                            boss_id,
                        );
                        if allowed {
                            self.jobs[i].report_state = Step::Active;
                            let id = self.jobs[i].identity;
                            let loc = self.jobs[i].location.clone();
                            let token = self.settings.dpsreport_token.clone();
                            actions.push(
                                DispatchAction::DpsReport { identity: id, location: loc, token },
                            );
                        } else {
                            self.jobs[i].report_state = Step::Skipped;
                        }
                    }
                    if matches!(self.jobs[i].stats_state, Step::Pending) {
                        let allowed = self.settings.enable_wingman && boss_id != WVW_BOSS_ID
                            && !contains_u16(&self.settings.filter_wingman, boss_id);
                        if allowed {
                            self.jobs[i].stats_state = Step::Active;
                            let id = self.jobs[i].identity;
                            let loc = self.jobs[i].location.clone();
                            actions.push(
                                DispatchAction::Wingman {
                                    identity: id,
                                    location: loc,
                                    account,
                                    boss_id,
                                },
                            );
                        } else {
                            self.jobs[i].stats_state = Step::Skipped;
                        }
                    }
                }
            }
            proof {
                assert(self.ledger()[i as int] =~= advance_job(pre, s, now));
                lemma_advance_job_inv(pre, s, now);
                assert forall|t: int| 0 <= t < self.ledger().len() && t != i as int
                    implies #[trigger] self.ledger()[t] == top[t] by {
                    assert(self.ledger()[t] == self.jobs@[t].deep_view());
                }
                assert forall|t: int| 0 <= t < self.ledger().len() implies #[trigger] job_inv(
                    self.ledger()[t],
                ) && self.ledger()[t].identity == t by {
                    if t < i as int {
                        assert(top[t] == advance_job(base[t], s, now));
                        assert(self.ledger()[t] == advance_job(base[t], s, now));
                        assert(job_inv(base[t]));
                        assert(base[t].identity == t);
                        lemma_advance_job_inv(base[t], s, now);
                    } else if t > i as int {
                        assert(top[t] == base[t]);
                        assert(self.ledger()[t] == base[t]);
                        assert(job_inv(base[t]));
                        assert(base[t].identity == t);
                    }
                }
                assert forall|m: int| i + 1 <= m < base.len() implies #[trigger] self.ledger()[m]
                    == base[m] by {
                    assert(top[m] == base[m]);
                }
                assert forall|m: int| 0 <= m < i + 1 implies self.ledger()[m] == advance_job(
                    #[trigger] base[m],
                    s,
                    now,
                ) by {
                    if m < i as int {
                        assert(top[m] == advance_job(base[m], s, now));
                    }
                }
                assert(actions.deep_view() =~= pre_actions + job_actions(pre, s, now));
                lemma_all_actions_snoc(base.take(i as int), pre, s, now);
                assert(base.take(i as int).push(pre) =~= base.take(i + 1));
            }
            i += 1;
        }
        proof {
            assert(base.take(base.len() as int) =~= base);
        }
        actions
    }

    /// One tick: drain the worker results, expire elapsed retry deadlines,
    /// and dispatch every eligible stage.  Non-blocking by construction:
    /// the host passes in what its queues held.
    pub fn tick(&mut self, now: u64, results: Vec<WorkerMessage>) -> (actions: Vec<
        DispatchAction,
    >)
        requires
            old(self).wf(),
            now <= u64::MAX - RETRY_BACKOFF_MS,
        ensures
            final(self).wf(),
            ({
                let (dj, dt) = drain_fold(
                    old(self).ledger(),
                    old(self).settings.dpsreport_token@,
                    results.deep_view(),
                    now,
                );
                let s_mid = with_token(old(self).settings@, dt);
                &&& final(self).settings@ == s_mid
                &&& final(self).ledger() =~= dj.map_values(
                    |j: JobView| advance_job(j, s_mid, now),
                )
                &&& actions.deep_view() == all_actions(dj, s_mid, now)
            }),
    {
        self.update_logs(results, now);
        let actions = self.advance_logs(now);
        proof {
            let (dj, dt) = drain_fold(
                old(self).ledger(),
                old(self).settings.dpsreport_token@,
                results.deep_view(),
                now,
            );
            let s_mid = with_token(old(self).settings@, dt);
            assert(self.ledger() =~= dj.map_values(|j: JobView| advance_job(j, s_mid, now)));
        }
        actions
    }

    /// A job rearmed by explicit external action: the named stage, when it
    /// is in terminal error, returns to `Pending`; anything else is left
    /// alone.
    pub fn rearm(&mut self, identity: usize, stage: Stage)
        requires
            old(self).wf(),
            identity < old(self).ledger().len(),
        ensures
            final(self).wf(),
            final(self).settings == old(self).settings,
            final(self).ledger() == old(self).ledger().update(
                identity as int,
                rearm_job(old(self).ledger()[identity as int], stage),
            ),
    {
        let ghost pre = self.ledger();
        match stage {
            Stage::Parse => {
                if matches!(self.jobs[identity].parse_state, Step::Error(_)) {
                    self.jobs[identity].parse_state = Step::Pending;
                }
            },
            Stage::Report => {
                if matches!(self.jobs[identity].report_state, Step::Error(_)) {
                    self.jobs[identity].report_state = Step::Pending;
                }
            },
            Stage::Stats => {
                if matches!(self.jobs[identity].stats_state, Step::Error(_)) {
                    self.jobs[identity].stats_state = Step::Pending;
                }
            },
        }
        proof {
            assert(self.ledger() =~= pre.update(
                identity as int,
                rearm_job(pre[identity as int], stage),
            ));
            assert forall|t: int| 0 <= t < self.ledger().len() implies #[trigger] job_inv(
                self.ledger()[t],
            ) && self.ledger()[t].identity == t by {
                assert(job_inv(pre[t]));
                assert(pre[t].identity == t);
                if t == identity as int {
                    assert(self.ledger()[t] == rearm_job(pre[t], stage));
                    assert(job_inv(rearm_job(pre[t], stage)));
                    assert(rearm_job(pre[t], stage).identity == pre[t].identity);
                } else {
                    assert(self.ledger()[t] == pre[t]);
                }
            }
            assert(self.wf());
        }
    }
}

/// The permalink line for one finished report, rendered through the user's
/// copy template: `@1` is replaced by the permalink, `@2` by the boss name
/// with its difficulty label, `@3` by the category id, and `@4` by the
/// outcome.
pub open spec fn format_url_spec(r: DpsReportResponseView, template: Seq<char>) -> Seq<char> {
    let success = if r.encounter.success {
        "Success"@
    } else {
        "Fail"@
    };
    let mode = match format_mode_spec(r.encounter) {
        Some(m) => m,
        None => "Unknown"@,
    };
    let cm = if mode.len() == 0 {
        Seq::<char>::empty()
    } else {
        " ("@ + mode + ")"@
    };
    let boss = r.encounter.boss + cm;
    replace_seq(
        replace_seq(
            replace_seq(replace_seq(template, "@1"@, r.permalink), "@2"@, boss),
            "@3"@,
            int_rep(r.encounter.boss_id as int),
        ),
        "@4"@,
        success,
    )
}

/// Render one finished report through the copy template.
pub fn format_url(dpsreport: &DpsReportResponse, format_template: &str) -> (r: String)
    ensures
        r@ == format_url_spec(dpsreport@, format_template@),
{
    proof {
        reveal_strlit("@1");
        reveal_strlit("@2");
        reveal_strlit("@3");
        reveal_strlit("@4");
        reveal_strlit("Success");
        reveal_strlit("Fail");
        reveal_strlit("Unknown");
        reveal_strlit(" (");
        reveal_strlit(")");
    }
    let success = if dpsreport.encounter.success {
        "Success"
    } else {
        "Fail"
    };
    let mode = match dpsreport.encounter.format_mode() {
        Some(m) => m,
        None => String::from_str("Unknown"),
    };
    let mut boss = dpsreport.encounter.boss.clone();
    if mode.as_str().unicode_len() > 0 {
        boss.append(" (");
        boss.append(mode.as_str());
        boss.append(")");
        proof {
            assert(" ("@ + mode@ + ")"@ =~= boss@.skip(dpsreport.encounter.boss@.len() as int));
            assert(boss@ =~= dpsreport.encounter.boss@ + (" ("@ + mode@ + ")"@));
        }
    }
    let r1 = replace_str(format_template, "@1", dpsreport.permalink.as_str());
    let r2 = replace_str(r1.as_str(), "@2", boss.as_str());
    let id = i64_to_string(dpsreport.encounter.boss_id);
    let r3 = replace_str(r2.as_str(), "@3", id.as_str());
    replace_str(r3.as_str(), "@4", success)
}

/// The permalink lines of the finished reports whose outcome the copy
/// filters admit, in ledger order.
pub open spec fn copy_urls_spec(jobs: Seq<JobView>, s: SettingsView) -> Seq<Seq<char>>
    decreases jobs.len(),
{
    if jobs.len() == 0 {
        Seq::empty()
    } else {
        let rest = copy_urls_spec(jobs.skip(1), s);
        match jobs[0].report_state {
            StepView::Done(r) => if (r.encounter.success && !s.copy_success) || (
            !r.encounter.success && !s.copy_failure) {
                rest
            } else {
                seq![format_url_spec(r, s.dpsreport_copyformat)] + rest
            },
            _ => rest,
        }
    }
}

fn collect_urls_from(logs: &Vec<Job>, settings: &Settings, from: usize) -> (r: Vec<String>)
    requires
        from <= logs@.len(),
    ensures
        r.deep_view() == copy_urls_spec(logs.deep_view().skip(from as int), settings@),
    decreases logs@.len() - from,
{
    let ghost js = logs.deep_view();
    if from == logs.len() {
        let r: Vec<String> = Vec::new();
        proof {
            assert(js.skip(from as int) =~= Seq::<JobView>::empty());
            assert(r.deep_view() =~= Seq::<Seq<char>>::empty());
        }
        r
    } else {
        let mut rest = collect_urls_from(logs, settings, from + 1);
        proof {
            assert(js.skip(from as int).skip(1) =~= js.skip(from + 1));
            assert(js.skip(from as int)[0] == js[from as int]);
            assert(js[from as int] == logs@[from as int]@);
        }
        let picked: Option<String> = match &logs[from].report_state {
            Step::Done(r) => {
                if (r.encounter.success && !settings.copy_success) || (!r.encounter.success
                    && !settings.copy_failure) {
                    None
                } else {
                    Some(format_url(r, settings.dpsreport_copyformat.as_str()))
                }
            },
            _ => None,
        };
        match picked {
            Some(url) => {
                rest.insert(0, url);
                proof {
                    assert(rest.deep_view() =~= seq![
                        format_url_spec(
                            js[from as int].report_state->Done_0,
                            settings@.dpsreport_copyformat,
                        ),
                    ] + copy_urls_spec(js.skip(from + 1), settings@));
                }
                rest
            },
            None => rest,
        }
    }
}

impl Coordinator {
    /// The permalink lines admitted by the copy filters, joined for the
    /// clipboard.
    pub fn collect_urls(logs: &Vec<Job>, settings: &Settings) -> (r: String)
        ensures
            r@ == join_crlf(copy_urls_spec(logs.deep_view(), settings@)),
    {
        let urls = collect_urls_from(logs, settings, 0);
        proof {
            assert(logs.deep_view().skip(0) =~= logs.deep_view());
        }
        join_lines(&urls)
    }

    /// A read-only, consistent view of the ledger for presentation: one row
    /// per job, in ledger order.
    pub fn snapshot(&self) -> (rows: Vec<Upload>)
        ensures
            rows.deep_view().len() == self.ledger().len(),
            forall|i: int|
                0 <= i < self.ledger().len() ==> rows.deep_view()[i] == row_of(
                    #[trigger] self.ledger()[i],
                ),
    {
        let mut rows: Vec<Upload> = Vec::new();
        let mut i: usize = 0;
        while i < self.jobs.len()
            invariant
                i <= self.ledger().len(),
                self.ledger().len() == self.jobs@.len(),
                rows.deep_view().len() == i,
                forall|t: int|
                    0 <= t < i ==> rows.deep_view()[t] == row_of(#[trigger] self.ledger()[t]),
            decreases self.jobs@.len() - i,
        {
            let job = &self.jobs[i];
            let status: UploadStatus = if let Step::Error(f) = &job.parse_state {
                UploadStatus::Error(ErrorKind::Parser(f.duplicate()))
            } else if let Step::Error(f) = &job.report_state {
                UploadStatus::Error(ErrorKind::DpsReport(f.duplicate()))
            } else if let Step::Error(f) = &job.stats_state {
                UploadStatus::Error(ErrorKind::Wingman(f.duplicate()))
            } else if !matches!(job.parse_state, Step::Done(_)) {
                UploadStatus::Pending
            } else if matches!(job.report_state, Step::Active) || matches!(
                job.report_state,
                Step::Retry(_),
            ) {
                UploadStatus::DpsReportInProgress
            } else if matches!(job.report_state, Step::Pending) {
                UploadStatus::Pending
            } else if matches!(job.stats_state, Step::Active) {
                UploadStatus::WingmanInProgress
            } else if matches!(job.stats_state, Step::Pending) {
                UploadStatus::DpsReportDone
            } else if matches!(job.stats_state, Step::Skipped) {
                UploadStatus::WingmanSkipped
            } else {
                UploadStatus::Done
            };
            let logtype: Logtype = match &job.parse_state {
                Step::Done(e) => Logtype::of_boss(e.boss_id),
                _ => Logtype::Pve,
            };
            let (obj, url): (Option<DpsReportResponse>, Option<String>) = match &job.report_state {
                Step::Done(r) => (Some(r.duplicate()), Some(r.permalink.clone())),
                _ => (None, None),
            };
            let retry_at: Option<u64> = match &job.report_state {
                Step::Retry(d) => Some(*d),
                _ => None,
            };
            let row = Upload {
                status,
                logtype,
                file: job.location.clone(),
                dpsreportobject: obj,
                dpsreporturl: url,
                wingmanurl: None,
                retry_at,
            };
            rows.push(row);
            proof {
                assert(rows.deep_view()[i as int] =~= row_of(self.ledger()[i as int]));
            }
            i += 1;
        }
        rows
    }
}

/// A stage reset to `Pending` when it sits in terminal error.
pub open spec fn rearm_job(j: JobView, stage: Stage) -> JobView {
    match stage {
        Stage::Parse => if j.parse_state is Error {
            JobView { parse_state: StepView::Pending, ..j }
        } else {
            j
        },
        Stage::Report => if j.report_state is Error {
            JobView { report_state: StepView::Pending, ..j }
        } else {
            j
        },
        Stage::Stats => if j.stats_state is Error {
            JobView { stats_state: StepView::Pending, ..j }
        } else {
            j
        },
    }
}

} // verus!
