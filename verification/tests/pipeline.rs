//! End-to-end scenarios for the coordinator: discovery, dispatch, drain,
//! retry and expiry, all driven through `tick` with an injected clock.

use log_uploader::common::{DispatchAction, WorkerMessage};
use log_uploader::coordinator::Coordinator;
use log_uploader::dpsreport::{DpsReportOutcome, DpsReportResponse, PlayerResponse};
use log_uploader::dpsreport::Encounter as ReportEncounter;
use log_uploader::evtc::Encounter;
use log_uploader::settings::Settings;
use log_uploader::step::{Stage, StageFailure, Step};
use log_uploader::wingman::WingmanOutcome;

fn settings() -> Settings {
    Settings::default()
}

fn encounter(boss_id: u16) -> Encounter {
    Encounter {
        boss_id,
        pov_account: Some("account.1234".to_string()),
        participants: vec!["account.1234".to_string(), "friend.5678".to_string()],
    }
}

fn response(token: &str) -> DpsReportResponse {
    DpsReportResponse {
        id: "rep-1".to_string(),
        permalink: "https://dps.report/abcd".to_string(),
        user_token: token.to_string(),
        encounter: ReportEncounter {
            boss_id: 15429,
            success: true,
            boss: "Gorseval the Multifarious".to_string(),
            is_cm: Some(false),
            is_legendary_cm: Some(false),
            emboldened: Some(0),
        },
        players: PlayerResponse::List(vec![]),
    }
}

fn reply(status: u16, body: &str, payload: Option<DpsReportResponse>) -> DpsReportOutcome {
    DpsReportOutcome::Reply { status, body: body.to_string(), payload }
}

#[test]
fn submit_assigns_sequential_identities() {
    let mut c = Coordinator::new(settings());
    assert_eq!(c.submit("a.zevtc".to_string()), 0);
    assert_eq!(c.submit("b.zevtc".to_string()), 1);
    assert_eq!(c.jobs.len(), 2);
    assert_eq!(c.jobs[1].identity, 1);
    assert!(matches!(c.jobs[1].parse_state, Step::Pending));
    assert!(matches!(c.jobs[1].report_state, Step::Pending));
    assert!(matches!(c.jobs[1].stats_state, Step::Pending));
    assert_eq!(c.jobs[1].report_retry_count, 0);
}

#[test]
fn get_new_logs_appends_in_order() {
    let mut c = Coordinator::new(settings());
    c.get_new_logs(vec!["a.zevtc".to_string(), "b.zevtc".to_string()]);
    assert_eq!(c.jobs.len(), 2);
    assert_eq!(c.jobs[0].location, "a.zevtc");
    assert_eq!(c.jobs[1].location, "b.zevtc");
}

#[test]
fn first_tick_dispatches_parse_only() {
    let mut c = Coordinator::new(settings());
    let id = c.submit("a.zevtc".to_string());
    let actions = c.tick(0, vec![]);
    assert_eq!(actions.len(), 1);
    assert!(
        matches!(&actions[0], DispatchAction::Evtc { identity, location } if *identity == id && location == "a.zevtc")
    );
    assert!(matches!(c.jobs[0].parse_state, Step::Active));
    // downstream stages wait for the parse result
    assert!(matches!(c.jobs[0].report_state, Step::Pending));
    assert!(matches!(c.jobs[0].stats_state, Step::Pending));
    // while the parse is active, nothing further is dispatched
    let again = c.tick(0, vec![]);
    assert_eq!(again.len(), 0);
}

#[test]
fn parse_done_dispatches_report_and_stats_independently() {
    let mut c = Coordinator::new(settings());
    let id = c.submit("a.zevtc".to_string());
    c.tick(0, vec![]);
    let actions = c.tick(0, vec![WorkerMessage::evtc(id, Ok(encounter(15429)))]);
    assert_eq!(actions.len(), 2);
    assert!(matches!(&actions[0], DispatchAction::DpsReport { identity, .. } if *identity == id));
    assert!(
        matches!(&actions[1], DispatchAction::Wingman { identity, account, boss_id, .. }
            if *identity == id && account == "account.1234" && *boss_id == 15429)
    );
    assert!(matches!(c.jobs[0].report_state, Step::Active));
    assert!(matches!(c.jobs[0].stats_state, Step::Active));
}

#[test]
fn scenario_retry_after_rate_limit() {
    // a 429 reply schedules a retry thirty seconds out; before the
    // deadline a tick leaves it alone; at the deadline the stage returns
    // to pending and is re-dispatched in the same tick
    let mut c = Coordinator::new(settings());
    let id = c.submit("a.zevtc".to_string());
    c.tick(0, vec![]);
    c.tick(0, vec![WorkerMessage::evtc(id, Ok(encounter(15429)))]);
    let actions = c.tick(1000, vec![WorkerMessage::dpsreport(id, reply(429, "", None))]);
    assert!(matches!(c.jobs[0].report_state, Step::Retry(31000)));
    assert!(actions.is_empty());
    let actions = c.tick(30999, vec![]);
    assert!(matches!(c.jobs[0].report_state, Step::Retry(31000)));
    assert!(actions.is_empty());
    assert_eq!(c.jobs[0].report_retry_count, 0);
    let actions = c.tick(31000, vec![]);
    assert!(matches!(c.jobs[0].report_state, Step::Active));
    assert_eq!(c.jobs[0].report_retry_count, 1);
    assert_eq!(actions.len(), 1);
    assert!(matches!(&actions[0], DispatchAction::DpsReport { identity, .. } if *identity == id));
}

#[test]
fn scenario_permanent_rejection_is_not_retried() {
    // a 403 whose body names a permanent-rejection phrase becomes a
    // terminal error at once
    let mut c = Coordinator::new(settings());
    let id = c.submit("a.zevtc".to_string());
    c.tick(0, vec![]);
    c.tick(0, vec![WorkerMessage::evtc(id, Ok(encounter(15429)))]);
    let body = "{\"error\":\"encounter too short\"}";
    c.tick(0, vec![WorkerMessage::dpsreport(id, reply(403, body, None))]);
    match &c.jobs[0].report_state {
        Step::Error(StageFailure::PermanentRejection(m)) => {
            assert!(m.contains("encounter too short"));
        }
        other => panic!("expected a permanent rejection, got {:?}", std::mem::discriminant(other)),
    }
    // no retry is ever scheduled afterwards
    let actions = c.tick(120_000, vec![]);
    assert!(actions.is_empty());
    assert!(matches!(c.jobs[0].report_state, Step::Error(_)));
}

#[test]
fn generic_forbidden_is_retried() {
    let mut c = Coordinator::new(settings());
    let id = c.submit("a.zevtc".to_string());
    c.tick(0, vec![]);
    c.tick(0, vec![WorkerMessage::evtc(id, Ok(encounter(15429)))]);
    let body = "{\"error\":\"token busy, try later\"}";
    c.tick(500, vec![WorkerMessage::dpsreport(id, reply(403, body, None))]);
    assert!(matches!(c.jobs[0].report_state, Step::Retry(30500)));
}

#[test]
fn scenario_retry_cap_exhausted() {
    // three transient failures spend the cap; the fourth converts to the
    // synthesized terminal error instead of another retry
    let mut c = Coordinator::new(settings());
    let id = c.submit("a.zevtc".to_string());
    c.tick(0, vec![]);
    c.tick(0, vec![WorkerMessage::evtc(id, Ok(encounter(15429)))]);
    let mut now: u64 = 0;
    let mut last_count = 0;
    for round in 0..3u32 {
        c.tick(now, vec![WorkerMessage::dpsreport(id, reply(503, "", None))]);
        assert!(matches!(c.jobs[0].report_state, Step::Retry(_)));
        now += 30_000;
        c.tick(now, vec![]);
        assert!(matches!(c.jobs[0].report_state, Step::Active));
        assert_eq!(c.jobs[0].report_retry_count, round + 1);
        // the count never decreases
        assert!(c.jobs[0].report_retry_count >= last_count);
        last_count = c.jobs[0].report_retry_count;
    }
    assert_eq!(c.jobs[0].report_retry_count, 3);
    c.tick(now, vec![WorkerMessage::dpsreport(id, reply(503, "", None))]);
    match &c.jobs[0].report_state {
        Step::Error(StageFailure::RetryExhausted) => {}
        _ => panic!("expected the retry limit error"),
    }
    assert_eq!(
        match &c.jobs[0].report_state {
            Step::Error(f) => f.describe(),
            _ => unreachable!(),
        },
        "Retry limit reached"
    );
    // the cap was never exceeded before the stage became an error
    assert_eq!(c.jobs[0].report_retry_count, 3);
}

#[test]
fn scenario_parse_failure_gates_downstream() {
    // a failed parse leaves both downstream stages pending forever
    let mut c = Coordinator::new(settings());
    let id = c.submit("broken.zevtc".to_string());
    c.tick(0, vec![]);
    let actions = c.tick(
        0,
        vec![WorkerMessage::evtc(id, Err("not an evtc file".to_string()))],
    );
    assert!(actions.is_empty());
    assert!(matches!(
        c.jobs[0].parse_state,
        Step::Error(StageFailure::Parse(_))
    ));
    assert!(matches!(c.jobs[0].report_state, Step::Pending));
    assert!(matches!(c.jobs[0].stats_state, Step::Pending));
    for t in 1..5u64 {
        let actions = c.tick(t * 60_000, vec![]);
        assert!(actions.is_empty());
        assert!(matches!(c.jobs[0].report_state, Step::Pending));
        assert!(matches!(c.jobs[0].stats_state, Step::Pending));
    }
}

#[test]
fn scenario_reserved_category_skips_stats() {
    // the reserved category is excluded from the statistics stage while
    // the report stage proceeds normally
    let mut c = Coordinator::new(settings());
    let id = c.submit("wvw.zevtc".to_string());
    c.tick(0, vec![]);
    let actions = c.tick(0, vec![WorkerMessage::evtc(id, Ok(encounter(1)))]);
    assert_eq!(actions.len(), 1);
    assert!(matches!(&actions[0], DispatchAction::DpsReport { .. }));
    assert!(matches!(c.jobs[0].report_state, Step::Active));
    assert!(matches!(c.jobs[0].stats_state, Step::Skipped));
}

#[test]
fn disabled_stages_are_skipped() {
    let mut s = settings();
    s.enable_dpsreport = false;
    s.enable_wingman = false;
    let mut c = Coordinator::new(s);
    let id = c.submit("a.zevtc".to_string());
    c.tick(0, vec![]);
    let actions = c.tick(0, vec![WorkerMessage::evtc(id, Ok(encounter(15429)))]);
    assert!(actions.is_empty());
    assert!(matches!(c.jobs[0].report_state, Step::Skipped));
    assert!(matches!(c.jobs[0].stats_state, Step::Skipped));
}

#[test]
fn excluded_categories_are_skipped_per_stage() {
    let mut s = settings();
    s.filter_dpsreport = vec![15429];
    let mut c = Coordinator::new(s);
    let id = c.submit("a.zevtc".to_string());
    c.tick(0, vec![]);
    let actions = c.tick(0, vec![WorkerMessage::evtc(id, Ok(encounter(15429)))]);
    assert_eq!(actions.len(), 1);
    assert!(matches!(&actions[0], DispatchAction::Wingman { .. }));
    assert!(matches!(c.jobs[0].report_state, Step::Skipped));
    assert!(matches!(c.jobs[0].stats_state, Step::Active));
}

#[test]
fn identity_routes_results_whatever_the_order() {
    // results drained out of order land on the jobs their identities name
    let mut c = Coordinator::new(settings());
    let a = c.submit("a.zevtc".to_string());
    let b = c.submit("b.zevtc".to_string());
    c.tick(0, vec![]);
    c.tick(
        0,
        vec![
            WorkerMessage::evtc(b, Ok(encounter(7))),
            WorkerMessage::evtc(a, Err("bad header".to_string())),
        ],
    );
    assert!(matches!(c.jobs[a].parse_state, Step::Error(_)));
    match &c.jobs[b].parse_state {
        Step::Done(e) => assert_eq!(e.boss_id, 7),
        _ => panic!("expected the parse summary on job b"),
    }
}

#[test]
fn stale_results_are_ignored() {
    // a result for a stage that is not active is dropped
    let mut c = Coordinator::new(settings());
    let id = c.submit("a.zevtc".to_string());
    // parse was never dispatched: the stage is pending, not active
    c.tick(u64::MAX - 30_000, vec![WorkerMessage::dpsreport(id, reply(200, "", None))]);
    assert!(matches!(c.jobs[0].report_state, Step::Pending));
}

#[test]
fn quiescent_tick_is_a_noop() {
    // with nothing discovered and nothing drained, a tick changes no job
    // state and emits nothing
    let mut c = Coordinator::new(settings());
    let id = c.submit("a.zevtc".to_string());
    c.tick(0, vec![]);
    c.tick(0, vec![WorkerMessage::evtc(id, Ok(encounter(15429)))]);
    c.tick(0, vec![WorkerMessage::dpsreport(id, reply(200, "", Some(response("t"))))]);
    c.tick(0, vec![WorkerMessage::wingman(id, WingmanOutcome::Reply { status: 200, result: Some(true) })]);
    let before = c.snapshot();
    let actions = c.tick(0, vec![]);
    assert!(actions.is_empty());
    let after = c.snapshot();
    assert_eq!(before.len(), after.len());
    for (x, y) in before.iter().zip(after.iter()) {
        assert_eq!(x.status.label(), y.status.label());
        assert_eq!(x.file, y.file);
        assert_eq!(x.dpsreporturl, y.dpsreporturl);
        assert_eq!(x.retry_at, y.retry_at);
    }
}

#[test]
fn report_success_threads_the_session_token() {
    let mut c = Coordinator::new(settings());
    let a = c.submit("a.zevtc".to_string());
    c.tick(0, vec![]);
    c.tick(0, vec![WorkerMessage::evtc(a, Ok(encounter(15429)))]);
    c.tick(0, vec![WorkerMessage::dpsreport(a, reply(200, "", Some(response("fresh-token"))))]);
    assert_eq!(c.settings.dpsreport_token, "fresh-token");
    // the next report dispatch carries the refreshed token
    let b = c.submit("b.zevtc".to_string());
    c.tick(0, vec![]);
    let actions = c.tick(0, vec![WorkerMessage::evtc(b, Ok(encounter(15429)))]);
    match &actions[0] {
        DispatchAction::DpsReport { token, .. } => assert_eq!(token, "fresh-token"),
        _ => panic!("expected a report dispatch"),
    }
}

#[test]
fn malformed_success_payload_is_fatal() {
    let mut c = Coordinator::new(settings());
    let id = c.submit("a.zevtc".to_string());
    c.tick(0, vec![]);
    c.tick(0, vec![WorkerMessage::evtc(id, Ok(encounter(15429)))]);
    c.tick(0, vec![WorkerMessage::dpsreport(id, reply(204, "not json", None))]);
    assert!(matches!(
        c.jobs[0].report_state,
        Step::Error(StageFailure::MalformedPayload)
    ));
}

#[test]
fn transport_failure_is_transient_for_report_and_fatal_for_stats() {
    let mut c = Coordinator::new(settings());
    let id = c.submit("a.zevtc".to_string());
    c.tick(0, vec![]);
    c.tick(0, vec![WorkerMessage::evtc(id, Ok(encounter(15429)))]);
    c.tick(
        100,
        vec![
            WorkerMessage::dpsreport(
                id,
                DpsReportOutcome::Transport { message: "read timeout".to_string() },
            ),
            WorkerMessage::wingman(
                id,
                WingmanOutcome::Transport { message: "connection reset".to_string() },
            ),
        ],
    );
    assert!(matches!(c.jobs[0].report_state, Step::Retry(30100)));
    assert!(matches!(
        c.jobs[0].stats_state,
        Step::Error(StageFailure::Transport(_))
    ));
}

#[test]
fn stats_transport_message_is_redacted() {
    // a stored transport message never carries the bearer token
    let mut s = settings();
    s.dpsreport_token = "hushhush".to_string();
    let mut c = Coordinator::new(s);
    let id = c.submit("a.zevtc".to_string());
    c.tick(0, vec![]);
    c.tick(0, vec![WorkerMessage::evtc(id, Ok(encounter(15429)))]);
    c.tick(
        0,
        vec![WorkerMessage::wingman(
            id,
            WingmanOutcome::Transport { message: "post with hushhush failed".to_string() },
        )],
    );
    match &c.jobs[0].stats_state {
        Step::Error(StageFailure::Transport(m)) => {
            assert_eq!(m, "post with ****** failed");
        }
        _ => panic!("expected a transport failure"),
    }
}

#[test]
fn duplicate_accepted_status_counts_as_success() {
    let mut c = Coordinator::new(settings());
    let id = c.submit("a.zevtc".to_string());
    c.tick(0, vec![]);
    c.tick(0, vec![WorkerMessage::evtc(id, Ok(encounter(15429)))]);
    c.tick(
        0,
        vec![WorkerMessage::wingman(id, WingmanOutcome::Reply { status: 409, result: None })],
    );
    assert!(matches!(c.jobs[0].stats_state, Step::Done(true)));
}

#[test]
fn rearm_resets_a_fatal_stage_to_pending() {
    let mut c = Coordinator::new(settings());
    let id = c.submit("a.zevtc".to_string());
    c.tick(0, vec![]);
    c.tick(0, vec![WorkerMessage::evtc(id, Ok(encounter(15429)))]);
    c.tick(0, vec![WorkerMessage::dpsreport(id, reply(418, "", None))]);
    assert!(matches!(c.jobs[0].report_state, Step::Error(_)));
    c.rearm(id, Stage::Report);
    assert!(matches!(c.jobs[0].report_state, Step::Pending));
    // a rearm of a stage that is not in error changes nothing
    c.rearm(id, Stage::Parse);
    assert!(matches!(c.jobs[0].parse_state, Step::Done(_)));
    // the rearmed stage is dispatched again
    let actions = c.tick(0, vec![]);
    assert_eq!(actions.len(), 1);
    assert!(matches!(&actions[0], DispatchAction::DpsReport { .. }));
}
