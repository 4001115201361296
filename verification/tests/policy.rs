//! The retry policy in isolation: one classification per outcome shape,
//! and the failure texts.

use log_uploader::dpsreport::{
    classify_dpsreport, permanent_rejection, DpsReportError, DpsReportOutcome, DpsReportResponse,
    Encounter, PlayerResponse,
};
use log_uploader::step::{Disposition, StageFailure};
use log_uploader::wingman::{classify_wingman, WingmanOutcome};

fn payload() -> DpsReportResponse {
    DpsReportResponse {
        id: "rep-9".to_string(),
        permalink: "https://dps.report/xyz".to_string(),
        user_token: "tok".to_string(),
        encounter: Encounter {
            boss_id: 1,
            success: false,
            boss: "World vs World".to_string(),
            is_cm: None,
            is_legendary_cm: None,
            emboldened: None,
        },
        players: PlayerResponse::Keyed(vec![]),
    }
}

fn reply(status: u16, body: &str, payload: Option<DpsReportResponse>) -> DpsReportOutcome {
    DpsReportOutcome::Reply { status, body: body.to_string(), payload }
}

#[test]
fn report_success_carries_the_payload() {
    match classify_dpsreport(reply(200, "{}", Some(payload()))) {
        Disposition::Success(r) => assert_eq!(r.permalink, "https://dps.report/xyz"),
        _ => panic!("expected success"),
    }
}

#[test]
fn report_undecodable_success_body_is_fatal() {
    assert!(matches!(
        classify_dpsreport(reply(299, "garbage", None)),
        Disposition::Fatal(StageFailure::MalformedPayload)
    ));
}

#[test]
fn report_timeout_and_rate_statuses_are_transient() {
    for status in [408u16, 429, 500, 503, 599] {
        match classify_dpsreport(reply(status, "", None)) {
            Disposition::Transient(backoff) => assert_eq!(backoff, 30_000),
            _ => panic!("expected transient for {status}"),
        }
    }
}

#[test]
fn report_forbidden_with_rejection_phrase_is_fatal() {
    for phrase in ["encounter too short", "duplicate file", "internal parser failure"] {
        let body = format!("{{\"error\":\"upload rejected: {phrase}\"}}");
        match classify_dpsreport(reply(403, &body, None)) {
            Disposition::Fatal(StageFailure::PermanentRejection(m)) => {
                assert!(m.contains(phrase));
            }
            _ => panic!("expected a permanent rejection for {phrase}"),
        }
    }
}

#[test]
fn report_forbidden_with_other_body_is_transient() {
    assert!(matches!(
        classify_dpsreport(reply(403, "rate limited, slow down", None)),
        Disposition::Transient(30_000)
    ));
}

#[test]
fn report_unknown_status_is_fatal() {
    match classify_dpsreport(reply(404, "", None)) {
        Disposition::Fatal(StageFailure::UnexpectedStatus(s)) => assert_eq!(s, 404),
        _ => panic!("expected an unexpected-status failure"),
    }
}

#[test]
fn report_transport_failure_is_transient() {
    assert!(matches!(
        classify_dpsreport(DpsReportOutcome::Transport { message: "timed out".to_string() }),
        Disposition::Transient(30_000)
    ));
}

#[test]
fn stats_result_flag_is_passed_through() {
    assert!(matches!(
        classify_wingman(WingmanOutcome::Reply { status: 200, result: Some(true) }),
        Disposition::Success(true)
    ));
    assert!(matches!(
        classify_wingman(WingmanOutcome::Reply { status: 200, result: Some(false) }),
        Disposition::Success(false)
    ));
}

#[test]
fn stats_duplicate_status_is_success() {
    assert!(matches!(
        classify_wingman(WingmanOutcome::Reply { status: 409, result: Some(false) }),
        Disposition::Success(true)
    ));
}

#[test]
fn stats_undecodable_body_is_fatal() {
    assert!(matches!(
        classify_wingman(WingmanOutcome::Reply { status: 200, result: None }),
        Disposition::Fatal(StageFailure::MalformedPayload)
    ));
}

#[test]
fn stats_other_status_is_fatal() {
    match classify_wingman(WingmanOutcome::Reply { status: 500, result: Some(true) }) {
        Disposition::Fatal(StageFailure::UnexpectedStatus(s)) => assert_eq!(s, 500),
        _ => panic!("expected an unexpected-status failure"),
    }
}

#[test]
fn stats_transport_failure_is_fatal() {
    match classify_wingman(WingmanOutcome::Transport { message: "broken pipe".to_string() }) {
        Disposition::Fatal(StageFailure::Transport(m)) => assert_eq!(m, "broken pipe"),
        _ => panic!("expected a transport failure"),
    }
}

#[test]
fn rejection_phrases_are_matched_in_any_body() {
    assert!(permanent_rejection("xx duplicate file xx"));
    assert!(!permanent_rejection("Duplicate File"));
    assert!(!permanent_rejection(""));
    let e = DpsReportError {
        error: "internal parser failure at byte 12".to_string(),
        rate_limited: Some(false),
        rate_per_minute: None,
    };
    assert!(e.permanent());
    let e2 = DpsReportError {
        error: "slow down".to_string(),
        rate_limited: Some(true),
        rate_per_minute: Some(5),
    };
    assert!(!e2.permanent());
}

#[test]
fn failure_texts() {
    assert_eq!(
        StageFailure::Parse("bad header".to_string()).describe(),
        "bad header"
    );
    assert_eq!(
        StageFailure::PermanentRejection("too short".to_string()).describe(),
        "Error 403: too short"
    );
    assert_eq!(StageFailure::RetryExhausted.describe(), "Retry limit reached");
    assert_eq!(
        StageFailure::Transport("timeout".to_string()).describe(),
        "Failed to upload file: timeout"
    );
    assert_eq!(
        StageFailure::UnexpectedStatus(418).describe(),
        "Unknown Response Code: 418"
    );
    assert_eq!(StageFailure::MalformedPayload.describe(), "Error parsing json");
}
