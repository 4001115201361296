//! The policy inputs and the discovery filter.

use log_uploader::filewatcher::{filter_log_paths, is_log_path};
use log_uploader::settings::{default_copyformat, default_true, Settings};
use log_uploader::step::Step;
use log_uploader::common::WorkerMessage;
use log_uploader::coordinator::Coordinator;
use log_uploader::evtc::Encounter;

#[test]
fn defaults() {
    let s = Settings::default();
    assert!(s.enable_dpsreport());
    assert!(s.enable_wingman);
    assert!(s.copy_success && s.copy_failure && s.show_window);
    assert!(s.filter_dpsreport.is_empty() && s.filter_wingman.is_empty());
    assert_eq!(s.logpath(), "");
    assert!(default_true());
    assert_eq!(default_copyformat(), "@1");
}

#[test]
fn misspelled_logpath_is_detected_and_fixed() {
    let mut s = Settings::default();
    s.logpath = "D:\\Guild Wars 2\\addons\\arcdps\\arcdps.cbtlog".to_string();
    assert!(s.check_hotfix20241114());
    s.fix_hotfix20241114("D:\\Guild Wars 2\\addons\\arcdps\\arcdps.cbtlogs".to_string());
    assert!(!s.check_hotfix20241114());
    assert_eq!(s.logpath(), "D:\\Guild Wars 2\\addons\\arcdps\\arcdps.cbtlogs");
}

#[test]
fn log_extension_is_matched_case_insensitively() {
    assert!(is_log_path("a/b/fight.zevtc"));
    assert!(is_log_path("a\\b\\FIGHT.ZEVTC"));
    assert!(is_log_path("x.ZeVtC"));
    assert!(!is_log_path("fight.evtc"));
    assert!(!is_log_path("fight.zevtc.tmp"));
    assert!(!is_log_path("zevtc"));
}

#[test]
fn discovery_filter_keeps_order() {
    let announced = vec![
        "a.zevtc".to_string(),
        "notes.txt".to_string(),
        "B.ZEVTC".to_string(),
        "partial.zevt".to_string(),
    ];
    let kept = filter_log_paths(&announced);
    assert_eq!(kept, vec!["a.zevtc".to_string(), "B.ZEVTC".to_string()]);
}

#[test]
fn duplicate_paths_are_tolerated_as_separate_jobs() {
    // the same path re-announced is not deduplicated by the core
    let mut c = Coordinator::new(Settings::default());
    let a = c.submit("same.zevtc".to_string());
    let b = c.submit("same.zevtc".to_string());
    assert_ne!(a, b);
    c.tick(0, vec![]);
    c.tick(0, vec![WorkerMessage::evtc(a, Ok(Encounter {
        boss_id: 5,
        pov_account: None,
        participants: vec![],
    }))]);
    assert!(matches!(c.jobs[a].parse_state, Step::Done(_)));
    assert!(matches!(c.jobs[b].parse_state, Step::Active));
}

#[test]
fn from_value_maps_results_onto_steps() {
    let ok: Step<u32> = Step::from_value(Ok(7));
    assert!(matches!(ok, Step::Done(7)));
    let err: Step<u32> = Step::from_value(Err(
        log_uploader::step::StageFailure::MalformedPayload,
    ));
    assert!(matches!(
        err,
        Step::Error(log_uploader::step::StageFailure::MalformedPayload)
    ));
}

#[test]
fn worker_message_constructors_tag_the_identity() {
    let m = WorkerMessage::evtc(3, Err("x".to_string()));
    assert_eq!(m.index, 3);
    assert!(matches!(m.payload, log_uploader::common::WorkerType::Evtc(Err(_))));
    let m = WorkerMessage::wingman(
        9,
        log_uploader::wingman::WingmanOutcome::Reply { status: 200, result: Some(true) },
    );
    assert_eq!(m.index, 9);
}
