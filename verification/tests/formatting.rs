//! The text side: copy templates, difficulty labels, basenames, decimal
//! rendering, joining, and the snapshot rows.

use log_uploader::common::WorkerMessage;
use log_uploader::coordinator::{format_url, Coordinator, Job};
use log_uploader::dpslog::{ErrorKind, Logtype, UploadStatus};
use log_uploader::dpsreport::{DpsReportResponse, Encounter, Player, PlayerResponse};
use log_uploader::evtc::Encounter as ParsedEncounter;
use log_uploader::settings::Settings;
use log_uploader::step::StageFailure;
use log_uploader::text::{i64_to_string, replace_str, str_contains, str_ends_with, u64_to_string};
use log_uploader::wingman::WingmanOutcome;

fn response(boss: &str, boss_id: i64, success: bool) -> DpsReportResponse {
    DpsReportResponse {
        id: "id-1".to_string(),
        permalink: "https://dps.report/abcd".to_string(),
        user_token: "tok".to_string(),
        encounter: Encounter {
            boss_id,
            success,
            boss: boss.to_string(),
            is_cm: Some(false),
            is_legendary_cm: Some(false),
            emboldened: Some(0),
        },
        players: PlayerResponse::List(vec![Player {
            display_name: "Friend.1234".to_string(),
            character_name: "Nameless".to_string(),
            profession: 4,
            elite_spec: 55,
        }]),
    }
}

#[test]
fn format_mode_picks_the_strongest_mark() {
    let mut e = Encounter {
        boss_id: 1,
        success: true,
        boss: "B".to_string(),
        is_cm: Some(true),
        is_legendary_cm: Some(true),
        emboldened: Some(5),
    };
    assert_eq!(e.format_mode(), Some("LCM".to_string()));
    e.is_legendary_cm = Some(false);
    assert_eq!(e.format_mode(), Some("CM".to_string()));
    e.is_cm = Some(false);
    assert_eq!(e.format_mode(), Some("Emboldened 5)".to_string()));
    e.emboldened = Some(0);
    assert_eq!(e.format_mode(), Some("".to_string()));
    e.is_cm = None;
    assert_eq!(e.format_mode(), None);
}

#[test]
fn format_url_replaces_every_placeholder() {
    let r = response("Gorseval the Multifarious", 15429, true);
    let line = format_url(&r, "@1 | @2 | @3 | @4");
    assert_eq!(
        line,
        "https://dps.report/abcd | Gorseval the Multifarious | 15429 | Success"
    );
    let mut r2 = response("Kanaxai", 25577, false);
    r2.encounter.is_cm = Some(true);
    let line2 = format_url(&r2, "@2: @4 (@1)");
    assert_eq!(line2, "Kanaxai (CM): Fail (https://dps.report/abcd)");
}

#[test]
fn format_url_with_unknown_mode() {
    let mut r = response("Adina", 22836, true);
    r.encounter.is_cm = None;
    r.encounter.is_legendary_cm = None;
    r.encounter.emboldened = None;
    assert_eq!(format_url(&r, "@2"), "Adina (Unknown)");
}

#[test]
fn collect_urls_honours_the_copy_filters() {
    let mut settings = Settings::default();
    settings.dpsreport_copyformat = "@1".to_string();
    let mut c = Coordinator::new(settings);
    for (i, ok) in [true, false, true].iter().enumerate() {
        let id = c.submit(format!("log{i}.zevtc"));
        c.tick(0, vec![]);
        c.tick(0, vec![WorkerMessage::evtc(id, Ok(ParsedEncounter {
            boss_id: 5,
            pov_account: None,
            participants: vec![],
        }))]);
        let mut r = response("B", 5, *ok);
        r.permalink = format!("https://dps.report/{i}");
        c.tick(0, vec![WorkerMessage::dpsreport(id, log_uploader::dpsreport::DpsReportOutcome::Reply {
            status: 200,
            body: String::new(),
            payload: Some(r),
        })]);
    }
    let all = Coordinator::collect_urls(&c.jobs, &c.settings);
    assert_eq!(
        all,
        "https://dps.report/0\r\nhttps://dps.report/1\r\nhttps://dps.report/2"
    );
    let mut only_wins = Settings::default();
    only_wins.dpsreport_copyformat = "@1".to_string();
    only_wins.copy_failure = false;
    let wins = Coordinator::collect_urls(&c.jobs, &only_wins);
    assert_eq!(wins, "https://dps.report/0\r\nhttps://dps.report/2");
    let mut only_losses = Settings::default();
    only_losses.dpsreport_copyformat = "@1".to_string();
    only_losses.copy_success = false;
    let losses = Coordinator::collect_urls(&c.jobs, &only_losses);
    assert_eq!(losses, "https://dps.report/1");
}

#[test]
fn decimal_rendering() {
    assert_eq!(u64_to_string(0), "0");
    assert_eq!(u64_to_string(9), "9");
    assert_eq!(u64_to_string(15429), "15429");
    assert_eq!(u64_to_string(u64::MAX), "18446744073709551615");
    assert_eq!(i64_to_string(0), "0");
    assert_eq!(i64_to_string(-7), "-7");
    assert_eq!(i64_to_string(i64::MIN), "-9223372036854775808");
}

#[test]
fn substring_search_and_suffixes() {
    assert!(str_contains("hello world", "lo wo"));
    assert!(str_contains("abc", ""));
    assert!(!str_contains("abc", "abcd"));
    assert!(str_contains("aaab", "aab"));
    assert!(str_ends_with("settings.json", ".json"));
    assert!(!str_ends_with("settings.json", ".JSON"));
}

#[test]
fn replacement_scans_left_to_right() {
    assert_eq!(replace_str("aaa", "aa", "b"), "ba");
    assert_eq!(replace_str("@1 and @1", "@1", "x"), "x and x");
    assert_eq!(replace_str("abc", "z", "y"), "abc");
}

#[test]
fn basename_keeps_the_last_two_components() {
    let make = |p: &str| Job {
        identity: 0,
        location: p.to_string(),
        parse_state: log_uploader::step::Step::Pending,
        report_state: log_uploader::step::Step::Pending,
        stats_state: log_uploader::step::Step::Pending,
        report_retry_count: 0,
    };
    let mut c = Coordinator::new(Settings::default());
    c.jobs.push(make("C:\\logs\\Gorseval\\20240101.zevtc"));
    c.jobs.push(make("/home/player/logs/fight.zevtc"));
    c.jobs.push(make("plain.zevtc"));
    let rows = c.snapshot();
    assert_eq!(rows[0].basename(), "Gorseval\\20240101.zevtc");
    assert_eq!(rows[1].basename(), "logs\\fight.zevtc");
    assert_eq!(rows[2].basename(), "plain.zevtc");
}

#[test]
fn snapshot_reflects_each_stage() {
    let mut c = Coordinator::new(Settings::default());
    let id = c.submit("a.zevtc".to_string());
    let rows = c.snapshot();
    assert_eq!(rows[0].status.label(), "Pending");
    assert_eq!(rows[0].logtype, Logtype::Pve);
    assert!(rows[0].dpsreporturl.is_none());
    assert!(rows[0].retry_at.is_none());
    c.tick(0, vec![]);
    c.tick(0, vec![WorkerMessage::evtc(id, Ok(ParsedEncounter {
        boss_id: 1,
        pov_account: None,
        participants: vec![],
    }))]);
    let rows = c.snapshot();
    // report upload under way, reserved category: statistics skipped
    assert_eq!(rows[0].status.label(), "Uploading to dps.report");
    assert_eq!(rows[0].logtype, Logtype::Wvw);
    c.tick(0, vec![WorkerMessage::dpsreport(id, log_uploader::dpsreport::DpsReportOutcome::Reply {
        status: 200,
        body: String::new(),
        payload: Some(response("World vs World", 1, false)),
    })]);
    let rows = c.snapshot();
    assert_eq!(rows[0].status.label(), "Wingman disabled or WvW Log");
    assert_eq!(rows[0].dpsreporturl.as_deref(), Some("https://dps.report/abcd"));
    let obj = rows[0].dpsreportobject.as_ref().expect("the payload is surfaced");
    assert_eq!(obj.boss_title(), "World vs World");
    assert_eq!(obj.success(), "Failed");
}

#[test]
fn snapshot_shows_retry_countdown() {
    let mut c = Coordinator::new(Settings::default());
    let id = c.submit("a.zevtc".to_string());
    c.tick(0, vec![]);
    c.tick(0, vec![WorkerMessage::evtc(id, Ok(ParsedEncounter {
        boss_id: 5,
        pov_account: None,
        participants: vec![],
    }))]);
    c.tick(2_000, vec![WorkerMessage::dpsreport(id, log_uploader::dpsreport::DpsReportOutcome::Reply {
        status: 429,
        body: String::new(),
        payload: None,
    })]);
    let rows = c.snapshot();
    assert_eq!(rows[0].retry_at, Some(32_000));
    assert_eq!(rows[0].status.label(), "Uploading to dps.report");
    assert_eq!(rows[0].retry_countdown(2_000), Some(30));
    assert_eq!(rows[0].retry_countdown(31_500), Some(0));
    assert_eq!(rows[0].retry_countdown(40_000), Some(0));
}

#[test]
fn snapshot_surfaces_errors_with_their_stage() {
    let mut c = Coordinator::new(Settings::default());
    let id = c.submit("a.zevtc".to_string());
    c.tick(0, vec![]);
    c.tick(0, vec![WorkerMessage::evtc(id, Ok(ParsedEncounter {
        boss_id: 5,
        pov_account: None,
        participants: vec![],
    }))]);
    c.tick(0, vec![WorkerMessage::wingman(id, WingmanOutcome::Transport {
        message: "no route".to_string(),
    })]);
    let rows = c.snapshot();
    match &rows[0].status {
        UploadStatus::Error(k @ ErrorKind::Wingman(_)) => {
            assert_eq!(k.describe(), "[Wingman] Error: Failed to upload file: no route");
        }
        _ => panic!("expected a statistics-stage error"),
    }
    assert_eq!(rows[0].status.label(), "Wingman Error");
}

#[test]
fn done_and_in_progress_labels() {
    let mut c = Coordinator::new(Settings::default());
    let id = c.submit("a.zevtc".to_string());
    c.tick(0, vec![]);
    c.tick(0, vec![WorkerMessage::evtc(id, Ok(ParsedEncounter {
        boss_id: 5,
        pov_account: Some("acc".to_string()),
        participants: vec![],
    }))]);
    c.tick(0, vec![WorkerMessage::dpsreport(id, log_uploader::dpsreport::DpsReportOutcome::Reply {
        status: 200,
        body: String::new(),
        payload: Some(response("B", 5, true)),
    })]);
    // the report finished; the statistics upload is still under way
    assert_eq!(c.snapshot()[0].status.label(), "Adding to wingman Queue");
    c.tick(0, vec![WorkerMessage::wingman(id, WingmanOutcome::Reply {
        status: 200,
        result: Some(true),
    })]);
    assert_eq!(c.snapshot()[0].status.label(), "All done");
}

#[test]
fn stage_failure_copies_keep_their_value() {
    let f = StageFailure::PermanentRejection("too short".to_string());
    let g = f.duplicate();
    assert_eq!(f.describe(), g.describe());
}
