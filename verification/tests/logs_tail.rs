use roblox_bridge::logs::{
    attach_success_message, classify_line, is_player_log_name, locate_log, log_dir_path,
    monitor_started_message, open_error_message, read_error_message, seek_error_message,
    select_newest_log, LogCandidate, LogDirListing, POLL_INTERVAL_MS,
};
use roblox_bridge::tail::{run_tail, tail_step, TailAction, TailEvent};

fn candidate(name: &str, modified: u64) -> LogCandidate {
    LogCandidate {
        name: String::from(name),
        modified,
    }
}

#[test]
fn candidate_names_need_player_and_log_suffix() {
    assert!(is_player_log_name("A_Player_1.log"));
    assert!(is_player_log_name("Player.log"));
    assert!(!is_player_log_name("A_Player_1.txt"));
    assert!(!is_player_log_name("server.log"));
    assert!(!is_player_log_name(""));
}

#[test]
fn no_matching_logs_is_a_locate_failure() {
    let listing = LogDirListing::Listed {
        entries: vec![
            candidate("notes.txt", 10),
            candidate("Player_summary.txt", 20),
            candidate("server.log", 30),
        ],
    };
    assert_eq!(
        locate_log(listing),
        Err(String::from("No Roblox Player logs found."))
    );
}

#[test]
fn locate_failures_have_their_messages() {
    assert_eq!(
        locate_log(LogDirListing::NoHome),
        Err(String::from("Could not get home directory"))
    );
    assert_eq!(
        locate_log(LogDirListing::MissingDir {
            path: String::from("\"/home/u/Library/Logs/Roblox\"")
        }),
        Err(String::from(
            "Roblox log directory not found at \"/home/u/Library/Logs/Roblox\""
        ))
    );
    assert_eq!(
        locate_log(LogDirListing::Unreadable {
            error: String::from("permission denied")
        }),
        Err(String::from(
            "Could not read Roblox log directory: permission denied"
        ))
    );
}

#[test]
fn newest_candidate_wins() {
    let entries = vec![
        candidate("A_Player_1.log", 1),
        candidate("B_Player_2.log", 2),
    ];
    assert_eq!(select_newest_log(&entries), Some(1));
    let listing = LogDirListing::Listed { entries };
    assert_eq!(locate_log(listing), Ok(String::from("B_Player_2.log")));
}

#[test]
fn newest_candidate_ignores_non_candidates_and_order() {
    let entries = vec![
        candidate("B_Player_2.log", 50),
        candidate("huge.log", 99),
        candidate("A_Player_1.log", 10),
    ];
    assert_eq!(select_newest_log(&entries), Some(0));
}

#[test]
fn equal_timestamps_favor_later_entry() {
    let entries = vec![
        candidate("A_Player_1.log", 7),
        candidate("B_Player_2.log", 7),
    ];
    assert_eq!(select_newest_log(&entries), Some(1));
}

#[test]
fn warning_line_is_retagged() {
    let line = "2026-01-02T03:04:05 [FLog::Warning] disk low";
    assert_eq!(classify_line(line), Some(String::from("warning disk low")));
}

#[test]
fn unrecognized_line_emits_nothing() {
    assert_eq!(classify_line("just some chatter"), None);
    assert_eq!(classify_line(""), None);
    assert_eq!(classify_line("   \r\n"), None);
}

#[test]
fn severity_priority_is_error_warning_output() {
    let both = "x [FLog::Error][FLog::Warning] boom";
    assert_eq!(classify_line(both), Some(String::from("error boom")));
    let warn_out = "x [FLog::Warning][FLog::Output] hum";
    assert_eq!(classify_line(warn_out), Some(String::from("warning hum")));
    let out = "x [FLog::Output] plain";
    assert_eq!(classify_line(out), Some(String::from("info plain")));
}

#[test]
fn line_without_separator_passes_verbatim() {
    assert_eq!(
        classify_line("  FLog::Error without separator \n"),
        Some(String::from("FLog::Error without separator"))
    );
}

#[test]
fn line_is_trimmed_before_classification() {
    assert_eq!(
        classify_line("   [FLog::Output] hi  \r\n"),
        Some(String::from("info hi"))
    );
}

#[test]
fn tail_sleeps_on_no_data() {
    assert!(matches!(tail_step(TailEvent::NoData), TailAction::Sleep));
    assert_eq!(POLL_INTERVAL_MS, 500);
}

#[test]
fn tail_emits_appended_line_immediately() {
    // An appended line is decided on as soon as it is read: no event is
    // held back behind further polling.
    let events = vec![
        TailEvent::NoData,
        TailEvent::Line {
            text: String::from("a [FLog::Warning] disk low\n"),
        },
    ];
    assert_eq!(run_tail(events), vec![String::from("warning disk low")]);
}

#[test]
fn tail_skips_unrecognized_lines() {
    match tail_step(TailEvent::Line {
        text: String::from("noise"),
    }) {
        TailAction::Skip => {}
        _ => panic!("unrecognized line must be skipped"),
    }
}

#[test]
fn read_failure_stops_the_loop() {
    let events = vec![
        TailEvent::Line {
            text: String::from("a [FLog::Output] one"),
        },
        TailEvent::Line {
            text: String::from("a [FLog::Output] two"),
        },
        TailEvent::ReadFailed {
            error: String::from("stale handle"),
        },
        TailEvent::Line {
            text: String::from("a [FLog::Error] never seen"),
        },
        TailEvent::NoData,
    ];
    assert_eq!(
        run_tail(events),
        vec![
            String::from("info one"),
            String::from("info two"),
            String::from("Error reading log file: stale handle"),
        ]
    );
}

#[test]
fn monitor_messages_are_exact() {
    assert_eq!(monitor_started_message(), "Started monitoring Roblox logs at");
    assert_eq!(
        open_error_message("permission denied"),
        "Could not open log file: permission denied"
    );
    assert_eq!(
        seek_error_message("bad seek"),
        "Error seeking log file: bad seek"
    );
    assert_eq!(
        attach_success_message("/logs/A_Player_1.log"),
        "Successfully connected to log file: /logs/A_Player_1.log"
    );
    assert_eq!(
        read_error_message("io oops"),
        "Error reading log file: io oops"
    );
    assert_eq!(
        log_dir_path("/home/u"),
        "/home/u/Library/Logs/Roblox"
    );
}
