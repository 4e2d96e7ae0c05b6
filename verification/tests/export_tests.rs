use rtimer::appstate::AppState;
use rtimer::config::Config;
use rtimer::export::{csv_escape, export_stats_csv};
use rtimer::state::{Key, Screen};
use rtimer::stats::{Note, SessionRecord, Statistics};

fn fresh_app() -> AppState {
    AppState::create_app_state_from_args(
        Config::default(),
        Statistics::fresh("2024-01-01".to_string()),
    )
}

#[test]
fn plain_content_passes_through() {
    assert_eq!(csv_escape("no specials here"), "no specials here");
}

#[test]
fn comma_wraps_content_in_quotes() {
    assert_eq!(csv_escape("a,b"), "\"a,b\"");
}

#[test]
fn quotes_are_doubled_inside_wrapping_quotes() {
    assert_eq!(csv_escape("say \"hi\""), "\"say \"\"hi\"\"\"");
}

#[test]
fn comma_and_quote_together() {
    assert_eq!(csv_escape("a,\"b\""), "\"a,\"\"b\"\"\"");
}

#[test]
fn export_holds_summary_header_and_values() {
    let mut stats = Statistics::fresh("2024-03-05".to_string());
    stats.total_sessions = 12;
    stats.sessions_today = 3;
    stats.total_work_time = 90;
    stats.total_break_time = 30;
    let csv = export_stats_csv(&stats);
    assert!(csv.starts_with(
        "Date,Total Sessions,Sessions Today,Work Time (hours),Break Time (hours)\n2024-03-05,12,3,1.50,0.50\n"
    ));
    assert!(csv.contains("\n\nSession History\nTimestamp,Phase,Duration (min),Completed\n"));
    assert!(csv.contains("\n\nNotes\nTimestamp,Phase,Content\n"));
}

#[test]
fn history_rows_come_newest_first() {
    let mut stats = Statistics::fresh("2024-03-05".to_string());
    stats.session_history.push(SessionRecord {
        timestamp: "t-old".to_string(),
        phase_type: "Work".to_string(),
        duration: 25,
        completed: true,
    });
    stats.session_history.push(SessionRecord {
        timestamp: "t-new".to_string(),
        phase_type: "Short Break".to_string(),
        duration: 5,
        completed: false,
    });
    let csv = export_stats_csv(&stats);
    let new_pos = csv.find("t-new,Short Break,5,No\n").expect("new row missing");
    let old_pos = csv.find("t-old,Work,25,Yes\n").expect("old row missing");
    assert!(new_pos < old_pos);
}

#[test]
fn history_rows_cap_at_fifty() {
    let mut stats = Statistics::fresh("2024-03-05".to_string());
    for i in 0..60 {
        stats.session_history.push(SessionRecord {
            timestamp: format!("rec{:02}", i),
            phase_type: "Work".to_string(),
            duration: 25,
            completed: true,
        });
    }
    let csv = export_stats_csv(&stats);
    assert!(csv.contains("rec59,"));
    assert!(csv.contains("rec10,"));
    assert!(!csv.contains("rec09,"));
}

#[test]
fn note_with_comma_is_quoted_in_export() {
    let mut stats = Statistics::fresh("2024-03-05".to_string());
    stats.notes.push(Note {
        timestamp: "n1".to_string(),
        content: "milk, eggs".to_string(),
        phase: "work".to_string(),
    });
    let csv = export_stats_csv(&stats);
    assert!(csv.contains("n1,work,\"milk, eggs\"\n"));
}

#[test]
fn note_with_quote_is_doubled_in_export() {
    let mut stats = Statistics::fresh("2024-03-05".to_string());
    stats.notes.push(Note {
        timestamp: "n1".to_string(),
        content: "she said \"done\"".to_string(),
        phase: "work".to_string(),
    });
    let csv = export_stats_csv(&stats);
    assert!(csv.contains("n1,work,\"she said \"\"done\"\"\"\n"));
}

#[test]
fn notes_come_newest_first() {
    let mut stats = Statistics::fresh("2024-03-05".to_string());
    for (ts, content) in [("n1", "first"), ("n2", "second")] {
        stats.notes.push(Note {
            timestamp: ts.to_string(),
            content: content.to_string(),
            phase: "work".to_string(),
        });
    }
    let csv = export_stats_csv(&stats);
    let second = csv.find("n2,work,second\n").expect("second note missing");
    let first = csv.find("n1,work,first\n").expect("first note missing");
    assert!(second < first);
}

#[test]
fn export_request_flag_is_set_only_from_stats_views() {
    let mut app = fresh_app();
    app.handle_key_event(Key::Char('e'), false, "ts".to_string(), 0);
    assert!(!app.export_requested);
    app.current_view = Screen::StatsSummary;
    app.handle_key_event(Key::Char('e'), false, "ts".to_string(), 0);
    assert!(app.take_export_request());
    assert!(!app.take_export_request());
}
