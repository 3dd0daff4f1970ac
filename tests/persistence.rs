use tracker_core::badges::get_badge;
use tracker_core::persistence::{
    dedup_records, delete_records, find_by_name, get_tracked_procs_by_user, is_blank, load_records,
};
use tracker_core::track_log::TrackLog;

fn log(user: &str, name: &str, uptime: u64, running: bool) -> TrackLog {
    let mut l = TrackLog::new(user, name, name);
    l.set_uptime(uptime);
    l.is_running = running;
    l
}

#[test]
fn load_on_nonexistent_file_is_empty() {
    let r: Result<Vec<TrackLog>, String> =
        load_records(None, |_: &str| -> Result<Vec<TrackLog>, String> { Err("decoded".to_string()) });
    assert_eq!(r.unwrap().len(), 0);
}

#[test]
fn load_on_blank_file_is_empty() {
    let r: Result<Vec<TrackLog>, String> = load_records(
        Some("  \n\t ".to_string()),
        |_: &str| -> Result<Vec<TrackLog>, String> { Err("decoded".to_string()) },
    );
    assert_eq!(r.unwrap().len(), 0);
}

#[test]
fn load_hands_text_to_decoder() {
    let r: Result<Vec<TrackLog>, String> = load_records(
        Some("[x]".to_string()),
        |s: &str| -> Result<Vec<TrackLog>, String> { Err(s.to_string()) },
    );
    assert_eq!(r.unwrap_err(), "[x]");
}

#[test]
fn blank_text_detection() {
    assert!(is_blank(""));
    assert!(is_blank("   \n"));
    assert!(!is_blank("  a "));
}

#[test]
fn save_appends_new_record_not_running() {
    let mut stored: Vec<TrackLog> = vec![log("alice", "a.exe", 5, false)];
    let l = log("alice", "editor.exe", 40, true);
    l.save_into(&mut stored);
    assert_eq!(stored.len(), 2);
    assert_eq!(stored[1].process_name, "editor.exe");
    assert_eq!(stored[1].uptime, 40);
    assert!(!stored[1].is_running);
}

#[test]
fn save_then_load_round_trip() {
    let mut stored: Vec<TrackLog> = vec![log("alice", "editor.exe", 5, true), log("alice", "b.exe", 1, false)];
    let mut l = log("bob", "editor.exe", 7200, true);
    l.set_display_name("Editor");
    l.add_badge(get_badge(7200, "bob").unwrap());
    l.save_into(&mut stored);
    assert_eq!(stored.len(), 2);
    let i = find_by_name(&stored, &"editor.exe".to_string()).unwrap();
    assert_eq!(i, 0);
    assert_eq!(stored[i].uptime, 7200);
    assert_eq!(stored[i].display_name, "Editor");
    assert_eq!(stored[i].badges.len(), 1);
    assert_eq!(stored[i].badges[0].description, l.badges[0].description);
    assert!(!stored[i].is_running);
    // identity and owner of the stored record are kept
    assert_eq!(stored[i].username, "alice");
    assert_eq!(stored[1].process_name, "b.exe");
}

#[test]
fn delete_removes_every_matching_record() {
    let mut stored = vec![
        log("alice", "editor.exe", 1, false),
        log("alice", "b.exe", 2, false),
        log("bob", "editor.exe", 3, false),
    ];
    delete_records(&mut stored, &"editor.exe".to_string());
    assert_eq!(stored.len(), 1);
    assert_eq!(stored[0].process_name, "b.exe");
    assert!(find_by_name(&stored, &"editor.exe".to_string()).is_none());
}

#[test]
fn records_filtered_by_user() {
    let stored = vec![log("alice", "a.exe", 1, false), log("bob", "b.exe", 2, false), log("alice", "c.exe", 3, false)];
    let r = get_tracked_procs_by_user(&stored, "alice");
    assert_eq!(r.len(), 2);
    assert_eq!(r[0].process_name, "a.exe");
    assert_eq!(r[1].process_name, "c.exe");
    assert_eq!(get_tracked_procs_by_user(&stored, "carol").len(), 0);
}

#[test]
fn dedup_keeps_first_of_each_name() {
    let r = dedup_records(vec![log("a", "x", 1, false), log("a", "y", 2, false), log("a", "x", 3, false)]);
    assert_eq!(r.len(), 2);
    assert_eq!(r[0].uptime, 1);
    assert_eq!(r[1].process_name, "y");
}
