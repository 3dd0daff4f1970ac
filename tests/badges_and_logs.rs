use tracker_core::badges::{description_of, get_badge, Badge, BadgeRank};
use tracker_core::track_log::TrackLog;

#[test]
fn badge_at_zero_hours_is_initial() {
    let b = get_badge(0, "alice").unwrap();
    assert_eq!(b.rank, BadgeRank::Initial);
    assert_eq!(b.username, "alice");
    assert_eq!(b.description, "App's just been added.");
}

#[test]
fn badge_within_first_hour_is_initial() {
    let b = get_badge(3599, "alice").unwrap();
    assert_eq!(b.rank, BadgeRank::Initial);
}

#[test]
fn badge_rungs_match_exact_hours() {
    assert_eq!(get_badge(3600, "u").unwrap().rank, BadgeRank::Common);
    assert_eq!(get_badge(2 * 3600, "u").unwrap().rank, BadgeRank::Rare);
    assert_eq!(get_badge(10 * 3600, "u").unwrap().rank, BadgeRank::Experienced);
    assert_eq!(get_badge(50 * 3600, "u").unwrap().rank, BadgeRank::Advanced);
    assert_eq!(get_badge(100 * 3600, "u").unwrap().rank, BadgeRank::Pro);
    assert_eq!(get_badge(500 * 3600, "u").unwrap().rank, BadgeRank::Insane);
    assert_eq!(get_badge(1000 * 3600, "u").unwrap().rank, BadgeRank::Lunatic);
    assert_eq!(get_badge(3000 * 3600, "u").unwrap().rank, BadgeRank::TouchGrass);
    assert_eq!(get_badge(10000 * 3600 + 59, "u").unwrap().rank, BadgeRank::Master);
}

#[test]
fn badge_between_rungs_is_none() {
    assert!(get_badge(3 * 3600, "u").is_none());
    assert!(get_badge(11 * 3600, "u").is_none());
    assert!(get_badge(10001 * 3600, "u").is_none());
    assert!(get_badge(u64::MAX, "u").is_none());
}

#[test]
fn badge_same_hour_gives_same_badge() {
    let a = get_badge(3600, "bob").unwrap();
    let b = get_badge(3600 + 1800, "bob").unwrap();
    assert_eq!(a.rank, b.rank);
    assert_eq!(a.description, b.description);
    assert_eq!(a.username, b.username);
}

#[test]
fn badge_descriptions_are_fixed() {
    assert_eq!(
        description_of(BadgeRank::Master),
        "You've been using app for ten thousand hours. You've mastered it all"
    );
    assert_eq!(
        get_badge(2 * 3600, "u").unwrap().description,
        "You've been using app for two hours. Not bad."
    );
}

#[test]
fn track_log_new_defaults() {
    let l = TrackLog::new("alice", "editor.exe", "Editor");
    assert_eq!(l.username, "alice");
    assert_eq!(l.process_name, "editor.exe");
    assert_eq!(l.display_name, "Editor");
    assert_eq!(l.uptime, 0);
    assert!(l.badges.is_empty());
    assert!(l.is_running);
}

#[test]
fn track_log_setters() {
    let mut l = TrackLog::new("alice", "editor.exe", "editor.exe");
    l.add_uptime(10);
    l.add_uptime(5);
    assert_eq!(l.uptime, 15);
    l.set_uptime(100);
    assert_eq!(l.uptime, 100);
    l.set_display_name("My editor");
    assert_eq!(l.display_name, "My editor");
    l.set_process_name("code.exe");
    assert_eq!(l.process_name, "code.exe");
}

#[test]
fn track_log_add_badge_keeps_ranks_unique() {
    let mut l = TrackLog::new("alice", "editor.exe", "editor.exe");
    l.add_badge(get_badge(0, "alice").unwrap());
    l.add_badge(get_badge(0, "alice").unwrap());
    l.add_badge(get_badge(3600, "alice").unwrap());
    l.add_badge(Badge { rank: BadgeRank::Initial, username: "x".to_string(), description: "d".to_string() });
    assert_eq!(l.badges.len(), 2);
    assert_eq!(l.badges[0].rank, BadgeRank::Initial);
    assert_eq!(l.badges[0].username, "alice");
    assert_eq!(l.badges[1].rank, BadgeRank::Common);
}
