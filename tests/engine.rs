use tracker_core::badges::{get_badge, BadgeRank};
use tracker_core::persistence::{delete_records, find_by_name};
use tracker_core::process::ProcessInfo;
use tracker_core::state::{tracked_poll_answer, untracked_poll_answer, Actions, AppState, Effect, Poll};
use tracker_core::store::{is_app_tracked, needs_tracked_fetch, Store};
use tracker_core::supervisor::Supervisor;
use tracker_core::track_log::TrackLog;
use tracker_core::tracker::{CancelSignal, Tracker};

/// Dispatches `a` and carries out the effects against an in-memory record
/// file and a fixed process table, feeding answers back as actions.
fn run(store: &mut Store, file: &mut Vec<TrackLog>, procs: &Vec<ProcessInfo>, a: Actions) -> Vec<String> {
    let mut started = Vec::new();
    let mut queue = vec![a];
    while let Some(next) = queue.pop() {
        for e in store.dispatch(next) {
            match e {
                Effect::SaveRecord(l) => l.save_into(file),
                Effect::DeleteRecord(n) => {
                    delete_records(file, &n);
                    queue.push(Actions::TrackedAppDeleted(n));
                }
                Effect::QueryProcesses => queue.push(Actions::UntrackedAppsQueried(Some(procs.clone()))),
                Effect::StartTracker(n) => started.push(n),
                _ => {}
            }
        }
    }
    started
}

fn named<'a>(state: &'a AppState, name: &str) -> &'a TrackLog {
    let i = find_by_name(&state.tracked_apps, &name.to_string()).unwrap();
    &state.tracked_apps[i]
}

#[test]
fn add_same_app_twice_keeps_one_record() {
    let mut store = Store::new();
    let e1 = store.dispatch(Actions::AddTrackedApp("alice".to_string(), "editor.exe".to_string()));
    let e2 = store.dispatch(Actions::AddTrackedApp("alice".to_string(), "editor.exe".to_string()));
    assert_eq!(store.selector().tracked_apps.len(), 1);
    assert_eq!(e1.len(), 1);
    assert!(matches!(&e1[0], Effect::StartTracker(n) if n == "editor.exe"));
    assert!(e2.is_empty());
    let l = &store.selector().tracked_apps[0];
    assert_eq!(l.uptime, 0);
    assert!(l.is_running);
    assert_eq!(l.display_name, "editor.exe");
    assert_eq!(store.selector().active_trackers, vec!["editor.exe".to_string()]);
}

#[test]
fn add_by_many_users_keeps_one_record() {
    let mut store = Store::new();
    for u in ["alice", "bob", "alice", "carol"] {
        store.dispatch(Actions::AddTrackedApp(u.to_string(), "editor.exe".to_string()));
    }
    store.dispatch(Actions::AddTrackedApp("bob".to_string(), "other.exe".to_string()));
    let s = store.selector();
    assert_eq!(s.tracked_apps.iter().filter(|l| l.process_name == "editor.exe").count(), 1);
    assert_eq!(s.tracked_apps.len(), 2);
    assert_eq!(named(s, "editor.exe").username, "alice");
    assert!(is_app_tracked(s, "other.exe"));
    assert!(!is_app_tracked(s, "third.exe"));
}

#[test]
fn delete_removes_from_memory_and_file() {
    let mut store = Store::new();
    let mut file = Vec::new();
    let procs = Vec::new();
    run(&mut store, &mut file, &procs, Actions::AddTrackedApp("alice".to_string(), "editor.exe".to_string()));
    run(&mut store, &mut file, &procs, Actions::SaveData("editor.exe".to_string()));
    assert_eq!(file.len(), 1);
    let effects = store.dispatch(Actions::DeleteTrackedApp("editor.exe".to_string()));
    assert_eq!(effects.len(), 2);
    assert!(matches!(&effects[0], Effect::StopTracker(n) if n == "editor.exe"));
    assert!(matches!(&effects[1], Effect::DeleteRecord(n) if n == "editor.exe"));
    // the record stays until the stored copy is gone
    assert_eq!(store.selector().tracked_apps.len(), 1);
    delete_records(&mut file, &"editor.exe".to_string());
    run(&mut store, &mut file, &procs, Actions::TrackedAppDeleted("editor.exe".to_string()));
    assert!(store.selector().tracked_apps.is_empty());
    assert!(store.selector().active_trackers.is_empty());
    assert!(file.is_empty());
}

#[test]
fn delete_unknown_app_is_reported_not_found() {
    let mut store = Store::new();
    let effects = store.dispatch(Actions::DeleteTrackedApp("ghost.exe".to_string()));
    assert_eq!(effects.len(), 1);
    assert!(matches!(&effects[0], Effect::NotFound(n) if n == "ghost.exe"));
}

#[test]
fn update_rename_and_unknown_names() {
    let mut store = Store::new();
    store.dispatch(Actions::AddTrackedApp("alice".to_string(), "editor.exe".to_string()));
    assert!(store.dispatch(Actions::UpdateAppTime("editor.exe".to_string(), 300)).is_empty());
    assert!(store.dispatch(Actions::UpdateAppTime("editor.exe".to_string(), 120)).is_empty());
    assert_eq!(named(store.selector(), "editor.exe").uptime, 120);
    store.dispatch(Actions::ChangeTrackedAppName("editor.exe".to_string(), "Editor".to_string()));
    assert_eq!(named(store.selector(), "editor.exe").display_name, "Editor");
    let e = store.dispatch(Actions::UpdateAppTime("nope.exe".to_string(), 1));
    assert!(matches!(&e[0], Effect::NotFound(n) if n == "nope.exe"));
    let e = store.dispatch(Actions::ChangeTrackedAppName("nope.exe".to_string(), "x".to_string()));
    assert!(matches!(&e[0], Effect::NotFound(_)));
    let e = store.dispatch(Actions::SaveData("nope.exe".to_string()));
    assert!(matches!(&e[0], Effect::NotFound(_)));
}

#[test]
fn add_badge_to_proc_appends_each_rank_once() {
    let mut store = Store::new();
    store.dispatch(Actions::AddTrackedApp("alice".to_string(), "editor.exe".to_string()));
    for _ in 0..3 {
        store.dispatch(Actions::AddBadgeToProc(get_badge(0, "alice").unwrap(), "editor.exe".to_string()));
    }
    store.dispatch(Actions::AddBadgeToProc(get_badge(3600, "alice").unwrap(), "editor.exe".to_string()));
    let l = named(store.selector(), "editor.exe");
    assert_eq!(l.badges.len(), 2);
    assert_eq!(l.badges[0].rank, BadgeRank::Initial);
    assert_eq!(l.badges[1].rank, BadgeRank::Common);
    let e = store.dispatch(Actions::AddBadgeToProc(get_badge(0, "a").unwrap(), "nope.exe".to_string()));
    assert!(matches!(&e[0], Effect::NotFound(_)));
}

#[test]
fn fetch_tracked_apps_cycle() {
    let mut store = Store::new();
    assert!(needs_tracked_fetch(store.selector()));
    let e = store.dispatch(Actions::FetchTrackedApps);
    assert!(matches!(&e[0], Effect::LoadTracked));
    assert!(store.selector().is_fetching_tracked);
    let e = store.dispatch(Actions::FetchTrackedApps);
    assert!(matches!(&e[0], Effect::PollTracked));
    let mut a = TrackLog::new("alice", "a.exe", "a.exe");
    a.is_running = false;
    let b = TrackLog::new("alice", "a.exe", "dup");
    store.dispatch(Actions::TrackedAppsLoaded(vec![a, b]));
    let s = store.selector();
    assert!(!s.is_fetching_tracked);
    assert!(!s.is_error_tracked);
    assert_eq!(s.tracked_apps.len(), 1);
    assert_eq!(s.tracked_apps[0].display_name, "a.exe");
    assert!(!needs_tracked_fetch(s));
}

#[test]
fn fetch_failures_set_error_flags() {
    let mut store = Store::new();
    store.dispatch(Actions::FetchTrackedApps);
    store.dispatch(Actions::TrackedAppsFailed);
    assert!(store.selector().is_error_tracked);
    assert!(!store.selector().is_fetching_tracked);
    assert!(!needs_tracked_fetch(store.selector()));
    let e = store.dispatch(Actions::FetchTrackedApps);
    assert!(matches!(&e[0], Effect::LoadTracked));
    assert!(!store.selector().is_error_tracked);

    let e = store.dispatch(Actions::FetchUntrackedApps);
    assert!(matches!(&e[0], Effect::LoadUntracked));
    let e = store.dispatch(Actions::FetchUntrackedApps);
    assert!(matches!(&e[0], Effect::PollUntracked));
    store.dispatch(Actions::UntrackedAppsFailed);
    assert!(store.selector().is_error_untracked);
    store.dispatch(Actions::FetchUntrackedApps);
    store.dispatch(Actions::UntrackedAppsLoaded(vec![ProcessInfo::new("a.exe", 7)]));
    assert!(!store.selector().is_error_untracked);
    assert_eq!(store.selector().untracked_apps.len(), 1);
    assert_eq!(store.selector().untracked_apps[0].pid, 7);
}

#[test]
fn query_failure_leaves_empty_snapshot() {
    let mut store = Store::new();
    store.dispatch(Actions::UntrackedAppsQueried(Some(vec![ProcessInfo::new("a.exe", 1)])));
    assert_eq!(store.selector().untracked_apps.len(), 1);
    let e = store.dispatch(Actions::QueryUntrackedApps);
    assert!(matches!(&e[0], Effect::QueryProcesses));
    store.dispatch(Actions::UntrackedAppsQueried(None));
    assert!(store.selector().untracked_apps.is_empty());
    assert!(!store.selector().is_error_untracked);
}

#[test]
fn clean_error_msg_clears_error() {
    let mut state = AppState::new();
    state.error = Some("boom".to_string());
    let e = state.reduce(Actions::CleanErrorMsg);
    assert!(e.is_empty());
    assert!(state.error.is_none());
    assert!(state.reduce(Actions::NoAction).is_empty());
}

#[test]
fn save_all_data_saves_every_record() {
    let mut store = Store::new();
    let mut file = Vec::new();
    let procs = Vec::new();
    run(&mut store, &mut file, &procs, Actions::AddTrackedApp("a".to_string(), "x.exe".to_string()));
    run(&mut store, &mut file, &procs, Actions::AddTrackedApp("a".to_string(), "y.exe".to_string()));
    let e = store.dispatch(Actions::SaveAllData);
    assert_eq!(e.len(), 2);
    run(&mut store, &mut file, &procs, Actions::SaveAllData);
    assert_eq!(file.len(), 2);
    assert!(file.iter().all(|l| !l.is_running));
}

#[test]
fn process_disappears_then_paused_and_saved() {
    let mut store = Store::new();
    let mut file = Vec::new();
    let mut procs = vec![ProcessInfo::new("editor.exe", 42)];
    run(&mut store, &mut file, &procs, Actions::AddTrackedApp("alice".to_string(), "editor.exe".to_string()));
    let mut t = Tracker::new("editor.exe", "alice", store.selector(), None);
    assert_eq!(t.total_time, 0);
    // two polls while the process runs
    for _ in 0..2 {
        run(&mut store, &mut file, &procs, Actions::QueryUntrackedApps);
        let running = tracker_core::process::is_proc_listed(&store.selector().untracked_apps, &t.process_name);
        let out = t.tick(CancelSignal::Empty, running);
        assert!(!out.finished);
        for a in out.actions {
            run(&mut store, &mut file, &procs, a);
        }
    }
    assert_eq!(named(store.selector(), "editor.exe").uptime, 5);
    // the process goes away
    procs.clear();
    run(&mut store, &mut file, &procs, Actions::QueryUntrackedApps);
    let running = tracker_core::process::is_proc_listed(&store.selector().untracked_apps, &t.process_name);
    let out = t.tick(CancelSignal::Empty, running);
    assert!(out.finished);
    assert_eq!(out.actions.len(), 2);
    for a in out.actions {
        run(&mut store, &mut file, &procs, a);
    }
    let l = named(store.selector(), "editor.exe");
    assert!(!l.is_running);
    assert!(store.selector().active_trackers.is_empty());
    let i = find_by_name(&file, &"editor.exe".to_string()).unwrap();
    assert_eq!(file[i].uptime, 5);
    assert!(!file[i].is_running);
}

#[test]
fn process_reappears_then_resumed_from_stored_time() {
    let mut store = Store::new();
    let mut file = Vec::new();
    let mut procs: Vec<ProcessInfo> = Vec::new();
    let mut paused = TrackLog::new("alice", "editor.exe", "editor.exe");
    paused.set_uptime(7200);
    paused.is_running = false;
    run(&mut store, &mut file, &procs, Actions::TrackedAppsLoaded(vec![paused]));
    let mut sup = Supervisor::new();
    run(&mut store, &mut file, &procs, Actions::QueryUntrackedApps);
    assert!(sup.tick(store.selector()).is_empty());
    // the process starts again
    procs.push(ProcessInfo::new("other.exe", 1));
    procs.push(ProcessInfo::new("editor.exe", 9));
    run(&mut store, &mut file, &procs, Actions::QueryUntrackedApps);
    let actions = sup.tick(store.selector());
    assert_eq!(actions.len(), 1);
    assert!(matches!(&actions[0], Actions::ResumeTracking(n) if n == "editor.exe"));
    let mut started = Vec::new();
    for a in actions {
        started.extend(run(&mut store, &mut file, &procs, a));
    }
    assert_eq!(started, vec!["editor.exe".to_string()]);
    assert!(named(store.selector(), "editor.exe").is_running);
    let mut t = Tracker::new("editor.exe", "alice", store.selector(), Some(30));
    assert_eq!(t.total_time, 7200);
    let out = t.tick(CancelSignal::Empty, true);
    assert!(matches!(&out.actions[0], Actions::UpdateAppTime(n, 7200) if n == "editor.exe"));
    // same snapshot size: nothing is looked at again
    assert!(sup.tick(store.selector()).is_empty());
}

#[test]
fn supervisor_skips_running_and_absent_apps() {
    let mut state = AppState::new();
    let mut a = TrackLog::new("u", "a.exe", "a.exe");
    a.is_running = false;
    let b = TrackLog::new("u", "b.exe", "b.exe");
    let mut c = TrackLog::new("u", "c.exe", "c.exe");
    c.is_running = false;
    state.reduce(Actions::TrackedAppsLoaded(vec![a, b, c]));
    state.reduce(Actions::UntrackedAppsQueried(Some(vec![
        ProcessInfo::new("b.exe", 1),
        ProcessInfo::new("c.exe", 2),
    ])));
    let mut sup = Supervisor::new();
    let r = sup.tick(&state);
    assert_eq!(r.len(), 1);
    assert!(matches!(&r[0], Actions::ResumeTracking(n) if n == "c.exe"));
    assert_eq!(sup.prev_proc_num, 2);
}

#[test]
fn tracker_starts_from_os_time_without_record() {
    let state = AppState::new();
    assert_eq!(Tracker::new("x.exe", "u", &state, Some(30)).total_time, 30);
    assert_eq!(Tracker::new("x.exe", "u", &state, None).total_time, 0);
}

#[test]
fn tracker_cancel_ends_without_actions() {
    let state = AppState::new();
    let mut t = Tracker::new("x.exe", "u", &state, Some(30));
    let out = t.tick(CancelSignal::Received, true);
    assert!(out.finished && out.actions.is_empty());
    let out = t.tick(CancelSignal::Disconnected, false);
    assert!(out.finished && out.actions.is_empty());
    assert_eq!(t.total_time, 30);
    assert_eq!(t.elapsed, 0);
}

#[test]
fn tracker_periodic_save_and_badge() {
    let state = AppState::new();
    let mut t = Tracker::new("x.exe", "u", &state, Some(3600));
    // elapsed 0: update, save and badge
    let out = t.tick(CancelSignal::Empty, true);
    assert_eq!(out.actions.len(), 3);
    assert!(matches!(&out.actions[0], Actions::UpdateAppTime(_, 3600)));
    assert!(matches!(&out.actions[1], Actions::SaveData(n) if n == "x.exe"));
    assert!(matches!(&out.actions[2], Actions::AddBadgeToProc(b, _) if b.rank == BadgeRank::Common));
    assert_eq!(t.elapsed, 5);
    assert_eq!(t.total_time, 3605);
    // elapsed 5: only the update
    let out = t.tick(CancelSignal::Empty, true);
    assert_eq!(out.actions.len(), 1);
    // on to elapsed 120: save, no badge check
    while t.elapsed < 120 {
        t.tick(CancelSignal::Empty, true);
    }
    let out = t.tick(CancelSignal::Empty, true);
    assert_eq!(out.actions.len(), 2);
    assert!(matches!(&out.actions[1], Actions::SaveData(_)));
}

#[test]
fn poll_outcomes_become_actions() {
    assert!(tracked_poll_answer(Poll::Pending).is_none());
    assert!(matches!(tracked_poll_answer(Poll::Closed), Some(Actions::TrackedAppsFailed)));
    let r = tracked_poll_answer(Poll::Ready(vec![TrackLog::new("u", "a.exe", "a.exe")]));
    assert!(matches!(&r, Some(Actions::TrackedAppsLoaded(d)) if d.len() == 1));
    assert!(untracked_poll_answer(Poll::Pending).is_none());
    assert!(matches!(untracked_poll_answer(Poll::Closed), Some(Actions::UntrackedAppsFailed)));
    let r = untracked_poll_answer(Poll::Ready(vec![ProcessInfo::new("a.exe", 3)]));
    assert!(matches!(&r, Some(Actions::UntrackedAppsLoaded(d)) if d[0].pid == 3));
}
