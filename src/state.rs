use vstd::prelude::*;

use crate::badges::Badge;
use crate::persistence::{
    dedup_records, find_by_name, has_name, index_of_name, lemma_first_is_index,
    names_unique, dedup_names, without_name,
};
use crate::process::{ProcessInfo, ProcessInfoView, procs_view};
use crate::track_log::{TrackLog, TrackLogView, logs_view, with_badge};

verus! {

broadcast use Seq::lemma_filter_push;

/// The shared application state. It changes only through `AppState::reduce`.
pub struct AppState {
    pub tracked_apps: Vec<TrackLog>,
    pub untracked_apps: Vec<ProcessInfo>,
    pub is_fetching_tracked: bool,
    pub is_fetching_untracked: bool,
    pub is_error_untracked: bool,
    pub is_error_tracked: bool,
    pub error: Option<String>,
    /// Process names whose tracker holds a live cancellation handle.
    pub active_trackers: Vec<String>,
}

pub struct AppStateView {
    pub tracked_apps: Seq<TrackLogView>,
    pub untracked_apps: Seq<ProcessInfoView>,
    pub is_fetching_tracked: bool,
    pub is_fetching_untracked: bool,
    pub is_error_untracked: bool,
    pub is_error_tracked: bool,
    pub error: Option<Seq<char>>,
    pub active_trackers: Seq<Seq<char>>,
}

pub open spec fn strings_view(s: Seq<String>) -> Seq<Seq<char>> {
    s.map_values(|x: String| x@)
}

impl View for AppState {
    type V = AppStateView;

    open spec fn view(&self) -> AppStateView {
        AppStateView {
            tracked_apps: logs_view(self.tracked_apps@),
            untracked_apps: procs_view(self.untracked_apps@),
            is_fetching_tracked: self.is_fetching_tracked,
            is_fetching_untracked: self.is_fetching_untracked,
            is_error_untracked: self.is_error_untracked,
            is_error_tracked: self.is_error_tracked,
            error: match self.error {
                Some(e) => Some(e@),
                None => None,
            },
            active_trackers: strings_view(self.active_trackers@),
        }
    }
}

/// A request to the state, from the user interface, from a background task,
/// or carrying back the outcome of an effect.
#[derive(Debug)]
pub enum Actions {
    NoAction,
    FetchTrackedApps,
    FetchUntrackedApps,
    /// (username, process name)
    AddTrackedApp(String, String),
    /// (process name, absolute uptime in seconds)
    UpdateAppTime(String, u64),
    DeleteTrackedApp(String),
    SaveData(String),
    CleanErrorMsg,
    SaveAllData,
    /// (process name, new display name)
    ChangeTrackedAppName(String, String),
    QueryUntrackedApps,
    PauseTracking(String),
    ResumeTracking(String),
    AddBadgeToProc(Badge, String),
    /// The background read of the stored records finished.
    TrackedAppsLoaded(Vec<TrackLog>),
    /// The background read of the stored records failed.
    TrackedAppsFailed,
    /// The background enumeration of processes finished.
    UntrackedAppsLoaded(Vec<ProcessInfo>),
    /// The background enumeration of processes failed.
    UntrackedAppsFailed,
    /// A direct enumeration finished (`None`: it failed).
    UntrackedAppsQueried(Option<Vec<ProcessInfo>>),
    /// The record was removed from the stored collection.
    TrackedAppDeleted(String),
}

/// Work that the state asks of its surroundings after a step.
#[derive(Debug)]
pub enum Effect {
    /// Start reading the stored records of the current user in the background.
    LoadTracked,
    /// Look, without waiting, whether that read has finished.
    PollTracked,
    /// Start enumerating processes in the background.
    LoadUntracked,
    /// Look, without waiting, whether that enumeration has finished.
    PollUntracked,
    /// Enumerate processes now and answer with `UntrackedAppsQueried`.
    QueryProcesses,
    /// Start a tracker for the process name, keeping its cancellation handle.
    StartTracker(String),
    /// Signal cancellation to the tracker of the process name.
    StopTracker(String),
    /// Drop the cancellation handle of the process name.
    ReleaseTracker(String),
    /// Save the record into the stored collection.
    SaveRecord(TrackLog),
    /// Remove the process name from the stored collection, answering with
    /// `TrackedAppDeleted` once that succeeded.
    DeleteRecord(String),
    /// The action named a process that is not tracked.
    NotFound(String),
}

pub enum EffectView {
    LoadTracked,
    PollTracked,
    LoadUntracked,
    PollUntracked,
    QueryProcesses,
    StartTracker(Seq<char>),
    StopTracker(Seq<char>),
    ReleaseTracker(Seq<char>),
    SaveRecord(TrackLogView),
    DeleteRecord(Seq<char>),
    NotFound(Seq<char>),
}

impl View for Effect {
    type V = EffectView;

    open spec fn view(&self) -> EffectView {
        match self {
            Effect::LoadTracked => EffectView::LoadTracked,
            Effect::PollTracked => EffectView::PollTracked,
            Effect::LoadUntracked => EffectView::LoadUntracked,
            Effect::PollUntracked => EffectView::PollUntracked,
            Effect::QueryProcesses => EffectView::QueryProcesses,
            Effect::StartTracker(n) => EffectView::StartTracker(n@),
            Effect::StopTracker(n) => EffectView::StopTracker(n@),
            Effect::ReleaseTracker(n) => EffectView::ReleaseTracker(n@),
            Effect::SaveRecord(l) => EffectView::SaveRecord(l@),
            Effect::DeleteRecord(n) => EffectView::DeleteRecord(n@),
            Effect::NotFound(n) => EffectView::NotFound(n@),
        }
    }
}

pub open spec fn effects_view(s: Seq<Effect>) -> Seq<EffectView> {
    s.map_values(|e: Effect| e@)
}

/// The state's invariant: at most one record per process name.
pub open spec fn state_wf(s: AppStateView) -> bool {
    names_unique(s.tracked_apps)
}

/// The records after the first one named `name` is replaced by `l`.
pub open spec fn update_named(
    s: Seq<TrackLogView>,
    name: Seq<char>,
    l: TrackLogView,
) -> Seq<TrackLogView> {
    s.update(index_of_name(s, name), l)
}

/// The record named `name` (meaningful when there is one).
pub open spec fn named(s: Seq<TrackLogView>, name: Seq<char>) -> TrackLogView {
    s[index_of_name(s, name)]
}

/// Every record named `name` marked with `running`.
pub open spec fn mark_running(s: Seq<TrackLogView>, name: Seq<char>, running: bool) -> Seq<
    TrackLogView,
> {
    s.map_values(
        |l: TrackLogView|
            if l.process_name == name {
                TrackLogView { is_running: running, ..l }
            } else {
                l
            },
    )
}

/// The names of `s` other than `name`.
pub open spec fn without_tracker(s: Seq<Seq<char>>, name: Seq<char>) -> Seq<Seq<char>> {
    s.filter(|n: Seq<char>| n != name)
}

/// What `reduce` does, action by action: the next state and the effects.
pub open spec fn reduce_spec(s: AppStateView, a: ActionView) -> (AppStateView, Seq<EffectView>) {
    match a {
        ActionView::NoAction => (s, seq![]),
        ActionView::FetchTrackedApps => if !s.is_fetching_tracked {
            (
                AppStateView { is_fetching_tracked: true, is_error_tracked: false, ..s },
                seq![EffectView::LoadTracked],
            )
        } else {
            (s, seq![EffectView::PollTracked])
        },
        ActionView::FetchUntrackedApps => if !s.is_fetching_untracked {
            (
                AppStateView { is_fetching_untracked: true, is_error_untracked: false, ..s },
                seq![EffectView::LoadUntracked],
            )
        } else {
            (s, seq![EffectView::PollUntracked])
        },
        ActionView::AddTrackedApp(user, name) => if has_name(s.tracked_apps, name) {
            (s, seq![])
        } else {
            (
                AppStateView {
                    tracked_apps: s.tracked_apps.push(
                        TrackLogView {
                            username: user,
                            uptime: 0,
                            badges: seq![],
                            process_name: name,
                            display_name: name,
                            is_running: true,
                        },
                    ),
                    active_trackers: s.active_trackers.push(name),
                    ..s
                },
                seq![EffectView::StartTracker(name)],
            )
        },
        ActionView::UpdateAppTime(name, secs) => if has_name(s.tracked_apps, name) {
            (
                AppStateView {
                    tracked_apps: update_named(
                        s.tracked_apps,
                        name,
                        TrackLogView { uptime: secs, ..named(s.tracked_apps, name) },
                    ),
                    ..s
                },
                seq![],
            )
        } else {
            (s, seq![EffectView::NotFound(name)])
        },
        ActionView::DeleteTrackedApp(name) => {
            let stop = if s.active_trackers.contains(name) {
                seq![EffectView::StopTracker(name)]
            } else {
                seq![]
            };
            let next = AppStateView {
                active_trackers: without_tracker(s.active_trackers, name),
                ..s
            };
            if has_name(s.tracked_apps, name) {
                (next, stop.push(EffectView::DeleteRecord(name)))
            } else {
                (next, stop.push(EffectView::NotFound(name)))
            }
        },
        ActionView::TrackedAppDeleted(name) => (
            AppStateView { tracked_apps: without_name(s.tracked_apps, name), ..s },
            seq![],
        ),
        ActionView::SaveData(name) => if has_name(s.tracked_apps, name) {
            (s, seq![EffectView::SaveRecord(named(s.tracked_apps, name))])
        } else {
            (s, seq![EffectView::NotFound(name)])
        },
        ActionView::SaveAllData => (
            s,
            s.tracked_apps.map_values(|l: TrackLogView| EffectView::SaveRecord(l)),
        ),
        ActionView::ChangeTrackedAppName(name, label) => if has_name(s.tracked_apps, name) {
            (
                AppStateView {
                    tracked_apps: update_named(
                        s.tracked_apps,
                        name,
                        TrackLogView { display_name: label, ..named(s.tracked_apps, name) },
                    ),
                    ..s
                },
                seq![],
            )
        } else {
            (s, seq![EffectView::NotFound(name)])
        },
        ActionView::QueryUntrackedApps => (s, seq![EffectView::QueryProcesses]),
        ActionView::PauseTracking(name) => (
            AppStateView {
                tracked_apps: mark_running(s.tracked_apps, name, false),
                active_trackers: without_tracker(s.active_trackers, name),
                ..s
            },
            seq![EffectView::ReleaseTracker(name)],
        ),
        ActionView::ResumeTracking(name) => if has_name(s.tracked_apps, name) {
            (
                AppStateView {
                    tracked_apps: update_named(
                        s.tracked_apps,
                        name,
                        TrackLogView { is_running: true, ..named(s.tracked_apps, name) },
                    ),
                    active_trackers: s.active_trackers.push(name),
                    ..s
                },
                seq![EffectView::StartTracker(name)],
            )
        } else {
            (s, seq![EffectView::NotFound(name)])
        },
        ActionView::AddBadgeToProc(badge, name) => if has_name(s.tracked_apps, name) {
            let l = named(s.tracked_apps, name);
            (
                AppStateView {
                    tracked_apps: update_named(
                        s.tracked_apps,
                        name,
                        TrackLogView { badges: with_badge(l.badges, badge), ..l },
                    ),
                    ..s
                },
                seq![],
            )
        } else {
            (s, seq![EffectView::NotFound(name)])
        },
        ActionView::TrackedAppsLoaded(data) => (
            AppStateView {
                tracked_apps: dedup_names(data),
                is_fetching_tracked: false,
                is_error_tracked: false,
                ..s
            },
            seq![],
        ),
        ActionView::TrackedAppsFailed => (
            AppStateView { is_fetching_tracked: false, is_error_tracked: true, ..s },
            seq![],
        ),
        ActionView::UntrackedAppsLoaded(data) => (
            AppStateView {
                untracked_apps: data,
                is_fetching_untracked: false,
                is_error_untracked: false,
                ..s
            },
            seq![],
        ),
        ActionView::UntrackedAppsFailed => (
            AppStateView { is_fetching_untracked: false, is_error_untracked: true, ..s },
            seq![],
        ),
        ActionView::UntrackedAppsQueried(data) => (
            AppStateView {
                untracked_apps: match data {
                    Some(d) => d,
                    None => seq![],
                },
                ..s
            },
            seq![],
        ),
        ActionView::CleanErrorMsg => (AppStateView { error: None, ..s }, seq![]),
    }
}

pub enum ActionView {
    NoAction,
    FetchTrackedApps,
    FetchUntrackedApps,
    AddTrackedApp(Seq<char>, Seq<char>),
    UpdateAppTime(Seq<char>, u64),
    DeleteTrackedApp(Seq<char>),
    SaveData(Seq<char>),
    CleanErrorMsg,
    SaveAllData,
    ChangeTrackedAppName(Seq<char>, Seq<char>),
    QueryUntrackedApps,
    PauseTracking(Seq<char>),
    ResumeTracking(Seq<char>),
    AddBadgeToProc(crate::badges::BadgeView, Seq<char>),
    TrackedAppsLoaded(Seq<TrackLogView>),
    TrackedAppsFailed,
    UntrackedAppsLoaded(Seq<ProcessInfoView>),
    UntrackedAppsFailed,
    UntrackedAppsQueried(Option<Seq<ProcessInfoView>>),
    TrackedAppDeleted(Seq<char>),
}

impl View for Actions {
    type V = ActionView;

    open spec fn view(&self) -> ActionView {
        match self {
            Actions::NoAction => ActionView::NoAction,
            Actions::FetchTrackedApps => ActionView::FetchTrackedApps,
            Actions::FetchUntrackedApps => ActionView::FetchUntrackedApps,
            Actions::AddTrackedApp(u, n) => ActionView::AddTrackedApp(u@, n@),
            Actions::UpdateAppTime(n, t) => ActionView::UpdateAppTime(n@, *t),
            Actions::DeleteTrackedApp(n) => ActionView::DeleteTrackedApp(n@),
            Actions::SaveData(n) => ActionView::SaveData(n@),
            Actions::CleanErrorMsg => ActionView::CleanErrorMsg,
            Actions::SaveAllData => ActionView::SaveAllData,
            Actions::ChangeTrackedAppName(n, d) => ActionView::ChangeTrackedAppName(n@, d@),
            Actions::QueryUntrackedApps => ActionView::QueryUntrackedApps,
            Actions::PauseTracking(n) => ActionView::PauseTracking(n@),
            Actions::ResumeTracking(n) => ActionView::ResumeTracking(n@),
            Actions::AddBadgeToProc(b, n) => ActionView::AddBadgeToProc(b@, n@),
            Actions::TrackedAppsLoaded(d) => ActionView::TrackedAppsLoaded(logs_view(d@)),
            Actions::TrackedAppsFailed => ActionView::TrackedAppsFailed,
            Actions::UntrackedAppsLoaded(d) => ActionView::UntrackedAppsLoaded(procs_view(d@)),
            Actions::UntrackedAppsFailed => ActionView::UntrackedAppsFailed,
            Actions::UntrackedAppsQueried(d) => ActionView::UntrackedAppsQueried(
                match d {
                    Some(v) => Some(procs_view(v@)),
                    None => None,
                },
            ),
            Actions::TrackedAppDeleted(n) => ActionView::TrackedAppDeleted(n@),
        }
    }
}

/// Dropping every record of one name keeps names unique.
pub proof fn lemma_without_name_unique(s: Seq<TrackLogView>, name: Seq<char>)
    requires
        names_unique(s),
    ensures
        names_unique(without_name(s, name)),
    decreases s.len(),
{
    if s.len() > 0 {
        let t = s.drop_last();
        let x = s.last();
        let pred = |l: TrackLogView| l.process_name != name;
        assert(names_unique(t)) by {
            assert forall|a: int, b: int|
                0 <= a < t.len() && 0 <= b < t.len() && a != b implies #[trigger] t[a].process_name
                != #[trigger] t[b].process_name by {
                assert(t[a] == s[a] && t[b] == s[b]);
            }
        }
        lemma_without_name_unique(t, name);
        assert(s =~= t.push(x));
        let f = without_name(t, name);
        if pred(x) {
            let d = f.push(x);
            assert forall|i: int| 0 <= i < f.len() implies #[trigger] f[i].process_name
                != x.process_name by {
                assert(f.contains(f[i]));
                t.lemma_filter_contains_rev(pred, f[i]);
                let j = choose|j: int| 0 <= j < t.len() && t[j] == f[i];
                assert(s[j] == t[j]);
                assert(s[s.len() - 1] == x);
            }
            assert forall|a: int, b: int|
                0 <= a < d.len() && 0 <= b < d.len() && a != b implies #[trigger] d[a].process_name
                != #[trigger] d[b].process_name by {
                if a < f.len() && b < f.len() {
                    assert(d[a] == f[a] && d[b] == f[b]);
                } else if a < f.len() {
                    assert(d[a] == f[a]);
                } else {
                    assert(d[b] == f[b]);
                }
            }
        }
    }
}

/// Whether `name` is among `names`.
fn contains_name(names: &Vec<String>, name: &String) -> (r: bool)
    ensures
        r == strings_view(names@).contains(name@),
{
    let ghost nv = strings_view(names@);
    let mut i: usize = 0;
    while i < names.len()
        invariant
            0 <= i <= names.len(),
            nv == strings_view(names@),
            forall|j: int| 0 <= j < i ==> #[trigger] nv[j] != name@,
        decreases names.len() - i,
    {
        if names[i] == *name {
            assert(nv[i as int] == name@);
            return true;
        }
        i = i + 1;
    }
    false
}

/// The names of `names` other than `name`, in their order.
fn names_without(names: &Vec<String>, name: &String) -> (r: Vec<String>)
    ensures
        strings_view(r@) == without_tracker(strings_view(names@), name@),
{
    let ghost nv = strings_view(names@);
    let mut kept: Vec<String> = Vec::new();
    let mut i: usize = 0;
    while i < names.len()
        invariant
            0 <= i <= names.len(),
            nv == strings_view(names@),
            strings_view(kept@) == without_tracker(nv.subrange(0, i as int), name@),
        decreases names.len() - i,
    {
        assert(nv.subrange(0, i + 1) =~= nv.subrange(0, i as int).push(nv[i as int]));
        if names[i] != *name {
            let ghost before = kept@;
            kept.push(names[i].clone());
            assert(strings_view(kept@) =~= strings_view(before).push(nv[i as int]));
        }
        i = i + 1;
    }
    assert(nv.subrange(0, nv.len() as int) =~= nv);
    kept
}

impl Default for AppState {
    fn default() -> (r: Self)
        ensures
            r@ == (AppStateView {
                tracked_apps: seq![],
                untracked_apps: seq![],
                is_fetching_tracked: false,
                is_fetching_untracked: false,
                is_error_untracked: false,
                is_error_tracked: false,
                error: None,
                active_trackers: seq![],
            }),
            state_wf(r@),
    {
        AppState::new()
    }
}

impl AppState {
    /// The state at start-up: nothing tracked, nothing fetched, no error.
    pub fn new() -> (r: Self)
        ensures
            r@ == (AppStateView {
                tracked_apps: seq![],
                untracked_apps: seq![],
                is_fetching_tracked: false,
                is_fetching_untracked: false,
                is_error_untracked: false,
                is_error_tracked: false,
                error: None,
                active_trackers: seq![],
            }),
            state_wf(r@),
    {
        let r = AppState {
            tracked_apps: Vec::new(),
            untracked_apps: Vec::new(),
            is_fetching_tracked: false,
            is_fetching_untracked: false,
            is_error_untracked: false,
            is_error_tracked: false,
            error: None,
            active_trackers: Vec::new(),
        };
        assert(r@.tracked_apps =~= seq![]);
        assert(r@.untracked_apps =~= seq![]);
        assert(r@.active_trackers =~= seq![]);
        r
    }

    /// Applies one action: the only way the state changes. Returns the
    /// effects that the surroundings are to carry out, in order.
    pub fn reduce(&mut self, msg: Actions) -> (r: Vec<Effect>)
        requires
            state_wf(old(self)@),
        ensures
            (final(self)@, effects_view(r@)) == reduce_spec(old(self)@, msg@),
            state_wf(final(self)@),
    {
        match msg {
            Actions::NoAction => {
                let r: Vec<Effect> = Vec::new();
                assert(effects_view(r@) =~= seq![]);
                r
            },
            Actions::FetchTrackedApps => {
                let e = if !self.is_fetching_tracked {
                    self.is_fetching_tracked = true;
                    self.is_error_tracked = false;
                    Effect::LoadTracked
                } else {
                    Effect::PollTracked
                };
                one_effect(e)
            },
            Actions::FetchUntrackedApps => {
                let e = if !self.is_fetching_untracked {
                    self.is_fetching_untracked = true;
                    self.is_error_untracked = false;
                    Effect::LoadUntracked
                } else {
                    Effect::PollUntracked
                };
                one_effect(e)
            },
            Actions::AddTrackedApp(user, name) => self.add_tracked(user, name),
            Actions::UpdateAppTime(name, secs) => self.update_time(name, secs),
            Actions::DeleteTrackedApp(name) => self.delete_tracked(name),
            Actions::TrackedAppDeleted(name) => self.tracked_deleted(name),
            Actions::SaveData(name) => self.save_data(name),
            Actions::SaveAllData => self.save_all(),
            Actions::ChangeTrackedAppName(name, label) => self.rename(name, label),
            Actions::QueryUntrackedApps => one_effect(Effect::QueryProcesses),
            Actions::PauseTracking(name) => self.pause(name),
            Actions::ResumeTracking(name) => self.resume(name),
            Actions::AddBadgeToProc(badge, name) => self.add_badge_to(badge, name),
            Actions::TrackedAppsLoaded(data) => {
                self.tracked_apps = dedup_records(data);
                self.is_fetching_tracked = false;
                self.is_error_tracked = false;
                no_effects()
            },
            Actions::TrackedAppsFailed => {
                self.is_fetching_tracked = false;
                self.is_error_tracked = true;
                no_effects()
            },
            Actions::UntrackedAppsLoaded(data) => {
                self.untracked_apps = data;
                self.is_fetching_untracked = false;
                self.is_error_untracked = false;
                no_effects()
            },
            Actions::UntrackedAppsFailed => {
                self.is_fetching_untracked = false;
                self.is_error_untracked = true;
                no_effects()
            },
            Actions::UntrackedAppsQueried(data) => {
                match data {
                    Some(d) => {
                        self.untracked_apps = d;
                    },
                    None => {
                        self.untracked_apps = Vec::new();
                        assert(procs_view(self.untracked_apps@) =~= seq![]);
                    },
                }
                no_effects()
            },
            Actions::CleanErrorMsg => {
                self.error = None;
                no_effects()
            },
        }
    }

    fn add_tracked(&mut self, user: String, name: String) -> (r: Vec<Effect>)
        requires
            state_wf(old(self)@),
        ensures
            (final(self)@, effects_view(r@)) == reduce_spec(
                old(self)@,
                ActionView::AddTrackedApp(user@, name@),
            ),
            state_wf(final(self)@),
    {
        if find_by_name(&self.tracked_apps, &name).is_some() {
            return no_effects();
        }
        let ghost s = self@;
        let log = TrackLog::new(user.as_str(), name.as_str(), name.as_str());
        self.tracked_apps.push(log);
        self.active_trackers.push(name.clone());
        assert(self@.tracked_apps =~= s.tracked_apps.push(log@));
        assert(self@.active_trackers =~= s.active_trackers.push(name@));
        assert(log@.badges =~= seq![]);
        proof {
            let d = self@.tracked_apps;
            let n = s.tracked_apps.len() as int;
            assert forall|a: int, b: int|
                0 <= a < d.len() && 0 <= b < d.len() && a != b implies #[trigger] d[a].process_name
                != #[trigger] d[b].process_name by {
                if a < n && b < n {
                    assert(d[a] == s.tracked_apps[a] && d[b] == s.tracked_apps[b]);
                } else if a < n {
                    assert(d[a] == s.tracked_apps[a]);
                } else {
                    assert(d[b] == s.tracked_apps[b]);
                }
            }
        }
        one_effect(Effect::StartTracker(name))
    }

    fn update_time(&mut self, name: String, secs: u64) -> (r: Vec<Effect>)
        requires
            state_wf(old(self)@),
        ensures
            (final(self)@, effects_view(r@)) == reduce_spec(
                old(self)@,
                ActionView::UpdateAppTime(name@, secs),
            ),
            state_wf(final(self)@),
    {
        let ghost s = self@;
        match find_by_name(&self.tracked_apps, &name) {
            Some(i) => {
                proof {
                    lemma_first_is_index(s.tracked_apps, name@, i as int);
                }
                self.tracked_apps[i].uptime = secs;
                assert(self@.tracked_apps =~= s.tracked_apps.update(
                    i as int,
                    TrackLogView { uptime: secs, ..s.tracked_apps[i as int] },
                ));
                proof {
                    lemma_update_keeps_names(s.tracked_apps, i as int, self@.tracked_apps[i as int]);
                }
                no_effects()
            },
            None => one_effect(Effect::NotFound(name)),
        }
    }

    fn rename(&mut self, name: String, label: String) -> (r: Vec<Effect>)
        requires
            state_wf(old(self)@),
        ensures
            (final(self)@, effects_view(r@)) == reduce_spec(
                old(self)@,
                ActionView::ChangeTrackedAppName(name@, label@),
            ),
            state_wf(final(self)@),
    {
        let ghost s = self@;
        match find_by_name(&self.tracked_apps, &name) {
            Some(i) => {
                proof {
                    lemma_first_is_index(s.tracked_apps, name@, i as int);
                }
                self.tracked_apps[i].display_name = label;
                assert(self@.tracked_apps =~= s.tracked_apps.update(
                    i as int,
                    TrackLogView { display_name: label@, ..s.tracked_apps[i as int] },
                ));
                proof {
                    lemma_update_keeps_names(s.tracked_apps, i as int, self@.tracked_apps[i as int]);
                }
                no_effects()
            },
            None => one_effect(Effect::NotFound(name)),
        }
    }

    fn resume(&mut self, name: String) -> (r: Vec<Effect>)
        requires
            state_wf(old(self)@),
        ensures
            (final(self)@, effects_view(r@)) == reduce_spec(
                old(self)@,
                ActionView::ResumeTracking(name@),
            ),
            state_wf(final(self)@),
    {
        let ghost s = self@;
        match find_by_name(&self.tracked_apps, &name) {
            Some(i) => {
                proof {
                    lemma_first_is_index(s.tracked_apps, name@, i as int);
                }
                self.tracked_apps[i].is_running = true;
                self.active_trackers.push(name.clone());
                assert(self@.tracked_apps =~= s.tracked_apps.update(
                    i as int,
                    TrackLogView { is_running: true, ..s.tracked_apps[i as int] },
                ));
                assert(self@.active_trackers =~= s.active_trackers.push(name@));
                proof {
                    lemma_update_keeps_names(s.tracked_apps, i as int, self@.tracked_apps[i as int]);
                }
                one_effect(Effect::StartTracker(name))
            },
            None => one_effect(Effect::NotFound(name)),
        }
    }

    fn add_badge_to(&mut self, badge: Badge, name: String) -> (r: Vec<Effect>)
        requires
            state_wf(old(self)@),
        ensures
            (final(self)@, effects_view(r@)) == reduce_spec(
                old(self)@,
                ActionView::AddBadgeToProc(badge@, name@),
            ),
            state_wf(final(self)@),
    {
        let ghost s = self@;
        match find_by_name(&self.tracked_apps, &name) {
            Some(i) => {
                proof {
                    lemma_first_is_index(s.tracked_apps, name@, i as int);
                }
                self.tracked_apps[i].add_badge(badge);
                assert(self@.tracked_apps =~= s.tracked_apps.update(
                    i as int,
                    self@.tracked_apps[i as int],
                ));
                proof {
                    lemma_update_keeps_names(s.tracked_apps, i as int, self@.tracked_apps[i as int]);
                }
                no_effects()
            },
            None => one_effect(Effect::NotFound(name)),
        }
    }

    fn save_data(&mut self, name: String) -> (r: Vec<Effect>)
        requires
            state_wf(old(self)@),
        ensures
            (final(self)@, effects_view(r@)) == reduce_spec(
                old(self)@,
                ActionView::SaveData(name@),
            ),
            state_wf(final(self)@),
    {
        match find_by_name(&self.tracked_apps, &name) {
            Some(i) => {
                proof {
                    lemma_first_is_index(self@.tracked_apps, name@, i as int);
                }
                one_effect(Effect::SaveRecord(self.tracked_apps[i].clone()))
            },
            None => one_effect(Effect::NotFound(name)),
        }
    }

    fn save_all(&mut self) -> (r: Vec<Effect>)
        requires
            state_wf(old(self)@),
        ensures
            (final(self)@, effects_view(r@)) == reduce_spec(old(self)@, ActionView::SaveAllData),
            state_wf(final(self)@),
    {
        let ghost tv = self@.tracked_apps;
        let mut r: Vec<Effect> = Vec::new();
        let mut i: usize = 0;
        while i < self.tracked_apps.len()
            invariant
                0 <= i <= self.tracked_apps.len(),
                tv == self@.tracked_apps,
                self == old(self),
                r@.len() == i,
                forall|j: int| 0 <= j < i ==> #[trigger] r@[j]@ == EffectView::SaveRecord(tv[j]),
            decreases self.tracked_apps.len() - i,
        {
            let c = self.tracked_apps[i].clone();
            assert(c@ == tv[i as int]);
            r.push(Effect::SaveRecord(c));
            i = i + 1;
        }
        assert(effects_view(r@) =~= tv.map_values(|l: TrackLogView| EffectView::SaveRecord(l)));
        r
    }

    fn pause(&mut self, name: String) -> (r: Vec<Effect>)
        requires
            state_wf(old(self)@),
        ensures
            (final(self)@, effects_view(r@)) == reduce_spec(
                old(self)@,
                ActionView::PauseTracking(name@),
            ),
            state_wf(final(self)@),
    {
        let ghost s = self@;
        self.active_trackers = names_without(&self.active_trackers, &name);
        let n = self.tracked_apps.len();
        let mut i: usize = 0;
        while i < n
            invariant
                0 <= i <= n,
                n == self.tracked_apps.len(),
                n == s.tracked_apps.len(),
                self@ == (AppStateView {
                    tracked_apps: self@.tracked_apps,
                    active_trackers: without_tracker(s.active_trackers, name@),
                    ..s
                }),
                forall|j: int|
                    0 <= j < i ==> #[trigger] self@.tracked_apps[j] == mark_running(
                        s.tracked_apps,
                        name@,
                        false,
                    )[j],
                forall|j: int| i <= j < n ==> #[trigger] self@.tracked_apps[j] == s.tracked_apps[j],
            decreases n - i,
        {
            let ghost before = self@.tracked_apps;
            if self.tracked_apps[i].process_name == name {
                self.tracked_apps[i].is_running = false;
                assert(self@.tracked_apps =~= before.update(
                    i as int,
                    TrackLogView { is_running: false, ..before[i as int] },
                ));
            }
            assert(self@.tracked_apps[i as int] == mark_running(s.tracked_apps, name@, false)[i as int]);
            i = i + 1;
        }
        assert(self@.tracked_apps =~= mark_running(s.tracked_apps, name@, false));
        proof {
            let d = self@.tracked_apps;
            assert forall|a: int, b: int|
                0 <= a < d.len() && 0 <= b < d.len() && a != b implies #[trigger] d[a].process_name
                != #[trigger] d[b].process_name by {
                assert(d[a].process_name == s.tracked_apps[a].process_name);
                assert(d[b].process_name == s.tracked_apps[b].process_name);
            }
        }
        one_effect(Effect::ReleaseTracker(name))
    }

    fn delete_tracked(&mut self, name: String) -> (r: Vec<Effect>)
        requires
            state_wf(old(self)@),
        ensures
            (final(self)@, effects_view(r@)) == reduce_spec(
                old(self)@,
                ActionView::DeleteTrackedApp(name@),
            ),
            state_wf(final(self)@),
    {
        let ghost s = self@;
        let mut r: Vec<Effect> = Vec::new();
        if contains_name(&self.active_trackers, &name) {
            r.push(Effect::StopTracker(name.clone()));
        }
        let ghost stop = effects_view(r@);
        self.active_trackers = names_without(&self.active_trackers, &name);
        if find_by_name(&self.tracked_apps, &name).is_some() {
            r.push(Effect::DeleteRecord(name));
            assert(effects_view(r@) =~= stop.push(EffectView::DeleteRecord(name@)));
        } else {
            r.push(Effect::NotFound(name));
            assert(effects_view(r@) =~= stop.push(EffectView::NotFound(name@)));
        }
        assert(stop =~= (if s.active_trackers.contains(name@) {
            seq![EffectView::StopTracker(name@)]
        } else {
            seq![]
        }));
        r
    }

    fn tracked_deleted(&mut self, name: String) -> (r: Vec<Effect>)
        requires
            state_wf(old(self)@),
        ensures
            (final(self)@, effects_view(r@)) == reduce_spec(
                old(self)@,
                ActionView::TrackedAppDeleted(name@),
            ),
            state_wf(final(self)@),
    {
        let ghost s = self@;
        crate::persistence::delete_records(&mut self.tracked_apps, &name);
        proof {
            lemma_without_name_unique(s.tracked_apps, name@);
        }
        no_effects()
    }
}

/// What a non-blocking look at a background task's channel found.
#[derive(Debug)]
pub enum Poll<T> {
    /// The task sent its result.
    Ready(T),
    /// The task has not finished yet.
    Pending,
    /// The task ended without sending a result.
    Closed,
}

/// The answer to `PollTracked`: the loaded records, a failure when the
/// read ended without a result, and nothing while it is still running.
pub fn tracked_poll_answer(p: Poll<Vec<TrackLog>>) -> (r: Option<Actions>)
    ensures
        match p {
            Poll::Ready(d) => r is Some && r->Some_0@ == ActionView::TrackedAppsLoaded(logs_view(d@)),
            Poll::Pending => r is None,
            Poll::Closed => r is Some && r->Some_0@ == ActionView::TrackedAppsFailed,
        },
{
    match p {
        Poll::Ready(d) => Some(Actions::TrackedAppsLoaded(d)),
        Poll::Pending => None,
        Poll::Closed => Some(Actions::TrackedAppsFailed),
    }
}

/// The answer to `PollUntracked`, in the same way.
pub fn untracked_poll_answer(p: Poll<Vec<ProcessInfo>>) -> (r: Option<Actions>)
    ensures
        match p {
            Poll::Ready(d) => r is Some && r->Some_0@ == ActionView::UntrackedAppsLoaded(procs_view(d@)),
            Poll::Pending => r is None,
            Poll::Closed => r is Some && r->Some_0@ == ActionView::UntrackedAppsFailed,
        },
{
    match p {
        Poll::Ready(d) => Some(Actions::UntrackedAppsLoaded(d)),
        Poll::Pending => None,
        Poll::Closed => Some(Actions::UntrackedAppsFailed),
    }
}

/// Replacing one record by one of the same name keeps names unique.
proof fn lemma_update_keeps_names(s: Seq<TrackLogView>, i: int, l: TrackLogView)
    requires
        names_unique(s),
        0 <= i < s.len(),
        l.process_name == s[i].process_name,
    ensures
        names_unique(s.update(i, l)),
{
    let d = s.update(i, l);
    assert forall|a: int, b: int|
        0 <= a < d.len() && 0 <= b < d.len() && a != b implies #[trigger] d[a].process_name
        != #[trigger] d[b].process_name by {
        assert(d[a].process_name == s[a].process_name);
        assert(d[b].process_name == s[b].process_name);
    }
}

fn no_effects() -> (r: Vec<Effect>)
    ensures
        effects_view(r@) == Seq::<EffectView>::empty(),
{
    let r: Vec<Effect> = Vec::new();
    assert(effects_view(r@) =~= Seq::<EffectView>::empty());
    r
}

fn one_effect(e: Effect) -> (r: Vec<Effect>)
    ensures
        effects_view(r@) == seq![e@],
{
    let r = vec![e];
    assert(effects_view(r@) =~= seq![e@]);
    r
}

} // verus!
