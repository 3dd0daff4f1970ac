use vstd::prelude::*;

use crate::badges::{badge_for, get_badge};
use crate::persistence::{find_by_name, has_name, index_of_name, lemma_first_is_index};
use crate::state::{ActionView, Actions, AppState};

verus! {

/// Seconds between two polls of a tracker.
pub const POLL_INTERVAL_SECS: u64 = 5;

/// A tracker saves its record whenever its elapsed time is a multiple of this.
pub const SAVE_PERIOD_SECS: u64 = 120;

/// A tracker looks for a new badge whenever its elapsed time is a multiple of this.
pub const BADGE_PERIOD_SECS: u64 = 300;

/// What a tracker found on its cancellation channel.
#[derive(Debug, PartialEq, Eq, Structural, Clone, Copy)]
pub enum CancelSignal {
    /// Nothing was sent and the channel is open.
    Empty,
    /// A cancellation message was received.
    Received,
    /// The sending side is gone.
    Disconnected,
}

/// The counters of one per-application tracker.
pub struct Tracker {
    pub process_name: String,
    pub username: String,
    /// Seconds since this tracker started.
    pub elapsed: u64,
    /// The accumulated time of the application, in seconds.
    pub total_time: u64,
}

/// What one poll of a tracker decided.
pub struct TickOutcome {
    /// Actions to dispatch to the store, in order.
    pub actions: Vec<Actions>,
    /// The tracker is done and its task ends.
    pub finished: bool,
}

/// The time a tracker starts from: the stored uptime of the record, if there
/// is one; else the running time that the OS reports, if known; else zero.
pub open spec fn initial_total(
    logs: Seq<crate::track_log::TrackLogView>,
    name: Seq<char>,
    os_elapsed: Option<u64>,
) -> u64 {
    if has_name(logs, name) {
        logs[index_of_name(logs, name)].uptime
    } else {
        match os_elapsed {
            Some(t) => t,
            None => 0,
        }
    }
}

pub open spec fn actions_view(s: Seq<Actions>) -> Seq<ActionView> {
    s.map_values(|a: Actions| a@)
}

/// The actions of a poll in which the process is still present.
pub open spec fn running_actions(
    name: Seq<char>,
    username: Seq<char>,
    elapsed: u64,
    total: u64,
) -> Seq<ActionView> {
    let update = seq![ActionView::UpdateAppTime(name, total)];
    let save = if elapsed % SAVE_PERIOD_SECS == 0 {
        seq![ActionView::SaveData(name)]
    } else {
        seq![]
    };
    let badge = if elapsed % BADGE_PERIOD_SECS == 0 {
        match badge_for(total as nat, username) {
            Some(b) => seq![ActionView::AddBadgeToProc(b, name)],
            None => seq![],
        }
    } else {
        seq![]
    };
    update + save + badge
}

impl Tracker {
    /// A tracker for `process_name`, starting from the time `initial_total` gives.
    pub fn new(process_name: &str, username: &str, state: &AppState, os_elapsed: Option<u64>) -> (r:
        Self)
        ensures
            r.process_name@ == process_name@,
            r.username@ == username@,
            r.elapsed == 0,
            r.total_time == initial_total(state@.tracked_apps, process_name@, os_elapsed),
    {
        let name = process_name.to_owned();
        let total = match find_by_name(&state.tracked_apps, &name) {
            Some(i) => {
                proof {
                    lemma_first_is_index(state@.tracked_apps, name@, i as int);
                }
                state.tracked_apps[i].uptime
            },
            None => match os_elapsed {
                Some(t) => t,
                None => 0,
            },
        };
        Tracker { process_name: name, username: username.to_owned(), elapsed: 0, total_time: total }
    }

    /// One poll. Cancellation is looked at first and ends the tracker. A
    /// process that is gone is paused and its record saved, which also ends
    /// the tracker. Otherwise the running total is reported, the record is
    /// saved and a badge looked for on their periods, and both counters move
    /// on by one poll interval.
    pub fn tick(&mut self, cancel: CancelSignal, running: bool) -> (r: TickOutcome)
        requires
            old(self).elapsed + POLL_INTERVAL_SECS <= u64::MAX,
            old(self).total_time + POLL_INTERVAL_SECS <= u64::MAX,
        ensures
            final(self).process_name == old(self).process_name,
            final(self).username == old(self).username,
            cancel != CancelSignal::Empty ==> {
                &&& r.finished
                &&& r.actions@.len() == 0
                &&& final(self).elapsed == old(self).elapsed
                &&& final(self).total_time == old(self).total_time
            },
            cancel == CancelSignal::Empty && !running ==> {
                &&& r.finished
                &&& actions_view(r.actions@) == seq![
                    ActionView::PauseTracking(old(self).process_name@),
                    ActionView::SaveData(old(self).process_name@),
                ]
                &&& final(self).elapsed == old(self).elapsed
                &&& final(self).total_time == old(self).total_time
            },
            cancel == CancelSignal::Empty && running ==> {
                &&& !r.finished
                &&& actions_view(r.actions@) == running_actions(
                    old(self).process_name@,
                    old(self).username@,
                    old(self).elapsed,
                    old(self).total_time,
                )
                &&& final(self).elapsed == old(self).elapsed + POLL_INTERVAL_SECS
                &&& final(self).total_time == old(self).total_time + POLL_INTERVAL_SECS
            },
    {
        let mut actions: Vec<Actions> = Vec::new();
        if cancel != CancelSignal::Empty {
            return TickOutcome { actions, finished: true };
        }
        let ghost name = self.process_name@;
        if !running {
            actions.push(Actions::PauseTracking(self.process_name.clone()));
            actions.push(Actions::SaveData(self.process_name.clone()));
            assert(actions_view(actions@) =~= seq![
                ActionView::PauseTracking(name),
                ActionView::SaveData(name),
            ]);
            return TickOutcome { actions, finished: true };
        }
        actions.push(Actions::UpdateAppTime(self.process_name.clone(), self.total_time));
        let ghost update = actions_view(actions@);
        assert(update =~= seq![ActionView::UpdateAppTime(name, self.total_time)]);
        if self.elapsed % SAVE_PERIOD_SECS == 0 {
            actions.push(Actions::SaveData(self.process_name.clone()));
        }
        let ghost saved = actions_view(actions@);
        assert(saved =~= update + if self.elapsed % SAVE_PERIOD_SECS == 0 {
            seq![ActionView::SaveData(name)]
        } else {
            seq![]
        });
        if self.elapsed % BADGE_PERIOD_SECS == 0 {
            match get_badge(self.total_time, self.username.as_str()) {
                Some(b) => {
                    actions.push(Actions::AddBadgeToProc(b, self.process_name.clone()));
                },
                None => {},
            }
        }
        assert(actions_view(actions@) =~= running_actions(
            name,
            self.username@,
            self.elapsed,
            self.total_time,
        ));
        self.elapsed = self.elapsed + POLL_INTERVAL_SECS;
        self.total_time = self.total_time + POLL_INTERVAL_SECS;
        TickOutcome { actions, finished: false }
    }
}

} // verus!
