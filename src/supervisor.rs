use vstd::prelude::*;

use crate::process::{ProcessInfoView, is_proc_listed, proc_listed};
use crate::state::{ActionView, Actions, AppState};
use crate::track_log::TrackLogView;
use crate::tracker::actions_view;

verus! {

/// Seconds between two rounds of the supervisor.
pub const SUPERVISOR_INTERVAL_SECS: u64 = 3;

/// The memory of the supervisor loop: the size of the process snapshot it
/// saw last.
pub struct Supervisor {
    pub prev_proc_num: usize,
}

/// The names of the paused records of `logs` whose process is listed in
/// `live`, in the order of `logs`.
pub open spec fn restarted(logs: Seq<TrackLogView>, live: Seq<ProcessInfoView>) -> Seq<Seq<char>>
    decreases logs.len(),
{
    if logs.len() == 0 {
        seq![]
    } else {
        let r = restarted(logs.drop_last(), live);
        let l = logs.last();
        if !l.is_running && proc_listed(live, l.process_name) {
            r.push(l.process_name)
        } else {
            r
        }
    }
}

impl Supervisor {
    pub fn new() -> (r: Self)
        ensures
            r.prev_proc_num == 0,
    {
        Supervisor { prev_proc_num: 0 }
    }

    /// One round, run on the state after the process snapshot was refreshed.
    /// Only when the snapshot's size changed since the last round, every
    /// paused logs application whose process is listed again is resumed.
    pub fn tick(&mut self, state: &AppState) -> (r: Vec<Actions>)
        ensures
            state@.untracked_apps.len() != old(self).prev_proc_num ==> {
                &&& final(self).prev_proc_num == state@.untracked_apps.len()
                &&& actions_view(r@) == restarted(
                    state@.tracked_apps,
                    state@.untracked_apps,
                ).map_values(|n: Seq<char>| ActionView::ResumeTracking(n))
            },
            state@.untracked_apps.len() == old(self).prev_proc_num ==> {
                &&& final(self).prev_proc_num == old(self).prev_proc_num
                &&& r@.len() == 0
            },
    {
        let mut r: Vec<Actions> = Vec::new();
        let proc_num = state.untracked_apps.len();
        if proc_num == self.prev_proc_num {
            return r;
        }
        let ghost tv = state@.tracked_apps;
        let ghost live = state@.untracked_apps;
        let mut i: usize = 0;
        while i < state.tracked_apps.len()
            invariant
                0 <= i <= state.tracked_apps.len(),
                tv == state@.tracked_apps,
                live == state@.untracked_apps,
                r@.len() == restarted(tv.subrange(0, i as int), live).len(),
                forall|j: int|
                    0 <= j < r@.len() ==> #[trigger] r@[j]@ == ActionView::ResumeTracking(
                        restarted(tv.subrange(0, i as int), live)[j],
                    ),
            decreases state.tracked_apps.len() - i,
        {
            assert(tv.subrange(0, i + 1).drop_last() =~= tv.subrange(0, i as int));
            let l = &state.tracked_apps[i];
            if !l.is_running && is_proc_listed(&state.untracked_apps, &l.process_name) {
                r.push(Actions::ResumeTracking(l.process_name.clone()));
            }
            i = i + 1;
        }
        assert(tv.subrange(0, tv.len() as int) =~= tv);
        assert(actions_view(r@) =~= restarted(tv, live).map_values(
            |n: Seq<char>| ActionView::ResumeTracking(n),
        ));
        self.prev_proc_num = proc_num;
        r
    }
}

} // verus!
