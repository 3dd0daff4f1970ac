use vstd::prelude::*;

use crate::state::{Actions, AppState, AppStateView, Effect, effects_view, reduce_spec, state_wf};
use crate::persistence::has_name;

verus! {

/// The application state behind its single mutation path. Concurrent users
/// share it behind one lock; each `dispatch` is one critical section.
pub struct Store {
    state: AppState,
}

impl View for Store {
    type V = AppStateView;

    closed spec fn view(&self) -> AppStateView {
        self.state@
    }
}

impl Store {
    pub open spec fn wf(&self) -> bool {
        state_wf(self@)
    }

    pub fn new() -> (r: Self)
        ensures
            r.wf(),
            r@ == (AppStateView {
                tracked_apps: seq![],
                untracked_apps: seq![],
                is_fetching_tracked: false,
                is_fetching_untracked: false,
                is_error_untracked: false,
                is_error_tracked: false,
                error: None,
                active_trackers: seq![],
            }),
    {
        Store { state: AppState::new() }
    }

    /// Applies `msg` to the state; returns the effects it asks for.
    pub fn dispatch(&mut self, msg: Actions) -> (r: Vec<Effect>)
        requires
            old(self).wf(),
        ensures
            final(self).wf(),
            (final(self)@, effects_view(r@)) == reduce_spec(old(self)@, msg@),
    {
        self.state.reduce(msg)
    }

    /// Read access to the current state.
    pub fn selector(&self) -> (r: &AppState)
        ensures
            r@ == self@,
            state_wf(r@) == self.wf(),
    {
        &self.state
    }
}

/// Whether the stored records still have to be fetched at start-up: no
/// fetch has failed and nothing is tracked yet.
pub fn needs_tracked_fetch(state: &AppState) -> (r: bool)
    ensures
        r == (!state@.is_error_tracked && state@.tracked_apps.len() == 0),
{
    !state.is_error_tracked && state.tracked_apps.len() == 0
}

/// Whether a record named `proc_name` is tracked.
pub fn is_app_tracked(state: &AppState, proc_name: &str) -> (r: bool)
    ensures
        r == has_name(state@.tracked_apps, proc_name@),
{
    let name = proc_name.to_owned();
    crate::persistence::find_by_name(&state.tracked_apps, &name).is_some()
}

} // verus!
