use vstd::prelude::*;

use crate::badges::BadgeView;
use crate::persistence::{
    first_with_name, has_name, index_of_name, lemma_delete_removes, lemma_first_is_index,
    lemma_has_name_first, without_name,
};
use crate::state::{
    ActionView, AppStateView, EffectView, lemma_without_name_unique, named, reduce_spec, state_wf,
};
use crate::track_log::{TrackLogView, has_rank, lemma_with_badge_unique, ranks_unique};

verus! {

/// The state after `AddTrackedApp(users[k], name)` for each `k` in order.
pub open spec fn after_adds(s: AppStateView, users: Seq<Seq<char>>, name: Seq<char>) -> AppStateView
    decreases users.len(),
{
    if users.len() == 0 {
        s
    } else {
        reduce_spec(
            after_adds(s, users.drop_last(), name),
            ActionView::AddTrackedApp(users.last(), name),
        ).0
    }
}

/// Exactly one record of `s` is named `name`.
pub open spec fn exactly_one(s: Seq<TrackLogView>, name: Seq<char>) -> bool {
    exists|i: int|
        0 <= i < s.len() && #[trigger] s[i].process_name == name && forall|j: int|
            0 <= j < s.len() && #[trigger] s[j].process_name == name ==> j == i
}

/// Adding the same process name any number of times, by any users, leaves
/// exactly one record of it among the tracked applications.
pub proof fn lemma_add_idempotent(s: AppStateView, users: Seq<Seq<char>>, name: Seq<char>)
    requires
        state_wf(s),
        users.len() > 0,
    ensures
        state_wf(after_adds(s, users, name)),
        exactly_one(after_adds(s, users, name).tracked_apps, name),
    decreases users.len(),
{
    let prev = after_adds(s, users.drop_last(), name);
    if users.len() == 1 {
        assert(users.drop_last().len() == 0);
        assert(prev == s);
    } else {
        lemma_add_idempotent(s, users.drop_last(), name);
    }
    let next = after_adds(s, users, name);
    if !has_name(prev.tracked_apps, name) {
        let t = next.tracked_apps;
        let n = prev.tracked_apps.len() as int;
        assert(t[n].process_name == name);
        assert forall|a: int, b: int|
            0 <= a < t.len() && 0 <= b < t.len() && a != b implies #[trigger] t[a].process_name
            != #[trigger] t[b].process_name by {
            if a < n && b < n {
                assert(t[a] == prev.tracked_apps[a] && t[b] == prev.tracked_apps[b]);
            } else if a < n {
                assert(t[a] == prev.tracked_apps[a]);
            } else {
                assert(t[b] == prev.tracked_apps[b]);
            }
        }
    }
    lemma_has_name_first(next.tracked_apps, name);
    let i = index_of_name(next.tracked_apps, name);
    assert(forall|j: int|
        0 <= j < next.tracked_apps.len() && #[trigger] next.tracked_apps[j].process_name == name
            ==> j == i);
}

/// Offering a badge to a tracked application twice is the same as offering
/// it once, and keeps the ranks of that application's badges distinct.
pub proof fn lemma_badge_offer_idempotent(s: AppStateView, b: BadgeView, name: Seq<char>)
    requires
        state_wf(s),
        has_name(s.tracked_apps, name),
        ranks_unique(named(s.tracked_apps, name).badges),
    ensures
        ({
            let s1 = reduce_spec(s, ActionView::AddBadgeToProc(b, name)).0;
            &&& reduce_spec(s1, ActionView::AddBadgeToProc(b, name)).0 == s1
            &&& ranks_unique(named(s1.tracked_apps, name).badges)
            &&& has_rank(named(s1.tracked_apps, name).badges, b.rank)
        }),
{
    lemma_has_name_first(s.tracked_apps, name);
    let i = index_of_name(s.tracked_apps, name);
    let s1 = reduce_spec(s, ActionView::AddBadgeToProc(b, name)).0;
    let t = s1.tracked_apps;
    assert(first_with_name(t, name, i)) by {
        assert forall|j: int| 0 <= j < i implies #[trigger] t[j].process_name != name by {
            assert(t[j] == s.tracked_apps[j]);
        }
    }
    lemma_first_is_index(t, name, i);
    lemma_with_badge_unique(s.tracked_apps[i].badges, b);
    let s2 = reduce_spec(s1, ActionView::AddBadgeToProc(b, name)).0;
    assert(s2.tracked_apps =~= t);
}

/// Deleting a tracked application: the step asks for the stored record to
/// be removed; once that is done and reported back, neither the in-memory
/// collection nor the stored collection, read back, holds that name.
pub proof fn lemma_delete_removes_everywhere(
    s: AppStateView,
    stored: Seq<TrackLogView>,
    name: Seq<char>,
)
    requires
        state_wf(s),
        has_name(s.tracked_apps, name),
    ensures
        ({
            let (s1, effects) = reduce_spec(s, ActionView::DeleteTrackedApp(name));
            let s2 = reduce_spec(s1, ActionView::TrackedAppDeleted(name)).0;
            &&& effects.last() == EffectView::DeleteRecord(name)
            &&& !s1.active_trackers.contains(name)
            &&& !has_name(s2.tracked_apps, name)
            &&& state_wf(s2)
            &&& !has_name(without_name(stored, name), name)
        }),
{
    let s1 = reduce_spec(s, ActionView::DeleteTrackedApp(name)).0;
    lemma_delete_removes(s1.tracked_apps, name);
    lemma_delete_removes(stored, name);
    lemma_without_name_unique(s1.tracked_apps, name);
    let pred = |n: Seq<char>| n != name;
    if s1.active_trackers.contains(name) {
        let k = choose|k: int| 0 <= k < s1.active_trackers.len() && s1.active_trackers[k] == name;
        s.active_trackers.lemma_filter_pred(pred, k);
    }
}

} // verus!
