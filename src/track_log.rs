use vstd::prelude::*;

use crate::badges::{Badge, BadgeRank, BadgeView};

verus! {

/// The usage record of one tracked application.
#[derive(Debug)]
pub struct TrackLog {
    pub username: String,
    /// Accumulated active time, in seconds.
    pub uptime: u64,
    pub badges: Vec<Badge>,
    /// Identity of the record: unique within a collection of records.
    pub process_name: String,
    pub display_name: String,
    pub is_running: bool,
}

/// The mathematical value of a usage record.
pub struct TrackLogView {
    pub username: Seq<char>,
    pub uptime: u64,
    pub badges: Seq<BadgeView>,
    pub process_name: Seq<char>,
    pub display_name: Seq<char>,
    pub is_running: bool,
}

pub open spec fn badges_view(b: Seq<Badge>) -> Seq<BadgeView> {
    b.map_values(|x: Badge| x@)
}

pub open spec fn logs_view(s: Seq<TrackLog>) -> Seq<TrackLogView> {
    s.map_values(|l: TrackLog| l@)
}

impl View for TrackLog {
    type V = TrackLogView;

    open spec fn view(&self) -> TrackLogView {
        TrackLogView {
            username: self.username@,
            uptime: self.uptime,
            badges: badges_view(self.badges@),
            process_name: self.process_name@,
            display_name: self.display_name@,
            is_running: self.is_running,
        }
    }
}

/// Whether a badge of `rank` is among `bs`.
pub open spec fn has_rank(bs: Seq<BadgeView>, rank: BadgeRank) -> bool {
    exists|j: int| 0 <= j < bs.len() && #[trigger] bs[j].rank == rank
}

/// No two badges of `bs` share a rank.
pub open spec fn ranks_unique(bs: Seq<BadgeView>) -> bool {
    forall|i: int, j: int|
        0 <= i < bs.len() && 0 <= j < bs.len() && i != j ==> #[trigger] bs[i].rank != #[trigger] bs[j].rank
}

/// The badge list after offering `b`: appended only when its rank is new.
pub open spec fn with_badge(bs: Seq<BadgeView>, b: BadgeView) -> Seq<BadgeView> {
    if has_rank(bs, b.rank) {
        bs
    } else {
        bs.push(b)
    }
}

/// Copies a list of badges.
pub fn copy_badges(v: &Vec<Badge>) -> (r: Vec<Badge>)
    ensures
        r@ == v@,
{
    let r = v.clone();
    assert(r@ =~= v@);
    r
}

impl Clone for TrackLog {
    fn clone(&self) -> (r: Self)
        ensures
            r@ == self@,
    {
        TrackLog {
            username: self.username.clone(),
            uptime: self.uptime,
            badges: copy_badges(&self.badges),
            process_name: self.process_name.clone(),
            display_name: self.display_name.clone(),
            is_running: self.is_running,
        }
    }
}

impl TrackLog {
    /// A fresh record: no time, no badges, and the process taken as running.
    pub fn new(username: &str, proc_name: &str, display_name: &str) -> (r: Self)
        ensures
            r@ == (TrackLogView {
                username: username@,
                uptime: 0,
                badges: Seq::empty(),
                process_name: proc_name@,
                display_name: display_name@,
                is_running: true,
            }),
    {
        let r = TrackLog {
            username: username.to_owned(),
            uptime: 0,
            badges: Vec::new(),
            process_name: proc_name.to_owned(),
            display_name: display_name.to_owned(),
            is_running: true,
        };
        assert(badges_view(r.badges@) =~= Seq::empty());
        r
    }

    pub fn set_process_name(&mut self, new_name: &str)
        ensures
            final(self)@ == (TrackLogView { process_name: new_name@, ..old(self)@ }),
    {
        self.process_name = new_name.to_owned();
    }

    pub fn add_uptime(&mut self, seconds: u64)
        requires
            old(self).uptime + seconds <= u64::MAX,
        ensures
            final(self)@ == (TrackLogView { uptime: (old(self).uptime + seconds) as u64, ..old(self)@ }),
    {
        self.uptime = self.uptime + seconds;
    }

    pub fn set_uptime(&mut self, seconds: u64)
        ensures
            final(self)@ == (TrackLogView { uptime: seconds, ..old(self)@ }),
    {
        self.uptime = seconds;
    }

    pub fn set_display_name(&mut self, new_name: &str)
        ensures
            final(self)@ == (TrackLogView { display_name: new_name@, ..old(self)@ }),
    {
        self.display_name = new_name.to_owned();
    }

    /// Appends `badge` unless a badge of the same rank is already there.
    pub fn add_badge(&mut self, badge: Badge)
        ensures
            final(self)@ == (TrackLogView {
                badges: with_badge(old(self)@.badges, badge@),
                ..old(self)@
            }),
    {
        let n = self.badges.len();
        let mut i: usize = 0;
        while i < n
            invariant
                n == self.badges.len(),
                self == old(self),
                0 <= i <= n,
                forall|j: int| 0 <= j < i ==> self.badges@[j].rank != badge.rank,
            decreases n - i,
        {
            if self.badges[i].rank == badge.rank {
                assert(badges_view(self.badges@)[i as int].rank == badge.rank);
                return;
            }
            i = i + 1;
        }
        assert(!has_rank(badges_view(self.badges@), badge.rank));
        let ghost before = self.badges@;
        self.badges.push(badge);
        assert(badges_view(self.badges@) =~= badges_view(before).push(badge@));
    }
}

/// Offering a badge keeps the ranks of a badge list distinct, and offering
/// the same badge again changes nothing.
pub proof fn lemma_with_badge_unique(bs: Seq<BadgeView>, b: BadgeView)
    requires
        ranks_unique(bs),
    ensures
        ranks_unique(with_badge(bs, b)),
        with_badge(with_badge(bs, b), b) == with_badge(bs, b),
        has_rank(with_badge(bs, b), b.rank),
{
    let r = with_badge(bs, b);
    if !has_rank(bs, b.rank) {
        assert(r[bs.len() as int].rank == b.rank);
        assert forall|i: int, j: int|
            0 <= i < r.len() && 0 <= j < r.len() && i != j implies #[trigger] r[i].rank
            != #[trigger] r[j].rank by {
            if i < bs.len() && j < bs.len() {
                assert(r[i] == bs[i] && r[j] == bs[j]);
            } else if i < bs.len() {
                assert(r[i] == bs[i]);
            } else {
                assert(r[j] == bs[j]);
            }
        }
    }
}

} // verus!
