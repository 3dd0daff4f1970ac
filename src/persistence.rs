use vstd::prelude::*;

use crate::track_log::{TrackLog, TrackLogView, logs_view};

verus! {

broadcast use Seq::lemma_filter_push;

/// What `str::trim` leaves of a text.
pub uninterp spec fn trimmed(s: Seq<char>) -> Seq<char>;

/// Relies on `str::trim`: the text without its leading and trailing
/// whitespace; an empty text stays empty.
#[verifier::external_body]
fn trim_text(s: &str) -> (r: &str)
    ensures
        r@ == trimmed(s@),
        s@.len() == 0 ==> r@.len() == 0,
{
    s.trim()
}

/// Whether a text holds nothing but whitespace.
pub fn is_blank(s: &str) -> (r: bool)
    ensures
        r == (trimmed(s@).len() == 0),
{
    trim_text(s).unicode_len() == 0
}

/// Whether some record of `s` is named `name`.
pub open spec fn has_name(s: Seq<TrackLogView>, name: Seq<char>) -> bool {
    exists|i: int| 0 <= i < s.len() && #[trigger] s[i].process_name == name
}

/// `i` is the first position of `s` that holds a record named `name`.
pub open spec fn first_with_name(s: Seq<TrackLogView>, name: Seq<char>, i: int) -> bool {
    &&& 0 <= i < s.len()
    &&& s[i].process_name == name
    &&& forall|j: int| 0 <= j < i ==> #[trigger] s[j].process_name != name
}

/// No two records of `s` share a process name.
pub open spec fn names_unique(s: Seq<TrackLogView>) -> bool {
    forall|i: int, j: int|
        0 <= i < s.len() && 0 <= j < s.len() && i != j ==> #[trigger] s[i].process_name
            != #[trigger] s[j].process_name
}

/// The position of the first record named `name` (meaningful when there is one).
pub open spec fn index_of_name(s: Seq<TrackLogView>, name: Seq<char>) -> int {
    choose|i: int| first_with_name(s, name, i)
}

/// A stored record after `log` was saved over it: time, label and badges are
/// taken from `log`, and the record is marked as not running.
pub open spec fn saved_over(stored: TrackLogView, log: TrackLogView) -> TrackLogView {
    TrackLogView {
        uptime: log.uptime,
        display_name: log.display_name,
        badges: log.badges,
        is_running: false,
        ..stored
    }
}

/// The stored collection after saving `log`: the first record with its
/// process name is overwritten, or else `log` is appended; either way the
/// saved record is marked as not running.
pub open spec fn saved_document(s: Seq<TrackLogView>, log: TrackLogView) -> Seq<TrackLogView> {
    if has_name(s, log.process_name) {
        let i = index_of_name(s, log.process_name);
        s.update(i, saved_over(s[i], log))
    } else {
        s.push(TrackLogView { is_running: false, ..log })
    }
}

/// The records of `s` not named `name`, in their order.
pub open spec fn without_name(s: Seq<TrackLogView>, name: Seq<char>) -> Seq<TrackLogView> {
    s.filter(|l: TrackLogView| l.process_name != name)
}

/// The records of `s` that belong to `username`, in their order.
pub open spec fn of_user(s: Seq<TrackLogView>, username: Seq<char>) -> Seq<TrackLogView> {
    s.filter(|l: TrackLogView| l.username == username)
}

/// Finds the first record named `name`.
pub fn find_by_name(s: &Vec<TrackLog>, name: &String) -> (r: Option<usize>)
    ensures
        match r {
            Some(i) => first_with_name(logs_view(s@), name@, i as int),
            None => !has_name(logs_view(s@), name@),
        },
{
    let ghost sv = logs_view(s@);
    let mut i: usize = 0;
    while i < s.len()
        invariant
            0 <= i <= s.len(),
            sv == logs_view(s@),
            forall|j: int| 0 <= j < i ==> #[trigger] sv[j].process_name != name@,
        decreases s.len() - i,
    {
        if s[i].process_name == *name {
            return Some(i);
        }
        i = i + 1;
    }
    None
}

/// The first record is the one `index_of_name` picks.
pub proof fn lemma_first_is_index(s: Seq<TrackLogView>, name: Seq<char>, i: int)
    requires
        first_with_name(s, name, i),
    ensures
        has_name(s, name),
        index_of_name(s, name) == i,
{
    assert(s[i].process_name == name);
    let k = index_of_name(s, name);
    assert(first_with_name(s, name, k));
    if k < i {
        assert(s[k].process_name != name);
    } else if i < k {
        assert(s[i].process_name != name);
    }
}

/// Some record named `name` means a first one.
pub proof fn lemma_has_name_first(s: Seq<TrackLogView>, name: Seq<char>)
    requires
        has_name(s, name),
    ensures
        first_with_name(s, name, index_of_name(s, name)),
    decreases s.len(),
{
    let i = choose|i: int| 0 <= i < s.len() && #[trigger] s[i].process_name == name;
    if exists|j: int| 0 <= j < i && #[trigger] s[j].process_name == name {
        let p = s.subrange(0, i);
        assert(has_name(p, name)) by {
            let j = choose|j: int| 0 <= j < i && #[trigger] s[j].process_name == name;
            assert(p[j].process_name == name);
        }
        lemma_has_name_first(p, name);
        let k = index_of_name(p, name);
        assert(first_with_name(s, name, k)) by {
            assert forall|j: int| 0 <= j < k implies #[trigger] s[j].process_name != name by {
                assert(p[j] == s[j]);
            }
            assert(p[k] == s[k]);
        }
        lemma_first_is_index(s, name, k);
    } else {
        assert(first_with_name(s, name, i));
        lemma_first_is_index(s, name, i);
    }
}

impl TrackLog {
    /// Saves this record into the stored collection `stored`: the first
    /// stored record with the same process name takes this record's time,
    /// label and badges; if there is none, this record is appended. The saved
    /// record is marked as not running either way.
    pub fn save_into(&self, stored: &mut Vec<TrackLog>)
        ensures
            logs_view(final(stored)@) == saved_document(logs_view(old(stored)@), self@),
    {
        let ghost sv = logs_view(stored@);
        match find_by_name(stored, &self.process_name) {
            Some(i) => {
                proof {
                    lemma_first_is_index(sv, self@.process_name, i as int);
                }
                stored[i].uptime = self.uptime;
                stored[i].display_name = self.display_name.clone();
                stored[i].badges = crate::track_log::copy_badges(&self.badges);
                stored[i].is_running = false;
                assert(logs_view(stored@) =~= sv.update(i as int, saved_over(sv[i as int], self@)));
            },
            None => {
                let mut copy = self.clone();
                copy.is_running = false;
                stored.push(copy);
                assert(logs_view(stored@) =~= sv.push(TrackLogView { is_running: false, ..self@ }));
            },
        }
    }
}

/// Removes from `stored` every record named `process_name`.
pub fn delete_records(stored: &mut Vec<TrackLog>, process_name: &String)
    ensures
        logs_view(final(stored)@) == without_name(logs_view(old(stored)@), process_name@),
{
    let ghost sv = logs_view(stored@);
    let mut kept: Vec<TrackLog> = Vec::new();
    let mut i: usize = 0;
    while i < stored.len()
        invariant
            0 <= i <= stored.len(),
            sv == logs_view(stored@),
            logs_view(kept@) == without_name(sv.subrange(0, i as int), process_name@),
        decreases stored.len() - i,
    {
        assert(sv.subrange(0, i + 1) =~= sv.subrange(0, i as int).push(sv[i as int]));
        if stored[i].process_name != *process_name {
            let ghost before = kept@;
            kept.push(stored[i].clone());
            assert(logs_view(kept@) =~= logs_view(before).push(sv[i as int]));
        }
        i = i + 1;
    }
    assert(sv.subrange(0, sv.len() as int) =~= sv);
    *stored = kept;
}

/// The stored records that belong to `username`, in their stored order.
pub fn get_tracked_procs_by_user(stored: &Vec<TrackLog>, username: &str) -> (r: Vec<TrackLog>)
    ensures
        logs_view(r@) == of_user(logs_view(stored@), username@),
{
    let ghost sv = logs_view(stored@);
    let user = username.to_owned();
    let mut kept: Vec<TrackLog> = Vec::new();
    let mut i: usize = 0;
    while i < stored.len()
        invariant
            0 <= i <= stored.len(),
            sv == logs_view(stored@),
            user@ == username@,
            logs_view(kept@) == of_user(sv.subrange(0, i as int), username@),
        decreases stored.len() - i,
    {
        assert(sv.subrange(0, i + 1) =~= sv.subrange(0, i as int).push(sv[i as int]));
        if stored[i].username == user {
            let ghost before = kept@;
            kept.push(stored[i].clone());
            assert(logs_view(kept@) =~= logs_view(before).push(sv[i as int]));
        }
        i = i + 1;
    }
    assert(sv.subrange(0, sv.len() as int) =~= sv);
    kept
}

/// Loads the stored collection from the contents of the record file:
/// an absent file and a file of whitespace both hold no records; any other
/// text is handed to `decode`, whose outcome is returned.
pub fn load_records<E, F: Fn(&str) -> Result<Vec<TrackLog>, E>>(
    contents: Option<String>,
    decode: F,
) -> (r: Result<Vec<TrackLog>, E>)
    requires
        forall|s: &str| #[trigger] decode.requires((s,)),
    ensures
        match contents {
            None => r is Ok && r->Ok_0@.len() == 0,
            Some(text) => if trimmed(text@).len() == 0 {
                r is Ok && r->Ok_0@.len() == 0
            } else {
                exists|s: &str| s@ == text@ && #[trigger] decode.ensures((s,), r)
            },
        },
{
    match contents {
        None => Ok(Vec::new()),
        Some(text) => {
            if is_blank(text.as_str()) {
                Ok(Vec::new())
            } else {
                let s = text.as_str();
                let r = decode(s);
                assert(decode.ensures((s,), r));
                r
            }
        },
    }
}

/// The records of `s`, keeping only the first record of each process name.
pub open spec fn dedup_names(s: Seq<TrackLogView>) -> Seq<TrackLogView>
    decreases s.len(),
{
    if s.len() == 0 {
        s
    } else {
        let r = dedup_names(s.drop_last());
        if has_name(r, s.last().process_name) {
            r
        } else {
            r.push(s.last())
        }
    }
}

/// Keeping the first record of each name leaves names unique.
pub proof fn lemma_dedup_unique(s: Seq<TrackLogView>)
    ensures
        names_unique(dedup_names(s)),
    decreases s.len(),
{
    if s.len() > 0 {
        lemma_dedup_unique(s.drop_last());
        let r = dedup_names(s.drop_last());
        if !has_name(r, s.last().process_name) {
            let d = r.push(s.last());
            assert forall|a: int, b: int|
                0 <= a < d.len() && 0 <= b < d.len() && a != b implies #[trigger] d[a].process_name
                != #[trigger] d[b].process_name by {
                if a < r.len() && b < r.len() {
                    assert(d[a] == r[a] && d[b] == r[b]);
                } else if a < r.len() {
                    assert(d[a] == r[a]);
                } else {
                    assert(d[b] == r[b]);
                }
            }
        }
    }
}

/// Keeps only the first record of each process name, in their order.
pub fn dedup_records(records: Vec<TrackLog>) -> (r: Vec<TrackLog>)
    ensures
        logs_view(r@) == dedup_names(logs_view(records@)),
        names_unique(logs_view(r@)),
{
    let ghost sv = logs_view(records@);
    let mut kept: Vec<TrackLog> = Vec::new();
    let mut i: usize = 0;
    while i < records.len()
        invariant
            0 <= i <= records.len(),
            sv == logs_view(records@),
            logs_view(kept@) == dedup_names(sv.subrange(0, i as int)),
        decreases records.len() - i,
    {
        assert(sv.subrange(0, i + 1).drop_last() =~= sv.subrange(0, i as int));
        if find_by_name(&kept, &records[i].process_name).is_none() {
            let ghost before = kept@;
            kept.push(records[i].clone());
            assert(logs_view(kept@) =~= logs_view(before).push(sv[i as int]));
        }
        i = i + 1;
    }
    assert(sv.subrange(0, sv.len() as int) =~= sv);
    proof {
        lemma_dedup_unique(sv);
    }
    kept
}

/// Saving a record and reading the collection back gives that record, found
/// by its process name, with the saved time, label and badges, marked as not
/// running; and saving keeps process names unique in the collection.
pub proof fn lemma_save_round_trip(s: Seq<TrackLogView>, log: TrackLogView)
    ensures
        has_name(saved_document(s, log), log.process_name),
        ({
            let d = saved_document(s, log);
            let i = index_of_name(d, log.process_name);
            &&& first_with_name(d, log.process_name, i)
            &&& d[i].uptime == log.uptime
            &&& d[i].display_name == log.display_name
            &&& d[i].badges == log.badges
            &&& d[i].is_running == false
        }),
        names_unique(s) ==> names_unique(saved_document(s, log)),
{
    let name = log.process_name;
    let d = saved_document(s, log);
    if has_name(s, name) {
        lemma_has_name_first(s, name);
        let i = index_of_name(s, name);
        assert(first_with_name(d, name, i)) by {
            assert forall|j: int| 0 <= j < i implies #[trigger] d[j].process_name != name by {
                assert(d[j] == s[j]);
            }
        }
        lemma_first_is_index(d, name, i);
        assert(names_unique(s) ==> names_unique(d)) by {
            if names_unique(s) {
                assert forall|a: int, b: int|
                    0 <= a < d.len() && 0 <= b < d.len() && a != b implies #[trigger] d[a].process_name
                    != #[trigger] d[b].process_name by {
                    assert(d[a].process_name == s[a].process_name);
                    assert(d[b].process_name == s[b].process_name);
                }
            }
        }
    } else {
        let n = s.len() as int;
        assert(first_with_name(d, name, n)) by {
            assert forall|j: int| 0 <= j < n implies #[trigger] d[j].process_name != name by {
                assert(d[j] == s[j]);
            }
        }
        lemma_first_is_index(d, name, n);
        assert(names_unique(s) ==> names_unique(d)) by {
            if names_unique(s) {
                assert forall|a: int, b: int|
                    0 <= a < d.len() && 0 <= b < d.len() && a != b implies #[trigger] d[a].process_name
                    != #[trigger] d[b].process_name by {
                    if a < n && b < n {
                        assert(d[a] == s[a] && d[b] == s[b]);
                    } else if a < n {
                        assert(d[a] == s[a]);
                    } else {
                        assert(d[b] == s[b]);
                    }
                }
            }
        }
    }
}

/// After deleting a name, reading the collection back finds no record of it.
pub proof fn lemma_delete_removes(s: Seq<TrackLogView>, name: Seq<char>)
    ensures
        !has_name(without_name(s, name), name),
{
    let d = without_name(s, name);
    let pred = |l: TrackLogView| l.process_name != name;
    assert forall|i: int| 0 <= i < d.len() implies #[trigger] d[i].process_name != name by {
        s.lemma_filter_pred(pred, i);
    }
}

} // verus!
