use vstd::prelude::*;

use crate::badges::{Badge, BadgeRank};
use crate::persistence::{is_blank, trimmed};
use crate::state::{Actions, AppState};
use crate::track_log::{badges_view, copy_badges};

verus! {

/// What `str::to_lowercase` makes of a text.
pub uninterp spec fn lower_of(s: Seq<char>) -> Seq<char>;

/// Relies on `str::to_lowercase`: the lowercase form of a text, which
/// depends on its characters alone; an empty text stays empty.
#[verifier::external_body]
fn lowercase(s: &str) -> (r: String)
    ensures
        r@ == lower_of(s@),
        s@.len() == 0 ==> r@.len() == 0,
{
    s.to_lowercase()
}

/// The decimal digits of `n`, most significant first.
pub open spec fn decimal(n: nat) -> Seq<char>
    decreases n,
{
    if n < 10 {
        seq![digit_char(n)]
    } else {
        decimal(n / 10).push(digit_char(n % 10))
    }
}

pub open spec fn digit_char(d: nat) -> char {
    if d == 0 { '0' }
    else if d == 1 { '1' }
    else if d == 2 { '2' }
    else if d == 3 { '3' }
    else if d == 4 { '4' }
    else if d == 5 { '5' }
    else if d == 6 { '6' }
    else if d == 7 { '7' }
    else if d == 8 { '8' }
    else { '9' }
}

/// Relies on `u64::to_string`: the decimal digits of the number.
#[verifier::external_body]
fn decimal_string(n: u64) -> (r: String)
    ensures
        r@ == decimal(n as nat),
{
    n.to_string()
}

/// A duration as shown to the user: whole hours above one hour, whole
/// minutes above one minute, else seconds.
pub open spec fn time_text(secs: u64) -> Seq<char> {
    if secs > 3600 {
        decimal((secs / 3600) as nat) + " hours"@
    } else if secs > 60 {
        decimal((secs / 60) as nat) + " minutes"@
    } else {
        decimal(secs as nat) + " seconds"@
    }
}

pub fn format_time(secs: u64) -> (r: String)
    ensures
        r@ == time_text(secs),
{
    if secs > 3600 {
        let mut s = decimal_string(secs / 3600);
        s.append(" hours");
        s
    } else if secs > 60 {
        let mut s = decimal_string(secs / 60);
        s.append(" minutes");
        s
    } else {
        let mut s = decimal_string(secs);
        s.append(" seconds");
        s
    }
}

/// Whether `term` is a prefix of `name`.
pub fn matches_search(name: &str, term: &str) -> (r: bool)
    ensures
        r == (term@.len() <= name@.len() && name@.subrange(0, term@.len() as int) == term@),
{
    let n = name.unicode_len();
    let m = term.unicode_len();
    if m > n {
        return false;
    }
    let mut i: usize = 0;
    while i < m
        invariant
            0 <= i <= m <= n,
            n == name@.len(),
            m == term@.len(),
            name@.subrange(0, i as int) == term@.subrange(0, i as int),
        decreases m - i,
    {
        if name.get_char(i) != term.get_char(i) {
            assert(name@.subrange(0, m as int)[i as int] != term@[i as int]);
            return false;
        }
        assert(name@.subrange(0, i + 1) =~= name@.subrange(0, i as int).push(name@[i as int]));
        assert(term@.subrange(0, i + 1) =~= term@.subrange(0, i as int).push(term@[i as int]));
        i = i + 1;
    }
    assert(term@.subrange(0, m as int) =~= term@);
    true
}

/// The label of a tracked application: its display name, or its process
/// name when the display name is blank.
pub open spec fn label_of(name: Seq<char>, display_name: Seq<char>) -> Seq<char> {
    if trimmed(display_name).len() == 0 {
        name
    } else {
        display_name
    }
}

/// One row of the list of tracked applications.
pub struct AppListItem {
    pub name: String,
    pub uptime: u64,
    pub display_name: String,
    pub is_running: bool,
    pub on_edit_modal_open: bool,
    pub new_display_name: String,
}

impl AppListItem {
    pub fn new(name: &str, uptime: &u64, display_name: &str, is_running: &bool) -> (r: Self)
        ensures
            r.name@ == name@,
            r.uptime == *uptime,
            r.display_name@ == label_of(name@, display_name@),
            r.new_display_name@ == display_name@,
            r.is_running == *is_running,
            !r.on_edit_modal_open,
    {
        let label = if is_blank(display_name) {
            name.to_owned()
        } else {
            display_name.to_owned()
        };
        AppListItem {
            name: name.to_owned(),
            uptime: *uptime,
            display_name: label,
            is_running: *is_running,
            on_edit_modal_open: false,
            new_display_name: display_name.to_owned(),
        }
    }
}

/// The list of tracked applications.
pub struct AppList {
    pub list: Vec<AppListItem>,
    pub on_delete_modal_open: bool,
    pub app_to_delete: String,
    pub app_to_delete_display_name: String,
}

impl AppList {
    pub fn new() -> (r: Self)
        ensures
            r.list@.len() == 0,
            !r.on_delete_modal_open,
            r.app_to_delete@.len() == 0,
            r.app_to_delete_display_name@.len() == 0,
    {
        AppList {
            list: Vec::new(),
            on_delete_modal_open: false,
            app_to_delete: String::new(),
            app_to_delete_display_name: String::new(),
        }
    }

    /// Rebuilds the rows from the tracked records when their number changed.
    pub fn make_list(&mut self, state: &AppState)
        ensures
            final(self).on_delete_modal_open == old(self).on_delete_modal_open,
            old(self).list@.len() == state@.tracked_apps.len() ==> final(self).list@ == old(self).list@,
            old(self).list@.len() != state@.tracked_apps.len() ==> {
                &&& final(self).list@.len() == state@.tracked_apps.len()
                &&& forall|j: int|
                    0 <= j < state@.tracked_apps.len() ==> {
                        let l = #[trigger] state@.tracked_apps[j];
                        let it = final(self).list@[j];
                        &&& it.name@ == l.process_name
                        &&& it.uptime == l.uptime
                        &&& it.display_name@ == label_of(l.process_name, l.display_name)
                        &&& it.is_running == l.is_running
                    }
            },
    {
        if state.tracked_apps.len() == self.list.len() {
            return;
        }
        let mut list: Vec<AppListItem> = Vec::new();
        let mut i: usize = 0;
        while i < state.tracked_apps.len()
            invariant
                0 <= i <= state.tracked_apps.len(),
                list@.len() == i,
                forall|j: int|
                    0 <= j < i ==> {
                        let l = #[trigger] state@.tracked_apps[j];
                        let it = list@[j];
                        &&& it.name@ == l.process_name
                        &&& it.uptime == l.uptime
                        &&& it.display_name@ == label_of(l.process_name, l.display_name)
                        &&& it.is_running == l.is_running
                    },
            decreases state.tracked_apps.len() - i,
        {
            let l = &state.tracked_apps[i];
            list.push(
                AppListItem::new(
                    l.process_name.as_str(),
                    &l.uptime,
                    l.display_name.as_str(),
                    &l.is_running,
                ),
            );
            i = i + 1;
        }
        self.list = list;
    }
}

/// One row of the list of running, untracked processes.
pub struct NotTrackedAppItem {
    pub name: String,
    pub is_added: bool,
}

impl Clone for NotTrackedAppItem {
    fn clone(&self) -> (r: Self)
        ensures
            r == *self,
    {
        NotTrackedAppItem { name: self.name.clone(), is_added: self.is_added }
    }
}

/// The searchable list of running processes.
pub struct NotTrackedAppList {
    pub list: Vec<NotTrackedAppItem>,
    /// One entry per row of `list`: the row, when its name matches the search.
    pub filtered: Vec<Option<NotTrackedAppItem>>,
    pub search_term: String,
}

/// Whether the row `item` is kept by the search term `term`: its name,
/// lowercased, starts with the lowercased term.
pub open spec fn kept_by_search(item: Seq<char>, term: Seq<char>) -> bool {
    let n = lower_of(item);
    let t = lower_of(term);
    t.len() <= n.len() && n.subrange(0, t.len() as int) == t
}

/// `after` is `before` with its rows rebuilt from the snapshot `procs`: kept as
/// they are when the number of rows already matches; otherwise one row per
/// process, none marked as added, and the search result recomputed.
pub open spec fn rows_rebuilt(
    before: NotTrackedAppList,
    after: NotTrackedAppList,
    procs: Seq<crate::process::ProcessInfoView>,
) -> bool {
    &&& after.search_term == before.search_term
    &&& before.list@.len() == procs.len() ==> after == before
    &&& before.list@.len() != procs.len() ==> {
        &&& after.list@.len() == procs.len()
        &&& after.filtered@.len() == procs.len()
        &&& forall|j: int|
            0 <= j < procs.len() ==> {
                &&& (#[trigger] after.list@[j]).name@ == procs[j].name
                &&& !after.list@[j].is_added
                &&& after.filtered@[j] == if kept_by_search(procs[j].name, before.search_term@) {
                    Some(after.list@[j])
                } else {
                    None
                }
            }
    }
}

impl NotTrackedAppList {
    pub fn new() -> (r: Self)
        ensures
            r.list@.len() == 0,
            r.filtered@.len() == 0,
            r.search_term@.len() == 0,
    {
        NotTrackedAppList { list: Vec::new(), filtered: Vec::new(), search_term: String::new() }
    }

    /// Recomputes which rows match the search term.
    pub fn filter(&mut self)
        ensures
            final(self).list == old(self).list,
            final(self).search_term == old(self).search_term,
            final(self).filtered@.len() == old(self).list@.len(),
            forall|j: int|
                0 <= j < old(self).list@.len() ==> #[trigger] final(self).filtered@[j] == if kept_by_search(
                    old(self).list@[j].name@,
                    old(self).search_term@,
                ) {
                    Some(old(self).list@[j])
                } else {
                    None
                },
    {
        let term = lowercase(self.search_term.as_str());
        let mut filtered: Vec<Option<NotTrackedAppItem>> = Vec::new();
        let mut i: usize = 0;
        while i < self.list.len()
            invariant
                0 <= i <= self.list.len(),
                term@ == lower_of(self.search_term@),
                filtered@.len() == i,
                forall|j: int|
                    0 <= j < i ==> #[trigger] filtered@[j] == if kept_by_search(
                        self.list@[j].name@,
                        self.search_term@,
                    ) {
                        Some(self.list@[j])
                    } else {
                        None
                    },
            decreases self.list.len() - i,
        {
            let name = lowercase(self.list[i].name.as_str());
            if matches_search(name.as_str(), term.as_str()) {
                filtered.push(Some(self.list[i].clone()));
            } else {
                filtered.push(None);
            }
            i = i + 1;
        }
        self.filtered = filtered;
    }

    /// Loads the page's data: with an empty snapshot it asks for one to be
    /// fetched; otherwise it rebuilds the rows from it.
    pub fn use_load_data(&mut self, state: &AppState) -> (r: Option<Actions>)
        ensures
            state@.untracked_apps.len() == 0 ==> *final(self) == *old(self) && r == Some(
                Actions::FetchUntrackedApps,
            ),
            state@.untracked_apps.len() != 0 ==> r is None && rows_rebuilt(
                *old(self),
                *final(self),
                state@.untracked_apps,
            ),
    {
        if state.untracked_apps.len() == 0 {
            Some(Actions::FetchUntrackedApps)
        } else {
            self.make_list(state);
            None
        }
    }

    /// Rebuilds the rows from the process snapshot when its size changed,
    /// and then the search result.
    pub fn make_list(&mut self, state: &AppState)
        ensures
            rows_rebuilt(*old(self), *final(self), state@.untracked_apps),
    {
        if state.untracked_apps.len() == self.list.len() {
            return;
        }
        let mut list: Vec<NotTrackedAppItem> = Vec::new();
        let mut i: usize = 0;
        while i < state.untracked_apps.len()
            invariant
                0 <= i <= state.untracked_apps.len(),
                list@.len() == i,
                forall|j: int|
                    0 <= j < i ==> (#[trigger] list@[j]).name@ == state@.untracked_apps[j].name
                        && !list@[j].is_added,
            decreases state.untracked_apps.len() - i,
        {
            list.push(NotTrackedAppItem { name: state.untracked_apps[i].name.clone(), is_added: false });
            i = i + 1;
        }
        self.list = list;
        self.filter();
    }
}

/// One badge as shown: its rank and its description.
pub struct BadgeItem {
    pub rank: BadgeRank,
    pub description: String,
}

/// The badges of one tracked application, as listed.
pub struct AppItem {
    pub name: String,
    pub badges: Vec<Badge>,
    pub badge_list: Vec<BadgeItem>,
}

impl AppItem {
    pub fn new(name: &str, badges: &Vec<Badge>) -> (r: Self)
        ensures
            r.name@ == name@,
            r.badges@ == badges@,
            r.badge_list@.len() == 0,
    {
        AppItem { name: name.to_owned(), badges: copy_badges(badges), badge_list: Vec::new() }
    }

    /// Rebuilds the shown badges when their number changed.
    pub fn make_list(&mut self)
        ensures
            final(self).name == old(self).name,
            final(self).badges == old(self).badges,
            old(self).badge_list@.len() == old(self).badges@.len() ==> final(self).badge_list
                == old(self).badge_list,
            old(self).badge_list@.len() != old(self).badges@.len() ==> {
                &&& final(self).badge_list@.len() == old(self).badges@.len()
                &&& forall|j: int|
                    0 <= j < old(self).badges@.len() ==> {
                        &&& (#[trigger] final(self).badge_list@[j]).rank == old(self).badges@[j].rank
                        &&& final(self).badge_list@[j].description@
                            == old(self).badges@[j].description@
                    }
            },
    {
        if self.badge_list.len() == self.badges.len() {
            return;
        }
        let mut list: Vec<BadgeItem> = Vec::new();
        let mut i: usize = 0;
        while i < self.badges.len()
            invariant
                0 <= i <= self.badges.len(),
                list@.len() == i,
                forall|j: int|
                    0 <= j < i ==> {
                        &&& (#[trigger] list@[j]).rank == self.badges@[j].rank
                        &&& list@[j].description@ == self.badges@[j].description@
                    },
            decreases self.badges.len() - i,
        {
            list.push(
                BadgeItem {
                    rank: self.badges[i].rank,
                    description: self.badges[i].description.clone(),
                },
            );
            i = i + 1;
        }
        self.badge_list = list;
    }
}

/// The page of earned badges.
pub struct BadgesPage {
    pub list: Vec<AppItem>,
}

impl BadgesPage {
    pub fn new() -> (r: Self)
        ensures
            r.list@.len() == 0,
    {
        BadgesPage { list: Vec::new() }
    }

    /// Rebuilds the entries from the tracked records when their number changed.
    pub fn make_list(&mut self, state: &AppState)
        ensures
            old(self).list@.len() == state@.tracked_apps.len() ==> final(self).list@ == old(self).list@,
            old(self).list@.len() != state@.tracked_apps.len() ==> {
                &&& final(self).list@.len() == state@.tracked_apps.len()
                &&& forall|j: int|
                    0 <= j < state@.tracked_apps.len() ==> {
                        &&& (#[trigger] final(self).list@[j]).name@
                            == state@.tracked_apps[j].display_name
                        &&& badges_view(final(self).list@[j].badges@)
                            == state@.tracked_apps[j].badges
                    }
            },
    {
        if state.tracked_apps.len() == self.list.len() {
            return;
        }
        let mut list: Vec<AppItem> = Vec::new();
        let mut i: usize = 0;
        while i < state.tracked_apps.len()
            invariant
                0 <= i <= state.tracked_apps.len(),
                list@.len() == i,
                forall|j: int|
                    0 <= j < i ==> {
                        &&& (#[trigger] list@[j]).name@ == state@.tracked_apps[j].display_name
                        &&& badges_view(list@[j].badges@) == state@.tracked_apps[j].badges
                    },
            decreases state.tracked_apps.len() - i,
        {
            let l = &state.tracked_apps[i];
            list.push(AppItem::new(l.display_name.as_str(), &l.badges));
            i = i + 1;
        }
        self.list = list;
    }
}

/// The pages of the user interface.
#[derive(PartialEq, Eq, Structural, Clone, Copy, Debug)]
pub enum Routes {
    Login,
    Home,
    Badges,
    NotTrackedApps,
}

/// The icons of the side menu.
#[derive(PartialEq, Eq, Structural, Clone, Copy, Debug)]
pub enum ImgIcons {
    HomeIcon,
    ListIcon,
    TestIcon,
}

/// One entry of the side menu: an icon, a title and the page it opens.
pub struct SideMenuItem {
    pub icon: ImgIcons,
    pub title: String,
    pub route: Routes,
}

impl SideMenuItem {
    pub fn new(icon: ImgIcons, title: &str, route: Routes) -> (r: Self)
        ensures
            r.icon == icon,
            r.title@ == title@,
            r.route == route,
    {
        SideMenuItem { icon, title: title.to_owned(), route }
    }
}

/// The state of the user interface: the current page and each page's data.
pub struct Main {
    pub current_route: Routes,
    pub tracked_apps: AppList,
    pub untracked_apps: NotTrackedAppList,
    pub badges_page: BadgesPage,
    pub on_close_dialog_open: bool,
    pub allow_close: bool,
}

impl Main {
    pub fn new() -> (r: Self)
        ensures
            r.current_route == Routes::Home,
            r.tracked_apps.list@.len() == 0,
            r.untracked_apps.list@.len() == 0,
            r.badges_page.list@.len() == 0,
            !r.on_close_dialog_open,
            !r.allow_close,
    {
        Main {
            current_route: Routes::Home,
            tracked_apps: AppList::new(),
            untracked_apps: NotTrackedAppList::new(),
            badges_page: BadgesPage::new(),
            on_close_dialog_open: false,
            allow_close: false,
        }
    }

    pub fn change_route(&mut self, route: Routes)
        ensures
            final(self).current_route == route,
            final(self).on_close_dialog_open == old(self).on_close_dialog_open,
            final(self).allow_close == old(self).allow_close,
    {
        self.current_route = route;
    }
}

} // verus!
