use vstd::prelude::*;

verus! {

/// Milestone ranks, in the order in which they are earned.
#[derive(PartialEq, Eq, Structural, Clone, Copy, Debug)]
pub enum BadgeRank {
    Initial,
    Common,
    Rare,
    Experienced,
    Advanced,
    Pro,
    Insane,
    Lunatic,
    TouchGrass,
    Master,
}

/// A milestone awarded to a user for one tracked application.
#[derive(Debug)]
pub struct Badge {
    pub rank: BadgeRank,
    pub username: String,
    pub description: String,
}

/// The mathematical value of a badge.
pub struct BadgeView {
    pub rank: BadgeRank,
    pub username: Seq<char>,
    pub description: Seq<char>,
}

impl View for Badge {
    type V = BadgeView;

    open spec fn view(&self) -> BadgeView {
        BadgeView { rank: self.rank, username: self.username@, description: self.description@ }
    }
}

impl Clone for Badge {
    fn clone(&self) -> (r: Self)
        ensures
            r == *self,
    {
        Badge { rank: self.rank, username: self.username.clone(), description: self.description.clone() }
    }
}

/// The rank whose rung is exactly `hours`, if any.
pub open spec fn rank_at_hours(hours: nat) -> Option<BadgeRank> {
    if hours == 0 {
        Some(BadgeRank::Initial)
    } else if hours == 1 {
        Some(BadgeRank::Common)
    } else if hours == 2 {
        Some(BadgeRank::Rare)
    } else if hours == 10 {
        Some(BadgeRank::Experienced)
    } else if hours == 50 {
        Some(BadgeRank::Advanced)
    } else if hours == 100 {
        Some(BadgeRank::Pro)
    } else if hours == 500 {
        Some(BadgeRank::Insane)
    } else if hours == 1000 {
        Some(BadgeRank::Lunatic)
    } else if hours == 3000 {
        Some(BadgeRank::TouchGrass)
    } else if hours == 10000 {
        Some(BadgeRank::Master)
    } else {
        None
    }
}

/// The fixed description of each rank.
pub open spec fn rank_description(rank: BadgeRank) -> Seq<char> {
    match rank {
        BadgeRank::Initial => "App's just been added."@,
        BadgeRank::Common => "You've been using app for an hour. Keep it up."@,
        BadgeRank::Rare => "You've been using app for two hours. Not bad."@,
        BadgeRank::Experienced =>
            "You've been using app for ten hours. I think you're already into it."@,
        BadgeRank::Advanced => "You've been using app for an fifty hours. Point of no return."@,
        BadgeRank::Pro => "You've been using app for one hundred hours. You're already hooked."@,
        BadgeRank::Insane =>
            "You've been using app for five hundred hours. You really like this, don't you?"@,
        BadgeRank::Lunatic =>
            "You've been using app for one thousand hours. You know everything about this app."@,
        BadgeRank::TouchGrass =>
            "You've been using app for three thousand hours. Can't believe I just said that."@,
        BadgeRank::Master =>
            "You've been using app for ten thousand hours. You've mastered it all"@,
    }
}

/// The badge earned after `elapsed_secs` seconds: elapsed seconds are cut
/// down to whole hours, and only an hour count that lands exactly on a rung
/// of the ladder earns that rung's badge.
pub open spec fn badge_for(elapsed_secs: nat, username: Seq<char>) -> Option<BadgeView> {
    match rank_at_hours(elapsed_secs / 3600) {
        Some(rank) => Some(
            BadgeView { rank, username, description: rank_description(rank) },
        ),
        None => None,
    }
}

/// The view of an optional badge.
pub open spec fn badge_view_of(b: Option<Badge>) -> Option<BadgeView> {
    match b {
        Some(x) => Some(x@),
        None => None,
    }
}

/// Returns the badge earned at `elapsed_secs` seconds of use, for `username`.
pub fn get_badge(elapsed_secs: u64, username: &str) -> (r: Option<Badge>)
    ensures
        badge_view_of(r) == badge_for(elapsed_secs as nat, username@),
{
    let hours: u64 = elapsed_secs / 3600;
    let rank = if hours == 0 {
        BadgeRank::Initial
    } else if hours == 1 {
        BadgeRank::Common
    } else if hours == 2 {
        BadgeRank::Rare
    } else if hours == 10 {
        BadgeRank::Experienced
    } else if hours == 50 {
        BadgeRank::Advanced
    } else if hours == 100 {
        BadgeRank::Pro
    } else if hours == 500 {
        BadgeRank::Insane
    } else if hours == 1000 {
        BadgeRank::Lunatic
    } else if hours == 3000 {
        BadgeRank::TouchGrass
    } else if hours == 10000 {
        BadgeRank::Master
    } else {
        return None;
    };
    Some(Badge { rank, username: username.to_owned(), description: description_of(rank) })
}

/// The description text of a rank.
pub fn description_of(rank: BadgeRank) -> (r: String)
    ensures
        r@ == rank_description(rank),
{
    match rank {
        BadgeRank::Initial => String::from_str("App's just been added."),
        BadgeRank::Common => String::from_str("You've been using app for an hour. Keep it up."),
        BadgeRank::Rare => String::from_str("You've been using app for two hours. Not bad."),
        BadgeRank::Experienced => String::from_str(
            "You've been using app for ten hours. I think you're already into it.",
        ),
        BadgeRank::Advanced => String::from_str(
            "You've been using app for an fifty hours. Point of no return.",
        ),
        BadgeRank::Pro => String::from_str(
            "You've been using app for one hundred hours. You're already hooked.",
        ),
        BadgeRank::Insane => String::from_str(
            "You've been using app for five hundred hours. You really like this, don't you?",
        ),
        BadgeRank::Lunatic => String::from_str(
            "You've been using app for one thousand hours. You know everything about this app.",
        ),
        BadgeRank::TouchGrass => String::from_str(
            "You've been using app for three thousand hours. Can't believe I just said that.",
        ),
        BadgeRank::Master => String::from_str(
            "You've been using app for ten thousand hours. You've mastered it all",
        ),
    }
}

/// The badge ladder is a function of the whole hours elapsed: two elapsed
/// times in the same hour give the same badge, and distinct rungs belong to
/// distinct ranks, so no rank is awarded at two hour counts.
pub proof fn lemma_badge_deterministic(s1: nat, s2: nat, username: Seq<char>)
    requires
        s1 / 3600 == s2 / 3600,
    ensures
        badge_for(s1, username) == badge_for(s2, username),
        forall|h1: nat, h2: nat|
            #![trigger rank_at_hours(h1), rank_at_hours(h2)]
            rank_at_hours(h1) is Some && rank_at_hours(h1) == rank_at_hours(h2) ==> h1 == h2,
{
}

} // verus!
