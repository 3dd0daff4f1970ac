use vstd::prelude::*;

verus! {

/// Who is using the tracker.
pub struct UserState {
    pub username: String,
    pub is_logged: bool,
}

/// Requests to the user state.
#[derive(Debug)]
pub enum UserActions {
    NoAction,
    ChangeUsername(String),
    /// Resets the session and asks for the logon name of the current user.
    InitConfig,
}

/// Work that the user state asks of its surroundings.
#[derive(Debug, PartialEq, Eq, Structural)]
pub enum UserEffect {
    /// Look up the logon name of the current user and, when found, answer
    /// with `ChangeUsername`.
    ResolveUsername,
}

/// The name used when no logon name is known.
pub open spec fn guest_name() -> Seq<char> {
    "Guest"@
}

impl Default for UserState {
    fn default() -> (r: Self)
        ensures
            r.username@ == guest_name(),
            !r.is_logged,
    {
        UserState::new()
    }
}

impl UserState {
    /// A guest who has not logged in.
    pub fn new() -> (r: Self)
        ensures
            r.username@ == guest_name(),
            !r.is_logged,
    {
        UserState { username: String::from_str("Guest"), is_logged: false }
    }

    pub fn change_username(&mut self, new_name: &str)
        ensures
            final(self).username@ == new_name@,
            final(self).is_logged == old(self).is_logged,
    {
        let name = new_name.to_owned();
        if self.username == name {
            return;
        }
        self.username = name;
    }

    /// Applies one action to the user state.
    pub fn reduce(&mut self, msg: UserActions) -> (r: Option<UserEffect>)
        ensures
            match msg {
                UserActions::NoAction => final(self).username@ == old(self).username@
                    && final(self).is_logged == old(self).is_logged && r is None,
                UserActions::ChangeUsername(n) => final(self).username@ == n@
                    && final(self).is_logged == old(self).is_logged && r is None,
                UserActions::InitConfig => final(self).username@ == old(self).username@
                    && !final(self).is_logged && r == Some(UserEffect::ResolveUsername),
            },
    {
        match msg {
            UserActions::NoAction => None,
            UserActions::ChangeUsername(n) => {
                self.change_username(n.as_str());
                None
            },
            UserActions::InitConfig => {
                self.is_logged = false;
                Some(UserEffect::ResolveUsername)
            },
        }
    }
}

} // verus!
