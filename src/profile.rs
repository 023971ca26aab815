use vstd::prelude::*;

verus! {

/// The colour scheme a user prefers.
#[derive(Debug, Clone, Copy, PartialEq, Eq, Structural)]
pub enum Theme {
    Light,
    Dark,
    System,
}

/// A user's preferences.
#[derive(Debug, Clone, Copy, PartialEq, Eq, Structural)]
pub struct UserPreferences {
    pub theme: Theme,
    pub notifications_enabled: bool,
    pub auto_sync: bool,
}

/// A user, with their preferences.
#[derive(Debug, Clone)]
pub struct UserProfile {
    pub username: String,
    pub email: String,
    pub preferences: UserPreferences,
}

impl UserProfile {
    /// A new profile: system theme, notifications on, no automatic sync.
    pub fn new(username: String, email: String) -> (r: UserProfile)
        ensures
            r.username == username,
            r.email == email,
            r.preferences == (UserPreferences {
                theme: Theme::System,
                notifications_enabled: true,
                auto_sync: false,
            }),
    {
        UserProfile {
            username,
            email,
            preferences: UserPreferences {
                theme: Theme::System,
                notifications_enabled: true,
                auto_sync: false,
            },
        }
    }

    /// Replaces the preferences, keeping the rest of the profile.
    pub fn update_preferences(&mut self, preferences: UserPreferences)
        ensures
            final(self).preferences == preferences,
            final(self).username == old(self).username,
            final(self).email == old(self).email,
    {
        self.preferences = preferences;
    }
}

} // verus!
