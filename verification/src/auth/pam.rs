//! Authentication by password.

use crate::auth::AuthFramework;
use crate::osutils::{OSUtils, OsError};
use crate::settings::Settings;
use vstd::prelude::*;

verus! {

/// Passwords set no ceiling of their own: the caller's number of tries counts.
pub const PAM_MAXTRIES: i32 = 0;

pub const PAM_NAME: &'static str = "PAM";

/// The password framework: it asks the user of `osutils` for their password,
/// with the prompt of `settings`.
pub struct PamAuthFramework<'a, T: OSUtils + 'a> {
    osutils: &'a T,
    settings: &'a Settings,
}

impl<'a, T> PamAuthFramework<'a, T> where T: OSUtils {
    pub closed spec fn spec_osutils(&self) -> &'a T {
        self.osutils
    }

    pub closed spec fn spec_settings(&self) -> &'a Settings {
        self.settings
    }

    pub fn new(osutils: &'a T, settings: &'a Settings) -> (framework: PamAuthFramework<'a, T>)
        ensures
            framework.spec_osutils() == osutils,
            framework.spec_settings() == settings,
    {
        PamAuthFramework { osutils: osutils, settings: settings }
    }

    /// The prompt with which the password is asked for.
    pub fn prompt(&self) -> (prompt: &'a String)
        ensures
            prompt == self.spec_settings().prompt,
    {
        self.settings.get_prompt()
    }

    /// The name of the user whose password is checked: what the framework's
    /// `OSUtils` answers when asked for the name of the user who runs the
    /// process.
    pub fn username(&self) -> (name: Result<String, OsError>)
        ensures
            call_ensures(T::get_username, (self.spec_osutils(),), name),
    {
        self.osutils.get_username()
    }
}

impl<'a, T> AuthFramework for PamAuthFramework<'a, T> where T: OSUtils {
    fn get_max_tries(&self) -> (tries: i32)
        ensures
            tries == PAM_MAXTRIES,
    {
        PAM_MAXTRIES
    }

    fn get_name(&self) -> (name: &'static str)
        ensures
            name@ == PAM_NAME@,
    {
        PAM_NAME
    }
}

} // verus!
