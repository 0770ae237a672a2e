//! Authentication by fingerprint.

use crate::auth::AuthFramework;
use crate::osutils::{OSUtils, OsError};
use crate::settings::Settings;
use vstd::prelude::*;

verus! {

/// The fingerprint reader prompts once; after that the password is asked for.
pub const TOUCHID_MAX_TRIES: i32 = 1;

pub const TOUCHID_NAME: &'static str = "TouchID";

/// The fingerprint framework. The reader answers to the user who runs the
/// process, whom `osutils` identifies.
pub struct TouchIDAuthFramework<'a, T: OSUtils + 'a> {
    osutils: &'a T,
    settings: &'a Settings,
}

impl<'a, T> TouchIDAuthFramework<'a, T> where T: OSUtils {
    pub closed spec fn spec_osutils(&self) -> &'a T {
        self.osutils
    }

    pub closed spec fn spec_settings(&self) -> &'a Settings {
        self.settings
    }

    pub fn new(osutils: &'a T, settings: &'a Settings) -> (framework: TouchIDAuthFramework<'a, T>)
        ensures
            framework.spec_osutils() == osutils,
            framework.spec_settings() == settings,
    {
        TouchIDAuthFramework { osutils: osutils, settings: settings }
    }

    /// The id of the user as whom the reader is consulted: what the
    /// framework's `OSUtils` answers when asked for the id of the user who
    /// runs the process.
    pub fn caller_uid(&self) -> (uid: Result<u32, OsError>)
        ensures
            call_ensures(T::get_current_uid, (self.spec_osutils(),), uid),
    {
        self.osutils.get_current_uid()
    }
}

impl<'a, T> AuthFramework for TouchIDAuthFramework<'a, T> where T: OSUtils {
    fn get_max_tries(&self) -> (tries: i32)
        ensures
            tries == TOUCHID_MAX_TRIES,
    {
        TOUCHID_MAX_TRIES
    }

    fn get_name(&self) -> (name: &'static str)
        ensures
            name@ == TOUCHID_NAME@,
    {
        TOUCHID_NAME
    }
}

} // verus!
