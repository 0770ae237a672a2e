//! The operating system's answers on Unix, as the `users` crate reads them
//! from the user and group databases.

use crate::osutils::{found_or, OSUtils, OsError};
use vstd::prelude::*;

verus! {

/// The user id of the user who runs the process, as `users::get_current_uid`
/// reports it. Nothing is claimed of the value.
#[verifier::external_body]
fn current_uid() -> u32 {
    users::get_current_uid()
}

/// The name of the user with this id, as `users::get_user_by_uid` finds it in
/// the user database; `None` where there is no such user, or where the name
/// is not valid text. Nothing is claimed of the answer.
#[verifier::external_body]
fn user_name_by_uid(uid: u32) -> Option<String> {
    match users::get_user_by_uid(uid) {
        Some(user) => user.name().to_str().map(String::from),
        None => None,
    }
}

/// The user id and the primary group id of the user called `username`, as
/// `users::get_user_by_name` finds them in the user database; `None` where
/// there is no such user. A name that holds the character NUL is never
/// looked up: it matches no user. Nothing else is claimed of the answer.
#[verifier::external_body]
fn user_ids_by_name(username: &str) -> (found: Option<(u32, u32)>)
    ensures
        username@.contains('\0') ==> found is None,
{
    match users::get_user_by_name(username) {
        Some(user) => Some((user.uid(), user.primary_group_id())),
        None => None,
    }
}

/// The group id of the group called `groupname`, as
/// `users::get_group_by_name` finds it in the group database; `None` where
/// there is no such group. A name that holds the character NUL is never
/// looked up: it matches no group. Nothing else is claimed of the answer.
#[verifier::external_body]
fn group_id_by_name(groupname: &str) -> (found: Option<u32>)
    ensures
        groupname@.contains('\0') ==> found is None,
{
    match users::get_group_by_name(groupname) {
        Some(group) => Some(group.gid()),
        None => None,
    }
}

/// The operating system of this machine.
#[derive(Clone, Copy, Debug)]
pub struct UnixOSUtils;

impl UnixOSUtils {
    pub fn new() -> UnixOSUtils {
        UnixOSUtils
    }
}

impl OSUtils for UnixOSUtils {
    fn get_username(&self) -> (name: Result<String, OsError>)
        ensures
            name is Err ==> name == Err::<String, OsError>(OsError::NoCurrentUser),
    {
        found_or(user_name_by_uid(current_uid()), OsError::NoCurrentUser)
    }

    fn get_uidgid_by_username(&self, username: &str) -> (ids: Result<(u32, u32), OsError>)
        ensures
            ids is Err ==> ids == Err::<(u32, u32), OsError>(OsError::UnknownUser),
            username@.contains('\0') ==> ids is Err,
    {
        found_or(user_ids_by_name(username), OsError::UnknownUser)
    }

    fn get_gid_by_groupname(&self, groupname: &str) -> (gid: Result<u32, OsError>)
        ensures
            gid is Err ==> gid == Err::<u32, OsError>(OsError::UnknownGroup),
            groupname@.contains('\0') ==> gid is Err,
    {
        found_or(group_id_by_name(groupname), OsError::UnknownGroup)
    }

    fn get_current_uid(&self) -> (uid: Result<u32, OsError>)
        ensures
            uid is Ok,
    {
        Ok(current_uid())
    }
}

} // verus!
