//! What the operating system knows of users and groups.

use vstd::prelude::*;

pub mod unix;

verus! {

/// The user id of the superuser.
pub const ROOT_UID: u32 = 0;

/// The group id of the superuser's group.
pub const ROOT_GID: u32 = 0;

/// What the operating system could not tell.
#[derive(Clone, Copy, PartialEq, Eq, Structural, Debug)]
pub enum OsError {
    /// The user who runs the process has no name.
    NoCurrentUser,
    /// No user bears the name.
    UnknownUser,
    /// No group bears the name.
    UnknownGroup,
}

/// The questions that are put to the operating system. The answers are the
/// system's own: this library takes them as they come.
pub trait OSUtils {
    /// The name of the user who runs the process.
    fn get_username(&self) -> Result<String, OsError>;

    /// The user id and the primary group id of the user called `username`.
    fn get_uidgid_by_username(&self, username: &str) -> Result<(u32, u32), OsError>;

    /// The group id of the group called `groupname`.
    fn get_gid_by_groupname(&self, groupname: &str) -> Result<u32, OsError>;

    /// The user id of the user who runs the process.
    fn get_current_uid(&self) -> Result<u32, OsError>;
}

/// What was found, or `missing` where nothing was.
pub fn found_or<T>(found: Option<T>, missing: OsError) -> (answer: Result<T, OsError>)
    ensures
        match found {
            Some(value) => answer == Ok::<T, OsError>(value),
            None => answer == Err::<T, OsError>(missing),
        },
{
    match found {
        Some(value) => Ok(value),
        None => Err(missing),
    }
}

/// The user id and group id under which a command runs: those of the
/// superuser, unless a user was asked for, whose ids then take their place;
/// and a group that was asked for takes the place of the group id.
pub open spec fn spec_target_ids(user: Option<(u32, u32)>, group: Option<u32>) -> (u32, u32) {
    let ids = match user {
        Some(ids) => ids,
        None => (ROOT_UID, ROOT_GID),
    };
    match group {
        Some(gid) => (ids.0, gid),
        None => ids,
    }
}

/// The user id and group id under which a command runs, given the ids of
/// the user that was asked for, if one was, and the id of the group that was
/// asked for, if one was.
pub fn target_ids(user: Option<(u32, u32)>, group: Option<u32>) -> (ids: (u32, u32))
    ensures
        ids == spec_target_ids(user, group),
{
    let ids = match user {
        Some(ids) => ids,
        None => (ROOT_UID, ROOT_GID),
    };
    match group {
        Some(gid) => (ids.0, gid),
        None => ids,
    }
}

/// Whether `answer` is what `osutils` says when asked for the user called `username`.
pub open spec fn user_answer<T: OSUtils>(
    osutils: &T,
    username: Seq<char>,
    answer: Result<(u32, u32), OsError>,
) -> bool {
    exists|name: &str|
        name@ == username && #[trigger] call_ensures(
            T::get_uidgid_by_username,
            (osutils, name),
            answer,
        )
}

/// Whether `answer` is what `osutils` says when asked for the group called `groupname`.
pub open spec fn group_answer<T: OSUtils>(
    osutils: &T,
    groupname: Seq<char>,
    answer: Result<u32, OsError>,
) -> bool {
    exists|name: &str|
        name@ == groupname && #[trigger] call_ensures(
            T::get_gid_by_groupname,
            (osutils, name),
            answer,
        )
}

/// Whether `target` is what the group that was asked for makes of the ids
/// of the user: without a group they stand; with one, `osutils` is asked
/// for it, and its id takes the place of the group id, or the error that
/// `osutils` answers with is the result.
pub open spec fn group_decides<T: OSUtils>(
    osutils: &T,
    user: Option<(u32, u32)>,
    group: Option<String>,
    target: Result<(u32, u32), OsError>,
) -> bool {
    match group {
        None => target == Ok::<(u32, u32), OsError>(spec_target_ids(user, None)),
        Some(groupname) => exists|answer: Result<u32, OsError>| #[trigger]
            group_answer(osutils, groupname@, answer) && match answer {
                Ok(gid) => target == Ok::<(u32, u32), OsError>(spec_target_ids(user, Some(gid))),
                Err(error) => target == Err::<(u32, u32), OsError>(error),
            },
    }
}

/// Whether `target` is what asking `osutils` for `user` and `group` comes
/// to. The user is asked for first, if one is named; an error that
/// `osutils` answers with is the result, and the group is then not asked
/// for. Otherwise the ids are those of `spec_target_ids` for what
/// `osutils` answered.
pub open spec fn is_target_of<T: OSUtils>(
    osutils: &T,
    user: Option<String>,
    group: Option<String>,
    target: Result<(u32, u32), OsError>,
) -> bool {
    match user {
        None => group_decides(osutils, None, group, target),
        Some(username) => exists|answer: Result<(u32, u32), OsError>| #[trigger]
            user_answer(osutils, username@, answer) && match answer {
                Ok(ids) => group_decides(osutils, Some(ids), group, target),
                Err(error) => target == Err::<(u32, u32), OsError>(error),
            },
    }
}

/// Asks the operating system for the ids under which a command runs, for
/// the user and the group that were asked for by name. A name that the
/// system does not know is an error. Where no name is given the system is
/// not asked.
pub fn resolve_target<T: OSUtils>(
    osutils: &T,
    user: &Option<String>,
    group: &Option<String>,
) -> (target: Result<(u32, u32), OsError>)
    ensures
        is_target_of(osutils, *user, *group, target),
        user is None && group is None ==> target == Ok::<(u32, u32), OsError>((ROOT_UID, ROOT_GID)),
{
    let user_ids = match user {
        Some(username) => {
            let answer = osutils.get_uidgid_by_username(username.as_str());
            assert(user_answer(osutils, username@, answer));
            match answer {
                Ok(ids) => Some(ids),
                Err(error) => {
                    return Err(error);
                },
            }
        },
        None => None,
    };
    let group_id = match group {
        Some(groupname) => {
            let answer = osutils.get_gid_by_groupname(groupname.as_str());
            assert(group_answer(osutils, groupname@, answer));
            match answer {
                Ok(gid) => Some(gid),
                Err(error) => {
                    assert(group_decides(osutils, user_ids, *group, Err(error)));
                    return Err(error);
                },
            }
        },
        None => None,
    };
    let target = Ok(target_ids(user_ids, group_id));
    assert(group_decides(osutils, user_ids, *group, target));
    target
}

} // verus!
