//! What holds of every configuration and of every decision on a request.

use crate::settings::{
    is_absolute, last_entry, spec_authorize, valid_pattern, wildcard, SettingsError, SettingsView,
    UserView,
};
use vstd::prelude::*;

verus! {

/// Where an entry governs a name, it is one of the entries and bears the
/// name, and no later entry does.
pub proof fn lemma_last_entry(users: Seq<UserView>, username: Seq<char>, upto: int)
    requires
        0 <= upto <= users.len(),
    ensures
        match last_entry(users, username, upto) {
            Some(index) => 0 <= index < upto && users[index].username == username && forall|later: int|
                index < later < upto ==> (#[trigger] users[later]).username != username,
            None => forall|i: int| 0 <= i < upto ==> (#[trigger] users[i]).username != username,
        },
    decreases upto,
{
    if upto > 0 && users[upto - 1].username != username {
        lemma_last_entry(users, username, upto - 1);
    }
}

/// A configuration with an entry that lists something other than the
/// wildcard and absolute paths is not valid, so loading it fails.
pub proof fn law_relative_pattern_refused(settings: SettingsView, user: int, pattern: int)
    requires
        0 <= user < settings.allowed_users.len(),
        0 <= pattern < settings.allowed_users[user].allowed_commands.len(),
        settings.allowed_users[user].allowed_commands[pattern] != wildcard(),
        !is_absolute(settings.allowed_users[user].allowed_commands[pattern]),
    ensures
        !settings.valid(),
{
    if settings.valid() {
        assert(settings.allowed_users[user].valid());
        assert(valid_pattern(settings.allowed_users[user].allowed_commands[pattern]));
    }
}

/// Whoever may run anything gets every command back as it was spelled,
/// wherever it leads and whatever else the entry lists.
pub proof fn law_wildcard_returns_command(
    allowed: Seq<Seq<char>>,
    command: Seq<char>,
    resolved: Option<Seq<char>>,
    canonical: Seq<Option<Seq<char>>>,
)
    requires
        allowed.contains(wildcard()),
    ensures
        spec_authorize(allowed, command, resolved, canonical) == Ok::<Seq<char>, SettingsError>(
            command,
        ),
{
}

/// A command that is spelled as the place it leads to, and that the entry
/// permits, comes back unchanged.
pub proof fn law_canonical_command_unchanged(
    allowed: Seq<Seq<char>>,
    command: Seq<char>,
    canonical: Seq<Option<Seq<char>>>,
)
    requires
        spec_authorize(allowed, command, Some(command), canonical) is Ok,
    ensures
        spec_authorize(allowed, command, Some(command), canonical) == Ok::<Seq<char>, SettingsError>(
            command,
        ),
{
}

/// What is let through without the wildcard is the place that the command
/// leads to, and one of the entry's patterns leads there too: a program of
/// the same name elsewhere on the search path is not let through.
pub proof fn law_authorized_place_is_listed(
    allowed: Seq<Seq<char>>,
    command: Seq<char>,
    resolved: Option<Seq<char>>,
    canonical: Seq<Option<Seq<char>>>,
)
    requires
        !allowed.contains(wildcard()),
    ensures
        spec_authorize(allowed, command, resolved, canonical) matches Ok(path) ==> resolved == Some(
            path,
        ) && exists|i: int|
            0 <= i < allowed.len() && i < canonical.len() && #[trigger] canonical[i] == Some(path),
        spec_authorize(allowed, command, resolved, canonical) is Err <==> resolved is None || forall|
            i: int,
        |
            0 <= i < allowed.len() && i < canonical.len() ==> #[trigger] canonical[i] != resolved,
{
}

} // verus!
