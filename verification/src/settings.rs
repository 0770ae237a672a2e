//! The configuration, and the authorization that it grants: which user may
//! run which program.
//!
//! A user's entry lists what the user may run: absolute paths, or `*` for
//! anything. A request is matched by the place it leads to, not by how it is
//! spelled: both the request and each path of the entry are followed through
//! symbolic links and the search path first, and what is handed back for
//! execution is the place found, never the caller's spelling.

use crate::text::{contains_char, first_char, str_eq};
use crate::DEFAULT_PROMPT;
use crate::DEFAULT_SESSION_TIMEOUT;
use vstd::prelude::*;

pub mod laws;

verus! {

/// Why the configuration does not let a request through.
#[derive(Clone, Copy, PartialEq, Eq, Structural, Debug)]
pub enum SettingsError {
    /// An entry lists something that is neither `*` nor an absolute path.
    RelativePath,
    /// The configuration has no entry for the user.
    UserNotFound,
    /// Nothing in the user's entry leads to the program asked for.
    NotPermitted,
}

/// What a user may run.
#[derive(Debug, PartialEq, Eq)]
pub struct Permissions {
    pub allowed_commands: Vec<String>,
}

/// The entry of one user.
#[derive(Debug, PartialEq, Eq)]
pub struct User {
    pub username: String,
    pub permissions: Permissions,
}

/// The configuration.
#[derive(Debug, PartialEq, Eq)]
pub struct Settings {
    pub prompt: String,
    pub session_timeout_sec: i64,
    pub allowed_users: Vec<User>,
}

/// An entry as contracts speak of it.
pub struct UserView {
    pub username: Seq<char>,
    pub allowed_commands: Seq<Seq<char>>,
}

/// The configuration as contracts speak of it.
pub struct SettingsView {
    pub prompt: Seq<char>,
    pub session_timeout_sec: i64,
    pub allowed_users: Seq<UserView>,
}

impl View for Permissions {
    type V = Seq<Seq<char>>;

    open spec fn view(&self) -> Seq<Seq<char>> {
        self.allowed_commands.deep_view()
    }
}

impl View for User {
    type V = UserView;

    open spec fn view(&self) -> UserView {
        UserView { username: self.username@, allowed_commands: self.permissions@ }
    }
}

impl DeepView for User {
    type V = UserView;

    open spec fn deep_view(&self) -> UserView {
        self@
    }
}

impl View for Settings {
    type V = SettingsView;

    open spec fn view(&self) -> SettingsView {
        SettingsView {
            prompt: self.prompt@,
            session_timeout_sec: self.session_timeout_sec,
            allowed_users: self.allowed_users.deep_view(),
        }
    }
}

/// The pattern that allows everything.
pub open spec fn wildcard() -> Seq<char> {
    seq!['*']
}

/// A path that starts at the root of the file system.
pub open spec fn is_absolute(pattern: Seq<char>) -> bool {
    pattern.len() > 0 && pattern[0] == '/'
}

/// What an entry may list: the wildcard, or an absolute path.
pub open spec fn valid_pattern(pattern: Seq<char>) -> bool {
    pattern == wildcard() || is_absolute(pattern)
}

/// The index of the last of the first `upto` entries that bears `username`.
pub open spec fn last_entry(users: Seq<UserView>, username: Seq<char>, upto: int) -> Option<int>
    decreases upto,
{
    if upto <= 0 {
        None
    } else if users[upto - 1].username == username {
        Some(upto - 1)
    } else {
        last_entry(users, username, upto - 1)
    }
}

/// The decision on a request, once it is known where things lead.
///
/// `resolved` is the place that `command` leads to, or `None` where it leads
/// nowhere; `canonical` holds, for each pattern of `allowed` in order, the
/// place that the pattern leads to, or `None` where nothing is there.
/// The wildcard lets the request through as it was spelled. Otherwise the
/// request is let through if one of the patterns leads to the same place, and
/// what is let through is that place.
pub open spec fn spec_authorize(
    allowed: Seq<Seq<char>>,
    command: Seq<char>,
    resolved: Option<Seq<char>>,
    canonical: Seq<Option<Seq<char>>>,
) -> Result<Seq<char>, SettingsError> {
    if allowed.contains(wildcard()) {
        Ok(command)
    } else if resolved is Some && exists|i: int|
        0 <= i < allowed.len() && i < canonical.len() && #[trigger] canonical[i] == resolved {
        Ok(resolved->0)
    } else {
        Err(SettingsError::NotPermitted)
    }
}

/// A decision as contracts speak of it.
pub open spec fn decision_view(decision: Result<String, SettingsError>) -> Result<
    Seq<char>,
    SettingsError,
> {
    match decision {
        Ok(path) => Ok(path@),
        Err(error) => Err(error),
    }
}

impl UserView {
    /// Whether every pattern of the entry is the wildcard or an absolute path.
    pub open spec fn valid(self) -> bool {
        forall|i: int|
            0 <= i < self.allowed_commands.len() ==> valid_pattern(#[trigger] self.allowed_commands[i])
    }

    /// What the user is told when asking what they may run: each pattern, followed by a space.
    pub open spec fn listing(self, upto: int) -> Seq<char>
        decreases upto,
    {
        if upto <= 0 {
            Seq::empty()
        } else {
            self.listing(upto - 1) + self.allowed_commands[upto - 1] + seq![' ']
        }
    }
}

impl SettingsView {
    /// Whether every entry is valid. Only such a configuration is put to use.
    pub open spec fn valid(self) -> bool {
        forall|i: int| 0 <= i < self.allowed_users.len() ==> (#[trigger] self.allowed_users[i]).valid()
    }

    /// The index of the entry that governs `username`: the last one that bears the name.
    pub open spec fn entry(self, username: Seq<char>) -> Option<int> {
        last_entry(self.allowed_users, username, self.allowed_users.len() as int)
    }
}

/// Whether `pattern` is the wildcard.
pub fn is_wildcard(pattern: &str) -> (yes: bool)
    ensures
        yes == (pattern@ == wildcard()),
{
    proof {
        reveal_strlit("*");
        assert("*"@ =~= wildcard());
    }
    str_eq(pattern, "*")
}

/// Whether `pattern` is something that an entry may list.
pub fn is_valid_pattern(pattern: &str) -> (yes: bool)
    ensures
        yes == valid_pattern(pattern@),
{
    if is_wildcard(pattern) {
        true
    } else {
        match first_char(pattern) {
            Some(first) => first == '/',
            None => false,
        }
    }
}

/// Whether `command` names a file by a path, as opposed to a program that is
/// looked for on the search path.
pub fn names_path(command: &str) -> (yes: bool)
    ensures
        yes == command@.contains('/'),
{
    contains_char(command, '/')
}

impl User {
    /// Whether every pattern of the entry is the wildcard or an absolute path.
    pub fn is_valid(&self) -> (yes: bool)
        ensures
            yes == self@.valid(),
    {
        let commands = &self.permissions.allowed_commands;
        let mut i: usize = 0;
        while i < commands.len()
            invariant
                i <= commands.len(),
                commands == &self.permissions.allowed_commands,
                forall|j: int| 0 <= j < i ==> valid_pattern(#[trigger] self@.allowed_commands[j]),
            decreases commands.len() - i,
        {
            assert(self@.allowed_commands[i as int] == commands[i as int]@);
            if !is_valid_pattern(commands[i].as_str()) {
                return false;
            }
            i += 1;
        }
        true
    }

    /// Whether the entry lists the wildcard.
    pub fn allows_everything(&self) -> (yes: bool)
        ensures
            yes == self@.allowed_commands.contains(wildcard()),
    {
        let commands = &self.permissions.allowed_commands;
        let mut i: usize = 0;
        while i < commands.len()
            invariant
                i <= commands.len(),
                commands == &self.permissions.allowed_commands,
                forall|j: int| 0 <= j < i ==> self@.allowed_commands[j] != wildcard(),
            decreases commands.len() - i,
        {
            assert(self@.allowed_commands[i as int] == commands[i as int]@);
            if is_wildcard(commands[i].as_str()) {
                return true;
            }
            i += 1;
        }
        false
    }

    /// Decides on a request of this user, given where things lead: `resolved`
    /// for the command, and `canonical` for each pattern of the entry, in
    /// order. A pattern without a counterpart in `canonical` leads nowhere.
    pub fn authorize(
        &self,
        command: &str,
        resolved: &Option<String>,
        canonical: &Vec<Option<String>>,
    ) -> (decision: Result<String, SettingsError>)
        ensures
            decision_view(decision) == spec_authorize(
                self@.allowed_commands,
                command@,
                resolved.deep_view(),
                canonical.deep_view(),
            ),
    {
        if self.allows_everything() {
            return Ok(String::from_str(command));
        }
        let commands = &self.permissions.allowed_commands;
        match resolved {
            None => Err(SettingsError::NotPermitted),
            Some(path) => {
                let mut i: usize = 0;
                while i < commands.len() && i < canonical.len()
                    invariant
                        i <= commands.len(),
                        i <= canonical.len(),
                        commands.len() == self@.allowed_commands.len(),
                        !self@.allowed_commands.contains(wildcard()),
                        resolved.deep_view() == Some(path@),
                        forall|j: int|
                            0 <= j < i ==> #[trigger] canonical.deep_view()[j] != resolved.deep_view(),
                    decreases commands.len() - i,
                {
                    assert(canonical.deep_view()[i as int] == canonical[i as int].deep_view());
                    match &canonical[i] {
                        Some(place) => {
                            if str_eq(place.as_str(), path.as_str()) {
                                assert(canonical.deep_view()[i as int] == resolved.deep_view());
                                return Ok(path.clone());
                            }
                        },
                        None => {},
                    }
                    i += 1;
                }
                Err(SettingsError::NotPermitted)
            },
        }
    }

    /// What the user is told when asking what they may run: each pattern of
    /// the entry, followed by a space.
    pub fn allowed_commands_line(&self) -> (line: String)
        ensures
            line@ == self@.listing(self@.allowed_commands.len() as int),
    {
        let commands = &self.permissions.allowed_commands;
        let mut line = String::new();
        let mut i: usize = 0;
        proof {
            reveal_strlit(" ");
            assert(" "@ =~= seq![' ']);
        }
        while i < commands.len()
            invariant
                i <= commands.len(),
                commands == &self.permissions.allowed_commands,
                " "@ == seq![' '],
                line@ == self@.listing(i as int),
            decreases commands.len() - i,
        {
            assert(self@.allowed_commands[i as int] == commands[i as int]@);
            line.append(commands[i].as_str());
            line.append(" ");
            i += 1;
        }
        line
    }
}

/// Looks for an executable named `name` in the directories of the search
/// path, as `which::which` does, and hands back the first one found. The
/// answer depends on the environment and on what is on disk, so nothing is
/// claimed of it. `None` also stands for a path that is not valid text.
#[verifier::external_body]
fn search_path(name: &str) -> Option<String> {
    match which::which(name) {
        Ok(found) => found.into_os_string().into_string().ok(),
        Err(_) => None,
    }
}

/// Follows `path` to the place it leads to, as `std::path::Path::canonicalize`
/// does, and hands back what its documentation calls the canonical, absolute
/// form of the path, with every symbolic link and relative segment resolved.
/// On Unix, where the user database that this library consults is found, an
/// absolute path begins with `/`. `None` where nothing is there; whether
/// something is there depends on what is on disk, and nothing is claimed of
/// it. `None` also stands for a place whose path is not valid text.
#[verifier::external_body]
fn canonical_path(path: &str) -> (place: Option<String>)
    ensures
        place matches Some(place) ==> is_absolute(place@),
{
    match std::path::Path::new(path).canonicalize() {
        Ok(place) => place.into_os_string().into_string().ok(),
        Err(_) => None,
    }
}

// Where a command leads, resolved as the operating system would resolve it
// for execution: a path is followed as it stands, a bare name is first looked
// for on the search path. What comes back is a place, never a bare name.
fn resolve_command(command: &str) -> (resolved: Option<String>)
    ensures
        resolved matches Some(place) ==> is_absolute(place@),
{
    if names_path(command) {
        canonical_path(command)
    } else {
        match search_path(command) {
            Some(found) => canonical_path(found.as_str()),
            None => None,
        }
    }
}

// Where each of `patterns` leads, in order.
fn canonical_patterns(patterns: &Vec<String>) -> (places: Vec<Option<String>>)
    ensures
        places.len() == patterns.len(),
{
    let mut places: Vec<Option<String>> = Vec::new();
    let mut i: usize = 0;
    while i < patterns.len()
        invariant
            i <= patterns.len(),
            places.len() == i,
        decreases patterns.len() - i,
    {
        places.push(canonical_path(patterns[i].as_str()));
        i += 1;
    }
    places
}

impl Settings {
    /// The configuration to start from: the default prompt, the default
    /// session lifetime, and `root` as the only user, free to run anything.
    pub fn new() -> (settings: Settings)
        ensures
            settings@ == (SettingsView {
                prompt: DEFAULT_PROMPT@,
                session_timeout_sec: DEFAULT_SESSION_TIMEOUT,
                allowed_users: seq![UserView { username: "root"@, allowed_commands: seq![wildcard()] }],
            }),
            settings@.valid(),
    {
        let mut s = Settings {
            prompt: String::from_str(DEFAULT_PROMPT),
            session_timeout_sec: DEFAULT_SESSION_TIMEOUT,
            allowed_users: Vec::new(),
        };
        let mut root = User {
            username: String::from_str("root"),
            permissions: Permissions { allowed_commands: Vec::new() },
        };
        root.permissions.allowed_commands.push(String::from_str("*"));
        proof {
            reveal_strlit("*");
            assert("*"@ =~= wildcard());
            assert(root@.allowed_commands =~= seq![wildcard()]);
        }
        s.allowed_users.push(root);
        proof {
            assert(s@.allowed_users =~= seq![
                UserView { username: "root"@, allowed_commands: seq![wildcard()] },
            ]);
        }
        s
    }

    /// Finds what is wrong with the configuration, if anything is: an entry
    /// that lists something other than the wildcard and absolute paths.
    pub fn validate(&self) -> (fault: Option<SettingsError>)
        ensures
            fault is None <==> self@.valid(),
            fault is Some ==> fault == Some(SettingsError::RelativePath),
    {
        let mut i: usize = 0;
        while i < self.allowed_users.len()
            invariant
                i <= self.allowed_users.len(),
                forall|j: int| 0 <= j < i ==> (#[trigger] self@.allowed_users[j]).valid(),
            decreases self.allowed_users.len() - i,
        {
            assert(self@.allowed_users[i as int] == self.allowed_users[i as int]@);
            if !self.allowed_users[i].is_valid() {
                return Some(SettingsError::RelativePath);
            }
            i += 1;
        }
        None
    }

    /// The last step of loading a configuration: it is handed on if it is
    /// valid, and refused as a whole if it is not.
    pub fn validated(self) -> (loaded: Result<Settings, SettingsError>)
        ensures
            match loaded {
                Ok(settings) => self@.valid() && settings == self,
                Err(error) => !self@.valid() && error == SettingsError::RelativePath,
            },
    {
        match self.validate() {
            Some(fault) => Err(fault),
            None => Ok(self),
        }
    }

    /// The entry that governs `username`: the last one that bears the name.
    pub fn get_user(&self, username: &str) -> (found: Result<&User, SettingsError>)
        ensures
            match found {
                Ok(user) => self@.entry(username@) matches Some(index) && *user
                    == self.allowed_users[index],
                Err(error) => self@.entry(username@) is None && error == SettingsError::UserNotFound,
            },
    {
        let mut found: Option<usize> = None;
        let mut i: usize = 0;
        while i < self.allowed_users.len()
            invariant
                i <= self.allowed_users.len(),
                match found {
                    Some(index) => index < i && last_entry(self@.allowed_users, username@, i as int)
                        == Some(index as int),
                    None => last_entry(self@.allowed_users, username@, i as int) is None,
                },
            decreases self.allowed_users.len() - i,
        {
            assert(self@.allowed_users[i as int] == self.allowed_users[i as int]@);
            if str_eq(username, self.allowed_users[i].username.as_str()) {
                found = Some(i);
            }
            i += 1;
        }
        match found {
            Some(index) => Ok(&self.allowed_users[index]),
            None => Err(SettingsError::UserNotFound),
        }
    }

    /// Decides whether `username` may run `command`, and says what to execute.
    ///
    /// A user without an entry is turned away. A user whose entry lists the
    /// wildcard gets the command back as it was spelled, and nothing is looked
    /// up. For anyone else the command and each pattern of the entry are
    /// followed to where they lead, and the decision is that of
    /// `User::authorize` on what was found: either the place that the command
    /// leads to, which is an absolute path and so not looked for on the
    /// search path again when it is executed, or `NotPermitted`.
    pub fn sanitize_user_command(&self, username: &str, command: &str) -> (decision: Result<
        String,
        SettingsError,
    >)
        ensures
            self@.entry(username@) is None <==> decision == Err::<String, SettingsError>(
                SettingsError::UserNotFound,
            ),
            self@.entry(username@) matches Some(index) ==> {
                let allowed = self@.allowed_users[index].allowed_commands;
                &&& allowed.contains(wildcard()) ==> decision_view(decision) == Ok::<
                    Seq<char>,
                    SettingsError,
                >(command@)
                &&& exists|resolved: Option<Seq<char>>, canonical: Seq<Option<Seq<char>>>|
                    canonical.len() == allowed.len() && (resolved matches Some(place)
                        ==> is_absolute(place)) && decision_view(decision)
                        == #[trigger] spec_authorize(allowed, command@, resolved, canonical)
                &&& !allowed.contains(wildcard()) ==> (decision matches Ok(path) ==> is_absolute(
                    path@,
                ))
            },
    {
        let user = match self.get_user(username) {
            Ok(user) => user,
            Err(error) => {
                return Err(error);
            },
        };
        let ghost allowed = user@.allowed_commands;
        proof {
            let index = self@.entry(username@)->0;
            laws::lemma_last_entry(self@.allowed_users, username@, self@.allowed_users.len() as int);
            assert(self@.allowed_users[index] == user@);
        }
        if user.allows_everything() {
            let decision = Ok(String::from_str(command));
            proof {
                let nowhere = Seq::new(allowed.len(), |i: int| None::<Seq<char>>);
                assert(decision_view(decision) == spec_authorize(
                    allowed,
                    command@,
                    None::<Seq<char>>,
                    nowhere,
                ));
            }
            return decision;
        }
        let resolved = resolve_command(command);
        let canonical = canonical_patterns(&user.permissions.allowed_commands);
        let decision = user.authorize(command, &resolved, &canonical);
        proof {
            assert(canonical.deep_view().len() == allowed.len());
            assert(decision_view(decision) == spec_authorize(
                allowed,
                command@,
                resolved.deep_view(),
                canonical.deep_view(),
            ));
        }
        decision
    }

    /// The prompt with which the password is asked for.
    pub fn get_prompt(&self) -> (prompt: &String)
        ensures
            prompt == self.prompt,
    {
        &self.prompt
    }
}

} // verus!
