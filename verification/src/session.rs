//! The session store: records that let a user who authenticated a moment
//! ago on this terminal go on without authenticating again.
//!
//! The store is a directory tree that only its owner may enter, with one
//! small file per session. Reading and writing that tree is left to the
//! caller; what is decided here is which directories to create or repair,
//! which record counts, which records are spent, and under which name a new
//! record goes.

use crate::text::str_eq;
use vstd::prelude::*;
use vstd::relations::injective_on;
use vstd::seq_lib::seq_to_set_is_finite;
use vstd::set_lib::{lemma_int_range, lemma_len_subset, lemma_map_size, set_int_range};

pub mod laws;

verus! {

/// The permission bits of every directory of the store: all for the owner, none for anyone else.
pub const STORE_MODE: u32 = 0o700;

/// The permission bits of every record: to read and write for the owner, none for anyone else.
pub const RECORD_MODE: u32 = 0o600;

/// The bits of a file mode that say who may do what.
pub const MODE_MASK: u32 = 0o7777;

/// Why the session store could not be used.
#[derive(Clone, Copy, PartialEq, Eq, Structural, Debug)]
pub enum SessionError {
    /// Something that is not a directory stands where the store or a user's part of it belongs.
    NotADirectory,
    /// A record could not be read or does not hold a session.
    Malformed,
    /// The moment at which a session would end cannot be written as a timestamp.
    TimestampOverflow,
}

/// What is found at a path of the store.
#[derive(Clone, Copy, PartialEq, Eq, Structural, Debug)]
pub enum PathState {
    /// Nothing is there.
    Missing,
    /// Something is there that is not a directory.
    NotDirectory,
    /// A directory with this file mode.
    Directory { mode: u32 },
}

/// What to do with a directory of the store before it is used.
#[derive(Clone, Copy, PartialEq, Eq, Structural, Debug)]
pub enum DirAction {
    /// It is as it should be.
    Keep,
    /// Create it, then set its permission bits to `STORE_MODE`.
    Create,
    /// Set its permission bits to `STORE_MODE`.
    Repair,
}

/// What to do with the store's root and with the user's subdirectory, in this order.
#[derive(Clone, Copy, PartialEq, Eq, Structural, Debug)]
pub struct StoragePlan {
    pub root: DirAction,
    pub user_dir: DirAction,
}

/// A directory that its owner may read, write and enter, and nobody else.
pub open spec fn owner_only(state: PathState) -> bool {
    state matches PathState::Directory { mode } && mode & MODE_MASK == STORE_MODE
}

/// What a directory of the store needs; `None` where it cannot be had.
pub open spec fn spec_dir_action(state: PathState) -> Option<DirAction> {
    match state {
        PathState::Missing => Some(DirAction::Create),
        PathState::NotDirectory => None,
        PathState::Directory { mode } => if mode & MODE_MASK == STORE_MODE {
            Some(DirAction::Keep)
        } else {
            Some(DirAction::Repair)
        },
    }
}

/// What is found at a path once `action` has been carried out there.
pub open spec fn after_action(state: PathState, action: DirAction) -> PathState {
    match (action, state) {
        (DirAction::Create, PathState::Missing) => PathState::Directory { mode: STORE_MODE },
        (DirAction::Repair, PathState::Directory { mode }) => PathState::Directory {
            mode: (mode & !MODE_MASK) | STORE_MODE,
        },
        _ => state,
    }
}

/// The plan for the store of one user.
pub open spec fn spec_init_session_dir(root: PathState, user_dir: PathState) -> Result<
    StoragePlan,
    SessionError,
> {
    match (spec_dir_action(root), spec_dir_action(user_dir)) {
        (Some(root), Some(user_dir)) => Ok(StoragePlan { root, user_dir }),
        _ => Err(SessionError::NotADirectory),
    }
}

fn dir_action(state: PathState) -> (action: Option<DirAction>)
    ensures
        action == spec_dir_action(state),
{
    match state {
        PathState::Missing => Some(DirAction::Create),
        PathState::NotDirectory => None,
        PathState::Directory { mode } => if mode & MODE_MASK == STORE_MODE {
            Some(DirAction::Keep)
        } else {
            Some(DirAction::Repair)
        },
    }
}

/// Says how to make the store ready for one user, from what was found at the
/// store's root and at the user's subdirectory. A missing directory is
/// created, one with other permission bits is repaired, and anything that is
/// not a directory ends the matter.
pub fn init_session_dir(root: PathState, user_dir: PathState) -> (plan: Result<
    StoragePlan,
    SessionError,
>)
    ensures
        plan == spec_init_session_dir(root, user_dir),
{
    match dir_action(root) {
        None => Err(SessionError::NotADirectory),
        Some(root) => match dir_action(user_dir) {
            None => Err(SessionError::NotADirectory),
            Some(user_dir) => Ok(StoragePlan { root, user_dir }),
        },
    }
}

/// One session: the terminal it was granted on, and the moments at which it
/// began and at which it ends, in seconds since the epoch.
#[derive(Debug, PartialEq, Eq)]
pub struct Session {
    pub ttyname: String,
    pub start_timestamp: i64,
    pub end_timestamp: i64,
}

/// A session as contracts speak of it.
pub struct SessionView {
    pub ttyname: Seq<char>,
    pub start_timestamp: int,
    pub end_timestamp: int,
}

impl View for Session {
    type V = SessionView;

    open spec fn view(&self) -> SessionView {
        SessionView {
            ttyname: self.ttyname@,
            start_timestamp: self.start_timestamp as int,
            end_timestamp: self.end_timestamp as int,
        }
    }
}

impl DeepView for Session {
    type V = SessionView;

    open spec fn deep_view(&self) -> SessionView {
        self@
    }
}

impl SessionView {
    /// A session is spent from the moment at which it ends.
    pub open spec fn expired(self, now: int) -> bool {
        now >= self.end_timestamp
    }

    /// A session vouches for a user on the terminal it was granted on, until it ends.
    pub open spec fn grants(self, ttyname: Seq<char>, now: int) -> bool {
        !self.expired(now) && self.ttyname == ttyname
    }
}

impl Session {
    /// The session that begins at `now` on `ttyname` and lasts `time` seconds.
    pub fn new(ttyname: String, now: i64, time: i64) -> (session: Result<Session, SessionError>)
        ensures
            match session {
                Ok(session) => session@ == (SessionView {
                    ttyname: ttyname@,
                    start_timestamp: now as int,
                    end_timestamp: now + time,
                }),
                Err(error) => error == SessionError::TimestampOverflow && !(i64::MIN <= now + time
                    <= i64::MAX),
            },
    {
        match now.checked_add(time) {
            Some(end) => Ok(Session { ttyname, start_timestamp: now, end_timestamp: end }),
            None => Err(SessionError::TimestampOverflow),
        }
    }

    pub fn is_expired(&self, now: i64) -> (expired: bool)
        ensures
            expired == self@.expired(now as int),
    {
        now >= self.end_timestamp
    }
}

/// A file of a user's subdirectory: its name, and the session it holds, or
/// `None` where it could not be read or does not hold one.
#[derive(Debug, PartialEq, Eq)]
pub struct SessionFile {
    pub name: String,
    pub record: Option<Session>,
}

/// A file of the store as contracts speak of it.
pub struct SessionFileView {
    pub name: Seq<char>,
    pub record: Option<SessionView>,
}

impl View for SessionFile {
    type V = SessionFileView;

    open spec fn view(&self) -> SessionFileView {
        SessionFileView {
            name: self.name@,
            record: match self.record {
                Some(session) => Some(session@),
                None => None,
            },
        }
    }
}

impl DeepView for SessionFile {
    type V = SessionFileView;

    open spec fn deep_view(&self) -> SessionFileView {
        self@
    }
}

impl SessionFileView {
    /// The look-up goes no further than a file that it cannot read, or one
    /// whose session vouches for the user.
    pub open spec fn halts(self, ttyname: Seq<char>, now: int) -> bool {
        match self.record {
            None => true,
            Some(session) => session.grants(ttyname, now),
        }
    }

    /// A file whose session is spent is deleted when the look-up comes by.
    pub open spec fn spent(self, now: int) -> bool {
        self.record matches Some(session) && session.expired(now)
    }
}

/// The index of the first file from `from` on at which the look-up halts, or
/// the number of files where it halts at none.
pub open spec fn scan_stop(files: Seq<SessionFileView>, ttyname: Seq<char>, now: int, from: int) -> int
    decreases files.len() - from,
{
    if from < 0 || from >= files.len() {
        files.len() as int
    } else if files[from].halts(ttyname, now) {
        from
    } else {
        scan_stop(files, ttyname, now, from + 1)
    }
}

/// Whether a session vouches for the user on `ttyname` at `now`: the files
/// are taken in their order, spent ones are passed over, and the first file
/// that holds a live session for this terminal settles it. A file that
/// cannot be read before that is an error and no reason to look further.
pub open spec fn scan_outcome(files: Seq<SessionFileView>, ttyname: Seq<char>, now: int) -> Result<
    bool,
    SessionError,
> {
    let stop = scan_stop(files, ttyname, now, 0);
    if stop >= files.len() {
        Ok(false)
    } else if files[stop].record is None {
        Err(SessionError::Malformed)
    } else {
        Ok(true)
    }
}

/// The indices below `upto` of the files whose session is spent, in rising order.
pub open spec fn spent_before(files: Seq<SessionFileView>, now: int, upto: int) -> Seq<usize>
    decreases upto,
{
    if upto <= 0 {
        Seq::empty()
    } else if files[upto - 1].spent(now) {
        spent_before(files, now, upto - 1).push((upto - 1) as usize)
    } else {
        spent_before(files, now, upto - 1)
    }
}

/// The files that a look-up deletes: the spent ones that it passes on its way.
pub open spec fn scan_expired(files: Seq<SessionFileView>, ttyname: Seq<char>, now: int) -> Seq<
    usize,
> {
    spent_before(files, now, scan_stop(files, ttyname, now, 0))
}

/// What a look-up in a user's subdirectory comes to.
#[derive(Debug, PartialEq, Eq)]
pub struct SessionScan {
    /// Whether a live session for the terminal was found.
    pub valid: Result<bool, SessionError>,
    /// The indices of the files to delete, in rising order.
    pub expired: Vec<usize>,
}

impl SessionScan {
    /// Whether this is what a look-up at `now` comes to.
    pub open spec fn is_scan_of(&self, files: Seq<SessionFileView>, ttyname: Seq<char>, now: int) -> bool {
        &&& self.valid == scan_outcome(files, ttyname, now)
        &&& self.expired@ == scan_expired(files, ttyname, now)
    }
}

/// Looks for a live session for `ttyname` among the files of a user's
/// subdirectory, as they stand at `now`.
pub fn find_user_session(files: &Vec<SessionFile>, ttyname: &str, now: i64) -> (scan: SessionScan)
    ensures
        scan.is_scan_of(files.deep_view(), ttyname@, now as int),
{
    let ghost views = files.deep_view();
    let mut expired: Vec<usize> = Vec::new();
    let mut i: usize = 0;
    while i < files.len()
        invariant
            i <= files.len(),
            views == files.deep_view(),
            views.len() == files.len(),
            scan_stop(views, ttyname@, now as int, 0) == scan_stop(views, ttyname@, now as int, i as int),
            expired@ == spent_before(views, now as int, i as int),
        decreases files.len() - i,
    {
        assert(views[i as int] == files[i as int]@);
        match &files[i].record {
            None => {
                return SessionScan { valid: Err(SessionError::Malformed), expired };
            },
            Some(session) => {
                if session.is_expired(now) {
                    expired.push(i);
                } else if str_eq(session.ttyname.as_str(), ttyname) {
                    return SessionScan { valid: Ok(true), expired };
                }
            },
        }
        i += 1;
    }
    SessionScan { valid: Ok(false), expired }
}

/// The current time in seconds since the epoch, as `time::get_time` reads it
/// from the system clock. Nothing is claimed of the value.
#[verifier::external_body]
fn current_timestamp() -> i64 {
    time::get_time().sec
}

/// Looks for a live session for `ttyname` among the files of a user's
/// subdirectory, as they stand now. The clock is read once, and the answer
/// is that of `find_user_session` at the moment read.
pub fn check_session(files: &Vec<SessionFile>, ttyname: &str) -> (scan: SessionScan)
    ensures
        exists|now: i64| #[trigger] scan.is_scan_of(files.deep_view(), ttyname@, now as int),
{
    let now = current_timestamp();
    find_user_session(files, ttyname, now)
}

/// The decimal digit for a number below ten.
pub open spec fn digit(value: nat) -> char {
    if value == 0 {
        '0'
    } else if value == 1 {
        '1'
    } else if value == 2 {
        '2'
    } else if value == 3 {
        '3'
    } else if value == 4 {
        '4'
    } else if value == 5 {
        '5'
    } else if value == 6 {
        '6'
    } else if value == 7 {
        '7'
    } else if value == 8 {
        '8'
    } else {
        '9'
    }
}

/// A number written in decimal digits, without sign or leading zeros: the
/// name of the file that holds the session with this number.
pub open spec fn decimal(value: nat) -> Seq<char>
    decreases value,
{
    if value < 10 {
        seq![digit(value)]
    } else {
        decimal(value / 10).push(digit(value % 10))
    }
}

/// Different numbers are written differently.
pub proof fn lemma_decimal_injective(a: nat, b: nat)
    requires
        decimal(a) == decimal(b),
    ensures
        a == b,
    decreases a,
{
    lemma_decimal_len(a / 10);
    lemma_decimal_len(b / 10);
    if a >= 10 && b >= 10 {
        let x = decimal(a / 10);
        let y = decimal(b / 10);
        assert(x.push(digit(a % 10)).last() == digit(a % 10));
        assert(y.push(digit(b % 10)).last() == digit(b % 10));
        assert(x.push(digit(a % 10)).drop_last() =~= x);
        assert(y.push(digit(b % 10)).drop_last() =~= y);
        lemma_decimal_injective(a / 10, b / 10);
        assert(a % 10 == b % 10);
    } else if a < 10 && b < 10 {
        assert(seq![digit(a)][0] == seq![digit(b)][0]);
    } else if a >= 10 {
        assert(decimal(a).len() >= 2);
        assert(decimal(b).len() == 1);
    } else {
        assert(decimal(b).len() >= 2);
        assert(decimal(a).len() == 1);
    }
}

proof fn lemma_decimal_len(value: nat)
    ensures
        decimal(value).len() >= 1,
    decreases value,
{
    if value >= 10 {
        lemma_decimal_len(value / 10);
    }
}

fn digit_text(value: usize) -> (text: &'static str)
    requires
        value < 10,
    ensures
        text@ == seq![digit(value as nat)],
{
    proof {
        reveal_strlit("0");
        reveal_strlit("1");
        reveal_strlit("2");
        reveal_strlit("3");
        reveal_strlit("4");
        reveal_strlit("5");
        reveal_strlit("6");
        reveal_strlit("7");
        reveal_strlit("8");
        reveal_strlit("9");
    }
    let text = if value == 0 {
        "0"
    } else if value == 1 {
        "1"
    } else if value == 2 {
        "2"
    } else if value == 3 {
        "3"
    } else if value == 4 {
        "4"
    } else if value == 5 {
        "5"
    } else if value == 6 {
        "6"
    } else if value == 7 {
        "7"
    } else if value == 8 {
        "8"
    } else {
        "9"
    };
    assert(text@ =~= seq![digit(value as nat)]);
    text
}

/// The name of the file that holds the session with this number.
pub fn decimal_name(value: usize) -> (name: String)
    ensures
        name@ == decimal(value as nat),
    decreases value,
{
    if value < 10 {
        String::from_str(digit_text(value))
    } else {
        let mut name = decimal_name(value / 10);
        name.append(digit_text(value % 10));
        assert(name@ =~= decimal((value / 10) as nat).push(digit((value % 10) as nat)));
        name
    }
}

/// Whether `index` is the number under which the next session goes: the
/// smallest one whose name no file bears yet.
pub open spec fn is_first_free(names: Seq<Seq<char>>, index: nat) -> bool {
    &&& !names.contains(decimal(index))
    &&& forall|below: nat| below < index ==> names.contains(#[trigger] decimal(below))
}

// Names that cover the first `count` numbers are at least `count` in number.
proof fn lemma_taken_names_bound(names: Seq<Seq<char>>, count: nat)
    requires
        forall|below: nat| below < count ==> names.contains(#[trigger] decimal(below)),
    ensures
        count <= names.len(),
{
    let numbers = set_int_range(0, count as int);
    let write = |number: int| decimal(number as nat);
    let written = numbers.map(write);
    lemma_int_range(0, count as int);
    assert(injective_on(write, numbers)) by {
        assert forall|a: int, b: int|
            numbers.contains(a) && numbers.contains(b) && #[trigger] write(a) == #[trigger] write(
                b,
            ) implies a == b by {
            lemma_decimal_injective(a as nat, b as nat);
        }
    }
    lemma_map_size(numbers, written, write);
    assert(written.subset_of(names.to_set())) by {
        assert forall|name: Seq<char>| written.contains(name) implies names.to_set().contains(
            name,
        ) by {
            let number = choose|number: int| numbers.contains(number) && write(number) == name;
            assert(names.contains(decimal(number as nat)));
        }
    }
    seq_to_set_is_finite(names);
    lemma_len_subset(written, names.to_set());
    names.lemma_cardinality_of_set();
}

fn name_taken(names: &Vec<String>, name: &String) -> (taken: bool)
    ensures
        taken == names.deep_view().contains(name@),
{
    let mut i: usize = 0;
    while i < names.len()
        invariant
            i <= names.len(),
            forall|j: int| 0 <= j < i ==> names.deep_view()[j] != name@,
        decreases names.len() - i,
    {
        assert(names.deep_view()[i as int] == names[i as int]@);
        if str_eq(names[i].as_str(), name.as_str()) {
            return true;
        }
        i += 1;
    }
    false
}

/// The number under which the next session goes, given the names of the
/// files that the user's subdirectory holds.
pub fn first_free_index(names: &Vec<String>) -> (index: usize)
    ensures
        is_first_free(names.deep_view(), index as nat),
        index <= names.len(),
{
    let mut index: usize = 0;
    loop
        invariant
            index <= names.len(),
            forall|below: nat| below < index ==> names.deep_view().contains(#[trigger] decimal(below)),
        decreases names.len() - index,
    {
        let name = decimal_name(index);
        if !name_taken(names, &name) {
            return index;
        }
        proof {
            lemma_taken_names_bound(names.deep_view(), (index + 1) as nat);
        }
        index += 1;
    }
}

/// A session that is to be written to the store, and the name of its file.
#[derive(Debug, PartialEq, Eq)]
pub struct NewSession {
    pub name: String,
    pub session: Session,
}

/// Whether `planned` is what planning a session comes to at `now`: the
/// session that begins at `now` on `ttyname` and lasts `time` seconds, under
/// the smallest number that names no file of `names` yet; or an error, where
/// the moment at which it would end cannot be written.
pub open spec fn is_plan_of(
    planned: Result<NewSession, SessionError>,
    names: Seq<Seq<char>>,
    ttyname: Seq<char>,
    now: int,
    time: int,
) -> bool {
    match planned {
        Ok(new) => {
            &&& new.session@ == (SessionView {
                ttyname,
                start_timestamp: now,
                end_timestamp: now + time,
            })
            &&& exists|index: nat| #[trigger] is_first_free(names, index) && new.name@ == decimal(index)
        },
        Err(error) => error == SessionError::TimestampOverflow && !(i64::MIN <= now + time
            <= i64::MAX),
    }
}

/// Plans the session that begins at `now` on `ttyname` and lasts `time`
/// seconds, given the names of the files that the user's subdirectory holds.
pub fn plan_session(names: &Vec<String>, ttyname: &str, now: i64, time: i64) -> (planned: Result<
    NewSession,
    SessionError,
>)
    ensures
        is_plan_of(planned, names.deep_view(), ttyname@, now as int, time as int),
{
    match Session::new(String::from_str(ttyname), now, time) {
        Ok(session) => {
            let index = first_free_index(names);
            Ok(NewSession { name: decimal_name(index), session })
        },
        Err(error) => Err(error),
    }
}

/// Plans the session that begins now on `ttyname` and lasts `time` seconds,
/// given the names of the files that the user's subdirectory holds. The
/// clock is read once, and the answer is that of `plan_session` at the
/// moment read.
pub fn create_session(names: &Vec<String>, ttyname: &str, time: i64) -> (planned: Result<
    NewSession,
    SessionError,
>)
    ensures
        exists|now: i64| #[trigger]
            is_plan_of(planned, names.deep_view(), ttyname@, now as int, time as int),
{
    let now = current_timestamp();
    plan_session(names, ttyname, now, time)
}

} // verus!
