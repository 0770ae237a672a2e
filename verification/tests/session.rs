use rudo::session::{
    check_session, create_session, decimal_name, find_user_session, first_free_index,
    init_session_dir, plan_session, DirAction, NewSession, PathState, Session, SessionError,
    SessionFile, SessionScan, StoragePlan, MODE_MASK, RECORD_MODE, STORE_MODE,
};

fn session(ttyname: &str, start: i64, end: i64) -> Session {
    Session { ttyname: ttyname.to_string(), start_timestamp: start, end_timestamp: end }
}

fn file(name: &str, record: Option<Session>) -> SessionFile {
    SessionFile { name: name.to_string(), record }
}

fn names(list: &[&str]) -> Vec<String> {
    list.iter().map(|name| name.to_string()).collect()
}

#[test]
fn first_use_creates_root_and_user_directory() {
    assert_eq!(
        init_session_dir(PathState::Missing, PathState::Missing),
        Ok(StoragePlan { root: DirAction::Create, user_dir: DirAction::Create })
    );
}

#[test]
fn new_user_gets_a_directory_in_an_existing_store() {
    assert_eq!(
        init_session_dir(PathState::Directory { mode: 0o40700 }, PathState::Missing),
        Ok(StoragePlan { root: DirAction::Keep, user_dir: DirAction::Create })
    );
}

#[test]
fn owner_only_directories_are_kept() {
    assert_eq!(
        init_session_dir(
            PathState::Directory { mode: 0o40700 },
            PathState::Directory { mode: 0o700 }
        ),
        Ok(StoragePlan { root: DirAction::Keep, user_dir: DirAction::Keep })
    );
}

#[test]
fn drifted_permissions_are_repaired_at_both_levels() {
    assert_eq!(
        init_session_dir(
            PathState::Directory { mode: 0o40755 },
            PathState::Directory { mode: 0o40600 }
        ),
        Ok(StoragePlan { root: DirAction::Repair, user_dir: DirAction::Repair })
    );
    assert_eq!(
        init_session_dir(
            PathState::Directory { mode: 0o40700 },
            PathState::Directory { mode: 0o41700 }
        ),
        Ok(StoragePlan { root: DirAction::Keep, user_dir: DirAction::Repair })
    );
    assert_eq!(
        init_session_dir(PathState::Directory { mode: 0 }, PathState::Directory { mode: 0o777 }),
        Ok(StoragePlan { root: DirAction::Repair, user_dir: DirAction::Repair })
    );
}

#[test]
fn something_else_in_place_of_a_directory_is_fatal() {
    assert_eq!(
        init_session_dir(PathState::NotDirectory, PathState::Missing),
        Err(SessionError::NotADirectory)
    );
    assert_eq!(
        init_session_dir(PathState::Directory { mode: 0o40700 }, PathState::NotDirectory),
        Err(SessionError::NotADirectory)
    );
    assert_eq!(
        init_session_dir(PathState::NotDirectory, PathState::NotDirectory),
        Err(SessionError::NotADirectory)
    );
}

#[test]
fn store_mode_is_all_for_the_owner_and_nothing_else() {
    assert_eq!(STORE_MODE, 0o700);
    assert_eq!(RECORD_MODE, 0o600);
    assert_eq!(MODE_MASK, 0o7777);
}

#[test]
fn session_ends_after_its_lifetime() {
    assert_eq!(
        Session::new("/dev/pts/3".to_string(), 1_000, 60),
        Ok(session("/dev/pts/3", 1_000, 1_060))
    );
    assert_eq!(Session::new(String::new(), -5, 5), Ok(session("", -5, 0)));
    assert_eq!(Session::new("tty1".to_string(), 7, 0), Ok(session("tty1", 7, 7)));
    assert_eq!(Session::new("tty1".to_string(), 7, -8), Ok(session("tty1", 7, -1)));
    assert_eq!(
        Session::new("tty1".to_string(), i64::MAX - 1, 1),
        Ok(session("tty1", i64::MAX - 1, i64::MAX))
    );
}

#[test]
fn session_whose_end_cannot_be_written_is_refused() {
    assert_eq!(
        Session::new("tty1".to_string(), i64::MAX, 1),
        Err(SessionError::TimestampOverflow)
    );
    assert_eq!(
        Session::new("tty1".to_string(), 1, i64::MAX),
        Err(SessionError::TimestampOverflow)
    );
    assert_eq!(
        Session::new("tty1".to_string(), i64::MIN, -1),
        Err(SessionError::TimestampOverflow)
    );
}

#[test]
fn session_is_spent_from_the_moment_it_ends() {
    let s = session("/dev/pts/0", 1_000, 1_060);
    assert!(!s.is_expired(999));
    assert!(!s.is_expired(1_000));
    assert!(!s.is_expired(1_059));
    assert!(s.is_expired(1_060));
    assert!(s.is_expired(1_061));
    assert!(s.is_expired(i64::MAX));
    assert!(!s.is_expired(i64::MIN));
}

#[test]
fn session_round_trip_on_the_same_terminal() {
    let planned = plan_session(&names(&[]), "/dev/pts/0", 1_000, 60).unwrap();
    assert_eq!(planned.name, "0");
    assert_eq!(planned.session, session("/dev/pts/0", 1_000, 1_060));
    let store = vec![SessionFile { name: planned.name, record: Some(planned.session) }];

    for now in [1_000, 1_001, 1_059] {
        assert_eq!(
            find_user_session(&store, "/dev/pts/0", now),
            SessionScan { valid: Ok(true), expired: vec![] }
        );
    }
    for now in [1_060, 1_061, 2_000] {
        assert_eq!(
            find_user_session(&store, "/dev/pts/0", now),
            SessionScan { valid: Ok(false), expired: vec![0] }
        );
    }
}

#[test]
fn session_of_one_terminal_does_not_authorize_another() {
    let store = vec![file("0", Some(session("/dev/pts/0", 1_000, 1_060)))];
    assert_eq!(
        find_user_session(&store, "/dev/pts/1", 1_030),
        SessionScan { valid: Ok(false), expired: vec![] }
    );
    assert_eq!(
        find_user_session(&store, "/dev/pts/0", 1_030),
        SessionScan { valid: Ok(true), expired: vec![] }
    );
}

#[test]
fn empty_store_holds_no_session() {
    assert_eq!(
        find_user_session(&vec![], "/dev/pts/0", 0),
        SessionScan { valid: Ok(false), expired: vec![] }
    );
}

#[test]
fn spent_records_on_the_way_are_listed_for_deletion() {
    let store = vec![
        file("0", Some(session("/dev/pts/0", 100, 200))),
        file("1", Some(session("/dev/pts/1", 900, 2_000))),
        file("2", Some(session("/dev/pts/1", 100, 1_000))),
        file("3", Some(session("/dev/pts/0", 900, 2_000))),
        file("4", Some(session("/dev/pts/0", 100, 200))),
    ];
    assert_eq!(
        find_user_session(&store, "/dev/pts/0", 1_000),
        SessionScan { valid: Ok(true), expired: vec![0, 2] }
    );
    assert_eq!(
        find_user_session(&store, "/dev/pts/2", 1_000),
        SessionScan { valid: Ok(false), expired: vec![0, 2, 4] }
    );
    assert_eq!(
        find_user_session(&store, "/dev/pts/1", 1_000),
        SessionScan { valid: Ok(true), expired: vec![0] }
    );
    assert_eq!(
        find_user_session(&store, "/dev/pts/0", 5_000),
        SessionScan { valid: Ok(false), expired: vec![0, 1, 2, 3, 4] }
    );
}

#[test]
fn spent_session_of_the_terminal_is_deleted_not_honoured() {
    let store = vec![
        file("0", Some(session("/dev/pts/0", 100, 200))),
        file("1", Some(session("/dev/pts/0", 900, 2_000))),
    ];
    assert_eq!(
        find_user_session(&store, "/dev/pts/0", 1_000),
        SessionScan { valid: Ok(true), expired: vec![0] }
    );
}

#[test]
fn malformed_record_is_a_hard_error() {
    let store = vec![
        file("0", Some(session("/dev/pts/0", 100, 200))),
        file("1", None),
        file("2", Some(session("/dev/pts/0", 900, 2_000))),
    ];
    assert_eq!(
        find_user_session(&store, "/dev/pts/0", 1_000),
        SessionScan { valid: Err(SessionError::Malformed), expired: vec![0] }
    );
    assert_eq!(
        find_user_session(&vec![file("junk", None)], "/dev/pts/0", 1_000),
        SessionScan { valid: Err(SessionError::Malformed), expired: vec![] }
    );
}

#[test]
fn look_up_stops_at_the_first_live_session() {
    let store = vec![
        file("0", Some(session("/dev/pts/0", 900, 2_000))),
        file("1", None),
        file("2", Some(session("/dev/pts/0", 100, 200))),
    ];
    assert_eq!(
        find_user_session(&store, "/dev/pts/0", 1_000),
        SessionScan { valid: Ok(true), expired: vec![] }
    );
}

#[test]
fn numbers_are_written_in_decimal() {
    assert_eq!(decimal_name(0), "0");
    assert_eq!(decimal_name(7), "7");
    assert_eq!(decimal_name(9), "9");
    assert_eq!(decimal_name(10), "10");
    assert_eq!(decimal_name(11), "11");
    assert_eq!(decimal_name(99), "99");
    assert_eq!(decimal_name(100), "100");
    assert_eq!(decimal_name(1_234_567_890), "1234567890");
    assert_eq!(decimal_name(usize::MAX), usize::MAX.to_string());
    for value in 0..2_000usize {
        assert_eq!(decimal_name(value), value.to_string());
    }
}

#[test]
fn new_session_takes_the_smallest_free_number() {
    assert_eq!(first_free_index(&names(&[])), 0);
    assert_eq!(first_free_index(&names(&["0"])), 1);
    assert_eq!(first_free_index(&names(&["1"])), 0);
    assert_eq!(first_free_index(&names(&["0", "1", "3"])), 2);
    assert_eq!(first_free_index(&names(&["3", "1", "0", "2"])), 4);
    assert_eq!(first_free_index(&names(&["0", "0", "0"])), 1);
    assert_eq!(first_free_index(&names(&["0", "1", "2", "3", "4", "5", "6", "7", "8", "9"])), 10);
    assert_eq!(
        first_free_index(&names(&["0", "1", "2", "3", "4", "5", "6", "7", "8", "9", "10", "12"])),
        11
    );
}

#[test]
fn only_the_exact_decimal_name_takes_a_number() {
    assert_eq!(first_free_index(&names(&["00", "01", " 0", "0 ", "+0", "zero", ""])), 0);
    assert_eq!(first_free_index(&names(&["0", "01", "1.json", "٢"])), 1);
}

#[test]
fn planned_session_carries_terminal_times_and_name() {
    assert_eq!(
        plan_session(&names(&["0", "2"]), "/dev/tty1", 50, 900),
        Ok(NewSession { name: "1".to_string(), session: session("/dev/tty1", 50, 950) })
    );
    assert_eq!(
        plan_session(&names(&["0", "2"]), "/dev/tty1", i64::MAX, 900),
        Err(SessionError::TimestampOverflow)
    );
}

#[test]
fn created_session_starts_now_and_lasts_as_long_as_asked() {
    let before = time::get_time().sec;
    let created = create_session(&names(&["0", "1"]), "/dev/pts/5", 60).unwrap();
    let after = time::get_time().sec;
    assert_eq!(created.name, "2");
    assert_eq!(created.session.ttyname, "/dev/pts/5");
    assert!(before <= created.session.start_timestamp);
    assert!(created.session.start_timestamp <= after);
    assert_eq!(created.session.end_timestamp, created.session.start_timestamp + 60);
    assert!(created.session.start_timestamp > 1_600_000_000);
}

#[test]
fn created_session_that_would_never_end_is_refused() {
    assert_eq!(
        create_session(&names(&[]), "/dev/pts/5", i64::MAX),
        Err(SessionError::TimestampOverflow)
    );
}

#[test]
fn check_session_goes_by_the_clock() {
    let now = time::get_time().sec;
    let store = vec![
        file("0", Some(session("/dev/pts/0", 0, 60))),
        file("1", Some(session("/dev/pts/0", now - 10, now + 3_600))),
    ];
    assert_eq!(
        check_session(&store, "/dev/pts/0"),
        SessionScan { valid: Ok(true), expired: vec![0] }
    );
    assert_eq!(
        check_session(&store, "/dev/pts/1"),
        SessionScan { valid: Ok(false), expired: vec![0] }
    );
    let spent = vec![file("0", Some(session("/dev/pts/0", now - 120, now - 60)))];
    assert_eq!(
        check_session(&spent, "/dev/pts/0"),
        SessionScan { valid: Ok(false), expired: vec![0] }
    );
}

#[test]
fn created_session_is_found_by_the_next_check() {
    let created = create_session(&names(&[]), "/dev/pts/9", 60).unwrap();
    let store = vec![SessionFile { name: created.name, record: Some(created.session) }];
    assert_eq!(
        check_session(&store, "/dev/pts/9"),
        SessionScan { valid: Ok(true), expired: vec![] }
    );
    assert_eq!(
        check_session(&store, "/dev/pts/8"),
        SessionScan { valid: Ok(false), expired: vec![] }
    );
}
