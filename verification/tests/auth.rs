use rudo::auth::pam::{PamAuthFramework, PAM_MAXTRIES, PAM_NAME};
use rudo::auth::touchid::{TouchIDAuthFramework, TOUCHID_MAX_TRIES, TOUCHID_NAME};
use rudo::auth::{
    effective_tries, framework_order, get_username, AuthAction, AuthEvent, AuthFramework,
    AuthOutcome, AuthState, FrameworkKind, Orchestrator,
};
use rudo::osutils::unix::UnixOSUtils;
use rudo::osutils::{OSUtils, OsError};
use rudo::settings::Settings;

/// An operating system that answers as it is told to.
struct Scripted {
    username: Result<&'static str, OsError>,
    uid: Result<u32, OsError>,
}

impl OSUtils for Scripted {
    fn get_username(&self) -> Result<String, OsError> {
        self.username.map(String::from)
    }

    fn get_uidgid_by_username(&self, _username: &str) -> Result<(u32, u32), OsError> {
        Err(OsError::UnknownUser)
    }

    fn get_gid_by_groupname(&self, _groupname: &str) -> Result<u32, OsError> {
        Err(OsError::UnknownGroup)
    }

    fn get_current_uid(&self) -> Result<u32, OsError> {
        self.uid
    }
}

struct Fixed {
    tries: i32,
}

impl AuthFramework for Fixed {
    fn get_max_tries(&self) -> i32 {
        self.tries
    }

    fn get_name(&self) -> &'static str {
        "fixed"
    }
}

fn orchestrator(max_tries: &[i32], requested: i32, timeout: i64) -> Orchestrator {
    let mut o = Orchestrator::new(requested, timeout);
    for tries in max_tries {
        o.add_framework(&Fixed { tries: *tries });
    }
    o
}

/// Drives the machine: every attempt is answered by the next of `answers`,
/// and by `Rejected` when they run out; the session store says `session`.
fn drive(o: &Orchestrator, session: AuthEvent, answers: &[AuthEvent]) -> Vec<AuthAction> {
    let (mut state, mut action) = o.begin();
    let mut actions = vec![action];
    let mut next_answer = 0;
    for _ in 0..10_000 {
        let event = match action {
            AuthAction::CheckSession => session,
            AuthAction::Attempt { .. } => {
                let answer = answers.get(next_answer).copied().unwrap_or(AuthEvent::Rejected);
                next_answer += 1;
                answer
            }
            AuthAction::WarnRetry | AuthAction::WarnFailed { .. } => AuthEvent::Done,
            AuthAction::CreateSession { .. } => AuthEvent::Done,
            AuthAction::Finish(_) => return actions,
        };
        let next = o.step(state, event);
        state = next.0;
        action = next.1;
        actions.push(action);
    }
    panic!("the machine did not finish");
}

fn attempts(actions: &[AuthAction], framework: usize) -> usize {
    actions.iter().filter(|a| **a == AuthAction::Attempt { framework }).count()
}

#[test]
fn effective_tries_takes_the_request_where_the_framework_sets_no_ceiling() {
    assert_eq!(effective_tries(0, 5), 5);
    assert_eq!(effective_tries(0, 1), 1);
    assert_eq!(effective_tries(0, 0), 0);
    assert_eq!(effective_tries(0, -2), -2);
}

#[test]
fn effective_tries_takes_the_smaller_of_ceiling_and_request() {
    assert_eq!(effective_tries(3, 5), 3);
    assert_eq!(effective_tries(5, 3), 3);
    assert_eq!(effective_tries(4, 4), 4);
    assert_eq!(effective_tries(1, i32::MAX), 1);
    assert_eq!(effective_tries(i32::MAX, 2), 2);
    assert_eq!(effective_tries(-1, 5), -1);
    assert_eq!(effective_tries(i32::MIN, i32::MAX), i32::MIN);
}

#[test]
fn framework_with_ceiling_three_is_tried_three_times_of_five() {
    let o = orchestrator(&[3], 5, 60);
    let actions = drive(&o, AuthEvent::NoSession, &[]);
    assert_eq!(attempts(&actions, 0), 3);
    assert_eq!(
        actions,
        vec![
            AuthAction::CheckSession,
            AuthAction::Attempt { framework: 0 },
            AuthAction::WarnRetry,
            AuthAction::Attempt { framework: 0 },
            AuthAction::WarnRetry,
            AuthAction::Attempt { framework: 0 },
            AuthAction::WarnFailed { framework: 0 },
            AuthAction::Finish(AuthOutcome::Denied),
        ]
    );
}

#[test]
fn framework_without_ceiling_is_tried_five_times_of_five() {
    let o = orchestrator(&[0], 5, 60);
    let actions = drive(&o, AuthEvent::NoSession, &[]);
    assert_eq!(attempts(&actions, 0), 5);
    assert_eq!(actions.last(), Some(&AuthAction::Finish(AuthOutcome::Denied)));
    assert_eq!(actions.iter().filter(|a| **a == AuthAction::WarnRetry).count(), 4);
    assert_eq!(
        actions.iter().filter(|a| **a == AuthAction::WarnFailed { framework: 0 }).count(),
        1
    );
}

#[test]
fn no_try_again_notice_follows_the_last_failed_attempt() {
    let o = orchestrator(&[0], 2, 60);
    let actions = drive(&o, AuthEvent::NoSession, &[]);
    assert_eq!(
        actions,
        vec![
            AuthAction::CheckSession,
            AuthAction::Attempt { framework: 0 },
            AuthAction::WarnRetry,
            AuthAction::Attempt { framework: 0 },
            AuthAction::WarnFailed { framework: 0 },
            AuthAction::Finish(AuthOutcome::Denied),
        ]
    );
}

#[test]
fn live_session_authorizes_without_any_attempt() {
    let o = orchestrator(&[1, 0], 3, 60);
    let actions = drive(&o, AuthEvent::SessionFound, &[AuthEvent::Accepted]);
    assert_eq!(
        actions,
        vec![AuthAction::CheckSession, AuthAction::Finish(AuthOutcome::Authorized)]
    );
}

#[test]
fn frameworks_are_tried_in_order_each_within_its_budget() {
    let o = orchestrator(&[1, 0], 3, 60);
    let actions = drive(&o, AuthEvent::NoSession, &[]);
    assert_eq!(
        actions,
        vec![
            AuthAction::CheckSession,
            AuthAction::Attempt { framework: 0 },
            AuthAction::WarnFailed { framework: 0 },
            AuthAction::Attempt { framework: 1 },
            AuthAction::WarnRetry,
            AuthAction::Attempt { framework: 1 },
            AuthAction::WarnRetry,
            AuthAction::Attempt { framework: 1 },
            AuthAction::WarnFailed { framework: 1 },
            AuthAction::Finish(AuthOutcome::Denied),
        ]
    );
}

#[test]
fn first_success_skips_the_remaining_frameworks_and_records_a_session() {
    let o = orchestrator(&[1, 0], 3, 900);
    let actions = drive(&o, AuthEvent::NoSession, &[AuthEvent::Accepted]);
    assert_eq!(
        actions,
        vec![
            AuthAction::CheckSession,
            AuthAction::Attempt { framework: 0 },
            AuthAction::CreateSession { timeout: 900 },
            AuthAction::Finish(AuthOutcome::Authorized),
        ]
    );
}

#[test]
fn success_on_a_later_try_stops_the_retries() {
    let o = orchestrator(&[0], 3, 900);
    let actions = drive(&o, AuthEvent::NoSession, &[AuthEvent::Rejected, AuthEvent::Accepted]);
    assert_eq!(
        actions,
        vec![
            AuthAction::CheckSession,
            AuthAction::Attempt { framework: 0 },
            AuthAction::WarnRetry,
            AuthAction::Attempt { framework: 0 },
            AuthAction::CreateSession { timeout: 900 },
            AuthAction::Finish(AuthOutcome::Authorized),
        ]
    );
}

#[test]
fn no_session_is_recorded_where_the_timeout_is_zero_or_less() {
    for timeout in [0, -1, i64::MIN] {
        let o = orchestrator(&[0], 3, timeout);
        let actions = drive(&o, AuthEvent::NoSession, &[AuthEvent::Accepted]);
        assert_eq!(
            actions,
            vec![
                AuthAction::CheckSession,
                AuthAction::Attempt { framework: 0 },
                AuthAction::Finish(AuthOutcome::Authorized),
            ]
        );
    }
}

#[test]
fn hard_error_of_an_attempt_aborts_the_authentication() {
    let o = orchestrator(&[0, 0], 3, 60);
    let actions = drive(&o, AuthEvent::NoSession, &[AuthEvent::Rejected, AuthEvent::Failed]);
    assert_eq!(
        actions,
        vec![
            AuthAction::CheckSession,
            AuthAction::Attempt { framework: 0 },
            AuthAction::WarnRetry,
            AuthAction::Attempt { framework: 0 },
            AuthAction::Finish(AuthOutcome::Error),
        ]
    );
}

#[test]
fn failure_of_the_session_store_is_an_error() {
    let o = orchestrator(&[0], 3, 60);
    let (state, _) = o.begin();
    assert_eq!(
        o.step(state, AuthEvent::Failed),
        (AuthState::Finished(AuthOutcome::Error), AuthAction::Finish(AuthOutcome::Error))
    );
    assert_eq!(
        o.step(AuthState::CreatingSession, AuthEvent::Failed),
        (AuthState::Finished(AuthOutcome::Error), AuthAction::Finish(AuthOutcome::Error))
    );
}

#[test]
fn no_framework_means_denied() {
    let o = orchestrator(&[], 3, 60);
    let actions = drive(&o, AuthEvent::NoSession, &[]);
    assert_eq!(actions, vec![AuthAction::CheckSession, AuthAction::Finish(AuthOutcome::Denied)]);
}

#[test]
fn no_requested_tries_means_no_attempt() {
    for requested in [0, -1] {
        let o = orchestrator(&[1, 0], requested, 60);
        let actions = drive(&o, AuthEvent::NoSession, &[AuthEvent::Accepted]);
        assert_eq!(
            actions,
            vec![
                AuthAction::CheckSession,
                AuthAction::WarnFailed { framework: 0 },
                AuthAction::WarnFailed { framework: 1 },
                AuthAction::Finish(AuthOutcome::Denied),
            ]
        );
    }
}

#[test]
fn event_that_is_not_awaited_ends_in_error() {
    let o = orchestrator(&[0], 3, 60);
    let error = (AuthState::Finished(AuthOutcome::Error), AuthAction::Finish(AuthOutcome::Error));
    assert_eq!(o.step(AuthState::CheckingSession, AuthEvent::Accepted), error);
    assert_eq!(o.step(AuthState::CheckingSession, AuthEvent::Done), error);
    assert_eq!(o.step(AuthState::Attempting { framework: 0, made: 0 }, AuthEvent::SessionFound), error);
    assert_eq!(o.step(AuthState::Retrying { framework: 0, made: 1 }, AuthEvent::Accepted), error);
    assert_eq!(o.step(AuthState::GivingUp { framework: 0 }, AuthEvent::Rejected), error);
    assert_eq!(o.step(AuthState::CreatingSession, AuthEvent::Accepted), error);
}

#[test]
fn finished_machine_stays_finished() {
    let o = orchestrator(&[0], 3, 60);
    for outcome in [AuthOutcome::Authorized, AuthOutcome::Denied, AuthOutcome::Error] {
        for event in [
            AuthEvent::SessionFound,
            AuthEvent::NoSession,
            AuthEvent::Accepted,
            AuthEvent::Rejected,
            AuthEvent::Done,
            AuthEvent::Failed,
        ] {
            assert_eq!(
                o.step(AuthState::Finished(outcome), event),
                (AuthState::Finished(outcome), AuthAction::Finish(outcome))
            );
        }
    }
}

#[test]
fn state_outside_the_frameworks_is_handled() {
    let o = orchestrator(&[2], 5, 60);
    assert_eq!(
        o.step(AuthState::GivingUp { framework: usize::MAX }, AuthEvent::Done),
        (AuthState::Finished(AuthOutcome::Denied), AuthAction::Finish(AuthOutcome::Denied))
    );
    assert_eq!(
        o.step(AuthState::Retrying { framework: 7, made: 0 }, AuthEvent::Done),
        (AuthState::Finished(AuthOutcome::Denied), AuthAction::Finish(AuthOutcome::Denied))
    );
    assert_eq!(
        o.step(AuthState::Attempting { framework: 7, made: i32::MAX }, AuthEvent::Rejected),
        (AuthState::GivingUp { framework: 7 }, AuthAction::WarnFailed { framework: 7 })
    );
    assert_eq!(
        o.step(AuthState::Attempting { framework: 0, made: i32::MAX }, AuthEvent::Rejected),
        (AuthState::GivingUp { framework: 0 }, AuthAction::WarnFailed { framework: 0 })
    );
    assert_eq!(
        o.step(AuthState::Retrying { framework: 0, made: 2 }, AuthEvent::Done),
        (AuthState::GivingUp { framework: 0 }, AuthAction::WarnFailed { framework: 0 })
    );
}

#[test]
fn orchestrator_keeps_what_it_is_given() {
    let o = orchestrator(&[1, 0, 4], 3, 900);
    assert_eq!(o.max_tries, vec![1, 0, 4]);
    assert_eq!(o.requested_tries, 3);
    assert_eq!(o.session_timeout_sec, 900);
    assert_eq!(o.begin(), (AuthState::CheckingSession, AuthAction::CheckSession));
    assert_eq!(Orchestrator::new(3, 900).max_tries, Vec::<i32>::new());
    let mut by_hand = Orchestrator::new(3, 900);
    by_hand.add_max_tries(1);
    by_hand.add_max_tries(0);
    by_hand.add_max_tries(4);
    assert_eq!(by_hand, o);
}

#[test]
fn password_framework_leaves_the_budget_to_the_caller() {
    let osutils = UnixOSUtils::new();
    let settings = Settings::new();
    let pam = PamAuthFramework::new(&osutils, &settings);
    assert_eq!(pam.get_max_tries(), 0);
    assert_eq!(PAM_MAXTRIES, 0);
    assert_eq!(pam.get_name(), "PAM");
    assert_eq!(PAM_NAME, "PAM");
    assert_eq!(pam.prompt(), "Password: ");
    assert_eq!(pam.username(), osutils.get_username());
}

#[test]
fn fingerprint_framework_is_tried_once() {
    let osutils = UnixOSUtils::new();
    let settings = Settings::new();
    let touchid = TouchIDAuthFramework::new(&osutils, &settings);
    assert_eq!(touchid.get_max_tries(), 1);
    assert_eq!(TOUCHID_MAX_TRIES, 1);
    assert_eq!(touchid.get_name(), "TouchID");
    assert_eq!(TOUCHID_NAME, "TouchID");
    assert_eq!(touchid.caller_uid(), osutils.get_current_uid());
}

#[test]
fn frameworks_pass_on_what_their_operating_system_answers() {
    let settings = Settings::new();
    let alice = Scripted { username: Ok("alice"), uid: Ok(1000) };
    assert_eq!(PamAuthFramework::new(&alice, &settings).username(), Ok("alice".to_string()));
    assert_eq!(TouchIDAuthFramework::new(&alice, &settings).caller_uid(), Ok(1000));
    let bob = Scripted { username: Ok("bob"), uid: Ok(0) };
    assert_eq!(PamAuthFramework::new(&bob, &settings).username(), Ok("bob".to_string()));
    assert_eq!(TouchIDAuthFramework::new(&bob, &settings).caller_uid(), Ok(0));
    let nobody =
        Scripted { username: Err(OsError::NoCurrentUser), uid: Err(OsError::UnknownUser) };
    assert_eq!(PamAuthFramework::new(&nobody, &settings).username(), Err(OsError::NoCurrentUser));
    assert_eq!(TouchIDAuthFramework::new(&nobody, &settings).caller_uid(), Err(OsError::UnknownUser));
}

#[test]
fn frameworks_at_hand_are_ordered_fingerprint_first() {
    assert_eq!(
        framework_order(true, true),
        vec![FrameworkKind::Biometric, FrameworkKind::Password]
    );
    assert_eq!(framework_order(false, true), vec![FrameworkKind::Password]);
    assert_eq!(framework_order(true, false), vec![FrameworkKind::Biometric]);
    assert_eq!(framework_order(false, false), vec![]);
}

#[test]
fn machine_finishes_within_the_actions_its_frameworks_take_up() {
    // Attempts, the notices between them and the notice of failure: 2 * 3 for
    // the first framework, 2 * 5 for the second.
    let o = orchestrator(&[3, 0], 5, 60);
    let actions = drive(&o, AuthEvent::NoSession, &[]);
    assert_eq!(actions.len(), 1 + 6 + 10 + 1);
    let mut answers = vec![AuthEvent::Rejected; 7];
    answers.push(AuthEvent::Accepted);
    let actions = drive(&o, AuthEvent::NoSession, &answers);
    assert_eq!(actions.len(), 1 + 6 + 10 + 1);
    assert_eq!(actions[actions.len() - 2], AuthAction::CreateSession { timeout: 60 });
}

#[test]
fn fingerprint_comes_before_password() {
    let osutils = UnixOSUtils::new();
    let settings = Settings::new();
    let mut o = Orchestrator::new(3, settings.session_timeout_sec);
    for kind in framework_order(true, true) {
        match kind {
            FrameworkKind::Biometric => {
                o.add_framework(&TouchIDAuthFramework::new(&osutils, &settings))
            }
            FrameworkKind::Password => o.add_framework(&PamAuthFramework::new(&osutils, &settings)),
        }
    }
    assert_eq!(o.max_tries, vec![1, 0]);
    let actions = drive(&o, AuthEvent::NoSession, &[AuthEvent::Rejected, AuthEvent::Accepted]);
    assert_eq!(
        actions,
        vec![
            AuthAction::CheckSession,
            AuthAction::Attempt { framework: 0 },
            AuthAction::WarnFailed { framework: 0 },
            AuthAction::Attempt { framework: 1 },
            AuthAction::CreateSession { timeout: 900 },
            AuthAction::Finish(AuthOutcome::Authorized),
        ]
    );
}

#[test]
fn get_username_names_the_user_who_runs_the_process() {
    let expected = users::get_user_by_uid(users::get_current_uid())
        .and_then(|user| user.name().to_str().map(String::from));
    assert_eq!(get_username().ok(), expected);
}
