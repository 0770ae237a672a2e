//! The authentication orchestrator.
//!
//! Authenticating means talking to a session store, a terminal and native
//! backends, none of which lives here. What lives here is every decision in
//! between: the orchestrator is a machine that is told what happened and
//! answers with what to do next.

use crate::osutils::unix::UnixOSUtils;
use crate::osutils::{OSUtils, OsError};
use vstd::prelude::*;

pub mod laws;
pub mod pam;
pub mod touchid;

verus! {

/// What the orchestrator needs to know of an authentication framework. What
/// a framework says of itself is taken as it comes.
pub trait AuthFramework {
    /// The framework's own ceiling on attempts. Zero leaves the ceiling to the caller.
    fn get_max_tries(&self) -> i32;

    /// The name under which failures of this framework are reported.
    fn get_name(&self) -> &'static str;
}

/// The name of the user who runs the process, as the operating system of
/// this machine tells it.
pub fn get_username() -> (name: Result<String, OsError>)
    ensures
        name is Err ==> name == Err::<String, OsError>(OsError::NoCurrentUser),
{
    UnixOSUtils::new().get_username()
}

/// How often a framework is tried: as often as the caller asks where the
/// framework sets no ceiling of its own, else the smaller of the two.
pub open spec fn spec_effective_tries(max_tries: i32, requested: i32) -> i32 {
    if max_tries == 0 {
        requested
    } else if max_tries <= requested {
        max_tries
    } else {
        requested
    }
}

/// The number of tries that a framework with ceiling `max_tries` gets when
/// the caller asks for `requested`.
pub fn effective_tries(max_tries: i32, requested: i32) -> (tries: i32)
    ensures
        tries == spec_effective_tries(max_tries, requested),
{
    if max_tries == 0 {
        requested
    } else if max_tries <= requested {
        max_tries
    } else {
        requested
    }
}

/// The kinds of framework.
#[derive(Clone, Copy, PartialEq, Eq, Structural, Debug)]
pub enum FrameworkKind {
    /// The fingerprint reader.
    Biometric,
    /// The password.
    Password,
}

/// The frameworks that are at hand, in the order in which they are tried:
/// the fingerprint reader first, because it asks least of the caller, and
/// the password after it.
pub open spec fn spec_framework_order(biometric: bool, password: bool) -> Seq<FrameworkKind> {
    let first = if biometric {
        seq![FrameworkKind::Biometric]
    } else {
        Seq::empty()
    };
    if password {
        first.push(FrameworkKind::Password)
    } else {
        first
    }
}

/// The frameworks that are at hand, in the order in which they are tried.
pub fn framework_order(biometric: bool, password: bool) -> (order: Vec<FrameworkKind>)
    ensures
        order@ == spec_framework_order(biometric, password),
{
    let mut order: Vec<FrameworkKind> = Vec::new();
    if biometric {
        order.push(FrameworkKind::Biometric);
    }
    if password {
        order.push(FrameworkKind::Password);
    }
    assert(order@ =~= spec_framework_order(biometric, password));
    order
}

/// How an authentication ends.
#[derive(Clone, Copy, PartialEq, Eq, Structural, Debug)]
pub enum AuthOutcome {
    /// A live session or a successful attempt vouches for the caller.
    Authorized,
    /// Every framework used up its tries.
    Denied,
    /// Something broke on the way; nothing was decided.
    Error,
}

/// Where the orchestrator stands between two events.
#[derive(Clone, Copy, PartialEq, Eq, Structural, Debug)]
pub enum AuthState {
    /// The session store has been asked whether a session is live.
    CheckingSession,
    /// An attempt with `framework` is under way; `made` attempts with it came before.
    Attempting { framework: usize, made: i32 },
    /// The caller is being told to try again, after `made` attempts with `framework`.
    Retrying { framework: usize, made: i32 },
    /// The caller is being told that `framework` failed.
    GivingUp { framework: usize },
    /// The session store has been asked to record a new session.
    CreatingSession,
    /// The authentication is over.
    Finished(AuthOutcome),
}

/// What happened to the last action.
#[derive(Clone, Copy, PartialEq, Eq, Structural, Debug)]
pub enum AuthEvent {
    /// The session store holds a live session for this user and terminal.
    SessionFound,
    /// The session store holds none.
    NoSession,
    /// The framework accepted the caller.
    Accepted,
    /// The framework turned the caller down.
    Rejected,
    /// A notice was shown, or a session was recorded.
    Done,
    /// The action could not be carried out.
    Failed,
}

/// What to do next.
#[derive(Clone, Copy, PartialEq, Eq, Structural, Debug)]
pub enum AuthAction {
    /// Ask the session store whether a session is live.
    CheckSession,
    /// Let the framework with this index try once.
    Attempt { framework: usize },
    /// Tell the caller that the attempt failed and that another follows.
    WarnRetry,
    /// Tell the caller that the framework with this index failed.
    WarnFailed { framework: usize },
    /// Record a session that lasts `timeout` seconds.
    CreateSession { timeout: i64 },
    /// Stop, with this outcome.
    Finish(AuthOutcome),
}

/// One authentication: the frameworks in the order in which they are tried,
/// each by its own ceiling, the number of tries the caller asked for, and the
/// lifetime of the session that a success earns.
#[derive(Debug, PartialEq, Eq)]
pub struct Orchestrator {
    pub max_tries: Vec<i32>,
    pub requested_tries: i32,
    pub session_timeout_sec: i64,
}

impl Orchestrator {
    /// The number of tries that the framework at `framework` gets.
    pub open spec fn budget(&self, framework: int) -> int {
        spec_effective_tries(self.max_tries@[framework], self.requested_tries) as int
    }

    /// The machine comes to `framework` with `made` attempts behind it: it
    /// tries once more while the budget lasts, reports the failure when it is
    /// used up, and denies when no framework is left.
    pub open spec fn spec_enter(&self, framework: usize, made: i32) -> (AuthState, AuthAction) {
        if framework >= self.max_tries@.len() {
            (AuthState::Finished(AuthOutcome::Denied), AuthAction::Finish(AuthOutcome::Denied))
        } else if made < self.budget(framework as int) {
            (AuthState::Attempting { framework, made }, AuthAction::Attempt { framework })
        } else {
            (AuthState::GivingUp { framework }, AuthAction::WarnFailed { framework })
        }
    }

    /// The transition function. An event that the state does not wait for
    /// ends the authentication in `Error`.
    pub open spec fn spec_step(&self, state: AuthState, event: AuthEvent) -> (
        AuthState,
        AuthAction,
    ) {
        let authorized = (
            AuthState::Finished(AuthOutcome::Authorized),
            AuthAction::Finish(AuthOutcome::Authorized),
        );
        let error = (AuthState::Finished(AuthOutcome::Error), AuthAction::Finish(AuthOutcome::Error));
        match state {
            AuthState::Finished(outcome) => (state, AuthAction::Finish(outcome)),
            AuthState::CheckingSession => match event {
                AuthEvent::SessionFound => authorized,
                AuthEvent::NoSession => self.spec_enter(0, 0),
                _ => error,
            },
            AuthState::Attempting { framework, made } => match event {
                AuthEvent::Accepted => if self.session_timeout_sec > 0 {
                    (
                        AuthState::CreatingSession,
                        AuthAction::CreateSession { timeout: self.session_timeout_sec },
                    )
                } else {
                    authorized
                },
                AuthEvent::Rejected => if framework < self.max_tries@.len() && made + 1
                    < self.budget(framework as int) {
                    (AuthState::Retrying { framework, made: (made + 1) as i32 }, AuthAction::WarnRetry)
                } else {
                    (AuthState::GivingUp { framework }, AuthAction::WarnFailed { framework })
                },
                _ => error,
            },
            AuthState::Retrying { framework, made } => match event {
                AuthEvent::Done => self.spec_enter(framework, made),
                _ => error,
            },
            AuthState::GivingUp { framework } => match event {
                AuthEvent::Done => if framework < self.max_tries@.len() {
                    self.spec_enter((framework + 1) as usize, 0)
                } else {
                    (AuthState::Finished(AuthOutcome::Denied), AuthAction::Finish(AuthOutcome::Denied))
                },
                _ => error,
            },
            AuthState::CreatingSession => match event {
                AuthEvent::Done => authorized,
                _ => error,
            },
        }
    }

    /// An orchestrator without frameworks.
    pub fn new(requested_tries: i32, session_timeout_sec: i64) -> (orchestrator: Orchestrator)
        ensures
            orchestrator.max_tries@ == Seq::<i32>::empty(),
            orchestrator.requested_tries == requested_tries,
            orchestrator.session_timeout_sec == session_timeout_sec,
    {
        Orchestrator { max_tries: Vec::new(), requested_tries, session_timeout_sec }
    }

    /// Puts a framework with this ceiling behind those already there: it is
    /// tried when they have failed.
    pub fn add_max_tries(&mut self, max_tries: i32)
        ensures
            final(self).max_tries@ == old(self).max_tries@.push(max_tries),
            final(self).requested_tries == old(self).requested_tries,
            final(self).session_timeout_sec == old(self).session_timeout_sec,
    {
        self.max_tries.push(max_tries);
    }

    /// Puts `framework` behind those already there, with the ceiling that it
    /// reports: the framework is asked for its ceiling, and what it answers
    /// is the ceiling by which its budget is reckoned.
    pub fn add_framework<F: AuthFramework + ?Sized>(&mut self, framework: &F)
        ensures
            final(self).max_tries@.len() == old(self).max_tries@.len() + 1,
            final(self).max_tries@.drop_last() == old(self).max_tries@,
            call_ensures(F::get_max_tries, (framework,), final(self).max_tries@.last()),
            final(self).requested_tries == old(self).requested_tries,
            final(self).session_timeout_sec == old(self).session_timeout_sec,
    {
        let max_tries = framework.get_max_tries();
        self.add_max_tries(max_tries);
        assert(self.max_tries@.drop_last() =~= old(self).max_tries@);
    }

    /// The first action, and the state in which its event is awaited.
    pub fn begin(&self) -> (first: (AuthState, AuthAction))
        ensures
            first == (AuthState::CheckingSession, AuthAction::CheckSession),
    {
        (AuthState::CheckingSession, AuthAction::CheckSession)
    }

    fn enter(&self, framework: usize, made: i32) -> (next: (AuthState, AuthAction))
        ensures
            next == self.spec_enter(framework, made),
    {
        if framework >= self.max_tries.len() {
            (AuthState::Finished(AuthOutcome::Denied), AuthAction::Finish(AuthOutcome::Denied))
        } else if made < effective_tries(self.max_tries[framework], self.requested_tries) {
            (AuthState::Attempting { framework, made }, AuthAction::Attempt { framework })
        } else {
            (AuthState::GivingUp { framework }, AuthAction::WarnFailed { framework })
        }
    }

    /// Takes the event that answers the last action and says what to do next.
    pub fn step(&self, state: AuthState, event: AuthEvent) -> (next: (AuthState, AuthAction))
        ensures
            next == self.spec_step(state, event),
    {
        let authorized = (
            AuthState::Finished(AuthOutcome::Authorized),
            AuthAction::Finish(AuthOutcome::Authorized),
        );
        let error = (AuthState::Finished(AuthOutcome::Error), AuthAction::Finish(AuthOutcome::Error));
        match state {
            AuthState::Finished(outcome) => (state, AuthAction::Finish(outcome)),
            AuthState::CheckingSession => match event {
                AuthEvent::SessionFound => authorized,
                AuthEvent::NoSession => self.enter(0, 0),
                _ => error,
            },
            AuthState::Attempting { framework, made } => match event {
                AuthEvent::Accepted => if self.session_timeout_sec > 0 {
                    (
                        AuthState::CreatingSession,
                        AuthAction::CreateSession { timeout: self.session_timeout_sec },
                    )
                } else {
                    authorized
                },
                AuthEvent::Rejected => {
                    if framework < self.max_tries.len() {
                        let budget = effective_tries(
                            self.max_tries[framework],
                            self.requested_tries,
                        );
                        if made < budget && made + 1 < budget {
                            return (
                                AuthState::Retrying { framework, made: made + 1 },
                                AuthAction::WarnRetry,
                            );
                        }
                    }
                    (AuthState::GivingUp { framework }, AuthAction::WarnFailed { framework })
                },
                _ => error,
            },
            AuthState::Retrying { framework, made } => match event {
                AuthEvent::Done => self.enter(framework, made),
                _ => error,
            },
            AuthState::GivingUp { framework } => match event {
                AuthEvent::Done => if framework < self.max_tries.len() {
                    self.enter(framework + 1, 0)
                } else {
                    (AuthState::Finished(AuthOutcome::Denied), AuthAction::Finish(AuthOutcome::Denied))
                },
                _ => error,
            },
            AuthState::CreatingSession => match event {
                AuthEvent::Done => authorized,
                _ => error,
            },
        }
    }

    /// The actions with which the machine answers `events`, one for each, starting in `state`.
    pub open spec fn run(&self, state: AuthState, events: Seq<AuthEvent>) -> Seq<AuthAction>
        decreases events.len(),
    {
        if events.len() == 0 {
            Seq::empty()
        } else {
            let (next, action) = self.spec_step(state, events[0]);
            seq![action] + self.run(next, events.drop_first())
        }
    }

    /// The most attempts that `framework` can ever get: its budget, or none
    /// where the budget is not positive or there is no such framework.
    pub open spec fn most_attempts(&self, framework: usize) -> nat {
        if framework < self.max_tries@.len() && self.budget(framework as int) > 0 {
            self.budget(framework as int) as nat
        } else {
            0
        }
    }

    /// The most actions that the framework at `framework` can take up: its
    /// attempts, the notices between them and the notice of its failure.
    pub open spec fn framework_cost(&self, framework: int) -> nat {
        if self.budget(framework) > 0 {
            (2 * self.budget(framework)) as nat
        } else {
            1
        }
    }

    /// The most actions that the frameworks from `from` on can take up.
    pub open spec fn cost_from(&self, from: int) -> nat
        decreases self.max_tries@.len() - from,
    {
        if from < 0 || from >= self.max_tries@.len() {
            0
        } else {
            self.framework_cost(from) + self.cost_from(from + 1)
        }
    }

    /// The most actions that can come before the verdict, the first one aside.
    pub open spec fn longest_run(&self) -> nat {
        self.cost_from(0)
    }
}

/// How many of `actions` are attempts with `framework`.
pub open spec fn attempts(actions: Seq<AuthAction>, framework: usize) -> nat
    decreases actions.len(),
{
    if actions.len() == 0 {
        0
    } else {
        let here: nat = if actions[0] == (AuthAction::Attempt { framework }) {
            1
        } else {
            0
        };
        here + attempts(actions.drop_first(), framework)
    }
}

} // verus!
