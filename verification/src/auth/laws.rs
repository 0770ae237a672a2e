//! What holds of every authentication, however the session store and the
//! frameworks answer and however the machine is driven.

use crate::auth::{attempts, AuthAction, AuthEvent, AuthOutcome, AuthState, Orchestrator};
use vstd::prelude::*;

verus! {

impl Orchestrator {
    /// Whatever the session store and the frameworks answer, and however long
    /// the machine is driven, no framework is tried more often than its
    /// budget allows: the caller's number of tries where the framework sets no
    /// ceiling, else the smaller of the two.
    pub proof fn law_attempts_within_budget(&self, events: Seq<AuthEvent>, framework: usize)
        ensures
            attempts(self.run(AuthState::CheckingSession, events), framework)
                <= self.most_attempts(framework),
    {
        self.lemma_run_spends_attempts(AuthState::CheckingSession, events, framework);
    }

    /// The machine never says `Authorized` unless the session store reported
    /// a live session or a framework accepted the caller beforehand.
    pub proof fn law_authorized_needs_evidence(&self, events: Seq<AuthEvent>, at: int)
        requires
            0 <= at < events.len(),
            self.run(AuthState::CheckingSession, events)[at] == AuthAction::Finish(
                AuthOutcome::Authorized,
            ),
        ensures
            exists|before: int|
                0 <= before <= at && (#[trigger] events[before] == AuthEvent::SessionFound
                    || events[before] == AuthEvent::Accepted),
    {
        self.lemma_run_len(AuthState::CheckingSession, events);
        self.lemma_authorized_needs_evidence(AuthState::CheckingSession, events, at);
    }

    /// A failure aborts the authentication on the spot: the machine answers
    /// it by finishing, with `Error` unless it had finished before, and says
    /// nothing else from then on.
    pub proof fn law_failure_aborts(&self, events: Seq<AuthEvent>, at: int)
        requires
            0 <= at < events.len(),
            events[at] == AuthEvent::Failed,
        ensures
            self.run(AuthState::CheckingSession, events)[at] is Finish,
            (forall|before: int|
                0 <= before < at ==> !(#[trigger] self.run(
                    AuthState::CheckingSession,
                    events,
                )[before] is Finish)) ==> self.run(AuthState::CheckingSession, events)[at]
                == AuthAction::Finish(AuthOutcome::Error),
            forall|later: int|
                at <= later < events.len() ==> #[trigger] self.run(
                    AuthState::CheckingSession,
                    events,
                )[later] == self.run(AuthState::CheckingSession, events)[at],
    {
        self.lemma_failure_aborts(AuthState::CheckingSession, events, at);
    }

    /// A session is recorded only in answer to an accepted attempt, only
    /// where sessions are switched on by a positive lifetime, and then with
    /// that lifetime. A live session is never recorded anew.
    pub proof fn law_session_follows_acceptance(&self, events: Seq<AuthEvent>, at: int)
        requires
            0 <= at < events.len(),
            self.run(AuthState::CheckingSession, events)[at] is CreateSession,
        ensures
            events[at] == AuthEvent::Accepted,
            self.session_timeout_sec > 0,
            self.run(AuthState::CheckingSession, events)[at] == (AuthAction::CreateSession {
                timeout: self.session_timeout_sec,
            }),
    {
        self.lemma_run_len(AuthState::CheckingSession, events);
        self.lemma_session_follows_acceptance(AuthState::CheckingSession, events, at);
    }

    /// The machine comes to a verdict, whatever it is told: once the actions
    /// that the frameworks can take up are used up, every answer is a verdict.
    pub proof fn law_run_finishes(&self, events: Seq<AuthEvent>, at: int)
        requires
            self.longest_run() <= at < events.len(),
        ensures
            self.run(AuthState::CheckingSession, events)[at] is Finish,
    {
        self.lemma_run_finishes(AuthState::CheckingSession, events, at);
    }

    /// A live session settles the matter at once: the machine finishes with
    /// `Authorized` and no framework is tried, whatever else it is told.
    pub proof fn law_live_session_skips_frameworks(&self, events: Seq<AuthEvent>, framework: usize)
        requires
            events.len() > 0,
            events[0] == AuthEvent::SessionFound,
        ensures
            self.run(AuthState::CheckingSession, events)[0] == AuthAction::Finish(
                AuthOutcome::Authorized,
            ),
            attempts(self.run(AuthState::CheckingSession, events), framework) == 0,
    {
        let state = AuthState::Finished(AuthOutcome::Authorized);
        let rest = self.run(state, events.drop_first());
        self.lemma_run_spends_attempts(state, events.drop_first(), framework);
        lemma_attempts_add(seq![AuthAction::Finish(AuthOutcome::Authorized)], rest, framework);
        assert(seq![AuthAction::Finish(AuthOutcome::Authorized)].drop_first() =~= Seq::<
            AuthAction,
        >::empty());
        assert(attempts(
            seq![AuthAction::Finish(AuthOutcome::Authorized)].drop_first(),
            framework,
        ) == 0);
    }

    // How many attempts with `framework` can still follow `state`.
    spec fn attempts_left(&self, state: AuthState, framework: usize) -> int {
        let most = self.most_attempts(framework) as int;
        match state {
            AuthState::CheckingSession => most,
            AuthState::Attempting { framework: current, made } => if current < framework {
                most
            } else if current == framework && most - made - 1 > 0 {
                most - made - 1
            } else {
                0
            },
            AuthState::Retrying { framework: current, made } => if current < framework {
                most
            } else if current == framework && most - made > 0 {
                most - made
            } else {
                0
            },
            AuthState::GivingUp { framework: current } => if current < framework {
                most
            } else {
                0
            },
            AuthState::CreatingSession => 0,
            AuthState::Finished(_) => 0,
        }
    }

    proof fn lemma_step_spends_attempts(&self, state: AuthState, event: AuthEvent, framework: usize)
        ensures
            ({
                let (next, action) = self.spec_step(state, event);
                self.attempts_left(next, framework) + attempts(seq![action], framework)
                    <= self.attempts_left(state, framework)
            }),
    {
        let (next, action) = self.spec_step(state, event);
        assert(self.max_tries@.len() == self.max_tries.len());
        assert(seq![action].drop_first() =~= Seq::<AuthAction>::empty());
        assert(attempts(seq![action].drop_first(), framework) == 0);
    }

    proof fn lemma_run_spends_attempts(
        &self,
        state: AuthState,
        events: Seq<AuthEvent>,
        framework: usize,
    )
        ensures
            attempts(self.run(state, events), framework) <= self.attempts_left(state, framework),
        decreases events.len(),
    {
        if events.len() > 0 {
            let (next, action) = self.spec_step(state, events[0]);
            let rest = self.run(next, events.drop_first());
            self.lemma_step_spends_attempts(state, events[0], framework);
            self.lemma_run_spends_attempts(next, events.drop_first(), framework);
            lemma_attempts_add(seq![action], rest, framework);
        }
    }

    // Whether `state` can only have been reached through a live session or an accepted attempt.
    spec fn holds_evidence(state: AuthState) -> bool {
        state == AuthState::CreatingSession || state == AuthState::Finished(AuthOutcome::Authorized)
    }

    proof fn lemma_authorized_needs_evidence(
        &self,
        state: AuthState,
        events: Seq<AuthEvent>,
        at: int,
    )
        requires
            !Self::holds_evidence(state),
            0 <= at < events.len(),
            self.run(state, events).len() == events.len(),
            self.run(state, events)[at] == AuthAction::Finish(AuthOutcome::Authorized),
        ensures
            exists|before: int|
                0 <= before <= at && (#[trigger] events[before] == AuthEvent::SessionFound
                    || events[before] == AuthEvent::Accepted),
        decreases events.len(),
    {
        let (next, action) = self.spec_step(state, events[0]);
        let rest = events.drop_first();
        if at == 0 || Self::holds_evidence(next) {
            assert(events[0] == AuthEvent::SessionFound || events[0] == AuthEvent::Accepted);
        } else {
            self.lemma_run_len(next, rest);
            assert(self.run(state, events)[at] == self.run(next, rest)[at - 1]);
            self.lemma_authorized_needs_evidence(next, rest, at - 1);
            let before = choose|before: int|
                0 <= before <= at - 1 && (#[trigger] rest[before] == AuthEvent::SessionFound
                    || rest[before] == AuthEvent::Accepted);
            assert(events[before + 1] == rest[before]);
        }
    }

    /// The machine answers every event with one action.
    pub proof fn lemma_run_len(&self, state: AuthState, events: Seq<AuthEvent>)
        ensures
            self.run(state, events).len() == events.len(),
        decreases events.len(),
    {
        if events.len() > 0 {
            let (next, action) = self.spec_step(state, events[0]);
            self.lemma_run_len(next, events.drop_first());
        }
    }

    // How many actions can still come before the verdict.
    spec fn steps_left(&self, state: AuthState) -> int {
        match state {
            AuthState::CheckingSession => self.cost_from(0) as int,
            AuthState::Attempting { framework, made } => if framework < self.max_tries@.len() {
                let left = self.budget(framework as int) - made - 1;
                (if left > 0 {
                    2 * left
                } else {
                    0
                }) + 1 + self.cost_from(framework + 1)
            } else {
                1
            },
            AuthState::Retrying { framework, made } => if framework < self.max_tries@.len() {
                let left = self.budget(framework as int) - made;
                (if left > 0 {
                    2 * left
                } else {
                    1
                }) + self.cost_from(framework + 1)
            } else {
                0
            },
            AuthState::GivingUp { framework } => if framework < self.max_tries@.len() {
                self.cost_from(framework + 1) as int
            } else {
                0
            },
            AuthState::CreatingSession => 0,
            AuthState::Finished(_) => 0,
        }
    }

    proof fn lemma_step_nears_verdict(&self, state: AuthState, event: AuthEvent)
        ensures
            ({
                let (next, action) = self.spec_step(state, event);
                if action is Finish {
                    next is Finished
                } else {
                    0 <= self.steps_left(next) < self.steps_left(state)
                }
            }),
    {
        assert(self.max_tries@.len() == self.max_tries.len());
        reveal_with_fuel(Orchestrator::cost_from, 2);
    }

    proof fn lemma_run_finishes(&self, state: AuthState, events: Seq<AuthEvent>, at: int)
        requires
            0 <= at < events.len(),
            self.steps_left(state) <= at,
        ensures
            self.run(state, events)[at] is Finish,
        decreases events.len(),
    {
        let (next, action) = self.spec_step(state, events[0]);
        let rest = events.drop_first();
        self.lemma_step_nears_verdict(state, events[0]);
        self.lemma_run_len(next, rest);
        if at > 0 {
            assert(self.run(state, events)[at] == self.run(next, rest)[at - 1]);
            if action is Finish {
                self.lemma_finished_stays(next->Finished_0, rest, at - 1);
            } else {
                self.lemma_run_finishes(next, rest, at - 1);
            }
        }
    }

    // Once the machine has finished, it repeats its verdict.
    proof fn lemma_finished_stays(&self, outcome: AuthOutcome, events: Seq<AuthEvent>, at: int)
        requires
            0 <= at < events.len(),
        ensures
            self.run(AuthState::Finished(outcome), events)[at] == AuthAction::Finish(outcome),
        decreases events.len(),
    {
        let state = AuthState::Finished(outcome);
        self.lemma_run_len(state, events.drop_first());
        if at > 0 {
            assert(self.run(state, events)[at] == self.run(state, events.drop_first())[at - 1]);
            self.lemma_finished_stays(outcome, events.drop_first(), at - 1);
        }
    }

    proof fn lemma_failure_aborts(&self, state: AuthState, events: Seq<AuthEvent>, at: int)
        requires
            0 <= at < events.len(),
            events[at] == AuthEvent::Failed,
        ensures
            self.run(state, events)[at] is Finish,
            !(state is Finished) && (forall|before: int|
                0 <= before < at ==> !(#[trigger] self.run(state, events)[before] is Finish))
                ==> self.run(state, events)[at] == AuthAction::Finish(AuthOutcome::Error),
            forall|later: int|
                at <= later < events.len() ==> #[trigger] self.run(state, events)[later]
                    == self.run(state, events)[at],
        decreases events.len(),
    {
        let (next, action) = self.spec_step(state, events[0]);
        let rest = events.drop_first();
        self.lemma_run_len(next, rest);
        if at == 0 {
            let outcome = next->Finished_0;
            assert forall|later: int| 0 <= later < events.len() implies #[trigger] self.run(
                state,
                events,
            )[later] == self.run(state, events)[0] by {
                if later > 0 {
                    assert(self.run(state, events)[later] == self.run(next, rest)[later - 1]);
                    self.lemma_finished_stays(outcome, rest, later - 1);
                }
            }
        } else {
            self.lemma_failure_aborts(next, rest, at - 1);
            assert(self.run(state, events)[at] == self.run(next, rest)[at - 1]);
            assert forall|later: int| at <= later < events.len() implies #[trigger] self.run(
                state,
                events,
            )[later] == self.run(state, events)[at] by {
                assert(self.run(state, events)[later] == self.run(next, rest)[later - 1]);
            }
            if !(state is Finished) && (forall|before: int|
                0 <= before < at ==> !(#[trigger] self.run(state, events)[before] is Finish)) {
                assert(!(self.run(state, events)[0] is Finish));
                assert forall|before: int| 0 <= before < at - 1 implies !(#[trigger] self.run(
                    next,
                    rest,
                )[before] is Finish) by {
                    assert(self.run(state, events)[before + 1] == self.run(next, rest)[before]);
                }
            }
        }
    }

    proof fn lemma_session_follows_acceptance(
        &self,
        state: AuthState,
        events: Seq<AuthEvent>,
        at: int,
    )
        requires
            0 <= at < events.len(),
            self.run(state, events).len() == events.len(),
            self.run(state, events)[at] is CreateSession,
        ensures
            events[at] == AuthEvent::Accepted,
            self.session_timeout_sec > 0,
            self.run(state, events)[at] == (AuthAction::CreateSession {
                timeout: self.session_timeout_sec,
            }),
        decreases events.len(),
    {
        let (next, action) = self.spec_step(state, events[0]);
        let rest = events.drop_first();
        if at > 0 {
            self.lemma_run_len(next, rest);
            assert(self.run(state, events)[at] == self.run(next, rest)[at - 1]);
            self.lemma_session_follows_acceptance(next, rest, at - 1);
        }
    }
}

proof fn lemma_attempts_add(front: Seq<AuthAction>, back: Seq<AuthAction>, framework: usize)
    ensures
        attempts(front + back, framework) == attempts(front, framework) + attempts(back, framework),
    decreases front.len(),
{
    if front.len() == 0 {
        assert(front + back =~= back);
    } else {
        assert((front + back).drop_first() =~= front.drop_first() + back);
        lemma_attempts_add(front.drop_first(), back, framework);
    }
}

} // verus!
