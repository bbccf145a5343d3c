//! The login flow as a state machine: consent, login trigger, credentials,
//! token. Each call of `LoginFlow::step` takes the outcome of the previous
//! action and names the next one; the caller performs it against the browser.

use vstd::prelude::*;
use crate::retry::{RetryState, after_misses, MAX_ATTEMPTS, INTERVAL_MS};

verus! {

/// Why a login attempt failed. No variant carries text, so no message built
/// from one can hold a credential.
#[derive(Clone, Copy, Debug, PartialEq, Eq, Structural)]
pub enum LoginError {
    Launch,
    Navigation,
    Interaction,
    Evaluation,
    LoginButtonNotFound,
    CredentialFieldsNotFound,
    TokenNotFound,
}

impl LoginError {
    /// The error of a failed browser operation.
    pub fn from_failure(f: Failure) -> (r: LoginError)
        ensures
            r == failure_error(f),
    {
        match f {
            Failure::Navigation => LoginError::Navigation,
            Failure::Interaction => LoginError::Interaction,
            Failure::Evaluation => LoginError::Evaluation,
        }
    }

    /// The fixed description of each kind.
    pub open spec fn text(self) -> Seq<char> {
        match self {
            LoginError::Launch => "Couldn't launch the browser"@,
            LoginError::Navigation => "Navigation failed"@,
            LoginError::Interaction => "Couldn't interact with a page element"@,
            LoginError::Evaluation => "Script evaluation failed"@,
            LoginError::LoginButtonNotFound => "Couldn't find login button"@,
            LoginError::CredentialFieldsNotFound => "Couldn't find login or password field"@,
            LoginError::TokenNotFound => "Couldn't find token"@,
        }
    }

    /// Human-readable description of the failure.
    pub fn message(&self) -> (r: &'static str)
        ensures
            r@ == self.text(),
    {
        match self {
            LoginError::Launch => "Couldn't launch the browser",
            LoginError::Navigation => "Navigation failed",
            LoginError::Interaction => "Couldn't interact with a page element",
            LoginError::Evaluation => "Script evaluation failed",
            LoginError::LoginButtonNotFound => "Couldn't find login button",
            LoginError::CredentialFieldsNotFound => "Couldn't find login or password field",
            LoginError::TokenNotFound => "Couldn't find token",
        }
    }
}

/// A browser operation that failed outright (not an element that is merely
/// absent yet).
#[derive(Clone, Copy, Debug, PartialEq, Eq, Structural)]
pub enum Failure {
    Navigation,
    Interaction,
    Evaluation,
}

pub open spec fn failure_error(f: Failure) -> LoginError {
    match f {
        Failure::Navigation => LoginError::Navigation,
        Failure::Interaction => LoginError::Interaction,
        Failure::Evaluation => LoginError::Evaluation,
    }
}

/// The steps gated by a bounded retry.
#[derive(Clone, Copy, Debug, PartialEq, Eq, Structural)]
pub enum Gate {
    LoginButton,
    CredentialFields,
    Token,
}

/// The error a gated step fails with once its budget is spent.
pub open spec fn exhausted_error(g: Gate) -> LoginError {
    match g {
        Gate::LoginButton => LoginError::LoginButtonNotFound,
        Gate::CredentialFields => LoginError::CredentialFieldsNotFound,
        Gate::Token => LoginError::TokenNotFound,
    }
}

/// Where the flow stands.
#[derive(Debug, PartialEq, Eq)]
pub enum Stage {
    /// The start page is loading.
    Loading,
    /// Looking once for the consent banner.
    ConsentLookup,
    /// Clicking the consent banner and waiting for the navigation.
    ConsentClick,
    /// An attempt of a gated step is under way.
    Lookup(Gate),
    /// Pausing after a missed attempt of a gated step.
    Backoff(Gate),
    /// Clicking the login trigger and waiting for the navigation.
    ButtonClick,
    /// Typing the credentials, pressing the submit key, waiting for the navigation.
    Submitting,
    /// Releasing the session; the outcome is decided.
    Closing(Result<String, LoginError>),
    /// The outcome has been handed out.
    Finished,
}

/// What the browser reported about the last action.
#[derive(Debug)]
pub enum Event {
    /// The action completed.
    Done,
    /// Whether the looked-up element (consent banner or login trigger) exists.
    Found(bool),
    /// Whether the login field and the password field exist, in one attempt.
    FieldsFound(bool, bool),
    /// The value read from the token slot, if it was a string.
    TokenRead(Option<String>),
    /// The pause is over.
    Slept,
    /// The action failed.
    Failed(Failure),
}

/// What the caller must do next.
#[derive(Debug, PartialEq, Eq)]
pub enum Action {
    /// Open the start page and wait for its response.
    Navigate,
    /// Look up the consent banner, once.
    FindConsent,
    /// Click the consent banner and wait for the navigation.
    ClickConsent,
    /// Look up the login trigger.
    FindLoginButton,
    /// Click the login trigger and wait for the navigation.
    ClickLoginButton,
    /// Look up the login and password fields.
    FindFields,
    /// Type login and password into their fields, press the submit key and
    /// wait for the navigation.
    SubmitCredentials,
    /// Evaluate the token expression.
    ReadToken,
    /// Pause for the given milliseconds.
    Sleep(u64),
    /// Terminate the browser session.
    CloseSession,
    /// The flow is over with this outcome; the session has been closed.
    Finish(Result<String, LoginError>),
}

/// The login flow: its stage and the retry budget of the current gated step.
#[derive(Debug)]
pub struct LoginFlow {
    pub stage: Stage,
    pub retry: RetryState,
}

/// A fresh budget for a gated step.
pub open spec fn fresh_retry() -> RetryState {
    RetryState { misses: 0, max_attempts: MAX_ATTEMPTS, interval_ms: INTERVAL_MS }
}

/// The attempt that a gated step makes.
pub open spec fn gate_action(g: Gate) -> Action {
    match g {
        Gate::LoginButton => Action::FindLoginButton,
        Gate::CredentialFields => Action::FindFields,
        Gate::Token => Action::ReadToken,
    }
}

/// The event is a successful attempt of the gated step.
pub open spec fn hit(g: Gate, ev: Event) -> bool {
    match (g, ev) {
        (Gate::LoginButton, Event::Found(b)) => b,
        (Gate::CredentialFields, Event::FieldsFound(a, b)) => a && b,
        (Gate::Token, Event::TokenRead(Some(s))) => s@.len() > 0,
        _ => false,
    }
}

/// The event is one that an attempt of the gated step can report.
pub open spec fn probe_of(g: Gate, ev: Event) -> bool {
    match (g, ev) {
        (Gate::LoginButton, Event::Found(_)) => true,
        (Gate::CredentialFields, Event::FieldsFound(_, _)) => true,
        (Gate::Token, Event::TokenRead(_)) => true,
        (_, Event::Failed(_)) => true,
        _ => false,
    }
}

impl LoginFlow {
    pub open spec fn wf(&self) -> bool {
        &&& self.retry.wf()
        &&& self.retry.max_attempts == MAX_ATTEMPTS
        &&& self.retry.interval_ms == INTERVAL_MS
        &&& (self.stage is Lookup ==> self.retry.may_attempt())
        &&& (self.stage is Backoff ==> self.retry.misses > 0)
    }

    /// The events the flow can receive in its current stage.
    pub open spec fn expects(&self, ev: Event) -> bool {
        match self.stage {
            Stage::Loading | Stage::ConsentClick | Stage::ButtonClick | Stage::Submitting =>
                ev is Done || ev is Failed,
            Stage::ConsentLookup => ev is Found || ev is Failed,
            Stage::Lookup(g) => probe_of(g, ev),
            Stage::Backoff(_) => ev is Slept,
            Stage::Closing(_) => ev is Done,
            Stage::Finished => false,
        }
    }

    pub open spec fn with_stage(self, stage: Stage) -> LoginFlow {
        LoginFlow { stage, retry: self.retry }
    }

    /// Release the session, then end with `e`.
    pub open spec fn fail(self, e: LoginError) -> (LoginFlow, Action) {
        (self.with_stage(Stage::Closing(Err(e))), Action::CloseSession)
    }

    /// Start gated step `g` with a fresh budget.
    pub open spec fn enter(g: Gate) -> (LoginFlow, Action) {
        (LoginFlow { stage: Stage::Lookup(g), retry: fresh_retry() }, gate_action(g))
    }

    /// What follows a successful attempt of gated step `g`.
    pub open spec fn advance(self, g: Gate, ev: Event) -> (LoginFlow, Action) {
        match g {
            Gate::LoginButton => (self.with_stage(Stage::ButtonClick), Action::ClickLoginButton),
            Gate::CredentialFields => (self.with_stage(Stage::Submitting), Action::SubmitCredentials),
            Gate::Token => match ev {
                Event::TokenRead(Some(s)) => (self.with_stage(Stage::Closing(Ok(s))), Action::CloseSession),
                _ => (self, Action::CloseSession),
            },
        }
    }

    /// The transition on `ev`.
    pub open spec fn next(self, ev: Event) -> (LoginFlow, Action) {
        match ev {
            Event::Failed(f) => self.fail(failure_error(f)),
            _ => match self.stage {
                Stage::Loading => (self.with_stage(Stage::ConsentLookup), Action::FindConsent),
                Stage::ConsentLookup => if ev == Event::Found(true) {
                    (self.with_stage(Stage::ConsentClick), Action::ClickConsent)
                } else {
                    LoginFlow::enter(Gate::LoginButton)
                },
                Stage::ConsentClick => LoginFlow::enter(Gate::LoginButton),
                Stage::ButtonClick => LoginFlow::enter(Gate::CredentialFields),
                Stage::Submitting => LoginFlow::enter(Gate::Token),
                Stage::Lookup(g) => if hit(g, ev) {
                    self.advance(g, ev)
                } else {
                    (
                        LoginFlow { stage: Stage::Backoff(g), retry: after_misses(self.retry, 1) },
                        Action::Sleep(INTERVAL_MS),
                    )
                },
                Stage::Backoff(g) => if self.retry.may_attempt() {
                    (self.with_stage(Stage::Lookup(g)), gate_action(g))
                } else {
                    self.fail(exhausted_error(g))
                },
                Stage::Closing(o) => (self.with_stage(Stage::Finished), Action::Finish(o)),
                Stage::Finished => (self, Action::CloseSession),
            },
        }
    }

    /// A new flow and its first action: open the start page.
    pub fn start() -> (r: (LoginFlow, Action))
        ensures
            r.0.wf(),
            r.0.stage == Stage::Loading,
            r.1 == Action::Navigate,
    {
        (LoginFlow { stage: Stage::Loading, retry: RetryState::standard() }, Action::Navigate)
    }
}

impl LoginFlow {
    /// Whether the flow can receive `ev` in its current stage.
    pub fn accepts(&self, ev: &Event) -> (r: bool)
        ensures
            r == self.expects(*ev),
    {
        match &self.stage {
            Stage::Loading | Stage::ConsentClick | Stage::ButtonClick | Stage::Submitting => match ev {
                Event::Done | Event::Failed(_) => true,
                _ => false,
            },
            Stage::ConsentLookup => match ev {
                Event::Found(_) | Event::Failed(_) => true,
                _ => false,
            },
            Stage::Lookup(g) => match (g, ev) {
                (Gate::LoginButton, Event::Found(_)) => true,
                (Gate::CredentialFields, Event::FieldsFound(_, _)) => true,
                (Gate::Token, Event::TokenRead(_)) => true,
                (_, Event::Failed(_)) => true,
                _ => false,
            },
            Stage::Backoff(_) => match ev {
                Event::Slept => true,
                _ => false,
            },
            Stage::Closing(_) => match ev {
                Event::Done => true,
                _ => false,
            },
            Stage::Finished => false,
        }
    }

    /// Starts gated step `g` with a fresh budget.
    fn enter_gate(g: Gate) -> (r: (LoginFlow, Action))
        ensures
            r == LoginFlow::enter(g),
            r.0.wf(),
    {
        let action = match g {
            Gate::LoginButton => Action::FindLoginButton,
            Gate::CredentialFields => Action::FindFields,
            Gate::Token => Action::ReadToken,
        };
        (LoginFlow { stage: Stage::Lookup(g), retry: RetryState::standard() }, action)
    }

    /// Records a missed attempt of gated step `g` and pauses.
    fn back_off(g: Gate, retry: RetryState) -> (r: (LoginFlow, Action))
        requires
            (LoginFlow { stage: Stage::Lookup(g), retry }).wf(),
        ensures
            r == (
                LoginFlow { stage: Stage::Backoff(g), retry: after_misses(retry, 1) },
                Action::Sleep(INTERVAL_MS),
            ),
            r.0.wf(),
    {
        let mut retry = retry;
        let pause = retry.record_miss();
        (LoginFlow { stage: Stage::Backoff(g), retry }, Action::Sleep(pause))
    }

    /// Takes the outcome of the last action and returns the flow's next state
    /// and the action to perform. Every path to an outcome passes through
    /// `Action::CloseSession` before `Action::Finish`.
    pub fn step(self, ev: Event) -> (r: (LoginFlow, Action))
        requires
            self.wf(),
            self.expects(ev),
        ensures
            r == self.next(ev),
            r.0.wf(),
    {
        let LoginFlow { stage, retry } = self;
        match ev {
            Event::Failed(f) => (
                LoginFlow { stage: Stage::Closing(Err(LoginError::from_failure(f))), retry },
                Action::CloseSession,
            ),
            ev => match stage {
                Stage::Loading => (LoginFlow { stage: Stage::ConsentLookup, retry }, Action::FindConsent),
                Stage::ConsentLookup => match ev {
                    Event::Found(true) => (LoginFlow { stage: Stage::ConsentClick, retry }, Action::ClickConsent),
                    _ => LoginFlow::enter_gate(Gate::LoginButton),
                },
                Stage::ConsentClick => LoginFlow::enter_gate(Gate::LoginButton),
                Stage::ButtonClick => LoginFlow::enter_gate(Gate::CredentialFields),
                Stage::Submitting => LoginFlow::enter_gate(Gate::Token),
                Stage::Lookup(g) => match ev {
                    Event::Found(true) => (LoginFlow { stage: Stage::ButtonClick, retry }, Action::ClickLoginButton),
                    Event::FieldsFound(true, true) => (LoginFlow { stage: Stage::Submitting, retry }, Action::SubmitCredentials),
                    Event::TokenRead(Some(s)) => {
                        if s.as_str().is_empty() {
                            LoginFlow::back_off(g, retry)
                        } else {
                            (LoginFlow { stage: Stage::Closing(Ok(s)), retry }, Action::CloseSession)
                        }
                    },
                    _ => LoginFlow::back_off(g, retry),
                },
                Stage::Backoff(g) => {
                    if retry.can_attempt() {
                        let action = match g {
                            Gate::LoginButton => Action::FindLoginButton,
                            Gate::CredentialFields => Action::FindFields,
                            Gate::Token => Action::ReadToken,
                        };
                        (LoginFlow { stage: Stage::Lookup(g), retry }, action)
                    } else {
                        let e = match g {
                            Gate::LoginButton => LoginError::LoginButtonNotFound,
                            Gate::CredentialFields => LoginError::CredentialFieldsNotFound,
                            Gate::Token => LoginError::TokenNotFound,
                        };
                        (LoginFlow { stage: Stage::Closing(Err(e)), retry }, Action::CloseSession)
                    }
                },
                Stage::Closing(o) => (LoginFlow { stage: Stage::Finished, retry }, Action::Finish(o)),
                Stage::Finished => (LoginFlow { stage: Stage::Finished, retry }, Action::CloseSession),
            },
        }
    }
}

} // verus!
