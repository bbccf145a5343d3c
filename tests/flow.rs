use ecd_token_resolver::flow::{Action, Event, Failure, Gate, LoginError, LoginFlow, Stage};
use ecd_token_resolver::retry::{INTERVAL_MS, MAX_ATTEMPTS};

/// Feeds `ev` to the flow, checking first that the flow expects it.
fn feed(flow: LoginFlow, ev: Event) -> (LoginFlow, Action) {
    assert!(flow.accepts(&ev), "unexpected event {:?} in {:?}", ev, flow.stage);
    flow.step(ev)
}

/// Drives the flow from the start through the consent banner (present or
/// not) up to the first lookup of the login trigger.
fn up_to_login_button(consent: bool) -> LoginFlow {
    let (f, a) = LoginFlow::start();
    assert_eq!(a, Action::Navigate);
    let (f, a) = feed(f, Event::Done);
    assert_eq!(a, Action::FindConsent);
    let (f, a) = feed(f, Event::Found(consent));
    if consent {
        assert_eq!(a, Action::ClickConsent);
        let (f, a) = feed(f, Event::Done);
        assert_eq!(a, Action::FindLoginButton);
        f
    } else {
        assert_eq!(a, Action::FindLoginButton);
        f
    }
}

/// Misses every attempt of the current gated step; returns the flow, the
/// final action, the attempts made and the time paused.
fn miss_until_exhausted(mut f: LoginFlow, miss: fn() -> Event) -> (LoginFlow, Action, u32, u64) {
    let mut attempts: u32 = 0;
    let mut paused: u64 = 0;
    loop {
        attempts += 1;
        let (g, a) = feed(f, miss());
        let ms = match a {
            Action::Sleep(ms) => ms,
            other => panic!("expected a pause, got {:?}", other),
        };
        paused += ms;
        let (g, a) = feed(g, Event::Slept);
        match a {
            Action::CloseSession => return (g, a, attempts, paused),
            _ => f = g,
        }
        assert!(attempts <= 100);
    }
}

#[test]
fn happy_path_returns_token() {
    let f = up_to_login_button(true);
    let (f, a) = feed(f, Event::Found(false));
    assert_eq!(a, Action::Sleep(1000));
    let (f, a) = feed(f, Event::Slept);
    assert_eq!(a, Action::FindLoginButton);
    let (f, a) = feed(f, Event::Found(true));
    assert_eq!(a, Action::ClickLoginButton);
    let (f, a) = feed(f, Event::Done);
    assert_eq!(a, Action::FindFields);
    let (f, a) = feed(f, Event::FieldsFound(true, true));
    assert_eq!(a, Action::SubmitCredentials);
    let (f, a) = feed(f, Event::Done);
    assert_eq!(a, Action::ReadToken);
    let (f, a) = feed(f, Event::TokenRead(None));
    assert_eq!(a, Action::Sleep(1000));
    let (f, a) = feed(f, Event::Slept);
    assert_eq!(a, Action::ReadToken);
    let (f, a) = feed(f, Event::TokenRead(Some("tok-123".to_string())));
    assert_eq!(a, Action::CloseSession);
    let (f, a) = feed(f, Event::Done);
    assert_eq!(a, Action::Finish(Ok("tok-123".to_string())));
    assert_eq!(f.stage, Stage::Finished);
}

#[test]
fn missing_consent_banner_goes_to_login_trigger() {
    let f = up_to_login_button(false);
    assert_eq!(f.stage, Stage::Lookup(Gate::LoginButton));
    assert_eq!(f.retry.misses, 0);
}

#[test]
fn login_trigger_never_appears() {
    let f = up_to_login_button(false);
    let (f, a, attempts, paused) = miss_until_exhausted(f, || Event::Found(false));
    assert_eq!(a, Action::CloseSession);
    assert_eq!(attempts, 10);
    assert_eq!(paused, 10_000);
    let (f, a) = feed(f, Event::Done);
    assert_eq!(a, Action::Finish(Err(LoginError::LoginButtonNotFound)));
    assert_eq!(f.stage, Stage::Finished);
}

#[test]
fn credential_fields_never_appear() {
    let f = up_to_login_button(true);
    let (f, _) = feed(f, Event::Found(true));
    let (f, a) = feed(f, Event::Done);
    assert_eq!(a, Action::FindFields);
    let (f, a, attempts, _) = miss_until_exhausted(f, || Event::FieldsFound(true, false));
    assert_eq!(a, Action::CloseSession);
    assert_eq!(attempts, MAX_ATTEMPTS);
    let (_, a) = feed(f, Event::Done);
    assert_eq!(a, Action::Finish(Err(LoginError::CredentialFieldsNotFound)));
}

/// Reaches the first token read, after a login trigger found on its third
/// attempt: the token step gets a budget of its own.
fn up_to_token() -> LoginFlow {
    let mut f = up_to_login_button(false);
    for _ in 0..2 {
        let (g, _) = feed(f, Event::Found(false));
        let (g, _) = feed(g, Event::Slept);
        f = g;
    }
    let (f, _) = feed(f, Event::Found(true));
    let (f, _) = feed(f, Event::Done);
    let (f, _) = feed(f, Event::FieldsFound(true, true));
    let (f, a) = feed(f, Event::Done);
    assert_eq!(a, Action::ReadToken);
    assert_eq!(f.retry.misses, 0);
    f
}

#[test]
fn token_never_appears() {
    let f = up_to_token();
    let (f, a, attempts, paused) = miss_until_exhausted(f, || Event::TokenRead(None));
    assert_eq!(a, Action::CloseSession);
    assert_eq!(attempts, 10);
    assert_eq!(paused, 10 * INTERVAL_MS);
    let (_, a) = feed(f, Event::Done);
    assert_eq!(a, Action::Finish(Err(LoginError::TokenNotFound)));
}

#[test]
fn empty_token_is_not_yet_a_token() {
    let f = up_to_token();
    let (f, a) = feed(f, Event::TokenRead(Some(String::new())));
    assert_eq!(a, Action::Sleep(INTERVAL_MS));
    assert_eq!(f.stage, Stage::Backoff(Gate::Token));
    assert_eq!(f.retry.misses, 1);
}

#[test]
fn token_on_last_attempt_succeeds() {
    let mut f = up_to_token();
    for _ in 0..9 {
        let (g, _) = feed(f, Event::TokenRead(None));
        let (g, a) = feed(g, Event::Slept);
        assert_eq!(a, Action::ReadToken);
        f = g;
    }
    assert_eq!(f.retry.waited_ms(), 9000);
    let (f, a) = feed(f, Event::TokenRead(Some("abc".to_string())));
    assert_eq!(a, Action::CloseSession);
    let (_, a) = feed(f, Event::Done);
    assert_eq!(a, Action::Finish(Ok("abc".to_string())));
}

#[test]
fn navigation_failure_closes_session() {
    let (f, _) = LoginFlow::start();
    let (f, a) = feed(f, Event::Failed(Failure::Navigation));
    assert_eq!(a, Action::CloseSession);
    assert_eq!(f.stage, Stage::Closing(Err(LoginError::Navigation)));
    let (_, a) = feed(f, Event::Done);
    assert_eq!(a, Action::Finish(Err(LoginError::Navigation)));
}

#[test]
fn interaction_failure_closes_session() {
    let f = up_to_login_button(false);
    let (f, _) = feed(f, Event::Found(true));
    let (f, a) = feed(f, Event::Failed(Failure::Interaction));
    assert_eq!(a, Action::CloseSession);
    let (_, a) = feed(f, Event::Done);
    assert_eq!(a, Action::Finish(Err(LoginError::Interaction)));
}

#[test]
fn evaluation_failure_closes_session() {
    let f = up_to_token();
    let (f, a) = feed(f, Event::Failed(Failure::Evaluation));
    assert_eq!(a, Action::CloseSession);
    let (_, a) = feed(f, Event::Done);
    assert_eq!(a, Action::Finish(Err(LoginError::Evaluation)));
}

#[test]
fn error_messages_are_fixed() {
    assert_eq!(LoginError::LoginButtonNotFound.message(), "Couldn't find login button");
    assert_eq!(
        LoginError::CredentialFieldsNotFound.message(),
        "Couldn't find login or password field"
    );
    assert_eq!(LoginError::TokenNotFound.message(), "Couldn't find token");
    assert_eq!(LoginError::Launch.message(), "Couldn't launch the browser");
    assert_eq!(LoginError::Navigation.message(), "Navigation failed");
    assert_eq!(LoginError::Interaction.message(), "Couldn't interact with a page element");
    assert_eq!(LoginError::Evaluation.message(), "Script evaluation failed");
    assert_eq!(LoginError::from_failure(Failure::Evaluation), LoginError::Evaluation);
}

#[test]
fn error_messages_hold_no_credentials() {
    let login = "user-7781";
    let password = "pa55-w0rd-q";
    let all = [
        LoginError::Launch,
        LoginError::Navigation,
        LoginError::Interaction,
        LoginError::Evaluation,
        LoginError::LoginButtonNotFound,
        LoginError::CredentialFieldsNotFound,
        LoginError::TokenNotFound,
    ];
    for e in all {
        assert!(!e.message().contains(login));
        assert!(!e.message().contains(password));
    }
}

#[test]
fn unexpected_events_are_refused() {
    let (f, _) = LoginFlow::start();
    assert!(!f.accepts(&Event::Slept));
    assert!(!f.accepts(&Event::Found(true)));
    assert!(f.accepts(&Event::Failed(Failure::Navigation)));
    let f = up_to_login_button(false);
    assert!(!f.accepts(&Event::TokenRead(None)));
    assert!(f.accepts(&Event::Found(false)));
    let (f, _) = feed(f, Event::Found(false));
    assert!(f.accepts(&Event::Slept));
    assert!(!f.accepts(&Event::Failed(Failure::Interaction)));
}
