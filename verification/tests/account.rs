use codex_pet::account::{AccountMachine, AccountStatus, LoginEventParams, LoginNotification};

fn params(login_id: Option<&str>, success: Option<bool>) -> LoginEventParams {
    LoginEventParams {
        login_id: login_id.map(str::to_owned),
        success,
    }
}

#[test]
fn startup_restores_the_account_state_from_account_read() {
    let mut state = AccountMachine::new();
    state.reconcile(true);
    assert_eq!(state.status(), AccountStatus::LoggedIn);

    state.reconcile(false);
    assert_eq!(state.status(), AccountStatus::LoggedOut);
}

#[test]
fn completion_only_applies_to_the_active_login() {
    let mut state = AccountMachine::new();
    state.begin("current".into());

    assert!(!state.complete("old", true));
    assert_eq!(state.status(), AccountStatus::LoggingIn);
    assert!(state.complete("current", true));
    assert_eq!(state.status(), AccountStatus::Checking);
}

#[test]
fn login_notifications_require_the_active_login_id_and_ignore_duplicates() {
    let notification = LoginNotification::from_server_event(
        "account/login/completed",
        &params(Some("current"), Some(true)),
    )
    .unwrap();
    assert_eq!(
        notification,
        LoginNotification::Completed {
            login_id: "current".into()
        }
    );

    let mut state = AccountMachine::new();
    state.begin("current".into());
    assert!(state.complete(notification.login_id().unwrap(), true));
    assert!(!state.complete(notification.login_id().unwrap(), true));
    assert!(!state.complete("stale", true));
}

#[test]
fn failed_completion_does_not_count_as_success() {
    assert_eq!(
        LoginNotification::from_server_event(
            "account/login/completed",
            &params(Some("current"), Some(false)),
        ),
        Some(LoginNotification::Failed {
            login_id: "current".into()
        })
    );
}

#[test]
fn account_updated_has_no_login_id_and_requests_an_authoritative_read() {
    let notification =
        LoginNotification::from_server_event("account/updated", &params(None, None));
    assert_eq!(notification, Some(LoginNotification::AccountUpdated));
    assert_eq!(notification.unwrap().login_id(), None);
}

#[test]
fn failed_and_cancelled_login_return_to_retryable_terminal_states() {
    let mut state = AccountMachine::new();
    state.begin("failed".into());
    assert!(state.complete("failed", false));
    assert_eq!(state.status(), AccountStatus::LoginFailed);

    state.begin("cancelled".into());
    assert!(state.cancel("cancelled"));
    assert_eq!(state.status(), AccountStatus::Cancelled);
}

#[test]
fn new_machine_checks_without_a_pending_login() {
    let state = AccountMachine::default();
    assert_eq!(state.status(), AccountStatus::Checking);
    assert_eq!(state.active_login_id(), None);
}

#[test]
fn pending_login_exists_exactly_while_logging_in() {
    let mut state = AccountMachine::new();
    state.begin("first".into());
    assert_eq!(state.active_login_id(), Some("first"));
    assert_eq!(state.status(), AccountStatus::LoggingIn);
    state.fail();
    assert_eq!(state.active_login_id(), None);
    assert_eq!(state.status(), AccountStatus::LoginFailed);
    state.begin("second".into());
    state.unavailable();
    assert_eq!(state.active_login_id(), None);
    assert_eq!(state.status(), AccountStatus::Unavailable);
}

#[test]
fn a_new_login_makes_the_earlier_one_stale() {
    let mut state = AccountMachine::new();
    state.begin("earlier".into());
    state.begin("current".into());
    assert!(!state.complete("earlier", true));
    assert!(!state.cancel("earlier"));
    assert_eq!(state.active_login_id(), Some("current"));
    assert!(state.cancel("current"));
    assert!(!state.cancel("current"));
    assert!(!state.complete("current", true));
    assert_eq!(state.status(), AccountStatus::Cancelled);
}

#[test]
fn login_failed_and_cancelled_events_need_a_login_id() {
    assert_eq!(
        LoginNotification::from_server_event("account/login/failed", &params(Some("x"), None)),
        Some(LoginNotification::Failed { login_id: "x".into() })
    );
    assert_eq!(
        LoginNotification::from_server_event("account/login/cancelled", &params(Some("y"), None)),
        Some(LoginNotification::Cancelled { login_id: "y".into() })
    );
    assert_eq!(
        LoginNotification::from_server_event("account/login/failed", &params(None, Some(false))),
        None
    );
    assert_eq!(
        LoginNotification::from_server_event("account/login/completed", &params(Some("x"), None)),
        None
    );
    assert_eq!(
        LoginNotification::from_server_event("account/login/completed", &params(None, Some(true))),
        None
    );
    assert_eq!(
        LoginNotification::from_server_event("account/rateLimits/updated", &params(Some("x"), Some(true))),
        None
    );
}
