use codex_pet::account::{AccountMachine, AccountStatus, LoginNotification};
use codex_pet::account_session::{
    AccountReader, account_status_read_result, cancel_login, query_account_status, account_updated_read_result,
    handle_login_notification, login_completed_read_result, read_account_login_with_reconnect,
    settle_login_start,
};
use codex_pet::codex_adapter::AdapterError;
use std::collections::VecDeque;
use std::sync::Mutex;
use std::sync::atomic::{AtomicUsize, Ordering};

struct FakeAccountReader(Mutex<VecDeque<Result<bool, AdapterError>>>);

impl AccountReader for FakeAccountReader {
    fn has_chatgpt_login(&self) -> Result<bool, AdapterError> {
        self.0
            .lock()
            .unwrap()
            .pop_front()
            .expect("unexpected account/read")
    }
}

fn reader(results: Vec<Result<bool, AdapterError>>) -> FakeAccountReader {
    FakeAccountReader(Mutex::new(VecDeque::from(results)))
}

#[test]
fn account_read_reconnects_after_a_stale_client_without_reporting_logged_out() {
    let old = reader(vec![Err(AdapterError::UnexpectedChildExit)]);
    let fresh = reader(vec![Ok(true)]);
    let pool = Mutex::new(VecDeque::from([Ok(fresh)]));
    let mut client = Some(old);
    let mut reconnected = false;
    let logged_in = read_account_login_with_reconnect(
        &mut client,
        &|| pool.lock().unwrap().pop_front().unwrap(),
        &mut reconnected,
    );
    assert!(logged_in.unwrap());
    assert!(reconnected);
}

#[test]
fn account_read_rpc_error_keeps_the_live_client_instead_of_reconnecting() {
    let old = reader(vec![Err(AdapterError::Rpc {
        code: -32000,
        message: "temporary account/read failure".into(),
        data: None,
    })]);
    let fresh = reader(vec![Ok(true)]);
    let pool = Mutex::new(VecDeque::from([Ok(fresh)]));
    let reconnect_calls = AtomicUsize::new(0);
    let mut client = Some(old);

    let mut reconnected = false;
    let result = read_account_login_with_reconnect(
        &mut client,
        &|| {
            reconnect_calls.fetch_add(1, Ordering::SeqCst);
            pool.lock().unwrap().pop_front().unwrap()
        },
        &mut reconnected,
    );

    assert!(matches!(result, Err(AdapterError::Rpc { .. })));
    assert_eq!(reconnect_calls.load(Ordering::SeqCst), 0);
    assert!(!reconnected);
    assert!(client.is_some());
}

#[test]
fn account_connect_retries_a_transient_failure_and_preserves_login() {
    let fresh = reader(vec![Ok(true)]);
    let pool = Mutex::new(VecDeque::from([
        Err(AdapterError::UnexpectedChildExit),
        Ok(fresh),
    ]));
    let mut client = None;
    let mut reconnected = false;
    let logged_in = read_account_login_with_reconnect(
        &mut client,
        &|| pool.lock().unwrap().pop_front().unwrap(),
        &mut reconnected,
    );
    assert!(logged_in.unwrap());
    assert!(reconnected);
}

#[test]
fn account_read_failure_is_an_error_not_a_logged_out_result() {
    let pool = Mutex::new(VecDeque::<Result<FakeAccountReader, AdapterError>>::from([
        Err(AdapterError::UnexpectedChildExit),
        Err(AdapterError::UnexpectedChildExit),
    ]));
    let mut client = None;
    let mut reconnected = false;
    let result = read_account_login_with_reconnect(
        &mut client,
        &|| pool.lock().unwrap().pop_front().unwrap(),
        &mut reconnected,
    );
    assert!(matches!(result, Err(AdapterError::UnexpectedChildExit)));
    assert!(reconnected);
}

#[test]
fn account_runtime_unavailable_is_not_reported_as_a_login_failure() {
    let mut machine = AccountMachine::new();
    let mut client: Option<FakeAccountReader> = None;
    let mut reconnected = false;
    let account_read = read_account_login_with_reconnect(
        &mut client,
        &|| Err(AdapterError::ExecutableNotFound),
        &mut reconnected,
    );

    let (status, became_logged_in) =
        account_status_read_result(&mut machine, account_read, reconnected);

    assert_eq!(status, AccountStatus::Unavailable);
    assert!(!became_logged_in);
}

#[test]
fn account_updated_read_error_ends_login_wait_as_unavailable() {
    let mut machine = AccountMachine::new();
    machine.begin("login-1".into());

    let outcome = account_updated_read_result(
        &mut machine,
        Err(AdapterError::UnexpectedChildExit),
        false,
    );

    assert_eq!(outcome, Some((AccountStatus::Unavailable, false)));
    assert_eq!(machine.status(), AccountStatus::Unavailable);
}

#[test]
fn account_updated_read_after_reconnect_ends_the_abandoned_login_wait() {
    let mut machine = AccountMachine::new();
    machine.begin("login-1".into());

    let outcome = account_updated_read_result(&mut machine, Ok(false), true);

    assert_eq!(outcome, Some((AccountStatus::Unavailable, false)));
    assert_eq!(machine.active_login_id(), None);
    assert_eq!(machine.status(), AccountStatus::Unavailable);
}

#[test]
fn account_updated_transient_read_error_keeps_the_pending_login() {
    let mut machine = AccountMachine::new();
    machine.begin("login-1".into());

    let outcome = account_updated_read_result(
        &mut machine,
        Err(AdapterError::Timeout {
            method: "account/read".into(),
        }),
        false,
    );

    assert_eq!(outcome, None);
    assert_eq!(machine.active_login_id(), Some("login-1"));
    assert_eq!(machine.status(), AccountStatus::LoggingIn);
}

#[test]
fn login_completion_read_error_is_not_reported_as_failed_authentication() {
    let mut machine = AccountMachine::new();
    machine.begin("login-1".into());
    assert!(machine.complete("login-1", true));

    let outcome =
        login_completed_read_result(&mut machine, Err(AdapterError::UnexpectedChildExit));

    assert_eq!(outcome, (AccountStatus::Unavailable, false));
    assert_eq!(machine.status(), AccountStatus::Unavailable);
    assert_ne!(machine.status(), AccountStatus::LoginFailed);
}

#[test]
fn login_completion_read_results_map_to_logged_in_or_failed() {
    let mut machine = AccountMachine::new();
    assert_eq!(
        login_completed_read_result(&mut machine, Ok(true)),
        (AccountStatus::LoggedIn, true)
    );
    assert_eq!(
        login_completed_read_result(&mut machine, Ok(false)),
        (AccountStatus::LoginFailed, false)
    );
}

#[test]
fn account_updated_without_pending_login_changes_nothing() {
    let mut machine = AccountMachine::new();
    machine.reconcile(false);
    assert_eq!(account_updated_read_result(&mut machine, Ok(true), true), None);
    assert_eq!(machine.status(), AccountStatus::LoggedOut);
}

#[test]
fn account_updated_login_ends_the_wait_as_logged_in() {
    let mut machine = AccountMachine::new();
    machine.begin("login-1".into());
    assert_eq!(
        account_updated_read_result(&mut machine, Ok(true), false),
        Some((AccountStatus::LoggedIn, true))
    );
    assert_eq!(machine.active_login_id(), None);
    let mut again = AccountMachine::new();
    again.begin("login-2".into());
    assert_eq!(account_updated_read_result(&mut again, Ok(false), false), None);
    assert_eq!(again.status(), AccountStatus::LoggingIn);
}

#[test]
fn status_query_keeps_a_pending_login_on_the_old_connection() {
    let mut machine = AccountMachine::new();
    machine.begin("login-1".into());
    assert_eq!(
        account_status_read_result(&mut machine, Ok(false), false),
        (AccountStatus::LoggingIn, false)
    );
    assert_eq!(
        account_status_read_result(&mut machine, Err(AdapterError::MalformedJson), false),
        (AccountStatus::LoggingIn, false)
    );
    assert_eq!(
        account_status_read_result(&mut machine, Ok(false), true),
        (AccountStatus::Unavailable, false)
    );
    assert_eq!(
        account_status_read_result(&mut machine, Ok(true), false),
        (AccountStatus::LoggedIn, true)
    );
    assert_eq!(
        account_status_read_result(&mut machine, Ok(true), false),
        (AccountStatus::LoggedIn, false)
    );
}

#[test]
fn login_notifications_drive_the_machine_through_one_account_read() {
    let mut machine = AccountMachine::new();
    machine.begin("current".into());
    let mut client = Some(reader(vec![Ok(true)]));
    let connect = || -> Result<FakeAccountReader, AdapterError> { panic!("no reconnect expected") };

    assert_eq!(
        handle_login_notification(
            &mut machine,
            &mut client,
            &connect,
            LoginNotification::Completed { login_id: "stale".into() },
        ),
        None
    );
    assert_eq!(
        handle_login_notification(
            &mut machine,
            &mut client,
            &connect,
            LoginNotification::Completed { login_id: "current".into() },
        ),
        Some((AccountStatus::LoggedIn, true))
    );
    assert_eq!(
        handle_login_notification(
            &mut machine,
            &mut client,
            &connect,
            LoginNotification::Completed { login_id: "current".into() },
        ),
        None
    );
    assert_eq!(
        handle_login_notification(&mut machine, &mut client, &connect, LoginNotification::AccountUpdated),
        None
    );
}

#[test]
fn failed_and_cancelled_notifications_need_no_account_read() {
    let mut machine = AccountMachine::new();
    let mut client = Some(reader(vec![]));
    let connect = || -> Result<FakeAccountReader, AdapterError> { panic!("no reconnect expected") };
    machine.begin("a".into());
    assert_eq!(
        handle_login_notification(
            &mut machine,
            &mut client,
            &connect,
            LoginNotification::Failed { login_id: "a".into() },
        ),
        Some((AccountStatus::LoginFailed, false))
    );
    machine.begin("b".into());
    assert_eq!(
        handle_login_notification(
            &mut machine,
            &mut client,
            &connect,
            LoginNotification::Cancelled { login_id: "b".into() },
        ),
        Some((AccountStatus::Cancelled, false))
    );
}

#[test]
fn broken_connection_on_both_attempts_drops_the_client() {
    let mut client = Some(reader(vec![Err(AdapterError::AlreadyShutdown)]));
    let pool = Mutex::new(VecDeque::from([Ok(reader(vec![Err(AdapterError::Io {
        operation: "read child stdout",
        reason: "broken pipe".into(),
    })]))]));
    let mut reconnected = false;
    let result = read_account_login_with_reconnect(
        &mut client,
        &|| pool.lock().unwrap().pop_front().unwrap(),
        &mut reconnected,
    );
    assert!(matches!(result, Err(AdapterError::Io { .. })));
    assert!(client.is_none());
    assert!(reconnected);
}

fn never_connect() -> Result<FakeAccountReader, AdapterError> {
    panic!("unexpected connect")
}

#[test]
fn a_status_query_connects_lazily_and_reports_the_new_login() {
    let pool = Mutex::new(VecDeque::from([Ok(reader(vec![Ok(true), Ok(true)]))]));
    let mut machine = AccountMachine::new();
    let mut client: Option<FakeAccountReader> = None;

    let first = query_account_status(&mut machine, &mut client, &|| {
        pool.lock().unwrap().pop_front().unwrap()
    });
    let second = query_account_status(&mut machine, &mut client, &never_connect);

    assert_eq!(first, (AccountStatus::LoggedIn, true));
    assert_eq!(second, (AccountStatus::LoggedIn, false));
    assert!(client.is_some());
}

#[test]
fn a_status_query_during_login_keeps_waiting_on_the_live_client() {
    let mut machine = AccountMachine::new();
    machine.begin("login-1".into());
    let mut client = Some(reader(vec![Ok(false)]));

    let outcome = query_account_status(&mut machine, &mut client, &never_connect);

    assert_eq!(outcome, (AccountStatus::LoggingIn, false));
    assert_eq!(machine.active_login_id(), Some("login-1"));
}

#[test]
fn a_failed_status_read_reports_unavailable() {
    let mut machine = AccountMachine::new();
    machine.reconcile(true);
    let pool = Mutex::new(VecDeque::from([
        Err(AdapterError::ExecutableNotFound),
        Err(AdapterError::ExecutableNotFound),
    ]));
    let mut client: Option<FakeAccountReader> = None;

    let outcome = query_account_status(&mut machine, &mut client, &|| {
        pool.lock().unwrap().pop_front().unwrap()
    });

    assert_eq!(outcome, (AccountStatus::Unavailable, false));
    assert!(client.is_none());
}

#[test]
fn cancelling_tells_the_server_before_the_login_ends() {
    let mut machine = AccountMachine::new();
    machine.begin("login-1".into());
    let cancelled = Mutex::new(Vec::new());

    let outcome = cancel_login(
        &mut machine,
        Some(|id: &str| {
            cancelled.lock().unwrap().push(id.to_string());
            Ok(())
        }),
    );

    assert_eq!(outcome, Ok(AccountStatus::Cancelled));
    assert_eq!(*cancelled.lock().unwrap(), vec!["login-1".to_string()]);
    assert_eq!(machine.status(), AccountStatus::Cancelled);
}

#[test]
fn a_refused_cancellation_keeps_the_login_pending() {
    let mut machine = AccountMachine::new();
    machine.begin("login-1".into());

    let outcome = cancel_login(
        &mut machine,
        Some(|_: &str| Err(AdapterError::Timeout {
            method: "account/login/cancel".into(),
        })),
    );

    assert!(outcome.is_err());
    assert_eq!(machine.status(), AccountStatus::LoggingIn);
}

#[test]
fn cancelling_without_a_pending_login_reports_the_status() {
    let mut machine = AccountMachine::new();
    machine.reconcile(false);

    let outcome = cancel_login(&mut machine, None::<fn(&str) -> Result<(), AdapterError>>);

    assert_eq!(outcome, Ok(AccountStatus::LoggedOut));

    let mut pending = AccountMachine::new();
    pending.begin("login-2".into());
    let outcome = cancel_login(&mut pending, None::<fn(&str) -> Result<(), AdapterError>>);
    assert_eq!(outcome, Ok(AccountStatus::Cancelled));
}

#[test]
fn a_stale_completion_neither_connects_nor_reads() {
    let mut machine = AccountMachine::new();
    machine.begin("current".into());
    let mut client: Option<FakeAccountReader> = None;

    let outcome = handle_login_notification(
        &mut machine,
        &mut client,
        &never_connect,
        LoginNotification::Completed {
            login_id: "stale".into(),
        },
    );

    assert_eq!(outcome, None);
    assert!(client.is_none());
    assert_eq!(machine.active_login_id(), Some("current"));
}

#[test]
fn a_login_whose_page_did_not_open_is_cancelled_and_fails() {
    let cancelled = Mutex::new(Vec::new());
    let mut machine = AccountMachine::new();
    machine.begin("login-2".to_string());
    settle_login_start(&mut machine, "login-2", false, |id: &str| {
        cancelled.lock().unwrap().push(id.to_string());
        Err(AdapterError::AlreadyShutdown)
    });
    assert_eq!(*cancelled.lock().unwrap(), vec!["login-2".to_string()]);
    assert_eq!(machine.status(), AccountStatus::LoginFailed);
    assert_eq!(machine.active_login_id(), None);

    let mut opened = AccountMachine::new();
    opened.begin("login-3".to_string());
    settle_login_start(&mut opened, "login-3", true, |_: &str| -> Result<(), AdapterError> {
        panic!("an opened login is not cancelled")
    });
    assert_eq!(opened.status(), AccountStatus::LoggingIn);
    assert_eq!(opened.active_login_id(), Some("login-3"));
}
