use std::cell::{Cell, RefCell};
use std::collections::VecDeque;
use std::rc::Rc;

use codex_pet::codex_adapter::AdapterError;
use codex_pet::quota::{
    availability, failure_message, read_quota_with_reconnect, record_read, Publication, BridgeAction, BridgeEvent,
    ClientSession, NotificationDebounce, QuotaClient, RefreshRequest, RefreshState,
    QUOTA_UPDATED_EVENT,
};
use serde_json::Value;

struct ScriptedClient {
    id: u32,
    reads: RefCell<VecDeque<Result<Value, AdapterError>>>,
    read_count: Rc<Cell<u32>>,
}

impl QuotaClient for ScriptedClient {
    fn read_rate_limits(&self) -> Result<Value, AdapterError> {
        self.read_count.set(self.read_count.get() + 1);
        self.reads
            .borrow_mut()
            .pop_front()
            .unwrap_or_else(|| Ok(Value::from(self.id)))
    }
}

struct Connector {
    connects: Cell<u32>,
    failures: Cell<u32>,
    scripts: RefCell<VecDeque<Vec<Result<Value, AdapterError>>>>,
    read_count: Rc<Cell<u32>>,
}

impl Connector {
    fn new(scripts: Vec<Vec<Result<Value, AdapterError>>>) -> Self {
        Self {
            connects: Cell::new(0),
            failures: Cell::new(0),
            scripts: RefCell::new(scripts.into_iter().collect()),
            read_count: Rc::new(Cell::new(0)),
        }
    }

    fn connect(&self) -> Result<ScriptedClient, AdapterError> {
        if self.failures.get() > 0 {
            self.failures.set(self.failures.get() - 1);
            return Err(AdapterError::SpawnFailed {
                reason: "transient".into(),
            });
        }
        self.connects.set(self.connects.get() + 1);
        let script = self.scripts.borrow_mut().pop_front().unwrap_or_default();
        Ok(ScriptedClient {
            id: self.connects.get(),
            reads: RefCell::new(script.into_iter().collect()),
            read_count: Rc::clone(&self.read_count),
        })
    }
}

fn broken() -> AdapterError {
    AdapterError::Io {
        operation: "read child stdout",
        reason: "broken pipe".into(),
    }
}

#[test]
fn the_snapshot_event_name_and_availability_are_fixed() {
    assert_eq!(QUOTA_UPDATED_EVENT, "quota://updated");
    assert_eq!(availability(Some(true)), "allowed");
    assert_eq!(availability(Some(false)), "blocked");
    assert_eq!(availability(None), "unknown");
}

#[test]
fn failure_messages_depend_on_the_last_success() {
    assert_eq!(
        failure_message(&AdapterError::UnexpectedChildExit, true),
        "更新失败：Codex App Server exited unexpectedly"
    );
    assert_eq!(
        failure_message(&AdapterError::UnexpectedChildExit, false),
        "额度暂不可用：Codex App Server exited unexpectedly"
    );
}

#[test]
fn refresh_callers_join_the_running_read() {
    let mut state = RefreshState::new();
    assert_eq!(state.request(false), RefreshRequest::StartFlight);
    for _ in 0..9 {
        assert_eq!(state.request(false), RefreshRequest::JoinActive);
    }
    assert!(!state.finish_flight());
    assert_eq!(state, RefreshState::new());
}

#[test]
fn notifications_during_a_read_queue_one_follow_up() {
    let mut state = RefreshState::new();
    assert_eq!(state.request(true), RefreshRequest::StartFlight);
    for _ in 0..10 {
        assert_eq!(state.request(true), RefreshRequest::JoinActive);
    }
    assert!(state.finish_flight());
    assert!(state.active);
    assert_eq!(state.request(false), RefreshRequest::JoinActive);
    assert!(!state.finish_flight());
    assert!(!state.active);
    assert_eq!(state.request(false), RefreshRequest::StartFlight);
}

#[test]
fn three_notifications_debounce_into_one_refresh() {
    let mut debounce = NotificationDebounce::new();
    for _ in 0..3 {
        assert_eq!(
            debounce.on_event(BridgeEvent::Notification { rate_limits: true }),
            BridgeAction::Wait
        );
    }
    assert_eq!(debounce.on_event(BridgeEvent::DeadlinePassed), BridgeAction::Refresh);
    assert_eq!(debounce.on_event(BridgeEvent::DeadlinePassed), BridgeAction::Wait);
}

#[test]
fn other_notifications_do_not_refresh_and_disconnect_stops() {
    let mut debounce = NotificationDebounce::new();
    assert_eq!(
        debounce.on_event(BridgeEvent::Notification { rate_limits: false }),
        BridgeAction::Wait
    );
    assert_eq!(debounce.on_event(BridgeEvent::DeadlinePassed), BridgeAction::Wait);
    assert_eq!(debounce.on_event(BridgeEvent::Disconnected), BridgeAction::Stop);
}

#[test]
fn connection_is_lazy_and_reused() {
    let connector = Connector::new(vec![]);
    let subscribed = Cell::new(0);
    let mut session = ClientSession::new();
    assert!(session.client.is_none());

    let first = read_quota_with_reconnect(&mut session, &|| connector.connect(), &|_client: &ScriptedClient| {
        subscribed.set(subscribed.get() + 1)
    });
    let second = read_quota_with_reconnect(&mut session, &|| connector.connect(), &|_client: &ScriptedClient| {
        subscribed.set(subscribed.get() + 1)
    });

    assert_eq!(first.unwrap(), Value::from(1));
    assert_eq!(second.unwrap(), Value::from(1));
    assert_eq!(connector.connects.get(), 1);
    assert_eq!(subscribed.get(), 1);
    assert_eq!(session.generation, 1);
}

#[test]
fn a_failed_connect_is_retried_once_per_read() {
    let connector = Connector::new(vec![]);
    connector.failures.set(1);
    let mut session = ClientSession::new();

    let read = read_quota_with_reconnect(&mut session, &|| connector.connect(), &|_client: &ScriptedClient| {});

    assert_eq!(read.unwrap(), Value::from(1));
    assert_eq!(connector.connects.get(), 1);

    let failing = Connector::new(vec![]);
    failing.failures.set(2);
    let mut session = ClientSession::new();
    let read = read_quota_with_reconnect(&mut session, &|| failing.connect(), &|_client: &ScriptedClient| {});
    assert!(matches!(read, Err(AdapterError::SpawnFailed { .. })));
    assert!(session.client.is_none());
}

#[test]
fn connection_errors_replace_the_client_within_the_read() {
    let errors = [
        AdapterError::UnexpectedChildExit,
        AdapterError::AlreadyShutdown,
        AdapterError::MalformedJson,
        AdapterError::Protocol {
            reason: "bad envelope".into(),
        },
        broken(),
        AdapterError::StderrFlooding { limit: 32 },
    ];
    for error in errors {
        let connector = Connector::new(vec![vec![Ok(Value::from(25)), Err(error.clone())], vec![]]);
        let mut session = ClientSession::new();

        let initial = read_quota_with_reconnect(&mut session, &|| connector.connect(), &|_client: &ScriptedClient| {});
        let recovered = read_quota_with_reconnect(&mut session, &|| connector.connect(), &|_client: &ScriptedClient| {});

        assert_eq!(initial.unwrap(), Value::from(25), "{error:?}");
        assert_eq!(recovered.unwrap(), Value::from(2), "{error:?}");
        assert_eq!(connector.connects.get(), 2);
        assert_eq!(session.generation, 2);
    }
}

#[test]
fn a_second_broken_connection_fails_the_read_without_a_client() {
    let connector = Connector::new(vec![vec![Err(broken())], vec![Err(broken())], vec![]]);
    let mut session = ClientSession::new();

    let read = read_quota_with_reconnect(&mut session, &|| connector.connect(), &|_client: &ScriptedClient| {});

    assert_eq!(read.unwrap_err(), broken());
    assert!(session.client.is_none());
    assert_eq!(connector.connects.get(), 2);
}

#[test]
fn rpc_errors_and_timeouts_keep_the_client() {
    let rpc = AdapterError::Rpc {
        code: -32000,
        message: "temporarily unavailable".into(),
        data: None,
    };
    let timeout = AdapterError::Timeout {
        method: "account/rateLimits/read".into(),
    };
    let connector = Connector::new(vec![vec![Err(rpc.clone()), Err(timeout.clone())]]);
    let mut session = ClientSession::new();

    let first = read_quota_with_reconnect(&mut session, &|| connector.connect(), &|_client: &ScriptedClient| {});
    let second = read_quota_with_reconnect(&mut session, &|| connector.connect(), &|_client: &ScriptedClient| {});
    let third = read_quota_with_reconnect(&mut session, &|| connector.connect(), &|_client: &ScriptedClient| {});

    assert_eq!(first.unwrap_err(), rpc);
    assert_eq!(second.unwrap_err(), timeout);
    assert_eq!(third.unwrap(), Value::from(1));
    assert_eq!(connector.connects.get(), 1);
    assert_eq!(connector.read_count.get(), 3);
}

#[test]
fn a_reset_session_connects_anew() {
    let connector = Connector::new(vec![]);
    let mut session = ClientSession::new();
    read_quota_with_reconnect(&mut session, &|| connector.connect(), &|_client: &ScriptedClient| {}).unwrap();

    session.reset();
    assert!(session.client.is_none());
    let read = read_quota_with_reconnect(&mut session, &|| connector.connect(), &|_client: &ScriptedClient| {});

    assert_eq!(read.unwrap(), Value::from(2));
    assert_eq!(session.generation, 2);
}

#[test]
fn shutdown_prevents_reconnects() {
    let connector = Connector::new(vec![]);
    let mut session = ClientSession::new();
    read_quota_with_reconnect(&mut session, &|| connector.connect(), &|_client: &ScriptedClient| {}).unwrap();

    session.stop();
    session.reset();
    let read = read_quota_with_reconnect(&mut session, &|| connector.connect(), &|_client: &ScriptedClient| {});

    assert_eq!(read.unwrap_err(), AdapterError::AlreadyShutdown);
    assert!(session.client.is_none());
    assert_eq!(connector.connects.get(), 1);
}

#[test]
fn failure_republishes_the_last_success_as_stale_and_recovery_clears_it() {
    let mut last: Option<u32> = None;

    assert_eq!(
        record_read(&mut last, Err(AdapterError::ExecutableNotFound)),
        Publication::Unavailable {
            message: format!("额度暂不可用：{}", AdapterError::ExecutableNotFound.describe())
        }
    );
    assert_eq!(last, None);
    assert_eq!(record_read(&mut last, Ok(25)), Publication::Fresh);
    assert_eq!(last, Some(25));
    assert_eq!(
        record_read(&mut last, Err(AdapterError::UnexpectedChildExit)),
        Publication::Stale {
            message: "更新失败：Codex App Server exited unexpectedly".into()
        }
    );
    assert_eq!(last, Some(25));
    assert_eq!(record_read(&mut last, Ok(30)), Publication::Fresh);
    assert_eq!(last, Some(30));
}
