//! Scheduling of quota reads: one read at a time shared by all callers,
//! at most one follow-up for the notifications that arrive during a read,
//! debouncing of rate-limit notifications, and one reconnect per read
//! after a broken connection.

use vstd::prelude::*;
use crate::codex_adapter::{AdapterError, account_error_requires_reconnect, breaks_connection, error_text};
use vstd::string::*;

verus! {

/// The event under which quota snapshots are published.
pub const QUOTA_UPDATED_EVENT: &'static str = "quota://updated";

/// How long the bridge waits after the latest rate-limit notification
/// before it asks for a refresh; each such notification restarts the wait.
pub const NOTIFICATION_DEBOUNCE_MILLIS: u64 = 800;

/// The message of the snapshot published after a failed read: the last
/// good snapshot is republished as out of date, or, without one, the quota
/// is reported unavailable.
pub open spec fn failure_message_text(error: AdapterError, has_last_success: bool) -> Seq<char> {
    (if has_last_success {
        "更新失败："@
    } else {
        "额度暂不可用："@
    }) + error_text(error)
}

pub fn failure_message(error: &AdapterError, has_last_success: bool) -> (message: String)
    ensures
        message@ == failure_message_text(*error, has_last_success),
{
    let mut message = if has_last_success {
        String::from_str("更新失败：")
    } else {
        String::from_str("额度暂不可用：")
    };
    let detail = error.describe();
    message.append(detail.as_str());
    message
}

/// The availability that a snapshot reports for the `ordinaryUsageAllowed`
/// flag of the response (none when absent or not a boolean).
pub open spec fn availability_text(allowed: Option<bool>) -> Seq<char> {
    match allowed {
        Some(true) => "allowed"@,
        Some(false) => "blocked"@,
        None => "unknown"@,
    }
}

pub fn availability(allowed: Option<bool>) -> (availability: &'static str)
    ensures
        availability@ == availability_text(allowed),
{
    match allowed {
        Some(true) => "allowed",
        Some(false) => "blocked",
        None => "unknown",
    }
}

/// What the refresh publishes after a read.
#[derive(Debug, PartialEq)]
pub enum Publication {
    /// The new snapshot, now also the last good one.
    Fresh,
    /// The last good snapshot again, marked out of date, with this message.
    Stale { message: String },
    /// No snapshot: the quota is unavailable, with this message.
    Unavailable { message: String },
}

/// Applies the outcome of a read to the last good snapshot: a new snapshot
/// replaces it and is published; after a failure the last good snapshot is
/// republished as out of date, or, without one, the quota is unavailable.
pub fn record_read<S>(last_success: &mut Option<S>, read: Result<S, AdapterError>) -> (publication: Publication)
    ensures
        match read {
            Ok(snapshot) => publication == Publication::Fresh && *final(last_success) == Some(snapshot),
            Err(error) => {
                &&& *final(last_success) == *old(last_success)
                &&& match publication {
                    Publication::Stale { message } => old(last_success).is_some() && message@
                        == failure_message_text(error, true),
                    Publication::Unavailable { message } => old(last_success).is_none() && message@
                        == failure_message_text(error, false),
                    Publication::Fresh => false,
                }
            },
        },
{
    match read {
        Ok(snapshot) => {
            *last_success = Some(snapshot);
            Publication::Fresh
        },
        Err(error) => {
            if last_success.is_some() {
                Publication::Stale { message: failure_message(&error, true) }
            } else {
                Publication::Unavailable { message: failure_message(&error, false) }
            }
        },
    }
}

/// What a refresh request leads to.
#[derive(Clone, Copy, Debug, PartialEq, Eq, Structural)]
pub enum RefreshRequest {
    /// A read is running; the caller shares its result.
    JoinActive,
    /// No read is running; the caller starts one.
    StartFlight,
}

/// Whether a read is running, and whether a notification asked for another
/// read while it ran.
#[derive(Clone, Copy, Debug, PartialEq, Eq, Structural)]
pub struct RefreshState {
    pub active: bool,
    pub event_pending: bool,
}

/// A refresh request: while a read runs, the caller joins it and a
/// notification marks one more read as due; otherwise a read starts.
pub open spec fn request_step(before: RefreshState, event: bool) -> (RefreshRequest, RefreshState) {
    if before.active {
        (RefreshRequest::JoinActive, RefreshState { active: true, event_pending: before.event_pending || event })
    } else {
        (RefreshRequest::StartFlight, RefreshState { active: true, event_pending: before.event_pending })
    }
}

/// The running read finished: a follow-up read starts if one became due.
pub open spec fn finish_step(before: RefreshState) -> (bool, RefreshState) {
    (before.event_pending, RefreshState { active: before.event_pending, event_pending: false })
}

/// The state after the requests `events` (each telling a notification).
pub open spec fn after_requests(state: RefreshState, events: Seq<bool>) -> RefreshState
    decreases events.len(),
{
    if events.len() == 0 {
        state
    } else {
        request_step(after_requests(state, events.drop_last()), events.last()).1
    }
}

/// While a read runs, every request joins it: no second read overlaps it,
/// and a notification is remembered if any of the requests was one.
pub proof fn law_requests_join_the_running_read(state: RefreshState, events: Seq<bool>)
    requires
        state.active,
    ensures
        after_requests(state, events).active,
        after_requests(state, events).event_pending == (state.event_pending || events.contains(true)),
        forall|i: int|
            0 <= i < events.len() ==> #[trigger] request_step(after_requests(state, events.take(i)), events[i]).0
                == RefreshRequest::JoinActive,
    decreases events.len(),
{
    if events.len() > 0 {
        let earlier = events.drop_last();
        law_requests_join_the_running_read(state, earlier);
        assert forall|i: int| 0 <= i < events.len() implies #[trigger] request_step(
            after_requests(state, events.take(i)),
            events[i],
        ).0 == RefreshRequest::JoinActive by {
            if i < earlier.len() {
                assert(events.take(i) =~= earlier.take(i));
                assert(events[i] == earlier[i]);
            } else {
                assert(events.take(i) =~= earlier);
            }
        }
        if events.contains(true) && !earlier.contains(true) {
            let j = choose|j: int| 0 <= j < events.len() && events[j] == true;
            if j < earlier.len() {
                assert(earlier[j] == true);
            }
        }
        if earlier.contains(true) {
            let j = choose|j: int| 0 <= j < earlier.len() && earlier[j] == true;
            assert(events[j] == true);
        }
        if events.last() {
            assert(events[events.len() - 1] == true);
        }
    }
}

/// A read started while none runs owes no follow-up, whether a notification
/// or a caller asked for it: only notifications that arrive while it runs
/// make one more read due, and without them finishing the read leaves no
/// read running and none due.
pub proof fn law_a_read_from_idle_owes_no_follow_up(first: bool, events: Seq<bool>)
    ensures
        request_step(RefreshState { active: false, event_pending: false }, first) == (
            RefreshRequest::StartFlight,
            RefreshState { active: true, event_pending: false },
        ),
        ({
            let started = request_step(RefreshState { active: false, event_pending: false }, first).1;
            &&& finish_step(after_requests(started, events)).0 == events.contains(true)
            &&& !events.contains(true) ==> finish_step(after_requests(started, events)).1 == (
                RefreshState { active: false, event_pending: false })
        }),
{
    let started = request_step(RefreshState { active: false, event_pending: false }, first).1;
    if started == (RefreshState { active: true, event_pending: false }) {
        law_single_follow_up(started, events);
    }
}

/// However many notifications arrive during a read, exactly one follow-up
/// read runs after it, and after that follow-up, without new requests, no
/// read runs.
pub proof fn law_single_follow_up(state: RefreshState, events: Seq<bool>)
    requires
        state.active,
        !state.event_pending,
    ensures
        finish_step(after_requests(state, events)).0 == events.contains(true),
        events.contains(true) ==> finish_step(finish_step(after_requests(state, events)).1) == (
            false,
            RefreshState { active: false, event_pending: false },
        ),
        !events.contains(true) ==> finish_step(after_requests(state, events)).1 == (RefreshState {
            active: false,
            event_pending: false,
        }),
{
    law_requests_join_the_running_read(state, events);
}

impl RefreshState {
    pub fn new() -> (state: Self)
        ensures
            state == (RefreshState { active: false, event_pending: false }),
    {
        RefreshState { active: false, event_pending: false }
    }

    /// A refresh request; `event` tells a notification from a caller that
    /// waits for the result. While a read runs, callers join it and
    /// notifications only mark that one more read is due.
    pub fn request(&mut self, event: bool) -> (request: RefreshRequest)
        ensures
            (request, *final(self)) == request_step(*old(self), event),
    {
        if self.active {
            self.event_pending = self.event_pending || event;
            RefreshRequest::JoinActive
        } else {
            self.active = true;
            RefreshRequest::StartFlight
        }
    }

    /// The running read finished. Returns whether one follow-up read starts
    /// at once for the notifications that came in meanwhile; however many
    /// came, it is one.
    pub fn finish_flight(&mut self) -> (follow_up: bool)
        requires
            old(self).active,
        ensures
            (follow_up, *final(self)) == finish_step(*old(self)),
    {
        let follow_up = self.event_pending;
        self.event_pending = false;
        self.active = follow_up;
        follow_up
    }
}

/// What reaches the notification bridge.
#[derive(Clone, Copy, Debug, PartialEq, Eq, Structural)]
pub enum BridgeEvent {
    /// A notification; `rate_limits` tells `account/rateLimits/updated`.
    Notification { rate_limits: bool },
    /// The debounce deadline passed without a newer rate-limit notification.
    DeadlinePassed,
    /// The client stopped sending notifications.
    Disconnected,
}

/// What the bridge does next.
#[derive(Clone, Copy, Debug, PartialEq, Eq, Structural)]
pub enum BridgeAction {
    /// Keep waiting, with the deadline (re)armed or as it was.
    Wait,
    /// Ask for one notification refresh.
    Refresh,
    /// End the bridge.
    Stop,
}

/// Debounces rate-limit notifications: each one restarts the deadline, and
/// only a deadline that passes asks for a refresh. Other notifications and
/// the notifications' payloads are ignored.
#[derive(Clone, Copy, Debug, PartialEq, Eq, Structural)]
pub struct NotificationDebounce {
    pub armed: bool,
}

/// One event at the bridge: a rate-limit notification (re)arms the
/// deadline, other notifications change nothing, a passed deadline asks for
/// a refresh if armed, and disconnection ends the bridge.
pub open spec fn bridge_step(before: NotificationDebounce, event: BridgeEvent) -> (BridgeAction, NotificationDebounce) {
    match event {
        BridgeEvent::Notification { rate_limits } => (
            BridgeAction::Wait,
            NotificationDebounce { armed: before.armed || rate_limits },
        ),
        BridgeEvent::DeadlinePassed => if before.armed {
            (BridgeAction::Refresh, NotificationDebounce { armed: false })
        } else {
            (BridgeAction::Wait, NotificationDebounce { armed: false })
        },
        BridgeEvent::Disconnected => (BridgeAction::Stop, before),
    }
}

/// The debounce state after the notifications whose kinds are `rate_limits`.
pub open spec fn after_notifications(state: NotificationDebounce, rate_limits: Seq<bool>) -> NotificationDebounce
    decreases rate_limits.len(),
{
    if rate_limits.len() == 0 {
        state
    } else {
        bridge_step(
            after_notifications(state, rate_limits.drop_last()),
            BridgeEvent::Notification { rate_limits: rate_limits.last() },
        ).1
    }
}

/// A burst of notifications before the deadline leads to one refresh if any
/// of them reported new rate limits, and to none otherwise; the next
/// deadline asks for nothing.
pub proof fn law_burst_refreshes_once(rate_limits: Seq<bool>)
    ensures
        ({
            let armed = after_notifications(NotificationDebounce { armed: false }, rate_limits);
            let (first, rest) = bridge_step(armed, BridgeEvent::DeadlinePassed);
            &&& first == (if rate_limits.contains(true) {
                BridgeAction::Refresh
            } else {
                BridgeAction::Wait
            })
            &&& bridge_step(rest, BridgeEvent::DeadlinePassed).0 == BridgeAction::Wait
        }),
    decreases rate_limits.len(),
{
    lemma_armed_iff_rate_limits(rate_limits);
}

proof fn lemma_armed_iff_rate_limits(rate_limits: Seq<bool>)
    ensures
        after_notifications(NotificationDebounce { armed: false }, rate_limits).armed == rate_limits.contains(
            true,
        ),
    decreases rate_limits.len(),
{
    if rate_limits.len() > 0 {
        let earlier = rate_limits.drop_last();
        lemma_armed_iff_rate_limits(earlier);
        if earlier.contains(true) {
            let j = choose|j: int| 0 <= j < earlier.len() && earlier[j] == true;
            assert(rate_limits[j] == true);
        }
        if rate_limits.contains(true) && !earlier.contains(true) {
            let j = choose|j: int| 0 <= j < rate_limits.len() && rate_limits[j] == true;
            if j < earlier.len() {
                assert(earlier[j] == true);
            }
        }
        if rate_limits.last() {
            assert(rate_limits[rate_limits.len() - 1] == true);
        }
    }
}

impl NotificationDebounce {
    pub fn new() -> (debounce: Self)
        ensures
            !debounce.armed,
    {
        NotificationDebounce { armed: false }
    }

    pub fn on_event(&mut self, event: BridgeEvent) -> (action: BridgeAction)
        ensures
            (action, *final(self)) == bridge_step(*old(self), event),
    {
        match event {
            BridgeEvent::Notification { rate_limits } => {
                if rate_limits {
                    self.armed = true;
                }
                BridgeAction::Wait
            },
            BridgeEvent::DeadlinePassed => {
                if self.armed {
                    self.armed = false;
                    BridgeAction::Refresh
                } else {
                    BridgeAction::Wait
                }
            },
            BridgeEvent::Disconnected => BridgeAction::Stop,
        }
    }
}

/// A connection that can read the rate limits.
pub trait QuotaClient {
    fn read_rate_limits(&self) -> Result<serde_json::Value, AdapterError>;
}

/// The quota client of the application: absent until first needed, dropped
/// after a broken connection, and gone for good after shutdown. The
/// generation counts the connections made.
pub struct ClientSession<C> {
    pub client: Option<C>,
    pub stopped: bool,
    pub generation: u64,
}

/// `generation` advanced by one connection (wrapping like the release build).
pub open spec fn next_generation(generation: u64) -> u64 {
    if generation == u64::MAX {
        0
    } else {
        (generation + 1) as u64
    }
}

impl<C> ClientSession<C> {
    pub fn new() -> (session: Self)
        ensures
            session.client.is_none() && !session.stopped && session.generation == 0,
    {
        ClientSession { client: None, stopped: false, generation: 0 }
    }

    /// Drops the client (after a login) so that the next read connects anew;
    /// a stopped session stays as it is.
    pub fn reset(&mut self)
        ensures
            final(self).stopped == old(self).stopped,
            final(self).generation == old(self).generation,
            old(self).stopped ==> final(self).client == old(self).client,
            !old(self).stopped ==> final(self).client.is_none(),
    {
        if !self.stopped {
            self.client = None;
        }
    }

    /// Drops the client and refuses every later read.
    pub fn stop(&mut self)
        ensures
            final(self).stopped,
            final(self).client.is_none(),
            final(self).generation == old(self).generation,
    {
        self.stopped = true;
        self.client = None;
    }
}

/// One outside call made while reading the rate limits: a connection
/// attempt, or a read on the current client.
pub enum QuotaEvent<C> {
    Connected(Result<C, AdapterError>),
    Answered(Result<serde_json::Value, AdapterError>),
}

/// What a quota read made of the calls `events`, starting in `attempt` (0
/// or 1) with `client` and `generation`: the answer, the client kept and the
/// generation, or none when `events` is not a complete run. Without a
/// client, one is connected, counted and handed to `subscribe` before it is
/// used; a failed connect is retried once. The client is read; a broken
/// connection drops it and, the first time, the read starts over; any other
/// answer ends the read with the client kept.
pub open spec fn quota_read_run<C: QuotaClient, F: Fn() -> Result<C, AdapterError>, G: Fn(&C)>(
    connect: &F,
    subscribe: &G,
    attempt: nat,
    client: Option<C>,
    generation: u64,
    events: Seq<QuotaEvent<C>>,
) -> Option<(Result<serde_json::Value, AdapterError>, Option<C>, u64)>
    decreases events.len(),
{
    if events.len() == 0 {
        None
    } else {
        let rest = events.drop_first();
        match client {
            None => match events[0] {
                QuotaEvent::Connected(connected) => if !call_ensures(connect, (), connected) {
                    None
                } else {
                    match connected {
                        Ok(fresh) => if call_ensures(subscribe, (&fresh,), ()) {
                            quota_read_run(connect, subscribe, attempt, Some(fresh), next_generation(generation), rest)
                        } else {
                            None
                        },
                        Err(error) => if attempt == 0 {
                            quota_read_run(connect, subscribe, 1, None, generation, rest)
                        } else if rest.len() == 0 {
                            Some((Err(error), None, generation))
                        } else {
                            None
                        },
                    }
                },
                QuotaEvent::Answered(_) => None,
            },
            Some(current) => match events[0] {
                QuotaEvent::Answered(answer) => if !call_ensures(C::read_rate_limits, (&current,), answer) {
                    None
                } else {
                    match answer {
                        Ok(value) => if rest.len() == 0 {
                            Some((Ok(value), Some(current), generation))
                        } else {
                            None
                        },
                        Err(error) => if breaks_connection(error) {
                            if attempt == 0 {
                                quota_read_run(connect, subscribe, 1, None, generation, rest)
                            } else if rest.len() == 0 {
                                Some((Err(error), None, generation))
                            } else {
                                None
                            }
                        } else if rest.len() == 0 {
                            Some((Err(error), Some(current), generation))
                        } else {
                            None
                        },
                    }
                },
                QuotaEvent::Connected(_) => None,
            },
        }
    }
}

/// The quota read ended with `read`, the client `after` and the generation
/// `generation`, through calls that `connect`, `subscribe` and the clients
/// answered (see [`quota_read_run`]).
pub open spec fn quota_read<C: QuotaClient, F: Fn() -> Result<C, AdapterError>, G: Fn(&C)>(
    connect: &F,
    subscribe: &G,
    before: Option<C>,
    generation_before: u64,
    read: Result<serde_json::Value, AdapterError>,
    after: Option<C>,
    generation: u64,
) -> bool {
    exists|events: Seq<QuotaEvent<C>>|
        #[trigger] quota_read_run(connect, subscribe, 0, before, generation_before, events) == Some(
            (read, after, generation),
        )
}

/// Reads the rate limits, connecting when there is no client (retrying a
/// failed connect once) and reconnecting once within the same read after a
/// broken connection; every new client is handed to `subscribe` before it
/// is used. A stopped session refuses to read.
#[verifier::spinoff_prover]
#[verifier::rlimit(40)]
pub fn read_quota_with_reconnect<C: QuotaClient, F: Fn() -> Result<C, AdapterError>, G: Fn(&C)>(
    session: &mut ClientSession<C>,
    connect: &F,
    subscribe: &G,
) -> (read: Result<serde_json::Value, AdapterError>)
    requires
        connect.requires(()),
        forall|client: &C| subscribe.requires((client,)),
    ensures
        old(session).stopped ==> (read matches Err(AdapterError::AlreadyShutdown)) && *final(session)
            == *old(session),
        !old(session).stopped ==> !final(session).stopped && quota_read(
            connect,
            subscribe,
            old(session).client,
            old(session).generation,
            read,
            final(session).client,
            final(session).generation,
        ),
{
    if session.stopped {
        return Err(AdapterError::AlreadyShutdown);
    }
    let ghost mut events: Seq<QuotaEvent<C>> = Seq::empty();
    let mut attempt: usize = 0;
    assert forall|future: Seq<QuotaEvent<C>>|
        quota_read_run(connect, subscribe, 0, old(session).client, old(session).generation, events + future)
            == quota_read_run(connect, subscribe, 0, old(session).client, old(session).generation, future) by {
        assert(events + future =~= future);
    }
    loop
        invariant
            attempt < 2,
            !session.stopped,
            !old(session).stopped,
            connect.requires(()),
            forall|client: &C| subscribe.requires((client,)),
            forall|future: Seq<QuotaEvent<C>>|
                #![trigger quota_read_run(connect, subscribe, attempt as nat, session.client, session.generation, future)]
                quota_read_run(connect, subscribe, 0, old(session).client, old(session).generation, events + future)
                    == quota_read_run(connect, subscribe, attempt as nat, session.client, session.generation, future),
        decreases 2 - attempt, if session.client.is_none() { 1int } else { 0int },
    {
        if session.client.is_none() {
            let connected = connect();
            let ghost event = QuotaEvent::Connected(connected);
            match connected {
                Ok(connected) => {
                    subscribe(&connected);
                    proof {
                        assert(call_ensures(subscribe, (&connected,), ()));
                        assert forall|future: Seq<QuotaEvent<C>>|
                            quota_read_run(connect, subscribe, 0, old(session).client, old(session).generation, events.push(event) + future)
                                == quota_read_run(connect, subscribe, attempt as nat, Some(connected), next_generation(session.generation), future) by {
                            assert(events.push(event) + future =~= events + (seq![event] + future));
                            assert((seq![event] + future).drop_first() =~= future);
                            assert((seq![event] + future)[0] == event);
                            assert(quota_read_run(connect, subscribe, 0, old(session).client, old(session).generation, events + (seq![event] + future))
                                == quota_read_run(connect, subscribe, attempt as nat, session.client, session.generation, seq![event] + future));
                        }
                        events = events.push(event);
                    }
                    session.generation = session.generation.wrapping_add(1);
                    session.client = Some(connected);
                },
                Err(error) => {
                    proof {
                        assert forall|future: Seq<QuotaEvent<C>>|
                            quota_read_run(connect, subscribe, 0, old(session).client, old(session).generation, events.push(event) + future)
                                == (if attempt == 0 {
                                quota_read_run(connect, subscribe, 1, None, session.generation, future)
                            } else if future.len() == 0 {
                                Some((Err(error), None::<C>, session.generation))
                            } else {
                                None
                            }) by {
                            assert(events.push(event) + future =~= events + (seq![event] + future));
                            assert((seq![event] + future).drop_first() =~= future);
                            assert((seq![event] + future)[0] == event);
                            assert(quota_read_run(connect, subscribe, 0, old(session).client, old(session).generation, events + (seq![event] + future))
                                == quota_read_run(connect, subscribe, attempt as nat, session.client, session.generation, seq![event] + future));
                        }
                        events = events.push(event);
                    }
                    if attempt == 0 {
                        attempt = 1;
                        continue;
                    }
                    proof {
                        assert(events + Seq::<QuotaEvent<C>>::empty() =~= events);
                        assert(quota_read_run(connect, subscribe, 0, old(session).client, old(session).generation, events)
                            == Some((Err::<serde_json::Value, AdapterError>(error), None::<C>, session.generation)));
                    }
                    return Err(error);
                },
            }
        }
        let answer = session.client.as_ref().unwrap().read_rate_limits();
        let ghost current = session.client.unwrap();
        let ghost event = QuotaEvent::<C>::Answered(answer);
        proof {
            assert forall|future: Seq<QuotaEvent<C>>|
                quota_read_run(connect, subscribe, 0, old(session).client, old(session).generation, events.push(event) + future)
                    == quota_read_run(connect, subscribe, attempt as nat, session.client, session.generation, seq![event] + future) by {
                assert(events.push(event) + future =~= events + (seq![event] + future));
            }
            assert forall|future: Seq<QuotaEvent<C>>|
                #![trigger quota_read_run(connect, subscribe, attempt as nat, session.client, session.generation, seq![event] + future)]
                quota_read_run(connect, subscribe, attempt as nat, session.client, session.generation, seq![event] + future)
                    == match answer {
                    Ok(value) => if future.len() == 0 {
                        Some((Ok(value), Some(current), session.generation))
                    } else {
                        None
                    },
                    Err(error) => if breaks_connection(error) {
                        if attempt == 0 {
                            quota_read_run(connect, subscribe, 1, None, session.generation, future)
                        } else if future.len() == 0 {
                            Some((Err(error), None::<C>, session.generation))
                        } else {
                            None
                        }
                    } else if future.len() == 0 {
                        Some((Err(error), Some(current), session.generation))
                    } else {
                        None
                    },
                } by {
                assert((seq![event] + future).drop_first() =~= future);
                assert((seq![event] + future)[0] == event);
            }
            events = events.push(event);
            assert(events + Seq::<QuotaEvent<C>>::empty() =~= events);
        }
        match answer {
            Ok(value) => {
                assert(quota_read_run(connect, subscribe, 0, old(session).client, old(session).generation, events)
                    == Some((Ok::<serde_json::Value, AdapterError>(value), session.client, session.generation)));
                return Ok(value);
            },
            Err(error) => {
                if account_error_requires_reconnect(&error) {
                    session.client = None;
                    if attempt == 0 {
                        attempt = 1;
                        continue;
                    }
                    assert(quota_read_run(connect, subscribe, 0, old(session).client, old(session).generation, events)
                        == Some((Err::<serde_json::Value, AdapterError>(error), None::<C>, session.generation)));
                    return Err(error);
                }
                assert(quota_read_run(connect, subscribe, 0, old(session).client, old(session).generation, events)
                    == Some((Err::<serde_json::Value, AdapterError>(error), session.client, session.generation)));
                return Err(error);
            },
        }
    }
}

proof fn lemma_no_quota_client_left_means_error<C: QuotaClient, F: Fn() -> Result<C, AdapterError>, G: Fn(&C)>(
    connect: &F,
    subscribe: &G,
    attempt: nat,
    client: Option<C>,
    generation: u64,
    events: Seq<QuotaEvent<C>>,
    read: Result<serde_json::Value, AdapterError>,
    generation_after: u64,
)
    requires
        quota_read_run(connect, subscribe, attempt, client, generation, events) == Some(
            (read, None::<C>, generation_after),
        ),
    ensures
        read is Err,
    decreases events.len(),
{
    let rest = events.drop_first();
    match client {
        None => match events[0] {
            QuotaEvent::Connected(Ok(fresh)) => {
                lemma_no_quota_client_left_means_error(
                    connect,
                    subscribe,
                    attempt,
                    Some(fresh),
                    next_generation(generation),
                    rest,
                    read,
                    generation_after,
                );
            },
            QuotaEvent::Connected(Err(_)) => {
                if attempt == 0 {
                    lemma_no_quota_client_left_means_error(connect, subscribe, 1, None, generation, rest, read, generation_after);
                }
            },
            _ => {},
        },
        Some(_) => match events[0] {
            QuotaEvent::Answered(Err(error)) => {
                if breaks_connection(error) && attempt == 0 {
                    lemma_no_quota_client_left_means_error(connect, subscribe, 1, None, generation, rest, read, generation_after);
                }
            },
            _ => {},
        },
    }
}

/// A quota read that ends without a client (every connect failed, or the
/// connection broke again after the reconnect) fails: rate limits are only
/// ever reported from a connected client.
pub proof fn law_a_read_without_a_client_fails<C: QuotaClient, F: Fn() -> Result<C, AdapterError>, G: Fn(&C)>(
    connect: &F,
    subscribe: &G,
    client: Option<C>,
    generation: u64,
    read: Result<serde_json::Value, AdapterError>,
    generation_after: u64,
)
    requires
        quota_read(connect, subscribe, client, generation, read, None, generation_after),
    ensures
        read is Err,
{
    let events = choose|events: Seq<QuotaEvent<C>>|
        #[trigger] quota_read_run(connect, subscribe, 0, client, generation, events) == Some(
            (read, None::<C>, generation_after),
        );
    lemma_no_quota_client_left_means_error(connect, subscribe, 0, client, generation, events, read, generation_after);
}

} // verus!
