//! How account reads against the App Server drive the account machine:
//! reconnecting once after a broken connection, and what each read result
//! means while a login is pending.

use vstd::prelude::*;
use crate::account::{
    AccountMachine, AccountStatus, AccountView, LoginNotification, LoginNotificationView, settled,
};
use crate::codex_adapter::{AdapterError, account_error_requires_reconnect, breaks_connection};

verus! {

/// A connection that can answer `account/read`.
pub trait AccountReader {
    /// Whether the App Server reports a ChatGPT login.
    fn has_chatgpt_login(&self) -> Result<bool, AdapterError>;
}

/// One outside call made while reading the login state: a connection
/// attempt, or an `account/read` on the current client.
pub enum ReadEvent<C> {
    Connected(Result<C, AdapterError>),
    Answered(Result<bool, AdapterError>),
}

/// What a login read made of the calls `events`, starting in `attempt` (0
/// or 1) with `client` and the reconnect flag `raised`: the answer, the
/// client kept and the flag, or none when `events` is not a complete run.
/// Without a client, one is connected (the flag is raised); a failed connect
/// is retried once. The client is asked; a broken connection drops it
/// (the flag is raised) and, the first time, the read starts over; any other
/// answer ends the read with the client kept.
pub open spec fn login_read_run<C: AccountReader, F: Fn() -> Result<C, AdapterError>>(
    connect: &F,
    attempt: nat,
    client: Option<C>,
    raised: bool,
    events: Seq<ReadEvent<C>>,
) -> Option<(Result<bool, AdapterError>, Option<C>, bool)>
    decreases events.len(),
{
    if events.len() == 0 {
        None
    } else {
        let rest = events.drop_first();
        match client {
            None => match events[0] {
                ReadEvent::Connected(connected) => if !call_ensures(connect, (), connected) {
                    None
                } else {
                    match connected {
                        Ok(fresh) => login_read_run(connect, attempt, Some(fresh), true, rest),
                        Err(error) => if attempt == 0 {
                            login_read_run(connect, 1, None, true, rest)
                        } else if rest.len() == 0 {
                            Some((Err(error), None, true))
                        } else {
                            None
                        },
                    }
                },
                ReadEvent::Answered(_) => None,
            },
            Some(current) => match events[0] {
                ReadEvent::Answered(answer) => if !call_ensures(C::has_chatgpt_login, (&current,), answer) {
                    None
                } else {
                    match answer {
                        Ok(logged_in) => if rest.len() == 0 {
                            Some((Ok(logged_in), Some(current), raised))
                        } else {
                            None
                        },
                        Err(error) => if breaks_connection(error) {
                            if attempt == 0 {
                                login_read_run(connect, 1, None, true, rest)
                            } else if rest.len() == 0 {
                                Some((Err(error), None, true))
                            } else {
                                None
                            }
                        } else if rest.len() == 0 {
                            Some((Err(error), Some(current), raised))
                        } else {
                            None
                        },
                    }
                },
                ReadEvent::Connected(_) => None,
            },
        }
    }
}

/// The read of the login state ended with `logged_in`, the client `after`
/// and the flag `raised`, through calls that `connect` and the clients
/// answered (see [`login_read_run`]).
pub open spec fn login_read<C: AccountReader, F: Fn() -> Result<C, AdapterError>>(
    connect: &F,
    before: Option<C>,
    raised_before: bool,
    logged_in: Result<bool, AdapterError>,
    after: Option<C>,
    raised: bool,
) -> bool {
    exists|events: Seq<ReadEvent<C>>|
        #[trigger] login_read_run(connect, 0, before, raised_before, events) == Some((logged_in, after, raised))
}

proof fn lemma_run_prefix<C: AccountReader, F: Fn() -> Result<C, AdapterError>>(
    connect: &F,
    attempt: nat,
    client: Option<C>,
    raised: bool,
    event: ReadEvent<C>,
    future: Seq<ReadEvent<C>>,
)
    ensures
        login_read_run(connect, attempt, client, raised, seq![event] + future) == {
            let events = seq![event] + future;
            login_read_run(connect, attempt, client, raised, events)
        },
        (seq![event] + future).drop_first() == future,
        (seq![event] + future)[0] == event,
{
    assert((seq![event] + future).drop_first() =~= future);
}

/// Reads the login state, connecting when there is no client and dropping a
/// client whose connection broke; at most two attempts are made. The flag
/// `reconnected` is raised whenever a connection was attempted or dropped.
#[verifier::spinoff_prover]
#[verifier::rlimit(40)]
pub fn read_account_login_with_reconnect<C: AccountReader, F: Fn() -> Result<C, AdapterError>>(
    client: &mut Option<C>,
    connect: &F,
    reconnected: &mut bool,
) -> (logged_in: Result<bool, AdapterError>)
    requires
        connect.requires(()),
    ensures
        login_read(connect, *old(client), *old(reconnected), logged_in, *final(client), *final(reconnected)),
{
    let ghost mut events: Seq<ReadEvent<C>> = Seq::empty();
    let mut attempt: usize = 0;
    assert forall|future: Seq<ReadEvent<C>>|
        login_read_run(connect, 0, *old(client), *old(reconnected), events + future) == login_read_run(
            connect,
            0,
            *old(client),
            *old(reconnected),
            future,
        ) by {
        assert(events + future =~= future);
    }
    loop
        invariant
            attempt < 2,
            connect.requires(()),
            forall|future: Seq<ReadEvent<C>>|
                #![trigger login_read_run(connect, attempt as nat, *client, *reconnected, future)]
                login_read_run(connect, 0, *old(client), *old(reconnected), events + future) == login_read_run(
                    connect,
                    attempt as nat,
                    *client,
                    *reconnected,
                    future,
                ),
        decreases 2 - attempt, if client.is_none() { 1int } else { 0int },
    {
        if client.is_none() {
            let connected = connect();
            let ghost event = ReadEvent::Connected(connected);
            proof {
                assert forall|future: Seq<ReadEvent<C>>|
                    #![trigger login_read_run(connect, attempt as nat, *client, *reconnected, seq![event] + future)]
                    login_read_run(connect, attempt as nat, *client, *reconnected, seq![event] + future) == match connected {
                        Ok(fresh) => login_read_run(connect, attempt as nat, Some(fresh), true, future),
                        Err(error) => if attempt == 0 {
                            login_read_run(connect, 1, None, true, future)
                        } else if future.len() == 0 {
                            Some((Err(error), None::<C>, true))
                        } else {
                            None
                        },
                    } by {
                    assert((seq![event] + future).drop_first() =~= future);
                    assert((seq![event] + future)[0] == event);
                }
                assert forall|future: Seq<ReadEvent<C>>|
                    login_read_run(connect, 0, *old(client), *old(reconnected), events.push(event) + future)
                        == login_read_run(connect, attempt as nat, *client, *reconnected, seq![event] + future) by {
                    assert(events.push(event) + future =~= events + (seq![event] + future));
                }
                events = events.push(event);
            }
            *reconnected = true;
            match connected {
                Ok(fresh) => {
                    *client = Some(fresh);
                },
                Err(error) => {
                    if attempt == 0 {
                        attempt = 1;
                        continue;
                    }
                    assert(events + Seq::<ReadEvent<C>>::empty() =~= events);
                    assert(login_read_run(connect, 0, *old(client), *old(reconnected), events) == Some(
                        (Err::<bool, AdapterError>(error), None::<C>, true),
                    ));
                    return Err(error);
                },
            }
        }
        let answer = client.as_ref().unwrap().has_chatgpt_login();
        let ghost current = client.unwrap();
        let ghost event = ReadEvent::<C>::Answered(answer);
        proof {
            assert forall|future: Seq<ReadEvent<C>>|
                #![trigger login_read_run(connect, attempt as nat, *client, *reconnected, seq![event] + future)]
                login_read_run(connect, attempt as nat, *client, *reconnected, seq![event] + future) == match answer {
                    Ok(logged_in) => if future.len() == 0 {
                        Some((Ok(logged_in), Some(current), *reconnected))
                    } else {
                        None
                    },
                    Err(error) => if breaks_connection(error) {
                        if attempt == 0 {
                            login_read_run(connect, 1, None, true, future)
                        } else if future.len() == 0 {
                            Some((Err(error), None::<C>, true))
                        } else {
                            None
                        }
                    } else if future.len() == 0 {
                        Some((Err(error), Some(current), *reconnected))
                    } else {
                        None
                    },
                } by {
                assert((seq![event] + future).drop_first() =~= future);
                assert((seq![event] + future)[0] == event);
            }
            assert forall|future: Seq<ReadEvent<C>>|
                login_read_run(connect, 0, *old(client), *old(reconnected), events.push(event) + future) == login_read_run(
                    connect,
                    attempt as nat,
                    *client,
                    *reconnected,
                    seq![event] + future,
                ) by {
                assert(events.push(event) + future =~= events + (seq![event] + future));
            }
            events = events.push(event);
        }
        match answer {
            Ok(logged_in) => {
                assert(events + Seq::<ReadEvent<C>>::empty() =~= events);
                assert(login_read_run(connect, 0, *old(client), *old(reconnected), events) == Some(
                    (Ok::<bool, AdapterError>(logged_in), *client, *reconnected),
                ));
                assert(login_read(connect, *old(client), *old(reconnected), Ok(logged_in), *client, *reconnected));
                return Ok(logged_in);
            },
            Err(error) => {
                if account_error_requires_reconnect(&error) {
                    *reconnected = true;
                    *client = None;
                    if attempt == 0 {
                        attempt = 1;
                        continue;
                    }
                    assert(events + Seq::<ReadEvent<C>>::empty() =~= events);
                    assert(login_read_run(connect, 0, *old(client), *old(reconnected), events) == Some(
                        (Err::<bool, AdapterError>(error), None::<C>, true),
                    ));
                    return Err(error);
                }
                assert(events + Seq::<ReadEvent<C>>::empty() =~= events);
                assert(login_read_run(connect, 0, *old(client), *old(reconnected), events) == Some(
                    (Err::<bool, AdapterError>(error), *client, *reconnected),
                ));
                return Err(error);
            },
        }
    }
}

/// The status and "became logged in" flag reported after a machine moved to
/// the settled state `status`.
pub open spec fn report(status: AccountStatus) -> (AccountStatus, bool) {
    (status, status == AccountStatus::LoggedIn)
}

/// What an `account/updated` notification does while a login is pending,
/// given the account read made in response: a login ends the wait as logged
/// in; a logged-out answer from a fresh connection, or a read that failed on
/// a fresh or broken connection, ends the wait as unavailable; anything else
/// keeps waiting. Without a pending login nothing happens.
pub open spec fn account_updated_outcome(
    before: AccountView,
    account_read: Result<bool, AdapterError>,
    reconnected: bool,
) -> Option<AccountStatus> {
    if before.active_login_id.is_none() {
        None
    } else {
        match account_read {
            Ok(true) => Some(AccountStatus::LoggedIn),
            Ok(false) => if reconnected {
                Some(AccountStatus::Unavailable)
            } else {
                None
            },
            Err(error) => if reconnected || breaks_connection(error) {
                Some(AccountStatus::Unavailable)
            } else {
                None
            },
        }
    }
}

/// The machine and the report after an `account/updated` read (see
/// [`account_updated_outcome`]).
pub open spec fn updated_applied(
    before: AccountView,
    account_read: Result<bool, AdapterError>,
    reconnected: bool,
    outcome: Option<(AccountStatus, bool)>,
    after: AccountView,
) -> bool {
    match account_updated_outcome(before, account_read, reconnected) {
        Some(status) => outcome == Some(report(status)) && after == settled(status),
        None => outcome.is_none() && after == before,
    }
}

/// Applies the account read that followed an `account/updated` notification.
pub fn account_updated_read_result(
    machine: &mut AccountMachine,
    account_read: Result<bool, AdapterError>,
    reconnected: bool,
) -> (outcome: Option<(AccountStatus, bool)>)
    ensures
        updated_applied(old(machine)@, account_read, reconnected, outcome, final(machine)@),
{
    if machine.active_login_id().is_none() {
        return None;
    }
    match account_read {
        Ok(false) => {
            if reconnected {
                machine.unavailable();
                Some((AccountStatus::Unavailable, false))
            } else {
                None
            }
        },
        Ok(true) => {
            machine.reconcile(true);
            Some((AccountStatus::LoggedIn, true))
        },
        Err(error) => {
            if reconnected || account_error_requires_reconnect(&error) {
                machine.unavailable();
                Some((AccountStatus::Unavailable, false))
            } else {
                None
            }
        },
    }
}

/// The status after the read that confirms a successful login completion.
pub open spec fn login_completed_status(account_read: Result<bool, AdapterError>) -> AccountStatus {
    match account_read {
        Ok(true) => AccountStatus::LoggedIn,
        Ok(false) => AccountStatus::LoginFailed,
        Err(_) => AccountStatus::Unavailable,
    }
}

/// Applies the account read that confirms a completed login: a read error is
/// reported as unavailable, never as a failed login.
pub fn login_completed_read_result(
    machine: &mut AccountMachine,
    account_read: Result<bool, AdapterError>,
) -> (outcome: (AccountStatus, bool))
    ensures
        outcome == report(login_completed_status(account_read)),
        final(machine)@ == settled(login_completed_status(account_read)),
{
    match account_read {
        Ok(true) => machine.reconcile(true),
        Ok(false) => machine.fail(),
        Err(_) => machine.unavailable(),
    }
    let status = machine.status();
    (status, status == AccountStatus::LoggedIn)
}

/// The state after a status query whose account read gave `account_read`:
/// a successful read is adopted unless it reports "logged out" while a
/// login is pending, in which case a fresh connection means unavailable and
/// an old one keeps waiting; a failed read means unavailable unless a login
/// is pending on the old connection.
pub open spec fn status_query_outcome(
    before: AccountView,
    account_read: Result<bool, AdapterError>,
    reconnected: bool,
) -> AccountView {
    let logging_in = before.status == AccountStatus::LoggingIn;
    match account_read {
        Ok(logged_in) => if logged_in || !logging_in {
            settled(
                if logged_in {
                    AccountStatus::LoggedIn
                } else {
                    AccountStatus::LoggedOut
                },
            )
        } else if reconnected {
            settled(AccountStatus::Unavailable)
        } else {
            before
        },
        Err(_) => if !logging_in || reconnected {
            settled(AccountStatus::Unavailable)
        } else {
            before
        },
    }
}

/// Applies the account read made for a status query; reports the new
/// status and whether the account has just become logged in.
pub fn account_status_read_result(
    machine: &mut AccountMachine,
    account_read: Result<bool, AdapterError>,
    reconnected: bool,
) -> (outcome: (AccountStatus, bool))
    ensures
        final(machine)@ == status_query_outcome(old(machine)@, account_read, reconnected),
        outcome == (
            final(machine)@.status,
            old(machine)@.status != AccountStatus::LoggedIn && final(machine)@.status
                == AccountStatus::LoggedIn,
        ),
{
    let previous = machine.status();
    let logging_in = previous == AccountStatus::LoggingIn;
    match account_read {
        Ok(logged_in) => {
            if logged_in || !logging_in {
                machine.reconcile(logged_in);
            } else if reconnected {
                machine.unavailable();
            }
        },
        Err(_) => {
            if !logging_in || reconnected {
                machine.unavailable();
            }
        },
    }
    let status = machine.status();
    (status, previous != AccountStatus::LoggedIn && status == AccountStatus::LoggedIn)
}

/// Handles one login notification: completions, failures and cancellations
/// of a login other than the pending one are ignored; a completion is
/// confirmed by an account read; `account/updated` matters only while a login
/// is pending.
pub fn handle_login_notification<C: AccountReader, F: Fn() -> Result<C, AdapterError>>(
    machine: &mut AccountMachine,
    client: &mut Option<C>,
    connect: &F,
    notification: LoginNotification,
) -> (outcome: Option<(AccountStatus, bool)>)
    requires
        connect.requires(()),
    ensures
        match notification@ {
            LoginNotificationView::AccountUpdated => if old(machine)@.active_login_id.is_none() {
                outcome.is_none() && final(machine)@ == old(machine)@ && *final(client) == *old(client)
            } else {
                exists|account_read: Result<bool, AdapterError>, reconnected: bool|
                    #[trigger] login_read(
                        connect,
                        *old(client),
                        false,
                        account_read,
                        *final(client),
                        reconnected,
                    ) && updated_applied(old(machine)@, account_read, reconnected, outcome, final(machine)@)
            },
            LoginNotificationView::Completed(id) => if old(machine)@.active_login_id == Some(id) {
                exists|account_read: Result<bool, AdapterError>, reconnected: bool|
                    #[trigger] login_read(
                        connect,
                        *old(client),
                        false,
                        account_read,
                        *final(client),
                        reconnected,
                    ) && outcome == Some(report(login_completed_status(account_read))) && final(machine)@
                        == settled(login_completed_status(account_read))
            } else {
                outcome.is_none() && final(machine)@ == old(machine)@ && *final(client) == *old(client)
            },
            LoginNotificationView::Failed(id) => *final(client) == *old(client) && if old(
                machine,
            )@.active_login_id == Some(id) {
                outcome == Some(report(AccountStatus::LoginFailed)) && final(machine)@ == settled(
                    AccountStatus::LoginFailed,
                )
            } else {
                outcome.is_none() && final(machine)@ == old(machine)@
            },
            LoginNotificationView::Cancelled(id) => *final(client) == *old(client) && if old(
                machine,
            )@.active_login_id == Some(id) {
                outcome == Some(report(AccountStatus::Cancelled)) && final(machine)@ == settled(
                    AccountStatus::Cancelled,
                )
            } else {
                outcome.is_none() && final(machine)@ == old(machine)@
            },
        },
{
    match notification {
        LoginNotification::AccountUpdated => {
            if machine.active_login_id().is_none() {
                return None;
            }
            let mut reconnected = false;
            let account_read = read_account_login_with_reconnect(client, connect, &mut reconnected);
            account_updated_read_result(machine, account_read, reconnected)
        },
        LoginNotification::Completed { login_id } => {
            if !machine.complete(login_id.as_str(), true) {
                return None;
            }
            let mut reconnected = false;
            let account_read = read_account_login_with_reconnect(client, connect, &mut reconnected);
            Some(login_completed_read_result(machine, account_read))
        },
        LoginNotification::Failed { login_id } => {
            if !machine.complete(login_id.as_str(), false) {
                return None;
            }
            Some((machine.status(), false))
        },
        LoginNotification::Cancelled { login_id } => {
            if !machine.cancel(login_id.as_str()) {
                return None;
            }
            Some((machine.status(), false))
        },
    }
}

/// Answers a status query: reads the login state (connecting or
/// reconnecting as needed) and applies the read to the machine. Returns the
/// new status and whether the account has just become logged in.
pub fn query_account_status<C: AccountReader, F: Fn() -> Result<C, AdapterError>>(
    machine: &mut AccountMachine,
    client: &mut Option<C>,
    connect: &F,
) -> (outcome: (AccountStatus, bool))
    requires
        connect.requires(()),
    ensures
        exists|account_read: Result<bool, AdapterError>, reconnected: bool|
            #[trigger] login_read(connect, *old(client), false, account_read, *final(client), reconnected)
                && final(machine)@ == status_query_outcome(old(machine)@, account_read, reconnected),
        outcome == (
            final(machine)@.status,
            old(machine)@.status != AccountStatus::LoggedIn && final(machine)@.status
                == AccountStatus::LoggedIn,
        ),
{
    let mut reconnected = false;
    let account_read = read_account_login_with_reconnect(client, connect, &mut reconnected);
    account_status_read_result(machine, account_read, reconnected)
}

/// Settles a login that was just started once the browser was asked to
/// open its page: when it opened, the login stays pending; when it did not,
/// the App Server is told to cancel the login `login_id` (whatever it
/// answers) and the login fails here.
pub fn settle_login_start<F: FnOnce(&str) -> Result<(), AdapterError>>(
    machine: &mut AccountMachine,
    login_id: &str,
    opened: bool,
    cancel_on_server: F,
)
    requires
        !opened ==> cancel_on_server.requires((login_id,)),
    ensures
        opened ==> final(machine)@ == old(machine)@,
        !opened ==> final(machine)@ == settled(AccountStatus::LoginFailed) && exists|
            answer: Result<(), AdapterError>,
        | #[trigger] cancel_on_server.ensures((login_id,), answer),
{
    if !opened {
        let answer = cancel_on_server(login_id);
        let ghost told = answer;
        assert(cancel_on_server.ensures((login_id,), told));
        machine.fail();
    }
}

/// Cancels the pending login, if any: the App Server is told first when a
/// client is connected, and only if that succeeds is the login cancelled
/// here. Without a pending login the status is reported unchanged.
pub fn cancel_login<F: FnOnce(&str) -> Result<(), AdapterError>>(
    machine: &mut AccountMachine,
    cancel_on_server: Option<F>,
) -> (outcome: Result<AccountStatus, AdapterError>)
    requires
        match cancel_on_server {
            Some(cancel) => forall|login_id: &str|
                old(machine)@.active_login_id == Some(login_id@) ==> #[trigger] cancel.requires((login_id,)),
            None => true,
        },
    ensures
        match old(machine)@.active_login_id {
            None => outcome == Ok::<AccountStatus, AdapterError>(old(machine)@.status) && final(machine)@
                == old(machine)@,
            Some(pending) => match cancel_on_server {
                None => outcome == Ok::<AccountStatus, AdapterError>(AccountStatus::Cancelled)
                    && final(machine)@ == settled(AccountStatus::Cancelled),
                Some(cancel) => exists|login_id: &str, answer: Result<(), AdapterError>|
                    #[trigger] cancel.ensures((login_id,), answer) && login_id@ == pending && match answer {
                        Ok(()) => outcome == Ok::<AccountStatus, AdapterError>(AccountStatus::Cancelled)
                            && final(machine)@ == settled(AccountStatus::Cancelled),
                        Err(error) => outcome == Err::<AccountStatus, AdapterError>(error)
                            && final(machine)@ == old(machine)@,
                    },
            },
        },
{
    let login_id = match machine.active_login_id() {
        Some(id) => String::from_str(id),
        None => {
            return Ok(machine.status());
        },
    };
    if let Some(cancel) = cancel_on_server {
        let id = login_id.as_str();
        let answer = cancel(id);
        let ghost told = answer;
        assert(cancel.ensures((id,), told));
        if let Err(error) = answer {
            return Err(error);
        }
    }
    let accepted = machine.cancel(login_id.as_str());
    assert(accepted);
    Ok(machine.status())
}

/// A failed account read is never taken for "logged out": a status query
/// reports the account unavailable, or keeps waiting for a pending login.
pub proof fn law_failed_read_is_never_logged_out(before: AccountView, error: AdapterError, reconnected: bool)
    ensures
        status_query_outcome(before, Err(error), reconnected).status != AccountStatus::LoggedOut,
        status_query_outcome(before, Err(error), reconnected) == before || status_query_outcome(
            before,
            Err(error),
            reconnected,
        ) == settled(AccountStatus::Unavailable),
{
}

/// Without a pending login, a failed account read shows the account as
/// unavailable, whatever it showed before (logged in included); while a
/// login is pending, a failed read on the same connection keeps waiting,
/// and one after a reconnect shows the account unavailable. A failed read
/// never reports that the account has just logged in.
pub proof fn law_failed_read_without_pending_login_is_unavailable(
    before: AccountView,
    error: AdapterError,
    reconnected: bool,
)
    ensures
        before.status != AccountStatus::LoggingIn ==> status_query_outcome(before, Err(error), reconnected)
            == settled(AccountStatus::Unavailable),
        reconnected ==> status_query_outcome(before, Err(error), reconnected) == settled(
            AccountStatus::Unavailable,
        ),
        before.status == AccountStatus::LoggingIn && !reconnected ==> status_query_outcome(
            before,
            Err(error),
            reconnected,
        ) == before,
        status_query_outcome(before, Err(error), reconnected).status != AccountStatus::LoggedIn
            || before.status == AccountStatus::LoggedIn,
{
}

/// An answer of the App Server is adopted by a status query: "logged in" is
/// always taken; "logged out" is taken unless a login is pending, in which
/// case it keeps waiting on the same connection and shows the account
/// unavailable after a reconnect.
pub proof fn law_status_query_adopts_the_answer(before: AccountView, logged_in: bool, reconnected: bool)
    ensures
        logged_in ==> status_query_outcome(before, Ok(logged_in), reconnected) == settled(
            AccountStatus::LoggedIn,
        ),
        !logged_in && before.status != AccountStatus::LoggingIn ==> status_query_outcome(
            before,
            Ok(logged_in),
            reconnected,
        ) == settled(AccountStatus::LoggedOut),
        !logged_in && before.status == AccountStatus::LoggingIn ==> status_query_outcome(
            before,
            Ok(logged_in),
            reconnected,
        ) == if reconnected {
            settled(AccountStatus::Unavailable)
        } else {
            before
        },
{
}

/// When the read that confirms a completed login fails, the login is not
/// reported as failed: the account is unavailable.
pub proof fn law_unconfirmed_login_is_not_a_failed_login(error: AdapterError)
    ensures
        login_completed_status(Err(error)) == AccountStatus::Unavailable,
        report(login_completed_status(Err(error))) == (AccountStatus::Unavailable, false),
{
}

proof fn lemma_no_client_left_means_error<C: AccountReader, F: Fn() -> Result<C, AdapterError>>(
    connect: &F,
    attempt: nat,
    client: Option<C>,
    raised: bool,
    events: Seq<ReadEvent<C>>,
    logged_in: Result<bool, AdapterError>,
    raised_after: bool,
)
    requires
        login_read_run(connect, attempt, client, raised, events) == Some((logged_in, None::<C>, raised_after)),
    ensures
        logged_in is Err,
        raised_after,
    decreases events.len(),
{
    let rest = events.drop_first();
    match client {
        None => match events[0] {
            ReadEvent::Connected(Ok(fresh)) => {
                lemma_no_client_left_means_error(connect, attempt, Some(fresh), true, rest, logged_in, raised_after);
            },
            ReadEvent::Connected(Err(_)) => {
                if attempt == 0 {
                    lemma_no_client_left_means_error(connect, 1, None, true, rest, logged_in, raised_after);
                }
            },
            _ => {},
        },
        Some(_) => match events[0] {
            ReadEvent::Answered(Err(error)) => {
                if breaks_connection(error) && attempt == 0 {
                    lemma_no_client_left_means_error(connect, 1, None, true, rest, logged_in, raised_after);
                }
            },
            _ => {},
        },
    }
}

/// A status query whose read leaves no client (every connect failed, or the
/// connection broke twice) reports the account unavailable: never logged
/// out, never a failed login.
pub proof fn law_lost_connection_reports_unavailable<C: AccountReader, F: Fn() -> Result<C, AdapterError>>(
    connect: &F,
    client: Option<C>,
    machine: AccountView,
    logged_in: Result<bool, AdapterError>,
    reconnected: bool,
)
    requires
        login_read(connect, client, false, logged_in, None, reconnected),
    ensures
        status_query_outcome(machine, logged_in, reconnected) == settled(AccountStatus::Unavailable),
{
    let events = choose|events: Seq<ReadEvent<C>>|
        #[trigger] login_read_run(connect, 0, client, false, events) == Some((logged_in, None::<C>, reconnected));
    lemma_no_client_left_means_error(connect, 0, client, false, events, logged_in, reconnected);
}

} // verus!
