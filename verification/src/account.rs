//! The account login state machine.

use vstd::prelude::*;
use crate::text::same_text;

verus! {

/// The account state shown to the user.
#[derive(Debug, Clone, Copy, PartialEq, Eq, Structural)]
pub enum AccountStatus {
    Checking,
    Unavailable,
    LoggedOut,
    LoggingIn,
    LoggedIn,
    LoginFailed,
    Cancelled,
}

/// The characters of an optional string.
pub open spec fn text_of(value: Option<String>) -> Option<Seq<char>> {
    match value {
        Some(text) => Some(text@),
        None => None,
    }
}

/// What an [`AccountMachine`] holds: the status and the id of the login
/// that is being waited for, if any.
pub struct AccountView {
    pub status: AccountStatus,
    pub active_login_id: Option<Seq<char>>,
}

/// Tracks the account status and the one browser login that may be pending.
pub struct AccountMachine {
    status: AccountStatus,
    active_login_id: Option<String>,
}

impl View for AccountMachine {
    type V = AccountView;

    closed spec fn view(&self) -> AccountView {
        AccountView { status: self.status, active_login_id: text_of(self.active_login_id) }
    }
}

/// The state in which no login is pending and the status is `status`.
pub open spec fn settled(status: AccountStatus) -> AccountView {
    AccountView { status, active_login_id: None }
}

/// The state while waiting for the login `login_id`.
pub open spec fn begun(login_id: Seq<char>) -> AccountView {
    AccountView { status: AccountStatus::LoggingIn, active_login_id: Some(login_id) }
}

/// Whether a completion of `login_id` is accepted, and the state after it:
/// only the pending login can complete; success leads to `Checking` (an
/// account read decides the rest), failure to `LoginFailed`.
pub open spec fn completion_step(before: AccountView, login_id: Seq<char>, success: bool) -> (bool, AccountView) {
    if before.active_login_id == Some(login_id) {
        (
            true,
            settled(
                if success {
                    AccountStatus::Checking
                } else {
                    AccountStatus::LoginFailed
                },
            ),
        )
    } else {
        (false, before)
    }
}

/// Whether a cancellation of `login_id` is accepted, and the state after it.
pub open spec fn cancellation_step(before: AccountView, login_id: Seq<char>) -> (bool, AccountView) {
    if before.active_login_id == Some(login_id) {
        (true, settled(AccountStatus::Cancelled))
    } else {
        (false, before)
    }
}

/// A login completes at most once: once its completion or cancellation was
/// accepted, any later completion or cancellation of it is refused.
pub proof fn law_login_ends_at_most_once(before: AccountView, login_id: Seq<char>, first_success: bool, later_success: bool)
    ensures
        completion_step(before, login_id, first_success).0 ==> !completion_step(
            completion_step(before, login_id, first_success).1,
            login_id,
            later_success,
        ).0 && !cancellation_step(completion_step(before, login_id, first_success).1, login_id).0,
        cancellation_step(before, login_id).0 ==> !completion_step(
            cancellation_step(before, login_id).1,
            login_id,
            later_success,
        ).0 && !cancellation_step(cancellation_step(before, login_id).1, login_id).0,
{
}

/// Starting a new login makes the earlier one stale: its completion is
/// refused, while the new one's is accepted.
pub proof fn law_new_login_replaces_the_earlier(earlier: Seq<char>, current: Seq<char>, success: bool)
    requires
        earlier != current,
    ensures
        !completion_step(begun(current), earlier, success).0,
        !cancellation_step(begun(current), earlier).0,
        completion_step(begun(current), current, success).0,
{
}

/// A refused completion or cancellation changes nothing.
pub proof fn law_refusal_changes_nothing(before: AccountView, login_id: Seq<char>, success: bool)
    ensures
        !completion_step(before, login_id, success).0 ==> completion_step(before, login_id, success).1
            == before,
        !cancellation_step(before, login_id).0 ==> cancellation_step(before, login_id).1 == before,
{
}

impl AccountMachine {
    /// A login is pending exactly while the status is `LoggingIn`.
    #[verifier::type_invariant]
    closed spec fn pending_only_while_logging_in(self) -> bool {
        self.active_login_id.is_some() <==> self.status == AccountStatus::LoggingIn
    }

    pub fn new() -> (machine: Self)
        ensures
            machine@ == settled(AccountStatus::Checking),
    {
        AccountMachine { status: AccountStatus::Checking, active_login_id: None }
    }

    pub fn status(&self) -> (status: AccountStatus)
        ensures
            status == self@.status,
    {
        self.status
    }

    /// The pending login, which exists exactly while the status is `LoggingIn`.
    pub fn active_login_id(&self) -> (id: Option<&str>)
        ensures
            match id {
                Some(text) => self@.active_login_id == Some(text@),
                None => self@.active_login_id.is_none(),
            },
            id.is_some() <==> self@.status == AccountStatus::LoggingIn,
    {
        proof {
            use_type_invariant(self);
        }
        match &self.active_login_id {
            Some(text) => Some(text.as_str()),
            None => None,
        }
    }

    /// Adopts the result of an authoritative account read.
    pub fn reconcile(&mut self, logged_in: bool)
        ensures
            final(self)@ == settled(
                if logged_in {
                    AccountStatus::LoggedIn
                } else {
                    AccountStatus::LoggedOut
                },
            ),
    {
        let status = if logged_in {
            AccountStatus::LoggedIn
        } else {
            AccountStatus::LoggedOut
        };
        *self = AccountMachine { status, active_login_id: None };
    }

    /// Starts waiting for the login `login_id`; it replaces any earlier one.
    pub fn begin(&mut self, login_id: String)
        ensures
            final(self)@ == begun(login_id@),
    {
        *self = AccountMachine { status: AccountStatus::LoggingIn, active_login_id: Some(login_id) };
    }

    /// Applies the completion of the login `login_id`; a completion of any
    /// other login is refused and changes nothing.
    pub fn complete(&mut self, login_id: &str, success: bool) -> (accepted: bool)
        ensures
            (accepted, final(self)@) == completion_step(old(self)@, login_id@, success),
    {
        if !self.is_active(login_id) {
            return false;
        }
        let status = if success {
            AccountStatus::Checking
        } else {
            AccountStatus::LoginFailed
        };
        *self = AccountMachine { status, active_login_id: None };
        true
    }

    /// Applies the cancellation of the login `login_id`; a cancellation of
    /// any other login is refused and changes nothing.
    pub fn cancel(&mut self, login_id: &str) -> (accepted: bool)
        ensures
            (accepted, final(self)@) == cancellation_step(old(self)@, login_id@),
    {
        if !self.is_active(login_id) {
            return false;
        }
        *self = AccountMachine { status: AccountStatus::Cancelled, active_login_id: None };
        true
    }

    pub fn fail(&mut self)
        ensures
            final(self)@ == settled(AccountStatus::LoginFailed),
    {
        *self = AccountMachine { status: AccountStatus::LoginFailed, active_login_id: None };
    }

    pub fn unavailable(&mut self)
        ensures
            final(self)@ == settled(AccountStatus::Unavailable),
    {
        *self = AccountMachine { status: AccountStatus::Unavailable, active_login_id: None };
    }

    fn is_active(&self, login_id: &str) -> (active: bool)
        ensures
            active == (self@.active_login_id == Some(login_id@)),
    {
        match &self.active_login_id {
            Some(current) => same_text(current.as_str(), login_id),
            None => false,
        }
    }
}

impl Default for AccountMachine {
    fn default() -> (machine: Self)
        ensures
            machine@ == settled(AccountStatus::Checking),
    {
        Self::new()
    }
}

/// The parameters of a server event, as far as the login logic reads them:
/// `loginId` when it is a JSON string and `success` when it is a JSON boolean.
pub struct LoginEventParams {
    pub login_id: Option<String>,
    pub success: Option<bool>,
}

/// A server event that concerns the browser login.
#[derive(Debug, Clone, PartialEq, Eq)]
pub enum LoginNotification {
    Completed { login_id: String },
    Failed { login_id: String },
    Cancelled { login_id: String },
    AccountUpdated,
}

/// A [`LoginNotification`] with its login id as characters.
pub enum LoginNotificationView {
    Completed(Seq<char>),
    Failed(Seq<char>),
    Cancelled(Seq<char>),
    AccountUpdated,
}

impl View for LoginNotification {
    type V = LoginNotificationView;

    open spec fn view(&self) -> LoginNotificationView {
        match self {
            LoginNotification::Completed { login_id } => LoginNotificationView::Completed(login_id@),
            LoginNotification::Failed { login_id } => LoginNotificationView::Failed(login_id@),
            LoginNotification::Cancelled { login_id } => LoginNotificationView::Cancelled(login_id@),
            LoginNotification::AccountUpdated => LoginNotificationView::AccountUpdated,
        }
    }
}

/// The view of an optional notification.
pub open spec fn notification_view(value: Option<LoginNotification>) -> Option<LoginNotificationView> {
    match value {
        Some(notification) => Some(notification@),
        None => None,
    }
}

/// The notification that the server event `method` with the given parameter
/// fields stands for: `account/updated` needs no parameters; a completion
/// needs both the login id and the success flag, and an unsuccessful
/// completion counts as a failure; a failure or cancellation needs the login
/// id. Any other event is no login notification.
pub open spec fn notification_for_event(
    method: Seq<char>,
    login_id: Option<Seq<char>>,
    success: Option<bool>,
) -> Option<LoginNotificationView> {
    if method == "account/updated"@ {
        Some(LoginNotificationView::AccountUpdated)
    } else if method == "account/login/completed"@ {
        match (login_id, success) {
            (Some(id), Some(true)) => Some(LoginNotificationView::Completed(id)),
            (Some(id), Some(false)) => Some(LoginNotificationView::Failed(id)),
            _ => None,
        }
    } else if method == "account/login/failed"@ {
        match login_id {
            Some(id) => Some(LoginNotificationView::Failed(id)),
            None => None,
        }
    } else if method == "account/login/cancelled"@ {
        match login_id {
            Some(id) => Some(LoginNotificationView::Cancelled(id)),
            None => None,
        }
    } else {
        None
    }
}

impl LoginNotification {
    /// Recognizes a login notification among the server events.
    pub fn from_server_event(method: &str, params: &LoginEventParams) -> (notification: Option<Self>)
        ensures
            notification_view(notification) == notification_for_event(
                method@,
                text_of(params.login_id),
                params.success,
            ),
    {
        if same_text(method, "account/updated") {
            Some(LoginNotification::AccountUpdated)
        } else if same_text(method, "account/login/completed") {
            match (&params.login_id, params.success) {
                (Some(id), Some(true)) => Some(LoginNotification::Completed { login_id: id.clone() }),
                (Some(id), Some(false)) => Some(LoginNotification::Failed { login_id: id.clone() }),
                _ => None,
            }
        } else if same_text(method, "account/login/failed") {
            match &params.login_id {
                Some(id) => Some(LoginNotification::Failed { login_id: id.clone() }),
                None => None,
            }
        } else if same_text(method, "account/login/cancelled") {
            match &params.login_id {
                Some(id) => Some(LoginNotification::Cancelled { login_id: id.clone() }),
                None => None,
            }
        } else {
            None
        }
    }

    /// The login that the notification concerns; `account/updated` concerns none.
    pub fn login_id(&self) -> (id: Option<&str>)
        ensures
            match self@ {
                LoginNotificationView::Completed(expected)
                | LoginNotificationView::Failed(expected)
                | LoginNotificationView::Cancelled(expected) => id.is_some() && id.unwrap()@ == expected,
                LoginNotificationView::AccountUpdated => id.is_none(),
            },
    {
        match self {
            LoginNotification::Completed { login_id }
            | LoginNotification::Failed { login_id }
            | LoginNotification::Cancelled { login_id } => Some(login_id.as_str()),
            LoginNotification::AccountUpdated => None,
        }
    }
}

} // verus!
