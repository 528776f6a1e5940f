//! The JSON-RPC protocol decisions of the Codex App Server client: error
//! kinds, routing of the lines the server writes, and the bounded stderr
//! buffer. Process spawning, pipes and threads live with the caller.

use vstd::prelude::*;
use vstd::string::*;
use crate::text::{decimal_i64, decimal_text, decimal_u64, same_text, signed_decimal_text};
use std::time::Duration;
use std::collections::HashMap;
use serde_json::Value;

verus! {

#[verifier::external_type_specification]
#[verifier::external_body]
pub struct ExJsonValue(serde_json::Value);

/// The arguments that start the App Server over stdio; no shell is involved.
pub const APP_SERVER_ARGS: [&'static str; 2] = ["app-server", "--stdio"];

/// Failures of the App Server client.
#[derive(Debug, Clone, PartialEq)]
pub enum AdapterError {
    ExecutableNotFound,
    VersionCheckFailed { reason: String },
    SpawnFailed { reason: String },
    Io { operation: &'static str, reason: String },
    Protocol { reason: String },
    MalformedJson,
    Rpc { code: i64, message: String, data: Option<serde_json::Value> },
    Timeout { method: String },
    UnexpectedChildExit,
    StderrFlooding { limit: usize },
    AlreadyShutdown,
}

/// The text of an error, as it is displayed.
pub open spec fn error_text(error: AdapterError) -> Seq<char> {
    match error {
        AdapterError::ExecutableNotFound => "could not find a trusted codex executable on PATH; install Codex CLI or add codex.exe to an absolute PATH directory"@,
        AdapterError::VersionCheckFailed { reason } => "codex --version verification failed: "@ + reason@,
        AdapterError::SpawnFailed { reason } => "failed to start codex app-server: "@ + reason@,
        AdapterError::Io { operation, reason } => operation@ + " failed: "@ + reason@,
        AdapterError::Protocol { reason } => "JSON-RPC protocol error: "@ + reason@,
        AdapterError::MalformedJson => "Codex App Server emitted malformed JSON"@,
        AdapterError::Rpc { code, message, .. } => "JSON-RPC error "@ + signed_decimal_text(code as int)
            + ": "@ + message@,
        AdapterError::Timeout { method } => "JSON-RPC request timed out: "@ + method@,
        AdapterError::UnexpectedChildExit => "Codex App Server exited unexpectedly"@,
        AdapterError::StderrFlooding { limit } => "Codex App Server stderr exceeded the in-memory "@
            + decimal_text(limit as nat) + "-byte safety limit"@,
        AdapterError::AlreadyShutdown => "Codex App Server client is already shut down"@,
    }
}

/// `literal` followed by `rest`.
fn joined(literal: &str, rest: &str) -> (text: String)
    ensures
        text@ == literal@ + rest@,
{
    let mut text = String::from_str(literal);
    text.append(rest);
    text
}

impl AdapterError {
    /// The error's text, as it is displayed.
    pub fn describe(&self) -> (text: String)
        ensures
            text@ == error_text(*self),
    {
        match self {
            AdapterError::ExecutableNotFound => String::from_str(
                "could not find a trusted codex executable on PATH; install Codex CLI or add codex.exe to an absolute PATH directory",
            ),
            AdapterError::VersionCheckFailed { reason } => joined(
                "codex --version verification failed: ",
                reason.as_str(),
            ),
            AdapterError::SpawnFailed { reason } => joined("failed to start codex app-server: ", reason.as_str()),
            AdapterError::Io { operation, reason } => {
                let mut text = String::from_str(operation);
                text.append(" failed: ");
                text.append(reason.as_str());
                text
            },
            AdapterError::Protocol { reason } => joined("JSON-RPC protocol error: ", reason.as_str()),
            AdapterError::MalformedJson => String::from_str("Codex App Server emitted malformed JSON"),
            AdapterError::Rpc { code, message, .. } => {
                let mut text = String::from_str("JSON-RPC error ");
                let number = decimal_i64(*code);
                text.append(number.as_str());
                text.append(": ");
                text.append(message.as_str());
                text
            },
            AdapterError::Timeout { method } => joined("JSON-RPC request timed out: ", method.as_str()),
            AdapterError::UnexpectedChildExit => String::from_str("Codex App Server exited unexpectedly"),
            AdapterError::StderrFlooding { limit } => {
                let mut text = String::from_str("Codex App Server stderr exceeded the in-memory ");
                let number = decimal_u64(*limit as u64);
                text.append(number.as_str());
                text.append("-byte safety limit");
                text
            },
            AdapterError::AlreadyShutdown => String::from_str("Codex App Server client is already shut down"),
        }
    }
}

/// The errors after which the App Server connection cannot serve further
/// requests, so that the client has to be dropped and connected again.
pub open spec fn breaks_connection(error: AdapterError) -> bool {
    match error {
        AdapterError::Io { .. }
        | AdapterError::Protocol { .. }
        | AdapterError::MalformedJson
        | AdapterError::UnexpectedChildExit
        | AdapterError::StderrFlooding { .. }
        | AdapterError::AlreadyShutdown => true,
        _ => false,
    }
}

/// Whether `error` means that the connection is gone (see [`breaks_connection`]).
pub fn account_error_requires_reconnect(error: &AdapterError) -> (reconnect: bool)
    ensures
        reconnect == breaks_connection(*error),
{
    match error {
        AdapterError::Io { .. }
        | AdapterError::Protocol { .. }
        | AdapterError::MalformedJson
        | AdapterError::UnexpectedChildExit
        | AdapterError::StderrFlooding { .. }
        | AdapterError::AlreadyShutdown => true,
        _ => false,
    }
}

/// The stable diagnostic name of each error variant.
pub open spec fn error_kind_name(error: AdapterError) -> Seq<char> {
    match error {
        AdapterError::ExecutableNotFound => "executable_not_found"@,
        AdapterError::VersionCheckFailed { .. } => "version_check_failed"@,
        AdapterError::SpawnFailed { .. } => "spawn_failed"@,
        AdapterError::Io { .. } => "io"@,
        AdapterError::Protocol { .. } => "protocol"@,
        AdapterError::MalformedJson => "malformed_json"@,
        AdapterError::Rpc { .. } => "rpc"@,
        AdapterError::Timeout { .. } => "timeout"@,
        AdapterError::UnexpectedChildExit => "unexpected_child_exit"@,
        AdapterError::StderrFlooding { .. } => "stderr_flooding"@,
        AdapterError::AlreadyShutdown => "already_shutdown"@,
    }
}

/// The diagnostic name of the error's variant, free of any message content.
pub fn adapter_error_kind(error: &AdapterError) -> (kind: &'static str)
    ensures
        kind@ == error_kind_name(*error),
{
    match error {
        AdapterError::ExecutableNotFound => "executable_not_found",
        AdapterError::VersionCheckFailed { .. } => "version_check_failed",
        AdapterError::SpawnFailed { .. } => "spawn_failed",
        AdapterError::Io { .. } => "io",
        AdapterError::Protocol { .. } => "protocol",
        AdapterError::MalformedJson => "malformed_json",
        AdapterError::Rpc { .. } => "rpc",
        AdapterError::Timeout { .. } => "timeout",
        AdapterError::UnexpectedChildExit => "unexpected_child_exit",
        AdapterError::StderrFlooding { .. } => "stderr_flooding",
        AdapterError::AlreadyShutdown => "already_shutdown",
    }
}

/// `Duration::from_secs`.
pub uninterp spec fn duration_from_secs(secs: u64) -> Duration;

/// `Duration::from_millis`.
pub uninterp spec fn duration_from_millis(millis: u64) -> Duration;

/// `Duration::from_secs`: the duration of `secs` whole seconds.
#[verifier::external_body]
fn seconds(secs: u64) -> (duration: Duration)
    ensures
        duration == duration_from_secs(secs),
{
    Duration::from_secs(secs)
}

/// `Duration::from_millis`: the duration of `millis` milliseconds.
#[verifier::external_body]
fn milliseconds(millis: u64) -> (duration: Duration)
    ensures
        duration == duration_from_millis(millis),
{
    Duration::from_millis(millis)
}

/// The timing and memory limits of the client.
#[derive(Debug, Clone)]
pub struct ClientOptions {
    pub request_timeout: Duration,
    pub shutdown_grace: Duration,
    pub max_stderr_bytes: usize,
}

impl Default for ClientOptions {
    /// Requests time out after five seconds, the server gets half a second
    /// to exit, and at most 64 KiB of its stderr are kept.
    fn default() -> (options: Self)
        ensures
            options.request_timeout == duration_from_secs(5),
            options.shutdown_grace == duration_from_millis(500),
            options.max_stderr_bytes == 64 * 1024,
    {
        ClientOptions {
            request_timeout: seconds(5),
            shutdown_grace: milliseconds(500),
            max_stderr_bytes: 64 * 1024,
        }
    }
}

/// How many more bytes of stderr fit under `limit` after `retained` bytes.
pub open spec fn stderr_room(retained: nat, limit: usize) -> nat {
    if retained <= limit {
        (limit - retained) as nat
    } else {
        0
    }
}

/// Keeps as much of a stderr chunk as fits under `limit`; reports whether
/// the chunk did not fit, in which case the server floods its stderr.
pub fn retain_stderr(retained: &mut Vec<u8>, chunk: &[u8], limit: usize) -> (flooded: bool)
    ensures
        final(retained)@ == old(retained)@ + chunk@.take(
            if chunk@.len() <= stderr_room(old(retained)@.len(), limit) {
                chunk@.len() as int
            } else {
                stderr_room(old(retained)@.len(), limit) as int
            },
        ),
        flooded == (chunk@.len() > stderr_room(old(retained)@.len(), limit)),
        old(retained)@.len() <= limit ==> final(retained)@.len() <= limit,
{
    let available = limit.saturating_sub(retained.len());
    let keep = if chunk.len() < available { chunk.len() } else { available };
    let ghost start = retained@;
    let mut i: usize = 0;
    while i < keep
        invariant
            i <= keep <= chunk@.len(),
            retained@ == start + chunk@.take(i as int),
        decreases keep - i,
    {
        retained.push(chunk[i]);
        assert(chunk@.take(i + 1) =~= chunk@.take(i as int).push(chunk@[i as int]));
        i = i + 1;
    }
    chunk.len() > available
}

/// Whether the `type` of the account that `account/read` reports names a
/// ChatGPT account.
pub fn is_chatgpt_account(account_type: Option<&str>) -> (chatgpt: bool)
    ensures
        chatgpt == (account_type matches Some(kind) && kind@ == "chatgpt"@),
{
    match account_type {
        Some(kind) => same_text(kind, "chatgpt"),
        None => false,
    }
}

/// A notification that the client forwards to its subscriber.
#[derive(Debug, Clone, PartialEq)]
pub struct ServerNotification {
    pub method: String,
    pub params: serde_json::Value,
}

/// How the `id` member of a server message reads.
pub enum MessageId {
    Unsigned(u64),
    NotUnsigned,
}

/// The `error` member of a response, as far as the protocol reads it: the
/// `code` when it is an integer, the `message` when it is a string, and `data`.
pub struct ErrorObject {
    pub code: Option<i64>,
    pub message: Option<String>,
    pub data: Option<serde_json::Value>,
}

/// One JSON line written by the server, as far as the protocol reads it:
/// whether `jsonrpc` is the string `"2.0"`, the `id`, `error` and `result`
/// members when present, `method` when it is a string, and `params` (JSON
/// `null` when absent).
pub struct IncomingMessage {
    pub jsonrpc_2_0: bool,
    pub id: Option<MessageId>,
    pub error: Option<ErrorObject>,
    pub result: Option<serde_json::Value>,
    pub method: Option<String>,
    pub params: serde_json::Value,
}

/// Whether the text is one JSON value, as serde_json reads it (surrounding
/// whitespace allowed).
pub uninterp spec fn json_text(line: Seq<char>) -> bool;

/// The members of the JSON object in a line that the protocol reads, as
/// serde_json reads them.
pub uninterp spec fn json_members(line: Seq<char>) -> LineMembersView;

/// The members of one server line that the protocol reads, as they stand in
/// the JSON: `jsonrpc`, `method` and the error's `message` when they are
/// strings; `id` when present, with its value when it is an unsigned
/// integer; the error's `code` when it is an integer; and the members
/// whose JSON values are handed on.
pub struct LineMembers {
    pub jsonrpc: Option<String>,
    pub id: Option<Option<u64>>,
    pub error: Option<ErrorObject>,
    pub result: Option<serde_json::Value>,
    pub method: Option<String>,
    pub params: Option<serde_json::Value>,
}

/// The plain part of [`LineMembers`]: the texts, the id, the error's code
/// and message, and whether a `result` is present.
pub struct LineMembersView {
    pub jsonrpc: Option<Seq<char>>,
    pub id: Option<Option<u64>>,
    pub error: Option<(Option<i64>, Option<Seq<char>>)>,
    pub has_result: bool,
    pub method: Option<Seq<char>>,
}

/// The characters of an optional text.
pub open spec fn text_view(text: Option<String>) -> Option<Seq<char>> {
    match text {
        Some(text) => Some(text@),
        None => None,
    }
}

impl View for LineMembers {
    type V = LineMembersView;

    open spec fn view(&self) -> LineMembersView {
        LineMembersView {
            jsonrpc: text_view(self.jsonrpc),
            id: self.id,
            error: match self.error {
                Some(error) => Some((error.code, text_view(error.message))),
                None => None,
            },
            has_result: self.result.is_some(),
            method: text_view(self.method),
        }
    }
}

/// `serde_json::from_str` into a `Value`, then `Value::get`, `as_str`,
/// `as_u64` and `as_i64` on its members: `None` when the line is no JSON,
/// else the members that the protocol reads, whose plain part is named
/// [`json_members`]. What the handed-on JSON values hold is left unsaid.
#[verifier::external_body]
fn parse_line(line: &str) -> (parsed: Option<LineMembers>)
    ensures
        parsed.is_some() == json_text(line@),
        parsed matches Some(members) ==> members@ == json_members(line@),
{
    let value: Value = serde_json::from_str(line).ok()?;
    let text = |member: Option<&Value>| member.and_then(Value::as_str).map(String::from);
    Some(LineMembers {
        jsonrpc: text(value.get("jsonrpc")),
        id: value.get("id").map(Value::as_u64),
        error: value.get("error").map(|error| ErrorObject {
            code: error.get("code").and_then(Value::as_i64),
            message: text(error.get("message")),
            data: error.get("data").cloned(),
        }),
        result: value.get("result").cloned(),
        method: text(value.get("method")),
        params: value.get("params").cloned(),
    })
}

/// `Value::Null`, the JSON `null`. Nothing is stated of it: the value is
/// opaque here.
#[verifier::external_body]
fn json_null() -> (null: serde_json::Value) {
    Value::Null
}

/// Whether `message` is what the protocol reads from a line with the
/// members `members`: `jsonrpc` is exactly the text `"2.0"`, an id that is
/// no unsigned integer is marked so, and the error's code and message, the
/// presence of a result and the method are kept.
pub open spec fn message_read_from(members: LineMembersView, message: IncomingMessage) -> bool {
    &&& message.jsonrpc_2_0 == (members.jsonrpc == Some("2.0"@))
    &&& message.id == match members.id {
        Some(Some(id)) => Some(MessageId::Unsigned(id)),
        Some(None) => Some(MessageId::NotUnsigned),
        None => None::<MessageId>,
    }
    &&& match message.error {
        Some(error) => members.error == Some((error.code, text_view(error.message))),
        None => members.error.is_none(),
    }
    &&& message.result.is_some() == members.has_result
    &&& text_view(message.method) == members.method
}

/// The message that the protocol reads from a line's members; `params` is
/// JSON `null` when the line has none.
pub fn message_from_members(members: LineMembers) -> (message: IncomingMessage)
    ensures
        message_read_from(members@, message),
        message.error == members.error,
        message.result == members.result,
        members.params matches Some(params) ==> message.params == params,
{
    let jsonrpc_2_0 = match &members.jsonrpc {
        Some(text) => same_text(text.as_str(), "2.0"),
        None => false,
    };
    let id = match members.id {
        Some(Some(id)) => Some(MessageId::Unsigned(id)),
        Some(None) => Some(MessageId::NotUnsigned),
        None => None,
    };
    let params = match members.params {
        Some(params) => params,
        None => json_null(),
    };
    IncomingMessage {
        jsonrpc_2_0,
        id,
        error: members.error,
        result: members.result,
        method: members.method,
        params,
    }
}

/// The part of a response that decides what its request receives.
pub struct ResponseBody {
    pub error: Option<ErrorObject>,
    pub result: Option<serde_json::Value>,
}

/// Where a server message goes.
pub enum Route {
    /// The response to the request with this id.
    Response { id: u64, body: ResponseBody },
    /// A notification for the subscriber.
    Notification(ServerNotification),
    /// A notification that nobody subscribes to.
    Ignored,
}

/// The notifications that the client forwards: rate-limit and account
/// updates, and the end of a browser login.
pub open spec fn is_forwarded_method(method: Seq<char>) -> bool {
    ||| method == "account/rateLimits/updated"@
    ||| method == "account/updated"@
    ||| method == "account/login/completed"@
    ||| method == "account/login/failed"@
    ||| method == "account/login/cancelled"@
}

fn forwarded_method(method: &str) -> (forwarded: bool)
    ensures
        forwarded == is_forwarded_method(method@),
{
    same_text(method, "account/rateLimits/updated") || same_text(method, "account/updated")
        || same_text(method, "account/login/completed") || same_text(method, "account/login/failed")
        || same_text(method, "account/login/cancelled")
}

/// Whether `result` is the protocol error with the given reason.
pub open spec fn is_protocol_error<T>(result: Result<T, AdapterError>, reason: Seq<char>) -> bool {
    match result {
        Err(AdapterError::Protocol { reason: actual }) => actual@ == reason,
        _ => false,
    }
}

/// Routes one server message. A message without `jsonrpc = "2.0"`, with an
/// id that is no unsigned integer, or without id and without a method breaks
/// the protocol.
pub fn route_message(message: IncomingMessage) -> (route: Result<Route, AdapterError>)
    ensures
        !message.jsonrpc_2_0 ==> is_protocol_error(route, "message is missing jsonrpc=2.0"@),
        message.jsonrpc_2_0 ==> match message.id {
            Some(MessageId::NotUnsigned) => is_protocol_error(
                route,
                "response id must be an unsigned integer"@,
            ),
            Some(MessageId::Unsigned(expected)) => match route {
                Ok(Route::Response { id, body }) => id == expected && body.error == message.error
                    && body.result == message.result,
                _ => false,
            },
            None => match message.method {
                None => is_protocol_error(route, "notification is missing a method"@),
                Some(method) => if is_forwarded_method(method@) {
                    match route {
                        Ok(Route::Notification(notification)) => notification.method@ == method@
                            && notification.params == message.params,
                        _ => false,
                    }
                } else {
                    route matches Ok(Route::Ignored)
                },
            },
        },
{
    if !message.jsonrpc_2_0 {
        return Err(AdapterError::Protocol { reason: String::from_str("message is missing jsonrpc=2.0") });
    }
    match message.id {
        Some(MessageId::NotUnsigned) => Err(
            AdapterError::Protocol { reason: String::from_str("response id must be an unsigned integer") },
        ),
        Some(MessageId::Unsigned(id)) => Ok(
            Route::Response { id, body: ResponseBody { error: message.error, result: message.result } },
        ),
        None => match message.method {
            None => Err(AdapterError::Protocol { reason: String::from_str("notification is missing a method") }),
            Some(method) => {
                if forwarded_method(method.as_str()) {
                    Ok(Route::Notification(ServerNotification { method, params: message.params }))
                } else {
                    Ok(Route::Ignored)
                }
            },
        },
    }
}

/// Whether `outcome` is what a request receives for the response `body`
/// (see [`response_outcome`]).
pub open spec fn outcome_matches(
    outcome: Result<Result<serde_json::Value, AdapterError>, AdapterError>,
    body: ResponseBody,
) -> bool {
    match body.error {
        Some(error) => match (error.code, error.message) {
            (None, _) => is_protocol_error(outcome, "JSON-RPC error is missing an integer code"@),
            (Some(_), None) => is_protocol_error(outcome, "JSON-RPC error is missing a message"@),
            (Some(code), Some(message)) => match outcome {
                Ok(Err(AdapterError::Rpc { code: actual, message: text, data })) => actual == code
                    && text@ == message@ && data == error.data,
                _ => false,
            },
        },
        None => match body.result {
            Some(result) => outcome == Ok::<Result<serde_json::Value, AdapterError>, AdapterError>(
                Ok(result),
            ),
            None => match outcome {
                Ok(inner) => is_protocol_error(inner, "response contains neither result nor error"@),
                Err(_) => false,
            },
        },
    }
}

/// What the request whose response this is receives. An error object without
/// an integer code or without a string message breaks the protocol (the outer
/// `Err`); otherwise the request gets the JSON-RPC error, else the result,
/// else a protocol error of its own.
pub fn response_outcome(body: ResponseBody) -> (outcome: Result<Result<serde_json::Value, AdapterError>, AdapterError>)
    ensures
        outcome_matches(outcome, body),
{
    match body.error {
        Some(error) => {
            let code = match error.code {
                Some(code) => code,
                None => {
                    return Err(
                        AdapterError::Protocol {
                            reason: String::from_str("JSON-RPC error is missing an integer code"),
                        },
                    );
                },
            };
            let message = match error.message {
                Some(message) => message,
                None => {
                    return Err(
                        AdapterError::Protocol { reason: String::from_str("JSON-RPC error is missing a message") },
                    );
                },
            };
            Ok(Err(AdapterError::Rpc { code, message, data: error.data }))
        },
        None => match body.result {
            Some(result) => Ok(Ok(result)),
            None => Ok(
                Err(AdapterError::Protocol { reason: String::from_str("response contains neither result nor error") }),
            ),
        },
    }
}


/// `Value::clone`, which serde_json derives: an equal value.
pub assume_specification[ <serde_json::Value as std::clone::Clone>::clone ](value: &serde_json::Value) -> (copy: serde_json::Value)
    ensures
        copy == *value,
;

/// `Duration::clone`, which std derives beside `Copy`: the same duration.
pub assume_specification[ <std::time::Duration as std::clone::Clone>::clone ](duration: &std::time::Duration) -> (copy: std::time::Duration)
    ensures
        copy == *duration,
;

/// An equal copy of an error.
fn copy_error(error: &AdapterError) -> (copy: AdapterError)
    ensures
        copy == *error,
{
    match error {
        AdapterError::ExecutableNotFound => AdapterError::ExecutableNotFound,
        AdapterError::VersionCheckFailed { reason } => AdapterError::VersionCheckFailed { reason: reason.clone() },
        AdapterError::SpawnFailed { reason } => AdapterError::SpawnFailed { reason: reason.clone() },
        AdapterError::Io { operation, reason } => AdapterError::Io { operation: *operation, reason: reason.clone() },
        AdapterError::Protocol { reason } => AdapterError::Protocol { reason: reason.clone() },
        AdapterError::MalformedJson => AdapterError::MalformedJson,
        AdapterError::Rpc { code, message, data } => AdapterError::Rpc {
            code: *code,
            message: message.clone(),
            data: match data {
                Some(value) => Some(value.clone()),
                None => None,
            },
        },
        AdapterError::Timeout { method } => AdapterError::Timeout { method: method.clone() },
        AdapterError::UnexpectedChildExit => AdapterError::UnexpectedChildExit,
        AdapterError::StderrFlooding { limit } => AdapterError::StderrFlooding { limit: *limit },
        AdapterError::AlreadyShutdown => AdapterError::AlreadyShutdown,
    }
}

/// Admitting a request: refused with the error that ended the connection,
/// else pending.
pub open spec fn register_step<S>(before: RequestTableView<S>, id: u64, waiter: S) -> (Result<(), AdapterError>, RequestTableView<S>) {
    match before.fatal {
        Some(error) => (Err(error), before),
        None => (Ok(()), RequestTableView { pending: before.pending.insert(id, waiter), fatal: None }),
    }
}

/// Taking out the waiter of the request `id`: it is no longer pending.
pub open spec fn take_step<S>(before: RequestTableView<S>, id: u64) -> (Option<S>, RequestTableView<S>) {
    (
        if before.pending.contains_key(id) {
            Some(before.pending[id])
        } else {
            None
        },
        RequestTableView { pending: before.pending.remove(id), fatal: before.fatal },
    )
}

/// Ending the connection: the first error is kept and every waiter is
/// handed out; once ended, nothing changes and nobody is handed out.
pub open spec fn fail_step<S>(before: RequestTableView<S>, error: AdapterError) -> (Map<u64, S>, RequestTableView<S>) {
    match before.fatal {
        Some(_) => (Map::empty(), before),
        None => (before.pending, RequestTableView { pending: Map::empty(), fatal: Some(error) }),
    }
}

/// After the connection ended, no request is admitted: each is refused with
/// the first error, and a later failure neither replaces that error nor
/// hands out any waiter.
pub proof fn law_failure_is_final<S>(
    before: RequestTableView<S>,
    first: AdapterError,
    second: AdapterError,
    id: u64,
    waiter: S,
)
    requires
        before.fatal.is_none(),
    ensures
        ({
            let (_, failed) = fail_step(before, first);
            &&& register_step(failed, id, waiter) == (Err::<(), AdapterError>(first), failed)
            &&& fail_step(failed, second).0 == Map::<u64, S>::empty()
            &&& fail_step(failed, second).1 == failed
            &&& failed.pending == Map::<u64, S>::empty()
        }),
{
}

/// A request admitted before the connection ends is handed out by the
/// failure exactly once: it is among the orphaned waiters, and afterwards
/// it is no longer pending, so a late response finds nobody.
pub proof fn law_waiters_are_answered_once<S>(
    before: RequestTableView<S>,
    id: u64,
    waiter: S,
    error: AdapterError,
)
    requires
        before.fatal.is_none(),
    ensures
        ({
            let (admitted, registered) = register_step(before, id, waiter);
            let (orphaned, failed) = fail_step(registered, error);
            &&& admitted is Ok
            &&& orphaned.contains_key(id) && orphaned[id] == waiter
            &&& take_step(failed, id).0.is_none()
            &&& fail_step(failed, error).0 == Map::<u64, S>::empty()
        }),
{
}

/// A response reaches the request it answers only while that request
/// waits: taking its waiter out leaves nothing for a second response.
pub proof fn law_a_response_is_delivered_once<S>(before: RequestTableView<S>, id: u64)
    ensures
        ({
            let (first, after) = take_step(before, id);
            &&& first.is_some() == before.pending.contains_key(id)
            &&& take_step(after, id).0.is_none()
        }),
{
}

/// What a [`RequestTable`] holds.
pub struct RequestTableView<S> {
    /// What waits for the response to each pending request, by request id.
    pub pending: Map<u64, S>,
    /// The error that ended the connection, if it ended.
    pub fatal: Option<AdapterError>,
}

/// The requests that wait for a response, and the error that ended the
/// connection. Once the connection has ended no request is admitted, and
/// every request that was waiting is handed the error once.
pub struct RequestTable<S> {
    pending: HashMap<u64, S>,
    fatal: Option<AdapterError>,
}

impl<S> View for RequestTable<S> {
    type V = RequestTableView<S>;

    closed spec fn view(&self) -> RequestTableView<S> {
        RequestTableView { pending: self.pending@, fatal: self.fatal }
    }
}

impl<S> RequestTable<S> {
    pub fn new() -> (table: Self)
        ensures
            table@.pending == Map::<u64, S>::empty(),
            table@.fatal.is_none(),
    {
        RequestTable { pending: HashMap::new(), fatal: None }
    }

    /// Admits a request with the id `id`, whose response `waiter` awaits;
    /// after the connection ended the request is refused with its error.
    pub fn register_pending(&mut self, id: u64, waiter: S) -> (admitted: Result<(), AdapterError>)
        ensures
            (admitted, final(self)@) == register_step(old(self)@, id, waiter),
    {
        broadcast use vstd::std_specs::hash::group_hash_axioms;
        if let Some(error) = &self.fatal {
            return Err(copy_error(error));
        }
        let _ = self.pending.insert(id, waiter);
        Ok(())
    }

    /// Takes out what waits for the response to the request `id`, if any.
    pub fn take_pending(&mut self, id: u64) -> (waiter: Option<S>)
        ensures
            (waiter, final(self)@) == take_step(old(self)@, id),
    {
        broadcast use vstd::std_specs::hash::group_hash_axioms;
        let waiter = self.pending.remove(&id);
        assert(self.pending@ =~= old(self)@.pending.remove(id));
        waiter
    }

    /// Ends the connection with `error`, unless it already ended: the error
    /// is kept, and everything that waited is handed back so that each
    /// waiter receives the error once. A second failure changes nothing.
    pub fn fail(&mut self, error: AdapterError) -> (orphaned: HashMap<u64, S>)
        ensures
            (orphaned@, final(self)@) == fail_step(old(self)@, error),
    {
        broadcast use vstd::std_specs::hash::group_hash_axioms;
        if self.fatal.is_some() {
            return HashMap::new();
        }
        self.fatal = Some(error);
        let mut orphaned: HashMap<u64, S> = HashMap::new();
        std::mem::swap(&mut orphaned, &mut self.pending);
        orphaned
    }

    /// The error that ended the connection, if it ended.
    pub fn fatal_error(&self) -> (fatal: Option<AdapterError>)
        ensures
            fatal == self@.fatal,
    {
        match &self.fatal {
            Some(error) => Some(copy_error(error)),
            None => None,
        }
    }
}

/// What the reader of the server's output does with one message.
pub enum Delivery<S> {
    /// Hand `outcome` to the request that `waiter` stands for.
    Reply { waiter: S, outcome: Result<serde_json::Value, AdapterError> },
    /// Forward the notification to the subscriber.
    Forward(ServerNotification),
    /// Nothing: a notification nobody subscribes to, or the response to a
    /// request that no longer waits.
    Discard,
}

/// Whether `delivery` hands `waiter` what its request receives for `body`.
pub open spec fn reply_matches<S>(delivery: Result<Delivery<S>, AdapterError>, waiter: S, body: ResponseBody) -> bool {
    match delivery {
        Ok(Delivery::Reply { waiter: receiver, outcome }) => receiver == waiter && outcome_matches(
            Ok(outcome),
            body,
        ),
        Ok(_) => false,
        Err(error) => outcome_matches(Err(error), body),
    }
}

/// Whether `delivery` is what a message that is no well-formed response
/// leads to: a forwarded notification, a discarded one, or a broken protocol.
pub open spec fn unrouted_matches<S>(delivery: Result<Delivery<S>, AdapterError>, message: IncomingMessage) -> bool {
    if !message.jsonrpc_2_0 {
        is_protocol_error(delivery, "message is missing jsonrpc=2.0"@)
    } else {
        match message.id {
            Some(MessageId::NotUnsigned) => is_protocol_error(
                delivery,
                "response id must be an unsigned integer"@,
            ),
            Some(MessageId::Unsigned(_)) => false,
            None => match message.method {
                None => is_protocol_error(delivery, "notification is missing a method"@),
                Some(method) => if is_forwarded_method(method@) {
                    match delivery {
                        Ok(Delivery::Forward(notification)) => notification.method@ == method@
                            && notification.params == message.params,
                        _ => false,
                    }
                } else {
                    delivery matches Ok(Delivery::Discard)
                },
            },
        }
    }
}

/// What dispatching `message` does: a response goes to the request that
/// waits for it, which is then no longer pending, and a response that nobody
/// waits for is discarded; any other message is forwarded, discarded or
/// breaks the protocol, and leaves the table alone. The error that ended the
/// connection stays as it was.
pub open spec fn dispatched<S>(
    before: RequestTableView<S>,
    message: IncomingMessage,
    delivery: Result<Delivery<S>, AdapterError>,
    after: RequestTableView<S>,
) -> bool {
    &&& after.fatal == before.fatal
    &&& match message.id {
        Some(MessageId::Unsigned(id)) => message.jsonrpc_2_0 ==> {
            &&& after.pending == before.pending.remove(id)
            &&& if before.pending.contains_key(id) {
                reply_matches(
                    delivery,
                    before.pending[id],
                    ResponseBody { error: message.error, result: message.result },
                )
            } else {
                delivery matches Ok(Delivery::Discard)
            }
        },
        _ => true,
    }
    &&& !(message.jsonrpc_2_0 && message.id matches Some(MessageId::Unsigned(_))) ==> {
        &&& after.pending == before.pending
        &&& unrouted_matches(delivery, message)
    }
}

/// Dispatches one server message. A response goes to the request that
/// waits for it, which is then no longer pending; a response that nobody
/// waits for is discarded unread. An error (the connection is broken)
/// comes from a malformed message or a malformed error object.
pub fn dispatch_message<S>(table: &mut RequestTable<S>, message: IncomingMessage) -> (delivery: Result<Delivery<S>, AdapterError>)
    ensures
        dispatched(old(table)@, message, delivery, final(table)@),
{
    let route = route_message(message)?;
    match route {
        Route::Response { id, body } => {
            match table.take_pending(id) {
                Some(waiter) => {
                    let outcome = response_outcome(body)?;
                    Ok(Delivery::Reply { waiter, outcome })
                },
                None => Ok(Delivery::Discard),
            }
        },
        Route::Notification(notification) => Ok(Delivery::Forward(notification)),
        Route::Ignored => Ok(Delivery::Discard),
    }
}

/// Handles one line that the server wrote: a line that is no JSON breaks
/// the connection with a malformed-JSON failure and leaves the table alone;
/// otherwise the message read from its members is dispatched.
pub fn handle_stdout_line<S>(table: &mut RequestTable<S>, line: &str) -> (delivery: Result<Delivery<S>, AdapterError>)
    ensures
        !json_text(line@) ==> delivery == Err::<Delivery<S>, AdapterError>(AdapterError::MalformedJson)
            && final(table)@ == old(table)@,
        json_text(line@) ==> exists|message: IncomingMessage|
            #[trigger] message_read_from(json_members(line@), message) && dispatched(
                old(table)@,
                message,
                delivery,
                final(table)@,
            ),
{
    match parse_line(line) {
        None => Err(AdapterError::MalformedJson),
        Some(members) => {
            let message = message_from_members(members);
            dispatch_message(table, message)
        },
    }
}

/// How the wait for a response ended.
pub enum ReplyWait {
    /// The reader delivered the outcome.
    Received(Result<serde_json::Value, AdapterError>),
    /// No outcome came within the request timeout.
    TimedOut,
    /// The reader is gone without delivering one.
    Disconnected,
}

/// The result of the request `id` for `method` once its wait ended: the
/// delivered outcome; after a timeout the request stops waiting and times
/// out; when the reader is gone, the error that ended the connection, or an
/// unexpected exit of the server.
pub fn finish_request<S>(table: &mut RequestTable<S>, id: u64, method: &str, wait: ReplyWait) -> (result: Result<serde_json::Value, AdapterError>)
    ensures
        match wait {
            ReplyWait::Received(outcome) => result == outcome && final(table)@ == old(table)@,
            ReplyWait::TimedOut => {
                &&& final(table)@ == (RequestTableView {
                    pending: old(table)@.pending.remove(id),
                    fatal: old(table)@.fatal,
                })
                &&& result matches Err(AdapterError::Timeout { method: timed_out }) && timed_out@ == method@
            },
            ReplyWait::Disconnected => final(table)@ == old(table)@ && result == Err::<serde_json::Value, AdapterError>(
                match old(table)@.fatal {
                    Some(error) => error,
                    None => AdapterError::UnexpectedChildExit,
                },
            ),
        },
{
    match wait {
        ReplyWait::Received(outcome) => outcome,
        ReplyWait::TimedOut => {
            let _ = table.take_pending(id);
            Err(AdapterError::Timeout { method: String::from_str(method) })
        },
        ReplyWait::Disconnected => match table.fatal_error() {
            Some(error) => Err(error),
            None => Err(AdapterError::UnexpectedChildExit),
        },
    }
}

/// What polling a child process for its exit found.
pub enum ChildPoll {
    /// It exited; `success` tells a successful status, `status` describes it.
    Exited { success: bool, status: String },
    /// It still runs.
    Running,
    /// Polling failed for `reason`.
    Failed { reason: String },
}

/// The next step of the `codex --version` check.
pub enum VersionCheckStep {
    /// Poll again after a short sleep.
    Wait,
    /// The check is over with this result.
    Done(Result<(), AdapterError>),
    /// Kill the child, wait for it, and fail with this error.
    Abandon(AdapterError),
}

/// Whether `error` is a failed version check for the given reason.
pub open spec fn is_version_failure(error: AdapterError, reason: Seq<char>) -> bool {
    match error {
        AdapterError::VersionCheckFailed { reason: actual } => actual@ == reason,
        _ => false,
    }
}

/// Decides the version check after one poll: a successful exit passes, any
/// other exit or a failed poll fails, and a child still running past the
/// deadline is abandoned.
pub fn version_check_step(poll: ChildPoll, before_deadline: bool) -> (step: VersionCheckStep)
    ensures
        match poll {
            ChildPoll::Exited { success, status } => if success {
                step matches VersionCheckStep::Done(Ok(()))
            } else {
                step matches VersionCheckStep::Done(Err(error)) && is_version_failure(
                    error,
                    "process exited with status "@ + status@,
                )
            },
            ChildPoll::Running => if before_deadline {
                step is Wait
            } else {
                step matches VersionCheckStep::Abandon(error) && is_version_failure(
                    error,
                    "process did not exit before the verification timeout"@,
                )
            },
            ChildPoll::Failed { reason } => step matches VersionCheckStep::Done(Err(error))
                && is_version_failure(error, reason@),
        },
{
    match poll {
        ChildPoll::Exited { success, status } => {
            if success {
                VersionCheckStep::Done(Ok(()))
            } else {
                VersionCheckStep::Done(
                    Err(
                        AdapterError::VersionCheckFailed {
                            reason: joined("process exited with status ", status.as_str()),
                        },
                    ),
                )
            }
        },
        ChildPoll::Running => {
            if before_deadline {
                VersionCheckStep::Wait
            } else {
                VersionCheckStep::Abandon(
                    AdapterError::VersionCheckFailed {
                        reason: String::from_str("process did not exit before the verification timeout"),
                    },
                )
            }
        },
        ChildPoll::Failed { reason } => VersionCheckStep::Done(
            Err(AdapterError::VersionCheckFailed { reason }),
        ),
    }
}

/// Why the reader of the server's stdout stops short of a line: the pipe
/// closed, or reading failed.
pub enum StdoutBreak {
    Closed,
    ReadFailed(String),
}

/// The failure that the client records when its stdout pipe ends: a closed
/// or failing pipe fails the client only when no shutdown is under way.
/// (A line that is no JSON fails it always; see [`handle_stdout_line`].)
pub fn stdout_break_error(cause: StdoutBreak, shutting_down: bool) -> (error: Option<AdapterError>)
    ensures
        match cause {
            StdoutBreak::Closed => error == if shutting_down {
                None
            } else {
                Some(AdapterError::UnexpectedChildExit)
            },
            StdoutBreak::ReadFailed(reason) => if shutting_down {
                error is None
            } else {
                error matches Some(failure) && is_io_failure(failure, "read child stdout"@, reason@)
            },
        },
{
    proof {
        reveal_strlit("read child stdout");
    }
    match cause {
        StdoutBreak::Closed => {
            if shutting_down {
                None
            } else {
                Some(AdapterError::UnexpectedChildExit)
            }
        },
        StdoutBreak::ReadFailed(reason) => {
            if shutting_down {
                None
            } else {
                Some(AdapterError::Io { operation: "read child stdout", reason })
            }
        },
    }
}

/// What a [`ChildShutdown`] holds.
pub struct ChildShutdownView {
    pub exited: bool,
    pub first_error: Option<AdapterError>,
}

/// Stopping the App Server child after its stdin was closed: it gets the
/// grace period to exit by itself, is killed only if it did not, is always
/// waited for, and the first failure among these steps is reported.
pub struct ChildShutdown {
    exited: bool,
    first_error: Option<AdapterError>,
}

impl View for ChildShutdown {
    type V = ChildShutdownView;

    closed spec fn view(&self) -> ChildShutdownView {
        ChildShutdownView { exited: self.exited, first_error: self.first_error }
    }
}

/// Whether `error` is an I/O failure of `operation` for the given reason.
pub open spec fn is_io_failure(error: AdapterError, operation: Seq<char>, reason: Seq<char>) -> bool {
    match error {
        AdapterError::Io { operation: actual, reason: text } => actual@ == operation && text@ == reason,
        _ => false,
    }
}

/// `first` unless it is none and the step failed for some reason, in which
/// case an I/O failure of `operation` with that reason.
pub open spec fn keeps_first_failure(
    after: Option<AdapterError>,
    first: Option<AdapterError>,
    operation: Seq<char>,
    outcome: Result<(), String>,
) -> bool {
    match (first, outcome) {
        (Some(_), _) => after == first,
        (None, Ok(())) => after.is_none(),
        (None, Err(reason)) => after matches Some(error) && is_io_failure(error, operation, reason@),
    }
}

impl ChildShutdown {
    pub fn new() -> (shutdown: Self)
        ensures
            shutdown@ == (ChildShutdownView { exited: false, first_error: None }),
    {
        ChildShutdown { exited: false, first_error: None }
    }

    /// Records one poll of the child; returns whether to poll again. Polling
    /// stops when the child exited, when polling failed, or at the deadline.
    pub fn on_poll(&mut self, poll: ChildPoll, before_deadline: bool) -> (poll_again: bool)
        requires
            !old(self)@.exited,
            old(self)@.first_error.is_none(),
        ensures
            match poll {
                ChildPoll::Exited { .. } => !poll_again && final(self)@ == (ChildShutdownView {
                    exited: true,
                    first_error: None,
                }),
                ChildPoll::Running => poll_again == before_deadline && final(self)@ == old(self)@,
                ChildPoll::Failed { reason } => {
                    &&& !poll_again
                    &&& !final(self)@.exited
                    &&& final(self)@.first_error matches Some(error) && is_io_failure(
                        error,
                        "poll child exit"@,
                        reason@,
                    )
                },
            },
    {
        match poll {
            ChildPoll::Exited { .. } => {
                self.exited = true;
                false
            },
            ChildPoll::Running => before_deadline,
            ChildPoll::Failed { reason } => {
                self.first_error = Some(AdapterError::Io { operation: "poll child exit", reason });
                false
            },
        }
    }

    /// Whether the child has to be killed: it did not exit by itself.
    pub fn needs_kill(&self) -> (kill: bool)
        ensures
            kill == !self@.exited,
    {
        !self.exited
    }

    fn note(&mut self, operation: &'static str, outcome: Result<(), String>)
        ensures
            final(self)@.exited == old(self)@.exited,
            keeps_first_failure(final(self)@.first_error, old(self)@.first_error, operation@, outcome),
    {
        if self.first_error.is_none() {
            if let Err(reason) = outcome {
                self.first_error = Some(AdapterError::Io { operation, reason });
            }
        }
    }

    /// Records the outcome of killing the child.
    pub fn on_kill(&mut self, outcome: Result<(), String>)
        ensures
            final(self)@.exited == old(self)@.exited,
            keeps_first_failure(final(self)@.first_error, old(self)@.first_error, "kill child"@, outcome),
    {
        proof {
            reveal_strlit("kill child");
        }
        self.note("kill child", outcome);
    }

    /// Records the outcome of waiting for the child.
    pub fn on_wait(&mut self, outcome: Result<(), String>)
        ensures
            final(self)@.exited == old(self)@.exited,
            keeps_first_failure(
                final(self)@.first_error,
                old(self)@.first_error,
                "wait for child"@,
                outcome,
            ),
    {
        proof {
            reveal_strlit("wait for child");
        }
        self.note("wait for child", outcome);
    }

    /// The result of the shutdown: the first failure, if any.
    pub fn finish(self) -> (result: Result<(), AdapterError>)
        ensures
            match self@.first_error {
                Some(error) => result == Err::<(), AdapterError>(error),
                None => result is Ok,
            },
    {
        match self.first_error {
            Some(error) => Err(error),
            None => Ok(()),
        }
    }
}

} // verus!
