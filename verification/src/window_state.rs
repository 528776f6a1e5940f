//! Window preferences driven by native window and tray operations: a
//! preference changes only after every native step succeeded, failed steps
//! are compensated, and a failed compensation demands a shutdown. Also the
//! decisions about which window moves are persisted.

use vstd::prelude::*;
use vstd::string::*;
use vstd::std_specs::cmp::PartialEqSpec;
use crate::account::text_of;
use crate::text::same_text;

verus! {

/// The tray checkbox that mirrors the lock.
pub const LOCKED_MENU_ID: &'static str = "locked";
/// The tray checkbox that mirrors "always on top".
pub const TOPMOST_MENU_ID: &'static str = "topmost";
/// The tray checkbox that mirrors the start at login.
pub const AUTOSTART_MENU_ID: &'static str = "autostart";

/// A failed native window or tray operation.
#[derive(Clone, Debug, PartialEq, Eq)]
pub struct WindowOperationError {
    message: String,
    requires_shutdown: bool,
}

/// What a [`WindowOperationError`] holds.
pub struct WindowErrorView {
    pub message: Seq<char>,
    pub requires_shutdown: bool,
}

impl View for WindowOperationError {
    type V = WindowErrorView;

    closed spec fn view(&self) -> WindowErrorView {
        WindowErrorView { message: self.message@, requires_shutdown: self.requires_shutdown }
    }
}

/// The text of one failed compensation step: the step, a colon and the error.
pub open spec fn failure_entry(operation: Seq<char>, error: WindowErrorView) -> Seq<char> {
    operation + ": "@ + error.message
}

/// The failed compensation steps, separated by semicolons.
pub open spec fn failure_list(failures: Seq<(Seq<char>, WindowErrorView)>) -> Seq<char>
    decreases failures.len(),
{
    if failures.len() == 0 {
        Seq::empty()
    } else if failures.len() == 1 {
        failure_entry(failures[0].0, failures[0].1)
    } else {
        failure_list(failures.drop_last()) + "; "@ + failure_entry(
            failures.last().0,
            failures.last().1,
        )
    }
}

/// The failed compensation steps of a vector, as characters.
pub open spec fn failure_views(failures: Seq<(&'static str, WindowOperationError)>) -> Seq<(Seq<char>, WindowErrorView)> {
    failures.map_values(|failure: (&'static str, WindowOperationError)| (failure.0@, failure.1@))
}

/// The error reported when the operation failed with `primary` and the
/// compensation steps `failures` failed too: the primary error itself when
/// every compensation succeeded, else a fatal error naming all of them.
pub open spec fn compensated_error(
    primary: WindowErrorView,
    failures: Seq<(Seq<char>, WindowErrorView)>,
) -> WindowErrorView {
    if failures.len() == 0 {
        primary
    } else {
        WindowErrorView {
            message: primary.message + "; compensation failed ("@ + failure_list(failures) + ")"@,
            requires_shutdown: true,
        }
    }
}

impl WindowOperationError {
    /// A failure that the application can survive.
    pub fn new(message: &str) -> (error: Self)
        ensures
            error@ == (WindowErrorView { message: message@, requires_shutdown: false }),
    {
        WindowOperationError { message: String::from_str(message), requires_shutdown: false }
    }

    /// A failure after which the native state is unknown: the application must stop.
    pub fn fatal(message: &str) -> (error: Self)
        ensures
            error@ == (WindowErrorView { message: message@, requires_shutdown: true }),
    {
        WindowOperationError { message: String::from_str(message), requires_shutdown: true }
    }

    pub fn requires_shutdown(&self) -> (fatal: bool)
        ensures
            fatal == self@.requires_shutdown,
    {
        self.requires_shutdown
    }

    /// The error's text, as it is displayed.
    pub fn message(&self) -> (text: String)
        ensures
            text@ == self@.message,
    {
        self.message.clone()
    }

    /// Combines the error of an operation with the failures of the steps that
    /// tried to undo it.
    pub fn after_compensation(primary: Self, failures: Vec<(&'static str, Self)>) -> (error: Self)
        ensures
            error@ == compensated_error(primary@, failure_views(failures@)),
    {
        if failures.len() == 0 {
            return primary;
        }
        let mut message = primary.message.clone();
        message.append("; compensation failed (");
        let listed = failure_text(&failures);
        message.append(listed.as_str());
        message.append(")");
        WindowOperationError { message, requires_shutdown: true }
    }
}

/// The result of a native window or tray operation.
pub type WindowOperationResult<T = ()> = Result<T, WindowOperationError>;

/// The native window operations that the preferences depend on.
pub trait NativeWindow {
    fn show_without_activation(&self) -> WindowOperationResult;
    fn hide_window(&self) -> WindowOperationResult;
    fn set_always_on_top(&self, enabled: bool) -> WindowOperationResult;
    fn set_ignore_cursor_events(&self, enabled: bool) -> WindowOperationResult;
}

/// The tray checkboxes that mirror the preferences.
pub trait TrayState {
    fn is_checked(&self, id: &str) -> WindowOperationResult<bool>;
    fn set_checked(&self, id: &str, checked: bool) -> WindowOperationResult;
}

/// The start of the application at login, as the operating system keeps it.
pub trait AutostartControl {
    fn is_enabled(&self) -> WindowOperationResult<bool>;
    fn enable(&self) -> WindowOperationResult;
    fn disable(&self) -> WindowOperationResult;
}

/// What switching the start at login to `enabled` through `autostart` may give.
pub open spec fn autostart_switch<A: AutostartControl>(autostart: &A) -> spec_fn(bool, WindowOperationResult) -> bool {
    |enabled: bool, outcome: WindowOperationResult| if enabled {
        call_ensures(A::enable, (autostart,), outcome)
    } else {
        call_ensures(A::disable, (autostart,), outcome)
    }
}

fn set_autostart_enabled<A: AutostartControl>(autostart: &A, enabled: bool) -> (outcome: WindowOperationResult)
    ensures
        autostart_switch(autostart)(enabled, outcome),
{
    if enabled {
        autostart.enable()
    } else {
        autostart.disable()
    }
}

/// The window preferences that the user controls from the tray.
#[derive(Clone, Copy, Debug, PartialEq, Eq, Structural)]
pub struct WindowPreferences {
    pub locked: bool,
    pub always_on_top: bool,
    pub visible: bool,
    pub autostart: bool,
}

impl WindowPreferences {
    pub open spec fn with_locked(self, locked: bool) -> Self {
        WindowPreferences { locked, ..self }
    }

    pub open spec fn with_always_on_top(self, always_on_top: bool) -> Self {
        WindowPreferences { always_on_top, ..self }
    }

    pub open spec fn with_visible(self, visible: bool) -> Self {
        WindowPreferences { visible, ..self }
    }

    pub open spec fn with_autostart(self, autostart: bool) -> Self {
        WindowPreferences { autostart, ..self }
    }
}

/// Whether `text` begins with `prefix`.
pub open spec fn starts_with(text: Seq<char>, prefix: Seq<char>) -> bool {
    prefix.len() <= text.len() && text.subrange(0, prefix.len() as int) == prefix
}

/// Changes the window preferences through the native window and the tray.
pub struct WindowStateController {
    preferences: WindowPreferences,
}

impl View for WindowStateController {
    type V = WindowPreferences;

    closed spec fn view(&self) -> WindowPreferences {
        self.preferences
    }
}

/// What switching cursor passthrough of `window` to a value may give.
pub open spec fn cursor_passthrough<W: NativeWindow>(window: &W) -> spec_fn(bool, WindowOperationResult) -> bool {
    |enabled: bool, outcome: WindowOperationResult| call_ensures(
        W::set_ignore_cursor_events,
        (window, enabled),
        outcome,
    )
}

/// What switching "always on top" of `window` to a value may give.
pub open spec fn topmost<W: NativeWindow>(window: &W) -> spec_fn(bool, WindowOperationResult) -> bool {
    |enabled: bool, outcome: WindowOperationResult| call_ensures(W::set_always_on_top, (window, enabled), outcome)
}

/// What setting the tray checkbox `id` to a value may give.
pub open spec fn checkbox<T: TrayState>(tray: &T, id: &str) -> spec_fn(bool, WindowOperationResult) -> bool {
    |checked: bool, outcome: WindowOperationResult| call_ensures(T::set_checked, (tray, id, checked), outcome)
}

/// What reading the tray checkbox `id` may give.
pub open spec fn checkbox_reading<T: TrayState>(tray: &T, id: &str) -> spec_fn(WindowOperationResult<bool>) -> bool {
    |outcome: WindowOperationResult<bool>| call_ensures(T::is_checked, (tray, id), outcome)
}

/// The failed steps among `steps`, in order: each step's name with its error.
pub open spec fn failed_steps(steps: Seq<(Seq<char>, WindowOperationResult)>) -> Seq<(Seq<char>, WindowErrorView)>
    decreases steps.len(),
{
    if steps.len() == 0 {
        Seq::empty()
    } else {
        let earlier = failed_steps(steps.drop_last());
        match steps.last().1 {
            Ok(()) => earlier,
            Err(error) => earlier.push((steps.last().0, error@)),
        }
    }
}

/// Whether `result` is the error of a step that failed with `primary` and
/// whose compensation steps gave `steps`.
pub open spec fn compensated<T>(result: WindowOperationResult<T>, primary: WindowErrorView, steps: Seq<(Seq<char>, WindowOperationResult)>) -> bool {
    match result {
        Err(error) => error@ == compensated_error(primary, failed_steps(steps)),
        Ok(_) => false,
    }
}

/// The native calls of a toggle to `value`: the native change first; if it
/// fails, the checkbox is set back to `previous`; if it succeeds, the
/// checkbox is set to `value`, and if that fails, both are set back.
pub open spec fn toggle_calls(
    native: spec_fn(bool, WindowOperationResult) -> bool,
    mirror: spec_fn(bool, WindowOperationResult) -> bool,
    previous: bool,
    value: bool,
    applied: WindowOperationResult,
    mirrored: WindowOperationResult,
    native_restored: WindowOperationResult,
    mirror_restored: WindowOperationResult,
) -> bool {
    &&& native(value, applied)
    &&& match applied {
        Err(_) => mirror(previous, mirror_restored),
        Ok(()) => mirror(value, mirrored) && (mirrored is Err ==> native(previous, native_restored) && mirror(
            previous,
            mirror_restored,
        )),
    }
}

/// What a toggle leads to, given the outcomes of its calls: the changed
/// preferences when both the native change and the checkbox succeeded;
/// otherwise the preferences stay and the error of the failed step is
/// reported with the failures of the steps that set things back.
pub open spec fn toggle_outcome(
    native_restore: Seq<char>,
    mirror_restore: Seq<char>,
    applied: WindowOperationResult,
    mirrored: WindowOperationResult,
    native_restored: WindowOperationResult,
    mirror_restored: WindowOperationResult,
    before: WindowPreferences,
    changed: WindowPreferences,
    after: WindowPreferences,
    result: WindowOperationResult<WindowPreferences>,
) -> bool {
    match applied {
        Err(error) => after == before && compensated(result, error@, seq![(mirror_restore, mirror_restored)]),
        Ok(()) => match mirrored {
            Err(error) => after == before && compensated(
                result,
                error@,
                seq![(native_restore, native_restored), (mirror_restore, mirror_restored)],
            ),
            Ok(()) => after == changed && result == Ok::<WindowPreferences, WindowOperationError>(changed),
        },
    }
}

/// A toggle from `previous` to `value` was made through `native` and
/// `mirror`, and led to `after` and `result` (see [`toggle_calls`] and
/// [`toggle_outcome`]).
pub open spec fn toggle_traced(
    native: spec_fn(bool, WindowOperationResult) -> bool,
    mirror: spec_fn(bool, WindowOperationResult) -> bool,
    native_restore: Seq<char>,
    mirror_restore: Seq<char>,
    previous: bool,
    value: bool,
    before: WindowPreferences,
    changed: WindowPreferences,
    after: WindowPreferences,
    result: WindowOperationResult<WindowPreferences>,
) -> bool {
    exists|
        applied: WindowOperationResult,
        mirrored: WindowOperationResult,
        native_restored: WindowOperationResult,
        mirror_restored: WindowOperationResult,
    |
        #[trigger] toggle_calls(native, mirror, previous, value, applied, mirrored, native_restored, mirror_restored)
            && toggle_outcome(
            native_restore,
            mirror_restore,
            applied,
            mirrored,
            native_restored,
            mirror_restored,
            before,
            changed,
            after,
            result,
        )
}

/// The checkbox was read; on failure it was set back to `current`.
pub open spec fn read_calls(
    reading: spec_fn(WindowOperationResult<bool>) -> bool,
    mirror: spec_fn(bool, WindowOperationResult) -> bool,
    current: bool,
    read: WindowOperationResult<bool>,
    restored: WindowOperationResult,
) -> bool {
    reading(read) && (read is Err ==> mirror(current, restored))
}

/// A toggle to the value that the checkbox shows: the checkbox is read; if
/// that fails, it is set back to `current` and nothing else happens;
/// otherwise the toggle to the value read follows.
pub open spec fn read_toggle_traced(
    reading: spec_fn(WindowOperationResult<bool>) -> bool,
    native: spec_fn(bool, WindowOperationResult) -> bool,
    mirror: spec_fn(bool, WindowOperationResult) -> bool,
    native_restore: Seq<char>,
    mirror_restore: Seq<char>,
    current: bool,
    before: WindowPreferences,
    change: spec_fn(bool) -> WindowPreferences,
    after: WindowPreferences,
    result: WindowOperationResult<WindowPreferences>,
) -> bool {
    exists|read: WindowOperationResult<bool>, restored: WindowOperationResult|
        #[trigger] read_calls(reading, mirror, current, read, restored) && match read {
            Ok(value) => toggle_traced(
                native,
                mirror,
                native_restore,
                mirror_restore,
                current,
                value,
                before,
                change(value),
                after,
                result,
            ),
            Err(error) => after == before && compensated(result, error@, seq![(mirror_restore, restored)]),
        }
}

/// A single native call `call` to `value` whose success applies `changed`
/// and whose error is reported as it came.
pub open spec fn single_call_traced(
    call: spec_fn(bool, WindowOperationResult) -> bool,
    value: bool,
    before: WindowPreferences,
    changed: WindowPreferences,
    after: WindowPreferences,
    result: WindowOperationResult<WindowPreferences>,
) -> bool {
    exists|outcome: WindowOperationResult|
        #[trigger] call(value, outcome) && match outcome {
            Ok(()) => after == changed && result == Ok::<WindowPreferences, WindowOperationError>(changed),
            Err(error) => after == before && result == Err::<WindowPreferences, WindowOperationError>(error),
        }
}

/// What showing (`true`) or hiding (`false`) `window` may give.
pub open spec fn visibility<W: NativeWindow>(window: &W) -> spec_fn(bool, WindowOperationResult) -> bool {
    |visible: bool, outcome: WindowOperationResult| if visible {
        call_ensures(W::show_without_activation, (window,), outcome)
    } else {
        call_ensures(W::hide_window, (window,), outcome)
    }
}

/// The calls that apply the system's start at login from the checkbox: the
/// checkbox is read, then the system state is queried (on a failure of
/// either the checkbox is set back to `mirrored`); then a toggle from the
/// state queried to the value read.
pub open spec fn autostart_calls<A: AutostartControl, T: TrayState>(
    autostart: &A,
    tray: &T,
    mirrored: bool,
    read: WindowOperationResult<bool>,
    queried: WindowOperationResult<bool>,
    restored: WindowOperationResult,
) -> bool {
    &&& checkbox_reading(tray, AUTOSTART_MENU_ID)(read)
    &&& match read {
        Err(_) => checkbox(tray, AUTOSTART_MENU_ID)(mirrored, restored),
        Ok(_) => call_ensures(A::is_enabled, (autostart,), queried) && (queried is Err ==> checkbox(
            tray,
            AUTOSTART_MENU_ID,
        )(mirrored, restored)),
    }
}

pub open spec fn autostart_traced<A: AutostartControl, T: TrayState>(
    autostart: &A,
    tray: &T,
    before: WindowPreferences,
    after: WindowPreferences,
    result: WindowOperationResult<WindowPreferences>,
) -> bool {
    exists|read: WindowOperationResult<bool>, queried: WindowOperationResult<bool>, restored: WindowOperationResult|
        #[trigger] autostart_calls(autostart, tray, before.autostart, read, queried, restored) && match read {
            Err(error) => after == before && compensated(
                result,
                error@,
                seq![("restore autostart checkbox"@, restored)],
            ),
            Ok(requested) => match queried {
                Err(error) => after == before && compensated(
                    result,
                    error@,
                    seq![("restore autostart checkbox"@, restored)],
                ),
                Ok(previous) => toggle_traced(
                    autostart_switch(autostart),
                    checkbox(tray, AUTOSTART_MENU_ID),
                    "restore autostart"@,
                    "restore autostart checkbox"@,
                    previous,
                    requested,
                    before,
                    before.with_autostart(requested),
                    after,
                    result,
                ),
            },
        }
}

/// The calls that adopt the system's start at login at startup: a query,
/// then, when it succeeded and a tray exists, the checkbox is set to it.
pub open spec fn reconcile_calls<A: AutostartControl, T: TrayState>(
    autostart: &A,
    tray: Option<&T>,
    queried: WindowOperationResult<bool>,
    mirrored: WindowOperationResult,
) -> bool {
    &&& call_ensures(A::is_enabled, (autostart,), queried)
    &&& match (queried, tray) {
        (Ok(enabled), Some(tray)) => checkbox(tray, AUTOSTART_MENU_ID)(enabled, mirrored),
        _ => true,
    }
}

pub open spec fn reconcile_traced<A: AutostartControl, T: TrayState>(
    autostart: &A,
    tray: Option<&T>,
    before: WindowPreferences,
    after: WindowPreferences,
    result: WindowOperationResult<WindowPreferences>,
) -> bool {
    exists|queried: WindowOperationResult<bool>, mirrored: WindowOperationResult|
        #[trigger] reconcile_calls(autostart, tray, queried, mirrored) && match queried {
            Err(error) => after == before && result == Err::<WindowPreferences, WindowOperationError>(error),
            Ok(enabled) => match (tray, mirrored) {
                (Some(_), Err(error)) => after == before && result == Err::<
                    WindowPreferences,
                    WindowOperationError,
                >(error),
                _ => after == before.with_autostart(enabled) && result == Ok::<
                    WindowPreferences,
                    WindowOperationError,
                >(after),
            },
        }
}

/// The message of a failed restore without a tray.
pub open spec fn unready_tray_message() -> Seq<char> {
    "cannot restore lock before the tray is ready"@
}

/// Restoring the lock without a tray: the window is unlocked; if that
/// succeeds the lock is cleared and the unready tray is reported, else the
/// lock is kept and the failure is fatal.
pub open spec fn unready_restore_traced<W: NativeWindow>(
    window: &W,
    before: WindowPreferences,
    after: WindowPreferences,
    result: WindowOperationResult<WindowPreferences>,
) -> bool {
    exists|unlocked: WindowOperationResult|
        #[trigger] cursor_passthrough(window)(false, unlocked) && match unlocked {
            Ok(()) => after == before.with_locked(false) && match result {
                Err(error) => error@ == (WindowErrorView {
                    message: unready_tray_message(),
                    requires_shutdown: false,
                }),
                Ok(_) => false,
            },
            Err(failure) => after == before && match result {
                Err(error) => error@ == (WindowErrorView {
                    message: unready_tray_message() + "; unlock failed: "@ + failure@.message,
                    requires_shutdown: true,
                }),
                Ok(_) => false,
            },
        }
}

/// The calls that restore a saved lock with a tray. An unlocked window is
/// unlocked natively and its checkbox cleared, stopping at the first
/// failure. A locked window gets its checkbox set, then cursor passthrough;
/// if either fails, both are cleared again.
pub open spec fn restore_calls<W: NativeWindow, T: TrayState>(
    window: &W,
    tray: &T,
    saved_locked: bool,
    first: WindowOperationResult,
    second: WindowOperationResult,
    passthrough_cleared: WindowOperationResult,
    checkbox_cleared: WindowOperationResult,
) -> bool {
    if !saved_locked {
        cursor_passthrough(window)(false, first) && (first is Ok ==> checkbox(tray, LOCKED_MENU_ID)(false, second))
    } else {
        &&& checkbox(tray, LOCKED_MENU_ID)(true, first)
        &&& first is Ok ==> cursor_passthrough(window)(true, second)
        &&& (first is Err || second is Err) ==> cursor_passthrough(window)(false, passthrough_cleared) && checkbox(
            tray,
            LOCKED_MENU_ID,
        )(false, checkbox_cleared)
    }
}

/// What restoring a saved lock with a tray leads to. An unlocked window
/// reports the first failure as it came, else the unchanged preferences. A
/// locked window whose checkbox or passthrough failed reports that error
/// with the failures of the clearing steps: if both clearing steps
/// succeeded the lock is cleared, else it is kept and the error is fatal.
pub open spec fn restore_outcome(
    saved_locked: bool,
    first: WindowOperationResult,
    second: WindowOperationResult,
    passthrough_cleared: WindowOperationResult,
    checkbox_cleared: WindowOperationResult,
    before: WindowPreferences,
    after: WindowPreferences,
    result: WindowOperationResult<WindowPreferences>,
) -> bool {
    let clearing = seq![
        ("disable cursor passthrough"@, passthrough_cleared),
        ("clear lock checkbox"@, checkbox_cleared),
    ];
    if !saved_locked {
        after == before && match first {
            Err(error) => result == Err::<WindowPreferences, WindowOperationError>(error),
            Ok(()) => match second {
                Err(error) => result == Err::<WindowPreferences, WindowOperationError>(error),
                Ok(()) => result == Ok::<WindowPreferences, WindowOperationError>(before),
            },
        }
    } else {
        let failed = match first {
            Err(error) => Some(error),
            Ok(()) => match second {
                Err(error) => Some(error),
                Ok(()) => None,
            },
        };
        match failed {
            None => after == before && result == Ok::<WindowPreferences, WindowOperationError>(before),
            Some(error) => {
                &&& compensated(result, error@, clearing)
                &&& after == if failed_steps(clearing).len() == 0 {
                    before.with_locked(false)
                } else {
                    before
                }
            },
        }
    }
}

pub open spec fn restore_traced<W: NativeWindow, T: TrayState>(
    window: &W,
    tray: &T,
    before: WindowPreferences,
    after: WindowPreferences,
    result: WindowOperationResult<WindowPreferences>,
) -> bool {
    exists|
        first: WindowOperationResult,
        second: WindowOperationResult,
        passthrough_cleared: WindowOperationResult,
        checkbox_cleared: WindowOperationResult,
    |
        #[trigger] restore_calls(
            window,
            tray,
            before.locked,
            first,
            second,
            passthrough_cleared,
            checkbox_cleared,
        ) && restore_outcome(
            before.locked,
            first,
            second,
            passthrough_cleared,
            checkbox_cleared,
            before,
            after,
            result,
        )
}

/// The failed steps of one step.
pub open spec fn failed_step(step: (Seq<char>, WindowOperationResult)) -> Seq<(Seq<char>, WindowErrorView)> {
    match step.1 {
        Ok(()) => Seq::empty(),
        Err(error) => seq![(step.0, error@)],
    }
}

proof fn lemma_failed_steps(first: (Seq<char>, WindowOperationResult), second: (Seq<char>, WindowOperationResult))
    ensures
        failed_steps(seq![first]) == failed_step(first),
        failed_steps(seq![first, second]) == failed_step(first) + failed_step(second),
{
    let one = seq![first];
    let two = seq![first, second];
    let none = Seq::<(Seq<char>, WindowOperationResult)>::empty();
    assert(failed_steps(none) == Seq::<(Seq<char>, WindowErrorView)>::empty());
    assert(one.drop_last() =~= none);
    assert(one.last() == first);
    assert(failed_steps(one) =~= failed_step(first));
    assert(two.last() == second);
    assert(two.drop_last() =~= one);
    assert(failed_steps(two) =~= failed_step(first) + failed_step(second));
}

fn push_failure(
    failures: &mut Vec<(&'static str, WindowOperationError)>,
    operation: &'static str,
    step: WindowOperationResult,
)
    ensures
        final(failures)@ == match step {
            Ok(()) => old(failures)@,
            Err(error) => old(failures)@.push((operation, error)),
        },
        failure_views(final(failures)@) == match step {
            Ok(()) => failure_views(old(failures)@),
            Err(error) => failure_views(old(failures)@).push((operation@, error@)),
        },
{
    if let Err(error) = step {
        proof {
            let pushed = old(failures)@.push((operation, error));
            assert(failure_views(pushed) =~= failure_views(old(failures)@).push((operation@, error@)));
        }
        failures.push((operation, error));
    }
}

/// The error of a step that failed with `primary`, after the compensation
/// steps `first` (named `first_name`) and, if given, `second`.
fn compensate(
    primary: WindowOperationError,
    first_name: &'static str,
    first: WindowOperationResult,
    second: Option<(&'static str, WindowOperationResult)>,
) -> (error: WindowOperationError)
    ensures
        match second {
            None => error@ == compensated_error(primary@, failed_steps(seq![(first_name@, first)])),
            Some((second_name, second)) => error@ == compensated_error(
                primary@,
                failed_steps(seq![(first_name@, first), (second_name@, second)]),
            ),
        },
{
    let ghost first_step = first;
    let mut failures = Vec::new();
    assert(failure_views(failures@) =~= Seq::<(Seq<char>, WindowErrorView)>::empty());
    push_failure(&mut failures, first_name, first);
    proof {
        lemma_failed_steps((first_name@, first_step), (first_name@, first_step));
        assert(failure_views(failures@) =~= failed_step((first_name@, first_step)));
    }
    match second {
        None => WindowOperationError::after_compensation(primary, failures),
        Some((second_name, second)) => {
            let ghost second_step = second;
            let ghost before = failure_views(failures@);
            push_failure(&mut failures, second_name, second);
            proof {
                lemma_failed_steps((first_name@, first_step), (second_name@, second_step));
                assert(failure_views(failures@) =~= failed_step((first_name@, first_step)) + failed_step(
                    (second_name@, second_step),
                ));
            }
            WindowOperationError::after_compensation(primary, failures)
        },
    }
}

impl WindowStateController {
    pub fn new(preferences: WindowPreferences) -> (controller: Self)
        ensures
            controller@ == preferences,
    {
        WindowStateController { preferences }
    }

    pub fn preferences(&self) -> (preferences: WindowPreferences)
        ensures
            preferences == self@,
    {
        self.preferences
    }

    /// Locks or unlocks the window: cursor passthrough first, then the tray
    /// checkbox; on failure both are restored to the previous lock.
    pub fn set_locked<W: NativeWindow, T: TrayState>(&mut self, window: &W, tray: &T, locked: bool) -> (result:
        WindowOperationResult<WindowPreferences>)
        ensures
            toggle_traced(
                cursor_passthrough(window),
                checkbox(tray, LOCKED_MENU_ID),
                "restore cursor passthrough"@,
                "restore lock checkbox"@,
                old(self)@.locked,
                locked,
                old(self)@,
                old(self)@.with_locked(locked),
                final(self)@,
                result,
            ),
    {
        let previous = self.preferences.locked;
        let applied = window.set_ignore_cursor_events(locked);
        let ghost applied_step = applied;
        if let Err(error) = applied {
            let restored = tray.set_checked(LOCKED_MENU_ID, previous);
            let ghost restored_step = restored;
            let error = compensate(error, "restore lock checkbox", restored, None);
            assert(toggle_calls(
                cursor_passthrough(window),
                checkbox(tray, LOCKED_MENU_ID),
                previous,
                locked,
                applied_step,
                Ok(()),
                Ok(()),
                restored_step,
            ));
            return Err(error);
        }
        let mirrored = tray.set_checked(LOCKED_MENU_ID, locked);
        let ghost mirrored_step = mirrored;
        if let Err(error) = mirrored {
            let native_restored = window.set_ignore_cursor_events(previous);
            let ghost native_step = native_restored;
            let mirror_restored = tray.set_checked(LOCKED_MENU_ID, previous);
            let ghost mirror_step = mirror_restored;
            let error = compensate(
                error,
                "restore cursor passthrough",
                native_restored,
                Some(("restore lock checkbox", mirror_restored)),
            );
            assert(toggle_calls(
                cursor_passthrough(window),
                checkbox(tray, LOCKED_MENU_ID),
                previous,
                locked,
                applied_step,
                mirrored_step,
                native_step,
                mirror_step,
            ));
            return Err(error);
        }
        self.preferences = WindowPreferences { locked, ..self.preferences };
        assert(toggle_calls(
            cursor_passthrough(window),
            checkbox(tray, LOCKED_MENU_ID),
            previous,
            locked,
            applied_step,
            mirrored_step,
            Ok(()),
            Ok(()),
        ));
        Ok(self.preferences)
    }

    /// Applies the lock that the tray checkbox now shows; if the checkbox
    /// cannot be read, it is reset to the current lock and nothing else happens.
    pub fn set_locked_from_tray<W: NativeWindow, T: TrayState>(&mut self, window: &W, tray: &T) -> (result:
        WindowOperationResult<WindowPreferences>)
        ensures
            read_toggle_traced(
                checkbox_reading(tray, LOCKED_MENU_ID),
                cursor_passthrough(window),
                checkbox(tray, LOCKED_MENU_ID),
                "restore cursor passthrough"@,
                "restore lock checkbox"@,
                old(self)@.locked,
                old(self)@,
                |locked: bool| old(self)@.with_locked(locked),
                final(self)@,
                result,
            ),
    {
        let read = tray.is_checked(LOCKED_MENU_ID);
        let ghost read_step = read;
        match read {
            Ok(locked) => {
                let result = self.set_locked(window, tray, locked);
                assert(read_calls(
                    checkbox_reading(tray, LOCKED_MENU_ID),
                    checkbox(tray, LOCKED_MENU_ID),
                    old(self)@.locked,
                    read_step,
                    Ok(()),
                ));
                result
            },
            Err(error) => {
                let restored = tray.set_checked(LOCKED_MENU_ID, self.preferences.locked);
                let ghost restored_step = restored;
                let error = compensate(error, "restore lock checkbox", restored, None);
                assert(read_calls(
                    checkbox_reading(tray, LOCKED_MENU_ID),
                    checkbox(tray, LOCKED_MENU_ID),
                    old(self)@.locked,
                    read_step,
                    restored_step,
                ));
                Err(error)
            },
        }
    }

    /// Re-applies the saved lock at startup. Without a tray the lock cannot
    /// be undone by the user, so the window is unlocked instead; with a tray a
    /// saved lock is applied to the checkbox and then to the window, and on
    /// failure the window is left unlocked, or, if even that fails, the lock
    /// is kept and the error demands a shutdown.
    pub fn restore_locked<W: NativeWindow, T: TrayState>(
        &mut self,
        window: &W,
        tray: Option<&T>,
    ) -> (result: WindowOperationResult<WindowPreferences>)
        ensures
            match tray {
                None => unready_restore_traced(window, old(self)@, final(self)@, result),
                Some(tray) => restore_traced(window, tray, old(self)@, final(self)@, result),
            },
    {
        let saved_locked = self.preferences.locked;
        let tray = match tray {
            Some(tray) => tray,
            None => {
                let unlocked = window.set_ignore_cursor_events(false);
                let ghost unlocked_step = unlocked;
                assert(cursor_passthrough(window)(false, unlocked_step));
                if let Err(error) = unlocked {
                    let mut message = String::from_str("cannot restore lock before the tray is ready; unlock failed: ");
                    message.append(error.message.as_str());
                    proof {
                        reveal_strlit("cannot restore lock before the tray is ready; unlock failed: ");
                        reveal_strlit("cannot restore lock before the tray is ready");
                        reveal_strlit("; unlock failed: ");
                        assert(message@ =~= unready_tray_message() + "; unlock failed: "@ + error@.message);
                    }
                    return Err(WindowOperationError { message, requires_shutdown: true });
                }
                self.preferences = WindowPreferences { locked: false, ..self.preferences };
                return Err(WindowOperationError::new("cannot restore lock before the tray is ready"));
            },
        };
        if !saved_locked {
            let first = window.set_ignore_cursor_events(false);
            let ghost first_step = first;
            if let Err(error) = first {
                assert(restore_calls(window, tray, saved_locked, first_step, Ok(()), Ok(()), Ok(())));
                return Err(error);
            }
            let second = tray.set_checked(LOCKED_MENU_ID, false);
            let ghost second_step = second;
            assert(restore_calls(window, tray, saved_locked, first_step, second_step, Ok(()), Ok(())));
            if let Err(error) = second {
                return Err(error);
            }
            return Ok(self.preferences);
        }
        let first = tray.set_checked(LOCKED_MENU_ID, true);
        let ghost first_step = first;
        let ghost mut second_step: WindowOperationResult = Ok(());
        let applied = match first {
            Ok(()) => {
                let second = window.set_ignore_cursor_events(true);
                proof {
                    second_step = second;
                }
                second
            },
            Err(error) => Err(error),
        };
        if let Err(error) = applied {
            let passthrough_cleared = window.set_ignore_cursor_events(false);
            let ghost passthrough_step = passthrough_cleared;
            let checkbox_cleared = tray.set_checked(LOCKED_MENU_ID, false);
            let ghost checkbox_step = checkbox_cleared;
            let passthrough_ok = passthrough_cleared.is_ok();
            let checkbox_ok = checkbox_cleared.is_ok();
            let error = compensate(
                error,
                "disable cursor passthrough",
                passthrough_cleared,
                Some(("clear lock checkbox", checkbox_cleared)),
            );
            proof {
                lemma_failed_steps(
                    ("disable cursor passthrough"@, passthrough_step),
                    ("clear lock checkbox"@, checkbox_step),
                );
            }
            if passthrough_ok && checkbox_ok {
                self.preferences = WindowPreferences { locked: false, ..self.preferences };
            }
            assert(restore_calls(
                window,
                tray,
                saved_locked,
                first_step,
                second_step,
                passthrough_step,
                checkbox_step,
            ));
            return Err(error);
        }
        assert(restore_calls(window, tray, saved_locked, first_step, second_step, Ok(()), Ok(())));
        Ok(self.preferences)
    }

    /// Unlocks the window when the tray is unavailable.
    pub fn force_unlocked<W: NativeWindow>(&mut self, window: &W) -> (result: WindowOperationResult<
        WindowPreferences,
    >)
        ensures
            single_call_traced(
                cursor_passthrough(window),
                false,
                old(self)@,
                old(self)@.with_locked(false),
                final(self)@,
                result,
            ),
    {
        let outcome = window.set_ignore_cursor_events(false);
        let ghost step = outcome;
        assert(cursor_passthrough(window)(false, step));
        if let Err(error) = outcome {
            return Err(error);
        }
        self.preferences = WindowPreferences { locked: false, ..self.preferences };
        Ok(self.preferences)
    }

    /// Sets "always on top": the native window first, then the tray
    /// checkbox; on failure both are restored.
    pub fn set_always_on_top<W: NativeWindow, T: TrayState>(&mut self, window: &W, tray: &T, always_on_top: bool) -> (result:
        WindowOperationResult<WindowPreferences>)
        ensures
            toggle_traced(
                topmost(window),
                checkbox(tray, TOPMOST_MENU_ID),
                "restore native topmost"@,
                "restore topmost checkbox"@,
                old(self)@.always_on_top,
                always_on_top,
                old(self)@,
                old(self)@.with_always_on_top(always_on_top),
                final(self)@,
                result,
            ),
    {
        let previous = self.preferences.always_on_top;
        let applied = window.set_always_on_top(always_on_top);
        let ghost applied_step = applied;
        if let Err(error) = applied {
            let restored = tray.set_checked(TOPMOST_MENU_ID, previous);
            let ghost restored_step = restored;
            let error = compensate(error, "restore topmost checkbox", restored, None);
            assert(toggle_calls(
                topmost(window),
                checkbox(tray, TOPMOST_MENU_ID),
                previous,
                always_on_top,
                applied_step,
                Ok(()),
                Ok(()),
                restored_step,
            ));
            return Err(error);
        }
        let mirrored = tray.set_checked(TOPMOST_MENU_ID, always_on_top);
        let ghost mirrored_step = mirrored;
        if let Err(error) = mirrored {
            let native_restored = window.set_always_on_top(previous);
            let ghost native_step = native_restored;
            let mirror_restored = tray.set_checked(TOPMOST_MENU_ID, previous);
            let ghost mirror_step = mirror_restored;
            let error = compensate(
                error,
                "restore native topmost",
                native_restored,
                Some(("restore topmost checkbox", mirror_restored)),
            );
            assert(toggle_calls(
                topmost(window),
                checkbox(tray, TOPMOST_MENU_ID),
                previous,
                always_on_top,
                applied_step,
                mirrored_step,
                native_step,
                mirror_step,
            ));
            return Err(error);
        }
        self.preferences = WindowPreferences { always_on_top, ..self.preferences };
        assert(toggle_calls(
            topmost(window),
            checkbox(tray, TOPMOST_MENU_ID),
            previous,
            always_on_top,
            applied_step,
            mirrored_step,
            Ok(()),
            Ok(()),
        ));
        Ok(self.preferences)
    }

    /// Applies the "always on top" state that the tray checkbox now shows.
    pub fn set_always_on_top_from_tray<W: NativeWindow, T: TrayState>(&mut self, window: &W, tray: &T) -> (result:
        WindowOperationResult<WindowPreferences>)
        ensures
            read_toggle_traced(
                checkbox_reading(tray, TOPMOST_MENU_ID),
                topmost(window),
                checkbox(tray, TOPMOST_MENU_ID),
                "restore native topmost"@,
                "restore topmost checkbox"@,
                old(self)@.always_on_top,
                old(self)@,
                |always_on_top: bool| old(self)@.with_always_on_top(always_on_top),
                final(self)@,
                result,
            ),
    {
        let read = tray.is_checked(TOPMOST_MENU_ID);
        let ghost read_step = read;
        match read {
            Ok(always_on_top) => {
                let result = self.set_always_on_top(window, tray, always_on_top);
                assert(read_calls(
                    checkbox_reading(tray, TOPMOST_MENU_ID),
                    checkbox(tray, TOPMOST_MENU_ID),
                    old(self)@.always_on_top,
                    read_step,
                    Ok(()),
                ));
                result
            },
            Err(error) => {
                let restored = tray.set_checked(TOPMOST_MENU_ID, self.preferences.always_on_top);
                let ghost restored_step = restored;
                let error = compensate(error, "restore topmost checkbox", restored, None);
                assert(read_calls(
                    checkbox_reading(tray, TOPMOST_MENU_ID),
                    checkbox(tray, TOPMOST_MENU_ID),
                    old(self)@.always_on_top,
                    read_step,
                    restored_step,
                ));
                Err(error)
            },
        }
    }

    /// Applies the start at login that the tray checkbox now shows: the
    /// system's actual state is read, changed, and then mirrored by the
    /// checkbox; only when all of this succeeded does the preference change.
    /// On failure the system and the checkbox are restored to the state read.
    pub fn set_autostart_from_tray<A: AutostartControl, T: TrayState>(&mut self, autostart: &A, tray: &T) -> (result:
        WindowOperationResult<WindowPreferences>)
        ensures
            autostart_traced(autostart, tray, old(self)@, final(self)@, result),
    {
        let mirrored = self.preferences.autostart;
        let read = tray.is_checked(AUTOSTART_MENU_ID);
        let ghost read_step = read;
        let requested = match read {
            Ok(requested) => requested,
            Err(error) => {
                let restored = tray.set_checked(AUTOSTART_MENU_ID, mirrored);
                let ghost restored_step = restored;
                let error = compensate(error, "restore autostart checkbox", restored, None);
                assert(autostart_calls(autostart, tray, mirrored, read_step, Ok(false), restored_step));
                return Err(error);
            },
        };
        let queried = autostart.is_enabled();
        let ghost queried_step = queried;
        let previous = match queried {
            Ok(previous) => previous,
            Err(error) => {
                let restored = tray.set_checked(AUTOSTART_MENU_ID, mirrored);
                let ghost restored_step = restored;
                let error = compensate(error, "restore autostart checkbox", restored, None);
                assert(autostart_calls(autostart, tray, mirrored, read_step, queried_step, restored_step));
                return Err(error);
            },
        };
        assert(autostart_calls(autostart, tray, mirrored, read_step, queried_step, Ok(())));
        let applied = set_autostart_enabled(autostart, requested);
        let ghost applied_step = applied;
        if let Err(error) = applied {
            let restored = tray.set_checked(AUTOSTART_MENU_ID, previous);
            let ghost restored_step = restored;
            let error = compensate(error, "restore autostart checkbox", restored, None);
            assert(toggle_calls(
                autostart_switch(autostart),
                checkbox(tray, AUTOSTART_MENU_ID),
                previous,
                requested,
                applied_step,
                Ok(()),
                Ok(()),
                restored_step,
            ));
            return Err(error);
        }
        let checked = tray.set_checked(AUTOSTART_MENU_ID, requested);
        let ghost checked_step = checked;
        if let Err(error) = checked {
            let native_restored = set_autostart_enabled(autostart, previous);
            let ghost native_step = native_restored;
            let mirror_restored = tray.set_checked(AUTOSTART_MENU_ID, previous);
            let ghost mirror_step = mirror_restored;
            let error = compensate(
                error,
                "restore autostart",
                native_restored,
                Some(("restore autostart checkbox", mirror_restored)),
            );
            assert(toggle_calls(
                autostart_switch(autostart),
                checkbox(tray, AUTOSTART_MENU_ID),
                previous,
                requested,
                applied_step,
                checked_step,
                native_step,
                mirror_step,
            ));
            return Err(error);
        }
        self.preferences = WindowPreferences { autostart: requested, ..self.preferences };
        assert(toggle_calls(
            autostart_switch(autostart),
            checkbox(tray, AUTOSTART_MENU_ID),
            previous,
            requested,
            applied_step,
            checked_step,
            Ok(()),
            Ok(()),
        ));
        Ok(self.preferences)
    }

    /// At startup, adopts the system's actual start at login: the checkbox
    /// mirrors it first, when the tray exists, and only then the preference;
    /// the system state itself is never changed here.
    pub fn reconcile_autostart<A: AutostartControl, T: TrayState>(
        &mut self,
        autostart: &A,
        tray: Option<&T>,
    ) -> (result: WindowOperationResult<WindowPreferences>)
        ensures
            reconcile_traced(autostart, tray, old(self)@, final(self)@, result),
    {
        let queried = autostart.is_enabled();
        let ghost queried_step = queried;
        let enabled = match queried {
            Ok(enabled) => enabled,
            Err(error) => {
                assert(reconcile_calls(autostart, tray, queried_step, Ok(())));
                return Err(error);
            },
        };
        if let Some(tray) = tray {
            let mirrored = tray.set_checked(AUTOSTART_MENU_ID, enabled);
            let ghost mirrored_step = mirrored;
            assert(reconcile_calls(autostart, Some(tray), queried_step, mirrored_step));
            if let Err(error) = mirrored {
                return Err(error);
            }
        } else {
            assert(reconcile_calls(autostart, tray, queried_step, Ok(())));
        }
        self.preferences = WindowPreferences { autostart: enabled, ..self.preferences };
        Ok(self.preferences)
    }

    /// Shows the window without taking focus, or hides it.
    pub fn set_visible<W: NativeWindow>(&mut self, window: &W, visible: bool) -> (result:
        WindowOperationResult<WindowPreferences>)
        ensures
            single_call_traced(
                visibility(window),
                visible,
                old(self)@,
                old(self)@.with_visible(visible),
                final(self)@,
                result,
            ),
    {
        let outcome = if visible {
            window.show_without_activation()
        } else {
            window.hide_window()
        };
        let ghost step = outcome;
        assert(visibility(window)(visible, step));
        if let Err(error) = outcome {
            return Err(error);
        }
        self.preferences = WindowPreferences { visible, ..self.preferences };
        Ok(self.preferences)
    }

    /// A close request keeps the application running: it prevents the
    /// close, then hides the window.
    pub fn close_requested<W: NativeWindow, F: FnOnce()>(&mut self, window: &W, prevent_close: F) -> (result:
        WindowOperationResult<WindowPreferences>)
        requires
            prevent_close.requires(()),
        ensures
            prevent_close.ensures((), ()),
            single_call_traced(
                visibility(window),
                false,
                old(self)@,
                old(self)@.with_visible(false),
                final(self)@,
                result,
            ),
    {
        prevent_close();
        let outcome = window.hide_window();
        let ghost step = outcome;
        assert(visibility(window)(false, step));
        if let Err(error) = outcome {
            return Err(error);
        }
        self.preferences = WindowPreferences { visible: false, ..self.preferences };
        Ok(self.preferences)
    }
}

/// The monitor queried, or none when the query failed or found none.
pub open spec fn found<M, E>(query: Result<Option<M>, E>) -> Option<M> {
    match query {
        Ok(Some(monitor)) => Some(monitor),
        _ => None,
    }
}

/// The first of the listed monitors, or none when the list is empty or
/// could not be read.
pub open spec fn first_listed<M, E>(available: Result<Vec<M>, E>) -> Option<M> {
    match available {
        Ok(monitors) => if monitors@.len() > 0 {
            Some(monitors@[0])
        } else {
            None
        },
        Err(_) => None,
    }
}

fn take_found<M, E>(query: Result<Option<M>, E>) -> (monitor: Option<M>)
    ensures
        monitor == found(query),
{
    match query {
        Ok(Some(monitor)) => Some(monitor),
        _ => None,
    }
}

fn take_first<M, E>(available: Result<Vec<M>, E>) -> (monitor: Option<M>)
    ensures
        monitor == first_listed(available),
{
    match available {
        Ok(mut monitors) => {
            if monitors.len() > 0 {
                Some(monitors.remove(0))
            } else {
                None
            }
        },
        Err(_) => None,
    }
}

/// The monitor that a moved window is on, from the answers of the native
/// monitor queries: the window's current monitor, else the primary monitor,
/// else the first available one. A failed query counts as no answer.
pub fn resolve_monitor<M, E>(
    current: Result<Option<M>, E>,
    primary: Result<Option<M>, E>,
    available: Result<Vec<M>, E>,
) -> (monitor: Option<M>)
    ensures
        monitor == (if found(current).is_some() {
            found(current)
        } else if found(primary).is_some() {
            found(primary)
        } else {
            first_listed(available)
        }),
{
    if let Some(monitor) = take_found(current) {
        return Some(monitor);
    }
    if let Some(monitor) = take_found(primary) {
        return Some(monitor);
    }
    take_first(available)
}

/// The monitor to start on when no saved monitor applies: the primary
/// monitor (not the window's current one), else the first available one.
pub fn resolve_startup_monitor<M, E>(primary: Result<Option<M>, E>, available: Result<Vec<M>, E>) -> (monitor: Option<M>)
    ensures
        monitor == (if found(primary).is_some() {
            found(primary)
        } else {
            first_listed(available)
        }),
{
    if let Some(monitor) = take_found(primary) {
        return Some(monitor);
    }
    take_first(available)
}

/// The text of an optional string slice.
pub open spec fn str_text(value: Option<&str>) -> Option<Seq<char>> {
    match value {
        Some(text) => Some(text@),
        None => None,
    }
}

/// The first listed monitor whose name is `wanted`.
pub open spec fn first_named<M>(monitors: Seq<(Option<String>, M)>, wanted: Seq<char>) -> Option<M>
    decreases monitors.len(),
{
    if monitors.len() == 0 {
        None
    } else if text_of(monitors[0].0) == Some(wanted) {
        Some(monitors[0].1)
    } else {
        first_named(monitors.drop_first(), wanted)
    }
}

/// The saved monitor among the listed ones: the first whose name is the
/// saved key; if there is none, the first whose name is the saved name. An
/// absent key or name matches nothing.
pub open spec fn saved_monitor<M>(
    monitors: Seq<(Option<String>, M)>,
    saved_key: Option<Seq<char>>,
    saved_name: Option<Seq<char>>,
) -> Option<M> {
    let by_key = match saved_key {
        Some(key) => first_named(monitors, key),
        None => None,
    };
    if by_key.is_some() {
        by_key
    } else {
        match saved_name {
            Some(name) => first_named(monitors, name),
            None => None,
        }
    }
}

/// The monitor to start on, given the saved monitor key and name: the saved
/// monitor when it is listed (looked up by key, then by name); otherwise the
/// monitor chosen by [`resolve_startup_monitor`]. Each listed monitor comes
/// with its name.
pub open spec fn startup_monitor_for<M, E>(
    primary: Result<Option<M>, E>,
    available: Result<Vec<(Option<String>, M)>, E>,
    saved_key: Option<Seq<char>>,
    saved_name: Option<Seq<char>>,
) -> Option<M> {
    let saved = match available {
        Ok(monitors) => saved_monitor(monitors@, saved_key, saved_name),
        Err(_) => None,
    };
    if saved.is_some() {
        saved
    } else if found(primary).is_some() {
        found(primary)
    } else {
        match available {
            Ok(monitors) => if monitors@.len() > 0 {
                Some(monitors@[0].1)
            } else {
                None
            },
            Err(_) => None,
        }
    }
}

fn names(name: &Option<String>, wanted: &str) -> (same: bool)
    ensures
        same == (text_of(*name) == Some(wanted@)),
{
    match name {
        Some(name) => same_text(name.as_str(), wanted),
        None => false,
    }
}

fn named_position<M>(monitors: &Vec<(Option<String>, M)>, wanted: &str) -> (position: Option<usize>)
    ensures
        match position {
            Some(i) => i < monitors@.len() && first_named(monitors@, wanted@) == Some(monitors@[i as int].1),
            None => first_named(monitors@, wanted@).is_none(),
        },
{
    assert(monitors@.skip(0) =~= monitors@);
    let mut i: usize = 0;
    while i < monitors.len()
        invariant
            i <= monitors@.len(),
            first_named(monitors@, wanted@) == first_named(monitors@.skip(i as int), wanted@),
        decreases monitors@.len() - i,
    {
        let ghost rest = monitors@.skip(i as int);
        assert(rest[0] == monitors@[i as int]);
        assert(rest.drop_first() =~= monitors@.skip(i + 1));
        if names(&monitors[i].0, wanted) {
            return Some(i);
        }
        i = i + 1;
    }
    assert(monitors@.skip(i as int).len() == 0);
    None
}

fn saved_position<M>(monitors: &Vec<(Option<String>, M)>, saved_key: Option<&str>, saved_name: Option<&str>) -> (position: Option<usize>)
    ensures
        match position {
            Some(i) => i < monitors@.len() && saved_monitor(monitors@, str_text(saved_key), str_text(saved_name))
                == Some(monitors@[i as int].1),
            None => saved_monitor(monitors@, str_text(saved_key), str_text(saved_name)).is_none(),
        },
{
    if let Some(key) = saved_key {
        if let Some(i) = named_position(monitors, key) {
            return Some(i);
        }
    }
    match saved_name {
        Some(name) => named_position(monitors, name),
        None => None,
    }
}

/// Chooses the monitor to start on (see [`startup_monitor_for`]).
pub fn resolve_startup_monitor_for<M, E>(
    primary: Result<Option<M>, E>,
    available: Result<Vec<(Option<String>, M)>, E>,
    saved_key: Option<&str>,
    saved_name: Option<&str>,
) -> (monitor: Option<M>)
    ensures
        monitor == startup_monitor_for(primary, available, str_text(saved_key), str_text(saved_name)),
{
    match available {
        Ok(mut monitors) => {
            if let Some(i) = saved_position(&monitors, saved_key, saved_name) {
                let (_, monitor) = monitors.remove(i);
                return Some(monitor);
            }
            if let Some(monitor) = take_found(primary) {
                return Some(monitor);
            }
            if monitors.len() > 0 {
                let (_, monitor) = monitors.remove(0);
                Some(monitor)
            } else {
                None
            }
        },
        Err(_) => take_found(primary),
    }
}

/// Whether the window shows only the pet or also its details.
#[derive(Clone, Copy, Debug, PartialEq, Eq, Structural)]
pub enum WindowMode {
    Collapsed,
    Expanded,
}

/// Where the application is in its life.
#[derive(Clone, Copy, Debug, PartialEq, Eq, Structural)]
pub enum Lifecycle {
    Running,
    ShuttingDown,
    Stopped,
}

/// What a window move leads to.
#[derive(Clone, Copy, Debug, PartialEq, Eq, Structural)]
pub enum MoveAction {
    Ignore,
    ConsumedProgrammaticMove,
    SchedulePersist,
}

/// What a [`MoveTracker`] holds.
pub struct MoveTrackerView<R> {
    pub collapsed: R,
    pub expected_programmatic_move: Option<R>,
}

/// Tells the moves that the user made from the one move that the
/// application itself announced.
pub struct MoveTracker<R> {
    collapsed: R,
    expected_programmatic_move: Option<R>,
}

impl<R> View for MoveTracker<R> {
    type V = MoveTrackerView<R>;

    closed spec fn view(&self) -> MoveTrackerView<R> {
        MoveTrackerView {
            collapsed: self.collapsed,
            expected_programmatic_move: self.expected_programmatic_move,
        }
    }
}

/// Whether the move to `rect` is the announced one, as far as the rectangle
/// type's equality is specified.
pub open spec fn is_announced<R: PartialEq>(expected: Option<R>, rect: R) -> bool {
    match expected {
        Some(target) => R::obeys_eq_spec() ==> target.eq_spec(&rect),
        None => false,
    }
}

/// One move of the window: it is the user's unless it is the announced move
/// or the window is expanded; a user's move replaces the collapsed
/// rectangle, and every move uses up the announcement.
pub open spec fn tracker_step<R: PartialEq>(before: MoveTrackerView<R>, rect: R, expanded: bool) -> (bool, MoveTrackerView<R>) {
    let user_move = !expanded && !is_announced(before.expected_programmatic_move, rect);
    (
        user_move,
        MoveTrackerView {
            collapsed: if user_move {
                rect
            } else {
                before.collapsed
            },
            expected_programmatic_move: None,
        },
    )
}

/// An announced move is consumed once: the move that matches the
/// announcement leaves the collapsed rectangle alone, and the next move of
/// the collapsed window is the user's, whatever it is.
pub proof fn law_announcement_is_used_once<R: PartialEq>(
    before: MoveTrackerView<R>,
    target: R,
    announced_move: R,
    next_move: R,
)
    requires
        R::obeys_eq_spec(),
        target.eq_spec(&announced_move),
    ensures
        ({
            let announced = MoveTrackerView {
                collapsed: before.collapsed,
                expected_programmatic_move: Some(target),
            };
            let (first_is_user, after_first) = tracker_step(announced, announced_move, false);
            &&& !first_is_user
            &&& after_first.collapsed == before.collapsed
            &&& tracker_step(after_first, next_move, false) == (
                true,
                MoveTrackerView { collapsed: next_move, expected_programmatic_move: None::<R> },
            )
        }),
{
}

/// The error reported after a compensation demands a shutdown exactly when a
/// compensation step failed or the operation's own error demanded one; when
/// every step succeeded it is the operation's own error, and otherwise its
/// message begins with that error's message.
pub proof fn law_failed_compensation_requires_shutdown(
    primary: WindowErrorView,
    failures: Seq<(Seq<char>, WindowErrorView)>,
)
    ensures
        compensated_error(primary, failures).requires_shutdown == (failures.len() > 0
            || primary.requires_shutdown),
        failures.len() == 0 ==> compensated_error(primary, failures) == primary,
        starts_with(compensated_error(primary, failures).message, primary.message),
{
    let message = compensated_error(primary, failures).message;
    assert(message.subrange(0, primary.message.len() as int) =~= primary.message);
}

impl<R: PartialEq> MoveTracker<R> {
    pub fn new(collapsed: R) -> (tracker: Self)
        ensures
            tracker@ == (MoveTrackerView { collapsed, expected_programmatic_move: None::<R> }),
    {
        MoveTracker { collapsed, expected_programmatic_move: None }
    }

    /// Announces that the application is about to move the window to `rect`.
    pub fn expect_programmatic_move(&mut self, rect: R)
        ensures
            final(self)@ == (MoveTrackerView {
                collapsed: old(self)@.collapsed,
                expected_programmatic_move: Some(rect),
            }),
    {
        self.expected_programmatic_move = Some(rect);
    }

    pub fn collapsed_rect(&self) -> (rect: &R)
        ensures
            *rect == self@.collapsed,
    {
        &self.collapsed
    }

    /// Records a move; every move uses up the announcement. The announced
    /// move and moves of the expanded window are not the user's and leave
    /// the collapsed rectangle alone; any other move replaces it.
    pub fn on_moved(&mut self, rect: R, expanded: bool) -> (user_move: bool)
        ensures
            final(self)@.expected_programmatic_move.is_none(),
            old(self)@.expected_programmatic_move.is_none() ==> user_move == !expanded,
            user_move ==> !expanded && final(self)@.collapsed == rect,
            !user_move ==> final(self)@.collapsed == old(self)@.collapsed,
            !user_move && !expanded ==> is_announced(old(self)@.expected_programmatic_move, rect),
            R::obeys_eq_spec() ==> (user_move == (!expanded && !is_announced(
                old(self)@.expected_programmatic_move,
                rect,
            ))),
            R::obeys_eq_spec() ==> (user_move, final(self)@) == tracker_step(old(self)@, rect, expanded),
    {
        let announced = match self.expected_programmatic_move.take() {
            Some(target) => target == rect,
            None => false,
        };
        if announced || expanded {
            return false;
        }
        self.collapsed = rect;
        true
    }
}

/// What a [`WindowStateCoordinator`] holds.
pub struct CoordinatorView<R, S> {
    pub mode: WindowMode,
    pub lifecycle: Lifecycle,
    pub tracker: MoveTrackerView<R>,
    pub collapsed: S,
}

/// Decides which window moves change the persisted collapsed window, and
/// keeps that window. `R` is the window rectangle and `S` the persisted form.
pub struct WindowStateCoordinator<R, S> {
    mode: WindowMode,
    lifecycle: Lifecycle,
    tracker: MoveTracker<R>,
    collapsed: S,
}

impl<R, S> View for WindowStateCoordinator<R, S> {
    type V = CoordinatorView<R, S>;

    closed spec fn view(&self) -> CoordinatorView<R, S> {
        CoordinatorView {
            mode: self.mode,
            lifecycle: self.lifecycle,
            tracker: self.tracker@,
            collapsed: self.collapsed,
        }
    }
}

impl<R: PartialEq, S> WindowStateCoordinator<R, S> {
    /// A running, collapsed window at `initial`, persisted as `collapsed`.
    pub fn new(initial: R, collapsed: S) -> (coordinator: Self)
        ensures
            coordinator@ == (CoordinatorView {
                mode: WindowMode::Collapsed,
                lifecycle: Lifecycle::Running,
                tracker: MoveTrackerView { collapsed: initial, expected_programmatic_move: None::<R> },
                collapsed,
            }),
    {
        WindowStateCoordinator {
            mode: WindowMode::Collapsed,
            lifecycle: Lifecycle::Running,
            tracker: MoveTracker::new(initial),
            collapsed,
        }
    }

    pub fn set_mode(&mut self, mode: WindowMode)
        ensures
            final(self)@ == (CoordinatorView { mode, ..old(self)@ }),
    {
        self.mode = mode;
    }

    pub fn expect_programmatic_move(&mut self, target: R)
        ensures
            final(self)@ == (CoordinatorView {
                tracker: MoveTrackerView {
                    collapsed: old(self)@.tracker.collapsed,
                    expected_programmatic_move: Some(target),
                },
                ..old(self)@
            }),
    {
        self.tracker.expect_programmatic_move(target);
    }

    /// Starts the shutdown; a coordinator that is already shutting down or
    /// stopped stays as it is.
    pub fn begin_shutdown(&mut self)
        ensures
            final(self)@ == (CoordinatorView {
                lifecycle: if old(self)@.lifecycle == Lifecycle::Running {
                    Lifecycle::ShuttingDown
                } else {
                    old(self)@.lifecycle
                },
                ..old(self)@
            }),
            final(self)@.lifecycle != Lifecycle::Running,
    {
        if self.lifecycle == Lifecycle::Running {
            self.lifecycle = Lifecycle::ShuttingDown;
        }
    }

    pub fn mark_stopped(&mut self)
        ensures
            final(self)@ == (CoordinatorView { lifecycle: Lifecycle::Stopped, ..old(self)@ }),
    {
        self.lifecycle = Lifecycle::Stopped;
    }

    /// The persisted collapsed window.
    pub fn collapsed(&self) -> (collapsed: &S)
        ensures
            *collapsed == self@.collapsed,
    {
        &self.collapsed
    }

    /// Handles a move of the window to `rect`, where `saved` is how that
    /// position is persisted on the window's monitor (none when the monitor
    /// is unknown). Only a user's move of the collapsed window while running
    /// on a known monitor is persisted.
    pub fn handle_moved(&mut self, rect: R, saved: Option<S>) -> (action: MoveAction)
        ensures
            old(self)@.lifecycle != Lifecycle::Running || old(self)@.mode == WindowMode::Expanded
                ==> action == MoveAction::Ignore && final(self)@ == old(self)@,
            old(self)@.lifecycle == Lifecycle::Running && old(self)@.mode == WindowMode::Collapsed
                ==> {
                &&& final(self)@.mode == old(self)@.mode
                &&& final(self)@.lifecycle == old(self)@.lifecycle
                &&& final(self)@.tracker.expected_programmatic_move.is_none()
                &&& match action {
                    MoveAction::ConsumedProgrammaticMove => is_announced(
                        old(self)@.tracker.expected_programmatic_move,
                        rect,
                    ) && final(self)@.tracker.collapsed == old(self)@.tracker.collapsed
                        && final(self)@.collapsed == old(self)@.collapsed,
                    MoveAction::Ignore => saved.is_none() && final(self)@.tracker.collapsed == rect
                        && final(self)@.collapsed == old(self)@.collapsed,
                    MoveAction::SchedulePersist => saved.is_some() && final(self)@.tracker.collapsed
                        == rect && final(self)@.collapsed == saved.unwrap(),
                }
                &&& R::obeys_eq_spec() ==> ((action == MoveAction::ConsumedProgrammaticMove)
                    == is_announced(old(self)@.tracker.expected_programmatic_move, rect))
            },
    {
        if self.lifecycle != Lifecycle::Running || self.mode == WindowMode::Expanded {
            return MoveAction::Ignore;
        }
        if !self.tracker.on_moved(rect, false) {
            return MoveAction::ConsumedProgrammaticMove;
        }
        match saved {
            Some(saved) => {
                self.collapsed = saved;
                MoveAction::SchedulePersist
            },
            None => MoveAction::Ignore,
        }
    }
}

fn failure_text(failures: &Vec<(&'static str, WindowOperationError)>) -> (text: String)
    ensures
        text@ == failure_list(failure_views(failures@)),
{
    let mut text = String::new();
    let mut i: usize = 0;
    while i < failures.len()
        invariant
            i <= failures.len(),
            text@ == failure_list(failure_views(failures@.take(i as int))),
        decreases failures.len() - i,
    {
        let ghost before = failures@.take(i as int);
        let ghost after = failures@.take(i + 1);
        assert(failure_views(after).drop_last() =~= failure_views(before));
        if i > 0 {
            text.append("; ");
        }
        text.append(failures[i].0);
        text.append(": ");
        text.append(failures[i].1.message.as_str());
        assert(failure_views(after).last() == (failures@[i as int].0@, failures@[i as int].1@));
        proof {
            if i == 0 {
                assert(failure_views(after).len() == 1);
            }
        }
        i = i + 1;
    }
    assert(failures@.take(failures@.len() as int) =~= failures@);
    text
}

} // verus!
