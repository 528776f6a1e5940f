use std::cell::{Cell, RefCell};
use std::collections::HashMap;
use std::rc::Rc;

use codex_pet::window_state::{
    resolve_monitor, resolve_startup_monitor, resolve_startup_monitor_for, AutostartControl,
    MoveAction, AUTOSTART_MENU_ID, MoveTracker, NativeWindow, TrayState, WindowMode, WindowOperationError,
    WindowOperationResult, WindowPreferences, WindowStateController, WindowStateCoordinator,
    LOCKED_MENU_ID, TOPMOST_MENU_ID,
};

#[derive(Default)]
struct FakeWindow {
    calls: Rc<RefCell<Vec<&'static str>>>,
    fail_hide: Cell<bool>,
    fail_topmost: Cell<bool>,
    fail_ignore: Cell<bool>,
    fail_ignore_on_call: Cell<usize>,
    ignore_calls: Cell<usize>,
    ignored: Cell<bool>,
    topmost: Cell<bool>,
}

impl NativeWindow for FakeWindow {
    fn show_without_activation(&self) -> WindowOperationResult {
        self.calls.borrow_mut().push("show");
        Ok(())
    }

    fn hide_window(&self) -> WindowOperationResult {
        self.calls.borrow_mut().push("hide");
        if self.fail_hide.get() {
            Err(WindowOperationError::new("hide failed"))
        } else {
            Ok(())
        }
    }

    fn set_always_on_top(&self, enabled: bool) -> WindowOperationResult {
        self.calls
            .borrow_mut()
            .push(if enabled { "topmost:true" } else { "topmost:false" });
        if self.fail_topmost.replace(false) {
            Err(WindowOperationError::new("topmost failed"))
        } else {
            self.topmost.set(enabled);
            Ok(())
        }
    }

    fn set_ignore_cursor_events(&self, enabled: bool) -> WindowOperationResult {
        let call = self.ignore_calls.get() + 1;
        self.ignore_calls.set(call);
        self.calls
            .borrow_mut()
            .push(if enabled { "ignore:true" } else { "ignore:false" });
        if self.fail_ignore.replace(false) || self.fail_ignore_on_call.get() == call {
            Err(WindowOperationError::new("ignore failed"))
        } else {
            self.ignored.set(enabled);
            Ok(())
        }
    }
}

#[derive(Default)]
struct FakeTray {
    checked: RefCell<HashMap<String, bool>>,
    fail_read: Cell<bool>,
    fail_next_write: Cell<bool>,
}

impl FakeTray {
    fn with_checked(id: &str, checked: bool) -> Self {
        let tray = Self::default();
        tray.checked.borrow_mut().insert(id.into(), checked);
        tray
    }
}

impl TrayState for FakeTray {
    fn is_checked(&self, id: &str) -> WindowOperationResult<bool> {
        if self.fail_read.get() {
            Err(WindowOperationError::new("checkbox read failed"))
        } else {
            Ok(*self.checked.borrow().get(id).unwrap_or(&false))
        }
    }

    fn set_checked(&self, id: &str, checked: bool) -> WindowOperationResult {
        if self.fail_next_write.replace(false) {
            Err(WindowOperationError::new("checkbox write failed"))
        } else {
            self.checked.borrow_mut().insert(id.into(), checked);
            Ok(())
        }
    }
}

fn default_preferences() -> WindowPreferences {
    WindowPreferences {
        locked: false,
        always_on_top: true,
        visible: true,
        autostart: false,
    }
}

type Rect = (f64, f64, f64, f64);

/// The persisted form of a collapsed window: its offset from the monitor's
/// work area in logical pixels, with the monitor's scale.
#[derive(Clone, Debug, PartialEq)]
struct Saved {
    x: f64,
    y: f64,
    scale_factor: f64,
    monitor_key: Option<String>,
}

fn saved_on(rect: Rect, work_area: Rect, scale_factor: f64, monitor_key: Option<&str>) -> Saved {
    Saved {
        x: (rect.0 - work_area.0) / scale_factor,
        y: (rect.1 - work_area.1) / scale_factor,
        scale_factor,
        monitor_key: monitor_key.map(String::from),
    }
}

fn initial_saved() -> Saved {
    Saved {
        x: 0.0,
        y: 0.0,
        scale_factor: 1.0,
        monitor_key: None,
    }
}

#[test]
fn locked_state_changes_only_after_native_success() {
    let mut controller = WindowStateController::new(default_preferences());
    let window = FakeWindow::default();
    window.fail_ignore.set(true);
    let tray = FakeTray::with_checked(LOCKED_MENU_ID, true);

    let result = controller.set_locked(&window, &tray, true);

    assert!(result.is_err());
    assert!(!controller.preferences().locked);
    assert!(!tray.is_checked(LOCKED_MENU_ID).unwrap());
    assert!(!window.ignored.get());
}

#[test]
fn tray_failure_rolls_checkbox_back() {
    let mut controller = WindowStateController::new(default_preferences());
    let window = FakeWindow::default();
    window.topmost.set(true);
    let tray = FakeTray::with_checked(TOPMOST_MENU_ID, false);
    tray.fail_next_write.set(true);

    let result = controller.set_always_on_top(&window, &tray, false);

    assert!(result.is_err());
    assert!(controller.preferences().always_on_top);
    assert!(tray.is_checked(TOPMOST_MENU_ID).unwrap());
    assert!(window.topmost.get());
}

#[test]
fn checkbox_read_failure_is_not_treated_as_a_default_value() {
    let mut controller = WindowStateController::new(default_preferences());
    let window = FakeWindow::default();
    let tray = FakeTray::with_checked(LOCKED_MENU_ID, true);
    tray.fail_read.set(true);

    let result = controller.set_locked_from_tray(&window, &tray);

    assert!(result.is_err());
    assert!(!controller.preferences().locked);
    assert!(!window.ignored.get());
    assert!(window.calls.borrow().is_empty());
}

#[test]
fn close_requested_hides_and_marks_invisible() {
    let mut controller = WindowStateController::new(default_preferences());
    let calls = Rc::new(RefCell::new(Vec::new()));
    let window = FakeWindow {
        calls: Rc::clone(&calls),
        ..FakeWindow::default()
    };

    controller
        .close_requested(&window, || calls.borrow_mut().push("prevent"))
        .unwrap();

    assert_eq!(&*calls.borrow(), &["prevent", "hide"]);
    assert!(!controller.preferences().visible);
}

#[test]
fn visible_state_changes_only_after_native_success() {
    let mut controller = WindowStateController::new(default_preferences());
    let window = FakeWindow {
        fail_hide: Cell::new(true),
        ..FakeWindow::default()
    };

    let result = controller.set_visible(&window, false);

    assert!(result.is_err());
    assert!(controller.preferences().visible);
}

#[test]
fn close_hide_failure_prevents_close_but_keeps_visible_state() {
    let mut controller = WindowStateController::new(default_preferences());
    let calls = Rc::new(RefCell::new(Vec::new()));
    let window = FakeWindow {
        calls: Rc::clone(&calls),
        fail_hide: Cell::new(true),
        ..FakeWindow::default()
    };

    let result = controller.close_requested(&window, || calls.borrow_mut().push("prevent"));

    assert!(result.is_err());
    assert_eq!(&*calls.borrow(), &["prevent", "hide"]);
    assert!(controller.preferences().visible);
}

#[test]
fn restored_lock_requires_ready_tray() {
    let mut settings = WindowPreferences {
        locked: true,
        ..default_preferences()
    };
    let mut controller = WindowStateController::new(settings);
    let window = FakeWindow::default();

    let result = controller.restore_locked::<FakeWindow, FakeTray>(&window, None);

    assert!(result.is_err());
    assert!(!controller.preferences().locked);
    assert!(!window.ignored.get());

    settings.locked = true;
    let mut controller = WindowStateController::new(settings);
    let tray = FakeTray::with_checked(LOCKED_MENU_ID, false);
    tray.fail_next_write.set(true);

    let result = controller.restore_locked(&window, Some(&tray));

    assert!(result.is_err());
    assert!(!controller.preferences().locked);
    assert!(!window.ignored.get());
}

#[test]
fn failed_native_rollback_requires_shutdown_instead_of_hiding_state_divergence() {
    let mut controller = WindowStateController::new(default_preferences());
    let window = FakeWindow::default();
    window.fail_ignore_on_call.set(2);
    let tray = FakeTray::with_checked(LOCKED_MENU_ID, true);
    tray.fail_next_write.set(true);

    let error = controller.set_locked(&window, &tray, true).unwrap_err();

    assert!(error.requires_shutdown());
    assert!(!controller.preferences().locked);
    assert!(window.ignored.get());
}

#[test]
fn restored_lock_compensation_failure_does_not_claim_unlocked() {
    let settings = WindowPreferences {
        locked: true,
        ..default_preferences()
    };
    let mut controller = WindowStateController::new(settings);
    let window = FakeWindow::default();
    window.fail_ignore.set(true);
    let tray = FakeTray::with_checked(LOCKED_MENU_ID, false);
    tray.fail_next_write.set(true);

    let error = controller.restore_locked(&window, Some(&tray)).unwrap_err();

    assert!(error.requires_shutdown());
    assert!(controller.preferences().locked);
}

#[test]
fn coordinator_schedules_only_running_collapsed_user_moves() {
    let initial: Rect = (0.0, 0.0, 164.0, 154.0);
    let work_area: Rect = (-1920.0, 40.0, 1920.0, 1040.0);
    let mut coordinator = WindowStateCoordinator::new(initial, initial_saved());

    let moved: Rect = (-1800.0, 140.0, 205.0, 193.0);
    let action =
        coordinator.handle_moved(moved, Some(saved_on(moved, work_area, 1.25, Some("primary"))));

    assert_eq!(action, MoveAction::SchedulePersist);
    assert_eq!(coordinator.collapsed().x, 96.0);
    coordinator.set_mode(WindowMode::Expanded);
    let moved: Rect = (-1700.0, 140.0, 205.0, 193.0);
    assert_eq!(
        coordinator.handle_moved(moved, Some(saved_on(moved, work_area, 1.25, Some("primary")))),
        MoveAction::Ignore
    );
    coordinator.begin_shutdown();
    let moved: Rect = (-1600.0, 140.0, 205.0, 193.0);
    assert_eq!(
        coordinator.handle_moved(moved, Some(saved_on(moved, work_area, 1.25, Some("primary")))),
        MoveAction::Ignore
    );
}

#[test]
fn coordinator_consumes_expected_programmatic_move_once_then_accepts_user_move() {
    let work_area: Rect = (0.0, 0.0, 1920.0, 1040.0);
    let mut coordinator = WindowStateCoordinator::new((0.0, 0.0, 164.0, 154.0), initial_saved());
    coordinator.expect_programmatic_move((100.0, 100.0, 164.0, 154.0));

    let moved: Rect = (100.0, 100.0, 164.0, 154.0);
    assert_eq!(
        coordinator.handle_moved(moved, Some(saved_on(moved, work_area, 1.0, None))),
        MoveAction::ConsumedProgrammaticMove
    );
    let moved: Rect = (200.0, 100.0, 164.0, 154.0);
    assert_eq!(
        coordinator.handle_moved(moved, Some(saved_on(moved, work_area, 1.0, None))),
        MoveAction::SchedulePersist
    );
}

#[test]
fn a_persisted_move_keeps_the_monitor_scale_and_relative_offset() {
    let work_area: Rect = (-1920.0, 40.0, 1920.0, 1040.0);
    let mut coordinator = WindowStateCoordinator::new((0.0, 0.0, 164.0, 154.0), initial_saved());
    let moved: Rect = (-1770.0, 160.0, 246.0, 231.0);

    assert_eq!(
        coordinator.handle_moved(moved, Some(saved_on(moved, work_area, 1.5, Some("secondary")))),
        MoveAction::SchedulePersist
    );
    assert_eq!(coordinator.collapsed().x, 100.0);
    assert_eq!(coordinator.collapsed().y, 80.0);
    assert_eq!(coordinator.collapsed().scale_factor, 1.5);
    assert_eq!(coordinator.collapsed().monitor_key.as_deref(), Some("secondary"));
}

#[test]
fn a_move_on_an_unknown_monitor_is_not_persisted() {
    let mut coordinator = WindowStateCoordinator::new((0.0, 0.0, 164.0, 154.0), initial_saved());

    assert_eq!(
        coordinator.handle_moved((300.0, 100.0, 164.0, 154.0), None),
        MoveAction::Ignore
    );
    assert_eq!(coordinator.collapsed(), &initial_saved());
}

#[test]
fn a_stopped_coordinator_ignores_every_move() {
    let mut coordinator = WindowStateCoordinator::new((0.0, 0.0, 164.0, 154.0), initial_saved());
    coordinator.mark_stopped();
    let moved: Rect = (10.0, 10.0, 164.0, 154.0);

    assert_eq!(
        coordinator.handle_moved(moved, Some(saved_on(moved, (0.0, 0.0, 1920.0, 1040.0), 1.0, None))),
        MoveAction::Ignore
    );
    assert_eq!(coordinator.collapsed(), &initial_saved());
}

#[test]
fn the_move_tracker_uses_up_the_announcement_on_any_move() {
    let mut tracker = MoveTracker::new(1u32);
    tracker.expect_programmatic_move(5);

    assert!(tracker.on_moved(6, false));
    assert_eq!(*tracker.collapsed_rect(), 6);
    assert!(tracker.on_moved(5, false));
    assert_eq!(*tracker.collapsed_rect(), 5);
    tracker.expect_programmatic_move(7);
    assert!(!tracker.on_moved(7, false));
    assert_eq!(*tracker.collapsed_rect(), 5);
    assert!(!tracker.on_moved(8, true));
    assert_eq!(*tracker.collapsed_rect(), 5);
}

#[test]
fn lock_success_updates_the_checkbox_and_passthrough() {
    let mut controller = WindowStateController::new(default_preferences());
    let window = FakeWindow::default();
    let tray = FakeTray::with_checked(LOCKED_MENU_ID, false);

    let preferences = controller.set_locked(&window, &tray, true).unwrap();

    assert!(preferences.locked);
    assert!(controller.preferences().locked);
    assert!(tray.is_checked(LOCKED_MENU_ID).unwrap());
    assert!(window.ignored.get());
}

#[test]
fn restored_lock_without_a_tray_reports_the_unready_tray() {
    let mut controller = WindowStateController::new(WindowPreferences {
        locked: true,
        ..default_preferences()
    });
    let window = FakeWindow::default();

    let error = controller
        .restore_locked::<FakeWindow, FakeTray>(&window, None)
        .unwrap_err();

    assert_eq!(error.message(), "cannot restore lock before the tray is ready");
    assert!(!error.requires_shutdown());
}

#[test]
fn compensation_failures_are_listed_after_the_primary_error() {
    let error = WindowOperationError::after_compensation(
        WindowOperationError::new("checkbox write failed"),
        vec![
            ("restore cursor passthrough", WindowOperationError::new("ignore failed")),
            ("restore lock checkbox", WindowOperationError::new("write failed")),
        ],
    );

    assert!(error.requires_shutdown());
    assert_eq!(
        error.message(),
        "checkbox write failed; compensation failed (restore cursor passthrough: ignore failed; restore lock checkbox: write failed)"
    );
    let unchanged = WindowOperationError::after_compensation(WindowOperationError::new("x"), vec![]);
    assert_eq!(unchanged, WindowOperationError::new("x"));
    assert!(WindowOperationError::fatal("stop").requires_shutdown());
}

#[test]
fn always_on_top_follows_the_tray_checkbox() {
    let mut controller = WindowStateController::new(default_preferences());
    let window = FakeWindow::default();
    let tray = FakeTray::with_checked(TOPMOST_MENU_ID, false);

    let preferences = controller.set_always_on_top_from_tray(&window, &tray).unwrap();

    assert!(!preferences.always_on_top);
    assert!(!controller.preferences().always_on_top);
    assert_eq!(&*window.calls.borrow(), &["topmost:false"]);
}

#[test]
fn force_unlock_clears_the_lock() {
    let mut controller = WindowStateController::new(WindowPreferences {
        locked: true,
        ..default_preferences()
    });
    let window = FakeWindow::default();
    window.ignored.set(true);

    let preferences = controller.force_unlocked(&window).unwrap();

    assert!(!preferences.locked);
    assert!(!window.ignored.get());
}

#[allow(dead_code)]
#[derive(Clone, Debug, PartialEq)]
struct MonitorContext {
    name: Option<String>,
    work_area: Rect,
    scale_factor: f64,
}

impl MonitorContext {
    fn new(name: Option<String>, work_area: Rect, scale_factor: f64) -> Self {
        Self {
            name,
            work_area,
            scale_factor,
        }
    }
}

fn named(monitors: Vec<MonitorContext>) -> Vec<(Option<String>, MonitorContext)> {
    monitors
        .into_iter()
        .map(|monitor| (monitor.name.clone(), monitor))
        .collect()
}

#[test]
fn resolver_falls_back_from_current_to_primary_then_first_without_panicking() {
    let primary = MonitorContext::new(Some("primary".into()), (0.0, 0.0, 1920.0, 1040.0), 1.0);
    let first = MonitorContext::new(Some("first".into()), (-1920.0, 0.0, 1920.0, 1040.0), 1.25);
    assert_eq!(
        resolve_monitor(Err(()), Ok(Some(primary.clone())), Ok(vec![first])),
        Some(primary)
    );
}

#[test]
fn resolver_uses_first_available_or_returns_unavailable_after_errors() {
    let first = MonitorContext::new(Some("first".into()), (-1920.0, 0.0, 1920.0, 1040.0), 1.25);
    assert_eq!(
        resolve_monitor::<MonitorContext, ()>(Ok(None), Ok(None), Ok(vec![first.clone()])),
        Some(first)
    );
    assert_eq!(resolve_monitor::<MonitorContext, ()>(Err(()), Err(()), Err(())), None);
}

#[test]
fn startup_resolver_prefers_the_primary_monitor_over_the_windows_current_monitor() {
    let primary = MonitorContext::new(Some("primary".into()), (0.0, 0.0, 1920.0, 1040.0), 1.0);
    assert_eq!(
        resolve_startup_monitor::<MonitorContext, ()>(Ok(Some(primary.clone())), Ok(vec![])),
        Some(primary)
    );
}

#[test]
fn startup_resolver_restores_the_saved_monitor_before_falling_back_to_primary() {
    let primary = MonitorContext::new(Some("primary".into()), (0.0, 0.0, 1920.0, 1040.0), 1.0);
    let saved = MonitorContext::new(Some("secondary".into()), (-1920.0, 0.0, 1920.0, 1040.0), 1.25);

    assert_eq!(
        resolve_startup_monitor_for::<MonitorContext, ()>(
            Ok(Some(primary)),
            Ok(named(vec![saved.clone()])),
            Some("secondary"),
            None,
        ),
        Some(saved)
    );
}

#[test]
fn startup_resolver_falls_back_when_the_saved_monitor_is_gone() {
    let primary = MonitorContext::new(Some("primary".into()), (0.0, 0.0, 1920.0, 1040.0), 1.0);
    let other = MonitorContext::new(Some("other".into()), (1920.0, 0.0, 1920.0, 1040.0), 1.0);

    assert_eq!(
        resolve_startup_monitor_for::<MonitorContext, ()>(
            Ok(Some(primary.clone())),
            Ok(named(vec![other.clone()])),
            Some("secondary"),
            Some("Secondary Display"),
        ),
        Some(primary)
    );
    assert_eq!(
        resolve_startup_monitor_for::<MonitorContext, ()>(
            Err(()),
            Ok(named(vec![other.clone()])),
            None,
            None,
        ),
        Some(other)
    );
}

#[test]
fn startup_resolver_also_matches_the_saved_monitor_name() {
    let primary = MonitorContext::new(Some("primary".into()), (0.0, 0.0, 1920.0, 1040.0), 1.0);
    let first = MonitorContext::new(Some("first".into()), (1920.0, 0.0, 1920.0, 1040.0), 1.0);
    let saved = MonitorContext::new(Some("Dell".into()), (-1920.0, 0.0, 1920.0, 1040.0), 1.5);

    assert_eq!(
        resolve_startup_monitor_for::<MonitorContext, ()>(
            Ok(Some(primary)),
            Ok(named(vec![first, saved.clone()])),
            Some("missing-key"),
            Some("Dell"),
        ),
        Some(saved)
    );
}

#[derive(Default)]
struct FakeAutostart {
    enabled: Cell<bool>,
    fail_read: Cell<bool>,
    fail_next_change: Cell<bool>,
    changes: RefCell<Vec<bool>>,
}

impl AutostartControl for FakeAutostart {
    fn is_enabled(&self) -> WindowOperationResult<bool> {
        if self.fail_read.get() {
            Err(WindowOperationError::new("autostart query failed"))
        } else {
            Ok(self.enabled.get())
        }
    }

    fn enable(&self) -> WindowOperationResult {
        self.change(true)
    }

    fn disable(&self) -> WindowOperationResult {
        self.change(false)
    }
}

impl FakeAutostart {
    fn change(&self, enabled: bool) -> WindowOperationResult {
        self.changes.borrow_mut().push(enabled);
        if self.fail_next_change.replace(false) {
            Err(WindowOperationError::new("autostart change failed"))
        } else {
            self.enabled.set(enabled);
            Ok(())
        }
    }
}

#[test]
fn autostart_is_enabled_from_the_tray_after_the_system_accepts() {
    let mut controller = WindowStateController::new(default_preferences());
    let autostart = FakeAutostart::default();
    let tray = FakeTray::with_checked(AUTOSTART_MENU_ID, true);

    let preferences = controller.set_autostart_from_tray(&autostart, &tray).unwrap();

    assert!(preferences.autostart);
    assert!(autostart.enabled.get());
    assert!(tray.is_checked(AUTOSTART_MENU_ID).unwrap());
}

#[test]
fn a_refused_autostart_change_restores_the_checkbox() {
    let mut controller = WindowStateController::new(default_preferences());
    let autostart = FakeAutostart::default();
    autostart.fail_next_change.set(true);
    let tray = FakeTray::with_checked(AUTOSTART_MENU_ID, true);

    let error = controller.set_autostart_from_tray(&autostart, &tray).unwrap_err();

    assert!(!error.requires_shutdown());
    assert!(!controller.preferences().autostart);
    assert!(!autostart.enabled.get());
    assert!(!tray.is_checked(AUTOSTART_MENU_ID).unwrap());
}

#[test]
fn a_failed_autostart_checkbox_update_restores_the_system_state() {
    let mut controller = WindowStateController::new(default_preferences());
    let autostart = FakeAutostart::default();
    let tray = FakeTray::with_checked(AUTOSTART_MENU_ID, true);
    tray.fail_next_write.set(true);

    let error = controller.set_autostart_from_tray(&autostart, &tray).unwrap_err();

    assert!(!error.requires_shutdown());
    assert_eq!(*autostart.changes.borrow(), vec![true, false]);
    assert!(!autostart.enabled.get());
    assert!(!controller.preferences().autostart);
}

#[test]
fn a_failed_autostart_query_changes_nothing() {
    let mut controller = WindowStateController::new(default_preferences());
    let autostart = FakeAutostart::default();
    autostart.fail_read.set(true);
    let tray = FakeTray::with_checked(AUTOSTART_MENU_ID, true);

    assert!(controller.set_autostart_from_tray(&autostart, &tray).is_err());
    assert!(autostart.changes.borrow().is_empty());
    assert!(!controller.preferences().autostart);
    assert!(!tray.is_checked(AUTOSTART_MENU_ID).unwrap());
}

#[test]
fn startup_adopts_the_system_autostart_state() {
    let mut controller = WindowStateController::new(default_preferences());
    let autostart = FakeAutostart::default();
    autostart.enabled.set(true);
    let tray = FakeTray::with_checked(AUTOSTART_MENU_ID, false);

    let preferences = controller.reconcile_autostart(&autostart, Some(&tray)).unwrap();
    assert!(preferences.autostart);
    assert!(tray.is_checked(AUTOSTART_MENU_ID).unwrap());
    assert!(autostart.changes.borrow().is_empty());

    let mut without_tray = WindowStateController::new(default_preferences());
    let preferences = without_tray
        .reconcile_autostart::<FakeAutostart, FakeTray>(&autostart, None)
        .unwrap();
    assert!(preferences.autostart);

    let mut unsynced = WindowStateController::new(default_preferences());
    let broken_tray = FakeTray::with_checked(AUTOSTART_MENU_ID, false);
    broken_tray.fail_next_write.set(true);
    assert!(unsynced.reconcile_autostart(&autostart, Some(&broken_tray)).is_err());
    assert!(!unsynced.preferences().autostart);
}

#[test]
fn the_saved_monitor_is_found_by_key_before_name() {
    let by_name = MonitorContext::new(Some("Dell".into()), (0.0, 0.0, 1920.0, 1040.0), 1.0);
    let by_key = MonitorContext::new(Some("key-1".into()), (1920.0, 0.0, 1920.0, 1040.0), 1.0);

    assert_eq!(
        resolve_startup_monitor_for::<MonitorContext, ()>(
            Ok(None),
            Ok(named(vec![by_name, by_key.clone()])),
            Some("key-1"),
            Some("Dell"),
        ),
        Some(by_key)
    );
}

#[test]
fn an_absent_saved_key_does_not_match_an_unnamed_monitor() {
    let unnamed = MonitorContext::new(None, (0.0, 0.0, 1920.0, 1040.0), 1.0);
    let primary = MonitorContext::new(Some("primary".into()), (1920.0, 0.0, 1920.0, 1040.0), 1.0);

    assert_eq!(
        resolve_startup_monitor_for::<MonitorContext, ()>(
            Ok(Some(primary.clone())),
            Ok(named(vec![unnamed])),
            None,
            Some("secondary"),
        ),
        Some(primary)
    );
}
