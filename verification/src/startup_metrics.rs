//! Startup stages, each timed once.

use vstd::prelude::*;
use std::time::{Duration, Instant};

verus! {

#[verifier::external_type_specification]
#[verifier::external_body]
pub struct ExInstant(Instant);

/// The stages of application startup that are timed.
#[derive(Clone, Copy, Debug, Eq, Hash, PartialEq, Structural)]
pub enum StartupStage {
    StartupStarted,
    SetupStarted,
    WindowHandleAvailable,
    SettingsLoaded,
    WindowPositionRestored,
    TrayReady,
    AutostartChecked,
    WindowStateRestored,
    WindowShown,
    ReactFirstFrame,
    AccountRuntimeSelected,
    AccountRuntimeSelectionStarted,
    AccountRuntimeReady,
    AccountCheckComplete,
    QuotaRuntimeSelected,
    QuotaRuntimeSelectionStarted,
    QuotaRuntimeReady,
    QuotaRefreshStarted,
    QuotaDataFresh,
    QuotaRefreshComplete,
}

/// The stable name under which a stage is logged.
pub open spec fn stage_label(stage: StartupStage) -> Seq<char> {
    match stage {
        StartupStage::StartupStarted => "startup_started"@,
        StartupStage::SetupStarted => "setup_started"@,
        StartupStage::WindowHandleAvailable => "window_handle_available"@,
        StartupStage::SettingsLoaded => "settings_loaded"@,
        StartupStage::WindowPositionRestored => "window_position_restored"@,
        StartupStage::TrayReady => "tray_ready"@,
        StartupStage::AutostartChecked => "autostart_checked"@,
        StartupStage::WindowStateRestored => "window_state_restored"@,
        StartupStage::WindowShown => "window_shown"@,
        StartupStage::ReactFirstFrame => "react_first_frame"@,
        StartupStage::AccountRuntimeSelected => "account_runtime_selected"@,
        StartupStage::AccountRuntimeSelectionStarted => "account_runtime_selection_started"@,
        StartupStage::AccountRuntimeReady => "account_runtime_ready"@,
        StartupStage::AccountCheckComplete => "account_check_complete"@,
        StartupStage::QuotaRuntimeSelected => "quota_runtime_selected"@,
        StartupStage::QuotaRuntimeSelectionStarted => "quota_runtime_selection_started"@,
        StartupStage::QuotaRuntimeReady => "quota_runtime_ready"@,
        StartupStage::QuotaRefreshStarted => "quota_refresh_started"@,
        StartupStage::QuotaDataFresh => "quota_data_fresh"@,
        StartupStage::QuotaRefreshComplete => "quota_refresh_complete"@,
    }
}

impl StartupStage {
    pub fn label(self) -> (label: &'static str)
        ensures
            label@ == stage_label(self),
    {
        match self {
            StartupStage::StartupStarted => "startup_started",
            StartupStage::SetupStarted => "setup_started",
            StartupStage::WindowHandleAvailable => "window_handle_available",
            StartupStage::SettingsLoaded => "settings_loaded",
            StartupStage::WindowPositionRestored => "window_position_restored",
            StartupStage::TrayReady => "tray_ready",
            StartupStage::AutostartChecked => "autostart_checked",
            StartupStage::WindowStateRestored => "window_state_restored",
            StartupStage::WindowShown => "window_shown",
            StartupStage::ReactFirstFrame => "react_first_frame",
            StartupStage::AccountRuntimeSelected => "account_runtime_selected",
            StartupStage::AccountRuntimeSelectionStarted => "account_runtime_selection_started",
            StartupStage::AccountRuntimeReady => "account_runtime_ready",
            StartupStage::AccountCheckComplete => "account_check_complete",
            StartupStage::QuotaRuntimeSelected => "quota_runtime_selected",
            StartupStage::QuotaRuntimeSelectionStarted => "quota_runtime_selection_started",
            StartupStage::QuotaRuntimeReady => "quota_runtime_ready",
            StartupStage::QuotaRefreshStarted => "quota_refresh_started",
            StartupStage::QuotaDataFresh => "quota_data_fresh",
            StartupStage::QuotaRefreshComplete => "quota_refresh_complete",
        }
    }
}

/// `Instant::now`: the current time of a monotonic clock.
#[verifier::external_body]
fn now() -> Instant {
    Instant::now()
}

/// `Instant::elapsed`: the time since `start`.
#[verifier::external_body]
fn elapsed_since(start: &Instant) -> Duration {
    start.elapsed()
}

/// Times the startup stages from its creation on, each stage once.
pub struct StartupMetrics {
    started: Instant,
    recorded: Vec<StartupStage>,
}

impl StartupMetrics {
    /// The stages recorded so far.
    pub closed spec fn recorded_stages(&self) -> Set<StartupStage> {
        self.recorded@.to_set()
    }

    pub fn new() -> (metrics: Self)
        ensures
            metrics.recorded_stages() == Set::<StartupStage>::empty(),
    {
        let metrics = StartupMetrics { started: now(), recorded: Vec::new() };
        assert(metrics.recorded@.to_set() =~= Set::<StartupStage>::empty());
        metrics
    }

    /// Records `stage` and returns the time since startup, unless the stage
    /// was recorded before.
    pub fn record(&mut self, stage: StartupStage) -> (elapsed: Option<Duration>)
        ensures
            elapsed.is_some() == !old(self).recorded_stages().contains(stage),
            final(self).recorded_stages() == old(self).recorded_stages().insert(stage),
    {
        let mut i: usize = 0;
        while i < self.recorded.len()
            invariant
                i <= self.recorded@.len(),
                forall|j: int| 0 <= j < i ==> self.recorded@[j] != stage,
            decreases self.recorded@.len() - i,
        {
            if self.recorded[i] == stage {
                assert(self.recorded@.to_set().contains(stage));
                assert(self.recorded@.to_set().insert(stage) =~= self.recorded@.to_set());
                return None;
            }
            i = i + 1;
        }
        assert(!self.recorded@.contains(stage));
        let ghost before = self.recorded@;
        self.recorded.push(stage);
        assert(self.recorded@.to_set() =~= before.to_set().insert(stage)) by {
            assert forall|s: StartupStage| self.recorded@.contains(s) <==> before.contains(s) || s == stage by {
                if before.contains(s) {
                    let j = choose|j: int| 0 <= j < before.len() && before[j] == s;
                    assert(self.recorded@[j] == s);
                }
                if s == stage {
                    assert(self.recorded@[before.len() as int] == s);
                }
            }
        }
        Some(elapsed_since(&self.started))
    }
}

} // verus!
