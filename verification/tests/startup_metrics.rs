use codex_pet::startup_metrics::{StartupMetrics, StartupStage};

#[test]
fn records_each_stage_only_once() {
    let mut metrics = StartupMetrics::new();

    assert!(metrics.record(StartupStage::StartupStarted).is_some());
    assert!(metrics.record(StartupStage::WindowHandleAvailable).is_some());
    assert!(metrics.record(StartupStage::WindowHandleAvailable).is_none());
}

#[test]
fn react_first_frame_has_a_stable_local_metric_name() {
    assert_eq!(StartupStage::ReactFirstFrame.label(), "react_first_frame");
}

#[test]
fn every_stage_has_its_own_label() {
    assert_eq!(StartupStage::StartupStarted.label(), "startup_started");
    assert_eq!(StartupStage::QuotaRefreshComplete.label(), "quota_refresh_complete");
    assert_eq!(
        StartupStage::AccountRuntimeSelectionStarted.label(),
        "account_runtime_selection_started"
    );
}

#[test]
fn elapsed_times_do_not_decrease() {
    let mut metrics = StartupMetrics::new();
    let first = metrics.record(StartupStage::SetupStarted).unwrap();
    let second = metrics.record(StartupStage::TrayReady).unwrap();
    assert!(first <= second);
    assert!(metrics.record(StartupStage::SetupStarted).is_none());
}
