use std::path::PathBuf;

use codex_pet::runtime::{
    bundled_executable_for, is_compatible, private_codex_home, DetectedRuntime, RuntimeError,
    RuntimeManager, RuntimeSource, MINIMUM_COMPATIBLE_VERSION,
};
use codex_pet::version::parse_version;

fn detected(source: RuntimeSource, version: &str, logged_in: bool) -> DetectedRuntime {
    DetectedRuntime {
        source,
        executable: "C:/runtime/codex.exe".into(),
        version: version.into(),
        logged_in,
    }
}

#[test]
fn selects_an_existing_compatible_logged_in_system_runtime() {
    let selected = RuntimeManager::select(
        Some(detected(RuntimeSource::System, "0.156.1", true)),
        Some(detected(RuntimeSource::Bundled, "0.156.1", false)),
        "C:/CodexPet/runtime-home".into(),
    )
    .unwrap();

    assert_eq!(selected.source, RuntimeSource::System);
    assert_eq!(selected.codex_home, None);
}

#[test]
fn uses_private_bundled_runtime_when_system_runtime_is_logged_out() {
    let selected = RuntimeManager::select(
        Some(detected(RuntimeSource::System, "0.156.1", false)),
        Some(detected(RuntimeSource::Bundled, "0.156.1", false)),
        "C:/CodexPet/runtime-home".into(),
    )
    .unwrap();

    assert_eq!(selected.source, RuntimeSource::Bundled);
    assert_eq!(selected.codex_home, Some("C:/CodexPet/runtime-home".to_string()));
}

#[test]
fn falls_back_when_system_runtime_is_too_old() {
    let selected = RuntimeManager::select(
        Some(detected(RuntimeSource::System, "0.100.0", true)),
        Some(detected(RuntimeSource::Bundled, "0.156.1", false)),
        "C:/CodexPet/runtime-home".into(),
    )
    .unwrap();

    assert_eq!(selected.source, RuntimeSource::Bundled);
}

#[test]
fn reports_missing_when_no_compatible_runtime_exists() {
    let error = RuntimeManager::select(
        Some(detected(RuntimeSource::System, "0.100.0", true)),
        None,
        "C:/CodexPet/runtime-home".into(),
    )
    .unwrap_err();

    assert_eq!(error, RuntimeError::MissingCompatibleRuntime);
}

#[test]
fn bundled_private_home_is_stable_across_launches() {
    let app_data = "C:/Users/test/AppData/Roaming/io.github.fristyya.codex-pet";
    let first = private_codex_home(app_data);
    let restarted = private_codex_home(app_data);
    assert_eq!(first, restarted);
    assert_eq!(PathBuf::from(&first), PathBuf::from(app_data).join("codex-runtime-home"));
}

#[test]
fn bundled_runtime_is_resolved_from_the_running_exe_directory() {
    let exe = "C:/Program Files/Codex Pet/codex-pet.exe";
    assert_eq!(
        PathBuf::from(bundled_executable_for(exe)),
        PathBuf::from("C:/Program Files/Codex Pet/resources/codex-runtime/bin/codex.exe")
    );
}

#[test]
fn the_private_home_is_inside_the_data_directory() {
    assert_eq!(
        PathBuf::from(private_codex_home("/data/pet")),
        PathBuf::from("/data/pet/codex-runtime-home")
    );
}

#[test]
fn the_bundled_runtime_replaces_the_executable_name() {
    assert_eq!(
        PathBuf::from(bundled_executable_for("/opt/pet/codex-pet")),
        PathBuf::from("/opt/pet/resources/codex-runtime/bin/codex.exe")
    );
}

#[test]
fn the_minimum_version_itself_is_compatible() {
    assert_eq!(MINIMUM_COMPATIBLE_VERSION, (0, 155, 0));
    assert!(is_compatible("0.155.0"));
    assert!(is_compatible("codex-cli 0.155.0"));
    assert!(is_compatible("v1.0.0-beta"));
    assert!(!is_compatible("0.154.99"));
    assert!(!is_compatible("not a version"));
    assert!(!is_compatible(""));
}

#[test]
fn a_logged_out_system_runtime_without_a_bundled_one_is_missing() {
    let error = RuntimeManager::select(
        Some(detected(RuntimeSource::System, "0.156.1", false)),
        None,
        "home".into(),
    )
    .unwrap_err();

    assert_eq!(error, RuntimeError::MissingCompatibleRuntime);
}

#[test]
fn a_runtime_offered_in_the_wrong_place_is_not_used() {
    let error = RuntimeManager::select(
        Some(detected(RuntimeSource::Bundled, "0.156.1", true)),
        Some(detected(RuntimeSource::System, "0.156.1", true)),
        "home".into(),
    )
    .unwrap_err();

    assert_eq!(error, RuntimeError::MissingCompatibleRuntime);
}

#[test]
fn the_system_launch_keeps_its_executable_and_version() {
    let selected = RuntimeManager::select(
        Some(detected(RuntimeSource::System, "codex-cli 0.160.2", true)),
        None,
        "home".into(),
    )
    .unwrap();

    assert_eq!(selected.executable, "C:/runtime/codex.exe");
    assert_eq!(selected.version, "codex-cli 0.160.2");
}

#[test]
fn versions_are_read_from_the_first_numeric_token() {
    assert_eq!(parse_version("codex-cli 0.156.1"), Some((0, 156, 1)));
    assert_eq!(parse_version("v2.3.4-rc.1 extra"), Some((2, 3, 4)));
    assert_eq!(parse_version("  1.2.3  "), Some((1, 2, 3)));
    assert_eq!(parse_version("1.2"), None);
    assert_eq!(parse_version("1.2.x"), None);
    assert_eq!(parse_version("70000.0.0"), None);
    assert_eq!(parse_version("codex"), None);
    assert_eq!(parse_version("vv1.2.3"), Some((1, 2, 3)));
}

#[test]
fn a_native_windows_executable_path_finds_the_bundled_runtime() {
    let sep = std::path::MAIN_SEPARATOR;
    let below = format!("resources{sep}codex-runtime{sep}bin{sep}codex.exe");
    let executable = bundled_executable_for("C:\\Program Files\\Codex Pet\\codex-pet.exe");
    // On Windows the runtime lies beside the executable; elsewhere the
    // backslash path is a single file name and only the layout below it remains.
    assert!(
        executable == format!("C:\\Program Files\\Codex Pet\\{below}") || executable == below,
        "{executable}"
    );
    assert!(executable.ends_with(&below));
}

#[test]
fn the_private_home_takes_no_doubled_or_leading_separator() {
    assert_eq!(private_codex_home(""), "codex-runtime-home");
    assert_eq!(
        private_codex_home("/data/codex-pet/"),
        "/data/codex-pet/codex-runtime-home"
    );
}

#[test]
fn an_executable_without_a_directory_finds_a_relative_runtime() {
    let sep = std::path::MAIN_SEPARATOR;
    assert_eq!(
        bundled_executable_for("codex-pet"),
        format!("resources{sep}codex-runtime{sep}bin{sep}codex.exe")
    );
    assert_eq!(
        bundled_executable_for("/codex-pet"),
        format!("/resources{sep}codex-runtime{sep}bin{sep}codex.exe")
    );
}
