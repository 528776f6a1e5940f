//! Choosing the Codex runtime: a compatible, logged-in system runtime is
//! reused; otherwise the bundled runtime runs with a private `CODEX_HOME`.

use vstd::prelude::*;
use crate::version::{parse_version, parsed_version, version_at_least};
use crate::paths::{
    adjoinable, adjoined, bare_file_name, file_at_root, file_in_backslash_dir, file_in_plain_dir,
    is_path_separator, join_path, joined, plain_name, renamed_in_place, replace_file_name,
    lemma_adjoined_is_adjoinable,
};

verus! {

/// The private `CODEX_HOME` of the bundled runtime inside the application's
/// data directory; it is the same on every launch.
pub fn private_codex_home(app_data_dir: &str) -> (home: String)
    ensures
        !(app_data_dir@.len() > 0 && app_data_dir@[0] == '\\') ==> joined(
            app_data_dir@,
            "codex-runtime-home"@,
            home@,
        ),
{
    proof {
        reveal_strlit("codex-runtime-home");
    }
    join_path(app_data_dir, "codex-runtime-home")
}

/// `executable` is `resources/codex-runtime/bin/codex.exe` below
/// `resources`, each name adjoined with one separator.
pub open spec fn runtime_below(resources: Seq<char>, executable: Seq<char>) -> bool {
    exists|runtime: Seq<char>, bin: Seq<char>|
        adjoined(resources, "codex-runtime"@, runtime) && adjoined(runtime, "bin"@, bin) && adjoined(
            bin,
            "codex.exe"@,
            executable,
        )
}

/// Where the bundled runtime lies: `resources/codex-runtime/bin/codex.exe`
/// beside the running executable. For a Windows path written with `\`, the
/// `resources` directory is beside the executable on Windows; elsewhere such
/// a path is one file name, and `resources` stands alone. An executable
/// named without a directory finds `resources` as a relative path, and one
/// right below `/` finds `/resources`.
pub fn bundled_executable_for(current_exe: &str) -> (executable: String)
    ensures
        forall|k: int|
            #![trigger file_in_plain_dir(current_exe@, k)]
            file_in_plain_dir(current_exe@, k) ==> exists|resources: Seq<char>|
                adjoined(current_exe@.take(k), "resources"@, resources) && runtime_below(
                    resources,
                    executable@,
                ),
        forall|k: int|
            #![trigger file_in_backslash_dir(current_exe@, k)]
            file_in_backslash_dir(current_exe@, k) ==> exists|resources: Seq<char>|
                renamed_in_place(current_exe@, k, "resources"@, resources) && runtime_below(
                    resources,
                    executable@,
                ),
        bare_file_name(current_exe@) ==> runtime_below("resources"@, executable@),
        file_at_root(current_exe@) ==> runtime_below("/"@ + "resources"@, executable@),
{
    let resources = replace_file_name(current_exe, "resources");
    let runtime = join_path(resources.as_str(), "codex-runtime");
    let bin = join_path(runtime.as_str(), "bin");
    let executable = join_path(bin.as_str(), "codex.exe");
    proof {
        lemma_plain_names();
        assert(!is_path_separator("resources"@[0]));
        reveal_strlit("/");
        assert(adjoinable("/"@ + "resources"@));
        if adjoinable(resources@) {
            lemma_adjoined_is_adjoinable(resources@, "codex-runtime"@, runtime@);
            lemma_adjoined_is_adjoinable(runtime@, "bin"@, bin@);
            assert(runtime_below(resources@, executable@));
        }
        assert forall|k: int|
            #![trigger file_in_plain_dir(current_exe@, k)]
            file_in_plain_dir(current_exe@, k) implies adjoinable(resources@) by {
            lemma_adjoined_is_adjoinable(current_exe@.take(k), "resources"@, resources@);
        }
        assert forall|k: int|
            #![trigger file_in_backslash_dir(current_exe@, k)]
            file_in_backslash_dir(current_exe@, k) implies adjoinable(resources@) by {
            if resources@ != "resources"@ {
                lemma_adjoined_is_adjoinable(current_exe@.take(k), "resources"@, resources@);
            }
        }
    }
    executable
}

proof fn lemma_plain_names()
    ensures
        plain_name("resources"@),
        plain_name("codex-runtime"@),
        plain_name("bin"@),
        plain_name("codex.exe"@),
        adjoinable("resources"@),
{
    reveal_strlit("resources");
    reveal_strlit("codex-runtime");
    reveal_strlit("bin");
    reveal_strlit("codex.exe");
}

/// The oldest runtime version that the application works with.
pub const MINIMUM_COMPATIBLE_VERSION: (u16, u16, u16) = (0, 155, 0);

/// Whether the version text names a version at least the minimum.
pub open spec fn compatible_version(version: Seq<char>) -> bool {
    match parsed_version(version) {
        Some(parsed) => version_at_least(parsed, MINIMUM_COMPATIBLE_VERSION),
        None => false,
    }
}

pub fn is_compatible(version: &str) -> (compatible: bool)
    ensures
        compatible == compatible_version(version@),
{
    match parse_version(version) {
        Some(parsed) => {
            let minimum = MINIMUM_COMPATIBLE_VERSION;
            parsed.0 > minimum.0 || (parsed.0 == minimum.0 && (parsed.1 > minimum.1 || (parsed.1
                == minimum.1 && parsed.2 >= minimum.2)))
        },
        None => false,
    }
}

#[derive(Debug, Clone, Copy, PartialEq, Eq, Structural)]
pub enum RuntimeSource {
    System,
    Bundled,
}

/// A runtime found on this machine.
#[derive(Debug, Clone, PartialEq, Eq)]
pub struct DetectedRuntime {
    pub source: RuntimeSource,
    pub executable: String,
    pub version: String,
    pub logged_in: bool,
}

/// The runtime to start, with the `CODEX_HOME` to give it (none: its own).
#[derive(Debug, Clone, PartialEq, Eq)]
pub struct RuntimeLaunch {
    pub source: RuntimeSource,
    pub executable: String,
    pub version: String,
    pub codex_home: Option<String>,
}

#[derive(Debug, Clone, PartialEq, Eq)]
pub enum RuntimeError {
    MissingCompatibleRuntime,
}

pub struct RuntimeManager;

/// A system runtime that may be reused: compatible and logged in.
pub open spec fn reusable_system(runtime: Option<DetectedRuntime>) -> bool {
    match runtime {
        Some(runtime) => runtime.source == RuntimeSource::System && runtime.logged_in
            && compatible_version(runtime.version@),
        None => false,
    }
}

/// A bundled runtime that may be started: compatible.
pub open spec fn usable_bundled(runtime: Option<DetectedRuntime>) -> bool {
    match runtime {
        Some(runtime) => runtime.source == RuntimeSource::Bundled && compatible_version(runtime.version@),
        None => false,
    }
}

/// The launch that [`RuntimeManager::select`] chooses.
pub open spec fn selected(
    system: Option<DetectedRuntime>,
    bundled: Option<DetectedRuntime>,
    app_runtime_home: String,
) -> Result<RuntimeLaunch, RuntimeError> {
    if reusable_system(system) {
        Ok(
            RuntimeLaunch {
                source: system.unwrap().source,
                executable: system.unwrap().executable,
                version: system.unwrap().version,
                codex_home: None,
            },
        )
    } else if usable_bundled(bundled) {
        Ok(
            RuntimeLaunch {
                source: bundled.unwrap().source,
                executable: bundled.unwrap().executable,
                version: bundled.unwrap().version,
                codex_home: Some(app_runtime_home),
            },
        )
    } else {
        Err(RuntimeError::MissingCompatibleRuntime)
    }
}

/// Only a compatible runtime is launched: a launch holds a version that
/// parses and is at least the minimum, and it is one of the runtimes
/// offered, in the place it was offered for: a logged-in system runtime with
/// its own home, or the bundled runtime with the private home. A compatible,
/// logged-in system runtime is always preferred. Selection
/// fails only when the system runtime is absent, misplaced, logged out or
/// too old and the bundled one is absent, misplaced or too old.
pub proof fn law_only_compatible_runtimes_launch(
    system: Option<DetectedRuntime>,
    bundled: Option<DetectedRuntime>,
    app_runtime_home: String,
)
    ensures
        selected(system, bundled, app_runtime_home) matches Ok(launch) ==> (parsed_version(
            launch.version@,
        ) matches Some(version) && version_at_least(version, MINIMUM_COMPATIBLE_VERSION)),
        selected(system, bundled, app_runtime_home) matches Ok(launch) ==> ({
            ||| system matches Some(offered) && offered.source == RuntimeSource::System
                && offered.logged_in && launch.source == RuntimeSource::System && launch.executable
                == offered.executable && launch.version == offered.version && launch.codex_home
                is None
            ||| bundled matches Some(offered) && offered.source == RuntimeSource::Bundled
                && launch.source == RuntimeSource::Bundled && launch.executable == offered.executable
                && launch.version == offered.version && launch.codex_home == Some(app_runtime_home)
        }),
        (system matches Some(offered) && offered.source == RuntimeSource::System && offered.logged_in
            && (parsed_version(offered.version@) matches Some(version) && version_at_least(
            version,
            MINIMUM_COMPATIBLE_VERSION,
        ))) ==> (selected(system, bundled, app_runtime_home) matches Ok(launch)
            && launch.source == RuntimeSource::System && launch.executable == system.unwrap().executable
            && launch.version == system.unwrap().version && launch.codex_home is None),
        selected(system, bundled, app_runtime_home) is Err ==> {
            &&& system matches Some(offered) ==> !(offered.source == RuntimeSource::System
                && offered.logged_in && (parsed_version(offered.version@) matches Some(version)
                && version_at_least(version, MINIMUM_COMPATIBLE_VERSION)))
            &&& bundled matches Some(offered) ==> !(offered.source == RuntimeSource::Bundled && (
            parsed_version(offered.version@) matches Some(version) && version_at_least(
                version,
                MINIMUM_COMPATIBLE_VERSION,
            )))
        },
{
}

impl RuntimeManager {
    /// Prefers a reusable system runtime with its own home; else the bundled
    /// runtime with the private home `app_runtime_home`; else fails.
    pub fn select(
        system: Option<DetectedRuntime>,
        bundled: Option<DetectedRuntime>,
        app_runtime_home: String,
    ) -> (launch: Result<RuntimeLaunch, RuntimeError>)
        ensures
            launch == selected(system, bundled, app_runtime_home),
            reusable_system(system) ==> launch == Ok::<RuntimeLaunch, RuntimeError>(
                RuntimeLaunch {
                    source: system.unwrap().source,
                    executable: system.unwrap().executable,
                    version: system.unwrap().version,
                    codex_home: None,
                },
            ),
            !reusable_system(system) && usable_bundled(bundled) ==> launch == Ok::<
                RuntimeLaunch,
                RuntimeError,
            >(
                RuntimeLaunch {
                    source: bundled.unwrap().source,
                    executable: bundled.unwrap().executable,
                    version: bundled.unwrap().version,
                    codex_home: Some(app_runtime_home),
                },
            ),
            !reusable_system(system) && !usable_bundled(bundled) ==> launch == Err::<
                RuntimeLaunch,
                RuntimeError,
            >(RuntimeError::MissingCompatibleRuntime),
    {
        if let Some(system) = system {
            if system.source == RuntimeSource::System && system.logged_in && is_compatible(
                system.version.as_str(),
            ) {
                return Ok(
                    RuntimeLaunch {
                        source: system.source,
                        executable: system.executable,
                        version: system.version,
                        codex_home: None,
                    },
                );
            }
        }
        if let Some(bundled) = bundled {
            if bundled.source == RuntimeSource::Bundled && is_compatible(bundled.version.as_str()) {
                return Ok(
                    RuntimeLaunch {
                        source: bundled.source,
                        executable: bundled.executable,
                        version: bundled.version,
                        codex_home: Some(app_runtime_home),
                    },
                );
            }
        }
        Err(RuntimeError::MissingCompatibleRuntime)
    }
}

} // verus!
