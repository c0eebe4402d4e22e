//! Platform adapter: resolves the facts that differ between operating
//! systems — the daemon executable's canonical name, the options a spawn
//! must use to detach the child, the list of auxiliary process names an
//! emergency flush may terminate, and the scratch directory the agent owns.
//! All of it is a pure function of the platform identity.

use vstd::prelude::*;
use vstd::string::StringExecFns;

verus! {

/// The operating systems the companion supports. The platform is detected
/// once at startup by the caller; everything in the library is then a pure
/// function of this value.
#[derive(Clone, Copy, PartialEq, Eq, Structural, Debug)]
pub enum Platform {
    Windows,
    MacOs,
    Linux,
}

/// Resolving platform facts can fail only one way: the running OS is not
/// one the companion supports. This is a configuration error surfaced at
/// startup, never at runtime.
#[derive(Clone, Copy, PartialEq, Eq, Structural, Debug)]
pub enum PlatformError {
    Unsupported,
}

/// Options a daemon spawn must use so that the child outlives the parent
/// and shows no console or window of its own.
#[derive(Clone, Copy, PartialEq, Eq, Structural, Debug)]
pub struct SpawnOptions {
    /// Prevent the child from opening a visible console window.
    pub hide_window: bool,
    /// Do not let the child inherit stdin/stdout/stderr.
    pub detach_stdio: bool,
}

/// The canonical daemon executable name for `p`, as a sequence of
/// characters: platform-suffixed with `.exe` on Windows, bare elsewhere.
pub open spec fn spec_daemon_executable_name(p: Platform) -> Seq<char> {
    match p {
        Platform::Windows => "bambooclaw.exe"@,
        Platform::MacOs => "bambooclaw"@,
        Platform::Linux => "bambooclaw"@,
    }
}

/// Returns the canonical, platform-suffixed executable name of the daemon.
pub fn daemon_executable_name(p: Platform) -> (name: String)
    ensures
        name@ == spec_daemon_executable_name(p),
{
    match p {
        Platform::Windows => String::from_str("bambooclaw.exe"),
        Platform::MacOs => String::from_str("bambooclaw"),
        Platform::Linux => String::from_str("bambooclaw"),
    }
}

/// The spawn options for `p`: every platform detaches the child's standard
/// streams; Windows additionally suppresses the console window.
pub open spec fn spec_spawn_options(p: Platform) -> SpawnOptions {
    SpawnOptions { hide_window: p is Windows, detach_stdio: true }
}

/// Returns the options a daemon spawn must use on platform `p`.
pub fn spawn_options(p: Platform) -> (opts: SpawnOptions)
    ensures
        opts == spec_spawn_options(p),
{
    match p {
        Platform::Windows => SpawnOptions { hide_window: true, detach_stdio: true },
        Platform::MacOs => SpawnOptions { hide_window: false, detach_stdio: true },
        Platform::Linux => SpawnOptions { hide_window: false, detach_stdio: true },
    }
}

/// The ordered list of auxiliary process names considered unsafe to leave
/// running after an emergency flush: the daemon itself plus the embedded
/// interpreters and shells it may have spawned.
pub open spec fn spec_aux_kill_list(p: Platform) -> Seq<Seq<char>> {
    match p {
        Platform::Windows => seq![
            "bambooclaw.exe"@,
            "python.exe"@,
            "pythonw.exe"@,
            "cmd.exe"@,
            "powershell.exe"@,
        ],
        Platform::MacOs => seq!["bambooclaw"@, "python"@, "python3"@],
        Platform::Linux => seq!["bambooclaw"@, "python"@, "python3"@],
    }
}

/// Returns the ordered auxiliary kill list for platform `p`.
pub fn aux_kill_list(p: Platform) -> (names: Vec<String>)
    ensures
        names@.map_values(|n: String| n@) == spec_aux_kill_list(p),
{
    let mut names: Vec<String> = Vec::new();
    match p {
        Platform::Windows => {
            names.push(String::from_str("bambooclaw.exe"));
            names.push(String::from_str("python.exe"));
            names.push(String::from_str("pythonw.exe"));
            names.push(String::from_str("cmd.exe"));
            names.push(String::from_str("powershell.exe"));
        },
        Platform::MacOs => {
            names.push(String::from_str("bambooclaw"));
            names.push(String::from_str("python"));
            names.push(String::from_str("python3"));
        },
        Platform::Linux => {
            names.push(String::from_str("bambooclaw"));
            names.push(String::from_str("python"));
            names.push(String::from_str("python3"));
        },
    }
    proof {
        assert(names@.map_values(|n: String| n@) =~= spec_aux_kill_list(p));
    }
    names
}

/// The scratch directory the agent owns on platform `p`: the sole target
/// of an emergency flush's recursive wipe.
pub open spec fn spec_scratch_dir(p: Platform) -> Seq<char> {
    match p {
        Platform::Windows => "C:\\tmp"@,
        Platform::MacOs => "/tmp/bambooclaw"@,
        Platform::Linux => "/tmp/bambooclaw"@,
    }
}

/// Returns the agent's scratch directory on platform `p`.
pub fn scratch_dir(p: Platform) -> (dir: String)
    ensures
        dir@ == spec_scratch_dir(p),
{
    match p {
        Platform::Windows => String::from_str("C:\\tmp"),
        Platform::MacOs => String::from_str("/tmp/bambooclaw"),
        Platform::Linux => String::from_str("/tmp/bambooclaw"),
    }
}

/// The display name of platform `p`.
pub open spec fn spec_platform_name(p: Platform) -> Seq<char> {
    match p {
        Platform::Windows => "windows"@,
        Platform::MacOs => "macos"@,
        Platform::Linux => "linux"@,
    }
}

/// Returns the display name of platform `p`, as reported to the UI layer.
pub fn platform_name(p: Platform) -> (name: String)
    ensures
        name@ == spec_platform_name(p),
{
    match p {
        Platform::Windows => String::from_str("windows"),
        Platform::MacOs => String::from_str("macos"),
        Platform::Linux => String::from_str("linux"),
    }
}

/// Parses an OS identifier (as `std::env::consts::OS` reports it) into a
/// supported platform. Any other identifier is an unsupported platform: a
/// startup-time configuration error, not a runtime one.
pub fn platform_from_name(name: &String) -> (r: Result<Platform, PlatformError>)
    ensures
        name@ == "windows"@ ==> r == Ok::<Platform, PlatformError>(Platform::Windows),
        name@ == "macos"@ ==> r == Ok::<Platform, PlatformError>(Platform::MacOs),
        name@ == "linux"@ ==> r == Ok::<Platform, PlatformError>(Platform::Linux),
        name@ != "windows"@ && name@ != "macos"@ && name@ != "linux"@
            ==> r == Err::<Platform, PlatformError>(PlatformError::Unsupported),
{
    proof {
        reveal_strlit("windows");
        reveal_strlit("macos");
        reveal_strlit("linux");
        assert("windows"@.len() == 7);
        assert("macos"@.len() == 5);
        assert("linux"@.len() == 5);
        assert("macos"@[0] == 'm' && "linux"@[0] == 'l');
    }
    if *name == String::from_str("windows") {
        Ok(Platform::Windows)
    } else if *name == String::from_str("macos") {
        Ok(Platform::MacOs)
    } else if *name == String::from_str("linux") {
        Ok(Platform::Linux)
    } else {
        Err(PlatformError::Unsupported)
    }
}

} // verus!
