use bambooclaw_supervisor::command::interpret_output;
use bambooclaw_supervisor::command::CommandOutput;
use bambooclaw_supervisor::config::get_bambooclaw_config_dir;
use bambooclaw_supervisor::config::get_bambooclaw_config_path;
use bambooclaw_supervisor::platform::aux_kill_list;
use bambooclaw_supervisor::platform::daemon_executable_name;
use bambooclaw_supervisor::platform::platform_from_name;
use bambooclaw_supervisor::platform::platform_name;
use bambooclaw_supervisor::platform::scratch_dir;
use bambooclaw_supervisor::platform::spawn_options;
use bambooclaw_supervisor::platform::Platform;
use bambooclaw_supervisor::platform::PlatformError;

#[test]
fn daemon_executable_is_platform_suffixed() {
    assert_eq!(daemon_executable_name(Platform::Windows), "bambooclaw.exe");
    assert_eq!(daemon_executable_name(Platform::MacOs), "bambooclaw");
    assert_eq!(daemon_executable_name(Platform::Linux), "bambooclaw");
}

#[test]
fn spawn_options_detach_everywhere_and_hide_on_windows() {
    assert!(spawn_options(Platform::Windows).hide_window);
    assert!(spawn_options(Platform::Windows).detach_stdio);
    assert!(!spawn_options(Platform::MacOs).hide_window);
    assert!(spawn_options(Platform::MacOs).detach_stdio);
    assert!(!spawn_options(Platform::Linux).hide_window);
    assert!(spawn_options(Platform::Linux).detach_stdio);
}

#[test]
fn aux_kill_lists_are_exact_and_ordered() {
    assert_eq!(
        aux_kill_list(Platform::Windows),
        vec!["bambooclaw.exe", "python.exe", "pythonw.exe", "cmd.exe", "powershell.exe"]
    );
    assert_eq!(aux_kill_list(Platform::Linux), vec!["bambooclaw", "python", "python3"]);
    assert_eq!(aux_kill_list(Platform::MacOs), vec!["bambooclaw", "python", "python3"]);
}

#[test]
fn scratch_dirs_are_fixed_per_platform() {
    assert_eq!(scratch_dir(Platform::Windows), "C:\\tmp");
    assert_eq!(scratch_dir(Platform::Linux), "/tmp/bambooclaw");
    assert_eq!(scratch_dir(Platform::MacOs), "/tmp/bambooclaw");
}

#[test]
fn platform_names_round_trip() {
    for p in [Platform::Windows, Platform::MacOs, Platform::Linux] {
        assert_eq!(platform_from_name(&platform_name(p)), Ok(p));
    }
}

#[test]
fn unknown_platform_is_a_configuration_error() {
    assert_eq!(
        platform_from_name(&"freebsd".to_string()),
        Err(PlatformError::Unsupported)
    );
    assert_eq!(platform_from_name(&"".to_string()), Err(PlatformError::Unsupported));
}

#[test]
fn config_paths_live_under_home() {
    let home = "/home/ada".to_string();
    assert_eq!(get_bambooclaw_config_dir(&home), "/home/ada/.bambooclaw");
    assert_eq!(get_bambooclaw_config_path(&home), "/home/ada/.bambooclaw/config.toml");
}

#[test]
fn command_output_interpretation() {
    let ok = CommandOutput {
        success: true,
        stdout: "rustc 1.75.0".to_string(),
        stderr: String::new(),
    };
    assert_eq!(interpret_output(ok).unwrap(), "rustc 1.75.0");

    let failed = CommandOutput {
        success: false,
        stdout: String::new(),
        stderr: "command not found".to_string(),
    };
    assert_eq!(interpret_output(failed).unwrap_err().stderr, "command not found");
}
