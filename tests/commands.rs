use adb_studio::adb::{
    adb_devices, adb_disconnect, adb_install, adb_list_packages, adb_logcat, adb_program, adb_pull,
    adb_push, adb_reboot, adb_reboot_bootloader, adb_reboot_recovery, adb_screenshot, adb_shell,
    adb_start_screenrecord, adb_stop_screenrecord, adb_uninstall, command_outcome,
    extended_search_path, screenshot_saved, AdbStudioSettings, CommandError, CommandResult,
};

fn settings(path: &str) -> AdbStudioSettings {
    AdbStudioSettings { adb_path: path.to_string(), dark_mode: false }
}

#[test]
fn program_defaults_to_adb() {
    assert_eq!(adb_program(&AdbStudioSettings::default()), "adb");
    assert_eq!(adb_program(&settings("/opt/sdk/adb")), "/opt/sdk/adb");
}

#[test]
fn device_command_lines() {
    let s = settings("");
    assert_eq!(adb_devices(&s).args, vec!["devices"]);
    assert_eq!(adb_devices(&s).program, "adb");
    assert_eq!(adb_reboot(&s, "A1").args, vec!["-s", "A1", "reboot"]);
    assert_eq!(adb_reboot_recovery(&s, "A1").args, vec!["-s", "A1", "reboot", "recovery"]);
    assert_eq!(adb_reboot_bootloader(&s, "A1").args, vec!["-s", "A1", "reboot", "bootloader"]);
    assert_eq!(adb_disconnect(&s, "A1").args, vec!["disconnect", "A1"]);
    assert_eq!(adb_shell(&s, "A1", "ls /").args, vec!["-s", "A1", "shell", "ls /"]);
    assert_eq!(adb_push(&s, "A1", "a.txt", "/sdcard/").args, vec!["-s", "A1", "push", "a.txt", "/sdcard/"]);
    assert_eq!(adb_pull(&s, "A1", "/sdcard/", "out").args, vec!["-s", "A1", "pull", "/sdcard/", "out"]);
    assert_eq!(adb_install(&s, "A1", "x.apk").args, vec!["-s", "A1", "install", "x.apk"]);
    assert_eq!(adb_uninstall(&s, "A1", "com.a").args, vec!["-s", "A1", "uninstall", "com.a"]);
    assert_eq!(adb_list_packages(&s, "A1").args, vec!["-s", "A1", "shell", "pm list packages"]);
    assert_eq!(adb_screenshot(&s, "A1").args, vec!["-s", "A1", "exec-out", "screencap -p"]);
    assert_eq!(
        adb_start_screenrecord(&s, "A1", "/sdcard/video.mp4").args,
        vec!["-s", "A1", "shell", "screenrecord /sdcard/video.mp4"]
    );
    assert_eq!(adb_stop_screenrecord(&s, "A1").args, vec!["-s", "A1", "shell", "pkill -INT screenrecord"]);
    assert_eq!(adb_logcat(&settings("/x/adb")).program, "/x/adb");
    assert_eq!(adb_logcat(&s).args, vec!["logcat"]);
}

#[test]
fn outcome_of_a_run() {
    let ok = CommandResult { ok: true, stdout: "out".to_string(), stderr: "warn".to_string() };
    assert_eq!(command_outcome(Ok(ok)), Ok("out".to_string()));
    let failed = CommandResult { ok: false, stdout: "out".to_string(), stderr: "error: no devices".to_string() };
    assert_eq!(command_outcome(Ok(failed)), Err(CommandError::CommandFailure("error: no devices".to_string())));
    assert_eq!(
        command_outcome(Err("No such file or directory".to_string())),
        Err(CommandError::LaunchFailure("No such file or directory".to_string()))
    );
}

#[test]
fn error_messages_are_verbatim() {
    assert_eq!(CommandError::CommandFailure("boom".to_string()).message(), "boom");
    assert_eq!(CommandError::LaunchFailure("not found".to_string()).message(), "not found");
    assert_eq!(CommandError::SelectionStale.message(), "No device selected.");
}

#[test]
fn screenshot_report() {
    assert_eq!(screenshot_saved("/tmp/s.png"), "Screenshot saved to /tmp/s.png");
}

#[test]
fn search_path_gets_missing_tool_dirs() {
    assert_eq!(
        extended_search_path("/usr/bin", "/Users/me"),
        Some("/usr/local/bin:/opt/homebrew/bin:/Users/me/Library/Android/sdk/platform-tools:/usr/bin".to_string())
    );
    assert_eq!(
        extended_search_path("/usr/local/bin:/usr/bin", "/h"),
        Some("/opt/homebrew/bin:/h/Library/Android/sdk/platform-tools:/usr/local/bin:/usr/bin".to_string())
    );
    let full = "/usr/local/bin:/opt/homebrew/bin:/h/Library/Android/sdk/platform-tools";
    assert_eq!(extended_search_path(full, "/h"), None);
}
