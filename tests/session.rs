use adb_studio::adb::{AdbStudioSettings, CommandError};
use adb_studio::device::Device;
use adb_studio::executor::{plan_command, DeviceAction};
use adb_studio::install::{uninstall_finished, InstallError, InstallPipeline, InstallStage};
use adb_studio::registry::{dedup_devices, AppState};
use adb_studio::stream::{StreamAction, StreamSession, StreamState};

const LISTING: &str = "List of devices attached\nA1 device\nB2 offline\n";

fn registry_with(serial: &str) -> AppState {
    let mut state = AppState::new();
    state.refresh(Ok(LISTING.to_string()));
    state.select(serial);
    state
}

fn dev(serial: &str, status: &str) -> Device {
    Device { serial: serial.to_string(), status: status.to_string(), model: String::new() }
}

#[test]
fn refresh_replaces_snapshot() {
    let mut state = AppState::new();
    assert!(state.devices().is_empty());
    state.refresh(Ok(LISTING.to_string()));
    assert_eq!(state.devices().len(), 2);
    assert_eq!(state.online_devices(), 1);
    state.refresh(Ok("List of devices attached\nC3 device\n".to_string()));
    assert_eq!(state.devices().len(), 1);
    assert_eq!(state.devices()[0].serial, "C3");
}

#[test]
fn failed_refresh_keeps_snapshot() {
    let mut state = AppState::new();
    state.refresh(Ok(LISTING.to_string()));
    state.refresh(Err(CommandError::LaunchFailure("adb: not found".to_string())));
    assert_eq!(state.devices().len(), 2);
    state.refresh(Err(CommandError::CommandFailure("daemon not running".to_string())));
    assert_eq!(state.devices().len(), 2);
}

#[test]
fn snapshot_serials_unique() {
    let mut state = AppState::new();
    state.refresh(Ok("List\nA1 device\nA1 offline\nB2 device\n".to_string()));
    assert_eq!(state.devices().len(), 2);
    assert_eq!(state.devices()[0].status, "device");
    let deduped = dedup_devices(&vec![dev("x", "a"), dev("y", "b"), dev("x", "c")]);
    assert_eq!(deduped.len(), 2);
    assert_eq!(deduped[1].serial, "y");
}

#[test]
fn snapshot_length_is_old_or_new() {
    let mut state = AppState::new();
    state.refresh(Ok(LISTING.to_string()));
    let before = state.devices().len();
    state.refresh(Ok("List\nA1 device\nB2 device\nC3 device\n".to_string()));
    let after = state.devices().len();
    assert!(after == before || after == 3);
    assert_eq!(after, 3);
}

#[test]
fn select_and_clear() {
    let mut state = registry_with("A1");
    assert_eq!(state.selected_device(), Some("A1".to_string()));
    assert_eq!(state.target(), Ok("A1".to_string()));
    state.clear();
    assert_eq!(state.selected_device(), None);
    assert_eq!(state.target(), Err(CommandError::SelectionStale));
}

#[test]
fn stale_selection_fails_fast() {
    let settings = AdbStudioSettings::default();
    let mut state = registry_with("A1");
    assert!(plan_command(&state, &settings, &DeviceAction::Reboot).is_ok());
    state.refresh(Ok("List of devices attached\nB2 device\n".to_string()));
    assert_eq!(state.selected_device(), Some("A1".to_string()));
    assert_eq!(plan_command(&state, &settings, &DeviceAction::Reboot), Err(CommandError::SelectionStale));
    assert_eq!(
        plan_command(&state, &settings, &DeviceAction::Shell("ls".to_string())),
        Err(CommandError::SelectionStale)
    );
    let mut pipeline = InstallPipeline::new();
    assert_eq!(pipeline.begin(&state, &settings, "app.apk"), Err(InstallError::SelectionStale));
    assert_eq!(*pipeline.stage(), InstallStage::Idle);
}

#[test]
fn plan_command_targets_selection() {
    let settings = AdbStudioSettings { adb_path: "/sdk/adb".to_string(), dark_mode: true };
    let state = registry_with("B2");
    let inv = plan_command(&state, &settings, &DeviceAction::Pull { from: "/sdcard/".to_string(), to: "dl".to_string() }).unwrap();
    assert_eq!(inv.program, "/sdk/adb");
    assert_eq!(inv.args, vec!["-s", "B2", "pull", "/sdcard/", "dl"]);
    let inv = plan_command(&state, &settings, &DeviceAction::StartScreenRecord("/sdcard/v.mp4".to_string())).unwrap();
    assert_eq!(inv.args, vec!["-s", "B2", "shell", "screenrecord /sdcard/v.mp4"]);
}

#[test]
fn stream_stop_twice_is_idle() {
    let mut session = StreamSession::new();
    assert_eq!(session.stop(), StreamAction::Nothing);
    assert_eq!(session.state(), StreamState::Idle);
    assert_eq!(session.stop(), StreamAction::Nothing);
    assert_eq!(session.state(), StreamState::Idle);
}

#[test]
fn stream_lifecycle() {
    let mut session = StreamSession::new();
    assert_eq!(session.start(), StreamAction::Spawn);
    assert_eq!(session.state(), StreamState::Running);
    assert_eq!(session.start(), StreamAction::Nothing);
    session.push_line("first");
    session.push_line("second");
    assert_eq!(session.stop(), StreamAction::Terminate);
    assert_eq!(session.state(), StreamState::Stopping);
    assert_eq!(session.stop(), StreamAction::Nothing);
    session.stream_ended();
    assert_eq!(session.state(), StreamState::Idle);
    assert_eq!(session.stop(), StreamAction::Nothing);
    assert_eq!(session.log(), "first\nsecond\n");
}

#[test]
fn stream_process_dies() {
    let mut session = StreamSession::new();
    session.start();
    session.stream_ended();
    assert_eq!(session.state(), StreamState::Idle);
    assert_eq!(session.start(), StreamAction::Spawn);
}

#[test]
fn install_end_to_end_success() {
    let settings = AdbStudioSettings::default();
    let state = registry_with("A1");
    let mut pipeline = InstallPipeline::new();
    let push = pipeline.begin(&state, &settings, "/home/me/app.apk").unwrap();
    assert_eq!(push.args, vec!["-s", "A1", "push", "/home/me/app.apk", "/data/local/tmp/temp.apk"]);
    assert_eq!(*pipeline.stage(), InstallStage::Pushing);
    assert_eq!(pipeline.progress(), 30);
    let install = pipeline.push_finished(&settings, Ok("1 file pushed".to_string())).unwrap();
    assert_eq!(install.args, vec!["-s", "A1", "shell", "pm install -r /data/local/tmp/temp.apk"]);
    assert_eq!(*pipeline.stage(), InstallStage::Installing);
    assert_eq!(pipeline.progress(), 60);
    let refresh = pipeline.install_finished(&settings, Ok("Performing Streamed Install\nSuccess\n".to_string())).unwrap();
    assert_eq!(refresh.args, vec!["-s", "A1", "shell", "pm list packages"]);
    assert_eq!(*pipeline.stage(), InstallStage::Verifying);
    assert_eq!(pipeline.progress(), 100);
    let names = pipeline.packages_refreshed(Ok("package:com.a\npackage:com.new\n".to_string())).unwrap();
    assert_eq!(names, vec!["com.a", "com.new"]);
    assert_eq!(*pipeline.stage(), InstallStage::Succeeded);
    pipeline.display_elapsed();
    assert_eq!(pipeline.progress(), 0);
    assert_eq!(*pipeline.stage(), InstallStage::Succeeded);
}

#[test]
fn install_push_failure() {
    let settings = AdbStudioSettings::default();
    let state = registry_with("A1");
    let mut pipeline = InstallPipeline::new();
    pipeline.begin(&state, &settings, "app.apk").unwrap();
    let next = pipeline.push_finished(&settings, Err(CommandError::CommandFailure("adb: error: failed to copy".to_string())));
    assert!(next.is_none());
    assert_eq!(*pipeline.stage(), InstallStage::Failed("adb: error: failed to copy".to_string()));
    assert_eq!(pipeline.progress(), 0);
    assert!(pipeline.install_finished(&settings, Ok("Success".to_string())).is_none());
    assert!(pipeline.packages_refreshed(Ok("package:x".to_string())).is_none());
    assert_eq!(*pipeline.stage(), InstallStage::Failed("adb: error: failed to copy".to_string()));
}

#[test]
fn install_without_marker_fails_with_output() {
    let settings = AdbStudioSettings::default();
    let state = registry_with("A1");
    let mut pipeline = InstallPipeline::new();
    pipeline.begin(&state, &settings, "app.apk").unwrap();
    pipeline.push_finished(&settings, Ok(String::new())).unwrap();
    let out = "Failure [INSTALL_FAILED_VERSION_DOWNGRADE]";
    assert!(pipeline.install_finished(&settings, Ok(out.to_string())).is_none());
    assert_eq!(*pipeline.stage(), InstallStage::Failed(out.to_string()));
    assert_eq!(pipeline.progress(), 0);
}

#[test]
fn install_command_error_fails() {
    let settings = AdbStudioSettings::default();
    let state = registry_with("A1");
    let mut pipeline = InstallPipeline::new();
    pipeline.begin(&state, &settings, "app.apk").unwrap();
    pipeline.push_finished(&settings, Ok(String::new())).unwrap();
    assert!(pipeline.install_finished(&settings, Err(CommandError::LaunchFailure("gone".to_string()))).is_none());
    assert_eq!(*pipeline.stage(), InstallStage::Failed("gone".to_string()));
}

#[test]
fn second_install_rejected() {
    let settings = AdbStudioSettings::default();
    let state = registry_with("A1");
    let mut pipeline = InstallPipeline::new();
    pipeline.begin(&state, &settings, "one.apk").unwrap();
    assert_eq!(pipeline.begin(&state, &settings, "two.apk"), Err(InstallError::Busy));
    assert_eq!(*pipeline.stage(), InstallStage::Pushing);
    assert_eq!(pipeline.progress(), 30);
    pipeline.push_finished(&settings, Ok(String::new())).unwrap();
    assert_eq!(pipeline.begin(&state, &settings, "two.apk"), Err(InstallError::Busy));
    assert_eq!(*pipeline.stage(), InstallStage::Installing);
    assert_eq!(pipeline.progress(), 60);
    assert!(pipeline.is_active());
}

#[test]
fn install_needs_artifact_and_allows_new_job_after_end() {
    let settings = AdbStudioSettings::default();
    let state = registry_with("A1");
    let mut pipeline = InstallPipeline::new();
    assert_eq!(pipeline.begin(&state, &settings, ""), Err(InstallError::NoArtifact));
    pipeline.begin(&state, &settings, "a.apk").unwrap();
    pipeline.push_finished(&settings, Err(CommandError::CommandFailure("x".to_string())));
    assert!(!pipeline.is_active());
    assert!(pipeline.begin(&state, &settings, "a.apk").is_ok());
}

#[test]
fn uninstall_then_refresh() {
    let settings = AdbStudioSettings::default();
    let state = registry_with("B2");
    let refresh = uninstall_finished(&state, &settings, Ok("Success".to_string())).unwrap();
    assert_eq!(refresh.args, vec!["-s", "B2", "shell", "pm list packages"]);
    let err = CommandError::CommandFailure("Failure [DELETE_FAILED_INTERNAL_ERROR]".to_string());
    assert_eq!(uninstall_finished(&state, &settings, Err(err.clone())), Err(err));
}
