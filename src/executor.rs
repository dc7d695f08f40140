//! Single-shot device actions, aimed at the selected device after it is checked again.
use vstd::prelude::*;
use crate::adb::{
    adb_disconnect, adb_install, adb_list_packages, adb_pull, adb_push, adb_reboot,
    adb_reboot_bootloader, adb_reboot_recovery, adb_screenshot, adb_shell,
    adb_start_screenrecord, adb_stop_screenrecord, adb_uninstall, program_for,
    AdbStudioSettings, CommandError, Invocation, InvocationView,
};
use crate::registry::{selection_valid, AppState};

verus! {

/// One action the user can ask of the selected device.
#[derive(Debug, Clone)]
pub enum DeviceAction {
    Reboot,
    RebootRecovery,
    RebootBootloader,
    Disconnect,
    Shell(String),
    Push { from: String, to: String },
    Pull { from: String, to: String },
    Install(String),
    Uninstall(String),
    ListPackages,
    Screenshot,
    StartScreenRecord(String),
    StopScreenRecord,
}

/// The arguments that carry out `action` on the device `serial`.
pub open spec fn action_args(serial: Seq<char>, action: DeviceAction) -> Seq<Seq<char>> {
    match action {
        DeviceAction::Reboot => seq!["-s"@, serial, "reboot"@],
        DeviceAction::RebootRecovery => seq!["-s"@, serial, "reboot"@, "recovery"@],
        DeviceAction::RebootBootloader => seq!["-s"@, serial, "reboot"@, "bootloader"@],
        DeviceAction::Disconnect => seq!["disconnect"@, serial],
        DeviceAction::Shell(c) => seq!["-s"@, serial, "shell"@, c@],
        DeviceAction::Push { from, to } => seq!["-s"@, serial, "push"@, from@, to@],
        DeviceAction::Pull { from, to } => seq!["-s"@, serial, "pull"@, from@, to@],
        DeviceAction::Install(p) => seq!["-s"@, serial, "install"@, p@],
        DeviceAction::Uninstall(p) => seq!["-s"@, serial, "uninstall"@, p@],
        DeviceAction::ListPackages => seq!["-s"@, serial, "shell"@, "pm list packages"@],
        DeviceAction::Screenshot => seq!["-s"@, serial, "exec-out"@, "screencap -p"@],
        DeviceAction::StartScreenRecord(p) => seq![
            "-s"@,
            serial,
            "shell"@,
            "screenrecord "@ + p@,
        ],
        DeviceAction::StopScreenRecord => seq!["-s"@, serial, "shell"@, "pkill -INT screenrecord"@],
    }
}

/// The run of the tool that carries out `action` on the device `serial`.
pub fn action_invocation(settings: &AdbStudioSettings, serial: &str, action: &DeviceAction) -> (r:
    Invocation)
    ensures
        r@ == (InvocationView {
            program: program_for(settings.adb_path@),
            args: action_args(serial@, *action),
        }),
{
    match action {
        DeviceAction::Reboot => adb_reboot(settings, serial),
        DeviceAction::RebootRecovery => adb_reboot_recovery(settings, serial),
        DeviceAction::RebootBootloader => adb_reboot_bootloader(settings, serial),
        DeviceAction::Disconnect => adb_disconnect(settings, serial),
        DeviceAction::Shell(c) => adb_shell(settings, serial, c.as_str()),
        DeviceAction::Push { from, to } => adb_push(settings, serial, from.as_str(), to.as_str()),
        DeviceAction::Pull { from, to } => adb_pull(settings, serial, from.as_str(), to.as_str()),
        DeviceAction::Install(p) => adb_install(settings, serial, p.as_str()),
        DeviceAction::Uninstall(p) => adb_uninstall(settings, serial, p.as_str()),
        DeviceAction::ListPackages => adb_list_packages(settings, serial),
        DeviceAction::Screenshot => adb_screenshot(settings, serial),
        DeviceAction::StartScreenRecord(p) => adb_start_screenrecord(settings, serial, p.as_str()),
        DeviceAction::StopScreenRecord => adb_stop_screenrecord(settings, serial),
    }
}

/// Plans `action` for the selected device. When the selection is missing or no longer in
/// the snapshot the action fails fast with `SelectionStale` and nothing is to be run.
pub fn plan_command(state: &AppState, settings: &AdbStudioSettings, action: &DeviceAction) -> (r:
    Result<Invocation, CommandError>)
    ensures
        match r {
            Ok(inv) => selection_valid(state@) && inv@ == (InvocationView {
                program: program_for(settings.adb_path@),
                args: action_args(state@.selected->0, *action),
            }),
            Err(e) => !selection_valid(state@) && e is SelectionStale,
        },
{
    match state.target() {
        Ok(serial) => Ok(action_invocation(settings, serial.as_str(), action)),
        Err(e) => Err(e),
    }
}

} // verus!
