//! The bridge tool's command lines, one per device action, and how a finished run is read.
use vstd::prelude::*;
use crate::text::{contains, contains_text, views};

verus! {

/// What the library needs of the user's settings.
#[derive(Debug, Clone)]
pub struct AdbStudioSettings {
    /// Path of the bridge tool; empty means "find `adb` on the search path".
    pub adb_path: String,
    pub dark_mode: bool,
}

impl Default for AdbStudioSettings {
    fn default() -> (r: AdbStudioSettings)
        ensures
            r.adb_path@ == Seq::<char>::empty(),
            !r.dark_mode,
    {
        AdbStudioSettings { adb_path: String::new(), dark_mode: false }
    }
}

/// One run of the bridge tool: the program and its arguments.
#[derive(Debug, Clone, PartialEq, Eq)]
pub struct Invocation {
    pub program: String,
    pub args: Vec<String>,
}

pub struct InvocationView {
    pub program: Seq<char>,
    pub args: Seq<Seq<char>>,
}

impl View for Invocation {
    type V = InvocationView;

    open spec fn view(&self) -> InvocationView {
        InvocationView { program: self.program@, args: views(self.args@) }
    }
}

/// What a run of the tool that could be started left behind.
#[derive(Debug, Clone, PartialEq, Eq)]
pub struct CommandResult {
    /// The tool exited with status zero.
    pub ok: bool,
    pub stdout: String,
    pub stderr: String,
}

/// Why a requested device action did not give a result.
#[derive(Debug, Clone, PartialEq, Eq)]
pub enum CommandError {
    /// The tool could not be started at all.
    LaunchFailure(String),
    /// The tool ran and exited with a non-zero status; the text is its error output.
    CommandFailure(String),
    /// No device is selected, or the selected one is no longer listed.
    SelectionStale,
}

pub open spec fn no_device_text() -> Seq<char> {
    "No device selected."@
}

/// The text that a failure carries: the tool's own words, verbatim.
pub open spec fn error_text(e: CommandError) -> Seq<char> {
    match e {
        CommandError::LaunchFailure(m) => m@,
        CommandError::CommandFailure(m) => m@,
        CommandError::SelectionStale => no_device_text(),
    }
}

impl CommandError {
    pub fn message(&self) -> (r: String)
        ensures
            r@ == error_text(*self),
    {
        match self {
            CommandError::LaunchFailure(m) => m.clone(),
            CommandError::CommandFailure(m) => m.clone(),
            CommandError::SelectionStale => String::from_str("No device selected."),
        }
    }
}

/// The outcome of a run: its standard output when it exited with status zero.
pub open spec fn outcome_of(run: Result<CommandResult, String>) -> Result<Seq<char>, CommandError> {
    match run {
        Err(m) => Err(CommandError::LaunchFailure(m)),
        Ok(r) => if r.ok {
            Ok(r.stdout@)
        } else {
            Err(CommandError::CommandFailure(r.stderr))
        },
    }
}

/// Reads a run of the tool: `Err` of the launch error when it could not start, the error
/// output when it exited with a non-zero status, else the standard output.
pub fn command_outcome(run: Result<CommandResult, String>) -> (r: Result<String, CommandError>)
    ensures
        match (r, outcome_of(run)) {
            (Ok(out), Ok(expected)) => out@ == expected,
            (Err(e), Err(expected)) => e == expected,
            _ => false,
        },
{
    match run {
        Err(m) => Err(CommandError::LaunchFailure(m)),
        Ok(res) => {
            if res.ok {
                Ok(res.stdout)
            } else {
                Err(CommandError::CommandFailure(res.stderr))
            }
        },
    }
}

/// The program to start: the configured path, or `adb` when none is set.
pub open spec fn program_for(adb_path: Seq<char>) -> Seq<char> {
    if adb_path.len() == 0 {
        "adb"@
    } else {
        adb_path
    }
}

pub fn adb_program(settings: &AdbStudioSettings) -> (r: String)
    ensures
        r@ == program_for(settings.adb_path@),
{
    if settings.adb_path.as_str().is_empty() {
        String::from_str("adb")
    } else {
        settings.adb_path.clone()
    }
}

fn push_arg(args: &mut Vec<String>, a: &str)
    ensures
        views(final(args)@) == views(old(args)@).push(a@),
{
    args.push(String::from_str(a));
    assert(views(args@) =~= views(old(args)@).push(a@));
}

/// The arguments `-s <serial> <sub>` that aim the subcommand `sub` at one device.
fn targeted(serial: &str, sub: &str) -> (r: Vec<String>)
    ensures
        views(r@) == seq!["-s"@, serial@, sub@],
{
    let mut r: Vec<String> = Vec::new();
    push_arg(&mut r, "-s");
    push_arg(&mut r, serial);
    push_arg(&mut r, sub);
    assert(views(r@) =~= seq!["-s"@, serial@, sub@]);
    r
}

fn invocation(settings: &AdbStudioSettings, args: Vec<String>) -> (r: Invocation)
    ensures
        r@.program == program_for(settings.adb_path@),
        r.args == args,
{
    Invocation { program: adb_program(settings), args }
}

/// `devices`: the listing of attached devices.
pub fn adb_devices(settings: &AdbStudioSettings) -> (r: Invocation)
    ensures
        r@ == (InvocationView { program: program_for(settings.adb_path@), args: seq!["devices"@] }),
{
    let mut args: Vec<String> = Vec::new();
    push_arg(&mut args, "devices");
    assert(views(args@) =~= seq!["devices"@]);
    invocation(settings, args)
}

/// `-s <serial> reboot`.
pub fn adb_reboot(settings: &AdbStudioSettings, serial: &str) -> (r: Invocation)
    ensures
        r@ == (InvocationView {
            program: program_for(settings.adb_path@),
            args: seq!["-s"@, serial@, "reboot"@],
        }),
{
    invocation(settings, targeted(serial, "reboot"))
}

/// `-s <serial> reboot recovery`.
pub fn adb_reboot_recovery(settings: &AdbStudioSettings, serial: &str) -> (r: Invocation)
    ensures
        r@ == (InvocationView {
            program: program_for(settings.adb_path@),
            args: seq!["-s"@, serial@, "reboot"@, "recovery"@],
        }),
{
    let mut args = targeted(serial, "reboot");
    push_arg(&mut args, "recovery");
    assert(views(args@) =~= seq!["-s"@, serial@, "reboot"@, "recovery"@]);
    invocation(settings, args)
}

/// `-s <serial> reboot bootloader`.
pub fn adb_reboot_bootloader(settings: &AdbStudioSettings, serial: &str) -> (r: Invocation)
    ensures
        r@ == (InvocationView {
            program: program_for(settings.adb_path@),
            args: seq!["-s"@, serial@, "reboot"@, "bootloader"@],
        }),
{
    let mut args = targeted(serial, "reboot");
    push_arg(&mut args, "bootloader");
    assert(views(args@) =~= seq!["-s"@, serial@, "reboot"@, "bootloader"@]);
    invocation(settings, args)
}

/// `disconnect <serial>`.
pub fn adb_disconnect(settings: &AdbStudioSettings, serial: &str) -> (r: Invocation)
    ensures
        r@ == (InvocationView {
            program: program_for(settings.adb_path@),
            args: seq!["disconnect"@, serial@],
        }),
{
    let mut args: Vec<String> = Vec::new();
    push_arg(&mut args, "disconnect");
    push_arg(&mut args, serial);
    assert(views(args@) =~= seq!["disconnect"@, serial@]);
    invocation(settings, args)
}

/// `-s <serial> shell <command>`: one shell command line on the device.
pub fn adb_shell(settings: &AdbStudioSettings, serial: &str, command: &str) -> (r: Invocation)
    ensures
        r@ == (InvocationView {
            program: program_for(settings.adb_path@),
            args: seq!["-s"@, serial@, "shell"@, command@],
        }),
{
    let mut args = targeted(serial, "shell");
    push_arg(&mut args, command);
    assert(views(args@) =~= seq!["-s"@, serial@, "shell"@, command@]);
    invocation(settings, args)
}

fn transfer(settings: &AdbStudioSettings, serial: &str, sub: &str, from: &str, to: &str) -> (r:
    Invocation)
    ensures
        r@ == (InvocationView {
            program: program_for(settings.adb_path@),
            args: seq!["-s"@, serial@, sub@, from@, to@],
        }),
{
    let mut args = targeted(serial, sub);
    push_arg(&mut args, from);
    push_arg(&mut args, to);
    assert(views(args@) =~= seq!["-s"@, serial@, sub@, from@, to@]);
    invocation(settings, args)
}

/// `-s <serial> push <from> <to>`: a local file onto the device.
pub fn adb_push(settings: &AdbStudioSettings, serial: &str, from: &str, to: &str) -> (r: Invocation)
    ensures
        r@ == (InvocationView {
            program: program_for(settings.adb_path@),
            args: seq!["-s"@, serial@, "push"@, from@, to@],
        }),
{
    transfer(settings, serial, "push", from, to)
}

/// `-s <serial> pull <from> <to>`: a file of the device into a local place.
pub fn adb_pull(settings: &AdbStudioSettings, serial: &str, from: &str, to: &str) -> (r: Invocation)
    ensures
        r@ == (InvocationView {
            program: program_for(settings.adb_path@),
            args: seq!["-s"@, serial@, "pull"@, from@, to@],
        }),
{
    transfer(settings, serial, "pull", from, to)
}

/// `-s <serial> install <apk_path>`.
pub fn adb_install(settings: &AdbStudioSettings, serial: &str, apk_path: &str) -> (r: Invocation)
    ensures
        r@ == (InvocationView {
            program: program_for(settings.adb_path@),
            args: seq!["-s"@, serial@, "install"@, apk_path@],
        }),
{
    let mut args = targeted(serial, "install");
    push_arg(&mut args, apk_path);
    assert(views(args@) =~= seq!["-s"@, serial@, "install"@, apk_path@]);
    invocation(settings, args)
}

/// `-s <serial> uninstall <package_name>`.
pub fn adb_uninstall(settings: &AdbStudioSettings, serial: &str, package_name: &str) -> (r:
    Invocation)
    ensures
        r@ == (InvocationView {
            program: program_for(settings.adb_path@),
            args: seq!["-s"@, serial@, "uninstall"@, package_name@],
        }),
{
    let mut args = targeted(serial, "uninstall");
    push_arg(&mut args, package_name);
    assert(views(args@) =~= seq!["-s"@, serial@, "uninstall"@, package_name@]);
    invocation(settings, args)
}

/// `-s <serial> shell "pm list packages"`: one `package:<name>` line per package.
pub fn adb_list_packages(settings: &AdbStudioSettings, serial: &str) -> (r: Invocation)
    ensures
        r@ == (InvocationView {
            program: program_for(settings.adb_path@),
            args: seq!["-s"@, serial@, "shell"@, "pm list packages"@],
        }),
{
    adb_shell(settings, serial, "pm list packages")
}

/// `-s <serial> exec-out "screencap -p"`: the screen as raw image bytes on standard output.
pub fn adb_screenshot(settings: &AdbStudioSettings, serial: &str) -> (r: Invocation)
    ensures
        r@ == (InvocationView {
            program: program_for(settings.adb_path@),
            args: seq!["-s"@, serial@, "exec-out"@, "screencap -p"@],
        }),
{
    let mut args = targeted(serial, "exec-out");
    push_arg(&mut args, "screencap -p");
    assert(views(args@) =~= seq!["-s"@, serial@, "exec-out"@, "screencap -p"@]);
    invocation(settings, args)
}

/// The report of a screenshot written to `path`.
pub fn screenshot_saved(path: &str) -> (r: String)
    ensures
        r@ == "Screenshot saved to "@ + path@,
{
    String::from_str("Screenshot saved to ").concat(path)
}

/// `-s <serial> shell "screenrecord <path>"`: started, not waited for.
pub fn adb_start_screenrecord(settings: &AdbStudioSettings, serial: &str, path: &str) -> (r:
    Invocation)
    ensures
        r@ == (InvocationView {
            program: program_for(settings.adb_path@),
            args: seq!["-s"@, serial@, "shell"@, "screenrecord "@ + path@],
        }),
{
    let command = String::from_str("screenrecord ").concat(path);
    adb_shell(settings, serial, command.as_str())
}

/// `-s <serial> shell "pkill -INT screenrecord"`: interrupts the device's recorder.
pub fn adb_stop_screenrecord(settings: &AdbStudioSettings, serial: &str) -> (r: Invocation)
    ensures
        r@ == (InvocationView {
            program: program_for(settings.adb_path@),
            args: seq!["-s"@, serial@, "shell"@, "pkill -INT screenrecord"@],
        }),
{
    adb_shell(settings, serial, "pkill -INT screenrecord")
}

/// `logcat`: the device log, streamed until the process is stopped.
pub fn adb_logcat(settings: &AdbStudioSettings) -> (r: Invocation)
    ensures
        r@ == (InvocationView { program: program_for(settings.adb_path@), args: seq!["logcat"@] }),
{
    let mut args: Vec<String> = Vec::new();
    push_arg(&mut args, "logcat");
    assert(views(args@) =~= seq!["logcat"@]);
    invocation(settings, args)
}

/// Where the Android SDK keeps the bridge tool under the home directory `home`.
pub open spec fn sdk_tools_dir(home: Seq<char>) -> Seq<char> {
    home + "/Library/Android/sdk/platform-tools"@
}

/// The search-path entry that adds `dir`, unless `current` already mentions it.
pub open spec fn path_entry(current: Seq<char>, dir: Seq<char>) -> Seq<char> {
    if contains(current, dir) {
        seq![]
    } else {
        dir + ":"@
    }
}

/// The usual install places of the bridge tool are all mentioned in `current`.
pub open spec fn path_complete(current: Seq<char>, home: Seq<char>) -> bool {
    contains(current, "/usr/local/bin"@) && contains(current, "/opt/homebrew/bin"@) && contains(
        current,
        sdk_tools_dir(home),
    )
}

fn add_entry(prefix: &mut String, current: &str, dir: &str)
    ensures
        final(prefix)@ == old(prefix)@ + path_entry(current@, dir@),
{
    if !contains_text(current, dir) {
        prefix.append(dir);
        prefix.append(":");
        assert(final(prefix)@ =~= old(prefix)@ + (dir@ + ":"@));
    } else {
        assert(prefix@ =~= old(prefix)@ + Seq::<char>::empty());
    }
}

/// The search path `current`, with the usual install places of the bridge tool that it
/// does not mention put in front, each followed by a colon; `None` when it mentions them
/// all. `home` is the user's home directory.
pub fn extended_search_path(current: &str, home: &str) -> (r: Option<String>)
    ensures
        match r {
            None => path_complete(current@, home@),
            Some(p) => !path_complete(current@, home@) && p@ == path_entry(
                current@,
                "/usr/local/bin"@,
            ) + path_entry(current@, "/opt/homebrew/bin"@) + path_entry(
                current@,
                sdk_tools_dir(home@),
            ) + current@,
        },
{
    let sdk = String::from_str(home).concat("/Library/Android/sdk/platform-tools");
    let mut prefix = String::new();
    add_entry(&mut prefix, current, "/usr/local/bin");
    add_entry(&mut prefix, current, "/opt/homebrew/bin");
    add_entry(&mut prefix, current, sdk.as_str());
    if prefix.as_str().is_empty() {
        proof {
            reveal_strlit(":");
        }
        None
    } else {
        prefix.append(current);
        Some(prefix)
    }
}

} // verus!
