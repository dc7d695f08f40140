//! The install pipeline: push the package file, install it on the device, then refresh the
//! package list. One job at a time; each stage reports a progress checkpoint.
use vstd::prelude::*;
use crate::adb::{
    adb_list_packages, adb_push, adb_shell, error_text, program_for, AdbStudioSettings,
    CommandError, Invocation, InvocationView,
};
use crate::packages::{package_names, parse_packages};
use crate::registry::{selection_valid, AppState};
use crate::text::{contains, contains_text, lines, views};

verus! {

/// Where the package file is staged on the device.
pub open spec fn staging_path() -> Seq<char> {
    "/data/local/tmp/temp.apk"@
}

/// The remote install-replace command for the staged file.
pub open spec fn install_command() -> Seq<char> {
    "pm install -r /data/local/tmp/temp.apk"@
}

/// The word by which the device's package manager reports a successful install.
pub open spec fn success_marker() -> Seq<char> {
    "Success"@
}

#[derive(Debug, Clone, PartialEq, Eq)]
pub enum InstallStage {
    Idle,
    Pushing,
    Installing,
    Verifying,
    Succeeded,
    /// Terminal for the job; the text is the raw reason.
    Failed(String),
}

/// The stages as values of the model; `Failed` carries its reason as characters.
pub enum StageView {
    Idle,
    Pushing,
    Installing,
    Verifying,
    Succeeded,
    Failed(Seq<char>),
}

impl View for InstallStage {
    type V = StageView;

    open spec fn view(&self) -> StageView {
        match self {
            InstallStage::Idle => StageView::Idle,
            InstallStage::Pushing => StageView::Pushing,
            InstallStage::Installing => StageView::Installing,
            InstallStage::Verifying => StageView::Verifying,
            InstallStage::Succeeded => StageView::Succeeded,
            InstallStage::Failed(m) => StageView::Failed(m@),
        }
    }
}

/// Why an install could not begin.
#[derive(Debug, Clone, Copy, PartialEq, Eq, Structural)]
pub enum InstallError {
    /// Another install is pushing, installing or verifying.
    Busy,
    /// No package file was named.
    NoArtifact,
    /// No device is selected, or the selected one is no longer listed.
    SelectionStale,
}

pub struct InstallView {
    pub stage: StageView,
    /// Percent shown to the user.
    pub progress: nat,
    /// The serial the job works on.
    pub device: Seq<char>,
}

/// A job is in flight.
pub open spec fn is_active(s: StageView) -> bool {
    s is Pushing || s is Installing || s is Verifying
}

/// The job that a begin on device `serial` starts.
pub open spec fn after_begin(serial: Seq<char>) -> InstallView {
    InstallView { stage: StageView::Pushing, progress: 30, device: serial }
}

/// The text of a tool outcome: its output, or the words of its failure.
pub open spec fn text_outcome(o: Result<String, CommandError>) -> Result<Seq<char>, Seq<char>> {
    match o {
        Ok(out) => Ok(out@),
        Err(e) => Err(error_text(e)),
    }
}

/// The push finished: on to installing, or failed with the tool's words.
pub open spec fn after_push(v: InstallView, o: Result<Seq<char>, Seq<char>>) -> InstallView {
    if v.stage is Pushing {
        match o {
            Ok(_) => InstallView { stage: StageView::Installing, progress: 60, device: v.device },
            Err(m) => InstallView { stage: StageView::Failed(m), progress: 0, device: v.device },
        }
    } else {
        v
    }
}

/// The remote install finished: its output holds the success marker, or the job fails
/// with that output (or with the tool's words when it did not run).
pub open spec fn after_install(v: InstallView, o: Result<Seq<char>, Seq<char>>) -> InstallView {
    if v.stage is Installing {
        match o {
            Ok(out) => if contains(out, success_marker()) {
                InstallView { stage: StageView::Verifying, progress: 100, device: v.device }
            } else {
                InstallView { stage: StageView::Failed(out), progress: 0, device: v.device }
            },
            Err(m) => InstallView { stage: StageView::Failed(m), progress: 0, device: v.device },
        }
    } else {
        v
    }
}

/// The package list was refreshed after the install: the job has succeeded.
pub open spec fn after_refresh(v: InstallView) -> InstallView {
    if v.stage is Verifying {
        InstallView { stage: StageView::Succeeded, progress: v.progress, device: v.device }
    } else {
        v
    }
}

/// The success was shown long enough: the progress goes back to zero.
pub open spec fn after_display(v: InstallView) -> InstallView {
    if v.stage is Succeeded {
        InstallView { stage: v.stage, progress: 0, device: v.device }
    } else {
        v
    }
}

/// The order of the stages of one job; `Failed` may follow any of them.
pub open spec fn stage_rank(s: StageView) -> nat {
    match s {
        StageView::Idle => 0,
        StageView::Pushing => 1,
        StageView::Installing => 2,
        StageView::Verifying => 3,
        StageView::Succeeded => 4,
        StageView::Failed(_) => 5,
    }
}

/// The install pipeline of the application.
pub struct InstallPipeline {
    stage: InstallStage,
    progress: u8,
    device: String,
}

impl View for InstallPipeline {
    type V = InstallView;

    closed spec fn view(&self) -> InstallView {
        InstallView { stage: self.stage@, progress: self.progress as nat, device: self.device@ }
    }
}

impl InstallPipeline {
    pub fn new() -> (r: InstallPipeline)
        ensures
            r@.stage == StageView::Idle,
            r@.progress == 0,
    {
        InstallPipeline { stage: InstallStage::Idle, progress: 0, device: String::new() }
    }

    pub fn progress(&self) -> (r: u8)
        ensures
            r as nat == self@.progress,
    {
        self.progress
    }

    pub fn stage(&self) -> (r: &InstallStage)
        ensures
            r@ == self@.stage,
    {
        &self.stage
    }

    pub fn is_active(&self) -> (r: bool)
        ensures
            r == is_active(self@.stage),
    {
        match self.stage {
            InstallStage::Pushing | InstallStage::Installing | InstallStage::Verifying => true,
            _ => false,
        }
    }

    /// Starts a job that installs the local file `artifact` on the selected device. It is
    /// refused, with nothing changed, while another job is in flight, when `artifact` is
    /// empty, or when the selection is not in the current snapshot. On success it returns the
    /// push of the file to the staging path.
    pub fn begin(&mut self, state: &AppState, settings: &AdbStudioSettings, artifact: &str) -> (r:
        Result<Invocation, InstallError>)
        ensures
            is_active(old(self)@.stage) ==> r == Err::<Invocation, InstallError>(
                InstallError::Busy,
            ),
            !is_active(old(self)@.stage) && artifact@.len() == 0 ==> r == Err::<
                Invocation,
                InstallError,
            >(InstallError::NoArtifact),
            !is_active(old(self)@.stage) && artifact@.len() > 0 && !selection_valid(state@) ==> r
                == Err::<Invocation, InstallError>(InstallError::SelectionStale),
            !is_active(old(self)@.stage) && artifact@.len() > 0 && selection_valid(state@) ==> r
                is Ok,
            r is Err ==> final(self)@ == old(self)@,
            r matches Ok(inv) ==> {
                &&& !is_active(old(self)@.stage) && artifact@.len() > 0 && selection_valid(state@)
                &&& final(self)@ == after_begin(state@.selected->0)
                &&& inv@ == (InvocationView {
                    program: program_for(settings.adb_path@),
                    args: seq!["-s"@, state@.selected->0, "push"@, artifact@, staging_path()],
                })
            },
    {
        if self.is_active() {
            return Err(InstallError::Busy);
        }
        if artifact.is_empty() {
            return Err(InstallError::NoArtifact);
        }
        let serial = match state.target() {
            Ok(s) => s,
            Err(_) => {
                return Err(InstallError::SelectionStale);
            },
        };
        let push = adb_push(settings, serial.as_str(), artifact, "/data/local/tmp/temp.apk");
        self.stage = InstallStage::Pushing;
        self.progress = 30;
        self.device = serial;
        Ok(push)
    }

    /// The push ended. On success the remote install is returned to be run; on failure
    /// the job fails with the tool's words and the progress is reset.
    pub fn push_finished(&mut self, settings: &AdbStudioSettings, outcome: Result<
        String,
        CommandError,
    >) -> (r: Option<Invocation>)
        ensures
            final(self)@ == after_push(old(self)@, text_outcome(outcome)),
            r is Some <==> final(self)@.stage is Installing && old(self)@.stage is Pushing,
            r matches Some(inv) ==> inv@ == (InvocationView {
                program: program_for(settings.adb_path@),
                args: seq!["-s"@, old(self)@.device, "shell"@, install_command()],
            }),
    {
        if !matches!(self.stage, InstallStage::Pushing) {
            return None;
        }
        match outcome {
            Ok(_) => {
                self.stage = InstallStage::Installing;
                self.progress = 60;
                Some(adb_shell(settings, self.device.as_str(), "pm install -r /data/local/tmp/temp.apk"))
            },
            Err(e) => {
                self.stage = InstallStage::Failed(e.message());
                self.progress = 0;
                None
            },
        }
    }

    /// The remote install ended. When its output holds the success marker the package-list
    /// refresh is returned to be run; otherwise the job fails with that output.
    pub fn install_finished(&mut self, settings: &AdbStudioSettings, outcome: Result<
        String,
        CommandError,
    >) -> (r: Option<Invocation>)
        ensures
            final(self)@ == after_install(old(self)@, text_outcome(outcome)),
            r is Some <==> final(self)@.stage is Verifying && old(self)@.stage is Installing,
            r matches Some(inv) ==> inv@ == (InvocationView {
                program: program_for(settings.adb_path@),
                args: seq!["-s"@, old(self)@.device, "shell"@, "pm list packages"@],
            }),
    {
        if !matches!(self.stage, InstallStage::Installing) {
            return None;
        }
        match outcome {
            Ok(out) => {
                proof {
                    reveal_strlit("Success");
                }
                if contains_text(out.as_str(), "Success") {
                    self.stage = InstallStage::Verifying;
                    self.progress = 100;
                    Some(adb_list_packages(settings, self.device.as_str()))
                } else {
                    self.stage = InstallStage::Failed(out);
                    self.progress = 0;
                    None
                }
            },
            Err(e) => {
                self.stage = InstallStage::Failed(e.message());
                self.progress = 0;
                None
            },
        }
    }

    /// The package list came back after a successful install: the job has succeeded, and
    /// the names that the listing held are returned.
    pub fn packages_refreshed(&mut self, outcome: Result<String, CommandError>) -> (r: Option<
        Vec<String>,
    >)
        ensures
            final(self)@ == after_refresh(old(self)@),
            r is Some <==> old(self)@.stage is Verifying && outcome is Ok,
            r matches Some(names) ==> views(names@) == package_names(lines(outcome->Ok_0@)),
    {
        if !matches!(self.stage, InstallStage::Verifying) {
            return None;
        }
        self.stage = InstallStage::Succeeded;
        match outcome {
            Ok(out) => Some(parse_packages(out.as_str())),
            Err(_) => None,
        }
    }

    /// The success message was shown for its delay.
    pub fn display_elapsed(&mut self)
        ensures
            final(self)@ == after_display(old(self)@),
    {
        if matches!(self.stage, InstallStage::Succeeded) {
            self.progress = 0;
        }
    }
}

/// An uninstall ended: on success the package list of the selected device is to be
/// refreshed, as after an install; a failure is handed back as it came.
pub fn uninstall_finished(state: &AppState, settings: &AdbStudioSettings, outcome: Result<
    String,
    CommandError,
>) -> (r: Result<Invocation, CommandError>)
    ensures
        outcome matches Err(e) ==> r == Err::<Invocation, CommandError>(e),
        outcome is Ok && !selection_valid(state@) ==> r == Err::<Invocation, CommandError>(
            CommandError::SelectionStale,
        ),
        outcome is Ok && selection_valid(state@) ==> (r matches Ok(inv) && inv@ == (InvocationView {
            program: program_for(settings.adb_path@),
            args: seq!["-s"@, state@.selected->0, "shell"@, "pm list packages"@],
        })),
{
    match outcome {
        Err(e) => Err(e),
        Ok(_) => match state.target() {
            Ok(serial) => Ok(adb_list_packages(settings, serial.as_str())),
            Err(e) => Err(e),
        },
    }
}

/// A job that has begun stays in flight until its install ends, so a second begin while
/// it is pushing or installing is refused and leaves the job as it was (see `begin`).
pub proof fn lemma_one_job_at_a_time(serial: Seq<char>, pushed: Result<Seq<char>, Seq<char>>)
    ensures
        is_active(after_begin(serial).stage),
        after_push(after_begin(serial), pushed).stage is Installing ==> is_active(
            after_push(after_begin(serial), pushed).stage,
        ),
{
}

/// Outside a new begin, a job never moves back to an earlier stage, and a failed job
/// stays failed.
pub proof fn lemma_stages_monotone(v: InstallView, o: Result<Seq<char>, Seq<char>>)
    ensures
        stage_rank(after_push(v, o).stage) >= stage_rank(v.stage),
        stage_rank(after_install(v, o).stage) >= stage_rank(v.stage),
        stage_rank(after_refresh(v).stage) >= stage_rank(v.stage),
        stage_rank(after_display(v).stage) == stage_rank(v.stage),
        v.stage is Failed ==> after_push(v, o) == v && after_install(v, o) == v && after_refresh(v)
            == v && after_display(v) == v,
{
}

/// A job whose push succeeds and whose remote install reports the success marker asks
/// for the package list, succeeds once it is back, and shows no progress after the delay.
pub proof fn lemma_install_succeeds(serial: Seq<char>, pushed: Seq<char>, installed: Seq<char>)
    requires
        contains(installed, success_marker()),
    ensures
        ({
            let pushed_job = after_push(after_begin(serial), Ok(pushed));
            let installed_job = after_install(pushed_job, Ok(installed));
            let done = after_refresh(installed_job);
            &&& pushed_job.stage is Installing
            &&& installed_job.stage is Verifying
            &&& done.stage is Succeeded
            &&& after_display(done).stage is Succeeded
            &&& after_display(done).progress == 0
        }),
{
}

/// A job whose push fails ends failed with the tool's words and no progress; later
/// reports change nothing, so no package-list refresh is asked for.
pub proof fn lemma_push_failure(
    serial: Seq<char>,
    reason: Seq<char>,
    installed: Result<Seq<char>, Seq<char>>,
)
    ensures
        ({
            let failed = after_push(after_begin(serial), Err(reason));
            &&& failed.stage == StageView::Failed(reason)
            &&& failed.progress == 0
            &&& after_install(failed, installed) == failed
            &&& after_refresh(failed) == failed
            &&& after_display(failed) == failed
        }),
{
}

} // verus!
