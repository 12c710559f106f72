//! The job executor: a state machine that drives one job through validation,
//! device verification, formatting and (for `Create`) image writing. The caller
//! performs each `Command` it returns and reports back an `Outcome`; every step
//! hands out the progress events to deliver, in order.

use vstd::prelude::*;
use crate::device::{opt_view, verification, verification_error_text, verify_device, DeviceInfo, DeviceView};
use crate::job::{validate, validation, validation_error_text, Action, Job, JobView};
use crate::text::{decimal_digits, decimal_text};

verus! {

/// The stage that a progress event belongs to.
#[derive(Debug, Clone, Copy, PartialEq, Eq, Structural)]
pub enum Operation {
    Validation,
    DeviceVerification,
    Formatting,
    IsoWriting,
    Verification,
    Complete,
}

pub open spec fn operation_label(op: Operation) -> Seq<char> {
    match op {
        Operation::Validation => "validation"@,
        Operation::DeviceVerification => "device verification"@,
        Operation::Formatting => "formatting"@,
        Operation::IsoWriting => "iso writing"@,
        Operation::Verification => "verification"@,
        Operation::Complete => "complete"@,
    }
}

impl Operation {
    /// The short tag sent with each event.
    pub fn label(&self) -> (r: String)
        ensures
            r@ == operation_label(*self),
    {
        match self {
            Operation::Validation => String::from_str("validation"),
            Operation::DeviceVerification => String::from_str("device verification"),
            Operation::Formatting => String::from_str("formatting"),
            Operation::IsoWriting => String::from_str("iso writing"),
            Operation::Verification => String::from_str("verification"),
            Operation::Complete => String::from_str("complete"),
        }
    }
}

/// One progress report to the controller. `progress == 0` marks a terminal failure.
#[derive(Debug, Clone)]
pub struct ProgressEvent {
    pub status: String,
    pub progress: u8,
    pub operation: Operation,
}

pub struct EventView {
    pub status: Seq<char>,
    pub progress: u8,
    pub operation: Operation,
}

impl View for ProgressEvent {
    type V = EventView;

    open spec fn view(&self) -> EventView {
        EventView { status: self.status@, progress: self.progress, operation: self.operation }
    }
}

pub open spec fn events_view(evs: Seq<ProgressEvent>) -> Seq<EventView> {
    evs.map_values(|e: ProgressEvent| e@)
}

/// What the platform reported for a format or write operation.
#[derive(Debug, Clone)]
pub enum AdapterReport {
    Success,
    /// The operation ran and failed; the tool's diagnostic text.
    Failure(String),
    /// The operation could not be started.
    Unavailable,
}

/// What a check of the disk image found.
#[derive(Debug, Clone, Copy, PartialEq, Eq, Structural)]
pub enum ImageStatus {
    Ready,
    Missing,
    Unreadable,
}

/// A sample of the running image write.
#[derive(Debug, Clone)]
pub enum WriteStatus {
    /// Still running after one more pacing interval.
    Running,
    Finished(AdapterReport),
}

/// What the caller observed while performing the last command.
#[derive(Debug, Clone)]
pub enum Outcome {
    /// Whether the device path exists.
    DeviceChecked(bool),
    /// Whether the device exists and the platform's report on it (`None` if the query failed).
    Inspected { exists: bool, report: Option<String> },
    Formatted(AdapterReport),
    ImageChecked(ImageStatus),
    Write(WriteStatus),
    /// The settling delay after the write has passed.
    Settled,
}

/// Where a job stands. `Complete` and `Failed` are terminal.
#[derive(Debug, Clone, Copy, PartialEq, Eq, Structural)]
pub enum Stage {
    Validated,
    Inspecting,
    Verified,
    Formatted,
    ImageReady,
    Writing,
    ImageWritten,
    Complete,
    Failed,
}

/// What the caller must do next.
#[derive(Debug, Clone)]
pub enum Command {
    CheckDevice { device: String },
    InspectDevice { device: String },
    Format { device: String, filesystem: String },
    CheckImage { image: String },
    WriteImage { image: String, device: String },
    /// Wait one pacing interval, then sample the running write.
    AwaitWrite,
    /// Wait the settling delay.
    Settle,
    /// The job is over: nothing more to do.
    Finish,
}

pub enum CommandView {
    CheckDevice { device: Seq<char> },
    InspectDevice { device: Seq<char> },
    Format { device: Seq<char>, filesystem: Seq<char> },
    CheckImage { image: Seq<char> },
    WriteImage { image: Seq<char>, device: Seq<char> },
    AwaitWrite,
    Settle,
    Finish,
}

impl View for Command {
    type V = CommandView;

    open spec fn view(&self) -> CommandView {
        match self {
            Command::CheckDevice { device } => CommandView::CheckDevice { device: device@ },
            Command::InspectDevice { device } => CommandView::InspectDevice { device: device@ },
            Command::Format { device, filesystem } => CommandView::Format {
                device: device@,
                filesystem: filesystem@,
            },
            Command::CheckImage { image } => CommandView::CheckImage { image: image@ },
            Command::WriteImage { image, device } => CommandView::WriteImage {
                image: image@,
                device: device@,
            },
            Command::AwaitWrite => CommandView::AwaitWrite,
            Command::Settle => CommandView::Settle,
            Command::Finish => CommandView::Finish,
        }
    }
}

/// The events of one step and the command that follows it.
#[derive(Debug)]
pub struct Step {
    pub events: Vec<ProgressEvent>,
    pub command: Command,
}

/// One job in flight.
#[derive(Debug)]
pub struct Executor {
    pub job: Job,
    pub stage: Stage,
    /// Progress of the last event emitted other than a failure (0 before any).
    pub progress: u8,
    /// The last device inspection, once made.
    pub inspection: Option<DeviceInfo>,
}

pub struct ExecView {
    pub job: JobView,
    pub stage: Stage,
    pub progress: u8,
    pub inspection: Option<DeviceView>,
}

impl View for Executor {
    type V = ExecView;

    open spec fn view(&self) -> ExecView {
        ExecView {
            job: self.job@,
            stage: self.stage,
            progress: self.progress,
            inspection: match self.inspection {
                Some(d) => Some(d@),
                None => None,
            },
        }
    }
}

pub open spec fn event(status: Seq<char>, progress: u8, operation: Operation) -> EventView {
    EventView { status, progress, operation }
}

/// Ends the job with a single failure event.
pub open spec fn fail(v: ExecView, status: Seq<char>, operation: Operation) -> (ExecView, Seq<EventView>) {
    (ExecView { stage: Stage::Failed, ..v }, seq![event(status, 0, operation)])
}

/// Moves to `stage`, reporting `progress`.
pub open spec fn go(v: ExecView, stage: Stage, status: Seq<char>, progress: u8, operation: Operation) -> (
    ExecView,
    Seq<EventView>,
) {
    (ExecView { stage, progress, ..v }, seq![event(status, progress, operation)])
}

pub open spec fn completed_text() -> Seq<char> {
    "Operation completed successfully!"@
}

pub open spec fn mounted_text() -> Seq<char> {
    "Error: Device is currently mounted. Please unmount first."@
}

/// The progress shown after one more pacing interval of a running write.
pub open spec fn tick(p: u8) -> u8 {
    if p + 5 < 95 {
        (p + 5) as u8
    } else {
        95
    }
}

/// The state right after a job is submitted, and the events that submission emits.
pub open spec fn start(j: JobView) -> (ExecView, Seq<EventView>) {
    let v = ExecView { job: j, stage: Stage::Validated, progress: 0, inspection: None };
    match validation(j) {
        Err(e) => fail(v, validation_error_text(e), Operation::Validation),
        Ok(_) => (v, seq![]),
    }
}

/// How a format report moves a verified job on.
pub open spec fn after_format(v: ExecView, rep: AdapterReport) -> (ExecView, Seq<EventView>) {
    match rep {
        AdapterReport::Success => if v.job.action == Action::Create {
            go(v, Stage::Formatted, "Writing ISO to device..."@, 50, Operation::IsoWriting)
        } else {
            go(v, Stage::Complete, completed_text(), 100, Operation::Complete)
        },
        AdapterReport::Failure(d) => fail(v, "Format failed: "@ + d@, Operation::Formatting),
        AdapterReport::Unavailable => fail(
            v,
            "Format failed: Unable to execute format command"@,
            Operation::Formatting,
        ),
    }
}

/// How a sample of the image write moves the job on.
pub open spec fn after_write(v: ExecView, w: WriteStatus) -> (ExecView, Seq<EventView>) {
    match w {
        WriteStatus::Running => {
            let p = tick(v.progress);
            go(
                v,
                Stage::Writing,
                "Writing ISO... "@ + decimal_digits(p as nat) + "%"@,
                p,
                Operation::IsoWriting,
            )
        },
        WriteStatus::Finished(AdapterReport::Success) => go(
            v,
            Stage::ImageWritten,
            "Verifying write operation..."@,
            95,
            Operation::Verification,
        ),
        WriteStatus::Finished(AdapterReport::Failure(d)) => fail(
            v,
            "ISO write failed: "@ + d@,
            Operation::IsoWriting,
        ),
        WriteStatus::Finished(AdapterReport::Unavailable) => fail(
            v,
            "Error: Failed to start ISO write process"@,
            Operation::IsoWriting,
        ),
    }
}

/// The transition taken on outcome `o`, with the events it emits. An outcome
/// that does not answer the stage's command changes nothing.
pub open spec fn next(v: ExecView, o: Outcome) -> (ExecView, Seq<EventView>) {
    match (v.stage, o) {
        (Stage::Validated, Outcome::DeviceChecked(exists)) => if exists {
            go(v, Stage::Inspecting, "Verifying device..."@, 5, Operation::DeviceVerification)
        } else {
            fail(v, "Error: Device "@ + v.job.device + " not found"@, Operation::Validation)
        },
        (Stage::Inspecting, Outcome::Inspected { exists, report }) => match verification(
            v.job.device,
            exists,
            opt_view(report),
        ) {
            Err(e) => fail(
                v,
                "Device verification failed: "@ + verification_error_text(e),
                Operation::Verification,
            ),
            Ok(d) => {
                let w = ExecView { inspection: Some(d), ..v };
                if d.is_mounted {
                    fail(w, mounted_text(), Operation::Verification)
                } else {
                    go(w, Stage::Verified, "Formatting device..."@, 10, Operation::Formatting)
                }
            },
        },
        (Stage::Verified, Outcome::Formatted(rep)) => after_format(v, rep),
        (Stage::Formatted, Outcome::ImageChecked(st)) => match st {
            ImageStatus::Ready => (ExecView { stage: Stage::ImageReady, ..v }, seq![]),
            ImageStatus::Missing => fail(v, "Error: ISO file not found"@, Operation::IsoWriting),
            ImageStatus::Unreadable => fail(v, "Error: Cannot read ISO file"@, Operation::IsoWriting),
        },
        (Stage::ImageReady, Outcome::Write(w)) => after_write(v, w),
        (Stage::Writing, Outcome::Write(w)) => after_write(v, w),
        (Stage::ImageWritten, Outcome::Settled) => go(
            v,
            Stage::Complete,
            completed_text(),
            100,
            Operation::Complete,
        ),
        _ => (v, seq![]),
    }
}

/// The command that a state asks the caller to perform.
pub open spec fn command_of(v: ExecView) -> CommandView {
    match v.stage {
        Stage::Validated => CommandView::CheckDevice { device: v.job.device },
        Stage::Inspecting => CommandView::InspectDevice { device: v.job.device },
        Stage::Verified => CommandView::Format { device: v.job.device, filesystem: v.job.filesystem },
        Stage::Formatted => CommandView::CheckImage { image: v.job.image->Some_0 },
        Stage::ImageReady => CommandView::WriteImage { image: v.job.image->Some_0, device: v.job.device },
        Stage::Writing => CommandView::AwaitWrite,
        Stage::ImageWritten => CommandView::Settle,
        Stage::Complete => CommandView::Finish,
        Stage::Failed => CommandView::Finish,
    }
}

/// Whether a stage lies after the device was found unmounted.
pub open spec fn past_verification(s: Stage) -> bool {
    s == Stage::Verified || s == Stage::Formatted || s == Stage::ImageReady || s == Stage::Writing
        || s == Stage::ImageWritten || s == Stage::Complete
}

/// Whether a stage belongs to the image-writing part of a `Create` job.
pub open spec fn writing_stage(s: Stage) -> bool {
    s == Stage::Formatted || s == Stage::ImageReady || s == Stage::Writing || s == Stage::ImageWritten
}

impl ExecView {
    /// What holds of every state that a job can reach.
    pub open spec fn inv(self) -> bool {
        &&& (self.stage != Stage::Failed ==> validation(self.job) is Ok)
        &&& (writing_stage(self.stage) ==> self.job.action == Action::Create && self.job.image is Some)
        &&& (past_verification(self.stage) ==> (self.inspection matches Some(d) && !d.is_mounted))
        &&& (self.inspection matches Some(d) ==> d.wf())
        &&& (self.stage == Stage::Validated ==> self.progress == 0)
        &&& (self.stage == Stage::Inspecting ==> self.progress == 5)
        &&& (self.stage == Stage::Verified ==> self.progress == 10)
        &&& (self.stage == Stage::Formatted ==> self.progress == 50)
        &&& (self.stage == Stage::ImageReady ==> self.progress == 50)
        &&& (self.stage == Stage::Writing ==> 50 <= self.progress <= 95)
        &&& (self.stage == Stage::ImageWritten ==> self.progress == 95)
        &&& (self.stage == Stage::Complete ==> self.progress == 100)
    }
}

impl Executor {
    /// The command that the current stage asks for.
    pub fn command(&self) -> (r: Command)
        requires
            self@.inv(),
        ensures
            r@ == command_of(self@),
    {
        match self.stage {
            Stage::Validated => Command::CheckDevice { device: self.job.device.clone() },
            Stage::Inspecting => Command::InspectDevice { device: self.job.device.clone() },
            Stage::Verified => Command::Format {
                device: self.job.device.clone(),
                filesystem: self.job.filesystem.clone(),
            },
            Stage::Formatted => match &self.job.image {
                Some(image) => Command::CheckImage { image: image.clone() },
                None => Command::Finish,
            },
            Stage::ImageReady => match &self.job.image {
                Some(image) => Command::WriteImage {
                    image: image.clone(),
                    device: self.job.device.clone(),
                },
                None => Command::Finish,
            },
            Stage::Writing => Command::AwaitWrite,
            Stage::ImageWritten => Command::Settle,
            Stage::Complete => Command::Finish,
            Stage::Failed => Command::Finish,
        }
    }

    fn fail_step(&mut self, status: String, operation: Operation) -> (s: Step)
        requires
            (ExecView { stage: Stage::Failed, ..old(self)@ }).inv(),
        ensures
            final(self)@ == fail(old(self)@, status@, operation).0,
            events_view(s.events@) == fail(old(self)@, status@, operation).1,
            final(self)@.inv(),
            s.command@ == command_of(final(self)@),
    {
        self.stage = Stage::Failed;
        let events = vec![ProgressEvent { status, progress: 0, operation }];
        assert(events_view(events@) =~= fail(old(self)@, status@, operation).1);
        Step { events, command: Command::Finish }
    }

    fn go_step(&mut self, stage: Stage, status: String, progress: u8, operation: Operation) -> (s: Step)
        requires
            (ExecView { stage, progress, ..old(self)@ }).inv(),
        ensures
            final(self)@ == go(old(self)@, stage, status@, progress, operation).0,
            events_view(s.events@) == go(old(self)@, stage, status@, progress, operation).1,
            final(self)@.inv(),
            s.command@ == command_of(final(self)@),
    {
        self.stage = stage;
        self.progress = progress;
        let events = vec![ProgressEvent { status, progress, operation }];
        assert(events_view(events@) =~= go(old(self)@, stage, status@, progress, operation).1);
        let command = self.command();
        Step { events, command }
    }

    fn quiet_step(&mut self) -> (s: Step)
        requires
            old(self)@.inv(),
        ensures
            final(self)@ == old(self)@,
            events_view(s.events@) == Seq::<EventView>::empty(),
            s.command@ == command_of(final(self)@),
    {
        let events: Vec<ProgressEvent> = Vec::new();
        assert(events_view(events@) =~= Seq::<EventView>::empty());
        let command = self.command();
        Step { events, command }
    }

    /// Submits `job`: validates it, and either rejects it with one failure event
    /// or asks for the device check.
    pub fn start(job: Job) -> (r: (Executor, Step))
        ensures
            r.0@ == start(job@).0,
            events_view(r.1.events@) == start(job@).1,
            r.0@.inv(),
            r.1.command@ == command_of(r.0@),
    {
        let mut ex = Executor { job, stage: Stage::Validated, progress: 0, inspection: None };
        match validate(&ex.job) {
            Err(e) => {
                let status = e.message();
                let step = ex.fail_step(status, Operation::Validation);
                (ex, step)
            },
            Ok(()) => {
                let step = ex.quiet_step();
                (ex, step)
            },
        }
    }

    /// Takes in the outcome of the last command and moves the job on.
    pub fn advance(&mut self, outcome: Outcome) -> (s: Step)
        requires
            old(self)@.inv(),
        ensures
            final(self)@ == next(old(self)@, outcome).0,
            events_view(s.events@) == next(old(self)@, outcome).1,
            final(self)@.inv(),
            s.command@ == command_of(final(self)@),
    {
        match (self.stage, outcome) {
            (Stage::Validated, Outcome::DeviceChecked(exists)) => {
                if exists {
                    self.go_step(
                        Stage::Inspecting,
                        String::from_str("Verifying device..."),
                        5,
                        Operation::DeviceVerification,
                    )
                } else {
                    let mut status = String::from_str("Error: Device ");
                    status.append(self.job.device.as_str());
                    status.append(" not found");
                    self.fail_step(status, Operation::Validation)
                }
            },
            (Stage::Inspecting, Outcome::Inspected { exists, report }) => {
                match verify_device(self.job.device.clone(), exists, report) {
                    Err(e) => {
                        let mut status = String::from_str("Device verification failed: ");
                        let reason = e.message();
                        status.append(reason.as_str());
                        self.fail_step(status, Operation::Verification)
                    },
                    Ok(d) => {
                        let mounted = d.is_mounted;
                        self.inspection = Some(d);
                        if mounted {
                            self.fail_step(
                                String::from_str(
                                    "Error: Device is currently mounted. Please unmount first.",
                                ),
                                Operation::Verification,
                            )
                        } else {
                            self.go_step(
                                Stage::Verified,
                                String::from_str("Formatting device..."),
                                10,
                                Operation::Formatting,
                            )
                        }
                    },
                }
            },
            (Stage::Verified, Outcome::Formatted(rep)) => match rep {
                AdapterReport::Success => {
                    if self.job.action == Action::Create {
                        self.go_step(
                            Stage::Formatted,
                            String::from_str("Writing ISO to device..."),
                            50,
                            Operation::IsoWriting,
                        )
                    } else {
                        self.go_step(
                            Stage::Complete,
                            String::from_str("Operation completed successfully!"),
                            100,
                            Operation::Complete,
                        )
                    }
                },
                AdapterReport::Failure(d) => {
                    let mut status = String::from_str("Format failed: ");
                    status.append(d.as_str());
                    self.fail_step(status, Operation::Formatting)
                },
                AdapterReport::Unavailable => self.fail_step(
                    String::from_str("Format failed: Unable to execute format command"),
                    Operation::Formatting,
                ),
            },
            (Stage::Formatted, Outcome::ImageChecked(st)) => match st {
                ImageStatus::Ready => {
                    self.stage = Stage::ImageReady;
                    self.quiet_step()
                },
                ImageStatus::Missing => self.fail_step(
                    String::from_str("Error: ISO file not found"),
                    Operation::IsoWriting,
                ),
                ImageStatus::Unreadable => self.fail_step(
                    String::from_str("Error: Cannot read ISO file"),
                    Operation::IsoWriting,
                ),
            },
            (Stage::ImageReady, Outcome::Write(w)) => self.write_step(w),
            (Stage::Writing, Outcome::Write(w)) => self.write_step(w),
            (Stage::ImageWritten, Outcome::Settled) => self.go_step(
                Stage::Complete,
                String::from_str("Operation completed successfully!"),
                100,
                Operation::Complete,
            ),
            _ => self.quiet_step(),
        }
    }

    fn write_step(&mut self, w: WriteStatus) -> (s: Step)
        requires
            old(self)@.inv(),
            old(self).stage == Stage::ImageReady || old(self).stage == Stage::Writing,
        ensures
            final(self)@ == after_write(old(self)@, w).0,
            events_view(s.events@) == after_write(old(self)@, w).1,
            final(self)@.inv(),
            s.command@ == command_of(final(self)@),
    {
        match w {
            WriteStatus::Running => {
                let p: u8 = if self.progress + 5 < 95 {
                    self.progress + 5
                } else {
                    95
                };
                let mut status = String::from_str("Writing ISO... ");
                let digits = decimal_text(p);
                status.append(digits.as_str());
                status.append("%");
                self.go_step(Stage::Writing, status, p, Operation::IsoWriting)
            },
            WriteStatus::Finished(AdapterReport::Success) => self.go_step(
                Stage::ImageWritten,
                String::from_str("Verifying write operation..."),
                95,
                Operation::Verification,
            ),
            WriteStatus::Finished(AdapterReport::Failure(d)) => {
                let mut status = String::from_str("ISO write failed: ");
                status.append(d.as_str());
                self.fail_step(status, Operation::IsoWriting)
            },
            WriteStatus::Finished(AdapterReport::Unavailable) => self.fail_step(
                String::from_str("Error: Failed to start ISO write process"),
                Operation::IsoWriting,
            ),
        }
    }
}

} // verus!
