use webbboot_companion::executor::{
    AdapterReport, Command, Executor, ImageStatus, Operation, Outcome, ProgressEvent, Stage, Step,
    WriteStatus,
};
use webbboot_companion::job::{validate, Action, Job, ValidationError};

fn job(action: Action, image: Option<&str>, device: &str) -> Job {
    Job {
        action,
        image: image.map(|s| s.to_string()),
        filesystem: "FAT32".to_string(),
        scheme: "MBR".to_string(),
        device: device.to_string(),
    }
}

fn report(text: &str) -> Outcome {
    Outcome::Inspected { exists: true, report: Some(text.to_string()) }
}

fn progress(events: &[ProgressEvent]) -> Vec<u8> {
    events.iter().map(|e| e.progress).collect()
}

/// Feeds outcomes until the job finishes; returns every event and the last command.
fn drive(j: Job, outcomes: Vec<Outcome>) -> (Executor, Vec<ProgressEvent>, Command) {
    let (mut ex, step) = Executor::start(j);
    let mut events = step.events;
    let mut command = step.command;
    for o in outcomes {
        let Step { events: e, command: c } = ex.advance(o);
        events.extend(e);
        command = c;
    }
    (ex, events, command)
}

#[test]
fn validate_rejects_empty_device() {
    assert_eq!(validate(&job(Action::Format, None, "")), Err(ValidationError::EmptyDevice));
    assert_eq!(validate(&job(Action::Create, None, "")), Err(ValidationError::EmptyDevice));
    assert_eq!(validate(&job(Action::Format, None, " \t")), Err(ValidationError::EmptyDevice));
    assert_eq!(ValidationError::EmptyDevice.message(), "Error: No device selected");
    assert_eq!(ValidationError::MissingImage.message(), "Error: No ISO file specified");
}

#[test]
fn validate_rejects_create_without_image() {
    assert_eq!(validate(&job(Action::Create, None, "/dev/sdb")), Err(ValidationError::MissingImage));
    assert_eq!(validate(&job(Action::Create, Some("a.iso"), "/dev/sdb")), Ok(()));
    assert_eq!(validate(&job(Action::Format, None, "/dev/sdb")), Ok(()));
}

#[test]
fn empty_device_emits_one_failure_and_nothing_else() {
    let (ex, events, command) = drive(
        job(Action::Format, None, ""),
        vec![Outcome::DeviceChecked(true), report("100 vfat"), Outcome::Formatted(AdapterReport::Success)],
    );
    assert_eq!(progress(&events), vec![0]);
    assert_eq!(events[0].status, "Error: No device selected");
    assert_eq!(events[0].operation, Operation::Validation);
    assert!(matches!(command, Command::Finish));
    assert_eq!(ex.stage, Stage::Failed);
}

#[test]
fn create_without_image_fails_before_inspection() {
    let (ex, step) = Executor::start(job(Action::Create, None, "/dev/sdb"));
    assert_eq!(progress(&step.events), vec![0]);
    assert_eq!(step.events[0].status, "Error: No ISO file specified");
    assert!(matches!(step.command, Command::Finish));
    assert!(matches!(ex.command(), Command::Finish));
}

#[test]
fn missing_device_path_fails() {
    let (_, events, command) = drive(job(Action::Format, None, "/dev/sdz"), vec![Outcome::DeviceChecked(false)]);
    assert_eq!(progress(&events), vec![0]);
    assert_eq!(events[0].status, "Error: Device /dev/sdz not found");
    assert!(matches!(command, Command::Finish));
}

#[test]
fn mounted_device_is_never_formatted() {
    let (ex, events, command) = drive(
        job(Action::Format, None, "/dev/sdb"),
        vec![
            Outcome::DeviceChecked(true),
            report("8004304896 vfat /media/usb\n"),
            Outcome::Formatted(AdapterReport::Success),
        ],
    );
    assert_eq!(progress(&events), vec![5, 0]);
    assert_eq!(events[1].status, "Error: Device is currently mounted. Please unmount first.");
    assert_eq!(events[1].operation, Operation::Verification);
    assert!(matches!(command, Command::Finish));
    assert!(ex.inspection.unwrap().is_mounted);
}

#[test]
fn verification_failure_is_reported() {
    let (_, events, _) = drive(
        job(Action::Format, None, "/dev/sdb"),
        vec![Outcome::DeviceChecked(true), Outcome::Inspected { exists: true, report: None }],
    );
    assert_eq!(progress(&events), vec![5, 0]);
    assert_eq!(events[1].status, "Device verification failed: Unable to get device information");
    let (_, events, _) = drive(
        job(Action::Format, None, "/dev/sdb"),
        vec![Outcome::DeviceChecked(true), Outcome::Inspected { exists: false, report: None }],
    );
    assert_eq!(events[1].status, "Device verification failed: Device does not exist");
}

#[test]
fn format_only_job_succeeds() {
    let (ex, events, command) = drive(
        job(Action::Format, None, "/dev/sdb"),
        vec![Outcome::DeviceChecked(true), report("8004304896 vfat\n"), Outcome::Formatted(AdapterReport::Success)],
    );
    assert_eq!(progress(&events), vec![5, 10, 100]);
    assert_eq!(events[0].status, "Verifying device...");
    assert_eq!(events[0].operation, Operation::DeviceVerification);
    assert_eq!(events[1].status, "Formatting device...");
    assert_eq!(events[1].operation, Operation::Formatting);
    assert_eq!(events[2].status, "Operation completed successfully!");
    assert_eq!(events[2].operation, Operation::Complete);
    assert!(matches!(command, Command::Finish));
    assert_eq!(ex.stage, Stage::Complete);
}

#[test]
fn commands_carry_the_job_fields() {
    let (mut ex, step) = Executor::start(job(Action::Create, Some("/tmp/a.iso"), "/dev/sdb"));
    assert!(step.events.is_empty());
    assert!(matches!(&step.command, Command::CheckDevice { device } if device == "/dev/sdb"));
    let s = ex.advance(Outcome::DeviceChecked(true));
    assert!(matches!(&s.command, Command::InspectDevice { device } if device == "/dev/sdb"));
    let s = ex.advance(report("100"));
    assert!(
        matches!(&s.command, Command::Format { device, filesystem } if device == "/dev/sdb" && filesystem == "FAT32")
    );
    let s = ex.advance(Outcome::Formatted(AdapterReport::Success));
    assert!(matches!(&s.command, Command::CheckImage { image } if image == "/tmp/a.iso"));
    let s = ex.advance(Outcome::ImageChecked(ImageStatus::Ready));
    assert!(s.events.is_empty());
    assert!(
        matches!(&s.command, Command::WriteImage { image, device } if image == "/tmp/a.iso" && device == "/dev/sdb")
    );
    let s = ex.advance(Outcome::Write(WriteStatus::Running));
    assert!(matches!(s.command, Command::AwaitWrite));
    let s = ex.advance(Outcome::Write(WriteStatus::Finished(AdapterReport::Success)));
    assert!(matches!(s.command, Command::Settle));
    let s = ex.advance(Outcome::Settled);
    assert!(matches!(s.command, Command::Finish));
}

#[test]
fn create_job_succeeds_with_paced_progress() {
    let (_, events, command) = drive(
        job(Action::Create, Some("/tmp/a.iso"), "/dev/sdb"),
        vec![
            Outcome::DeviceChecked(true),
            report("8004304896"),
            Outcome::Formatted(AdapterReport::Success),
            Outcome::ImageChecked(ImageStatus::Ready),
            Outcome::Write(WriteStatus::Running),
            Outcome::Write(WriteStatus::Running),
            Outcome::Write(WriteStatus::Running),
            Outcome::Write(WriteStatus::Finished(AdapterReport::Success)),
            Outcome::Settled,
        ],
    );
    assert_eq!(progress(&events), vec![5, 10, 50, 55, 60, 65, 95, 100]);
    assert_eq!(events[2].status, "Writing ISO to device...");
    assert_eq!(events[3].status, "Writing ISO... 55%");
    assert_eq!(events[5].status, "Writing ISO... 65%");
    assert_eq!(events[6].status, "Verifying write operation...");
    assert_eq!(events[6].operation, Operation::Verification);
    assert_eq!(events[7].status, "Operation completed successfully!");
    assert!(matches!(command, Command::Finish));
}

#[test]
fn write_progress_is_capped_at_95() {
    let mut outcomes = vec![
        Outcome::DeviceChecked(true),
        report("1"),
        Outcome::Formatted(AdapterReport::Success),
        Outcome::ImageChecked(ImageStatus::Ready),
    ];
    for _ in 0..12 {
        outcomes.push(Outcome::Write(WriteStatus::Running));
    }
    let (_, events, _) = drive(job(Action::Create, Some("a.iso"), "/dev/sdb"), outcomes);
    let p = progress(&events);
    assert_eq!(p.len(), 15);
    assert_eq!(p[10], 90);
    assert_eq!(p[11], 95);
    assert_eq!(p[14], 95);
    assert_eq!(events[14].status, "Writing ISO... 95%");
    assert!(p.windows(2).all(|w| w[0] <= w[1]));
}

#[test]
fn format_failure_passes_diagnostic_through() {
    let (_, events, _) = drive(
        job(Action::Format, None, "/dev/sdb"),
        vec![
            Outcome::DeviceChecked(true),
            report("1"),
            Outcome::Formatted(AdapterReport::Failure("mkfs: bad filesystem".to_string())),
        ],
    );
    assert_eq!(progress(&events), vec![5, 10, 0]);
    assert_eq!(events[2].status, "Format failed: mkfs: bad filesystem");
    assert_eq!(events[2].operation, Operation::Formatting);
}

#[test]
fn format_that_cannot_start_fails() {
    let (_, events, _) = drive(
        job(Action::Format, None, "/dev/sdb"),
        vec![Outcome::DeviceChecked(true), report("1"), Outcome::Formatted(AdapterReport::Unavailable)],
    );
    assert_eq!(events[2].status, "Format failed: Unable to execute format command");
}

fn formatted_create() -> Vec<Outcome> {
    vec![Outcome::DeviceChecked(true), report("1"), Outcome::Formatted(AdapterReport::Success)]
}

#[test]
fn image_problems_fail_after_formatting() {
    let mut o = formatted_create();
    o.push(Outcome::ImageChecked(ImageStatus::Missing));
    let (_, events, _) = drive(job(Action::Create, Some("a.iso"), "/dev/sdb"), o);
    assert_eq!(progress(&events), vec![5, 10, 50, 0]);
    assert_eq!(events[3].status, "Error: ISO file not found");
    let mut o = formatted_create();
    o.push(Outcome::ImageChecked(ImageStatus::Unreadable));
    let (_, events, _) = drive(job(Action::Create, Some("a.iso"), "/dev/sdb"), o);
    assert_eq!(events[3].status, "Error: Cannot read ISO file");
}

#[test]
fn write_failure_ends_with_zero_after_unmounted_check() {
    let mut o = formatted_create();
    o.push(Outcome::ImageChecked(ImageStatus::Ready));
    o.push(Outcome::Write(WriteStatus::Running));
    o.push(Outcome::Write(WriteStatus::Finished(AdapterReport::Failure("dd: I/O error".to_string()))));
    let (ex, events, command) = drive(job(Action::Create, Some("a.iso"), "/dev/sdb"), o);
    assert_eq!(progress(&events), vec![5, 10, 50, 55, 0]);
    assert_eq!(events[4].status, "ISO write failed: dd: I/O error");
    assert!(matches!(command, Command::Finish));
    let seen = ex.inspection.unwrap();
    assert!(!seen.is_mounted);
    assert!(seen.mount_points.is_empty());
}

#[test]
fn write_that_cannot_start_fails() {
    let mut o = formatted_create();
    o.push(Outcome::ImageChecked(ImageStatus::Ready));
    o.push(Outcome::Write(WriteStatus::Finished(AdapterReport::Unavailable)));
    let (_, events, _) = drive(job(Action::Create, Some("a.iso"), "/dev/sdb"), o);
    assert_eq!(progress(&events), vec![5, 10, 50, 0]);
    assert_eq!(events[3].status, "Error: Failed to start ISO write process");
}

#[test]
fn unexpected_outcome_changes_nothing() {
    let (mut ex, _) = Executor::start(job(Action::Format, None, "/dev/sdb"));
    let s = ex.advance(Outcome::Settled);
    assert!(s.events.is_empty());
    assert!(matches!(s.command, Command::CheckDevice { .. }));
    assert_eq!(ex.stage, Stage::Validated);
}

#[test]
fn operation_labels() {
    assert_eq!(Operation::Validation.label(), "validation");
    assert_eq!(Operation::DeviceVerification.label(), "device verification");
    assert_eq!(Operation::Formatting.label(), "formatting");
    assert_eq!(Operation::IsoWriting.label(), "iso writing");
    assert_eq!(Operation::Verification.label(), "verification");
    assert_eq!(Operation::Complete.label(), "complete");
}
