use webbboot_companion::executor::{AdapterReport, Command, Outcome};
use webbboot_companion::job::{action_from_name, job_from_request, Action, Job};
use webbboot_companion::session::Session;

fn job(action: Action, device: &str) -> Job {
    Job {
        action,
        image: None,
        filesystem: "exFAT".to_string(),
        scheme: "GPT".to_string(),
        device: device.to_string(),
    }
}

#[test]
fn second_job_waits_for_the_first_to_finish() {
    let mut s = Session::new();
    let first = s.submit(job(Action::Format, "/dev/sdb")).unwrap();
    assert!(first.events.is_empty());
    assert!(s.is_busy());
    assert!(s.submit(job(Action::Format, "/dev/sdc")).is_none());
    assert_eq!(s.pending.len(), 1);

    let step = s.report(Outcome::DeviceChecked(true));
    assert_eq!(step.events[0].progress, 5);
    let _ = s.report(Outcome::Inspected { exists: true, report: Some("1".to_string()) });
    let last = s.report(Outcome::Formatted(AdapterReport::Success));
    assert_eq!(last.events[0].progress, 100);
    assert!(matches!(last.command, Command::Finish));
    assert!(!s.is_busy());

    let second = s.resume().unwrap();
    assert!(matches!(&second.command, Command::CheckDevice { device } if device == "/dev/sdc"));
    assert!(s.is_busy());
    assert!(s.pending.is_empty());
    let running = s.current.as_ref().unwrap();
    assert_eq!(running.job.device, "/dev/sdc");
}

#[test]
fn started_job_is_the_job_in_flight() {
    let mut s = Session::new();
    s.submit(job(Action::Format, "/dev/sdb")).unwrap();
    assert_eq!(s.current.as_ref().unwrap().job.device, "/dev/sdb");
    assert!(s.submit(job(Action::Format, "/dev/sdc")).is_none());
    assert_eq!(s.current.as_ref().unwrap().job.device, "/dev/sdb");
    let step = s.report(Outcome::DeviceChecked(true));
    assert_eq!(step.events.len(), 1);
    assert_eq!(s.current.as_ref().unwrap().job.device, "/dev/sdb");
}

#[test]
fn rejected_job_leaves_the_connection_idle() {
    let mut s = Session::new();
    let step = s.submit(job(Action::Format, "")).unwrap();
    assert_eq!(step.events.len(), 1);
    assert_eq!(step.events[0].progress, 0);
    assert!(!s.is_busy());
    assert!(s.resume().is_none());
}

#[test]
fn waiting_jobs_start_in_arrival_order() {
    let mut s = Session::new();
    s.submit(job(Action::Format, "/dev/sdb")).unwrap();
    assert!(s.submit(job(Action::Format, "/dev/sdc")).is_none());
    assert!(s.submit(job(Action::Format, "/dev/sdd")).is_none());
    let end = s.report(Outcome::DeviceChecked(false));
    assert_eq!(end.events[0].progress, 0);
    let next = s.resume().unwrap();
    assert!(matches!(&next.command, Command::CheckDevice { device } if device == "/dev/sdc"));
    assert_eq!(s.pending[0].device, "/dev/sdd");
}

#[test]
fn action_names() {
    assert_eq!(action_from_name("create"), Some(Action::Create));
    assert_eq!(action_from_name("format"), Some(Action::Format));
    assert_eq!(action_from_name("Create"), None);
    assert_eq!(action_from_name(""), None);
}

#[test]
fn request_fields_become_a_job() {
    let j = job_from_request("create", Some("a.iso".to_string()), "NTFS".to_string(), "MBR".to_string(), "/dev/sdb".to_string())
        .unwrap();
    assert_eq!(j.action, Action::Create);
    assert_eq!(j.image.as_deref(), Some("a.iso"));
    assert_eq!(j.filesystem, "NTFS");
    assert_eq!(j.scheme, "MBR");
    assert_eq!(j.device, "/dev/sdb");
    assert!(job_from_request("erase", None, String::new(), String::new(), "/dev/sdb".to_string()).is_none());
}
