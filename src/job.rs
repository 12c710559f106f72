//! Jobs and their structural validation.

use vstd::prelude::*;
use crate::device::opt_view;
use crate::text::{is_blank, is_blank_text, text_equals};

verus! {

/// What a job asks for.
#[derive(Debug, Clone, Copy, PartialEq, Eq, Structural)]
pub enum Action {
    /// Format the device, then write a disk image onto it.
    Create,
    /// Format the device only.
    Format,
}

/// The action named `name`, if any.
pub open spec fn action_named(name: Seq<char>) -> Option<Action> {
    if name == "create"@ {
        Some(Action::Create)
    } else if name == "format"@ {
        Some(Action::Format)
    } else {
        None
    }
}

/// Reads an action name: `create` or `format`.
pub fn action_from_name(name: &str) -> (r: Option<Action>)
    ensures
        r == action_named(name@),
{
    if text_equals(name, "create") {
        Some(Action::Create)
    } else if text_equals(name, "format") {
        Some(Action::Format)
    } else {
        None
    }
}

/// A single requested operation on one device.
#[derive(Debug, Clone)]
pub struct Job {
    pub action: Action,
    /// Path of the disk image to write; needed by `Create`.
    pub image: Option<String>,
    /// Requested filesystem label (case-insensitive, interpreted by the platform).
    pub filesystem: String,
    /// Partitioning scheme, handed on to the platform untouched.
    pub scheme: String,
    /// Platform-specific device path.
    pub device: String,
}

pub struct JobView {
    pub action: Action,
    pub image: Option<Seq<char>>,
    pub filesystem: Seq<char>,
    pub scheme: Seq<char>,
    pub device: Seq<char>,
}

impl View for Job {
    type V = JobView;

    open spec fn view(&self) -> JobView {
        JobView {
            action: self.action,
            image: opt_view(self.image),
            filesystem: self.filesystem@,
            scheme: self.scheme@,
            device: self.device@,
        }
    }
}

/// Why a job was rejected before any device was touched.
#[derive(Debug, Clone, Copy, PartialEq, Eq, Structural)]
pub enum ValidationError {
    EmptyDevice,
    MissingImage,
}

/// What validation says of a job: the device must be named (not empty nor
/// blank), and `Create` needs an image.
pub open spec fn validation(j: JobView) -> Result<(), ValidationError> {
    if is_blank(j.device) {
        Err(ValidationError::EmptyDevice)
    } else if j.action == Action::Create && j.image is None {
        Err(ValidationError::MissingImage)
    } else {
        Ok(())
    }
}

pub open spec fn validation_error_text(e: ValidationError) -> Seq<char> {
    match e {
        ValidationError::EmptyDevice => "Error: No device selected"@,
        ValidationError::MissingImage => "Error: No ISO file specified"@,
    }
}

impl ValidationError {
    /// The status text reported for this rejection.
    pub fn message(&self) -> (r: String)
        ensures
            r@ == validation_error_text(*self),
    {
        match self {
            ValidationError::EmptyDevice => String::from_str("Error: No device selected"),
            ValidationError::MissingImage => String::from_str("Error: No ISO file specified"),
        }
    }
}

/// Checks a job's preconditions; touches nothing outside the job.
pub fn validate(job: &Job) -> (r: Result<(), ValidationError>)
    ensures
        r == validation(job@),
{
    if is_blank_text(job.device.as_str()) {
        Err(ValidationError::EmptyDevice)
    } else if job.action == Action::Create && job.image.is_none() {
        Err(ValidationError::MissingImage)
    } else {
        Ok(())
    }
}

/// Builds a job from the fields of a request; `None` where the action is
/// neither `create` nor `format`.
pub fn job_from_request(
    action: &str,
    image: Option<String>,
    filesystem: String,
    scheme: String,
    device: String,
) -> (r: Option<Job>)
    ensures
        match action_named(action@) {
            None => r is None,
            Some(a) => r matches Some(j) && j@ == (JobView {
                action: a,
                image: opt_view(image),
                filesystem: filesystem@,
                scheme: scheme@,
                device: device@,
            }),
        },
{
    match action_from_name(action) {
        None => None,
        Some(a) => Some(Job { action: a, image, filesystem, scheme, device }),
    }
}

} // verus!
