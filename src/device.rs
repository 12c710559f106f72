//! Device verification: turns the platform's size / filesystem / mount-point
//! report for a device into a `DeviceInfo` snapshot, all or nothing.

use vstd::prelude::*;
use crate::text::{lemma_split_on_nonempty, parsed_u64, parse_u64, split_on, split_text};

verus! {

/// Why a device could not be verified.
#[derive(Debug, Clone, Copy, PartialEq, Eq, Structural)]
pub enum VerificationError {
    /// The path does not name an existing node.
    DeviceNotFound,
    /// The size / filesystem / mount query failed or gave an unreadable answer.
    InfoUnavailable,
}

pub open spec fn verification_error_text(e: VerificationError) -> Seq<char> {
    match e {
        VerificationError::DeviceNotFound => "Device does not exist"@,
        VerificationError::InfoUnavailable => "Unable to get device information"@,
    }
}

impl VerificationError {
    /// The human-readable reason.
    pub fn message(&self) -> (r: String)
        ensures
            r@ == verification_error_text(*self),
    {
        match self {
            VerificationError::DeviceNotFound => String::from_str("Device does not exist"),
            VerificationError::InfoUnavailable => String::from_str("Unable to get device information"),
        }
    }
}

/// A verification snapshot of one device.
#[derive(Debug, Clone)]
pub struct DeviceInfo {
    pub path: String,
    pub size: u64,
    pub filesystem: Option<String>,
    pub is_mounted: bool,
    pub mount_points: Vec<String>,
}

/// The mathematical value of a `DeviceInfo`.
pub struct DeviceView {
    pub path: Seq<char>,
    pub size: u64,
    pub filesystem: Option<Seq<char>>,
    pub is_mounted: bool,
    pub mount_points: Seq<Seq<char>>,
}

pub open spec fn opt_view(o: Option<String>) -> Option<Seq<char>> {
    match o {
        Some(s) => Some(s@),
        None => None,
    }
}

impl View for DeviceInfo {
    type V = DeviceView;

    open spec fn view(&self) -> DeviceView {
        DeviceView {
            path: self.path@,
            size: self.size,
            filesystem: opt_view(self.filesystem),
            is_mounted: self.is_mounted,
            mount_points: self.mount_points@.map_values(|m: String| m@),
        }
    }
}

impl DeviceView {
    /// A device counts as mounted exactly when it has a mount point.
    pub open spec fn wf(self) -> bool {
        self.is_mounted == (self.mount_points.len() > 0)
    }
}

/// The columns of one report line: values separated by single spaces, an
/// empty value being an empty column.
pub open spec fn columns(line: Seq<char>) -> Seq<Seq<char>> {
    split_on(line, ' ')
}

/// The mount point that a report line names: its third column, when not empty.
pub open spec fn line_mount(line: Seq<char>) -> Option<Seq<char>> {
    let c = columns(line);
    if c.len() > 2 && c[2].len() > 0 {
        Some(c[2])
    } else {
        None
    }
}

/// The mount points named by report lines, in order.
pub open spec fn mounts(lines: Seq<Seq<char>>) -> Seq<Seq<char>>
    decreases lines.len(),
{
    if lines.len() == 0 {
        seq![]
    } else {
        let rest = mounts(lines.drop_last());
        match line_mount(lines.last()) {
            Some(m) => rest.push(m),
            None => rest,
        }
    }
}

/// What a report says of the device at `path`. A report is lines of
/// `SIZE FSTYPE MOUNTPOINT` columns: the first line for the device itself, the
/// others for its partitions. The device's size and filesystem come from the
/// first line; every mount point on any line is one of the device's. A first
/// column that is not a `u64` (an empty report among them) makes it unusable.
pub open spec fn device_from_report(path: Seq<char>, report: Seq<char>) -> Result<
    DeviceView,
    VerificationError,
> {
    let lines = split_on(report, '\n');
    let c = columns(lines[0]);
    match parsed_u64(c[0]) {
        None => Err(VerificationError::InfoUnavailable),
        Some(n) => Ok(
            DeviceView {
                path,
                size: n,
                filesystem: if c.len() > 1 && c[1].len() > 0 {
                    Some(c[1])
                } else {
                    None
                },
                is_mounted: mounts(lines).len() > 0,
                mount_points: mounts(lines),
            },
        ),
    }
}

/// The outcome of verifying the device at `path`, given whether the path exists
/// and the platform's report on it (`None` where the query failed).
pub open spec fn verification(path: Seq<char>, exists: bool, report: Option<Seq<char>>) -> Result<
    DeviceView,
    VerificationError,
> {
    if !exists {
        Err(VerificationError::DeviceNotFound)
    } else {
        match report {
            None => Err(VerificationError::InfoUnavailable),
            Some(r) => device_from_report(path, r),
        }
    }
}

/// Reads a device report (see `device_from_report`).
pub fn device_info_from_report(device_path: String, report: &str) -> (r: Result<
    DeviceInfo,
    VerificationError,
>)
    ensures
        match (r, device_from_report(device_path@, report@)) {
            (Ok(d), Ok(v)) => d@ == v,
            (Err(e), Err(e2)) => e == e2,
            _ => false,
        },
{
    let lines = split_text(report, '\n');
    let ghost ls = split_on(report@, '\n');
    proof {
        lemma_split_on_nonempty(report@, '\n');
    }
    let cols = split_text(lines[0].as_str(), ' ');
    proof {
        lemma_split_on_nonempty(lines@[0]@, ' ');
    }
    match parse_u64(cols[0].as_str()) {
        None => Err(VerificationError::InfoUnavailable),
        Some(n) => {
            let filesystem = if cols.len() > 1 && !cols[1].as_str().is_empty() {
                Some(cols[1].clone())
            } else {
                None
            };
            let mut mount_points: Vec<String> = Vec::new();
            let mut i: usize = 0;
            while i < lines.len()
                invariant
                    lines@.len() == ls.len(),
                    forall|k: int| 0 <= k < lines@.len() ==> (#[trigger] lines@[k])@ == ls[k],
                    i <= lines@.len(),
                    mount_points@.len() == mounts(ls.take(i as int)).len(),
                    forall|k: int|
                        0 <= k < mount_points@.len() ==> (#[trigger] mount_points@[k])@ == mounts(
                            ls.take(i as int),
                        )[k],
                decreases lines@.len() - i,
            {
                let c = split_text(lines[i].as_str(), ' ');
                proof {
                    assert(ls.take(i + 1).drop_last() =~= ls.take(i as int));
                    assert(ls.take(i + 1).last() == ls[i as int]);
                }
                if c.len() > 2 && !c[2].as_str().is_empty() {
                    mount_points.push(c[2].clone());
                }
                i = i + 1;
            }
            proof {
                assert(ls.take(ls.len() as int) =~= ls);
            }
            let is_mounted = !mount_points.is_empty();
            let d = DeviceInfo { path: device_path, size: n, filesystem, is_mounted, mount_points };
            assert(d@.mount_points =~= mounts(ls));
            Ok(d)
        },
    }
}

/// Verifies the device at `device_path`: it must exist, and the platform's
/// report on it (`None` where the query failed) must be readable.
pub fn verify_device(device_path: String, exists: bool, report: Option<String>) -> (r: Result<
    DeviceInfo,
    VerificationError,
>)
    ensures
        match (r, verification(device_path@, exists, opt_view(report))) {
            (Ok(d), Ok(v)) => d@ == v,
            (Err(e), Err(e2)) => e == e2,
            _ => false,
        },
        r is Ok ==> r->Ok_0@.wf(),
{
    if !exists {
        return Err(VerificationError::DeviceNotFound);
    }
    match report {
        None => Err(VerificationError::InfoUnavailable),
        Some(text) => device_info_from_report(device_path, text.as_str()),
    }
}

} // verus!
