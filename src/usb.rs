//! Naming and describing USB mass-storage candidates from what the host
//! reports about them.

use vstd::prelude::*;
use crate::device::opt_view;
use crate::text::{hex4_digits, hex4_text, parsed_u64, parse_u64, trim_text, trimmed};

verus! {

/// The USB interface class of mass-storage devices.
pub const MASS_STORAGE_CLASS: u8 = 0x08;

/// A discovered mass-storage candidate.
#[derive(Debug, Clone)]
pub struct UsbDevice {
    /// The device path when one was found, else the `USB vvvv:pppp` token.
    pub id: String,
    pub name: String,
    pub vendor_id: u16,
    pub product_id: u16,
    pub size: Option<u64>,
    pub mount_point: Option<String>,
}

/// Whether any interface of a configuration has the mass-storage class.
pub fn is_mass_storage(class_codes: &Vec<u8>) -> (r: bool)
    ensures
        r == exists|i: int| 0 <= i < class_codes@.len() && class_codes@[i] == MASS_STORAGE_CLASS,
{
    let mut i: usize = 0;
    while i < class_codes.len()
        invariant
            i <= class_codes@.len(),
            forall|k: int| 0 <= k < i ==> class_codes@[k] != MASS_STORAGE_CLASS,
        decreases class_codes@.len() - i,
    {
        if class_codes[i] == MASS_STORAGE_CLASS {
            return true;
        }
        i = i + 1;
    }
    false
}

/// The `vvvv:pppp` pair of a vendor and product id, in lowercase hexadecimal.
pub open spec fn id_pair(vendor_id: u16, product_id: u16) -> Seq<char> {
    hex4_digits(vendor_id) + ":"@ + hex4_digits(product_id)
}

fn id_pair_text(vendor_id: u16, product_id: u16) -> (r: String)
    ensures
        r@ == id_pair(vendor_id, product_id),
{
    let mut r = hex4_text(vendor_id);
    r.append(":");
    let p = hex4_text(product_id);
    r.append(p.as_str());
    r
}

/// The name of a device that gave no string descriptors.
pub open spec fn fallback_name(vendor_id: u16, product_id: u16) -> Seq<char> {
    "USB Device "@ + id_pair(vendor_id, product_id)
}

/// The display name from the manufacturer and product strings, each replaced by
/// a default where it could not be read.
pub open spec fn display_name(manufacturer: Option<Seq<char>>, product: Option<Seq<char>>) -> Seq<char> {
    let m = match manufacturer {
        Some(m) => m,
        None => "Unknown"@,
    };
    let p = match product {
        Some(p) => p,
        None => "Device"@,
    };
    trimmed(m + " "@ + p)
}

/// Names a device. `strings` is `None` where the device offers no language for
/// its string descriptors; otherwise it holds the manufacturer and product
/// strings, each `None` where reading it failed.
pub fn get_device_name(vendor_id: u16, product_id: u16, strings: Option<(Option<String>, Option<String>)>) -> (r:
    String)
    ensures
        r@ == match strings {
            None => fallback_name(vendor_id, product_id),
            Some((m, p)) => display_name(opt_view(m), opt_view(p)),
        },
{
    match strings {
        None => {
            let mut r = String::from_str("USB Device ");
            let pair = id_pair_text(vendor_id, product_id);
            r.append(pair.as_str());
            r
        },
        Some((m, p)) => {
            let mut joined = match m {
                Some(m) => m,
                None => String::from_str("Unknown"),
            };
            joined.append(" ");
            match p {
                Some(p) => joined.append(p.as_str()),
                None => joined.append("Device"),
            }
            trim_text(joined.as_str())
        },
    }
}

/// Whether a `/dev` entry looks like a whole SCSI-style disk: `sd` and one more
/// single-byte character.
pub open spec fn is_disk_name(name: Seq<char>) -> bool {
    name.len() == 3 && name[0] == 's' && name[1] == 'd' && (name[2] as u32) < 128
}

/// Picks the device path among the names of the entries of `/dev`: the first
/// whole-disk name, as a path.
pub fn find_device_path(entries: &Vec<String>) -> (r: Option<String>)
    ensures
        match r {
            None => forall|i: int| 0 <= i < entries@.len() ==> !is_disk_name(#[trigger] entries@[i]@),
            Some(path) => exists|i: int|
                0 <= i < entries@.len() && is_disk_name(entries@[i]@) && path@ == "/dev/"@
                    + entries@[i]@ && forall|k: int| 0 <= k < i ==> !is_disk_name(#[trigger] entries@[k]@),
        },
{
    let mut i: usize = 0;
    while i < entries.len()
        invariant
            i <= entries@.len(),
            forall|k: int| 0 <= k < i ==> !is_disk_name(#[trigger] entries@[k]@),
        decreases entries@.len() - i,
    {
        let name = entries[i].as_str();
        let n = name.unicode_len();
        if n == 3 && name.get_char(0) == 's' && name.get_char(1) == 'd' && (name.get_char(2) as u32)
            < 128 {
            let mut path = String::from_str("/dev/");
            path.append(name);
            return Some(path);
        }
        i = i + 1;
    }
    None
}

/// The size in bytes that a size query printed (`None` where the query failed
/// or printed something else than one number).
pub fn get_device_size(report: Option<String>) -> (r: Option<u64>)
    ensures
        r == match report {
            None => None,
            Some(t) => parsed_u64(trimmed(t@)),
        },
{
    match report {
        None => None,
        Some(t) => {
            let s = trim_text(t.as_str());
            parse_u64(s.as_str())
        },
    }
}

/// The `USB vvvv:pppp` token of a device.
pub open spec fn usb_token(vendor_id: u16, product_id: u16) -> Seq<char> {
    "USB "@ + id_pair(vendor_id, product_id)
}

/// The listing entry of a mass-storage device: identified by its path when one
/// is known, named by its display name followed by its USB token.
pub fn describe_usb_device(
    vendor_id: u16,
    product_id: u16,
    device_name: String,
    path: Option<String>,
    size: Option<u64>,
) -> (r: UsbDevice)
    ensures
        r.id@ == match path {
            Some(p) => p@,
            None => usb_token(vendor_id, product_id),
        },
        r.name@ == device_name@ + " ("@ + usb_token(vendor_id, product_id) + ")"@,
        r.vendor_id == vendor_id,
        r.product_id == product_id,
        r.size == size,
        r.mount_point is None,
{
    let mut token = String::from_str("USB ");
    let pair = id_pair_text(vendor_id, product_id);
    token.append(pair.as_str());
    let mut name = device_name;
    name.append(" (");
    name.append(token.as_str());
    name.append(")");
    let id = match path {
        Some(p) => p,
        None => token,
    };
    UsbDevice { id, name, vendor_id, product_id, size, mount_point: None }
}

} // verus!
