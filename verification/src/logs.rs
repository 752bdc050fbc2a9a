//! Rotation of the widget's log file.

use vstd::prelude::*;

use crate::outside::{joined_path, path_join};
use crate::text::{decimal, push_decimal};

verus! {

/// The active log file's name.
pub const LOG_FILE: &'static str = "companion.log";

/// The size at which the active log is rotated: 5 MiB.
pub const MAX_LOG_BYTES: u64 = 5242880;

/// How many rotated log files are kept.
pub const MAX_LOG_FILES: u64 = 5;

/// The file operations of one log rotation, in order: remove `oldest` if it
/// exists; for each pair of `shifts`, rename the first to the second if it
/// exists; rename the active log to `first_rotated`.
pub struct LogRotation {
    pub oldest: String,
    pub shifts: Vec<(String, String)>,
    pub active: String,
    pub first_rotated: String,
}

/// The path of rotated log number `index` in `dir`.
pub open spec fn rotated_log(dir: Seq<char>, index: nat) -> Seq<char> {
    joined_path(dir, LOG_FILE@ + "."@ + decimal(index))
}

fn rotated_log_path(dir: &str, index: u64) -> (r: String)
    ensures
        r@ == rotated_log(dir@, index as nat),
{
    let mut name = String::from_str(LOG_FILE);
    name.append(".");
    push_decimal(&mut name, index);
    path_join(dir, name.as_str())
}

/// The rotation due for an active log of `active_size` bytes in `dir`:
/// none below 5 MiB; otherwise the fifth rotated file is dropped, files 4
/// down to 1 move up by one, and the active log becomes file 1.
pub fn rotation_plan(dir: &str, active_size: u64) -> (r: Option<LogRotation>)
    ensures
        active_size < MAX_LOG_BYTES ==> r is None,
        active_size >= MAX_LOG_BYTES ==> (r matches Some(p) && {
            &&& p.oldest@ == rotated_log(dir@, 5)
            &&& p.shifts@.len() == 4
            &&& forall|k: int|
                0 <= k < 4 ==> (#[trigger] p.shifts@[k]).0@ == rotated_log(dir@, (4 - k) as nat)
                    && p.shifts@[k].1@ == rotated_log(dir@, (5 - k) as nat)
            &&& p.active@ == joined_path(dir@, LOG_FILE@)
            &&& p.first_rotated@ == rotated_log(dir@, 1)
        }),
{
    if active_size < MAX_LOG_BYTES {
        return None;
    }
    let oldest = rotated_log_path(dir, MAX_LOG_FILES);
    let mut shifts: Vec<(String, String)> = Vec::new();
    let mut index: u64 = MAX_LOG_FILES - 1;
    while index >= 1
        invariant
            index <= 4,
            shifts@.len() == 4 - index,
            forall|k: int|
                0 <= k < shifts@.len() ==> (#[trigger] shifts@[k]).0@ == rotated_log(
                    dir@,
                    (4 - k) as nat,
                ) && shifts@[k].1@ == rotated_log(dir@, (5 - k) as nat),
        decreases index,
    {
        let source = rotated_log_path(dir, index);
        let destination = rotated_log_path(dir, index + 1);
        shifts.push((source, destination));
        index = index - 1;
    }
    let active = path_join(dir, LOG_FILE);
    let first_rotated = rotated_log_path(dir, 1);
    Some(LogRotation { oldest, shifts, active, first_rotated })
}

} // verus!
