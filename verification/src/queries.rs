//! Environment probes that degrade to `false` on any failure: the sensor
//! bus, the laptop classification, and the fingerprint reader. Each decides
//! over a plain value describing what the outside world reported.

use crate::probe::ComputerInfo;
use crate::strutil::has_substring;
use crate::strutil::lower_of;
use crate::strutil::lower_str;
use crate::strutil::str_contains;
use vstd::prelude::*;

verus! {

/// What probing a well-known path found: nothing, a non-directory, a
/// directory whose listing could not be read, or a directory with a number
/// of entries.
#[derive(Debug, Clone, Copy, PartialEq, Eq, Structural)]
pub enum DirectoryState {
    Missing,
    NotADirectory,
    Unreadable,
    Entries { count: usize },
}

/// The path exists, is a directory, was readable, and holds at least one
/// entry; every failure counts as absent.
pub open spec fn present_nonempty_directory(state: DirectoryState) -> bool {
    state matches DirectoryState::Entries { count } && count > 0
}

/// A USB device description line that mentions a fingerprint reader,
/// case-insensitively.
pub open spec fn fingerprint_line(line: Seq<char>) -> bool {
    has_substring(lower_of(line), "fingerprint"@)
}

/// At least one of the captured USB device description lines mentions a
/// fingerprint reader.
pub open spec fn mentions_fingerprint(lines: Seq<Seq<char>>) -> bool {
    exists|i: int| 0 <= i < lines.len() && fingerprint_line(#[trigger] lines[i])
}

impl ComputerInfo {
    /// Whether a sensor bus is present, judged from the state of the
    /// well-known sensor-bus directory: present, a directory, and non-empty;
    /// anything else counts as no sensor bus.
    pub fn has_iio_device(sensor_bus: &DirectoryState) -> (r: bool)
        ensures
            r == present_nonempty_directory(*sensor_bus),
    {
        match sensor_bus {
            DirectoryState::Entries { count } => *count > 0,
            _ => false,
        }
    }

    /// Whether the machine is battery-backed, judged from the state of the
    /// well-known power-supply directory under the same rule as the sensor
    /// bus: present, a directory, and non-empty.
    pub fn is_laptop(power_supply: &DirectoryState) -> (r: bool)
        ensures
            r == present_nonempty_directory(*power_supply),
    {
        match power_supply {
            DirectoryState::Entries { count } => *count > 0,
            _ => false,
        }
    }

    /// Whether a fingerprint reader is on the USB bus, judged from the
    /// captured output lines of the USB-listing utility; `None` stands for a
    /// utility that could not be launched and counts as no reader.
    pub fn has_fingerprint_device(capture: &Option<Vec<String>>) -> (r: bool)
        ensures
            capture is None ==> !r,
            capture matches Some(lines) ==> r == mentions_fingerprint(lines.deep_view()),
    {
        match capture {
            None => false,
            Some(lines) => {
                let mut i: usize = 0;
                while i < lines.len()
                    invariant
                        *capture == Some(*lines),
                        i <= lines@.len(),
                        forall|j: int| 0 <= j < i ==> !fingerprint_line(#[trigger] lines.deep_view()[j]),
                    decreases lines@.len() - i,
                {
                    let lowered = lower_str(lines[i].as_str());
                    if str_contains(lowered.as_str(), "fingerprint") {
                        proof {
                            assert(fingerprint_line(lines.deep_view()[i as int]));
                        }
                        return true;
                    }
                    i += 1;
                }
                false
            },
        }
    }
}

} // verus!

