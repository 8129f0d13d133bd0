//! The hardware probe itself: an immutable value object built once from the
//! contents of the firmware metadata files and the block-device directory
//! listing, plus the disk-classification queries over rotational flags.

use crate::names::resolve_product_family;
use crate::names::resolve_product_name;
use crate::names::resolve_vendor;
use crate::names::resolved_family;
use crate::names::resolved_product_name;
use crate::names::resolved_vendor;
use crate::strutil::has_prefix;
use crate::strutil::str_eq;
use crate::strutil::str_has_prefix;
use crate::strutil::trim_of;
use crate::strutil::trim_str;
use vstd::prelude::*;

verus! {

/// Why construction failed. The first three variants carry the description
/// of the underlying read failure; a block-device directory listing failure
/// is reported as its own variant and deliberately drops the raw cause.
#[derive(Debug, PartialEq, Eq)]
pub enum ProbeError {
    VendorReadError(String),
    FamilyReadError(String),
    ProductReadError(String),
    DeviceEnumerationError,
}

/// Identifying facts about the machine, fixed at construction.
#[derive(Debug)]
pub struct ComputerInfo {
    vendor: String,
    product_family: String,
    product_name: String,
    disk_devices: Vec<String>,
}

/// A block-device name that is recorded as a disk: one prefixed `sd` or
/// `nvme` (entries such as `loop0` or `ram0` are left out).
pub open spec fn is_disk_name(name: Seq<char>) -> bool {
    has_prefix(name, "sd"@) || has_prefix(name, "nvme"@)
}

/// The disk devices recorded from a block-device directory listing: the
/// entries whose names are disk names, in directory-enumeration order.
pub open spec fn disk_selection(entries: Seq<Seq<char>>) -> Seq<Seq<char>> {
    entries.filter(|name: Seq<char>| is_disk_name(name))
}

/// A rotational-flag file content that marks a spinning disk.
pub open spec fn rotational_is_hdd(contents: Seq<char>) -> bool {
    trim_of(contents) == "1"@
}

/// A rotational-flag file content that marks a solid-state disk.
pub open spec fn rotational_is_ssd(contents: Seq<char>) -> bool {
    trim_of(contents) == "0"@
}

/// The next state of a disk scan after reading one rotational flag: stop
/// with a match, move to the next device, or stop with no device matching.
pub open spec fn scan_step_result(
    device_count: int,
    index: int,
    contents: Seq<char>,
    want_hdd: bool,
) -> DiskScan {
    if (if want_hdd {
        rotational_is_hdd(contents)
    } else {
        rotational_is_ssd(contents)
    }) {
        DiskScan::Done { found: true }
    } else if index + 1 < device_count {
        DiskScan::ReadFlag { index: (index + 1) as usize }
    } else {
        DiskScan::Done { found: false }
    }
}

/// One state of a disk scan driven from outside: either the rotational flag
/// of the device at `index` must be read next, or the scan has concluded.
#[derive(Debug, Clone, Copy, PartialEq, Eq, Structural)]
pub enum DiskScan {
    ReadFlag { index: usize },
    Done { found: bool },
}

/// Whether a rotational-flag file content, trimmed, equals `1`.
pub fn is_hdd(contents: &str) -> (r: bool)
    ensures
        r == rotational_is_hdd(contents@),
{
    str_eq(trim_str(contents), "1")
}

/// Whether a rotational-flag file content, trimmed, equals `0`.
pub fn is_ssd(contents: &str) -> (r: bool)
    ensures
        r == rotational_is_ssd(contents@),
{
    str_eq(trim_str(contents), "0")
}

/// Keeps the directory entries whose names mark disks, in order.
fn select_disk_devices(entries: Vec<String>) -> (disks: Vec<String>)
    ensures
        disks.deep_view() == disk_selection(entries.deep_view()),
{
    let mut disks: Vec<String> = Vec::new();
    let mut i: usize = 0;
    while i < entries.len()
        invariant
            i <= entries@.len(),
            disks.deep_view() == disk_selection(entries.deep_view().subrange(0, i as int)),
        decreases entries@.len() - i,
    {
        let ghost prefix = entries.deep_view().subrange(0, i as int);
        let ghost before = disks.deep_view();
        if str_has_prefix(entries[i].as_str(), "sd") || str_has_prefix(
            entries[i].as_str(),
            "nvme",
        ) {
            disks.push(entries[i].clone());
            proof {
                assert(disks.deep_view() =~= before.push(entries.deep_view()[i as int]));
            }
        }
        proof {
            reveal(Seq::filter);
            let longer = entries.deep_view().subrange(0, i + 1);
            assert(longer.drop_last() =~= prefix);
            assert(longer.last() == entries.deep_view()[i as int]);
        }
        i += 1;
    }
    proof {
        assert(entries.deep_view().subrange(0, entries.deep_view().len() as int) =~= entries.deep_view());
    }
    disks
}

impl ComputerInfo {
    /// The normalized vendor name.
    pub closed spec fn spec_vendor(&self) -> Seq<char> {
        self.vendor@
    }

    /// The normalized product family.
    pub closed spec fn spec_family(&self) -> Seq<char> {
        self.product_family@
    }

    /// The normalized product name.
    pub closed spec fn spec_product_name(&self) -> Seq<char> {
        self.product_name@
    }

    /// The recorded disk-device names, in enumeration order.
    pub closed spec fn spec_disks(&self) -> Seq<Seq<char>> {
        self.disk_devices.deep_view()
    }

    /// Builds the probe from the outcomes of the four construction reads:
    /// the three metadata file contents and the block-device directory
    /// listing (`None` when the listing could not be read). Resolves the
    /// vendor first, since the family correction depends on it, and reports
    /// the first failure in read order.
    pub fn new(
        vendor_read: Result<String, String>,
        family_read: Result<String, String>,
        name_read: Result<String, String>,
        block_entries: Option<Vec<String>>,
    ) -> (result: Result<ComputerInfo, ProbeError>)
        ensures
            vendor_read is Err ==> result == Err::<ComputerInfo, ProbeError>(
                ProbeError::VendorReadError(vendor_read->Err_0),
            ),
            vendor_read is Ok && family_read is Err ==> result == Err::<ComputerInfo, ProbeError>(
                ProbeError::FamilyReadError(family_read->Err_0),
            ),
            vendor_read is Ok && family_read is Ok && name_read is Err ==> result == Err::<
                ComputerInfo,
                ProbeError,
            >(ProbeError::ProductReadError(name_read->Err_0)),
            vendor_read is Ok && family_read is Ok && name_read is Ok && block_entries is None
                ==> result == Err::<ComputerInfo, ProbeError>(ProbeError::DeviceEnumerationError),
            vendor_read is Ok && family_read is Ok && name_read is Ok && block_entries is Some
                ==> {
                &&& result is Ok
                &&& result->Ok_0.spec_vendor() == resolved_vendor(vendor_read->Ok_0@)
                &&& result->Ok_0.spec_family() == resolved_family(
                    resolved_vendor(vendor_read->Ok_0@),
                    family_read->Ok_0@,
                )
                &&& result->Ok_0.spec_product_name() == resolved_product_name(name_read->Ok_0@)
                &&& result->Ok_0.spec_disks() == disk_selection(block_entries->0.deep_view())
            },
    {
        let raw_vendor = match vendor_read {
            Ok(raw) => raw,
            Err(cause) => {
                return Err(ProbeError::VendorReadError(cause));
            },
        };
        let vendor = resolve_vendor(raw_vendor.as_str());
        let raw_family = match family_read {
            Ok(raw) => raw,
            Err(cause) => {
                return Err(ProbeError::FamilyReadError(cause));
            },
        };
        let product_family = resolve_product_family(vendor.as_str(), raw_family.as_str());
        let raw_name = match name_read {
            Ok(raw) => raw,
            Err(cause) => {
                return Err(ProbeError::ProductReadError(cause));
            },
        };
        let product_name = resolve_product_name(raw_name.as_str());
        let entries = match block_entries {
            Some(entries) => entries,
            None => {
                return Err(ProbeError::DeviceEnumerationError);
            },
        };
        let disk_devices = select_disk_devices(entries);
        Ok(ComputerInfo { vendor, product_family, product_name, disk_devices })
    }

    /// The normalized vendor name.
    pub fn get_vendor(&self) -> (r: &str)
        ensures
            r@ == self.spec_vendor(),
    {
        self.vendor.as_str()
    }

    /// The normalized product family.
    pub fn get_product_family(&self) -> (r: &str)
        ensures
            r@ == self.spec_family(),
    {
        self.product_family.as_str()
    }

    /// The normalized product name.
    pub fn get_product_name(&self) -> (r: &str)
        ensures
            r@ == self.spec_product_name(),
    {
        self.product_name.as_str()
    }

    /// The recorded disk-device names, in enumeration order.
    pub fn disk_devices(&self) -> (r: &Vec<String>)
        ensures
            r.deep_view() == self.spec_disks(),
    {
        &self.disk_devices
    }

    /// Whether any recorded disk is a spinning disk, given the rotational
    /// flag contents of the recorded disks in order. Matching follows the
    /// first device whose flag, trimmed, equals `1`.
    pub fn has_hdd(&self, flags: &Vec<String>) -> (r: bool)
        requires
            flags@.len() == self.spec_disks().len(),
        ensures
            r == exists|i: int|
                0 <= i < flags@.len() && rotational_is_hdd(#[trigger] flags@[i]@),
    {
        let mut i: usize = 0;
        while i < flags.len()
            invariant
                i <= flags@.len(),
                forall|j: int| 0 <= j < i ==> !rotational_is_hdd(#[trigger] flags@[j]@),
            decreases flags@.len() - i,
        {
            if is_hdd(flags[i].as_str()) {
                return true;
            }
            i += 1;
        }
        false
    }

    /// Whether any recorded disk is a solid-state disk, given the rotational
    /// flag contents of the recorded disks in order. Matching follows the
    /// first device whose flag, trimmed, equals `0`.
    pub fn has_ssd(&self, flags: &Vec<String>) -> (r: bool)
        requires
            flags@.len() == self.spec_disks().len(),
        ensures
            r == exists|i: int|
                0 <= i < flags@.len() && rotational_is_ssd(#[trigger] flags@[i]@),
    {
        let mut i: usize = 0;
        while i < flags.len()
            invariant
                i <= flags@.len(),
                forall|j: int| 0 <= j < i ==> !rotational_is_ssd(#[trigger] flags@[j]@),
            decreases flags@.len() - i,
        {
            if is_ssd(flags[i].as_str()) {
                return true;
            }
            i += 1;
        }
        false
    }

    /// Starts a disk scan driven from outside: the caller reads each
    /// rotational flag this state machine asks for and feeds the content to
    /// `disk_scan_step`, so a match stops the scan before later devices are
    /// touched.
    pub fn begin_disk_scan(&self) -> (state: DiskScan)
        ensures
            self.spec_disks().len() == 0 ==> state == (DiskScan::Done { found: false }),
            self.spec_disks().len() > 0 ==> state == (DiskScan::ReadFlag { index: 0 }),
    {
        if self.disk_devices.len() == 0 {
            DiskScan::Done { found: false }
        } else {
            DiskScan::ReadFlag { index: 0 }
        }
    }

    /// Advances a disk scan with the rotational flag content read for the
    /// device at `index`; `want_hdd` selects whether the scan looks for a
    /// spinning or a solid-state disk.
    pub fn disk_scan_step(&self, index: usize, contents: &str, want_hdd: bool) -> (state: DiskScan)
        requires
            index < self.spec_disks().len(),
        ensures
            state == scan_step_result(
                self.spec_disks().len() as int,
                index as int,
                contents@,
                want_hdd,
            ),
    {
        let count = self.disk_devices.len();
        let matched = if want_hdd {
            is_hdd(contents)
        } else {
            is_ssd(contents)
        };
        if matched {
            DiskScan::Done { found: true }
        } else if index + 1 < count {
            DiskScan::ReadFlag { index: index + 1 }
        } else {
            DiskScan::Done { found: false }
        }
    }
}

} // verus!
