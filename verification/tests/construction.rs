use hwprobe::ComputerInfo;
use hwprobe::ProbeError;

fn strings(items: &[&str]) -> Vec<String> {
    items.iter().map(|s| s.to_string()).collect()
}

fn build(
    vendor: &str,
    family: &str,
    name: &str,
    entries: &[&str],
) -> Result<ComputerInfo, ProbeError> {
    ComputerInfo::new(
        Ok(vendor.to_string()),
        Ok(family.to_string()),
        Ok(name.to_string()),
        Some(strings(entries)),
    )
}

#[test]
fn vendor_alias_hyphenated() {
    let probe = build("Hewlett-Packard", "EliteBook", "EliteBook 840", &[]).unwrap();
    assert_eq!(probe.get_vendor(), "hp");
}

#[test]
fn vendor_alias_spaced() {
    let probe = build("Hewlett Packard", "EliteBook", "EliteBook 840", &[]).unwrap();
    assert_eq!(probe.get_vendor(), "hp");
}

#[test]
fn vendor_alias_by_containment() {
    let probe = build("  Hewlett-Packard Enterprise \n", "x", "y", &[]).unwrap();
    assert_eq!(probe.get_vendor(), "hp");
}

#[test]
fn vendor_without_alias_is_lowercased_trimmed() {
    let probe = build(" LENOVO \n", "ThinkPad X1", "20QD", &[]).unwrap();
    assert_eq!(probe.get_vendor(), "lenovo");
}

#[test]
fn framework_family_13in_corrected() {
    let probe = build("Framework", " 13in Laptop \n", "Laptop", &[]).unwrap();
    assert_eq!(probe.get_vendor(), "framework");
    assert_eq!(probe.get_product_family(), "13inch");
}

#[test]
fn framework_family_16in_corrected() {
    let probe = build("framework", "16IN LAPTOP", "Laptop", &[]).unwrap();
    assert_eq!(probe.get_product_family(), "16inch");
}

#[test]
fn framework_family_other_passes_through() {
    let probe = build("framework", " Desktop Mainboard ", "Board", &[]).unwrap();
    assert_eq!(probe.get_product_family(), "desktop mainboard");
}

#[test]
fn family_without_exception_entry_passes_through() {
    let probe = build("LENOVO", " 13in Laptop ", "x", &[]).unwrap();
    assert_eq!(probe.get_product_family(), "13in laptop");
}

#[test]
fn product_name_is_lowercased_trimmed() {
    let probe = build("LENOVO", "f", " ThinkPad X1 Carbon \n", &[]).unwrap();
    assert_eq!(probe.get_product_name(), "thinkpad x1 carbon");
}

#[test]
fn disk_devices_keep_only_sd_and_nvme_in_order() {
    let probe = build(
        "v",
        "f",
        "n",
        &["loop0", "sda", "ram0", "nvme0n1", "sr0", "sdb", "dm-0"],
    )
    .unwrap();
    assert_eq!(probe.disk_devices(), &strings(&["sda", "nvme0n1", "sdb"]));
}

#[test]
fn disk_devices_empty_when_nothing_matches() {
    let probe = build("v", "f", "n", &["loop0", "loop1", "zram0"]).unwrap();
    assert!(probe.disk_devices().is_empty());
}

#[test]
fn unreadable_vendor_fails_first() {
    let result = ComputerInfo::new(
        Err("permission denied".to_string()),
        Err("also broken".to_string()),
        Ok("n".to_string()),
        None,
    );
    assert_eq!(
        result.unwrap_err(),
        ProbeError::VendorReadError("permission denied".to_string())
    );
}

#[test]
fn unreadable_family_fails_after_vendor() {
    let result = ComputerInfo::new(
        Ok("LENOVO".to_string()),
        Err("no such file".to_string()),
        Ok("n".to_string()),
        Some(strings(&["sda"])),
    );
    assert_eq!(
        result.unwrap_err(),
        ProbeError::FamilyReadError("no such file".to_string())
    );
}

#[test]
fn unreadable_product_name_fails_third() {
    let result = ComputerInfo::new(
        Ok("LENOVO".to_string()),
        Ok("f".to_string()),
        Err("gone".to_string()),
        Some(strings(&["sda"])),
    );
    assert_eq!(
        result.unwrap_err(),
        ProbeError::ProductReadError("gone".to_string())
    );
}

#[test]
fn unreadable_block_directory_is_its_own_error() {
    let result = ComputerInfo::new(
        Ok("v".to_string()),
        Ok("f".to_string()),
        Ok("n".to_string()),
        None,
    );
    assert_eq!(result.unwrap_err(), ProbeError::DeviceEnumerationError);
}
