//! Read-only introspection of local hardware identity.
//!
//! The crate normalizes the vendor, product-family and product-name strings
//! that firmware exposes, records the block devices that look like disks,
//! classifies disk media by rotational flag, and decides the environment
//! probes (sensor bus present, battery-backed machine, fingerprint reader on
//! the USB bus). All decisions are made over plain values; the thin I/O layer
//! that reads the kernel-exposed files and runs the USB-listing utility lives
//! outside this crate and hands the raw contents in.

pub mod names;
pub mod probe;
pub mod queries;
pub mod strutil;

pub use probe::ComputerInfo;
pub use probe::DiskScan;
pub use probe::ProbeError;
pub use queries::DirectoryState;
