//! Read and write the IPv4 address of a named network interface.
//!
//! The kernel's interface-configuration channel exchanges fixed-layout
//! records: an address record (a two-byte family discriminant followed by
//! fourteen data bytes) embedded in an interface record (a fixed-width
//! interface name plus the address payload). This crate models those
//! records as explicit byte fields with verified accessors, provides the
//! codec between address records and generic IP address values, and models
//! the kernel's interface table so that the get/set control operations can
//! be stated and checked end to end. The actual socket and ioctl calls are
//! left to the surrounding program.

pub mod addr;
pub mod iface;
pub mod table;
