//! Status monitoring for Keychron wireless mice and receivers.
//!
//! The crate decodes the vendor HID reports of a device into one accumulated
//! [`report::Report`], picks the device to watch among the enumerated ones,
//! drives the session that discovers, opens and listens to it, and decides what
//! the tray shows of it.

pub mod bits;
pub mod input_report;
pub mod keychron_device;
pub mod keychron_hid;
pub mod report;
pub mod session;
pub mod status_slot;
pub mod text;
pub mod tray;
