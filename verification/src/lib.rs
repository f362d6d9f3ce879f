//! Typed bindings for the adjustable controls of a video capture device.
//!
//! The crate holds the rules by which a device's control descriptors are
//! grouped, bound and kept in step with the device. It performs no device
//! access itself: every value read from or written to the device is handed
//! in by the caller as a plain value, and every write the rules call for is
//! handed back as a plain value.

pub mod camera;
pub mod controls;
pub mod device;
pub mod files;
pub mod key_value_item;
pub mod registry;
pub mod widgets;
