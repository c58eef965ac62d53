//! Verified core of a driver for the ANX7625 MIPI-to-DisplayPort bridge.
//!
//! The bridge itself is driven by a C driver that calls back into Rust for
//! bus access, pin control, delays and logging.  This crate holds the logic
//! of those callbacks and of the driver's Rust front end, each with a
//! contract proved by Verus: the EDID data model, the C-string helpers used
//! by the driver's logging, the I2C register-access protocol and the mapping
//! of the driver's status codes.

pub mod c_compat;
pub mod display;
pub mod driver;
pub mod i2c;

pub use display::{edid, edid_mode, edid_modes};
pub use display::{edid as Edid, edid_modes as EdidModes};
