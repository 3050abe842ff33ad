//! Hardware telemetry for Linux: what `lscpu`, `/proc/stat` and the
//! pseudo-files of sysfs say about the CPU and the graphics devices, made
//! into typed values.
//!
//! The library reads no file itself. Its functions take the text that was
//! read, and a file that could not be read as `None`, so that what they
//! return is a function of their arguments and is stated as such in their
//! contracts. Readings are kept exact: a temperature is a number of
//! thousandths of a degree, not a float.

pub mod backend;
pub mod cpu;
pub mod discovery;
pub mod error;
pub mod gpu;
pub mod number;
pub mod pci;
pub mod sensor;
pub mod sysfs;
pub mod text;
pub mod uevent;
