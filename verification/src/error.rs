//! Why a reading could not be had.

use crate::text::text_of;
use vstd::prelude::*;

verus! {

/// The ways in which one reading, or the identity of one device, can fail.
#[derive(Clone, Copy, Debug, PartialEq, Eq, Structural)]
pub enum SensorError {
    /// The file could not be read.
    Unreadable,
    /// The bytes are no text in UTF-8.
    Encoding,
    /// The text does not have the expected shape, or a field of it is no
    /// number of the expected type.
    Parse,
    /// The core asked for is not among those listed.
    OutOfRange,
    /// No sensor for the temperature of the CPU is known.
    NoSensor,
    /// The device has no hwmon directory.
    NoHwmon,
    /// The device has no record in the PCI database.
    NoDevice,
    /// The device does not expose this reading.
    Unsupported,
    /// The device is a plain framebuffer and no GPU.
    NotAGpu,
}

/// A reading from a file that failed: why, and the path of the file, where
/// there was a file to read.
#[derive(Debug, Clone, PartialEq, Eq)]
pub struct FileError {
    pub kind: SensorError,
    pub path: Option<String>,
}

/// Whether `r` is what `reading` is, with the path `path` where it is a
/// failure.
pub open spec fn at_path<T>(
    r: Result<T, FileError>,
    reading: Result<T, SensorError>,
    path: Option<Seq<char>>,
) -> bool {
    match r {
        Ok(v) => reading == Ok::<T, SensorError>(v),
        Err(e) => reading == Err::<T, SensorError>(e.kind) && text_of(e.path) == path,
    }
}

} // verus!
