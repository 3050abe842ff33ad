//! Graphics devices: the readings every back end answers, the generic
//! answers from the DRM and hwmon files, and one snapshot of all of them.

use crate::backend::SysfsGpu;
use crate::error::{at_path, FileError, SensorError};
use crate::pci::{Device, PciSlot, Vendor};
use crate::sysfs::{
    file_text, int_reading, join_path, joined, parse_sysfs_int, read_file, scaled, NamedFile,
    Scaled,
};
use crate::text::{
    chars_of, string_of, strip_final_newline, text_of, texts, without_final_newline,
};
use vstd::prelude::*;

verus! {

/// The PCI vendor number of AMD.
pub const VID_AMD: u16 = 4098;

/// The PCI vendor number of Intel.
pub const VID_INTEL: u16 = 32902;

/// The PCI vendor number of NVIDIA.
pub const VID_NVIDIA: u16 = 4318;

/// The files of one graphics device as they were read at one time: those of
/// its card directory, of the device directory below it, and of its first
/// hwmon directory. A file that could not be read is not among them.
#[derive(Debug, Clone, PartialEq, Eq)]
pub struct GpuFiles {
    pub card: Vec<NamedFile>,
    pub device: Vec<NamedFile>,
    pub hwmon: Vec<NamedFile>,
}

impl GpuFiles {
    /// The files of the device directory that the generic readings ask for.
    pub fn device_names() -> (r: Vec<&'static str>)
        ensures
            texts(r@) == seq![
                "gpu_busy_percent"@,
                "mem_info_vram_used"@,
                "mem_info_vram_total"@,
            ],
    {
        let r: Vec<&'static str> = vec![
            "gpu_busy_percent",
            "mem_info_vram_used",
            "mem_info_vram_total",
        ];
        assert(texts(r@) =~= seq![
            "gpu_busy_percent"@,
            "mem_info_vram_used"@,
            "mem_info_vram_total"@,
        ]);
        r
    }

    /// The files of the hwmon directory that the generic readings ask for.
    pub fn hwmon_names() -> (r: Vec<&'static str>)
        ensures
            texts(r@) == seq![
                "temp1_input"@,
                "power1_average"@,
                "power1_input"@,
                "freq1_input"@,
                "freq2_input"@,
                "power1_cap"@,
                "power1_cap_max"@,
            ],
    {
        let r: Vec<&'static str> = vec![
            "temp1_input",
            "power1_average",
            "power1_input",
            "freq1_input",
            "freq2_input",
            "power1_cap",
            "power1_cap_max",
        ];
        assert(texts(r@) =~= seq![
            "temp1_input"@,
            "power1_average"@,
            "power1_input"@,
            "freq1_input"@,
            "freq2_input"@,
            "power1_cap"@,
            "power1_cap_max"@,
        ]);
        r
    }
}

/// The integer in the file `file` of the device directory.
pub open spec fn device_reading(files: &GpuFiles, file: Seq<char>) -> Result<i64, SensorError> {
    int_reading(file_text(files.device@, file))
}

/// The integer in the file `file` of the hwmon directory, for a device that
/// has one.
pub open spec fn hwmon_reading(has_hwmon: bool, files: &GpuFiles, file: Seq<char>) -> Result<
    i64,
    SensorError,
> {
    if has_hwmon {
        int_reading(file_text(files.hwmon@, file))
    } else {
        Err(SensorError::NoHwmon)
    }
}

/// The power drawn, in microwatts: the average where hwmon gives one, else
/// the momentary value.
pub open spec fn power_reading(has_hwmon: bool, files: &GpuFiles) -> Result<i64, SensorError> {
    match hwmon_reading(has_hwmon, files, "power1_average"@) {
        Ok(v) => Ok(v),
        Err(_) => hwmon_reading(has_hwmon, files, "power1_input"@),
    }
}

/// An amount of memory in bytes from the file `file` of the device
/// directory. A negative number, or one beyond `usize`, is no amount.
pub open spec fn vram_reading(files: &GpuFiles, file: Seq<char>) -> Result<usize, SensorError> {
    match device_reading(files, file) {
        Ok(v) => if 0 <= v <= usize::MAX {
            Ok(v as usize)
        } else {
            Err(SensorError::Parse)
        },
        Err(e) => Err(e),
    }
}

/// The name under which the table of known devices has the device.
pub open spec fn name_reading(device: Option<Device>) -> Result<Seq<char>, SensorError> {
    match device {
        Some(d) => Ok(d.name@),
        None => Err(SensorError::NoDevice),
    }
}

/// The path of the file `file` of the device directory of the card at
/// `card`.
pub open spec fn device_path(card: Seq<char>, file: Seq<char>) -> Seq<char> {
    joined(joined(card, "device"@), file)
}

/// The path of the file `file` of the hwmon directory at `hwmon`, where
/// there is one.
pub open spec fn hwmon_path(hwmon: Option<String>, file: Seq<char>) -> Option<Seq<char>> {
    match hwmon {
        Some(dir) => Some(joined(dir@, file)),
        None => None,
    }
}

/// The characters of a string that may be missing.
pub open spec fn text_or_error(r: Result<String, SensorError>) -> Result<Seq<char>, SensorError> {
    match r {
        Ok(s) => Ok(s@),
        Err(e) => Err(e),
    }
}

/// What a back end answers for each of its readings at one time: the
/// reading, or why there is none. Usage is in percent, memory in bytes.
#[derive(Clone, Copy, Debug, PartialEq, Eq)]
pub struct Readings {
    pub usage: Result<i64, SensorError>,
    pub encode_usage: Result<i64, SensorError>,
    pub decode_usage: Result<i64, SensorError>,
    pub used_vram: Result<usize, SensorError>,
    pub total_vram: Result<usize, SensorError>,
    pub temperature: Result<Scaled, SensorError>,
    pub power_usage: Result<Scaled, SensorError>,
    pub core_frequency: Result<Scaled, SensorError>,
    pub vram_frequency: Result<Scaled, SensorError>,
    pub power_cap: Result<Scaled, SensorError>,
    pub power_cap_max: Result<Scaled, SensorError>,
}

/// The readings that the files of DRM and hwmon give for any driver, for a
/// device with or without a hwmon directory. They tell nothing of the media
/// engines.
pub open spec fn generic_readings(has_hwmon: bool, files: &GpuFiles) -> Readings {
    Readings {
        usage: device_reading(files, "gpu_busy_percent"@),
        encode_usage: Err(SensorError::Unsupported),
        decode_usage: Err(SensorError::Unsupported),
        used_vram: vram_reading(files, "mem_info_vram_used"@),
        total_vram: vram_reading(files, "mem_info_vram_total"@),
        temperature: scaled(hwmon_reading(has_hwmon, files, "temp1_input"@), 1000),
        power_usage: scaled(power_reading(has_hwmon, files), 1_000_000),
        core_frequency: scaled(hwmon_reading(has_hwmon, files, "freq1_input"@), 1),
        vram_frequency: scaled(hwmon_reading(has_hwmon, files, "freq2_input"@), 1),
        power_cap: scaled(hwmon_reading(has_hwmon, files, "power1_cap"@), 1_000_000),
        power_cap_max: scaled(hwmon_reading(has_hwmon, files, "power1_cap_max"@), 1_000_000),
    }
}

/// What a back end for one kind of graphics device answers. A back end
/// states who the device is and what it answers for each reading, as its
/// driver allows; the provided methods answer from the files that DRM and
/// hwmon offer for every driver, and a back end may hand a reading on to
/// them.
pub trait GpuImpl {
    /// The record of the device in the table of known devices.
    spec fn known_device(&self) -> Option<Device>;

    /// The path of the card directory of the device.
    spec fn card_dir(&self) -> String;

    /// The path of the first hwmon directory of the device, where it has
    /// one.
    spec fn hwmon_dir(&self) -> Option<String>;

    /// The slot the device sits in.
    spec fn slot(&self) -> PciSlot;

    /// What the back end answers for each reading where the files of the
    /// device are `files`.
    spec fn readings(&self, files: &GpuFiles) -> Readings;

    fn device(&self) -> (r: Option<&Device>)
        ensures
            match r {
                Some(d) => self.known_device() == Some(*d),
                None => self.known_device() is None,
            },
    ;

    fn pci_slot(&self) -> (r: PciSlot)
        ensures
            r == self.slot(),
    ;

    fn driver(&self) -> String;

    fn sysfs_path(&self) -> (r: String)
        ensures
            r@ == self.card_dir()@,
    ;

    fn first_hwmon(&self) -> (r: Option<String>)
        ensures
            text_of(r) == text_of(self.hwmon_dir()),
    ;

    fn name(&self) -> Result<String, SensorError>;

    /// The share of time the device was busy, in percent.
    fn usage(&self, files: &GpuFiles) -> (r: Result<i64, SensorError>)
        ensures
            r == self.readings(files).usage,
    ;

    /// The share of time the encoder was busy, in percent.
    fn encode_usage(&self, files: &GpuFiles) -> (r: Result<i64, SensorError>)
        ensures
            r == self.readings(files).encode_usage,
    ;

    /// The share of time the decoder was busy, in percent.
    fn decode_usage(&self, files: &GpuFiles) -> (r: Result<i64, SensorError>)
        ensures
            r == self.readings(files).decode_usage,
    ;

    /// Whether encoding and decoding share one engine.
    fn combined_media_engine(&self) -> Result<bool, SensorError>;

    /// The memory in use, in bytes.
    fn used_vram(&self, files: &GpuFiles) -> (r: Result<usize, SensorError>)
        ensures
            r == self.readings(files).used_vram,
    ;

    /// All of the memory, in bytes.
    fn total_vram(&self, files: &GpuFiles) -> (r: Result<usize, SensorError>)
        ensures
            r == self.readings(files).total_vram,
    ;

    fn temperature(&self, files: &GpuFiles) -> (r: Result<Scaled, SensorError>)
        ensures
            r == self.readings(files).temperature,
    ;

    fn power_usage(&self, files: &GpuFiles) -> (r: Result<Scaled, SensorError>)
        ensures
            r == self.readings(files).power_usage,
    ;

    fn core_frequency(&self, files: &GpuFiles) -> (r: Result<Scaled, SensorError>)
        ensures
            r == self.readings(files).core_frequency,
    ;

    fn vram_frequency(&self, files: &GpuFiles) -> (r: Result<Scaled, SensorError>)
        ensures
            r == self.readings(files).vram_frequency,
    ;

    fn power_cap(&self, files: &GpuFiles) -> (r: Result<Scaled, SensorError>)
        ensures
            r == self.readings(files).power_cap,
    ;

    fn power_cap_max(&self, files: &GpuFiles) -> (r: Result<Scaled, SensorError>)
        ensures
            r == self.readings(files).power_cap_max,
    ;

    /// The integer in the file `file` of the card directory. A failure
    /// carries the path of the file.
    fn read_sysfs_int(&self, files: &GpuFiles, file: &str) -> (r: Result<i64, FileError>)
        ensures
            at_path(
                r,
                int_reading(file_text(files.card@, file@)),
                Some(joined(self.card_dir()@, file@)),
            ),
    {
        match parse_sysfs_int(read_file(files.card.as_slice(), file)) {
            Ok(v) => Ok(v),
            Err(kind) => Err(
                FileError { kind, path: Some(join_path(self.sysfs_path().as_str(), file)) },
            ),
        }
    }

    /// The text of the file `file` of the device directory, without the line
    /// feed at its end. A failure carries the path of the file.
    fn read_device_file(&self, files: &GpuFiles, file: &str) -> (r: Result<String, FileError>)
        ensures
            match r {
                Ok(s) => file_text(files.device@, file@) matches Some(t) && s@
                    == without_final_newline(t),
                Err(e) => file_text(files.device@, file@) is None && e.kind
                    == SensorError::Unreadable && text_of(e.path) == Some(
                    device_path(self.card_dir()@, file@),
                ),
            },
    {
        match read_file(files.device.as_slice(), file) {
            Some(t) => {
                let chars = chars_of(t);
                let stripped = strip_final_newline(chars.as_slice());
                Ok(string_of(stripped.as_slice()))
            },
            None => {
                let dir = join_path(self.sysfs_path().as_str(), "device");
                Err(
                    FileError {
                        kind: SensorError::Unreadable,
                        path: Some(join_path(dir.as_str(), file)),
                    },
                )
            },
        }
    }

    /// The integer in the file `file` of the device directory. A failure
    /// carries the path of the file.
    fn read_device_int(&self, files: &GpuFiles, file: &str) -> (r: Result<i64, FileError>)
        ensures
            at_path(r, device_reading(files, file@), Some(device_path(self.card_dir()@, file@))),
    {
        match parse_sysfs_int(read_file(files.device.as_slice(), file)) {
            Ok(v) => Ok(v),
            Err(kind) => {
                let dir = join_path(self.sysfs_path().as_str(), "device");
                Err(FileError { kind, path: Some(join_path(dir.as_str(), file)) })
            },
        }
    }

    /// The integer in the file `file` of the hwmon directory. A failure
    /// carries the path of the file; for a device without a hwmon directory
    /// there is none.
    fn read_hwmon_int(&self, files: &GpuFiles, file: &str) -> (r: Result<i64, FileError>)
        ensures
            at_path(
                r,
                hwmon_reading(self.hwmon_dir() is Some, files, file@),
                hwmon_path(self.hwmon_dir(), file@),
            ),
    {
        match self.first_hwmon() {
            Some(dir) => match parse_sysfs_int(read_file(files.hwmon.as_slice(), file)) {
                Ok(v) => Ok(v),
                Err(kind) => Err(FileError { kind, path: Some(join_path(dir.as_str(), file)) }),
            },
            None => Err(FileError { kind: SensorError::NoHwmon, path: None }),
        }
    }

    /// The name of the device in the table of known devices.
    fn drm_name(&self) -> (r: Result<String, SensorError>)
        ensures
            text_or_error(r) == name_reading(self.known_device()),
    {
        match self.device() {
            Some(d) => Ok(String::from_str(d.name())),
            None => Err(SensorError::NoDevice),
        }
    }

    /// The share of time the device was busy, in percent, from
    /// `gpu_busy_percent`.
    fn drm_usage(&self, files: &GpuFiles) -> (r: Result<i64, SensorError>)
        ensures
            r == device_reading(files, "gpu_busy_percent"@),
    {
        match self.read_device_int(files, "gpu_busy_percent") {
            Ok(v) => Ok(v),
            Err(e) => Err(e.kind),
        }
    }

    /// The memory in use, in bytes, from `mem_info_vram_used`.
    fn drm_used_vram(&self, files: &GpuFiles) -> (r: Result<i64, SensorError>)
        ensures
            r == device_reading(files, "mem_info_vram_used"@),
    {
        match self.read_device_int(files, "mem_info_vram_used") {
            Ok(v) => Ok(v),
            Err(e) => Err(e.kind),
        }
    }

    /// All of the memory, in bytes, from `mem_info_vram_total`.
    fn drm_total_vram(&self, files: &GpuFiles) -> (r: Result<i64, SensorError>)
        ensures
            r == device_reading(files, "mem_info_vram_total"@),
    {
        match self.read_device_int(files, "mem_info_vram_total") {
            Ok(v) => Ok(v),
            Err(e) => Err(e.kind),
        }
    }

    /// The temperature from `temp1_input`, which counts thousandths of a
    /// degree Celsius.
    fn hwmon_temperature(&self, files: &GpuFiles) -> (r: Result<Scaled, SensorError>)
        ensures
            r == scaled(hwmon_reading(self.hwmon_dir() is Some, files, "temp1_input"@), 1000),
    {
        match self.read_hwmon_int(files, "temp1_input") {
            Ok(v) => Ok(Scaled { raw: v, per_unit: 1000 }),
            Err(e) => Err(e.kind),
        }
    }

    /// The power drawn from `power1_average`, or from `power1_input` where
    /// that fails; both count millionths of a Watt.
    fn hwmon_power_usage(&self, files: &GpuFiles) -> (r: Result<Scaled, SensorError>)
        ensures
            r == scaled(power_reading(self.hwmon_dir() is Some, files), 1_000_000),
    {
        let raw = match self.read_hwmon_int(files, "power1_average") {
            Ok(v) => Ok(v),
            Err(_) => self.read_hwmon_int(files, "power1_input"),
        };
        match raw {
            Ok(v) => Ok(Scaled { raw: v, per_unit: 1_000_000 }),
            Err(e) => Err(e.kind),
        }
    }

    /// The clock of the cores from `freq1_input`, in Hz.
    fn hwmon_core_frequency(&self, files: &GpuFiles) -> (r: Result<Scaled, SensorError>)
        ensures
            r == scaled(hwmon_reading(self.hwmon_dir() is Some, files, "freq1_input"@), 1),
    {
        match self.read_hwmon_int(files, "freq1_input") {
            Ok(v) => Ok(Scaled { raw: v, per_unit: 1 }),
            Err(e) => Err(e.kind),
        }
    }

    /// The clock of the memory from `freq2_input`, in Hz.
    fn hwmon_vram_frequency(&self, files: &GpuFiles) -> (r: Result<Scaled, SensorError>)
        ensures
            r == scaled(hwmon_reading(self.hwmon_dir() is Some, files, "freq2_input"@), 1),
    {
        match self.read_hwmon_int(files, "freq2_input") {
            Ok(v) => Ok(Scaled { raw: v, per_unit: 1 }),
            Err(e) => Err(e.kind),
        }
    }

    /// The power limit from `power1_cap`, which counts millionths of a Watt.
    fn hwmon_power_cap(&self, files: &GpuFiles) -> (r: Result<Scaled, SensorError>)
        ensures
            r == scaled(
                hwmon_reading(self.hwmon_dir() is Some, files, "power1_cap"@),
                1_000_000,
            ),
    {
        match self.read_hwmon_int(files, "power1_cap") {
            Ok(v) => Ok(Scaled { raw: v, per_unit: 1_000_000 }),
            Err(e) => Err(e.kind),
        }
    }

    /// The highest power limit from `power1_cap_max`, which counts
    /// millionths of a Watt.
    fn hwmon_power_cap_max(&self, files: &GpuFiles) -> (r: Result<Scaled, SensorError>)
        ensures
            r == scaled(
                hwmon_reading(self.hwmon_dir() is Some, files, "power1_cap_max"@),
                1_000_000,
            ),
    {
        match self.read_hwmon_int(files, "power1_cap_max") {
            Ok(v) => Ok(Scaled { raw: v, per_unit: 1_000_000 }),
            Err(e) => Err(e.kind),
        }
    }
}

/// The kinds of graphics devices that are told apart.
#[derive(Clone, Copy, Debug, PartialEq, Eq, Structural)]
pub enum GpuKind {
    Amd,
    Nvidia,
    Intel,
    Other,
}

/// A graphics device: one of a closed set of kinds, each with the state of
/// its back end.
#[derive(Debug, Clone)]
pub enum Gpu<'a> {
    Amd(SysfsGpu<'a>),
    Nvidia(SysfsGpu<'a>),
    Intel(SysfsGpu<'a>),
    Other(SysfsGpu<'a>),
}

/// Who a graphics device is.
pub struct GpuView {
    pub kind: GpuKind,
    pub device: Option<Device>,
    pub pci_slot: PciSlot,
    pub driver: Seq<char>,
    pub sysfs_path: Seq<char>,
    pub first_hwmon: Option<Seq<char>>,
}

impl<'a> Gpu<'a> {
    /// The kind of the device.
    pub open spec fn kind(&self) -> GpuKind {
        match *self {
            Gpu::Amd(_) => GpuKind::Amd,
            Gpu::Nvidia(_) => GpuKind::Nvidia,
            Gpu::Intel(_) => GpuKind::Intel,
            Gpu::Other(_) => GpuKind::Other,
        }
    }

    /// The state of the back end.
    pub open spec fn backend(&self) -> SysfsGpu<'a> {
        match *self {
            Gpu::Amd(g) => g,
            Gpu::Nvidia(g) => g,
            Gpu::Intel(g) => g,
            Gpu::Other(g) => g,
        }
    }
}

impl<'a> View for Gpu<'a> {
    type V = GpuView;

    open spec fn view(&self) -> GpuView {
        GpuView {
            kind: self.kind(),
            device: self.backend().known_device(),
            pci_slot: self.backend().pci_slot,
            driver: self.backend().driver@,
            sysfs_path: self.backend().sysfs_path@,
            first_hwmon: text_of(self.backend().first_hwmon_path),
        }
    }
}

impl<'a> Default for Gpu<'a> {
    /// A device of which nothing is known.
    fn default() -> (r: Self)
        ensures
            r@ == (GpuView {
                kind: GpuKind::Other,
                device: None,
                pci_slot: PciSlot { domain: 0, bus: 0, number: 0, function: 0 },
                driver: Seq::empty(),
                sysfs_path: Seq::empty(),
                first_hwmon: None,
            }),
    {
        Gpu::Other(
            SysfsGpu::new(
                None,
                PciSlot { domain: 0, bus: 0, number: 0, function: 0 },
                String::new(),
                String::new(),
                None,
            ),
        )
    }
}

impl<'a> Gpu<'a> {
    /// The vendor of the device, from the table of known devices.
    pub fn get_vendor(&self) -> (r: Result<&Vendor, SensorError>)
        ensures
            match r {
                Ok(v) => self@.device matches Some(d) && *v == d.vendor,
                Err(e) => e == SensorError::NoDevice && self@.device is None,
            },
    {
        let device = match self {
            Gpu::Amd(gpu) => gpu.device(),
            Gpu::Nvidia(gpu) => gpu.device(),
            Gpu::Intel(gpu) => gpu.device(),
            Gpu::Other(gpu) => gpu.device(),
        };
        match device {
            Some(d) => Ok(d.vendor()),
            None => Err(SensorError::NoDevice),
        }
    }

    /// The slot the device sits in.
    pub fn pci_slot(&self) -> (r: PciSlot)
        ensures
            r == self@.pci_slot,
    {
        match self {
            Gpu::Amd(gpu) => gpu.pci_slot(),
            Gpu::Nvidia(gpu) => gpu.pci_slot(),
            Gpu::Intel(gpu) => gpu.pci_slot(),
            Gpu::Other(gpu) => gpu.pci_slot(),
        }
    }

    /// The name of the driver of the device.
    pub fn driver(&self) -> (r: String)
        ensures
            r@ == self@.driver,
    {
        match self {
            Gpu::Amd(gpu) => gpu.driver(),
            Gpu::Nvidia(gpu) => gpu.driver(),
            Gpu::Intel(gpu) => gpu.driver(),
            Gpu::Other(gpu) => gpu.driver(),
        }
    }

    /// The name of the device, from the table of known devices.
    pub fn name(&self) -> (r: Result<String, SensorError>)
        ensures
            text_or_error(r) == name_reading(self@.device),
    {
        match self {
            Gpu::Amd(gpu) => gpu.name(),
            Gpu::Nvidia(gpu) => gpu.name(),
            Gpu::Intel(gpu) => gpu.name(),
            Gpu::Other(gpu) => gpu.name(),
        }
    }

    /// The share of time the device was busy, in percent.
    pub fn usage(&self, files: &GpuFiles) -> (r: Result<i64, SensorError>)
        ensures
            r == device_reading(files, "gpu_busy_percent"@),
    {
        match self {
            Gpu::Amd(gpu) => gpu.usage(files),
            Gpu::Nvidia(gpu) => gpu.usage(files),
            Gpu::Intel(gpu) => gpu.usage(files),
            Gpu::Other(gpu) => gpu.usage(files),
        }
    }

    /// The share of time the encoder was busy, in percent.
    pub fn encode_usage(&self, files: &GpuFiles) -> (r: Result<i64, SensorError>)
        ensures
            r == Err::<i64, SensorError>(SensorError::Unsupported),
    {
        match self {
            Gpu::Amd(gpu) => gpu.encode_usage(files),
            Gpu::Nvidia(gpu) => gpu.encode_usage(files),
            Gpu::Intel(gpu) => gpu.encode_usage(files),
            Gpu::Other(gpu) => gpu.encode_usage(files),
        }
    }

    /// The share of time the decoder was busy, in percent.
    pub fn decode_usage(&self, files: &GpuFiles) -> (r: Result<i64, SensorError>)
        ensures
            r == Err::<i64, SensorError>(SensorError::Unsupported),
    {
        match self {
            Gpu::Amd(gpu) => gpu.decode_usage(files),
            Gpu::Nvidia(gpu) => gpu.decode_usage(files),
            Gpu::Intel(gpu) => gpu.decode_usage(files),
            Gpu::Other(gpu) => gpu.decode_usage(files),
        }
    }

    /// Whether encoding and decoding share one engine.
    pub fn combined_media_engine(&self) -> (r: Result<bool, SensorError>)
        ensures
            r == Err::<bool, SensorError>(SensorError::Unsupported),
    {
        match self {
            Gpu::Amd(gpu) => gpu.combined_media_engine(),
            Gpu::Nvidia(gpu) => gpu.combined_media_engine(),
            Gpu::Intel(gpu) => gpu.combined_media_engine(),
            Gpu::Other(gpu) => gpu.combined_media_engine(),
        }
    }

    /// The memory in use, in bytes.
    pub fn used_vram(&self, files: &GpuFiles) -> (r: Result<usize, SensorError>)
        ensures
            r == vram_reading(files, "mem_info_vram_used"@),
    {
        match self {
            Gpu::Amd(gpu) => gpu.used_vram(files),
            Gpu::Nvidia(gpu) => gpu.used_vram(files),
            Gpu::Intel(gpu) => gpu.used_vram(files),
            Gpu::Other(gpu) => gpu.used_vram(files),
        }
    }

    /// All of the memory, in bytes.
    pub fn total_vram(&self, files: &GpuFiles) -> (r: Result<usize, SensorError>)
        ensures
            r == vram_reading(files, "mem_info_vram_total"@),
    {
        match self {
            Gpu::Amd(gpu) => gpu.total_vram(files),
            Gpu::Nvidia(gpu) => gpu.total_vram(files),
            Gpu::Intel(gpu) => gpu.total_vram(files),
            Gpu::Other(gpu) => gpu.total_vram(files),
        }
    }

    /// The temperature, in thousandths of a degree Celsius.
    pub fn temperature(&self, files: &GpuFiles) -> (r: Result<Scaled, SensorError>)
        ensures
            r == scaled(hwmon_reading(self@.first_hwmon is Some, files, "temp1_input"@), 1000),
    {
        match self {
            Gpu::Amd(gpu) => gpu.temperature(files),
            Gpu::Nvidia(gpu) => gpu.temperature(files),
            Gpu::Intel(gpu) => gpu.temperature(files),
            Gpu::Other(gpu) => gpu.temperature(files),
        }
    }

    /// The power drawn, in millionths of a Watt.
    pub fn power_usage(&self, files: &GpuFiles) -> (r: Result<Scaled, SensorError>)
        ensures
            r == scaled(power_reading(self@.first_hwmon is Some, files), 1_000_000),
    {
        match self {
            Gpu::Amd(gpu) => gpu.power_usage(files),
            Gpu::Nvidia(gpu) => gpu.power_usage(files),
            Gpu::Intel(gpu) => gpu.power_usage(files),
            Gpu::Other(gpu) => gpu.power_usage(files),
        }
    }

    /// The clock of the cores, in Hz.
    pub fn core_frequency(&self, files: &GpuFiles) -> (r: Result<Scaled, SensorError>)
        ensures
            r == scaled(hwmon_reading(self@.first_hwmon is Some, files, "freq1_input"@), 1),
    {
        match self {
            Gpu::Amd(gpu) => gpu.core_frequency(files),
            Gpu::Nvidia(gpu) => gpu.core_frequency(files),
            Gpu::Intel(gpu) => gpu.core_frequency(files),
            Gpu::Other(gpu) => gpu.core_frequency(files),
        }
    }

    /// The clock of the memory, in Hz.
    pub fn vram_frequency(&self, files: &GpuFiles) -> (r: Result<Scaled, SensorError>)
        ensures
            r == scaled(hwmon_reading(self@.first_hwmon is Some, files, "freq2_input"@), 1),
    {
        match self {
            Gpu::Amd(gpu) => gpu.vram_frequency(files),
            Gpu::Nvidia(gpu) => gpu.vram_frequency(files),
            Gpu::Intel(gpu) => gpu.vram_frequency(files),
            Gpu::Other(gpu) => gpu.vram_frequency(files),
        }
    }

    /// The power limit, in millionths of a Watt.
    pub fn power_cap(&self, files: &GpuFiles) -> (r: Result<Scaled, SensorError>)
        ensures
            r == scaled(
                hwmon_reading(self@.first_hwmon is Some, files, "power1_cap"@),
                1_000_000,
            ),
    {
        match self {
            Gpu::Amd(gpu) => gpu.power_cap(files),
            Gpu::Nvidia(gpu) => gpu.power_cap(files),
            Gpu::Intel(gpu) => gpu.power_cap(files),
            Gpu::Other(gpu) => gpu.power_cap(files),
        }
    }

    /// The highest power limit, in millionths of a Watt.
    pub fn power_cap_max(&self, files: &GpuFiles) -> (r: Result<Scaled, SensorError>)
        ensures
            r == scaled(
                hwmon_reading(self@.first_hwmon is Some, files, "power1_cap_max"@),
                1_000_000,
            ),
    {
        match self {
            Gpu::Amd(gpu) => gpu.power_cap_max(files),
            Gpu::Nvidia(gpu) => gpu.power_cap_max(files),
            Gpu::Intel(gpu) => gpu.power_cap_max(files),
            Gpu::Other(gpu) => gpu.power_cap_max(files),
        }
    }
}

/// One snapshot of the readings of a graphics device. A reading that could
/// not be had is `None`, whatever became of the others.
#[derive(Clone, Copy, Debug, PartialEq, Eq, Structural)]
pub struct GpuData {
    pub pci_slot: PciSlot,
    /// The share of time the device was busy, between nought and one.
    pub usage_fraction: Option<Scaled>,
    /// The share of time the encoder was busy; for a device with one engine
    /// for both, that of the engine.
    pub encode_fraction: Option<Scaled>,
    pub decode_fraction: Option<Scaled>,
    pub total_vram: Option<usize>,
    pub used_vram: Option<usize>,
    pub clock_speed: Option<Scaled>,
    pub vram_speed: Option<Scaled>,
    pub temperature: Option<Scaled>,
    pub power_usage: Option<Scaled>,
    pub power_cap: Option<Scaled>,
    pub power_cap_max: Option<Scaled>,
    pub nvidia: bool,
}

/// `percent` held between 0 and 100.
pub open spec fn clamped_percent(percent: i64) -> i64 {
    if percent < 0 {
        0
    } else if percent > 100 {
        100
    } else {
        percent
    }
}

/// The share that a number of percent stands for: the hundredth part of it,
/// held between nought and one. `None` where there is no number.
pub open spec fn fraction(percent: Result<i64, SensorError>) -> Option<Scaled> {
    match percent {
        Ok(p) => Some(Scaled { raw: clamped_percent(p), per_unit: 100 }),
        Err(_) => None,
    }
}

/// The reading where there is one.
pub open spec fn had<T>(r: Result<T, SensorError>) -> Option<T> {
    match r {
        Ok(v) => Some(v),
        Err(_) => None,
    }
}

/// The snapshot that the readings `readings` of the device in `slot` make.
/// Each reading is taken by itself: one that failed is `None` and leaves the
/// others as they are. The usage of the device, of its encoder and of its
/// decoder are kept as shares between nought and one; every other reading is
/// kept as it is.
pub open spec fn snapshot(slot: PciSlot, readings: Readings, nvidia: bool) -> GpuData {
    GpuData {
        pci_slot: slot,
        usage_fraction: fraction(readings.usage),
        encode_fraction: fraction(readings.encode_usage),
        decode_fraction: fraction(readings.decode_usage),
        total_vram: had(readings.total_vram),
        used_vram: had(readings.used_vram),
        clock_speed: had(readings.core_frequency),
        vram_speed: had(readings.vram_frequency),
        temperature: had(readings.temperature),
        power_usage: had(readings.power_usage),
        power_cap: had(readings.power_cap),
        power_cap_max: had(readings.power_cap_max),
        nvidia,
    }
}

/// The snapshot of the device `gpu` that the files `files` give.
pub open spec fn snapshot_of(gpu: GpuView, files: &GpuFiles) -> GpuData {
    snapshot(
        gpu.pci_slot,
        generic_readings(gpu.first_hwmon is Some, files),
        gpu.kind == GpuKind::Nvidia,
    )
}

/// The share that is kept of `percent` percent is its hundredth part, held
/// between nought and one: nought below 0 percent, one above 100 percent.
pub proof fn lemma_fraction_clamps(percent: i64)
    ensures
        fraction(Ok(percent)) matches Some(f) && ({
            &&& f.per_unit == 100
            &&& 0 <= f.raw <= f.per_unit
            &&& percent <= 0 ==> f.raw == 0
            &&& 0 <= percent <= 100 ==> f.raw == percent
            &&& percent >= 100 ==> f.raw == 100
        }),
{
}

/// Whatever a back end answers, every share in the snapshot of its readings
/// lies between nought and one, and is the clamped hundredth part of the
/// percentage that was answered.
pub proof fn lemma_snapshot_fractions(slot: PciSlot, readings: Readings, nvidia: bool)
    ensures
        snapshot(slot, readings, nvidia).usage_fraction == fraction(readings.usage),
        snapshot(slot, readings, nvidia).encode_fraction == fraction(readings.encode_usage),
        snapshot(slot, readings, nvidia).decode_fraction == fraction(readings.decode_usage),
        snapshot(slot, readings, nvidia).usage_fraction matches Some(f) ==> 0 <= f.raw
            <= f.per_unit,
        snapshot(slot, readings, nvidia).encode_fraction matches Some(f) ==> 0 <= f.raw
            <= f.per_unit,
        snapshot(slot, readings, nvidia).decode_fraction matches Some(f) ==> 0 <= f.raw
            <= f.per_unit,
{
}

/// The share that a number of percent stands for.
pub fn fraction_of(percent: Result<i64, SensorError>) -> (r: Option<Scaled>)
    ensures
        r == fraction(percent),
{
    match percent {
        Ok(p) => {
            let raw: i64 = if p < 0 {
                0
            } else if p > 100 {
                100
            } else {
                p
            };
            Some(Scaled { raw, per_unit: 100 })
        },
        Err(_) => None,
    }
}

impl GpuData {
    /// Makes the snapshot of the readings `readings` of the device in
    /// `pci_slot`.
    pub fn from_readings(pci_slot: PciSlot, readings: Readings, nvidia: bool) -> (r: Self)
        ensures
            r == snapshot(pci_slot, readings, nvidia),
    {
        GpuData {
            pci_slot,
            usage_fraction: fraction_of(readings.usage),
            encode_fraction: fraction_of(readings.encode_usage),
            decode_fraction: fraction_of(readings.decode_usage),
            total_vram: readings.total_vram.ok(),
            used_vram: readings.used_vram.ok(),
            clock_speed: readings.core_frequency.ok(),
            vram_speed: readings.vram_frequency.ok(),
            temperature: readings.temperature.ok(),
            power_usage: readings.power_usage.ok(),
            power_cap: readings.power_cap.ok(),
            power_cap_max: readings.power_cap_max.ok(),
            nvidia,
        }
    }

    /// Asks the back end `gpu` for each of its readings from `files`, each
    /// by itself, and makes the snapshot of them. `nvidia` tells whether the
    /// device is to be marked as one of NVIDIA.
    pub fn sample<G: GpuImpl>(gpu: &G, files: &GpuFiles, nvidia: bool) -> (r: Self)
        ensures
            r == snapshot(gpu.slot(), gpu.readings(files), nvidia),
    {
        let readings = Readings {
            usage: gpu.usage(files),
            encode_usage: gpu.encode_usage(files),
            decode_usage: gpu.decode_usage(files),
            used_vram: gpu.used_vram(files),
            total_vram: gpu.total_vram(files),
            temperature: gpu.temperature(files),
            power_usage: gpu.power_usage(files),
            core_frequency: gpu.core_frequency(files),
            vram_frequency: gpu.vram_frequency(files),
            power_cap: gpu.power_cap(files),
            power_cap_max: gpu.power_cap_max(files),
        };
        GpuData::from_readings(gpu.pci_slot(), readings, nvidia)
    }

    /// Takes every reading of `gpu` from `files`, each by itself.
    pub fn new(gpu: &Gpu, files: &GpuFiles) -> (r: Self)
        ensures
            r == snapshot_of(gpu@, files),
    {
        match gpu {
            Gpu::Amd(backend) => GpuData::sample(backend, files, false),
            Gpu::Nvidia(backend) => GpuData::sample(backend, files, true),
            Gpu::Intel(backend) => GpuData::sample(backend, files, false),
            Gpu::Other(backend) => GpuData::sample(backend, files, false),
        }
    }
}

} // verus!
