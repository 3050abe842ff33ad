//! The back end that answers from sysfs alone.

use crate::error::SensorError;
use crate::gpu::{
    device_reading, generic_readings, hwmon_reading, name_reading, power_reading, text_or_error,
    vram_reading, GpuFiles, GpuImpl, Readings,
};
use crate::pci::{Device, PciSlot};
use crate::sysfs::{scaled, Scaled};
use vstd::prelude::*;

verus! {

/// A graphics device known by its directories in sysfs. It answers every
/// reading from the files that DRM and hwmon offer for any driver, and knows
/// nothing of its media engines.
#[derive(Debug, Clone)]
pub struct SysfsGpu<'a> {
    pub device: Option<&'a Device>,
    pub pci_slot: PciSlot,
    pub driver: String,
    pub sysfs_path: String,
    pub first_hwmon_path: Option<String>,
}

/// The amount that a reading stands for, where it is one.
pub fn amount(raw: Result<i64, SensorError>) -> (r: Result<usize, SensorError>)
    ensures
        r == match raw {
            Ok(v) => if 0 <= v <= usize::MAX {
                Ok(v as usize)
            } else {
                Err(SensorError::Parse)
            },
            Err(e) => Err(e),
        },
{
    match raw {
        Ok(v) => {
            if v < 0 || v as u64 > usize::MAX as u64 {
                Err(SensorError::Parse)
            } else {
                Ok(v as usize)
            }
        },
        Err(e) => Err(e),
    }
}

impl<'a> SysfsGpu<'a> {
    pub fn new(
        device: Option<&'a Device>,
        pci_slot: PciSlot,
        driver: String,
        sysfs_path: String,
        first_hwmon_path: Option<String>,
    ) -> (r: Self)
        ensures
            r.device == device,
            r.pci_slot == pci_slot,
            r.driver == driver,
            r.sysfs_path == sysfs_path,
            r.first_hwmon_path == first_hwmon_path,
    {
        SysfsGpu { device, pci_slot, driver, sysfs_path, first_hwmon_path }
    }
}

impl<'a> GpuImpl for SysfsGpu<'a> {
    open spec fn known_device(&self) -> Option<Device> {
        match self.device {
            Some(d) => Some(*d),
            None => None,
        }
    }

    open spec fn card_dir(&self) -> String {
        self.sysfs_path
    }

    open spec fn hwmon_dir(&self) -> Option<String> {
        self.first_hwmon_path
    }

    open spec fn slot(&self) -> PciSlot {
        self.pci_slot
    }

    open spec fn readings(&self, files: &GpuFiles) -> Readings {
        generic_readings(self.hwmon_dir() is Some, files)
    }

    fn device(&self) -> (r: Option<&Device>) {
        self.device
    }

    fn pci_slot(&self) -> (r: PciSlot)
        ensures
            r == self.pci_slot,
    {
        self.pci_slot
    }

    fn driver(&self) -> (r: String)
        ensures
            r@ == self.driver@,
    {
        self.driver.clone()
    }

    fn sysfs_path(&self) -> (r: String)
        ensures
            r@ == self.sysfs_path@,
    {
        self.sysfs_path.clone()
    }

    fn first_hwmon(&self) -> (r: Option<String>)
        ensures
            match r {
                Some(p) => self.first_hwmon_path matches Some(q) && p@ == q@,
                None => self.first_hwmon_path is None,
            },
    {
        match &self.first_hwmon_path {
            Some(p) => Some(p.clone()),
            None => None,
        }
    }

    fn name(&self) -> (r: Result<String, SensorError>)
        ensures
            text_or_error(r) == name_reading(self.known_device()),
    {
        self.drm_name()
    }

    fn usage(&self, files: &GpuFiles) -> (r: Result<i64, SensorError>)
        ensures
            r == device_reading(files, "gpu_busy_percent"@),
    {
        self.drm_usage(files)
    }

    fn encode_usage(&self, files: &GpuFiles) -> (r: Result<i64, SensorError>)
        ensures
            r == Err::<i64, SensorError>(SensorError::Unsupported),
    {
        Err(SensorError::Unsupported)
    }

    fn decode_usage(&self, files: &GpuFiles) -> (r: Result<i64, SensorError>)
        ensures
            r == Err::<i64, SensorError>(SensorError::Unsupported),
    {
        Err(SensorError::Unsupported)
    }

    fn combined_media_engine(&self) -> (r: Result<bool, SensorError>)
        ensures
            r == Err::<bool, SensorError>(SensorError::Unsupported),
    {
        Err(SensorError::Unsupported)
    }

    fn used_vram(&self, files: &GpuFiles) -> (r: Result<usize, SensorError>)
        ensures
            r == vram_reading(files, "mem_info_vram_used"@),
    {
        amount(self.drm_used_vram(files))
    }

    fn total_vram(&self, files: &GpuFiles) -> (r: Result<usize, SensorError>)
        ensures
            r == vram_reading(files, "mem_info_vram_total"@),
    {
        amount(self.drm_total_vram(files))
    }

    fn temperature(&self, files: &GpuFiles) -> (r: Result<Scaled, SensorError>)
        ensures
            r == scaled(hwmon_reading(self.hwmon_dir() is Some, files, "temp1_input"@), 1000),
    {
        self.hwmon_temperature(files)
    }

    fn power_usage(&self, files: &GpuFiles) -> (r: Result<Scaled, SensorError>)
        ensures
            r == scaled(power_reading(self.hwmon_dir() is Some, files), 1_000_000),
    {
        self.hwmon_power_usage(files)
    }

    fn core_frequency(&self, files: &GpuFiles) -> (r: Result<Scaled, SensorError>)
        ensures
            r == scaled(hwmon_reading(self.hwmon_dir() is Some, files, "freq1_input"@), 1),
    {
        self.hwmon_core_frequency(files)
    }

    fn vram_frequency(&self, files: &GpuFiles) -> (r: Result<Scaled, SensorError>)
        ensures
            r == scaled(hwmon_reading(self.hwmon_dir() is Some, files, "freq2_input"@), 1),
    {
        self.hwmon_vram_frequency(files)
    }

    fn power_cap(&self, files: &GpuFiles) -> (r: Result<Scaled, SensorError>)
        ensures
            r == scaled(
                hwmon_reading(self.hwmon_dir() is Some, files, "power1_cap"@),
                1_000_000,
            ),
    {
        self.hwmon_power_cap(files)
    }

    fn power_cap_max(&self, files: &GpuFiles) -> (r: Result<Scaled, SensorError>)
        ensures
            r == scaled(
                hwmon_reading(self.hwmon_dir() is Some, files, "power1_cap_max"@),
                1_000_000,
            ),
    {
        self.hwmon_power_cap_max(files)
    }
}

} // verus!
