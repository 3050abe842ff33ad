//! Finding the graphics devices: who a candidate is, by the `uevent` file of
//! its device directory, and which kind of device it is taken for.

use crate::backend::SysfsGpu;
use crate::error::SensorError;
use crate::gpu::{Gpu, GpuKind, GpuView, VID_AMD, VID_INTEL, VID_NVIDIA};
use crate::number::{parse_hex_u16, unsigned_value, within};
use crate::pci::{device_of, slot_of, Device, PciSlot};
use crate::text::{chars_of, first_of, position_of, same_chars, slice_of, string_of};
use crate::uevent::{lookup, value_of};
use vstd::prelude::*;

verus! {

/// An entry of the DRM class directory that may be a graphics device: its
/// path, the text of the `uevent` file of its device directory (`None`
/// where that could not be read), and the hwmon directories of the device,
/// in the order in which they were found.
#[derive(Debug, Clone, PartialEq, Eq)]
pub struct Candidate {
    pub path: String,
    pub uevent: Option<String>,
    pub hwmons: Vec<String>,
}

/// The kind that a device is taken for. The number of its vendor decides
/// where it is one of the three known numbers; only where it is none of
/// them does the name of the driver decide; and a device that neither
/// tells of is of the kind `Other`.
pub open spec fn kind_of(vid: u16, driver: Seq<char>) -> GpuKind {
    if vid == VID_AMD {
        GpuKind::Amd
    } else if vid == VID_INTEL {
        GpuKind::Intel
    } else if vid == VID_NVIDIA {
        GpuKind::Nvidia
    } else if driver == "amdgpu"@ {
        GpuKind::Amd
    } else if driver == "i915"@ {
        GpuKind::Intel
    } else if driver == "nvidia"@ {
        GpuKind::Nvidia
    } else {
        GpuKind::Other
    }
}

/// The 16 bits that `s` spells in hexadecimal, where it spells any.
pub open spec fn hex16(s: Seq<char>) -> Option<u16> {
    match within(unsigned_value(s, 16), 0xffff) {
        Some(v) => Some(v as u16),
        None => None,
    }
}

/// The numbers of vendor and product that the value `ids` of `PCI_ID`
/// gives: two numbers of 16 bits in hexadecimal with a colon between them.
/// `None` where it has another form.
pub open spec fn ids_of(ids: Seq<char>) -> Option<(u16, u16)> {
    let colon = first_of(ids, ':', 0);
    if colon < ids.len() {
        match (hex16(ids.subrange(0, colon)), hex16(ids.subrange(colon + 1, ids.len() as int))) {
            (Some(vid), Some(pid)) => Some((vid, pid)),
            _ => None,
        }
    } else {
        None
    }
}

/// The numbers of vendor and product that the `uevent` text gives under
/// `PCI_ID`. Both are zero where the text has no `PCI_ID` or its value is
/// malformed.
pub open spec fn pci_ids(uevent: Seq<char>) -> (u16, u16) {
    match value_of(uevent, "PCI_ID"@) {
        Some(ids) => match ids_of(ids) {
            Some(pair) => pair,
            None => (0, 0),
        },
        None => (0, 0),
    }
}

/// The value of `key` in the `uevent` text, or `absent` where it has none.
pub open spec fn value_or(uevent: Seq<char>, key: Seq<char>, absent: Seq<char>) -> Seq<char> {
    match value_of(uevent, key) {
        Some(v) => v,
        None => absent,
    }
}

/// Who the candidate is, or why it is no graphics device. `table` holds the
/// known devices, and `absent` is what stands for a value that the `uevent`
/// file does not give. The file must have been read and must name a PCI
/// slot; a device driven by `simple-framebuffer` is turned away.
pub open spec fn identity_of(c: Candidate, table: Seq<Device>, absent: Seq<char>) -> Result<
    GpuView,
    SensorError,
> {
    match c.uevent {
        Some(u) => {
            let ids = pci_ids(u@);
            let driver = value_or(u@, "DRIVER"@, absent);
            match slot_of(value_or(u@, "PCI_SLOT_NAME"@, absent)) {
                Some(slot) => if driver == "simple-framebuffer"@ {
                    Err(SensorError::NotAGpu)
                } else {
                    Ok(
                        GpuView {
                            kind: kind_of(ids.0, driver),
                            device: device_of(table, ids.0, ids.1),
                            pci_slot: slot,
                            driver,
                            sysfs_path: c.path@,
                            first_hwmon: if c.hwmons.len() > 0 {
                                Some(c.hwmons[0]@)
                            } else {
                                None
                            },
                        },
                    )
                },
                None => Err(SensorError::Parse),
            }
        },
        None => Err(SensorError::Unreadable),
    }
}

/// The devices among the candidates, in their order.
pub open spec fn discovered(
    candidates: Seq<Candidate>,
    table: Seq<Device>,
    absent: Seq<char>,
) -> Seq<GpuView>
    decreases candidates.len(),
{
    if candidates.len() == 0 {
        Seq::empty()
    } else {
        let before = discovered(candidates.drop_last(), table, absent);
        match identity_of(candidates.last(), table, absent) {
            Ok(g) => before.push(g),
            Err(_) => before,
        }
    }
}

/// Who each of the devices is.
pub open spec fn views_of(gpus: Seq<Gpu>) -> Seq<GpuView> {
    Seq::new(gpus.len(), |i: int| gpus[i]@)
}

/// Whether `vid` is one of the three vendor numbers that are known.
pub open spec fn known_vendor(vid: u16) -> bool {
    vid == VID_AMD || vid == VID_INTEL || vid == VID_NVIDIA
}

/// A known vendor number decides the kind whatever the driver is called:
/// 4098 is AMD, 32902 is Intel and 4318 is NVIDIA. Where the number is none
/// of these, zero among them, the name of the driver decides: `amdgpu` is
/// AMD, `i915` is Intel and `nvidia` is NVIDIA. Any other device is of the
/// kind `Other`.
pub proof fn lemma_vendor_dispatch(vid: u16, driver: Seq<char>)
    ensures
        vid == 4098 ==> kind_of(vid, driver) == GpuKind::Amd,
        vid == 32902 ==> kind_of(vid, driver) == GpuKind::Intel,
        vid == 4318 ==> kind_of(vid, driver) == GpuKind::Nvidia,
        !known_vendor(vid) && driver == "amdgpu"@ ==> kind_of(vid, driver) == GpuKind::Amd,
        !known_vendor(vid) && driver == "i915"@ ==> kind_of(vid, driver) == GpuKind::Intel,
        !known_vendor(vid) && driver == "nvidia"@ ==> kind_of(vid, driver) == GpuKind::Nvidia,
        !known_vendor(0),
        !known_vendor(vid) && driver != "amdgpu"@ && driver != "i915"@ && driver != "nvidia"@
            ==> kind_of(vid, driver) == GpuKind::Other,
{
    reveal_strlit("nvidia");
    reveal_strlit("amdgpu");
    reveal_strlit("i915");
    if driver == "nvidia"@ || driver == "i915"@ {
        assert(driver[0] != 'a');
    }
    if driver == "nvidia"@ {
        assert(driver[0] != 'i');
    }
}

/// No device that is found is driven by `simple-framebuffer`, and a
/// candidate that is driven by it is never taken for a device.
pub proof fn lemma_framebuffer_excluded(
    candidates: Seq<Candidate>,
    table: Seq<Device>,
    absent: Seq<char>,
)
    ensures
        forall|i: int|
            0 <= i < discovered(candidates, table, absent).len() ==> (#[trigger] discovered(
                candidates,
                table,
                absent,
            )[i]).driver != "simple-framebuffer"@,
        forall|c: Candidate|
            c.uevent matches Some(u) && value_or(u@, "DRIVER"@, absent) == "simple-framebuffer"@
                ==> (#[trigger] identity_of(c, table, absent)) is Err,
    decreases candidates.len(),
{
    if candidates.len() > 0 {
        lemma_framebuffer_excluded(candidates.drop_last(), table, absent);
    }
}

/// The kind that a device with the vendor number `vid` and the driver
/// `driver` is taken for.
pub fn classify(vid: u16, driver: &[char]) -> (r: GpuKind)
    ensures
        r == kind_of(vid, driver@),
{
    let amdgpu = chars_of("amdgpu");
    let i915 = chars_of("i915");
    let nvidia = chars_of("nvidia");
    if vid == VID_AMD {
        GpuKind::Amd
    } else if vid == VID_INTEL {
        GpuKind::Intel
    } else if vid == VID_NVIDIA {
        GpuKind::Nvidia
    } else if same_chars(driver, amdgpu.as_slice()) {
        GpuKind::Amd
    } else if same_chars(driver, i915.as_slice()) {
        GpuKind::Intel
    } else if same_chars(driver, nvidia.as_slice()) {
        GpuKind::Nvidia
    } else {
        GpuKind::Other
    }
}

/// The numbers of vendor and product in the text of a `uevent` file.
pub fn read_pci_ids(uevent: &[char]) -> (r: (u16, u16))
    ensures
        r == pci_ids(uevent@),
{
    let key = chars_of("PCI_ID");
    match lookup(uevent, key.as_slice()) {
        Some(ids) => {
            let ids = ids.as_slice();
            let colon = position_of(ids, ':', 0);
            if colon < ids.len() {
                let vid = slice_of(ids, 0, colon);
                let pid = slice_of(ids, colon + 1, ids.len());
                match (parse_hex_u16(vid.as_slice()), parse_hex_u16(pid.as_slice())) {
                    (Some(vid), Some(pid)) => (vid, pid),
                    _ => (0, 0),
                }
            } else {
                (0, 0)
            }
        },
        None => (0, 0),
    }
}

/// The value of `key` in the text of a `uevent` file, or `absent`.
fn read_or(uevent: &[char], key: &str, absent: &str) -> (r: Vec<char>)
    ensures
        r@ == value_or(uevent@, key@, absent@),
{
    let key = chars_of(key);
    match lookup(uevent, key.as_slice()) {
        Some(v) => v,
        None => chars_of(absent),
    }
}

impl<'a> Gpu<'a> {
    /// Makes out who the candidate is. It is an error if its `uevent` file
    /// was not read (`Unreadable`), if the file names no PCI slot (`Parse`),
    /// or if the device is driven by `simple-framebuffer` (`NotAGpu`).
    pub fn from_sysfs_path(candidate: &Candidate, table: &'a [Device], absent: &str) -> (r: Result<
        Gpu<'a>,
        SensorError,
    >)
        ensures
            match r {
                Ok(gpu) => identity_of(*candidate, table@, absent@) == Ok::<GpuView, SensorError>(
                    gpu@,
                ),
                Err(e) => identity_of(*candidate, table@, absent@) == Err::<GpuView, SensorError>(
                    e,
                ),
            },
    {
        let uevent = match &candidate.uevent {
            Some(u) => chars_of(u.as_str()),
            None => {
                return Err(SensorError::Unreadable);
            },
        };
        let uevent = uevent.as_slice();
        let (vid, pid) = read_pci_ids(uevent);
        let device = Device::from_vid_pid(table, vid, pid);
        let slot_name = read_or(uevent, "PCI_SLOT_NAME", absent);
        let pci_slot = match PciSlot::from_chars(slot_name.as_slice()) {
            Ok(slot) => slot,
            Err(e) => {
                return Err(e);
            },
        };
        let driver = read_or(uevent, "DRIVER", absent);
        let framebuffer = chars_of("simple-framebuffer");
        if same_chars(driver.as_slice(), framebuffer.as_slice()) {
            return Err(SensorError::NotAGpu);
        }
        let first_hwmon = if candidate.hwmons.len() > 0 {
            Some(candidate.hwmons[0].clone())
        } else {
            None
        };
        let kind = classify(vid, driver.as_slice());
        let backend = SysfsGpu::new(
            device,
            pci_slot,
            string_of(driver.as_slice()),
            candidate.path.clone(),
            first_hwmon,
        );
        let gpu = match kind {
            GpuKind::Amd => Gpu::Amd(backend),
            GpuKind::Intel => Gpu::Intel(backend),
            GpuKind::Nvidia => Gpu::Nvidia(backend),
            GpuKind::Other => Gpu::Other(backend),
        };
        Ok(gpu)
    }

    /// The graphics devices among the candidates, in their order. A
    /// candidate of which it cannot be made out who it is, or which is no
    /// graphics device, is passed over.
    pub fn get_gpus(candidates: &[Candidate], table: &'a [Device], absent: &str) -> (r: Vec<
        Gpu<'a>,
    >)
        ensures
            views_of(r@) == discovered(candidates@, table@, absent@),
    {
        let mut gpus: Vec<Gpu<'a>> = Vec::new();
        let mut i: usize = 0;
        while i < candidates.len()
            invariant
                i <= candidates.len(),
                views_of(gpus@) == discovered(candidates@.take(i as int), table@, absent@),
            decreases candidates.len() - i,
        {
            assert(candidates@.take(i + 1).drop_last() == candidates@.take(i as int));
            let ghost before = gpus@;
            match Gpu::from_sysfs_path(&candidates[i], table, absent) {
                Ok(gpu) => {
                    gpus.push(gpu);
                },
                Err(_) => {},
            }
            i += 1;
        }
        assert(candidates@.take(candidates.len() as int) == candidates@);
        gpus
    }
}

} // verus!
