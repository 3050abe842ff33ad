//! PCI identity: the slot a device sits in, and the records of a table of
//! known vendors and devices.

use crate::error::SensorError;
use crate::number::{is_numeral, numeral_value, parse_numeral};
use crate::text::{chars_of, first_of, position_of};
use vstd::prelude::*;

verus! {

/// The address of a PCI device: domain, bus, device number and function.
#[derive(Clone, Copy, Debug, PartialEq, Eq, Structural, Hash)]
pub struct PciSlot {
    pub domain: u16,
    pub bus: u8,
    pub number: u8,
    pub function: u8,
}

/// What `s` is worth as a hexadecimal numeral of at most `max`, without a
/// sign.
pub open spec fn hex_field(s: Seq<char>, max: nat) -> Option<nat> {
    if is_numeral(s, 16) && numeral_value(s, 16) <= max {
        Some(numeral_value(s, 16))
    } else {
        None
    }
}

/// The slot that `s` names in the form `dddd:bb:nn.f`: domain, bus, number
/// and function in hexadecimal, the domain of up to 16 bits and the others of
/// up to 8 bits, with a colon after the domain and after the bus and a point
/// before the function. `None` where `s` has another shape.
pub open spec fn slot_of(s: Seq<char>) -> Option<PciSlot> {
    let c1 = first_of(s, ':', 0);
    let c2 = first_of(s, ':', c1 + 1);
    let dot = first_of(s, '.', c2 + 1);
    if c1 < s.len() && c2 < s.len() && dot < s.len() {
        match (
            hex_field(s.subrange(0, c1), 0xffff),
            hex_field(s.subrange(c1 + 1, c2), 0xff),
            hex_field(s.subrange(c2 + 1, dot), 0xff),
            hex_field(s.subrange(dot + 1, s.len() as int), 0xff),
        ) {
            (Some(domain), Some(bus), Some(number), Some(function)) => Some(
                PciSlot {
                    domain: domain as u16,
                    bus: bus as u8,
                    number: number as u8,
                    function: function as u8,
                },
            ),
            _ => None,
        }
    } else {
        None
    }
}

impl PciSlot {
    /// Reads a slot written as `dddd:bb:nn.f`.
    pub fn from_str(s: &str) -> (r: Result<PciSlot, SensorError>)
        ensures
            match r {
                Ok(slot) => slot_of(s@) == Some(slot),
                Err(e) => e == SensorError::Parse && slot_of(s@) is None,
            },
    {
        let chars = chars_of(s);
        PciSlot::from_chars(chars.as_slice())
    }

    /// Reads a slot written as `dddd:bb:nn.f`, from its characters.
    pub fn from_chars(text: &[char]) -> (r: Result<PciSlot, SensorError>)
        ensures
            match r {
                Ok(slot) => slot_of(text@) == Some(slot),
                Err(e) => e == SensorError::Parse && slot_of(text@) is None,
            },
    {
        let n = text.len();
        let c1 = position_of(text, ':', 0);
        if c1 >= n {
            return Err(SensorError::Parse);
        }
        let c2 = position_of(text, ':', c1 + 1);
        if c2 >= n {
            return Err(SensorError::Parse);
        }
        let dot = position_of(text, '.', c2 + 1);
        if dot >= n {
            return Err(SensorError::Parse);
        }
        let domain = parse_numeral(text, 0, c1, 16, 0xffff);
        let bus = parse_numeral(text, c1 + 1, c2, 16, 0xff);
        let number = parse_numeral(text, c2 + 1, dot, 16, 0xff);
        let function = parse_numeral(text, dot + 1, n, 16, 0xff);
        match (domain, bus, number, function) {
            (Some(domain), Some(bus), Some(number), Some(function)) => Ok(
                PciSlot {
                    domain: domain as u16,
                    bus: bus as u8,
                    number: number as u8,
                    function: function as u8,
                },
            ),
            _ => Err(SensorError::Parse),
        }
    }
}

/// A vendor of PCI devices as the table of known devices records it.
#[derive(Debug, Clone, PartialEq, Eq)]
pub struct Vendor {
    pub id: u16,
    pub name: String,
}

/// A PCI device as the table of known devices records it.
#[derive(Debug, Clone, PartialEq, Eq)]
pub struct Device {
    pub vendor: Vendor,
    pub id: u16,
    pub name: String,
}

/// The index of the first record of `table` with the given vendor and
/// product numbers.
pub open spec fn device_index(table: Seq<Device>, vid: u16, pid: u16) -> Option<int>
    decreases table.len(),
{
    if table.len() == 0 {
        None
    } else {
        match device_index(table.drop_last(), vid, pid) {
            Some(i) => Some(i),
            None => if table.last().vendor.id == vid && table.last().id == pid {
                Some(table.len() - 1)
            } else {
                None
            },
        }
    }
}

/// The first record of `table` with the given vendor and product numbers.
pub open spec fn device_of(table: Seq<Device>, vid: u16, pid: u16) -> Option<Device> {
    match device_index(table, vid, pid) {
        Some(i) => Some(table[i]),
        None => None,
    }
}

impl Device {
    /// Looks up a device by the numbers of its vendor and of itself.
    pub fn from_vid_pid<'a>(table: &'a [Device], vid: u16, pid: u16) -> (r: Option<&'a Device>)
        ensures
            match r {
                Some(d) => device_of(table@, vid, pid) == Some(*d),
                None => device_of(table@, vid, pid) is None,
            },
    {
        let mut i: usize = 0;
        while i < table.len()
            invariant
                i <= table.len(),
                device_index(table@.take(i as int), vid, pid) is None,
            decreases table.len() - i,
        {
            assert(table@.take(i + 1).drop_last() == table@.take(i as int));
            if table[i].vendor.id == vid && table[i].id == pid {
                proof {
                    lemma_index_stays(table@, vid, pid, i + 1);
                }
                return Some(&table[i]);
            }
            i += 1;
        }
        assert(table@.take(table.len() as int) == table@);
        None
    }

    /// The name of the device.
    pub fn name(&self) -> (r: &str)
        ensures
            r@ == self.name@,
    {
        self.name.as_str()
    }

    /// The vendor of the device.
    pub fn vendor(&self) -> (r: &Vendor)
        ensures
            *r == self.vendor,
    {
        &self.vendor
    }
}

impl Vendor {
    /// The name of the vendor.
    pub fn name(&self) -> (r: &str)
        ensures
            r@ == self.name@,
    {
        self.name.as_str()
    }
}

/// A record found among the first `k` stays the one found in the whole.
proof fn lemma_index_stays(table: Seq<Device>, vid: u16, pid: u16, k: int)
    requires
        0 <= k <= table.len(),
        device_index(table.take(k), vid, pid) is Some,
    ensures
        device_index(table, vid, pid) == device_index(table.take(k), vid, pid),
    decreases table.len() - k,
{
    if k == table.len() {
        assert(table.take(k) == table);
    } else {
        assert(table.drop_last().take(k) == table.take(k));
        lemma_index_stays(table.drop_last(), vid, pid, k);
    }
}

} // verus!
