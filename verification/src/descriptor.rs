//! The device description that the host reads from the image.
//!
//! The description is built once for a device and never changed: a version, a
//! name of exactly 128 bytes, the geometry and the timeouts of the device, and
//! the table of its sectors, which a terminating entry always ends.

use vstd::prelude::*;
use vstd::string::StringSliceAdditionalSpecFns;

verus! {

/// Version of the description's layout.
pub const DESCRIPTION_VERSION: u16 = 1;

/// Number of bytes of the name field.
pub const DEVICE_NAME_LEN: usize = 128;

/// Size and address of the entry that ends the sector table.
pub const SECTOR_END: u32 = 0xffff_ffff;

/// `bytes` brought to exactly `len` bytes: the bytes that fit are kept in
/// place, every byte after them is zero.
pub open spec fn zero_padded(bytes: Seq<u8>, len: nat) -> Seq<u8> {
    Seq::new(
        len,
        |i: int|
            if i < bytes.len() {
                bytes[i]
            } else {
                0u8
            },
    )
}

/// Lays the bytes of `msg` out in an array of `N` bytes. A string shorter than
/// the array is followed by zeros; a longer one is cut after `N` bytes.
pub fn arrayify_string<const N: usize>(msg: &'static str) -> (arr: [u8; N])
    ensures
        arr@ == zero_padded(msg.spec_bytes(), N as nat),
{
    let mut arr = [0u8; N];
    let msg_bytes = msg.as_bytes();
    let mut idx: usize = 0;

    while idx < msg_bytes.len() && idx < N
        invariant
            idx <= msg_bytes@.len(),
            idx <= N,
            msg_bytes@ == msg.spec_bytes(),
            forall|i: int| 0 <= i < idx ==> arr@[i] == msg_bytes@[i],
            forall|i: int| idx <= i < N ==> arr@[i] == 0u8,
        decreases N - idx,
    {
        arr[idx] = msg_bytes[idx];
        idx += 1;
    }

    arr
}

/// The name field has its full length whatever the name is; a name that fits
/// is followed by zeros only, and a name that does not fit is cut to the
/// length of the field.
pub proof fn lemma_zero_padded(bytes: Seq<u8>, len: nat)
    ensures
        zero_padded(bytes, len).len() == len,
        bytes.len() <= len ==> zero_padded(bytes, len) == bytes + Seq::new(
            (len - bytes.len()) as nat,
            |i: int| 0u8,
        ),
        bytes.len() >= len ==> zero_padded(bytes, len) == bytes.take(len as int),
{
}

/// One erase granule: a run of sectors of one size that starts at `address`.
#[derive(Debug, Copy, Clone, PartialEq, Eq, Hash, Structural)]
pub struct FlashSector {
    pub size: u32,
    pub address: u32,
}

impl FlashSector {
    /// The entry that ends every sector table.
    pub open spec fn spec_sentinel() -> FlashSector {
        FlashSector { size: SECTOR_END, address: SECTOR_END }
    }

    /// The entry that ends every sector table.
    #[verifier::when_used_as_spec(spec_sentinel)]
    pub fn sentinel() -> (sector: FlashSector)
        ensures
            sector == FlashSector::spec_sentinel(),
    {
        FlashSector { size: SECTOR_END, address: SECTOR_END }
    }
}

/// The sector table of a device: its declared sectors in the order given,
/// then the terminating entry.
pub open spec fn sector_table_of(declared: Seq<FlashSector>) -> Seq<FlashSector> {
    declared.push(FlashSector::spec_sentinel())
}

/// Builds the sector table of a device from its declared sectors.
pub fn sector_table(declared: &[FlashSector]) -> (table: Vec<FlashSector>)
    ensures
        table@ == sector_table_of(declared@),
{
    let mut table: Vec<FlashSector> = Vec::new();
    let mut idx: usize = 0;

    while idx < declared.len()
        invariant
            idx <= declared@.len(),
            table@ == declared@.take(idx as int),
        decreases declared@.len() - idx,
    {
        table.push(declared[idx]);
        idx += 1;
    }

    table.push(FlashSector::sentinel());
    table
}

/// A sector table has one entry more than there are declared sectors: it
/// lists the declared sectors unchanged and in order, and the terminating
/// entry comes last.
pub proof fn lemma_sector_table_ends(declared: Seq<FlashSector>)
    ensures
        sector_table_of(declared).len() == declared.len() + 1,
        sector_table_of(declared).drop_last() == declared,
        sector_table_of(declared).last() == FlashSector::spec_sentinel(),
{
}

/// The kind of memory a description is about.
#[derive(Debug, Copy, Clone, PartialEq, Eq, Hash, Structural)]
pub enum DeviceType {
    Unknown,
    Onchip,
    Ext8Bit,
    Ext16Bit,
    Ext32Bit,
    ExtSpi,
}

impl DeviceType {
    /// The tag that stands for this kind in the description.
    pub open spec fn spec_code(self) -> u16 {
        match self {
            DeviceType::Unknown => 0,
            DeviceType::Onchip => 1,
            DeviceType::Ext8Bit => 2,
            DeviceType::Ext16Bit => 3,
            DeviceType::Ext32Bit => 4,
            DeviceType::ExtSpi => 5,
        }
    }

    /// The tag that stands for this kind in the description.
    #[verifier::when_used_as_spec(spec_code)]
    pub fn code(self) -> (code: u16)
        ensures
            code == self.spec_code(),
    {
        match self {
            DeviceType::Unknown => 0,
            DeviceType::Onchip => 1,
            DeviceType::Ext8Bit => 2,
            DeviceType::Ext16Bit => 3,
            DeviceType::Ext32Bit => 4,
            DeviceType::ExtSpi => 5,
        }
    }
}

/// What is known of a device when its description is built.
pub struct DeviceConfig {
    /// Name of the device; only its first 128 bytes enter the description.
    pub device_name: &'static str,
    pub device_type: DeviceType,
    /// Address at which the flash starts.
    pub flash_address: u32,
    /// Size of the flash in bytes.
    pub flash_size: u32,
    /// Size of a programming page in bytes.
    pub page_size: u32,
    /// Value of a byte of erased flash.
    pub empty_value: u8,
    /// Time in milliseconds that programming a page may take.
    pub program_time_out: u32,
    /// Time in milliseconds that erasing a sector may take.
    pub erase_time_out: u32,
    /// The sectors of the device, in the order they are to be listed.
    pub sectors: Vec<FlashSector>,
}

/// A device description as plain values.
pub struct Description {
    pub vers: u16,
    pub dev_name: Seq<u8>,
    pub dev_type: DeviceType,
    pub dev_addr: u32,
    pub device_size: u32,
    pub page_size: u32,
    pub reserved: u32,
    pub empty: u8,
    pub program_time_out: u32,
    pub erase_time_out: u32,
    pub flash_sectors: Seq<FlashSector>,
}

impl Description {
    /// What holds of every description: the version and the reserved field
    /// are fixed, the name has its full length, and the sector table ends
    /// with the terminating entry.
    pub open spec fn wf(self) -> bool {
        &&& self.vers == DESCRIPTION_VERSION
        &&& self.dev_name.len() == DEVICE_NAME_LEN
        &&& self.reserved == 0
        &&& self.flash_sectors.len() >= 1
        &&& self.flash_sectors.last() == FlashSector::spec_sentinel()
    }

    /// The description of the device that `config` tells of.
    pub open spec fn of(config: DeviceConfig) -> Description {
        Description {
            vers: DESCRIPTION_VERSION,
            dev_name: zero_padded(config.device_name.spec_bytes(), DEVICE_NAME_LEN as nat),
            dev_type: config.device_type,
            dev_addr: config.flash_address,
            device_size: config.flash_size,
            page_size: config.page_size,
            reserved: 0,
            empty: config.empty_value,
            program_time_out: config.program_time_out,
            erase_time_out: config.erase_time_out,
            flash_sectors: sector_table_of(config.sectors@),
        }
    }
}

/// Whatever the configuration, the description built from it has the fixed
/// version and reserved field, a name of full length and a sector table that
/// ends with the terminating entry.
pub proof fn lemma_description_wf(config: DeviceConfig)
    ensures
        Description::of(config).wf(),
{
}

/// The description of one device, as the host expects to find it.
pub struct FlashDeviceDescription {
    vers: u16,
    dev_name: [u8; DEVICE_NAME_LEN],
    dev_type: DeviceType,
    dev_addr: u32,
    device_size: u32,
    page_size: u32,
    reserved: u32,
    empty: u8,
    program_time_out: u32,
    erase_time_out: u32,
    flash_sectors: Vec<FlashSector>,
}

impl View for FlashDeviceDescription {
    type V = Description;

    closed spec fn view(&self) -> Description {
        Description {
            vers: self.vers,
            dev_name: self.dev_name@,
            dev_type: self.dev_type,
            dev_addr: self.dev_addr,
            device_size: self.device_size,
            page_size: self.page_size,
            reserved: self.reserved,
            empty: self.empty,
            program_time_out: self.program_time_out,
            erase_time_out: self.erase_time_out,
            flash_sectors: self.flash_sectors@,
        }
    }
}

impl FlashDeviceDescription {
    #[verifier::type_invariant]
    closed spec fn inv(self) -> bool {
        self@.wf()
    }

    /// Builds the description of the device that `config` tells of.
    pub fn new(config: &DeviceConfig) -> (description: Self)
        ensures
            description@ == Description::of(*config),
            description@.wf(),
    {
        FlashDeviceDescription {
            vers: DESCRIPTION_VERSION,
            dev_name: arrayify_string(config.device_name),
            dev_type: config.device_type,
            dev_addr: config.flash_address,
            device_size: config.flash_size,
            page_size: config.page_size,
            reserved: 0,
            empty: config.empty_value,
            program_time_out: config.program_time_out,
            erase_time_out: config.erase_time_out,
            flash_sectors: sector_table(config.sectors.as_slice()),
        }
    }

    /// Version of the description's layout.
    pub fn vers(&self) -> (vers: u16)
        ensures
            vers == self@.vers,
            vers == DESCRIPTION_VERSION,
    {
        proof {
            use_type_invariant(self);
        }
        self.vers
    }

    /// The name field.
    pub fn dev_name(&self) -> (name: &[u8; DEVICE_NAME_LEN])
        ensures
            name@ == self@.dev_name,
    {
        &self.dev_name
    }

    /// The kind of memory.
    pub fn dev_type(&self) -> (kind: DeviceType)
        ensures
            kind == self@.dev_type,
    {
        self.dev_type
    }

    /// Address at which the flash starts.
    pub fn dev_addr(&self) -> (address: u32)
        ensures
            address == self@.dev_addr,
    {
        self.dev_addr
    }

    /// Size of the flash in bytes.
    pub fn device_size(&self) -> (size: u32)
        ensures
            size == self@.device_size,
    {
        self.device_size
    }

    /// Size of a programming page in bytes.
    pub fn page_size(&self) -> (size: u32)
        ensures
            size == self@.page_size,
    {
        self.page_size
    }

    /// The reserved field.
    pub fn reserved(&self) -> (reserved: u32)
        ensures
            reserved == self@.reserved,
            reserved == 0,
    {
        proof {
            use_type_invariant(self);
        }
        self.reserved
    }

    /// Value of a byte of erased flash.
    pub fn empty(&self) -> (value: u8)
        ensures
            value == self@.empty,
    {
        self.empty
    }

    /// Time in milliseconds that programming a page may take.
    pub fn program_time_out(&self) -> (millis: u32)
        ensures
            millis == self@.program_time_out,
    {
        self.program_time_out
    }

    /// Time in milliseconds that erasing a sector may take.
    pub fn erase_time_out(&self) -> (millis: u32)
        ensures
            millis == self@.erase_time_out,
    {
        self.erase_time_out
    }

    /// The sector table, terminating entry included.
    pub fn flash_sectors(&self) -> (table: &[FlashSector])
        ensures
            table@ == self@.flash_sectors,
            table@.len() >= 1,
            table@.last() == FlashSector::spec_sentinel(),
    {
        proof {
            use_type_invariant(self);
        }
        self.flash_sectors.as_slice()
    }
}

} // verus!
