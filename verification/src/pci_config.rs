//! PCI configuration space: finding an NVIDIA GPU, reading its BARs and
//! turning on bus mastering.

use vstd::prelude::*;
use vstd::string::*;
use crate::access::{perform, tail, word64, Access, Step};
use crate::text::{all_digits, append_hex, hex, hex_reads_back, number_of};

verus! {

/// NVIDIA PCI vendor ID.
pub const NVIDIA_VENDOR_ID: u16 = 0x10DE;

/// Configuration offset of the vendor ID.
pub const PCI_VENDOR_ID: u8 = 0x00;

/// Configuration offset of the device ID.
pub const PCI_DEVICE_ID: u8 = 0x02;

/// Configuration offset of the command register.
pub const PCI_COMMAND: u8 = 0x04;

/// Configuration offset of the status register.
pub const PCI_STATUS: u8 = 0x06;

/// Configuration offset of the revision.
pub const PCI_REVISION: u8 = 0x08;

/// Configuration offset of the class code.
pub const PCI_CLASS_CODE: u8 = 0x09;

/// Configuration offset of BAR0.
pub const PCI_BAR0: u8 = 0x10;

/// Configuration offset of BAR1.
pub const PCI_BAR1: u8 = 0x14;

/// Configuration offset of BAR2.
pub const PCI_BAR2: u8 = 0x18;

/// Configuration offset of BAR3.
pub const PCI_BAR3: u8 = 0x1C;

/// Configuration offset of BAR4.
pub const PCI_BAR4: u8 = 0x20;

/// Configuration offset of BAR5.
pub const PCI_BAR5: u8 = 0x24;

/// Command register bit 0: respond to I/O space.
pub const PCI_CMD_IO_SPACE: u16 = 0x1;

/// Command register bit 1: respond to memory space.
pub const PCI_CMD_MEMORY_SPACE: u16 = 0x2;

/// Command register bit 2: act as a bus master.
pub const PCI_CMD_BUS_MASTER: u16 = 0x4;

/// GPU architecture families, from Kepler (2012) to Ada Lovelace (2022).
#[derive(Debug, Clone, Copy, PartialEq, Eq, Structural)]
pub enum GpuFamily {
    /// GK1xx (2012)
    Kepler,
    /// GM1xx and GM2xx (2014)
    Maxwell,
    /// GP1xx (2016)
    Pascal,
    /// GV1xx (2017)
    Volta,
    /// TU1xx (2018)
    Turing,
    /// GA1xx (2020)
    Ampere,
    /// AD1xx (2022)
    Ada,
    /// Unrecognized GPU family
    Unknown,
}

impl GpuFamily {
    /// The display name of the family.
    pub open spec fn display_name(self) -> Seq<char> {
        match self {
            GpuFamily::Kepler => "Kepler"@,
            GpuFamily::Maxwell => "Maxwell"@,
            GpuFamily::Pascal => "Pascal"@,
            GpuFamily::Volta => "Volta"@,
            GpuFamily::Turing => "Turing"@,
            GpuFamily::Ampere => "Ampere"@,
            GpuFamily::Ada => "Ada Lovelace"@,
            GpuFamily::Unknown => "Unknown"@,
        }
    }

    /// The display name of the family.
    pub fn name(&self) -> (name: &'static str)
        ensures
            name@ == self.display_name(),
    {
        match self {
            GpuFamily::Kepler => "Kepler",
            GpuFamily::Maxwell => "Maxwell",
            GpuFamily::Pascal => "Pascal",
            GpuFamily::Volta => "Volta",
            GpuFamily::Turing => "Turing",
            GpuFamily::Ampere => "Ampere",
            GpuFamily::Ada => "Ada Lovelace",
            GpuFamily::Unknown => "Unknown",
        }
    }
}

impl DeepView for GpuFamily {
    type V = GpuFamily;

    open spec fn deep_view(&self) -> GpuFamily {
        *self
    }
}

/// The GPU family of a PCI device ID. Device IDs are assigned in blocks of
/// sixteen. The GV100 block lies inside the range of the Pascal chips, and the
/// AD10x blocks follow those of the Ampere chips.
pub open spec fn family_of(device_id: u16) -> GpuFamily {
    let block = device_id / 16;
    if 0x0E0 <= block <= 0x10F || 0x118 <= block <= 0x11F {
        GpuFamily::Kepler
    } else if 0x130 <= block <= 0x14F || 0x170 <= block <= 0x17F {
        GpuFamily::Maxwell
    } else if 0x1D8 <= block <= 0x1DF {
        GpuFamily::Volta
    } else if 0x150 <= block <= 0x15F || 0x1B0 <= block <= 0x1D7 {
        GpuFamily::Pascal
    } else if 0x1E0 <= block <= 0x1FF || 0x218 <= block <= 0x21F {
        GpuFamily::Turing
    } else if 0x220 <= block <= 0x25F {
        GpuFamily::Ampere
    } else if 0x260 <= block <= 0x28F {
        GpuFamily::Ada
    } else {
        GpuFamily::Unknown
    }
}

/// Maps a PCI device ID to its GPU family.
pub fn device_id_to_family(device_id: u16) -> (family: GpuFamily)
    ensures
        family == family_of(device_id),
{
    let block: u16 = device_id / 16;
    match block {
        // GK104, GK107/GK208, GK110, GK106
        0x0E0..=0x0EF => GpuFamily::Kepler,
        0x0F0..=0x0FF => GpuFamily::Kepler,
        0x100..=0x10F => GpuFamily::Kepler,
        0x118..=0x11F => GpuFamily::Kepler,
        // GM107/GM108, GM204/GM206, GM200
        0x130..=0x13F => GpuFamily::Maxwell,
        0x140..=0x14F => GpuFamily::Maxwell,
        0x170..=0x17F => GpuFamily::Maxwell,
        // GV100
        0x1D8..=0x1DF => GpuFamily::Volta,
        // GP100, GP102, GP104/GP106/GP107, GP108
        0x150..=0x15F => GpuFamily::Pascal,
        0x1B0..=0x1BF => GpuFamily::Pascal,
        0x1C0..=0x1CF => GpuFamily::Pascal,
        0x1D0..=0x1D7 => GpuFamily::Pascal,
        // TU102/TU104, TU106/TU116/TU117, TU116 mobile
        0x1E0..=0x1EF => GpuFamily::Turing,
        0x1F0..=0x1FF => GpuFamily::Turing,
        0x218..=0x21F => GpuFamily::Turing,
        // GA102, GA103, GA104, GA106
        0x220..=0x22F => GpuFamily::Ampere,
        0x230..=0x23F => GpuFamily::Ampere,
        0x240..=0x24F => GpuFamily::Ampere,
        0x250..=0x25F => GpuFamily::Ampere,
        // AD102, AD103/AD104, AD106/AD107
        0x260..=0x26F => GpuFamily::Ada,
        0x270..=0x27F => GpuFamily::Ada,
        0x280..=0x28F => GpuFamily::Ada,
        _ => GpuFamily::Unknown,
    }
}

/// The name of a known device ID.
pub open spec fn known_name(device_id: u16) -> Option<Seq<char>> {
    match device_id {
        0x2482 => Some("NVIDIA GeForce RTX 3070 Ti"@),
        0x2484 => Some("NVIDIA GeForce RTX 3070 Ti"@),
        0x2486 => Some("NVIDIA GeForce RTX 3070 Ti Mobile"@),
        0x2488 => Some("NVIDIA GeForce RTX 3070 Ti Laptop GPU"@),
        0x2204 => Some("NVIDIA GeForce RTX 3090"@),
        0x2206 => Some("NVIDIA GeForce RTX 3080"@),
        0x2208 => Some("NVIDIA GeForce RTX 3080 Ti"@),
        0x2503 => Some("NVIDIA GeForce RTX 3060"@),
        0x2504 => Some("NVIDIA GeForce RTX 3060 Ti"@),
        0x1E04 => Some("NVIDIA GeForce RTX 2080 Ti"@),
        0x1E07 => Some("NVIDIA GeForce RTX 2080"@),
        0x1F02 => Some("NVIDIA GeForce RTX 2070"@),
        0x1F08 => Some("NVIDIA GeForce RTX 2060"@),
        0x2684 => Some("NVIDIA GeForce RTX 4090"@),
        0x2704 => Some("NVIDIA GeForce RTX 4080"@),
        0x2782 => Some("NVIDIA GeForce RTX 4070 Ti"@),
        _ => None,
    }
}

/// The human-readable name of a device ID: the known name, or one that gives
/// the ID in four hexadecimal digits.
pub open spec fn name_of(device_id: u16) -> Seq<char> {
    match known_name(device_id) {
        Some(name) => name,
        None => "NVIDIA GPU (device_id=0x"@ + hex(device_id as nat, 4) + ")"@,
    }
}

/// Maps a PCI device ID to a human-readable GPU name.
pub fn device_id_to_name(device_id: u16) -> (name: String)
    ensures
        name@ == name_of(device_id),
{
    match device_id {
        // GA104
        0x2482 => "NVIDIA GeForce RTX 3070 Ti".to_owned(),
        0x2484 => "NVIDIA GeForce RTX 3070 Ti".to_owned(),
        0x2486 => "NVIDIA GeForce RTX 3070 Ti Mobile".to_owned(),
        0x2488 => "NVIDIA GeForce RTX 3070 Ti Laptop GPU".to_owned(),
        // GA102
        0x2204 => "NVIDIA GeForce RTX 3090".to_owned(),
        0x2206 => "NVIDIA GeForce RTX 3080".to_owned(),
        0x2208 => "NVIDIA GeForce RTX 3080 Ti".to_owned(),
        // GA106
        0x2503 => "NVIDIA GeForce RTX 3060".to_owned(),
        0x2504 => "NVIDIA GeForce RTX 3060 Ti".to_owned(),
        // Turing
        0x1E04 => "NVIDIA GeForce RTX 2080 Ti".to_owned(),
        0x1E07 => "NVIDIA GeForce RTX 2080".to_owned(),
        0x1F02 => "NVIDIA GeForce RTX 2070".to_owned(),
        0x1F08 => "NVIDIA GeForce RTX 2060".to_owned(),
        // Ada Lovelace
        0x2684 => "NVIDIA GeForce RTX 4090".to_owned(),
        0x2704 => "NVIDIA GeForce RTX 4080".to_owned(),
        0x2782 => "NVIDIA GeForce RTX 4070 Ti".to_owned(),
        _ => {
            let mut name = "NVIDIA GPU (device_id=0x".to_owned();
            append_hex(&mut name, device_id as u64, 4);
            name.append(")");
            name
        },
    }
}

/// The configuration mechanism 1 address of a register: enable bit, bus,
/// device, function and dword offset.
pub open spec fn config_address(bus: u8, device: u8, function: u8, offset: u8) -> u32 {
    0x8000_0000u32 | ((bus as u32) << 16) | ((device as u32) << 11) | ((function as u32) << 8) | ((
    offset as u32) & 0xFC)
}

/// The access that reads a configuration dword.
pub open spec fn config_read(bus: u8, device: u8, function: u8, offset: u8) -> Access {
    Access::ReadConfig { address: config_address(bus, device, function, offset) }
}

/// The access that writes a configuration dword.
pub open spec fn config_write(
    bus: u8,
    device: u8,
    function: u8,
    offset: u8,
    value: u32,
) -> Access {
    Access::WriteConfig { address: config_address(bus, device, function, offset), value }
}

fn encode_config_address(bus: u8, device: u8, function: u8, offset: u8) -> (address: u32)
    ensures
        address == config_address(bus, device, function, offset),
{
    0x8000_0000u32 | ((bus as u32) << 16) | ((device as u32) << 11) | ((function as u32) << 8) | ((
    offset as u32) & 0xFC)
}

/// Asks for a 32-bit value of PCI configuration space.
pub fn pci_config_read32(bus: u8, device: u8, function: u8, offset: u8) -> (access: Access)
    ensures
        access == config_read(bus, device, function, offset),
{
    Access::ReadConfig { address: encode_config_address(bus, device, function, offset) }
}

/// Asks for a write of a 32-bit value of PCI configuration space.
pub fn pci_config_write32(bus: u8, device: u8, function: u8, offset: u8, value: u32) -> (access:
    Access)
    ensures
        access == config_write(bus, device, function, offset, value),
{
    Access::WriteConfig { address: encode_config_address(bus, device, function, offset), value }
}

/// Whether a configuration offset names the upper half of its dword.
pub open spec fn is_upper_half(offset: u8) -> bool {
    (offset / 2) % 2 == 1
}

/// The 16-bit half of a dword that `offset` names.
pub open spec fn half_at(dword: u32, offset: u8) -> u16 {
    if is_upper_half(offset) {
        (dword / 0x1_0000) as u16
    } else {
        (dword % 0x1_0000) as u16
    }
}

/// A dword with the half that `offset` names replaced by `value`.
pub open spec fn with_half(dword: u32, offset: u8, value: u16) -> u32 {
    if is_upper_half(offset) {
        (value * 0x1_0000 + dword % 0x1_0000) as u32
    } else {
        (dword / 0x1_0000 * 0x1_0000 + value) as u32
    }
}

/// Reads a 16-bit value from PCI configuration space.
pub fn pci_config_read16(
    bus: u8,
    device: u8,
    function: u8,
    offset: u8,
    replies: &[u32],
) -> (step: Step<u16>)
    ensures
        step == perform(
            seq![config_read(bus, device, function, offset)],
            replies@,
            half_at(replies@[0], offset),
        ),
{
    if replies.len() == 0 {
        return Step::Next(pci_config_read32(bus, device, function, offset));
    }
    let dword: u32 = replies[0];
    let value: u16 = if (offset / 2) % 2 == 1 {
        (dword / 0x1_0000) as u16
    } else {
        (dword % 0x1_0000) as u16
    };
    Step::Done { result: value, used: 1 }
}

/// The accesses that write one half of a configuration dword whose value was
/// `dword`.
pub open spec fn write16_accesses(
    bus: u8,
    device: u8,
    function: u8,
    offset: u8,
    value: u16,
    dword: u32,
) -> Seq<Access> {
    seq![
        config_read(bus, device, function, offset),
        config_write(bus, device, function, offset, with_half(dword, offset, value)),
    ]
}

/// Writes a 16-bit value to PCI configuration space, keeping the other half of
/// its dword.
pub fn pci_config_write16(
    bus: u8,
    device: u8,
    function: u8,
    offset: u8,
    value: u16,
    replies: &[u32],
) -> (step: Step<()>)
    ensures
        step == perform(
            write16_accesses(bus, device, function, offset, value, replies@[0]),
            replies@,
            (),
        ),
{
    let n: usize = replies.len();
    if n == 0 {
        Step::Next(pci_config_read32(bus, device, function, offset))
    } else if n == 1 {
        let dword: u32 = replies[0];
        let merged: u32 = if (offset / 2) % 2 == 1 {
            value as u32 * 0x1_0000 + dword % 0x1_0000
        } else {
            dword / 0x1_0000 * 0x1_0000 + value as u32
        };
        Step::Next(pci_config_write32(bus, device, function, offset, merged))
    } else {
        Step::Done { result: (), used: 2 }
    }
}

/// Whether a BAR is 64 bits wide: bits [2:1] hold 0b10.
pub open spec fn bar_is_64bit(bar_lo: u32) -> bool {
    (bar_lo / 2) % 4 == 2
}

/// Whether a BAR is a memory BAR: bit 0 is clear.
pub open spec fn bar_is_memory(bar_lo: u32) -> bool {
    bar_lo % 2 == 0
}

/// The base address that a BAR holds, without its four type bits.
pub open spec fn bar_base(bar_lo: u32, bar_hi: u32) -> u64 {
    let low = (bar_lo / 16 * 16) as u32;
    if bar_is_64bit(bar_lo) {
        word64(bar_hi, low)
    } else {
        low as u64
    }
}

/// Decodes a BAR from two consecutive BAR registers into its base address and
/// whether it is a memory BAR (bit 0 clear).
pub fn decode_bar64(bar_lo: u32, bar_hi: u32) -> (bar: (u64, bool))
    ensures
        bar.0 == bar_base(bar_lo, bar_hi),
        bar.1 == bar_is_memory(bar_lo),
{
    let is_mmio: bool = bar_lo % 2 == 0;
    let low: u32 = bar_lo / 16 * 16;
    let base: u64 = if (bar_lo / 2) % 4 == 2 {
        bar_hi as u64 * 0x1_0000_0000 + low as u64
    } else {
        low as u64
    };
    (base, is_mmio)
}

/// The size of a BAR that reads back `size_mask` after all ones were written:
/// the two's complement of the mask without its type bits, or 0 where the
/// mask gives no size.
pub open spec fn bar_size(size_mask: u32) -> u64 {
    let mask = size_mask / 16 * 16;
    if size_mask == 0xFFFF_FFFF || mask == 0 {
        0
    } else {
        (0x1_0000_0000 - mask) as u64
    }
}

/// The accesses that probe the size of a BAR whose value was `original`.
pub open spec fn probe_accesses(
    bus: u8,
    device: u8,
    function: u8,
    bar_offset: u8,
    original: u32,
) -> Seq<Access> {
    seq![
        config_read(bus, device, function, bar_offset),
        config_write(bus, device, function, bar_offset, 0xFFFF_FFFF),
        config_read(bus, device, function, bar_offset),
        config_write(bus, device, function, bar_offset, original),
    ]
}

/// Determines the size of a BAR by writing all ones and reading back. The
/// BAR's value is put back afterwards.
pub fn probe_bar_size(
    bus: u8,
    device: u8,
    function: u8,
    bar_offset: u8,
    replies: &[u32],
) -> (step: Step<u64>)
    ensures
        step == perform(
            probe_accesses(bus, device, function, bar_offset, replies@[0]),
            replies@,
            bar_size(replies@[2]),
        ),
{
    let n: usize = replies.len();
    if n == 0 || n == 2 {
        return Step::Next(pci_config_read32(bus, device, function, bar_offset));
    }
    if n == 1 {
        return Step::Next(pci_config_write32(bus, device, function, bar_offset, 0xFFFF_FFFF));
    }
    if n == 3 {
        return Step::Next(pci_config_write32(bus, device, function, bar_offset, replies[0]));
    }
    let size_mask: u32 = replies[2];
    let mask: u32 = size_mask / 16 * 16;
    let size: u64 = if size_mask == 0xFFFF_FFFF || mask == 0 {
        0
    } else {
        0x1_0000_0000 - mask as u64
    };
    Step::Done { result: size, used: 4 }
}

/// Detected NVIDIA GPU PCI device with its BAR addresses.
#[derive(Debug)]
pub struct GpuPciDevice {
    /// PCI bus number
    pub bus: u8,
    /// PCI device number
    pub device: u8,
    /// PCI function number
    pub function: u8,
    /// PCI device ID (determines the GPU model)
    pub device_id: u16,
    /// PCI revision
    pub revision: u8,
    /// GPU architecture family
    pub family: GpuFamily,
    /// BAR0: MMIO registers
    pub bar0_base: u64,
    /// Size of BAR0 in bytes
    pub bar0_size: u64,
    /// BAR1: VRAM aperture for CPU access
    pub bar1_base: u64,
    /// Size of BAR1 in bytes
    pub bar1_size: u64,
    /// BAR2: additional aperture, 0 if absent
    pub bar2_base: u64,
    /// Size of BAR2 in bytes
    pub bar2_size: u64,
    /// Human-readable GPU name
    pub name: String,
}

/// The model of a detected GPU.
pub struct PciDeviceView {
    pub bus: u8,
    pub device: u8,
    pub function: u8,
    pub device_id: u16,
    pub revision: u8,
    pub family: GpuFamily,
    pub bar0_base: u64,
    pub bar0_size: u64,
    pub bar1_base: u64,
    pub bar1_size: u64,
    pub bar2_base: u64,
    pub bar2_size: u64,
    pub name: Seq<char>,
}

impl DeepView for GpuPciDevice {
    type V = PciDeviceView;

    open spec fn deep_view(&self) -> PciDeviceView {
        PciDeviceView {
            bus: self.bus,
            device: self.device,
            function: self.function,
            device_id: self.device_id,
            revision: self.revision,
            family: self.family,
            bar0_base: self.bar0_base,
            bar0_size: self.bar0_size,
            bar1_base: self.bar1_base,
            bar1_size: self.bar1_size,
            bar2_base: self.bar2_base,
            bar2_size: self.bar2_size,
            name: self.name@,
        }
    }
}

/// A command register value with memory space and bus mastering turned on.
pub open spec fn enabled_command(command: u16) -> u16 {
    command | PCI_CMD_MEMORY_SPACE | PCI_CMD_BUS_MASTER
}

/// The accesses that turn on memory space and bus mastering. The command
/// register read `first`; if a bit is missing it is read again, as `second`,
/// and written.
pub open spec fn enable_accesses(
    bus: u8,
    device: u8,
    function: u8,
    first: u32,
    second: u32,
) -> Seq<Access> {
    let command = half_at(first, PCI_COMMAND);
    let read = seq![config_read(bus, device, function, PCI_COMMAND)];
    if command == enabled_command(command) {
        read
    } else {
        read + write16_accesses(
            bus,
            device,
            function,
            PCI_COMMAND,
            enabled_command(command),
            second,
        )
    }
}

/// The accesses with which a GPU is brought up. Reply 0 is its vendor and
/// device ID, reply 1 its class and revision.
pub open spec fn bring_up_accesses(
    bus: u8,
    device: u8,
    function: u8,
    replies: Seq<u32>,
) -> Seq<Access> {
    let identify = seq![
        config_read(bus, device, function, PCI_VENDOR_ID),
        config_read(bus, device, function, PCI_CLASS_CODE),
        config_read(bus, device, function, PCI_BAR0),
        config_read(bus, device, function, PCI_BAR1),
        config_read(bus, device, function, PCI_BAR2),
        config_read(bus, device, function, PCI_BAR3),
    ] + probe_accesses(bus, device, function, PCI_BAR0, replies[6]);
    if bar_is_64bit(replies[2]) {
        identify + seq![config_read(bus, device, function, PCI_BAR3)]
            + probe_accesses(bus, device, function, PCI_BAR2, replies[11])
            + seq![
                config_read(bus, device, function, PCI_BAR4),
                config_read(bus, device, function, PCI_BAR5),
            ] + probe_accesses(bus, device, function, PCI_BAR4, replies[17])
            + enable_accesses(bus, device, function, replies[21], replies[22])
    } else {
        identify + probe_accesses(bus, device, function, PCI_BAR1, replies[10])
            + enable_accesses(bus, device, function, replies[14], replies[15])
    }
}

/// The GPU that the replies of a bring-up describe. The VRAM aperture starts at
/// the second BAR register, or at the third if BAR0 is 64 bits wide and takes
/// two.
pub open spec fn identified(bus: u8, device: u8, function: u8, replies: Seq<u32>) -> PciDeviceView {
    let wide = bar_is_64bit(replies[2]);
    let device_id = (replies[0] / 0x1_0000) as u16;
    PciDeviceView {
        bus,
        device,
        function,
        device_id,
        revision: (replies[1] % 0x100) as u8,
        family: family_of(device_id),
        bar0_base: bar_base(replies[2], replies[3]),
        bar0_size: bar_size(replies[8]),
        bar1_base: if wide {
            bar_base(replies[4], replies[10])
        } else {
            bar_base(replies[3], replies[4])
        },
        bar1_size: bar_size(if wide { replies[13] } else { replies[12] }),
        bar2_base: if wide { bar_base(replies[15], replies[16]) } else { 0 },
        bar2_size: if wide { bar_size(replies[19]) } else { 0 },
        name: name_of(device_id),
    }
}

/// The step that brings a GPU up.
pub open spec fn bring_up_step(
    bus: u8,
    device: u8,
    function: u8,
    replies: Seq<u32>,
) -> Step<PciDeviceView> {
    perform(
        bring_up_accesses(bus, device, function, replies),
        replies,
        identified(bus, device, function, replies),
    )
}

/// Turns on memory space and bus mastering unless they are on already.
fn enable_bus_master(bus: u8, device: u8, function: u8, replies: &[u32]) -> (step: Step<()>)
    ensures
        step == perform(enable_accesses(bus, device, function, replies@[0], replies@[1]), replies@, ()),
{
    let command: u16 = match pci_config_read16(bus, device, function, PCI_COMMAND, replies) {
        Step::Next(access) => {
            return Step::Next(access);
        },
        Step::Done { result, used: _ } => result,
    };
    let enabled: u16 = command | PCI_CMD_MEMORY_SPACE | PCI_CMD_BUS_MASTER;
    if command == enabled {
        return Step::Done { result: (), used: 1 };
    }
    match pci_config_write16(bus, device, function, PCI_COMMAND, enabled, tail(replies, 1)) {
        Step::Next(access) => Step::Next(access),
        Step::Done { result: _, used: _ } => Step::Done { result: (), used: 3 },
    }
}

/// Identifies a GPU whose ID and class have been read, reads its BARs and
/// turns on bus mastering.
#[verifier::spinoff_prover]
#[verifier::rlimit(50)]
fn bring_up(bus: u8, device: u8, function: u8, replies: &[u32]) -> (step: Step<GpuPciDevice>)
    requires
        replies@.len() >= 2,
    ensures
        step.deep_view() == bring_up_step(bus, device, function, replies@),
{
    let n: usize = replies.len();
    if n == 2 {
        return Step::Next(pci_config_read32(bus, device, function, PCI_BAR0));
    }
    if n == 3 {
        return Step::Next(pci_config_read32(bus, device, function, PCI_BAR1));
    }
    if n == 4 {
        return Step::Next(pci_config_read32(bus, device, function, PCI_BAR2));
    }
    if n == 5 {
        return Step::Next(pci_config_read32(bus, device, function, PCI_BAR3));
    }
    let bar0_size: u64 = match probe_bar_size(bus, device, function, PCI_BAR0, tail(replies, 6)) {
        Step::Next(access) => {
            return Step::Next(access);
        },
        Step::Done { result, used: _ } => result,
    };
    let wide: bool = (replies[2] / 2) % 4 == 2;
    if wide && n == 10 {
        return Step::Next(pci_config_read32(bus, device, function, PCI_BAR3));
    }
    let bar1_base: u64 = if wide {
        decode_bar64(replies[4], replies[10]).0
    } else {
        decode_bar64(replies[3], replies[4]).0
    };
    let aperture_bar: u8 = if wide { PCI_BAR2 } else { PCI_BAR1 };
    let aperture_at: usize = if wide { 11 } else { 10 };
    let bar1_size: u64 = match probe_bar_size(
        bus,
        device,
        function,
        aperture_bar,
        tail(replies, aperture_at),
    ) {
        Step::Next(access) => {
            return Step::Next(access);
        },
        Step::Done { result, used: _ } => result,
    };
    let mut bar2_base: u64 = 0;
    let mut bar2_size: u64 = 0;
    let mut command_at: usize = 14;
    if wide {
        if n == 15 {
            return Step::Next(pci_config_read32(bus, device, function, PCI_BAR4));
        }
        if n == 16 {
            return Step::Next(pci_config_read32(bus, device, function, PCI_BAR5));
        }
        bar2_base = decode_bar64(replies[15], replies[16]).0;
        bar2_size = match probe_bar_size(bus, device, function, PCI_BAR4, tail(replies, 17)) {
            Step::Next(access) => {
                return Step::Next(access);
            },
            Step::Done { result, used: _ } => result,
        };
        command_at = 21;
    }
    let used: usize = match enable_bus_master(bus, device, function, tail(replies, command_at)) {
        Step::Next(access) => {
            return Step::Next(access);
        },
        Step::Done { result: _, used } => command_at + used,
    };
    let device_id: u16 = (replies[0] / 0x1_0000) as u16;
    let gpu = GpuPciDevice {
        bus,
        device,
        function,
        device_id,
        revision: (replies[1] % 0x100) as u8,
        family: device_id_to_family(device_id),
        bar0_base: decode_bar64(replies[2], replies[3]).0,
        bar0_size,
        bar1_base,
        bar1_size,
        bar2_base,
        bar2_size,
        name: device_id_to_name(device_id),
    };
    Step::Done { result: gpu, used }
}

/// Number of slots that a scan looks at: 256 buses of 32 devices with 8
/// functions each.
pub const PCI_SLOTS: u32 = 65536;

/// The bus of a slot.
pub open spec fn slot_bus(slot: int) -> u8 {
    (slot / 256) as u8
}

/// The device of a slot.
pub open spec fn slot_device(slot: int) -> u8 {
    (slot / 8 % 32) as u8
}

/// The function of a slot.
pub open spec fn slot_function(slot: int) -> u8 {
    (slot % 8) as u8
}

/// Whether a vendor and device ID dword belongs to NVIDIA.
pub open spec fn is_nvidia(vendor_device: u32) -> bool {
    vendor_device % 0x1_0000 == NVIDIA_VENDOR_ID
}

/// Whether a class and revision dword names a display controller (0x03) or a
/// processing accelerator (0x12).
pub open spec fn is_gpu_class(class_rev: u32) -> bool {
    class_rev / 0x100_0000 == 0x03 || class_rev / 0x100_0000 == 0x12
}

/// The step of a scan that has rejected every slot below `slot` and has used
/// the first `at` replies on them.
pub open spec fn scan_step(slot: int, replies: Seq<u32>, at: int) -> Step<Option<PciDeviceView>>
    decreases PCI_SLOTS - slot,
{
    let bus = slot_bus(slot);
    let device = slot_device(slot);
    let function = slot_function(slot);
    if slot >= PCI_SLOTS {
        Step::Done { result: None, used: at as usize }
    } else if replies.len() <= at {
        Step::Next(config_read(bus, device, function, PCI_VENDOR_ID))
    } else if !is_nvidia(replies[at]) {
        scan_step(slot + 1, replies, at + 1)
    } else if replies.len() <= at + 1 {
        Step::Next(config_read(bus, device, function, PCI_CLASS_CODE))
    } else if !is_gpu_class(replies[at + 1]) {
        scan_step(slot + 1, replies, at + 2)
    } else {
        match bring_up_step(bus, device, function, replies.skip(at)) {
            Step::Next(access) => Step::Next(access),
            Step::Done { result, used } => Step::Done {
                result: Some(result),
                used: (at + used) as usize,
            },
        }
    }
}

/// Scans the PCI bus for an NVIDIA GPU.
///
/// Looks at every function of every device of every bus in order, and returns
/// the first NVIDIA display controller or processing accelerator with its BARs
/// decoded and bus mastering enabled.
#[verifier::spinoff_prover]
#[verifier::rlimit(50)]
pub fn scan_for_nvidia_gpu(replies: &[u32]) -> (step: Step<Option<GpuPciDevice>>)
    ensures
        step.deep_view() == scan_step(0, replies@, 0),
        step is Done ==> step->used <= replies@.len(),
{
    let n: usize = replies.len();
    let mut at: usize = 0;
    let mut slot: u32 = 0;
    while slot < PCI_SLOTS
        invariant
            n == replies@.len(),
            at <= n,
            slot <= PCI_SLOTS,
            scan_step(slot as int, replies@, at as int) == scan_step(0, replies@, 0),
        decreases PCI_SLOTS - slot,
    {
        let bus: u8 = (slot / 256) as u8;
        let device: u8 = (slot / 8 % 32) as u8;
        let function: u8 = (slot % 8) as u8;
        if at == n {
            return Step::Next(pci_config_read32(bus, device, function, PCI_VENDOR_ID));
        }
        if replies[at] % 0x1_0000 != NVIDIA_VENDOR_ID as u32 {
            at = at + 1;
        } else if at + 1 == n {
            return Step::Next(pci_config_read32(bus, device, function, PCI_CLASS_CODE));
        } else {
            let class: u32 = replies[at + 1] / 0x100_0000;
            if class != 0x03 && class != 0x12 {
                at = at + 2;
            } else {
                return match bring_up(bus, device, function, tail(replies, at)) {
                    Step::Next(access) => Step::Next(access),
                    Step::Done { result, used } => Step::Done {
                        result: Some(result),
                        used: at + used,
                    },
                };
            }
        }
        slot = slot + 1;
    }
    Step::Done { result: None, used: at }
}

/// For a device number below 32 and a function number below 8 the parts of a
/// configuration address do not overlap.
pub proof fn config_address_parts(bus: u8, device: u8, function: u8, offset: u8)
    requires
        device < 32,
        function < 8,
    ensures
        config_address(bus, device, function, offset) == 0x8000_0000 + bus * 0x1_0000 + device
            * 0x800 + function * 0x100 + offset / 4 * 4,
{
    let (b, d, f, o) = (bus as u32, device as u32, function as u32, offset as u32);
    assert(0x8000_0000u32 | (b << 16) | (d << 11) | (f << 8) | (o & 0xFC) == 0x8000_0000 + b
        * 0x1_0000 + d * 0x800 + f * 0x100 + o / 4 * 4) by (bit_vector)
        requires
            b < 256,
            d < 32,
            f < 8,
            o < 256,
    ;
}

/// Two configuration registers have the same address only if they are the
/// same dword of the same function.
pub proof fn config_address_is_injective(
    bus1: u8,
    device1: u8,
    function1: u8,
    offset1: u8,
    bus2: u8,
    device2: u8,
    function2: u8,
    offset2: u8,
)
    requires
        device1 < 32,
        function1 < 8,
        device2 < 32,
        function2 < 8,
        config_address(bus1, device1, function1, offset1) == config_address(
            bus2,
            device2,
            function2,
            offset2,
        ),
    ensures
        bus1 == bus2,
        device1 == device2,
        function1 == function2,
        offset1 / 4 == offset2 / 4,
{
    config_address_parts(bus1, device1, function1, offset1);
    config_address_parts(bus2, device2, function2, offset2);
}

/// Reading back the half that was written gives the value, and the other half
/// keeps what it held.
pub proof fn write16_then_read16(dword: u32, offset: u8, value: u16, other: u8)
    requires
        is_upper_half(other) != is_upper_half(offset),
    ensures
        half_at(with_half(dword, offset, value), offset) == value,
        half_at(with_half(dword, offset, value), other) == half_at(dword, other),
{
}

/// Probing a BAR leaves it as it was found: the last access writes back what
/// the first one read, to the same register.
pub proof fn probe_restores_bar(
    bus: u8,
    device: u8,
    function: u8,
    bar_offset: u8,
    replies: Seq<u32>,
)
    ensures
        probe_accesses(bus, device, function, bar_offset, replies[0]).first() == config_read(
            bus,
            device,
            function,
            bar_offset,
        ),
        probe_accesses(bus, device, function, bar_offset, replies[0]).last() == config_write(
            bus,
            device,
            function,
            bar_offset,
            replies[0],
        ),
{
}

/// A memory BAR that hardwires the low address bits below its size to zero is
/// measured exactly, whatever its type bits are.
pub proof fn probe_measures_bar(size: u64, type_bits: u32)
    requires
        16 <= size < 0x1_0000_0000,
        size % 16 == 0,
        type_bits < 16,
        type_bits % 2 == 0,
    ensures
        bar_size((0x1_0000_0000 - size + type_bits) as u32) == size,
{
}

/// Turning on memory space and bus mastering sets those two bits of the
/// command register and no other.
pub proof fn enabled_command_sets_two_bits(command: u16)
    ensures
        enabled_command(command) & PCI_CMD_MEMORY_SPACE == PCI_CMD_MEMORY_SPACE,
        enabled_command(command) & PCI_CMD_BUS_MASTER == PCI_CMD_BUS_MASTER,
        enabled_command(command) & 0xFFF9 == command & 0xFFF9,
        enabled_command(enabled_command(command)) == enabled_command(command),
{
    assert(((command | 2 | 4) & 2 == 2) && ((command | 2 | 4) & 4 == 4) && ((command | 2 | 4)
        & 0xFFF9 == command & 0xFFF9) && ((command | 2 | 4) | 2 | 4 == command | 2 | 4))
        by (bit_vector);
}

/// After a bring-up, bus mastering and memory space are on: either the command
/// register already read so, or the last access writes it so.
pub proof fn bring_up_enables_bus_master(bus: u8, device: u8, function: u8, replies: Seq<u32>)
    ensures
        ({
            let at: int = if bar_is_64bit(replies[2]) {
                21
            } else {
                14
            };
            let command = half_at(replies[at], PCI_COMMAND);
            ||| command == enabled_command(command)
            ||| bring_up_accesses(bus, device, function, replies).last() == config_write(
                bus,
                device,
                function,
                PCI_COMMAND,
                with_half(replies[at + 1], PCI_COMMAND, enabled_command(command)),
            )
        }),
{
}

/// Every device ID with a known name belongs to a family that is recognized,
/// and to one that needs GSP-RM firmware.
pub proof fn known_names_have_known_families(device_id: u16)
    requires
        known_name(device_id) is Some,
    ensures
        family_of(device_id) is Turing || family_of(device_id) is Ampere || family_of(
            device_id,
        ) is Ada,
{
}

/// Where in the replies of a scan those of `slot` begin: a slot without an
/// NVIDIA device takes one reply, a rejected NVIDIA device takes two.
pub open spec fn slot_start(replies: Seq<u32>, slot: int) -> int
    decreases slot,
{
    if slot <= 0 {
        0
    } else {
        let before = slot_start(replies, slot - 1);
        before + if is_nvidia(replies[before]) {
            2int
        } else {
            1
        }
    }
}

/// Whether a scan passes over `slot`.
pub open spec fn slot_rejected(replies: Seq<u32>, slot: int) -> bool {
    let at = slot_start(replies, slot);
    !is_nvidia(replies[at]) || !is_gpu_class(replies[at + 1])
}

/// The outcome of a scan that took the first GPU of the bus.
pub open spec fn is_first_gpu(replies: Seq<u32>, found: Option<PciDeviceView>) -> bool {
    match found {
        Some(gpu) => {
            let slot = gpu.bus * 256 + gpu.device * 8 + gpu.function;
            &&& gpu.device < 32
            &&& gpu.function < 8
            &&& forall|before: int| 0 <= before < slot ==> #[trigger] slot_rejected(replies, before)
            &&& !slot_rejected(replies, slot)
            &&& gpu == identified(
                gpu.bus,
                gpu.device,
                gpu.function,
                replies.skip(slot_start(replies, slot)),
            )
        },
        None => forall|slot: int|
            0 <= slot < PCI_SLOTS ==> #[trigger] slot_rejected(replies, slot),
    }
}

proof fn lemma_slot_number(slot: int)
    requires
        0 <= slot < PCI_SLOTS,
    ensures
        slot_bus(slot) * 256 + slot_device(slot) * 8 + slot_function(slot) == slot,
        slot_device(slot) < 32,
        slot_function(slot) < 8,
{
}

#[verifier::spinoff_prover]
#[verifier::rlimit(50)]
proof fn lemma_scan_takes_first(slot: int, replies: Seq<u32>)
    requires
        0 <= slot <= PCI_SLOTS,
        forall|before: int| 0 <= before < slot ==> #[trigger] slot_rejected(replies, before),
        scan_step(slot, replies, slot_start(replies, slot)) is Done,
    ensures
        is_first_gpu(replies, scan_step(slot, replies, slot_start(replies, slot))->result),
    decreases PCI_SLOTS - slot,
{
    let at = slot_start(replies, slot);
    if slot < PCI_SLOTS {
        if slot_rejected(replies, slot) {
            assert(slot_start(replies, slot + 1) == at + if is_nvidia(replies[at]) {
                2int
            } else {
                1
            });
            lemma_scan_takes_first(slot + 1, replies);
        } else {
            lemma_slot_number(slot);
        }
    }
}

/// A finished scan has found the first GPU of the bus: every slot before it
/// was passed over. If it found none, every slot was passed over.
pub proof fn scan_takes_first(replies: Seq<u32>)
    requires
        scan_step(0, replies, 0) is Done,
    ensures
        is_first_gpu(replies, scan_step(0, replies, 0)->result),
{
    lemma_scan_takes_first(0, replies);
}

/// Most accesses that bringing a GPU up takes.
pub open spec fn max_bring_up_accesses() -> int {
    24
}

/// Most accesses that a scan takes.
pub open spec fn max_scan_accesses() -> int {
    2 * PCI_SLOTS + max_bring_up_accesses()
}

#[verifier::spinoff_prover]
#[verifier::rlimit(50)]
proof fn lemma_bring_up_run(bus: u8, device: u8, function: u8, replies: Seq<u32>, k: int)
    requires
        replies.len() <= usize::MAX,
        0 <= k <= replies.len(),
    ensures
        bring_up_accesses(bus, device, function, replies).len() <= max_bring_up_accesses(),
        k < bring_up_accesses(bus, device, function, replies).len() ==> bring_up_step(
            bus,
            device,
            function,
            replies.take(k),
        ) is Next,
        k >= bring_up_accesses(bus, device, function, replies).len() ==> bring_up_step(
            bus,
            device,
            function,
            replies.take(k),
        ) == bring_up_step(bus, device, function, replies),
{
    let prefix = replies.take(k);
    assert(forall|i: int| 0 <= i < k ==> prefix[i] == replies[i]);
}

#[verifier::spinoff_prover]
#[verifier::rlimit(50)]
proof fn lemma_scan_ends(slot: int, replies: Seq<u32>, at: int)
    requires
        0 <= slot <= PCI_SLOTS,
        0 <= at,
        at + 2 * (PCI_SLOTS - slot) + max_bring_up_accesses() <= replies.len() <= usize::MAX,
    ensures
        scan_step(slot, replies, at) is Done,
        scan_step(slot, replies, at)->used <= at + 2 * (PCI_SLOTS - slot)
            + max_bring_up_accesses(),
    decreases PCI_SLOTS - slot,
{
    if slot < PCI_SLOTS {
        if !is_nvidia(replies[at]) {
            lemma_scan_ends(slot + 1, replies, at + 1);
        } else if !is_gpu_class(replies[at + 1]) {
            lemma_scan_ends(slot + 1, replies, at + 2);
        } else {
            lemma_bring_up_run(
                slot_bus(slot),
                slot_device(slot),
                slot_function(slot),
                replies.skip(at),
                replies.len() - at,
            );
        }
    }
}

/// A scan ends, whatever the hardware replies.
pub proof fn scan_ends(replies: Seq<u32>)
    requires
        max_scan_accesses() <= replies.len() <= usize::MAX,
    ensures
        scan_step(0, replies, 0) is Done,
        scan_step(0, replies, 0)->used <= max_scan_accesses(),
{
    lemma_scan_ends(0, replies, 0);
}

#[verifier::spinoff_prover]
#[verifier::rlimit(50)]
proof fn lemma_scan_run(slot: int, replies: Seq<u32>, at: int, k: int)
    requires
        0 <= slot <= PCI_SLOTS,
        0 <= at <= k <= replies.len() <= usize::MAX,
        scan_step(slot, replies, at) is Done,
    ensures
        at <= scan_step(slot, replies, at)->used <= replies.len(),
        k < scan_step(slot, replies, at)->used ==> scan_step(slot, replies.take(k), at) is Next,
        k >= scan_step(slot, replies, at)->used ==> scan_step(slot, replies.take(k), at)
            == scan_step(slot, replies, at),
    decreases PCI_SLOTS - slot,
{
    if slot < PCI_SLOTS {
        let prefix = replies.take(k);
        if !is_nvidia(replies[at]) {
            if k > at {
                lemma_scan_run(slot + 1, replies, at + 1, k);
            } else {
                lemma_scan_run(slot + 1, replies, at + 1, at + 1);
            }
        } else if !is_gpu_class(replies[at + 1]) {
            if k > at + 1 {
                lemma_scan_run(slot + 1, replies, at + 2, k);
            } else {
                lemma_scan_run(slot + 1, replies, at + 2, at + 2);
            }
        } else {
            lemma_bring_up_run(
                slot_bus(slot),
                slot_device(slot),
                slot_function(slot),
                replies.skip(at),
                k - at,
            );
            assert(prefix.skip(at) =~= replies.skip(at).take(k - at));
        }
    }
}

/// A scan is one run of accesses: it asks for one access after another until
/// it ends, and further replies do not change its outcome.
pub proof fn scan_is_one_run(replies: Seq<u32>, k: int)
    requires
        scan_step(0, replies, 0) is Done,
        0 <= k <= replies.len() <= usize::MAX,
    ensures
        scan_step(0, replies, 0)->used <= replies.len(),
        k < scan_step(0, replies, 0)->used ==> scan_step(0, replies.take(k), 0) is Next,
        k >= scan_step(0, replies, 0)->used ==> scan_step(0, replies.take(k), 0) == scan_step(
            0,
            replies,
            0,
        ),
{
    lemma_scan_run(0, replies, 0, k);
}

/// Which device IDs belong to which family, by the chips that they were
/// assigned to. An ID outside these ranges belongs to no known family.
pub proof fn family_ranges(device_id: u16)
    ensures
        // GK104, GK107/GK208, GK110, GK106
        0x0E00 <= device_id <= 0x0EFF ==> family_of(device_id) == GpuFamily::Kepler,
        0x0F00 <= device_id <= 0x0FFF ==> family_of(device_id) == GpuFamily::Kepler,
        0x1000 <= device_id <= 0x10FF ==> family_of(device_id) == GpuFamily::Kepler,
        0x1180 <= device_id <= 0x11FF ==> family_of(device_id) == GpuFamily::Kepler,
        // GM107/GM108, GM204/GM206, GM200
        0x1300 <= device_id <= 0x13FF ==> family_of(device_id) == GpuFamily::Maxwell,
        0x1400 <= device_id <= 0x14FF ==> family_of(device_id) == GpuFamily::Maxwell,
        0x1700 <= device_id <= 0x17FF ==> family_of(device_id) == GpuFamily::Maxwell,
        // GP100, GP102, GP104/GP106/GP107, GP108
        0x1500 <= device_id <= 0x15FF ==> family_of(device_id) == GpuFamily::Pascal,
        0x1B00 <= device_id <= 0x1BFF ==> family_of(device_id) == GpuFamily::Pascal,
        0x1C00 <= device_id <= 0x1CFF ==> family_of(device_id) == GpuFamily::Pascal,
        0x1D00 <= device_id <= 0x1D7F ==> family_of(device_id) == GpuFamily::Pascal,
        // GV100
        0x1D80 <= device_id <= 0x1DFF ==> family_of(device_id) == GpuFamily::Volta,
        // TU102/TU104, TU106/TU116/TU117, TU116 mobile
        0x1E00 <= device_id <= 0x1EFF ==> family_of(device_id) == GpuFamily::Turing,
        0x1F00 <= device_id <= 0x1FFF ==> family_of(device_id) == GpuFamily::Turing,
        0x2180 <= device_id <= 0x21FF ==> family_of(device_id) == GpuFamily::Turing,
        // GA102, GA103, GA104, GA106
        0x2200 <= device_id <= 0x22FF ==> family_of(device_id) == GpuFamily::Ampere,
        0x2300 <= device_id <= 0x23FF ==> family_of(device_id) == GpuFamily::Ampere,
        0x2400 <= device_id <= 0x24FF ==> family_of(device_id) == GpuFamily::Ampere,
        0x2500 <= device_id <= 0x25FF ==> family_of(device_id) == GpuFamily::Ampere,
        // AD102, AD103/AD104, AD106/AD107
        0x2600 <= device_id <= 0x26FF ==> family_of(device_id) == GpuFamily::Ada,
        0x2700 <= device_id <= 0x27FF ==> family_of(device_id) == GpuFamily::Ada,
        0x2800 <= device_id <= 0x28FF ==> family_of(device_id) == GpuFamily::Ada,
        // every other ID
        device_id < 0x0E00 ==> family_of(device_id) == GpuFamily::Unknown,
        0x1100 <= device_id <= 0x117F ==> family_of(device_id) == GpuFamily::Unknown,
        0x1200 <= device_id <= 0x12FF ==> family_of(device_id) == GpuFamily::Unknown,
        0x1600 <= device_id <= 0x16FF ==> family_of(device_id) == GpuFamily::Unknown,
        0x1800 <= device_id <= 0x1AFF ==> family_of(device_id) == GpuFamily::Unknown,
        0x2000 <= device_id <= 0x217F ==> family_of(device_id) == GpuFamily::Unknown,
        0x2900 <= device_id ==> family_of(device_id) == GpuFamily::Unknown,
{
}

/// Each family is called by its own name.
pub proof fn family_names()
    ensures
        GpuFamily::Kepler.display_name() == "Kepler"@,
        GpuFamily::Maxwell.display_name() == "Maxwell"@,
        GpuFamily::Pascal.display_name() == "Pascal"@,
        GpuFamily::Volta.display_name() == "Volta"@,
        GpuFamily::Turing.display_name() == "Turing"@,
        GpuFamily::Ampere.display_name() == "Ampere"@,
        GpuFamily::Ada.display_name() == "Ada Lovelace"@,
        GpuFamily::Unknown.display_name() == "Unknown"@,
{
}

/// The marketing names of the device IDs that have one.
pub proof fn marketed_names(device_id: u16)
    ensures
        device_id == 0x2482 || device_id == 0x2484 ==> name_of(device_id)
            == "NVIDIA GeForce RTX 3070 Ti"@,
        device_id == 0x2486 ==> name_of(device_id) == "NVIDIA GeForce RTX 3070 Ti Mobile"@,
        device_id == 0x2488 ==> name_of(device_id) == "NVIDIA GeForce RTX 3070 Ti Laptop GPU"@,
        device_id == 0x2204 ==> name_of(device_id) == "NVIDIA GeForce RTX 3090"@,
        device_id == 0x2206 ==> name_of(device_id) == "NVIDIA GeForce RTX 3080"@,
        device_id == 0x2208 ==> name_of(device_id) == "NVIDIA GeForce RTX 3080 Ti"@,
        device_id == 0x2503 ==> name_of(device_id) == "NVIDIA GeForce RTX 3060"@,
        device_id == 0x2504 ==> name_of(device_id) == "NVIDIA GeForce RTX 3060 Ti"@,
        device_id == 0x1E04 ==> name_of(device_id) == "NVIDIA GeForce RTX 2080 Ti"@,
        device_id == 0x1E07 ==> name_of(device_id) == "NVIDIA GeForce RTX 2080"@,
        device_id == 0x1F02 ==> name_of(device_id) == "NVIDIA GeForce RTX 2070"@,
        device_id == 0x1F08 ==> name_of(device_id) == "NVIDIA GeForce RTX 2060"@,
        device_id == 0x2684 ==> name_of(device_id) == "NVIDIA GeForce RTX 4090"@,
        device_id == 0x2704 ==> name_of(device_id) == "NVIDIA GeForce RTX 4080"@,
        device_id == 0x2782 ==> name_of(device_id) == "NVIDIA GeForce RTX 4070 Ti"@,
{
}

/// Whether a device ID has a marketing name.
pub open spec fn is_marketed(device_id: u16) -> bool {
    seq![
        0x2482u16,
        0x2484u16,
        0x2486u16,
        0x2488u16,
        0x2204u16,
        0x2206u16,
        0x2208u16,
        0x2503u16,
        0x2504u16,
        0x1E04u16,
        0x1E07u16,
        0x1F02u16,
        0x1F08u16,
        0x2684u16,
        0x2704u16,
        0x2782u16,
    ].contains(device_id)
}

/// Every other device ID is called by its number: four hexadecimal digits that
/// read back as the ID stand between a fixed beginning and a closing bracket.
pub proof fn other_names_give_the_id(device_id: u16)
    requires
        !is_marketed(device_id),
    ensures
        exists|digits: Seq<char>|
            #![trigger number_of(digits, 16)]
            {
                &&& name_of(device_id) == "NVIDIA GPU (device_id=0x"@ + digits + ")"@
                &&& digits.len() == 4
                &&& all_digits(digits, 16)
                &&& number_of(digits, 16) == device_id
            },
{
    let marketed = seq![
        0x2482u16,
        0x2484u16,
        0x2486u16,
        0x2488u16,
        0x2204u16,
        0x2206u16,
        0x2208u16,
        0x2503u16,
        0x2504u16,
        0x1E04u16,
        0x1E07u16,
        0x1F02u16,
        0x1F08u16,
        0x2684u16,
        0x2704u16,
        0x2782u16,
    ];
    assert forall|i: int| 0 <= i < marketed.len() implies marketed[i] != device_id by {}
    assert(marketed[0] != device_id && marketed[1] != device_id && marketed[2] != device_id
        && marketed[3] != device_id && marketed[4] != device_id && marketed[5] != device_id
        && marketed[6] != device_id && marketed[7] != device_id && marketed[8] != device_id
        && marketed[9] != device_id && marketed[10] != device_id && marketed[11] != device_id
        && marketed[12] != device_id && marketed[13] != device_id && marketed[14] != device_id
        && marketed[15] != device_id);
    let digits = hex(device_id as nat, 4);
    hex_reads_back(device_id as nat, 4);
    assert(digits.len() == 4) by {
        reveal_with_fuel(hex, 5);
    }
    assert(number_of(digits, 16) == device_id);
}

/// The two halves of a configuration dword are its digits to the base 2^16,
/// the one at offset 2 of the dword being the upper.
pub proof fn halves_make_the_dword(dword: u32, offset: u8, value: u16)
    requires
        offset % 4 == 0,
    ensures
        half_at(dword, (offset + 2) as u8) * 0x1_0000 + half_at(dword, offset) == dword,
        with_half(dword, (offset + 2) as u8, value) - value * 0x1_0000 == half_at(dword, offset),
        with_half(dword, offset, value) - value == half_at(dword, (offset + 2) as u8) * 0x1_0000,
{
}

/// Whether `base` is the address that a BAR holds: its low 32 bits are those of
/// the BAR above the four type bits. Its high 32 bits are the next register
/// where the type bits say that the BAR is 64 bits wide, and 0 elsewhere.
pub open spec fn holds_base(bar_lo: u32, bar_hi: u32, base: u64) -> bool {
    &&& base % 0x1_0000_0000 == bar_lo - bar_lo % 16
    &&& bar_lo % 8 == 4 || bar_lo % 8 == 5 ==> base / 0x1_0000_0000 == bar_hi
    &&& bar_lo % 8 != 4 && bar_lo % 8 != 5 ==> base < 0x1_0000_0000
}

/// Whether `size` is what a BAR measures that reads back `mask`: the size and
/// the address bits of the mask make up 4 GiB. A mask without an address bit
/// and one of an absent BAR measure nothing.
pub open spec fn has_size(mask: u32, size: u64) -> bool {
    &&& mask < 16 || mask == 0xFFFF_FFFF ==> size == 0
    &&& 16 <= mask < 0xFFFF_FFFF ==> size + (mask - mask % 16) == 0x1_0000_0000
}

/// A BAR's base is aligned to 16 bytes and reads off its registers, and its
/// size is the complement of the mask that it reads back.
pub proof fn bar_is_decoded(bar_lo: u32, bar_hi: u32, mask: u32)
    ensures
        holds_base(bar_lo, bar_hi, bar_base(bar_lo, bar_hi)),
        bar_base(bar_lo, bar_hi) % 16 == 0,
        bar_is_64bit(bar_lo) <==> bar_lo % 8 == 4 || bar_lo % 8 == 5,
        bar_is_memory(bar_lo) <==> exists|half: int| bar_lo == #[trigger] (2 * half),
        has_size(mask, bar_size(mask)),
{
    if bar_lo % 2 == 0 {
        assert(bar_lo == 2 * (bar_lo as int / 2));
    }
    let low = bar_lo / 16 * 16;
    assert(low == bar_lo - bar_lo % 16 && low % 16 == 0);
    assert((bar_lo / 2) % 4 == (bar_lo % 8) / 2);
    let mask_low = mask / 16 * 16;
    assert(mask_low == mask - mask % 16);
    assert(mask < 16 <==> mask_low == 0);
    let base = bar_base(bar_lo, bar_hi);
    if bar_is_64bit(bar_lo) {
        assert(base == bar_hi * 0x1_0000_0000 + low);
    } else {
        assert(base == low);
    }
}

/// Probing reads the BAR, writes all ones, reads again and writes back what the
/// first read gave, all at one register.
pub proof fn probe_order(bus: u8, device: u8, function: u8, bar_offset: u8, original: u32)
    requires
        device < 32,
        function < 8,
    ensures
        ({
            let accesses = probe_accesses(bus, device, function, bar_offset, original);
            let address = (0x8000_0000 + bus * 0x1_0000 + device * 0x800 + function * 0x100
                + bar_offset / 4 * 4) as u32;
            &&& accesses.len() == 4
            &&& accesses[0] == Access::ReadConfig { address }
            &&& accesses[1] == (Access::WriteConfig { address, value: 0xFFFF_FFFF })
            &&& accesses[2] == Access::ReadConfig { address }
            &&& accesses[3] == (Access::WriteConfig { address, value: original })
        }),
{
    config_address_parts(bus, device, function, bar_offset);
}

/// A device is NVIDIA's if the low half of its first dword is 0x10DE, and a GPU
/// if the top byte of its class dword is 0x03 or 0x12, whatever the other bits
/// are.
pub proof fn gpus_are_told_by_vendor_and_class(vendor: u16, id: u16, class: u8, rest: u32)
    requires
        rest < 0x100_0000,
    ensures
        is_nvidia((id * 0x1_0000 + vendor) as u32) <==> vendor == 0x10DE,
        is_gpu_class((class * 0x100_0000 + rest) as u32) <==> class == 0x03 || class == 0x12,
{
}

/// Every function of every device of every bus has a slot of its own, and the
/// slots are ordered by bus, then device, then function.
pub proof fn slots_count_functions(bus: u8, device: u8, function: u8)
    requires
        device < 32,
        function < 8,
    ensures
        ({
            let slot: int = (bus * 32 + device) * 8 + function;
            &&& 0 <= slot < 256 * 32 * 8
            &&& slot_bus(slot) == bus
            &&& slot_device(slot) == device
            &&& slot_function(slot) == function
        }),
        PCI_SLOTS == 256 * 32 * 8,
{
}

/// Whether reply `i` is that of a device whose configuration dwords are
/// `space`. A register that has just been written all ones reads `masks`.
pub open spec fn answer_from(
    accesses: Seq<Access>,
    replies: Seq<u32>,
    space: spec_fn(int) -> u32,
    masks: spec_fn(int) -> u32,
    i: int,
) -> bool {
    accesses[i] matches Access::ReadConfig { address } ==> replies[i] == if i > 0 && accesses[i - 1]
        == (Access::WriteConfig { address, value: 0xFFFF_FFFF }) {
        masks(address as int)
    } else {
        space(address as int)
    }
}

/// Whether all replies are those of such a device.
pub open spec fn answers_from(
    accesses: Seq<Access>,
    replies: Seq<u32>,
    space: spec_fn(int) -> u32,
    masks: spec_fn(int) -> u32,
) -> bool {
    &&& replies.len() >= accesses.len()
    &&& forall|i: int|
        0 <= i < accesses.len() ==> #[trigger] answer_from(accesses, replies, space, masks, i)
}

/// Each field of a device that was brought up comes from its own configuration
/// register. With a 64-bit BAR0 the aperture is the BAR at 0x18 and the third
/// BAR is the one at 0x20. With a 32-bit BAR0 the aperture is the BAR at 0x14
/// and there is no third.
pub proof fn bring_up_reads_each_register(
    bus: u8,
    device: u8,
    function: u8,
    replies: Seq<u32>,
    space: spec_fn(int) -> u32,
    masks: spec_fn(int) -> u32,
)
    requires
        device < 32,
        function < 8,
        answers_from(bring_up_accesses(bus, device, function, replies), replies, space, masks),
    ensures
        ({
            let gpu = identified(bus, device, function, replies);
            let at: int = 0x8000_0000 + bus * 0x1_0000 + device * 0x800 + function * 0x100;
            let wide = space(at + 0x10) % 8 == 4 || space(at + 0x10) % 8 == 5;
            &&& gpu.bus == bus && gpu.device == device && gpu.function == function
            &&& gpu.device_id * 0x1_0000 + space(at) % 0x1_0000 == space(at)
            &&& gpu.revision == space(at + 0x08) % 0x100
            &&& gpu.family == family_of(gpu.device_id)
            &&& gpu.name == name_of(gpu.device_id)
            &&& holds_base(space(at + 0x10), space(at + 0x14), gpu.bar0_base)
            &&& has_size(masks(at + 0x10), gpu.bar0_size)
            &&& wide ==> {
                &&& holds_base(space(at + 0x18), space(at + 0x1C), gpu.bar1_base)
                &&& has_size(masks(at + 0x18), gpu.bar1_size)
                &&& holds_base(space(at + 0x20), space(at + 0x24), gpu.bar2_base)
                &&& has_size(masks(at + 0x20), gpu.bar2_size)
            }
            &&& !wide ==> {
                &&& holds_base(space(at + 0x14), space(at + 0x18), gpu.bar1_base)
                &&& has_size(masks(at + 0x14), gpu.bar1_size)
                &&& gpu.bar2_base == 0
                &&& gpu.bar2_size == 0
            }
        }),
{
    let accesses = bring_up_accesses(bus, device, function, replies);
    lemma_bring_up_list(bus, device, function, replies);
    bar_is_decoded(replies[2], replies[3], replies[8]);
    bar_is_decoded(replies[4], replies[10], replies[13]);
    bar_is_decoded(replies[3], replies[4], replies[12]);
    bar_is_decoded(replies[15], replies[16], replies[19]);
    assert(answer_from(accesses, replies, space, masks, 0));
    assert(answer_from(accesses, replies, space, masks, 1));
    assert(answer_from(accesses, replies, space, masks, 2));
    assert(answer_from(accesses, replies, space, masks, 3));
    assert(answer_from(accesses, replies, space, masks, 4));
    assert(answer_from(accesses, replies, space, masks, 8));
    if bar_is_64bit(replies[2]) {
        assert(answer_from(accesses, replies, space, masks, 10));
        assert(answer_from(accesses, replies, space, masks, 13));
        assert(answer_from(accesses, replies, space, masks, 15));
        assert(answer_from(accesses, replies, space, masks, 16));
        assert(answer_from(accesses, replies, space, masks, 19));
    } else {
        assert(answer_from(accesses, replies, space, masks, 12));
    }
}

/// What the accesses of a bring-up are, register by register.
proof fn lemma_bring_up_list(bus: u8, device: u8, function: u8, replies: Seq<u32>)
    requires
        device < 32,
        function < 8,
    ensures
        ({
            let accesses = bring_up_accesses(bus, device, function, replies);
            let at: int = 0x8000_0000 + bus * 0x1_0000 + device * 0x800 + function * 0x100;
            let vendor = at as u32;
            let class = (at + 0x08) as u32;
            let bar0 = (at + 0x10) as u32;
            let bar1 = (at + 0x14) as u32;
            let bar2 = (at + 0x18) as u32;
            let bar3 = (at + 0x1C) as u32;
            let bar4 = (at + 0x20) as u32;
            let bar5 = (at + 0x24) as u32;
            let first: int = if bar_is_64bit(replies[2]) {
                21
            } else {
                14
            };
            let dword = replies[first];
            let value = (replies[first + 1] / 0x1_0000 * 0x1_0000 + ((dword % 0x1_0000) as u16 | 2
                | 4)) as u32;
            let command = (at + 0x04) as u32;
            &&& accesses.len() == first + 1 || accesses.len() == first + 3
            &&& accesses.len() == first + 1 <==> (dword % 0x1_0000) as u16 == (dword % 0x1_0000)
                as u16 | 2 | 4
            &&& accesses[0] == Access::ReadConfig { address: vendor }
            &&& accesses[1] == Access::ReadConfig { address: class }
            &&& accesses[2] == Access::ReadConfig { address: bar0 }
            &&& accesses[3] == Access::ReadConfig { address: bar1 }
            &&& accesses[4] == Access::ReadConfig { address: bar2 }
            &&& accesses[5] == Access::ReadConfig { address: bar3 }
            &&& accesses[6] == Access::ReadConfig { address: bar0 }
            &&& accesses[7] == (Access::WriteConfig { address: bar0, value: 0xFFFF_FFFF })
            &&& accesses[8] == Access::ReadConfig { address: bar0 }
            &&& accesses[9] == (Access::WriteConfig { address: bar0, value: replies[6] })
            &&& bar_is_64bit(replies[2]) ==> {
                &&& accesses[10] == Access::ReadConfig { address: bar3 }
                &&& accesses[11] == Access::ReadConfig { address: bar2 }
                &&& accesses[12] == (Access::WriteConfig { address: bar2, value: 0xFFFF_FFFF })
                &&& accesses[13] == Access::ReadConfig { address: bar2 }
                &&& accesses[14] == (Access::WriteConfig { address: bar2, value: replies[11] })
                &&& accesses[15] == Access::ReadConfig { address: bar4 }
                &&& accesses[16] == Access::ReadConfig { address: bar5 }
                &&& accesses[17] == Access::ReadConfig { address: bar4 }
                &&& accesses[18] == (Access::WriteConfig { address: bar4, value: 0xFFFF_FFFF })
                &&& accesses[19] == Access::ReadConfig { address: bar4 }
                &&& accesses[20] == (Access::WriteConfig { address: bar4, value: replies[17] })
            }
            &&& !bar_is_64bit(replies[2]) ==> {
                &&& accesses[10] == Access::ReadConfig { address: bar1 }
                &&& accesses[11] == (Access::WriteConfig { address: bar1, value: 0xFFFF_FFFF })
                &&& accesses[12] == Access::ReadConfig { address: bar1 }
                &&& accesses[13] == (Access::WriteConfig { address: bar1, value: replies[10] })
            }
            &&& accesses[first] == Access::ReadConfig { address: command }
            &&& accesses.len() == first + 3 ==> accesses[first + 1] == Access::ReadConfig {
                address: command,
            }
            &&& accesses.len() == first + 3 ==> accesses[first + 2] == (Access::WriteConfig {
                address: command,
                value,
            })
        }),
{
    lemma_register_addresses(bus, device, function);
}

proof fn lemma_register_addresses(bus: u8, device: u8, function: u8)
    requires
        device < 32,
        function < 8,
    ensures
        ({
            let at: int = 0x8000_0000 + bus * 0x1_0000 + device * 0x800 + function * 0x100;
            &&& config_address(bus, device, function, PCI_VENDOR_ID) == at
            &&& config_address(bus, device, function, PCI_COMMAND) == at + 0x04
            &&& config_address(bus, device, function, PCI_CLASS_CODE) == at + 0x08
            &&& config_address(bus, device, function, PCI_BAR0) == at + 0x10
            &&& config_address(bus, device, function, PCI_BAR1) == at + 0x14
            &&& config_address(bus, device, function, PCI_BAR2) == at + 0x18
            &&& config_address(bus, device, function, PCI_BAR3) == at + 0x1C
            &&& config_address(bus, device, function, PCI_BAR4) == at + 0x20
            &&& config_address(bus, device, function, PCI_BAR5) == at + 0x24
        }),
{
    config_address_parts(bus, device, function, PCI_VENDOR_ID);
    config_address_parts(bus, device, function, PCI_COMMAND);
    config_address_parts(bus, device, function, PCI_CLASS_CODE);
    config_address_parts(bus, device, function, PCI_BAR0);
    config_address_parts(bus, device, function, PCI_BAR1);
    config_address_parts(bus, device, function, PCI_BAR2);
    config_address_parts(bus, device, function, PCI_BAR3);
    config_address_parts(bus, device, function, PCI_BAR4);
    config_address_parts(bus, device, function, PCI_BAR5);
}

/// A bring-up changes nothing of the device but two bits of its command
/// register. A write of all ones to a register is followed two accesses later
/// by a write of what that register held. Any other write puts back what the
/// register held, or sets bits 1 and 2 of the dword at 0x04 and keeps the rest.
pub proof fn bring_up_changes_two_command_bits(
    bus: u8,
    device: u8,
    function: u8,
    replies: Seq<u32>,
    space: spec_fn(int) -> u32,
    masks: spec_fn(int) -> u32,
    i: int,
)
    requires
        device < 32,
        function < 8,
        answers_from(bring_up_accesses(bus, device, function, replies), replies, space, masks),
        0 <= i < bring_up_accesses(bus, device, function, replies).len(),
        bring_up_accesses(bus, device, function, replies)[i] is WriteConfig,
    ensures
        ({
            let accesses = bring_up_accesses(bus, device, function, replies);
            let at: int = 0x8000_0000 + bus * 0x1_0000 + device * 0x800 + function * 0x100;
            let address = accesses[i]->WriteConfig_address;
            let value = accesses[i]->WriteConfig_value;
            let held = space(address as int);
            ||| i + 2 < accesses.len() && value == 0xFFFF_FFFF && accesses[i + 2]
                == (Access::WriteConfig { address, value: held })
            ||| value == held
            ||| address == at + 0x04 && value == held - held % 8 + held % 2 + 6
        }),
{
    let accesses = bring_up_accesses(bus, device, function, replies);
    lemma_bring_up_list(bus, device, function, replies);
    let first: int = if bar_is_64bit(replies[2]) {
        21
    } else {
        14
    };
    assert(answer_from(accesses, replies, space, masks, 6));
    assert(answer_from(accesses, replies, space, masks, first));
    if bar_is_64bit(replies[2]) {
        assert(answer_from(accesses, replies, space, masks, 11));
        assert(answer_from(accesses, replies, space, masks, 17));
        assert(i == 7 || i == 9 || i == 12 || i == 14 || i == 18 || i == 20 || i == 23);
    } else {
        assert(answer_from(accesses, replies, space, masks, 10));
        assert(i == 7 || i == 9 || i == 11 || i == 13 || i == 16);
    }
    if i > first {
        assert(answer_from(accesses, replies, space, masks, first + 1));
        let command = (replies[first] % 0x1_0000) as u16;
        assert(command | 2 | 4 == command - command % 8 + command % 2 + 6) by (bit_vector);
    }
}

/// After a bring-up memory space and bus mastering are on: bits 1 and 2 of the
/// dword at 0x04 were set before, or the last access writes a dword there that
/// has them set.
pub proof fn bring_up_ends_with_both_bits(
    bus: u8,
    device: u8,
    function: u8,
    replies: Seq<u32>,
    space: spec_fn(int) -> u32,
    masks: spec_fn(int) -> u32,
)
    requires
        device < 32,
        function < 8,
        answers_from(bring_up_accesses(bus, device, function, replies), replies, space, masks),
    ensures
        ({
            let at: int = 0x8000_0000 + bus * 0x1_0000 + device * 0x800 + function * 0x100;
            ||| space(at + 0x04) % 8 >= 6
            ||| bring_up_accesses(bus, device, function, replies).last() matches Access::WriteConfig {
                address,
                value,
            } && address == at + 0x04 && value % 8 >= 6
        }),
{
    let accesses = bring_up_accesses(bus, device, function, replies);
    lemma_bring_up_list(bus, device, function, replies);
    let first: int = if bar_is_64bit(replies[2]) {
        21
    } else {
        14
    };
    assert(answer_from(accesses, replies, space, masks, first));
    let command = (replies[first] % 0x1_0000) as u16;
    assert(command | 2 | 4 == command - command % 8 + command % 2 + 6) by (bit_vector);
}

proof fn lemma_scan_reaches(slot: int, replies: Seq<u32>)
    requires
        0 <= slot <= PCI_SLOTS,
        forall|before: int| 0 <= before < slot ==> #[trigger] slot_rejected(replies, before),
        slot_start(replies, slot) <= replies.len(),
    ensures
        0 <= slot_start(replies, slot),
        scan_step(0, replies, 0) == scan_step(slot, replies, slot_start(replies, slot)),
    decreases slot,
{
    if slot > 0 {
        lemma_scan_reaches(slot - 1, replies);
        assert(slot_rejected(replies, slot - 1));
    }
}

/// A scan looks at one slot after the other. Once every slot before has been
/// passed over it reads the vendor ID of the next, at 256 bytes of configuration
/// addresses for each slot before. Only if that is NVIDIA's does it read the
/// class, 8 bytes further, and only a GPU is brought up, with the replies from
/// its vendor ID on. A scan that passed over all slots found nothing.
#[verifier::spinoff_prover]
#[verifier::rlimit(50)]
pub proof fn scan_goes_slot_by_slot(replies: Seq<u32>, slot: int)
    requires
        0 <= slot <= 65536,
        forall|before: int| 0 <= before < slot ==> #[trigger] slot_rejected(replies, before),
        slot_start(replies, slot) <= replies.len() <= usize::MAX,
    ensures
        ({
            let at = slot_start(replies, slot);
            let step = scan_step(0, replies, 0);
            let rest = replies.skip(at);
            &&& slot == 65536 ==> step == (Step::Done {
                result: None::<PciDeviceView>,
                used: at as usize,
            })
            &&& slot < 65536 && rest.len() == 0 ==> step == Step::<Option<PciDeviceView>>::Next(
                Access::ReadConfig { address: (0x8000_0000 + slot * 0x100) as u32 },
            )
            &&& slot < 65536 && rest.len() == 1 && rest[0] % 0x1_0000 == 0x10DE ==> step == Step::<
                Option<PciDeviceView>,
            >::Next(Access::ReadConfig { address: (0x8000_0008 + slot * 0x100) as u32 })
            &&& slot < 65536 && rest.len() >= 2 && !slot_rejected(replies, slot) ==> {
                let up = bring_up_step(
                    (slot / 256) as u8,
                    (slot / 8 % 32) as u8,
                    (slot % 8) as u8,
                    rest,
                );
                &&& up is Next ==> step == Step::<Option<PciDeviceView>>::Next(up->Next_0)
                &&& up is Done ==> step == (Step::Done {
                    result: Some(up->result),
                    used: (at + up->used) as usize,
                })
            }
        }),
{
    lemma_scan_reaches(slot, replies);
    if slot < PCI_SLOTS {
        let (bus, device, function) = (slot_bus(slot), slot_device(slot), slot_function(slot));
        lemma_slot_number(slot);
        lemma_register_addresses(bus, device, function);
        assert(bus * 0x1_0000 + device * 0x800 + function * 0x100 == slot * 0x100);
    }
}

/// A bring-up performs its accesses in order and then gives the device.
pub proof fn bring_up_runs_to_the_device(bus: u8, device: u8, function: u8, replies: Seq<u32>)
    ensures
        ({
            let accesses = bring_up_accesses(bus, device, function, replies);
            let step = bring_up_step(bus, device, function, replies);
            &&& replies.len() < accesses.len() ==> step == Step::<PciDeviceView>::Next(
                accesses[replies.len() as int],
            )
            &&& replies.len() >= accesses.len() ==> step == (Step::Done {
                result: identified(bus, device, function, replies),
                used: accesses.len() as usize,
            })
        }),
{
}

/// Where the configuration registers lie, and what identifies NVIDIA.
pub proof fn config_register_map()
    ensures
        NVIDIA_VENDOR_ID == 0x10DE,
        PCI_VENDOR_ID == 0x00 && PCI_DEVICE_ID == 0x02 && PCI_COMMAND == 0x04,
        PCI_STATUS == 0x06 && PCI_REVISION == 0x08 && PCI_CLASS_CODE == 0x09,
        PCI_BAR0 == 0x10 && PCI_BAR1 == 0x14 && PCI_BAR2 == 0x18,
        PCI_BAR3 == 0x1C && PCI_BAR4 == 0x20 && PCI_BAR5 == 0x24,
        PCI_CMD_IO_SPACE == 0x1 && PCI_CMD_MEMORY_SPACE == 0x2 && PCI_CMD_BUS_MASTER == 0x4,
{
}

/// Writing a half of a configuration dword reads the dword and writes it back
/// with that half replaced: the one at offset 2 of the dword is the upper.
pub proof fn write16_order(
    bus: u8,
    device: u8,
    function: u8,
    offset: u8,
    value: u16,
    dword: u32,
)
    requires
        device < 32,
        function < 8,
    ensures
        ({
            let accesses = write16_accesses(bus, device, function, offset, value, dword);
            let address = (0x8000_0000 + bus * 0x1_0000 + device * 0x800 + function * 0x100 + offset
                / 4 * 4) as u32;
            let merged = accesses[1]->WriteConfig_value;
            &&& accesses.len() == 2
            &&& accesses[0] == Access::ReadConfig { address }
            &&& accesses[1] == (Access::WriteConfig { address, value: merged })
            &&& offset % 4 >= 2 ==> merged / 0x1_0000 == value && merged % 0x1_0000 == dword
                % 0x1_0000
            &&& offset % 4 < 2 ==> merged % 0x1_0000 == value && merged / 0x1_0000 == dword
                / 0x1_0000
        }),
{
    config_address_parts(bus, device, function, offset);
}

/// The model of a detected GPU has the GPU's fields.
pub proof fn pci_model_shows_the_fields(gpu: GpuPciDevice)
    ensures
        ({
            let model = gpu.deep_view();
            &&& model.bus == gpu.bus && model.device == gpu.device
            &&& model.function == gpu.function
            &&& model.device_id == gpu.device_id && model.revision == gpu.revision
            &&& model.family == gpu.family && model.name == gpu.name@
            &&& model.bar0_base == gpu.bar0_base && model.bar0_size == gpu.bar0_size
            &&& model.bar1_base == gpu.bar1_base && model.bar1_size == gpu.bar1_size
            &&& model.bar2_base == gpu.bar2_base && model.bar2_size == gpu.bar2_size
        }),
{
}

/// For every argument a configuration address has its top byte 0x80 and ends in
/// the offset of the dword. What a function or device number has above its own
/// bits falls into the fields above and is joined with them.
pub proof fn config_address_fields(bus: u8, device: u8, function: u8, offset: u8)
    ensures
        ({
            let address = config_address(bus, device, function, offset);
            let (b, d, f, o) = (bus as u32, device as u32, function as u32, offset as u32);
            &&& address & 0xFF == o & 0xFC
            &&& (address >> 8) & 0x7 == f & 0x7
            &&& (address >> 11) & 0x1F == (d & 0x1F) | (f >> 3)
            &&& (address >> 16) & 0xFF == b | (d >> 5)
            &&& address >> 24 == 0x80
        }),
{
    let (b, d, f, o) = (bus as u32, device as u32, function as u32, offset as u32);
    assert({
        let address = 0x8000_0000u32 | (b << 16) | (d << 11) | (f << 8) | (o & 0xFC);
        &&& address & 0xFF == o & 0xFC
        &&& (address >> 8) & 0x7 == f & 0x7
        &&& (address >> 11) & 0x1F == (d & 0x1F) | (f >> 3)
        &&& (address >> 16) & 0xFF == b | (d >> 5)
        &&& address >> 24 == 0x80
    }) by (bit_vector)
        requires
            b < 256,
            d < 256,
            f < 256,
            o < 256,
    ;
}

} // verus!
