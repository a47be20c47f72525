use std::collections::HashMap;

use gpu_compute::access::{Access, Step};
use gpu_compute::pci_config::{
    decode_bar64, device_id_to_family, device_id_to_name, pci_config_read16, pci_config_read32,
    pci_config_write16, pci_config_write32, probe_bar_size, scan_for_nvidia_gpu, GpuFamily,
    PCI_BAR0, PCI_COMMAND, PCI_STATUS,
};

/// A PCI bus: configuration dwords by address, with the writable bits of BARs.
struct Bus {
    dwords: HashMap<u32, u32>,
    bar_masks: HashMap<u32, u32>,
}

fn address(bus: u32, device: u32, offset: u32) -> u32 {
    0x8000_0000 + bus * 0x1_0000 + device * 0x800 + offset
}

/// The offset of a register of another function than 0.
fn of_function(function: u32, offset: u32) -> u32 {
    function * 0x100 + offset
}

impl Bus {
    fn new() -> Bus {
        Bus { dwords: HashMap::new(), bar_masks: HashMap::new() }
    }

    fn set(&mut self, bus: u32, device: u32, offset: u32, value: u32) {
        self.dwords.insert(address(bus, device, offset), value);
    }

    fn set_bar(&mut self, bus: u32, device: u32, offset: u32, value: u32, size: u32) {
        self.set(bus, device, offset, value);
        self.bar_masks.insert(address(bus, device, offset), !(size - 1));
    }

    fn perform(&mut self, access: Access) -> u32 {
        match access {
            Access::ReadConfig { address } => *self.dwords.get(&address).unwrap_or(&0xFFFF_FFFF),
            Access::WriteConfig { address, value } => {
                let kept = match self.bar_masks.get(&address) {
                    Some(mask) => (value & mask) | (self.dwords[&address] & 0xF),
                    None => value,
                };
                self.dwords.insert(address, kept);
                0
            }
            other => panic!("unexpected access {:?}", other),
        }
    }
}

fn run<T>(bus: &mut Bus, procedure: impl Fn(&[u32]) -> Step<T>) -> (T, Vec<Access>) {
    let mut replies: Vec<u32> = Vec::new();
    let mut accesses: Vec<Access> = Vec::new();
    loop {
        match procedure(&replies) {
            Step::Next(access) => {
                accesses.push(access);
                replies.push(bus.perform(access));
            }
            Step::Done { result, used } => {
                assert_eq!(used, replies.len());
                return (result, accesses);
            }
        }
    }
}

#[test]
fn families_by_device_id() {
    assert_eq!(device_id_to_family(0x0FC6), GpuFamily::Kepler);
    assert_eq!(device_id_to_family(0x1180), GpuFamily::Kepler);
    assert_eq!(device_id_to_family(0x13C2), GpuFamily::Maxwell);
    assert_eq!(device_id_to_family(0x17C8), GpuFamily::Maxwell);
    assert_eq!(device_id_to_family(0x15F8), GpuFamily::Pascal);
    assert_eq!(device_id_to_family(0x1B06), GpuFamily::Pascal);
    assert_eq!(device_id_to_family(0x1D01), GpuFamily::Pascal);
    assert_eq!(device_id_to_family(0x1DB1), GpuFamily::Volta);
    assert_eq!(device_id_to_family(0x1E04), GpuFamily::Turing);
    assert_eq!(device_id_to_family(0x2182), GpuFamily::Turing);
    assert_eq!(device_id_to_family(0x2204), GpuFamily::Ampere);
    assert_eq!(device_id_to_family(0x2504), GpuFamily::Ampere);
    assert_eq!(device_id_to_family(0x2684), GpuFamily::Ada);
    assert_eq!(device_id_to_family(0x2782), GpuFamily::Ada);
    assert_eq!(device_id_to_family(0x0001), GpuFamily::Unknown);
    assert_eq!(device_id_to_family(0xFFFF), GpuFamily::Unknown);
}

#[test]
fn family_names() {
    assert_eq!(GpuFamily::Kepler.name(), "Kepler");
    assert_eq!(GpuFamily::Maxwell.name(), "Maxwell");
    assert_eq!(GpuFamily::Pascal.name(), "Pascal");
    assert_eq!(GpuFamily::Volta.name(), "Volta");
    assert_eq!(GpuFamily::Turing.name(), "Turing");
    assert_eq!(GpuFamily::Ampere.name(), "Ampere");
    assert_eq!(GpuFamily::Ada.name(), "Ada Lovelace");
    assert_eq!(GpuFamily::Unknown.name(), "Unknown");
}

#[test]
fn names_by_device_id() {
    assert_eq!(device_id_to_name(0x2482), "NVIDIA GeForce RTX 3070 Ti");
    assert_eq!(device_id_to_name(0x2204), "NVIDIA GeForce RTX 3090");
    assert_eq!(device_id_to_name(0x1F08), "NVIDIA GeForce RTX 2060");
    assert_eq!(device_id_to_name(0x2782), "NVIDIA GeForce RTX 4070 Ti");
    assert_eq!(device_id_to_name(0x0BAD), "NVIDIA GPU (device_id=0x0BAD)");
}

#[test]
fn config_addresses() {
    assert_eq!(
        pci_config_read32(1, 2, 3, 0x13),
        Access::ReadConfig { address: 0x8001_1310 }
    );
    assert_eq!(
        pci_config_write32(0xFF, 31, 7, 0xFF, 5),
        Access::WriteConfig { address: 0x80FF_FFFC, value: 5 }
    );
}

#[test]
fn halves_of_a_config_dword() {
    let mut bus = Bus::new();
    bus.set(0, 3, 0x04, 0xBEEF_0001);
    assert_eq!(run(&mut bus, |r| pci_config_read16(0, 3, 0, PCI_COMMAND, r)).0, 0x0001);
    assert_eq!(run(&mut bus, |r| pci_config_read16(0, 3, 0, PCI_STATUS, r)).0, 0xBEEF);
    run(&mut bus, |r| pci_config_write16(0, 3, 0, PCI_COMMAND, 0x1234, r));
    assert_eq!(bus.dwords[&address(0, 3, 0x04)], 0xBEEF_1234);
    run(&mut bus, |r| pci_config_write16(0, 3, 0, PCI_STATUS, 0xCAFE, r));
    assert_eq!(bus.dwords[&address(0, 3, 0x04)], 0xCAFE_1234);
}

#[test]
fn bars_decode() {
    assert_eq!(decode_bar64(0xF600_0000, 0x12), (0xF600_0000, true));
    assert_eq!(decode_bar64(0xE000_000C, 0x12), (0x12_E000_0000, true));
    assert_eq!(decode_bar64(0x0000_E001, 0x12), (0xE000, false));
}

#[test]
fn probing_measures_and_restores_a_bar() {
    let mut bus = Bus::new();
    bus.set_bar(0, 0, 0x10, 0xF600_0008, 0x0100_0000);
    let (size, accesses) = run(&mut bus, |r| probe_bar_size(0, 0, 0, PCI_BAR0, r));
    assert_eq!(size, 0x0100_0000);
    assert_eq!(accesses.len(), 4);
    assert_eq!(bus.dwords[&address(0, 0, 0x10)], 0xF600_0008);
}

#[test]
fn a_bar_that_is_not_there_has_no_size() {
    assert_eq!(
        probe_bar_size(0, 0, 0, PCI_BAR0, &[0, 0, 0, 0]),
        Step::Done { result: 0, used: 4 }
    );
    assert_eq!(
        probe_bar_size(0, 0, 0, PCI_BAR0, &[0, 0, 0xFFFF_FFFF, 0]),
        Step::Done { result: 0, used: 4 }
    );
}

#[test]
fn a_scan_of_an_empty_bus_finds_nothing() {
    let replies = vec![0xFFFF_FFFFu32; 65536];
    match scan_for_nvidia_gpu(&replies) {
        Step::Done { result, used } => {
            assert!(result.is_none());
            assert_eq!(used, 65536);
        }
        Step::Next(access) => panic!("unexpected access {:?}", access),
    }
    // Function by function, then device by device, then bus by bus.
    for (n, expected) in [
        (0, 0x8000_0000u32),
        (1, 0x8000_0100),
        (7, 0x8000_0700),
        (8, 0x8000_0800),
        (255, 0x8000_FF00),
        (256, 0x8001_0000),
        (65535, 0x80FF_FF00),
    ] {
        match scan_for_nvidia_gpu(&replies[..n]) {
            Step::Next(access) => assert_eq!(access, Access::ReadConfig { address: expected }),
            Step::Done { .. } => panic!("ended early"),
        }
    }
}

#[test]
fn a_scan_finds_a_gpu_behind_another_function() {
    let mut bus = Bus::new();
    // Function 0 belongs to another vendor.
    bus.set(1, 0, 0x00, 0x1234_8086);
    bus.set(1, 0, of_function(1, 0x00), 0x1B06_10DE);
    bus.set(1, 0, of_function(1, 0x04), 0x0000_0000);
    bus.set(1, 0, of_function(1, 0x08), 0x0300_00A1);
    bus.set_bar(1, 0, of_function(1, 0x10), 0xF600_0000, 0x0100_0000);
    bus.set_bar(1, 0, of_function(1, 0x14), 0xE000_000C, 0x1000_0000);
    bus.set(1, 0, of_function(1, 0x18), 1);
    bus.set(1, 0, of_function(1, 0x1C), 0);
    let gpu = run(&mut bus, scan_for_nvidia_gpu).0.unwrap();
    assert_eq!((gpu.bus, gpu.device, gpu.function), (1, 0, 1));
    assert_eq!((gpu.bar1_base, gpu.bar1_size), (0x1_E000_0000, 0x1000_0000));
    assert_eq!(bus.dwords[&address(1, 0, of_function(1, 0x04))], 0x0000_0006);
}

#[test]
fn a_scan_takes_the_first_gpu_and_brings_it_up() {
    let mut bus = Bus::new();
    // An NVIDIA audio function is passed over.
    bus.set(0, 5, 0x00, 0x228B_10DE);
    bus.set(0, 5, 0x08, 0x0403_00A1);
    // So is a display controller of another vendor.
    bus.set(0, 6, 0x00, 0x1234_8086);
    bus.set(0, 6, 0x08, 0x0300_0000);
    bus.set(1, 2, 0x00, 0x2482_10DE);
    bus.set(1, 2, 0x04, 0x0010_0001);
    bus.set(1, 2, 0x08, 0x0300_00A1);
    bus.set_bar(1, 2, 0x10, 0xF600_0000, 0x0100_0000);
    bus.set_bar(1, 2, 0x14, 0xE000_000C, 0x1000_0000);
    bus.set(1, 2, 0x18, 0x20);
    bus.set(1, 2, 0x1C, 0x0000_E001);
    bus.set(2, 0, 0x00, 0x2684_10DE);
    bus.set(2, 0, 0x08, 0x0300_00A1);
    let gpu = run(&mut bus, scan_for_nvidia_gpu).0.unwrap();
    assert_eq!((gpu.bus, gpu.device, gpu.function), (1, 2, 0));
    assert_eq!(gpu.device_id, 0x2482);
    assert_eq!(gpu.revision, 0xA1);
    assert_eq!(gpu.family, GpuFamily::Ampere);
    assert_eq!(gpu.name, "NVIDIA GeForce RTX 3070 Ti");
    assert_eq!((gpu.bar0_base, gpu.bar0_size), (0xF600_0000, 0x0100_0000));
    assert_eq!((gpu.bar1_base, gpu.bar1_size), (0x20_E000_0000, 0x1000_0000));
    assert_eq!((gpu.bar2_base, gpu.bar2_size), (0, 0));
    // Memory space and bus mastering are on, the status half is kept.
    assert_eq!(bus.dwords[&address(1, 2, 0x04)], 0x0010_0007);
    assert_eq!(bus.dwords[&address(1, 2, 0x10)], 0xF600_0000);
    assert_eq!(bus.dwords[&address(1, 2, 0x14)], 0xE000_000C);
    assert_eq!(bus.dwords[&address(1, 2, 0x18)], 0x20);
}

#[test]
fn a_wide_bar0_moves_the_aperture() {
    let mut bus = Bus::new();
    bus.set(0, 0, 0x00, 0x1B06_10DE);
    bus.set(0, 0, 0x04, 0x0000_0006);
    bus.set(0, 0, 0x08, 0x1200_0002);
    bus.set_bar(0, 0, 0x10, 0xF600_0004, 0x0200_0000);
    bus.set(0, 0, 0x14, 0x1);
    bus.set_bar(0, 0, 0x18, 0xC000_000C, 0x1000_0000);
    bus.set(0, 0, 0x1C, 0x2);
    bus.set_bar(0, 0, 0x20, 0xD000_000C, 0x0200_0000);
    bus.set(0, 0, 0x24, 0x3);
    let (gpu, accesses) = run(&mut bus, scan_for_nvidia_gpu);
    let gpu = gpu.unwrap();
    assert_eq!(gpu.family, GpuFamily::Pascal);
    assert_eq!((gpu.bar0_base, gpu.bar0_size), (0x1_F600_0000, 0x0200_0000));
    assert_eq!((gpu.bar1_base, gpu.bar1_size), (0x2_C000_0000, 0x1000_0000));
    assert_eq!((gpu.bar2_base, gpu.bar2_size), (0x3_D000_0000, 0x0200_0000));
    // Bus mastering is on already: the command register is only read.
    assert_eq!(accesses.len(), 22);
    assert_eq!(bus.dwords[&address(0, 0, 0x04)], 0x0000_0006);
}
