use std::collections::HashMap;

use gpu_compute::access::{Access, Step};
use gpu_compute::driver::{needs_gsp_rm, sms_per_tpc, GpuDevice};
use gpu_compute::mmio::{
    NV_PFB_VRAM_SIZE, NV_PFIFO_INTR_0, NV_PFIFO_INTR_EN_0, NV_PGRAPH_GPC_COUNT, NV_PGRAPH_INTR,
    NV_PGRAPH_TPC_PER_GPC, NV_PMC_BOOT_0, NV_PMC_INTR_0, NV_PMC_INTR_EN_0, NV_PTIMER_INTR_0,
    NV_PTIMER_TIME_0, NV_PTIMER_TIME_1,
};
use gpu_compute::pci_config::{scan_for_nvidia_gpu, GpuFamily};

const BAR0: u64 = 0xF600_0000;

/// A machine with one GPU at 01:00.0.
struct Machine {
    config: HashMap<u32, u32>,
    registers: HashMap<u32, u32>,
    written: Vec<(u32, u32)>,
    vram: Vec<(u64, u32)>,
}

impl Machine {
    fn new(device_id: u32) -> Machine {
        let mut config = HashMap::new();
        for (offset, value) in [
            (0x00, device_id * 0x1_0000 + 0x10DE),
            (0x04, 0x0010_0000),
            (0x08, 0x0300_00A1),
            (0x10, 0xF600_0000),
            (0x14, 0xE000_0000),
            (0x18, 0),
            (0x1C, 0),
        ] {
            config.insert(0x8001_0000 + offset, value);
        }
        Machine { config, registers: HashMap::new(), written: Vec::new(), vram: Vec::new() }
    }

    fn perform(&mut self, access: Access) -> u32 {
        match access {
            Access::ReadConfig { address } => *self.config.get(&address).unwrap_or(&0xFFFF_FFFF),
            Access::WriteConfig { address, value } => {
                let kept = match address {
                    0x8001_0010 => value & 0xFF00_0000,
                    0x8001_0014 => value & 0xF000_0000,
                    _ => value,
                };
                self.config.insert(address, kept);
                0
            }
            Access::ReadRegister { bar0, offset } => {
                assert_eq!(bar0, BAR0);
                *self.registers.get(&offset).unwrap_or(&0)
            }
            Access::WriteRegister { bar0, offset, value } => {
                assert_eq!(bar0, BAR0);
                self.written.push((offset, value));
                0
            }
            Access::WriteVram { phys_addr, word } => {
                self.vram.push((phys_addr, word));
                0
            }
            other => panic!("unexpected access {:?}", other),
        }
    }

    fn run<T>(&mut self, procedure: impl Fn(&[u32]) -> Step<T>) -> T {
        let mut replies: Vec<u32> = Vec::new();
        loop {
            match procedure(&replies) {
                Step::Next(access) => replies.push(self.perform(access)),
                Step::Done { result, used } => {
                    assert_eq!(used, replies.len());
                    return result;
                }
            }
        }
    }
}

fn rtx_3070_ti() -> Machine {
    let mut machine = Machine::new(0x2482);
    machine.registers.insert(NV_PMC_BOOT_0, 0x1740_00A1);
    machine.registers.insert(NV_PFB_VRAM_SIZE, 8192);
    machine.registers.insert(NV_PGRAPH_GPC_COUNT, 6);
    machine.registers.insert(NV_PGRAPH_TPC_PER_GPC, 4);
    machine
}

#[test]
fn families_that_need_firmware() {
    let needing: Vec<bool> = [
        GpuFamily::Kepler,
        GpuFamily::Maxwell,
        GpuFamily::Pascal,
        GpuFamily::Volta,
        GpuFamily::Turing,
        GpuFamily::Ampere,
        GpuFamily::Ada,
        GpuFamily::Unknown,
    ]
    .iter()
    .map(|family| needs_gsp_rm(*family))
    .collect();
    assert_eq!(needing, vec![false, false, false, false, true, true, true, false]);
    assert_eq!(sms_per_tpc(GpuFamily::Ampere), 2);
    assert_eq!(sms_per_tpc(GpuFamily::Ada), 2);
    assert_eq!(sms_per_tpc(GpuFamily::Turing), 1);
}

#[test]
fn no_gpu_no_device() {
    let replies = vec![0xFFFF_FFFFu32; 65536];
    match GpuDevice::init(&replies) {
        Step::Done { result, used } => {
            assert!(result.is_none());
            assert_eq!(used, 65536);
        }
        Step::Next(access) => panic!("unexpected access {:?}", access),
    }
}

#[test]
fn an_ampere_gpu_is_found_but_not_ready() {
    let mut machine = rtx_3070_ti();
    let gpu = machine.run(GpuDevice::init).unwrap();
    assert_eq!(gpu.regs.bar0, BAR0);
    assert_eq!(gpu.chip_id, 0x174);
    assert!(!gpu.compute_ready);
    let channel = gpu.compute_channel.as_ref().unwrap();
    assert_eq!((channel.id, channel.engine_id, channel.push_offset), (0, 0, 0));
    let info = gpu.query_info();
    assert_eq!(info.name, "NVIDIA GeForce RTX 3070 Ti");
    assert_eq!(info.family, GpuFamily::Ampere);
    assert_eq!(info.device_id, 0x2482);
    assert_eq!(info.vram_bytes, 8589934592);
    assert_eq!((info.gpc_count, info.tpc_per_gpc, info.sm_count), (6, 4, 48));
    assert!(info.needs_gsp_rm);
    assert!(!info.compute_ready);
    assert_eq!(
        info.describe(),
        "NVIDIA GeForce RTX 3070 Ti (Ampere, 8192 MiB VRAM, 48 SMs, compute_ready=false)"
    );
    assert_eq!(
        machine.written,
        vec![
            (NV_PMC_INTR_EN_0, 0),
            (NV_PFIFO_INTR_0, 0xFFFF_FFFF),
            (NV_PFIFO_INTR_EN_0, 0xFFFF_FFFF),
            (NV_PMC_INTR_EN_0, 0x0010_1100),
        ]
    );
    assert!(machine.vram.is_empty());
    assert_eq!(machine.config[&0x8001_0004], 0x0010_0006);
}

#[test]
fn a_pascal_gpu_is_ready_for_compute() {
    let mut machine = Machine::new(0x1B06);
    machine.registers.insert(NV_PFB_VRAM_SIZE, 1024);
    let gpu = machine.run(GpuDevice::init).unwrap();
    assert!(gpu.compute_ready);
    assert_eq!(gpu.compute.class_id, 0xC0C0);
    let channel = gpu.compute_channel.as_ref().unwrap();
    assert_eq!((channel.push_offset, channel.gpfifo_put), (8, 1));
    assert_eq!(
        machine.written,
        vec![
            (NV_PMC_INTR_EN_0, 0),
            (NV_PFIFO_INTR_0, 0xFFFF_FFFF),
            (NV_PFIFO_INTR_EN_0, 0xFFFF_FFFF),
            (0x90000, 1),
            (NV_PMC_INTR_EN_0, 0x0010_1100),
        ]
    );
    // The bind commands and their GPFIFO entry are in place.
    assert_eq!(
        machine.vram,
        vec![
            (0x10_2000, 0x1001_0000),
            (0x10_2004, 0xC0C0),
            (0x10_0000, 0x0000_2000),
            (0x10_0004, 0x0000_0201),
        ]
    );
    assert!(gpu.query_info().describe().ends_with("compute_ready=true)"));
}

#[test]
fn a_gpu_that_was_found_is_initialized_alike() {
    let mut machine = rtx_3070_ti();
    let pci = machine.run(scan_for_nvidia_gpu).unwrap();
    let gpu = machine.run(|replies| GpuDevice::init_found(&pci, replies));
    assert_eq!(gpu.pci.name, pci.name);
    assert_eq!((gpu.pci.bus, gpu.pci.bar1_base), (1, 0xE000_0000));
    assert_eq!(gpu.query_info().sm_count, 48);
    assert_eq!(machine.written.last(), Some(&(NV_PMC_INTR_EN_0, 0x0010_1100)));
}

#[test]
fn a_gpu_without_vram_for_a_channel_is_not_ready() {
    let mut machine = Machine::new(0x1B06);
    machine.registers.insert(NV_PFB_VRAM_SIZE, 1);
    let gpu = machine.run(GpuDevice::init).unwrap();
    assert!(!gpu.compute_ready);
    assert!(gpu.compute_channel.is_none());
}

#[test]
fn status_reports_line_by_line() {
    let mut machine = rtx_3070_ti();
    let gpu = machine.run(GpuDevice::init).unwrap();
    machine.registers.insert(NV_PTIMER_TIME_1, 0x1);
    machine.registers.insert(NV_PTIMER_TIME_0, 0x0);
    let report = machine.run(|replies| gpu.status(replies));
    assert_eq!(
        report,
        vec![
            "=== GPU Status ===",
            "  Name: NVIDIA GeForce RTX 3070 Ti",
            "  Family: Ampere",
            "  Chip ID: 0x174",
            "  Device ID: 0x2482",
            "  VRAM: 8192 MiB",
            "  Topology: 6 GPCs, 4 TPCs/GPC, 48 SMs",
            "  Needs GSP-RM: true",
            "  Compute Ready: false",
            "  BAR0: 0x00000000F6000000 (16 MiB)",
            "  BAR1: 0x00000000E0000000 (256 MiB)",
            "gpu/tensor: 0 tensors allocated, 0 MiB total VRAM usage",
            "  GPU Timer: 4294 ms",
            "==================",
        ]
    );
    machine.registers.insert(NV_PMC_INTR_0, 0x1100);
    let report = machine.run(|replies| gpu.status(replies));
    assert_eq!(report.len(), 15);
    assert_eq!(report[13], "  Pending Interrupts: 0x00001100");
    assert_eq!(report[14], "==================");
}

#[test]
fn interrupts_are_cleared_where_they_are_pending() {
    let mut machine = rtx_3070_ti();
    let gpu = machine.run(GpuDevice::init).unwrap();
    for (pending, cleared) in [
        (0, vec![]),
        (0x1, vec![]),
        (0x100, vec![NV_PFIFO_INTR_0]),
        (0x1000, vec![NV_PGRAPH_INTR]),
        (0x10_0000, vec![NV_PTIMER_INTR_0]),
        (0xFFFF_FFFF, vec![NV_PFIFO_INTR_0, NV_PGRAPH_INTR, NV_PTIMER_INTR_0]),
    ] {
        machine.written.clear();
        machine.registers.insert(NV_PMC_INTR_0, pending);
        machine.run(|replies| gpu.handle_interrupt(replies));
        let expected: Vec<(u32, u32)> =
            cleared.iter().map(|offset| (*offset, 0xFFFF_FFFF)).collect();
        assert_eq!(machine.written, expected);
    }
}
