//! The GPU device: initialization, queries, status and interrupts.

use vstd::prelude::*;
use vstd::string::*;
use crate::access::{perform, tail, Access, Step};
use crate::compute::{binding_sets_the_class, class_of, fresh_engine, ComputeEngine};
use crate::falcon::{Falcon, FalconEngine, FALCON_CPUCTL};
use crate::fifo::{
    after_channel, allocated_channel, allocated_channel_is_wf, channel_va_has_room, init_fifo,
    init_fifo_accesses, submit_keeps_wf, Channel, DEFAULT_PUSH_BUFFER_SIZE, GPFIFO_RING_SIZE,
};
use crate::memory::{
    allocate_keeps_wf, allocation_is_placed, detect_accesses, detected_info, first_fit, fresh_vram,
    fresh_vram_is_wf, VramAllocator, VramView, RESERVED_BYTES,
};
use crate::mmio::{
    chip_id_of, GpuRegs, NV_PFIFO_INTR_0, NV_PGRAPH_GPC_COUNT, NV_PGRAPH_INTR,
    NV_PGRAPH_TPC_PER_GPC, NV_PMC_BOOT_0, NV_PMC_INTR_0, NV_PMC_INTR_EN_0, NV_PMC_INTR_PFIFO,
    NV_PMC_INTR_PGRAPH, NV_PMC_INTR_PTIMER, NV_PTIMER_INTR_0,
};
use crate::pci_config::{
    max_scan_accesses, scan_ends, scan_for_nvidia_gpu, scan_is_one_run, scan_step, GpuFamily,
    GpuPciDevice, PciDeviceView,
};
use crate::tensor::TensorEngine;
use crate::text::{
    all_digits, append_decimal, append_hex, decimal, decimal_reads_back, gives_number, hex,
    hex_reads_back, number_of, number_texts_give_their_number,
};

verus! {

/// Whether a family needs the GSP-RM firmware before it can compute.
pub open spec fn needs_firmware(family: GpuFamily) -> bool {
    family is Turing || family is Ampere || family is Ada
}

/// Whether a family needs the GSP-RM firmware before it can compute.
pub fn needs_gsp_rm(family: GpuFamily) -> (needed: bool)
    ensures
        needed == needs_firmware(family),
{
    match family {
        GpuFamily::Turing | GpuFamily::Ampere | GpuFamily::Ada => true,
        _ => false,
    }
}

/// Streaming multiprocessors per TPC of a family.
pub open spec fn sms_of(family: GpuFamily) -> u32 {
    if family is Ampere || family is Ada {
        2
    } else {
        1
    }
}

/// Streaming multiprocessors per TPC of a family.
pub fn sms_per_tpc(family: GpuFamily) -> (sms: u32)
    ensures
        sms == sms_of(family),
{
    match family {
        GpuFamily::Ampere | GpuFamily::Ada => 2,
        _ => 1,
    }
}

/// The main GPU device, which owns all GPU resources.
pub struct GpuDevice {
    /// PCI device info (BARs, device ID, etc.).
    pub pci: GpuPciDevice,
    /// MMIO register accessor.
    pub regs: GpuRegs,
    /// VRAM allocator.
    pub vram: VramAllocator,
    /// Compute engine (manages shader dispatch).
    pub compute: ComputeEngine,
    /// Tensor engine (high-level tensor operations).
    pub tensors: TensorEngine,
    /// Compute FIFO channel.
    pub compute_channel: Option<Channel>,
    /// Whether the GPU is fully initialized for compute.
    pub compute_ready: bool,
    /// GPU chip ID (from `NV_PMC_BOOT_0`).
    pub chip_id: u32,
    /// GPC count.
    pub gpc_count: u32,
    /// TPCs per GPC.
    pub tpc_per_gpc: u32,
}

/// The model of a GPU device.
pub struct DeviceView {
    pub pci: PciDeviceView,
    pub regs: GpuRegs,
    pub vram: VramView,
    pub compute: ComputeEngine,
    pub tensors: TensorEngine,
    pub compute_channel: Option<Channel>,
    pub compute_ready: bool,
    pub chip_id: u32,
    pub gpc_count: u32,
    pub tpc_per_gpc: u32,
}

impl DeepView for GpuDevice {
    type V = DeviceView;

    open spec fn deep_view(&self) -> DeviceView {
        DeviceView {
            pci: self.pci.deep_view(),
            regs: self.regs,
            vram: self.vram.model(),
            compute: self.compute,
            tensors: self.tensors,
            compute_channel: self.compute_channel,
            compute_ready: self.compute_ready,
            chip_id: self.chip_id,
            gpc_count: self.gpc_count,
            tpc_per_gpc: self.tpc_per_gpc,
        }
    }
}

/// The VRAM of a device as it is detected, where the memory controller's
/// registers read as the replies from position `at` on.
pub open spec fn detected_vram(pci: PciDeviceView, replies: Seq<u32>, at: int) -> VramView {
    fresh_vram(
        detected_info(replies[at], replies[at + 1], replies[at + 2]),
        pci.bar1_base,
        pci.bar1_size,
    )
}

/// The number of accesses before VRAM is detected: the PMU is looked at only on
/// families that need no firmware.
pub open spec fn vram_at(family: GpuFamily) -> int {
    if needs_firmware(family) {
        2
    } else {
        3
    }
}

/// The compute channel that a device is given, before anything is submitted.
pub open spec fn first_channel(pci: PciDeviceView, replies: Seq<u32>) -> Option<Channel> {
    allocated_channel(detected_vram(pci, replies, vram_at(pci.family)), 0, 0)
}

/// Whether a device is ready for compute: it needs no firmware and has a
/// compute channel.
pub open spec fn is_ready(pci: PciDeviceView, replies: Seq<u32>) -> bool {
    !needs_firmware(pci.family) && first_channel(pci, replies) is Some
}

/// The accesses that bind the compute class to the channel of a device that is
/// ready: the bind commands are submitted, placed and announced.
pub open spec fn bind_accesses(pci: PciDeviceView, replies: Seq<u32>) -> Seq<Access> {
    if is_ready(pci, replies) {
        let channel = first_channel(pci, replies)->0;
        let regs = GpuRegs { bar0: pci.bar0_base };
        channel.place_accesses(
            channel.submission(regs, 2)->0,
            fresh_engine(pci.family).class_commands(),
        )
    } else {
        seq![]
    }
}

/// The accesses that initialize a device.
pub open spec fn device_accesses(pci: PciDeviceView, replies: Seq<u32>) -> Seq<Access> {
    let regs = GpuRegs { bar0: pci.bar0_base };
    seq![regs.read_at(NV_PMC_BOOT_0), regs.write_at(NV_PMC_INTR_EN_0, 0)] + (if needs_firmware(
        pci.family,
    ) {
        seq![]
    } else {
        seq![regs.read_at((FalconEngine::Pmu.base() + FALCON_CPUCTL) as u32)]
    }) + detect_accesses(regs) + seq![
        regs.read_at(NV_PGRAPH_GPC_COUNT),
        regs.read_at(NV_PGRAPH_TPC_PER_GPC),
    ] + init_fifo_accesses(regs) + bind_accesses(pci, replies) + seq![
        regs.write_at(NV_PMC_INTR_EN_0, 0x0010_1100),
    ]
}

/// The device that the replies of its initialization describe.
pub open spec fn initialized(pci: PciDeviceView, replies: Seq<u32>) -> DeviceView {
    let at = vram_at(pci.family);
    let channel = first_channel(pci, replies);
    DeviceView {
        pci,
        regs: GpuRegs { bar0: pci.bar0_base },
        vram: after_channel(detected_vram(pci, replies, at)),
        compute: fresh_engine(pci.family),
        tensors: TensorEngine { total_allocated: 0, tensor_count: 0 },
        compute_channel: if is_ready(pci, replies) {
            Some(channel->0.after_submit(2))
        } else {
            channel
        },
        compute_ready: is_ready(pci, replies),
        chip_id: chip_id_of(replies[0]),
        gpc_count: replies[at + 3],
        tpc_per_gpc: replies[at + 4],
    }
}

/// The step of initializing the GPU: a scan for it, and then its own
/// initialization if one is found.
pub open spec fn init_step(replies: Seq<u32>) -> Step<Option<DeviceView>> {
    match scan_step(0, replies, 0) {
        Step::Next(access) => Step::Next(access),
        Step::Done { result: None, used } => Step::Done { result: None, used },
        Step::Done { result: Some(pci), used } => {
            let rest = replies.skip(used as int);
            match perform(device_accesses(pci, rest), rest, initialized(pci, rest)) {
                Step::Next(access) => Step::Next(access),
                Step::Done { result, used: more } => Step::Done {
                    result: Some(result),
                    used: (used + more) as usize,
                },
            }
        },
    }
}

impl GpuDevice {
    /// Initializes the GPU.
    ///
    /// This is the main entry point. It scans PCI and attempts the full
    /// initialization, with BAR0 and BAR1 mapped at their physical addresses.
    /// If the GPU requires GSP-RM firmware (Turing and later), initialization
    /// is partial: registers work, but the compute engines do not.
    ///
    /// On a device that is ready, the command that binds the compute class is
    /// the first submission of the compute channel: it is written to the push
    /// buffer, its entry to the GPFIFO ring, and the doorbell is rung.
    pub fn init(replies: &[u32]) -> (step: Step<Option<GpuDevice>>)
        ensures
            step.deep_view() == init_step(replies@),
    {
        let n: usize = replies.len();
        match scan_for_nvidia_gpu(replies) {
            Step::Next(access) => Step::Next(access),
            Step::Done { result: None, used } => Step::Done { result: None, used },
            Step::Done { result: Some(pci), used } => {
                let rest = tail(replies, used);
                assert(rest@.len() == n - used);
                match GpuDevice::init_found(&pci, rest) {
                    Step::Next(access) => Step::Next(access),
                    Step::Done { result, used: more } => Step::Done {
                        result: Some(result),
                        used: used + more,
                    },
                }
            },
        }
    }

    /// Initializes a GPU that a scan has found on the PCI bus, like
    /// [`GpuDevice::init`].
    pub fn init_found(pci: &GpuPciDevice, replies: &[u32]) -> (step: Step<GpuDevice>)
        ensures
            step.deep_view() == perform(
                device_accesses(pci.deep_view(), replies@),
                replies@,
                initialized(pci.deep_view(), replies@),
            ),
            step is Done ==> step->used <= replies@.len(),
    {
        let n: usize = replies.len();
        let regs = GpuRegs::new(pci.bar0_base);
        let chip_id: u32 = match regs.read_chip_id(replies) {
            Step::Next(access) => {
                return Step::Next(access);
            },
            Step::Done { result, used: _ } => result,
        };
        match regs.disable_interrupts(tail(replies, 1)) {
            Step::Next(access) => {
                return Step::Next(access);
            },
            Step::Done { .. } => {},
        }
        let gsp: bool = needs_gsp_rm(pci.family);
        let mut at: usize = 2;
        if !gsp {
            let pmu = Falcon::new(FalconEngine::Pmu);
            match pmu.is_halted(&regs, tail(replies, 2)) {
                Step::Next(access) => {
                    return Step::Next(access);
                },
                Step::Done { .. } => {},
            }
            at = 3;
        }
        let mut vram: VramAllocator = match VramAllocator::detect_and_init(
            &regs,
            pci.bar1_base,
            pci.bar1_size,
            tail(replies, at),
        ) {
            Step::Next(access) => {
                return Step::Next(access);
            },
            Step::Done { result, used: _ } => result,
        };
        let gpc_count: u32 = match regs.gpc_count(tail(replies, at + 3)) {
            Step::Next(access) => {
                return Step::Next(access);
            },
            Step::Done { result, used: _ } => result,
        };
        let tpc_per_gpc: u32 = match regs.tpc_per_gpc(tail(replies, at + 4)) {
            Step::Next(access) => {
                return Step::Next(access);
            },
            Step::Done { result, used: _ } => result,
        };
        match init_fifo(&regs, tail(replies, at + 5)) {
            Step::Next(access) => {
                return Step::Next(access);
            },
            Step::Done { .. } => {},
        }
        let compute = ComputeEngine::new(pci.family);
        let mut compute_channel = Channel::allocate(&mut vram, 0, 0);
        let mut compute_ready: bool = false;
        let mut end: usize = at + 8;
        if !gsp {
            if let Some(channel) = &mut compute_channel {
                let ghost first = *channel;
                let batch = compute.bind_to_channel(channel, &regs);
                if let Some(submission) = batch.submission {
                    proof {
                        lemma_first_channel_is_wf(pci.deep_view(), replies@);
                        submit_keeps_wf(first, regs, 2);
                    }
                    let commands = batch.commands.as_slice();
                    match channel.place(&submission, commands, tail(replies, end)) {
                        Step::Next(access) => {
                            assert(bind_accesses(pci.deep_view(), replies@)[n - end] == access);
                            return Step::Next(access);
                        },
                        Step::Done { result: _, used } => {
                            end = end + used;
                        },
                    }
                }
                compute_ready = true;
            }
        }
        let tensors = TensorEngine::new();
        match regs.enable_interrupts(tail(replies, end)) {
            Step::Next(access) => {
                return Step::Next(access);
            },
            Step::Done { .. } => {},
        }
        let device = GpuDevice {
            pci: GpuPciDevice {
                bus: pci.bus,
                device: pci.device,
                function: pci.function,
                device_id: pci.device_id,
                revision: pci.revision,
                family: pci.family,
                bar0_base: pci.bar0_base,
                bar0_size: pci.bar0_size,
                bar1_base: pci.bar1_base,
                bar1_size: pci.bar1_size,
                bar2_base: pci.bar2_base,
                bar2_size: pci.bar2_size,
                name: pci.name.clone(),
            },
            regs,
            vram,
            compute,
            tensors,
            compute_channel,
            compute_ready,
            chip_id,
            gpc_count,
            tpc_per_gpc,
        };
        Step::Done { result: device, used: end + 1 }
    }
}

/// GPU information returned by [`GpuDevice::query_info`].
#[derive(Debug)]
pub struct GpuInfo {
    /// Human-readable GPU name (e.g., "NVIDIA GeForce RTX 3070 Ti").
    pub name: String,
    /// GPU architecture family.
    pub family: GpuFamily,
    /// PCI device ID.
    pub device_id: u16,
    /// Total VRAM in bytes.
    pub vram_bytes: u64,
    /// Number of Graphics Processing Clusters (GPCs).
    pub gpc_count: u32,
    /// Number of Texture Processing Clusters per GPC.
    pub tpc_per_gpc: u32,
    /// Number of Streaming Multiprocessors (estimated: GPCs * TPCs * SMs per TPC).
    pub sm_count: u32,
    /// Whether GSP-RM firmware is required (Turing and later).
    pub needs_gsp_rm: bool,
    /// Whether the GPU is fully initialized and ready for compute.
    pub compute_ready: bool,
}

/// The model of GPU information.
pub struct InfoView {
    pub name: Seq<char>,
    pub family: GpuFamily,
    pub device_id: u16,
    pub vram_bytes: u64,
    pub gpc_count: u32,
    pub tpc_per_gpc: u32,
    pub sm_count: u32,
    pub needs_gsp_rm: bool,
    pub compute_ready: bool,
}

impl DeepView for GpuInfo {
    type V = InfoView;

    open spec fn deep_view(&self) -> InfoView {
        InfoView {
            name: self.name@,
            family: self.family,
            device_id: self.device_id,
            vram_bytes: self.vram_bytes,
            gpc_count: self.gpc_count,
            tpc_per_gpc: self.tpc_per_gpc,
            sm_count: self.sm_count,
            needs_gsp_rm: self.needs_gsp_rm,
            compute_ready: self.compute_ready,
        }
    }
}

/// The text of a truth value.
pub open spec fn truth(value: bool) -> Seq<char> {
    if value {
        "true"@
    } else {
        "false"@
    }
}

fn truth_text(value: bool) -> (text: &'static str)
    ensures
        text@ == truth(value),
{
    if value {
        "true"
    } else {
        "false"
    }
}

impl InfoView {
    /// The text that describes the GPU.
    pub open spec fn description(self) -> Seq<char> {
        self.name + " ("@ + self.family.display_name() + ", "@ + decimal(
            (self.vram_bytes / 0x10_0000) as nat,
        ) + " MiB VRAM, "@ + decimal(self.sm_count as nat) + " SMs, compute_ready="@ + truth(
            self.compute_ready,
        ) + ")"@
    }
}

impl GpuInfo {
    /// Describes the GPU: its name, family, VRAM, SMs and whether it is ready.
    pub fn describe(&self) -> (text: String)
        ensures
            text@ == self.deep_view().description(),
    {
        let mut text = self.name.clone();
        text.append(" (");
        text.append(self.family.name());
        text.append(", ");
        append_decimal(&mut text, self.vram_bytes / 0x10_0000);
        text.append(" MiB VRAM, ");
        append_decimal(&mut text, self.sm_count as u64);
        text.append(" SMs, compute_ready=");
        text.append(truth_text(self.compute_ready));
        text.append(")");
        text
    }
}

impl DeviceView {
    /// The number of streaming multiprocessors.
    pub open spec fn sm_count(self) -> int {
        self.gpc_count * self.tpc_per_gpc * sms_of(self.pci.family)
    }

    /// What a query of this device returns.
    pub open spec fn info(self) -> InfoView {
        InfoView {
            name: self.pci.name,
            family: self.pci.family,
            device_id: self.pci.device_id,
            vram_bytes: self.vram.info.total_bytes,
            gpc_count: self.gpc_count,
            tpc_per_gpc: self.tpc_per_gpc,
            sm_count: self.sm_count() as u32,
            needs_gsp_rm: needs_firmware(self.pci.family),
            compute_ready: self.compute_ready,
        }
    }

    /// The line of a status report that gives a BAR.
    pub open spec fn bar_line(label: Seq<char>, base: u64, size: u64) -> Seq<char> {
        label + hex(base as nat, 16) + " ("@ + decimal((size / 0x10_0000) as nat) + " MiB)"@
    }

    /// The lines of a status report up to the timer.
    pub open spec fn state_lines(self) -> Seq<Seq<char>> {
        let info = self.info();
        seq![
            "=== GPU Status ==="@,
            "  Name: "@ + info.name,
            "  Family: "@ + info.family.display_name(),
            "  Chip ID: 0x"@ + hex(self.chip_id as nat, 3),
            "  Device ID: 0x"@ + hex(info.device_id as nat, 4),
            "  VRAM: "@ + decimal((info.vram_bytes / 0x10_0000) as nat) + " MiB"@,
            "  Topology: "@ + decimal(info.gpc_count as nat) + " GPCs, "@ + decimal(
                info.tpc_per_gpc as nat,
            ) + " TPCs/GPC, "@ + decimal(info.sm_count as nat) + " SMs"@,
            "  Needs GSP-RM: "@ + truth(info.needs_gsp_rm),
            "  Compute Ready: "@ + truth(info.compute_ready),
            DeviceView::bar_line("  BAR0: 0x"@, self.pci.bar0_base, self.pci.bar0_size),
            DeviceView::bar_line("  BAR1: 0x"@, self.pci.bar1_base, self.pci.bar1_size),
            self.tensors.summary(),
        ]
    }

    /// The lines of a status report, with the timer in nanoseconds and the
    /// pending interrupts, which have a line only if there are any.
    pub open spec fn report(self, timer_ns: u64, interrupts: u32) -> Seq<Seq<char>> {
        self.state_lines() + seq![
            "  GPU Timer: "@ + decimal((timer_ns / 1_000_000) as nat) + " ms"@,
        ] + (if interrupts != 0 {
            seq!["  Pending Interrupts: 0x"@ + hex(interrupts as nat, 8)]
        } else {
            seq![]
        }) + seq!["=================="@]
    }

    /// The step of a status report: the timer is read, and then the pending
    /// interrupts.
    pub open spec fn status_step(self, replies: Seq<u32>) -> Step<Seq<Seq<char>>> {
        match self.regs.timer_step(replies, 0) {
            Step::Next(access) => Step::Next(access),
            Step::Done { result: timer_ns, used } => {
                if replies.len() <= used {
                    Step::Next(self.regs.read_at(NV_PMC_INTR_0))
                } else {
                    Step::Done {
                        result: self.report(timer_ns, replies[used as int]),
                        used: (used + 1) as usize,
                    }
                }
            },
        }
    }
}

fn label_text(label: &str, value: &str) -> (text: String)
    ensures
        text@ == label@ + value@,
{
    let mut text = label.to_owned();
    text.append(value);
    text
}

fn label_hex(label: &str, value: u64, width: u32) -> (text: String)
    ensures
        text@ == label@ + hex(value as nat, width as nat),
{
    let mut text = label.to_owned();
    append_hex(&mut text, value, width);
    text
}

fn label_decimal(label: &str, value: u64, unit: &str) -> (text: String)
    ensures
        text@ == label@ + decimal(value as nat) + unit@,
{
    let mut text = label.to_owned();
    append_decimal(&mut text, value);
    text.append(unit);
    text
}

fn label_bar(label: &str, base: u64, size: u64) -> (text: String)
    ensures
        text@ == DeviceView::bar_line(label@, base, size),
{
    let mut text = label.to_owned();
    append_hex(&mut text, base, 16);
    text.append(" (");
    append_decimal(&mut text, size / 0x10_0000);
    text.append(" MiB)");
    text
}

impl GpuDevice {
    /// Queries GPU information.
    pub fn query_info(&self) -> (info: GpuInfo)
        requires
            self.deep_view().sm_count() <= u32::MAX,
        ensures
            info.deep_view() == self.deep_view().info(),
    {
        let sms: u32 = sms_per_tpc(self.pci.family);
        assert(self.gpc_count * self.tpc_per_gpc <= self.gpc_count * self.tpc_per_gpc * sms)
            by (nonlinear_arith)
            requires
                sms >= 1,
                self.gpc_count >= 0,
                self.tpc_per_gpc >= 0,
        ;
        GpuInfo {
            name: self.pci.name.clone(),
            family: self.pci.family,
            device_id: self.pci.device_id,
            vram_bytes: self.vram.info().total_bytes,
            gpc_count: self.gpc_count,
            tpc_per_gpc: self.tpc_per_gpc,
            sm_count: self.gpc_count * self.tpc_per_gpc * sms,
            needs_gsp_rm: needs_gsp_rm(self.pci.family),
            compute_ready: self.compute_ready,
        }
    }

    /// The lines of a status report up to the timer.
    fn state_report(&self) -> (lines: Vec<String>)
        requires
            self.deep_view().sm_count() <= u32::MAX,
        ensures
            lines.deep_view() == self.deep_view().state_lines(),
    {
        let info = self.query_info();
        let mut topology = label_decimal("  Topology: ", info.gpc_count as u64, " GPCs, ");
        append_decimal(&mut topology, info.tpc_per_gpc as u64);
        topology.append(" TPCs/GPC, ");
        append_decimal(&mut topology, info.sm_count as u64);
        topology.append(" SMs");
        let mut lines: Vec<String> = Vec::new();
        lines.push("=== GPU Status ===".to_owned());
        lines.push(label_text("  Name: ", info.name.as_str()));
        lines.push(label_text("  Family: ", info.family.name()));
        lines.push(label_hex("  Chip ID: 0x", self.chip_id as u64, 3));
        lines.push(label_hex("  Device ID: 0x", info.device_id as u64, 4));
        lines.push(label_decimal("  VRAM: ", info.vram_bytes / 0x10_0000, " MiB"));
        lines.push(topology);
        lines.push(label_text("  Needs GSP-RM: ", truth_text(info.needs_gsp_rm)));
        lines.push(label_text("  Compute Ready: ", truth_text(info.compute_ready)));
        lines.push(label_bar("  BAR0: 0x", self.pci.bar0_base, self.pci.bar0_size));
        lines.push(label_bar("  BAR1: 0x", self.pci.bar1_base, self.pci.bar1_size));
        lines.push(self.tensors.status());
        assert(lines.deep_view() =~= self.deep_view().state_lines());
        lines
    }

    /// Makes a detailed status report, line by line. Reads the GPU timer and
    /// the pending interrupts.
    pub fn status(&self, replies: &[u32]) -> (step: Step<Vec<String>>)
        requires
            self.deep_view().sm_count() <= u32::MAX,
        ensures
            step.deep_view() == self.deep_view().status_step(replies@),
    {
        let n: usize = replies.len();
        match self.regs.read_timer_ns(replies) {
            Step::Next(access) => Step::Next(access),
            Step::Done { result: timer_ns, used } => {
                if n <= used {
                    return Step::Next(self.regs.read32(NV_PMC_INTR_0));
                }
                let interrupts: u32 = replies[used];
                let mut lines = self.state_report();
                lines.push(label_decimal("  GPU Timer: ", timer_ns / 1_000_000, " ms"));
                if interrupts != 0 {
                    lines.push(label_hex("  Pending Interrupts: 0x", interrupts as u64, 8));
                }
                lines.push("==================".to_owned());
                assert(lines.deep_view() =~= self.deep_view().report(timer_ns, interrupts));
                Step::Done { result: lines, used: used + 1 }
            },
        }
    }

    /// Handles a GPU interrupt: reads which engines have one pending and
    /// clears the interrupts of PFIFO, PGRAPH and PTIMER that have.
    pub fn handle_interrupt(&self, replies: &[u32]) -> (step: Step<()>)
        ensures
            step == perform(interrupt_accesses(self.regs, replies@[0]), replies@, ()),
    {
        let n: usize = replies.len();
        let pending: u32 = match self.regs.read_interrupts(replies) {
            Step::Next(access) => {
                return Step::Next(access);
            },
            Step::Done { result, used: _ } => result,
        };
        let mut at: usize = 1;
        if pending / NV_PMC_INTR_PFIFO % 2 == 1 {
            if n == at {
                return Step::Next(self.regs.write32(NV_PFIFO_INTR_0, 0xFFFF_FFFF));
            }
            at = at + 1;
        }
        if pending / NV_PMC_INTR_PGRAPH % 2 == 1 {
            if n == at {
                return Step::Next(self.regs.write32(NV_PGRAPH_INTR, 0xFFFF_FFFF));
            }
            at = at + 1;
        }
        if pending / NV_PMC_INTR_PTIMER % 2 == 1 {
            if n == at {
                return Step::Next(self.regs.write32(NV_PTIMER_INTR_0, 0xFFFF_FFFF));
            }
            at = at + 1;
        }
        Step::Done { result: (), used: at }
    }
}

/// Whether the interrupt that `bit` stands for is pending.
pub open spec fn is_pending(status: u32, bit: u32) -> bool {
    status / bit % 2 == 1
}

/// The write that clears the interrupts of an engine, if it has one pending.
pub open spec fn clear_if_pending(regs: GpuRegs, status: u32, bit: u32, offset: u32) -> Seq<
    Access,
> {
    if is_pending(status, bit) {
        seq![regs.write_at(offset, 0xFFFF_FFFF)]
    } else {
        seq![]
    }
}

/// The accesses that handle an interrupt with the given pending status.
pub open spec fn interrupt_accesses(regs: GpuRegs, status: u32) -> Seq<Access> {
    seq![regs.read_at(NV_PMC_INTR_0)] + clear_if_pending(
        regs,
        status,
        NV_PMC_INTR_PFIFO,
        NV_PFIFO_INTR_0,
    ) + clear_if_pending(regs, status, NV_PMC_INTR_PGRAPH, NV_PGRAPH_INTR) + clear_if_pending(
        regs,
        status,
        NV_PMC_INTR_PTIMER,
        NV_PTIMER_INTR_0,
    )
}

/// Handling an interrupt clears exactly the engines that have one pending, and
/// writes nothing else.
pub proof fn interrupt_clears_exactly_pending(regs: GpuRegs, status: u32)
    ensures
        ({
            let accesses = interrupt_accesses(regs, status);
            let pfifo = regs.write_at(NV_PFIFO_INTR_0, 0xFFFF_FFFF);
            let pgraph = regs.write_at(NV_PGRAPH_INTR, 0xFFFF_FFFF);
            let ptimer = regs.write_at(NV_PTIMER_INTR_0, 0xFFFF_FFFF);
            &&& accesses.contains(pfifo) <==> is_pending(status, NV_PMC_INTR_PFIFO)
            &&& accesses.contains(pgraph) <==> is_pending(status, NV_PMC_INTR_PGRAPH)
            &&& accesses.contains(ptimer) <==> is_pending(status, NV_PMC_INTR_PTIMER)
            &&& accesses[0] == regs.read_at(NV_PMC_INTR_0)
            &&& forall|i: int|
                1 <= i < accesses.len() ==> {
                    ||| #[trigger] accesses[i] == pfifo
                    ||| accesses[i] == pgraph
                    ||| accesses[i] == ptimer
                }
        }),
{
    let accesses = interrupt_accesses(regs, status);
    let first = clear_if_pending(regs, status, NV_PMC_INTR_PFIFO, NV_PFIFO_INTR_0).len() as int;
    let second = clear_if_pending(regs, status, NV_PMC_INTR_PGRAPH, NV_PGRAPH_INTR).len() as int;
    if is_pending(status, NV_PMC_INTR_PFIFO) {
        assert(accesses[1] == regs.write_at(NV_PFIFO_INTR_0, 0xFFFF_FFFF));
    }
    if is_pending(status, NV_PMC_INTR_PGRAPH) {
        assert(accesses[1 + first] == regs.write_at(NV_PGRAPH_INTR, 0xFFFF_FFFF));
    }
    if is_pending(status, NV_PMC_INTR_PTIMER) {
        assert(accesses[1 + first + second] == regs.write_at(NV_PTIMER_INTR_0, 0xFFFF_FFFF));
    }
}

/// A spurious interrupt, with nothing pending, leads to no write at all.
pub proof fn spurious_interrupt_writes_nothing(regs: GpuRegs)
    ensures
        interrupt_accesses(regs, 0) == seq![regs.read_at(NV_PMC_INTR_0)],
{
    assert(interrupt_accesses(regs, 0) =~= seq![regs.read_at(NV_PMC_INTR_0)]);
}

/// VRAM that a device must have for its compute channel.
pub open spec fn enough_vram(total_bytes: u64) -> bool {
    total_bytes >= RESERVED_BYTES + GPFIFO_RING_SIZE + DEFAULT_PUSH_BUFFER_SIZE
}

proof fn lemma_first_channel(pci: PciDeviceView, replies: Seq<u32>)
    ensures
        first_channel(pci, replies) is Some <==> enough_vram(
            initialized(pci, replies).vram.info.total_bytes,
        ),
        channel_va_has_room(detected_vram(pci, replies, vram_at(pci.family))),
{
    let vram = detected_vram(pci, replies, vram_at(pci.family));
    let between = vram.after_allocate(GPFIFO_RING_SIZE);
    reveal_with_fuel(first_fit, 2);
    assert(vram.free.len() == 1);
    assert(between.free.len() <= 1);
}

proof fn lemma_first_channel_is_wf(pci: PciDeviceView, replies: Seq<u32>)
    requires
        first_channel(pci, replies) is Some,
    ensures
        first_channel(pci, replies)->0.wf(),
{
    let vram = detected_vram(pci, replies, vram_at(pci.family));
    lemma_first_channel(pci, replies);
    fresh_vram_is_wf(vram.info, vram.bar1_cpu_base, vram.bar1_size);
    allocated_channel_is_wf(vram, 0, 0);
}

/// An initialized device is ready for compute if and only if its family needs
/// no GSP-RM firmware and its VRAM has room for the compute channel. Turing,
/// Ampere and Ada are never ready.
pub proof fn device_is_ready_exactly_when(replies: Seq<u32>)
    requires
        init_step(replies) matches Step::Done { result: Some(_), .. },
    ensures
        ({
            let device = init_step(replies)->result->0;
            device.compute_ready <==> !needs_firmware(device.pci.family) && enough_vram(
                device.vram.info.total_bytes,
            )
        }),
{
    let scan = scan_step(0, replies, 0);
    lemma_first_channel(scan->result->0, replies.skip(scan->used as int));
}

/// An initialized device has a well-formed allocator and serves its own family.
/// It has a channel if and only if VRAM has room for one, and then the channel
/// is well-formed, and holds the bind command if the device is ready.
pub proof fn initialized_device_is_well_formed(replies: Seq<u32>)
    requires
        init_step(replies) matches Step::Done { result: Some(_), .. },
    ensures
        ({
            let device = init_step(replies)->result->0;
            &&& device.vram.wf()
            &&& device.regs.bar0 == device.pci.bar0_base
            &&& device.compute.family == device.pci.family
            &&& device.compute_channel is Some <==> enough_vram(device.vram.info.total_bytes)
            &&& device.compute_ready ==> device.compute_channel is Some
            &&& device.compute_channel is Some ==> {
                &&& device.compute_channel->0.wf()
                &&& device.compute_channel->0.push_offset == if device.compute_ready {
                    8int
                } else {
                    0
                }
            }
        }),
{
    let scan = scan_step(0, replies, 0);
    let pci = scan->result->0;
    let rest = replies.skip(scan->used as int);
    let vram = detected_vram(pci, rest, vram_at(pci.family));
    lemma_first_channel(pci, rest);
    fresh_vram_is_wf(vram.info, vram.bar1_cpu_base, vram.bar1_size);
    allocate_keeps_wf(vram, GPFIFO_RING_SIZE);
    allocate_keeps_wf(vram.after_allocate(GPFIFO_RING_SIZE), DEFAULT_PUSH_BUFFER_SIZE);
    if first_channel(pci, rest) is Some {
        allocated_channel_is_wf(vram, 0, 0);
        submit_keeps_wf(first_channel(pci, rest)->0, GpuRegs { bar0: pci.bar0_base }, 2);
    }
}

/// Whether an access writes the interrupt enable register of the device.
pub open spec fn writes_interrupt_enable(access: Access, value: u32) -> bool {
    access matches Access::WriteRegister { offset, value: v, .. } && offset == NV_PMC_INTR_EN_0
        && v == value
}

/// While a device is initialized its interrupts are off: the enable register is
/// cleared by the first write and set by the last access, and is not written
/// in between. Every register is one of the device's own BAR0, and every word
/// of VRAM that is written lies above the reserved bytes.
pub proof fn interrupts_stay_off_during_init(pci: PciDeviceView, replies: Seq<u32>)
    ensures
        ({
            let accesses = device_accesses(pci, replies);
            &&& accesses.len() > 2
            &&& !(accesses[0] is WriteRegister)
            &&& writes_interrupt_enable(accesses[1], 0)
            &&& writes_interrupt_enable(accesses.last(), 0x0010_1100)
            &&& forall|i: int, value: u32|
                1 < i < accesses.len() - 1 ==> !(#[trigger] writes_interrupt_enable(
                    accesses[i],
                    value,
                ))
            &&& forall|i: int|
                0 <= i < accesses.len() ==> match #[trigger] accesses[i] {
                    Access::ReadRegister { bar0, .. } => bar0 == pci.bar0_base,
                    Access::WriteRegister { bar0, .. } => bar0 == pci.bar0_base,
                    Access::WriteVram { phys_addr, .. } => phys_addr >= RESERVED_BYTES,
                    _ => false,
                }
        }),
{
    if is_ready(pci, replies) {
        let vram = detected_vram(pci, replies, vram_at(pci.family));
        let regs = GpuRegs { bar0: pci.bar0_base };
        lemma_first_channel(pci, replies);
        lemma_first_channel_is_wf(pci, replies);
        submit_keeps_wf(first_channel(pci, replies)->0, regs, 2);
        fresh_vram_is_wf(vram.info, vram.bar1_cpu_base, vram.bar1_size);
        allocate_keeps_wf(vram, GPFIFO_RING_SIZE);
        allocation_is_placed(vram, GPFIFO_RING_SIZE);
        allocation_is_placed(vram.after_allocate(GPFIFO_RING_SIZE), DEFAULT_PUSH_BUFFER_SIZE);
    }
}

/// Most accesses that initializing the GPU takes.
pub open spec fn max_init_accesses() -> int {
    max_scan_accesses() + 17
}

proof fn lemma_device_run(pci: PciDeviceView, replies: Seq<u32>, k: int)
    requires
        replies.len() <= usize::MAX,
        0 <= k <= replies.len(),
    ensures
        device_accesses(pci, replies).len() <= 17,
        k < device_accesses(pci, replies).len() ==> k < device_accesses(
            pci,
            replies.take(k),
        ).len(),
        k >= device_accesses(pci, replies).len() ==> device_accesses(pci, replies.take(k))
            == device_accesses(pci, replies) && initialized(pci, replies.take(k)) == initialized(
            pci,
            replies,
        ),
{
    let prefix = replies.take(k);
    assert(forall|i: int| 0 <= i < k ==> prefix[i] == replies[i]);
}

/// Initialization ends, whatever the hardware replies.
pub proof fn init_ends(replies: Seq<u32>)
    requires
        max_init_accesses() <= replies.len() <= usize::MAX,
    ensures
        init_step(replies) is Done,
        init_step(replies)->used <= max_init_accesses(),
{
    scan_ends(replies);
    let scan = scan_step(0, replies, 0);
    if scan->result is Some {
        let rest = replies.skip(scan->used as int);
        lemma_device_run(scan->result->0, rest, rest.len() as int);
    }
}

/// Initialization is one run of accesses: it asks for one access after another
/// until it ends, and further replies do not change its outcome.
pub proof fn init_is_one_run(replies: Seq<u32>, k: int)
    requires
        init_step(replies) is Done,
        0 <= k <= replies.len() <= usize::MAX,
    ensures
        init_step(replies)->used <= replies.len(),
        k < init_step(replies)->used ==> init_step(replies.take(k)) is Next,
        k >= init_step(replies)->used ==> init_step(replies.take(k)) == init_step(replies),
{
    scan_is_one_run(replies, k);
    let scan = scan_step(0, replies, 0);
    let used = scan->used as int;
    if scan->result is Some {
        let rest = replies.skip(used);
        if k >= used {
            assert(replies.take(k).skip(used) =~= rest.take(k - used));
            lemma_device_run(scan->result->0, rest, k - used);
        }
    }
}

/// The families from Turing on need firmware, and those from Ampere on have two
/// SMs in each TPC.
pub proof fn families_by_generation()
    ensures
        !needs_firmware(GpuFamily::Kepler) && sms_of(GpuFamily::Kepler) == 1,
        !needs_firmware(GpuFamily::Maxwell) && sms_of(GpuFamily::Maxwell) == 1,
        !needs_firmware(GpuFamily::Pascal) && sms_of(GpuFamily::Pascal) == 1,
        !needs_firmware(GpuFamily::Volta) && sms_of(GpuFamily::Volta) == 1,
        needs_firmware(GpuFamily::Turing) && sms_of(GpuFamily::Turing) == 1,
        needs_firmware(GpuFamily::Ampere) && sms_of(GpuFamily::Ampere) == 2,
        needs_firmware(GpuFamily::Ada) && sms_of(GpuFamily::Ada) == 2,
        !needs_firmware(GpuFamily::Unknown) && sms_of(GpuFamily::Unknown) == 1,
{
}

/// A device is initialized in this order: the chip ID is read at 0x0, and
/// interrupts are turned off at 0x140. The PMU's control register at 0x10A100 is
/// read on a family that needs no firmware. Then come the three memory
/// registers, the two topology registers, the FIFO's interrupts and the
/// commands that bind the compute class. Last, interrupts are turned on.
pub proof fn init_order(pci: PciDeviceView, replies: Seq<u32>, k: int)
    ensures
        ({
            let accesses = device_accesses(pci, replies);
            let bind = bind_accesses(pci, replies);
            let bar0 = pci.bar0_base;
            let at: int = if needs_firmware(pci.family) {
                2
            } else {
                3
            };
            let all = 0xFFFF_FFFFu32;
            &&& accesses.len() == at + 9 + bind.len()
            &&& accesses[0] == (Access::ReadRegister { bar0, offset: 0x0 })
            &&& accesses[1] == (Access::WriteRegister { bar0, offset: 0x140, value: 0 })
            &&& !needs_firmware(pci.family) ==> accesses[2] == (Access::ReadRegister {
                bar0,
                offset: 0x10_A100,
            })
            &&& accesses[at] == (Access::ReadRegister { bar0, offset: 0x10_0200 })
            &&& accesses[at + 1] == (Access::ReadRegister { bar0, offset: 0x10_020C })
            &&& accesses[at + 2] == (Access::ReadRegister { bar0, offset: 0x10_022C })
            &&& accesses[at + 3] == (Access::ReadRegister { bar0, offset: 0x40_2608 })
            &&& accesses[at + 4] == (Access::ReadRegister { bar0, offset: 0x40_2614 })
            &&& accesses[at + 5] == (Access::ReadRegister { bar0, offset: 0x2100 })
            &&& accesses[at + 6] == (Access::WriteRegister { bar0, offset: 0x2100, value: all })
            &&& accesses[at + 7] == (Access::WriteRegister { bar0, offset: 0x2140, value: all })
            &&& 0 <= k < bind.len() ==> accesses[at + 8 + k] == bind[k]
            &&& accesses.last() == (Access::WriteRegister { bar0, offset: 0x140, value: 0x10_1100 })
        }),
{
}

/// Where the first channel of a device lies: its ring in the first 8 KiB behind
/// the reserved mebibyte and its push buffer behind the ring, in VRAM as in the
/// GPU's address space.
pub proof fn first_channel_lies_at_the_start(pci: PciDeviceView, replies: Seq<u32>)
    ensures
        ({
            let vram = initialized(pci, replies).vram;
            let total = vram.info.total_bytes;
            &&& first_channel(pci, replies) is Some <==> total >= 0x14_2000
            &&& first_channel(pci, replies) matches Some(channel) ==> {
                &&& channel.id == 0 && channel.engine_id == 0
                &&& channel.gpfifo.phys_addr == 0x10_0000
                &&& channel.gpfifo.gpu_va == 0x1_0000_0000
                &&& channel.gpfifo.size == 0x2000
                &&& channel.push_buffer.phys_addr == 0x10_2000
                &&& channel.push_buffer.gpu_va == 0x1_0000_2000
                &&& channel.push_buffer.size == 0x4_0000
                &&& channel.doorbell_offset == 0x9_0000
                &&& channel.gpfifo_entries == 1024 && channel.gpfifo_put == 0
                &&& channel.push_size == 0x4_0000 && channel.push_offset == 0
                &&& vram.next_gpu_va == 0x1_0004_2000
                &&& vram.free.len() == 1
                &&& vram.free[0].start == 0x14_2000
                &&& vram.free[0].start + vram.free[0].size == total
            }
        }),
{
    let vram = detected_vram(pci, replies, vram_at(pci.family));
    let between = vram.after_allocate(GPFIFO_RING_SIZE);
    lemma_first_channel(pci, replies);
    reveal_with_fuel(first_fit, 2);
    assert(vram.free.len() == 1);
    assert(between.free.len() <= 1);
}

/// A device that is ready has its compute class bound by five accesses: the
/// method header and the class behind each other in the push buffer, the two
/// words of the ring's first entry, which point at these two words, and the
/// doorbell. A device that is not ready has nothing bound.
pub proof fn ready_device_has_its_class_bound(pci: PciDeviceView, replies: Seq<u32>)
    ensures
        ({
            let bind = bind_accesses(pci, replies);
            let bar0 = pci.bar0_base;
            let ready = initialized(pci, replies).compute_ready;
            &&& !ready ==> bind.len() == 0
            &&& ready ==> {
                &&& bind.len() == 5
                &&& bind[0] == (Access::WriteVram { phys_addr: 0x10_2000, word: 0x1001_0000 })
                &&& bind[1] == (Access::WriteVram {
                    phys_addr: 0x10_2004,
                    word: class_of(pci.family),
                })
                &&& bind[2] == (Access::WriteVram { phys_addr: 0x10_0000, word: 0x2000 })
                &&& bind[3] == (Access::WriteVram { phys_addr: 0x10_0004, word: 0x201 })
                &&& bind[4] == (Access::WriteRegister { bar0, offset: 0x9_0000, value: 1 })
            }
        }),
{
    first_channel_lies_at_the_start(pci, replies);
    binding_sets_the_class(fresh_engine(pci.family));
    if is_ready(pci, replies) {
        let channel = first_channel(pci, replies)->0;
        let submission = channel.submission(GpuRegs { bar0: pci.bar0_base }, 2)->0;
        assert(submission.gpu_va == 0x1_0000_2000);
        assert(submission.entry.lo == 0x2000);
        assert(submission.entry.hi == 0x201);
        assert((0 + 1) % 1024 == 1);
    }
}

/// Whether the replies to register reads are those of a device whose registers
/// hold `registers`.
pub open spec fn registers_answer(
    accesses: Seq<Access>,
    replies: Seq<u32>,
    registers: spec_fn(u32) -> u32,
) -> bool {
    &&& replies.len() >= accesses.len()
    &&& forall|i: int|
        0 <= i < accesses.len() ==> (#[trigger] accesses[i] matches Access::ReadRegister {
            bar0: _,
            offset,
        } ==> replies[i] == registers(offset))
}

/// Each field of an initialized device comes from its own register or from the
/// PCI device. It is ready exactly if its family needs no firmware and VRAM has
/// room for the channel. The bind commands are then the channel's first.
pub proof fn initialized_device_reads_each_register(
    pci: PciDeviceView,
    replies: Seq<u32>,
    registers: spec_fn(u32) -> u32,
)
    requires
        registers_answer(device_accesses(pci, replies), replies, registers),
    ensures
        ({
            let device = initialized(pci, replies);
            let info = detected_info(
                registers(0x10_0200),
                registers(0x10_020C),
                registers(0x10_022C),
            );
            &&& device.pci == pci
            &&& device.regs.bar0 == pci.bar0_base
            &&& device.chip_id == registers(0x0) / 0x10_0000
            &&& device.gpc_count == registers(0x40_2608)
            &&& device.tpc_per_gpc == registers(0x40_2614)
            &&& device.vram.info == info
            &&& device.vram.bar1_cpu_base == pci.bar1_base
            &&& device.vram.bar1_size == pci.bar1_size
            &&& device.compute.class_id == class_of(pci.family)
            &&& device.compute.family == pci.family
            &&& device.compute.subchannel == 0
            &&& device.compute.next_fence_value == 1
            &&& device.tensors.total_allocated == 0 && device.tensors.tensor_count == 0
            &&& device.compute_channel is Some <==> info.total_bytes >= 0x14_2000
            &&& device.compute_ready <==> !needs_firmware(pci.family) && info.total_bytes
                >= 0x14_2000
            &&& device.compute_channel matches Some(channel) ==> {
                let binds: int = if device.compute_ready {
                    1
                } else {
                    0
                };
                &&& channel.gpfifo_put == binds
                &&& channel.push_offset == 8 * binds
            }
        }),
{
    let accesses = device_accesses(pci, replies);
    init_order(pci, replies, 0);
    first_channel_lies_at_the_start(pci, replies);
    let at = vram_at(pci.family);
    assert(accesses[0] is ReadRegister && accesses[at] is ReadRegister && accesses[at
        + 1] is ReadRegister && accesses[at + 2] is ReadRegister && accesses[at + 3] is ReadRegister
        && accesses[at + 4] is ReadRegister);
    assert((0 + 1) % 1024 == 1);
}

/// Initialization goes on where the scan ended. Without a GPU it ends there.
/// With one it performs the device's accesses, and the device is made from the
/// replies to them.
pub proof fn init_continues_the_scan(scanned: Seq<u32>, rest: Seq<u32>)
    requires
        scan_step(0, scanned + rest, 0) is Done,
        scan_step(0, scanned + rest, 0)->used == scanned.len(),
        scanned.len() + rest.len() <= usize::MAX,
    ensures
        ({
            let found = scan_step(0, scanned + rest, 0)->result;
            let step = init_step(scanned + rest);
            &&& found is None ==> step == (Step::Done {
                result: None::<DeviceView>,
                used: scanned.len() as usize,
            })
            &&& found matches Some(pci) ==> {
                let accesses = device_accesses(pci, rest);
                &&& rest.len() < accesses.len() ==> step == Step::<Option<DeviceView>>::Next(
                    accesses[rest.len() as int],
                )
                &&& rest.len() >= accesses.len() ==> step == (Step::Done {
                    result: Some(initialized(pci, rest)),
                    used: (scanned.len() + accesses.len()) as usize,
                })
            }
        }),
{
    assert((scanned + rest).skip(scanned.len() as int) =~= rest);
}

/// The pending bits are bit 8 for the FIFO, bit 12 for the graphics engine and
/// bit 20 for the timer.
pub proof fn pending_bits(status: u32)
    ensures
        is_pending(status, NV_PMC_INTR_PFIFO) <==> status & 0x100 != 0,
        is_pending(status, NV_PMC_INTR_PGRAPH) <==> status & 0x1000 != 0,
        is_pending(status, NV_PMC_INTR_PTIMER) <==> status & 0x10_0000 != 0,
{
    assert((status / 0x100 % 2 == 1 <==> status & 0x100 != 0) && (status / 0x1000 % 2 == 1
        <==> status & 0x1000 != 0) && (status / 0x10_0000 % 2 == 1 <==> status & 0x10_0000 != 0))
        by (bit_vector);
}

/// An interrupt is handled by reading the status at 0x100 and clearing every
/// unit whose bit is set: first the FIFO at 0x2100, then the graphics engine at
/// 0x401100, then the timer at 0x9100.
pub proof fn interrupt_order(regs: GpuRegs, status: u32)
    ensures
        ({
            let accesses = interrupt_accesses(regs, status);
            let bar0 = regs.bar0;
            let all = 0xFFFF_FFFFu32;
            let fifo: int = if status & 0x100 != 0 {
                1
            } else {
                0
            };
            let graphics: int = if status & 0x1000 != 0 {
                1
            } else {
                0
            };
            let timer: int = if status & 0x10_0000 != 0 {
                1
            } else {
                0
            };
            &&& accesses.len() == 1 + fifo + graphics + timer
            &&& accesses[0] == (Access::ReadRegister { bar0, offset: 0x100 })
            &&& fifo == 1 ==> accesses[1] == (Access::WriteRegister {
                bar0,
                offset: 0x2100,
                value: all,
            })
            &&& graphics == 1 ==> accesses[1 + fifo] == (Access::WriteRegister {
                bar0,
                offset: 0x40_1100,
                value: all,
            })
            &&& timer == 1 ==> accesses[1 + fifo + graphics] == (Access::WriteRegister {
                bar0,
                offset: 0x9100,
                value: all,
            })
        }),
{
    pending_bits(status);
}

/// What a query reports is what the device holds. Its SMs are the GPCs times
/// the TPCs in each, and twice as many from Ampere on.
pub proof fn info_reports_the_device(device: DeviceView)
    requires
        device.sm_count() <= u32::MAX,
    ensures
        ({
            let info = device.info();
            let tpcs = device.gpc_count * device.tpc_per_gpc;
            &&& info.name == device.pci.name
            &&& info.family == device.pci.family
            &&& info.device_id == device.pci.device_id
            &&& info.vram_bytes == device.vram.info.total_bytes
            &&& info.gpc_count == device.gpc_count
            &&& info.tpc_per_gpc == device.tpc_per_gpc
            &&& info.compute_ready == device.compute_ready
            &&& info.needs_gsp_rm <==> info.family == GpuFamily::Turing || info.family
                == GpuFamily::Ampere || info.family == GpuFamily::Ada
            &&& info.family == GpuFamily::Ampere || info.family == GpuFamily::Ada ==> info.sm_count
                == tpcs + tpcs
            &&& info.family != GpuFamily::Ampere && info.family != GpuFamily::Ada ==> info.sm_count
                == tpcs
        }),
{
    let tpcs = device.gpc_count * device.tpc_per_gpc;
    let sms = sms_of(device.pci.family) as int;
    assert((sms == 1 ==> tpcs * sms == tpcs) && (sms == 2 ==> tpcs * sms == tpcs + tpcs) && (tpcs
        * sms >= 0)) by (nonlinear_arith)
        requires
            tpcs >= 0,
            sms == 1 || sms == 2,
    ;
    assert(tpcs >= 0) by (nonlinear_arith)
        requires
            tpcs == device.gpc_count * device.tpc_per_gpc,
            device.gpc_count >= 0,
            device.tpc_per_gpc >= 0,
    ;
}

/// A description gives the name, the family, the whole mebibytes of VRAM, the
/// SMs and whether the device is ready.
pub proof fn info_description_gives_the_numbers(info: InfoView)
    ensures
        exists|size: Seq<char>, sms: Seq<char>|
            #![trigger number_of(size, 10), number_of(sms, 10)]
            {
                &&& info.description() == info.name + " ("@ + info.family.display_name() + ", "@
                    + size + " MiB VRAM, "@ + sms + " SMs, compute_ready="@ + (
                if info.compute_ready {
                    "true"@
                } else {
                    "false"@
                }) + ")"@
                &&& number_of(size, 10) * 0x10_0000 <= info.vram_bytes < (number_of(size, 10) + 1)
                    * 0x10_0000
                &&& number_of(sms, 10) == info.sm_count
                &&& all_digits(size, 10) && all_digits(sms, 10)
            },
{
    let size = decimal((info.vram_bytes / 0x10_0000) as nat);
    let sms = decimal(info.sm_count as nat);
    decimal_reads_back((info.vram_bytes / 0x10_0000) as nat);
    decimal_reads_back(info.sm_count as nat);
    assert(number_of(size, 10) == info.vram_bytes / 0x10_0000);
    assert(number_of(sms, 10) == info.sm_count);
}

/// Whether a line gives the base of a BAR in 16 hexadecimal digits and its size
/// in whole mebibytes.
pub open spec fn gives_bar(line: Seq<char>, label: Seq<char>, base: u64, size: u64) -> bool {
    exists|address: Seq<char>, mebibytes: Seq<char>|
        #![trigger number_of(address, 16), number_of(mebibytes, 10)]
        {
            &&& line == label + address + " ("@ + mebibytes + " MiB)"@
            &&& number_of(address, 16) == base && all_digits(address, 16) && address.len() == 16
            &&& number_of(mebibytes, 10) * 0x10_0000 <= size < (number_of(mebibytes, 10) + 1)
                * 0x10_0000
            &&& all_digits(mebibytes, 10)
        }
}

proof fn lemma_bar_line(label: Seq<char>, base: u64, size: u64)
    ensures
        gives_bar(DeviceView::bar_line(label, base, size), label, base, size),
{
    let address = hex(base as nat, 16);
    let mebibytes = decimal((size / 0x10_0000) as nat);
    hex_reads_back(base as nat, 16);
    decimal_reads_back((size / 0x10_0000) as nat);
    assert(address.len() == 16) by {
        reveal_with_fuel(hex, 17);
    }
    assert(number_of(address, 16) == base);
    assert(number_of(mebibytes, 10) == size / 0x10_0000);
}

/// Whether a line gives the GPCs, the TPCs in each and the SMs.
pub open spec fn gives_topology(line: Seq<char>, gpcs: int, tpcs: int, sms: int) -> bool {
    exists|a: Seq<char>, b: Seq<char>, c: Seq<char>|
        #![trigger number_of(a, 10), number_of(b, 10), number_of(c, 10)]
        {
            &&& line == "  Topology: "@ + a + " GPCs, "@ + b + " TPCs/GPC, "@ + c + " SMs"@
            &&& number_of(a, 10) == gpcs && all_digits(a, 10)
            &&& number_of(b, 10) == tpcs && all_digits(b, 10)
            &&& number_of(c, 10) == sms && all_digits(c, 10)
        }
}

proof fn lemma_topology_line(device: DeviceView)
    ensures
        gives_topology(
            device.state_lines()[6],
            device.info().gpc_count as int,
            device.info().tpc_per_gpc as int,
            device.info().sm_count as int,
        ),
{
    let info = device.info();
    let a = decimal(info.gpc_count as nat);
    let b = decimal(info.tpc_per_gpc as nat);
    let c = decimal(info.sm_count as nat);
    decimal_reads_back(info.gpc_count as nat);
    decimal_reads_back(info.tpc_per_gpc as nat);
    decimal_reads_back(info.sm_count as nat);
    assert(number_of(a, 10) == info.gpc_count);
    assert(number_of(b, 10) == info.tpc_per_gpc);
    assert(number_of(c, 10) == info.sm_count);
}

/// What each line of the device's state says.
pub proof fn state_lines_give_the_device(device: DeviceView)
    ensures
        ({
            let lines = device.state_lines();
            let info = device.info();
            &&& lines.len() == 12
            &&& lines[0] == "=== GPU Status ==="@
            &&& lines[1] == "  Name: "@ + device.pci.name
            &&& lines[2] == "  Family: "@ + device.pci.family.display_name()
            &&& gives_number(lines[3], "  Chip ID: 0x"@, device.chip_id as int, 16, 3, seq![])
            &&& gives_number(
                lines[4],
                "  Device ID: 0x"@,
                device.pci.device_id as int,
                16,
                4,
                seq![],
            )
            &&& gives_number(
                lines[5],
                "  VRAM: "@,
                device.vram.info.total_bytes as int / 0x10_0000,
                10,
                1,
                " MiB"@,
            )
            &&& gives_topology(
                lines[6],
                device.gpc_count as int,
                device.tpc_per_gpc as int,
                info.sm_count as int,
            )
            &&& info.needs_gsp_rm ==> lines[7] == "  Needs GSP-RM: "@ + "true"@
            &&& !info.needs_gsp_rm ==> lines[7] == "  Needs GSP-RM: "@ + "false"@
            &&& device.compute_ready ==> lines[8] == "  Compute Ready: "@ + "true"@
            &&& !device.compute_ready ==> lines[8] == "  Compute Ready: "@ + "false"@
            &&& gives_bar(lines[9], "  BAR0: 0x"@, device.pci.bar0_base, device.pci.bar0_size)
            &&& gives_bar(lines[10], "  BAR1: 0x"@, device.pci.bar1_base, device.pci.bar1_size)
            &&& lines[11] == device.tensors.summary()
        }),
{
    let info = device.info();
    let lines = device.state_lines();
    number_texts_give_their_number("  Chip ID: 0x"@, device.chip_id as nat, 3, seq![]);
    assert(lines[3] =~= "  Chip ID: 0x"@ + hex(device.chip_id as nat, 3) + seq![]);
    number_texts_give_their_number("  Device ID: 0x"@, info.device_id as nat, 4, seq![]);
    assert(lines[4] =~= "  Device ID: 0x"@ + hex(info.device_id as nat, 4) + seq![]);
    number_texts_give_their_number(
        "  VRAM: "@,
        (info.vram_bytes / 0x10_0000) as nat,
        0,
        " MiB"@,
    );
    lemma_topology_line(device);
    lemma_bar_line("  BAR0: 0x"@, device.pci.bar0_base, device.pci.bar0_size);
    lemma_bar_line("  BAR1: 0x"@, device.pci.bar1_base, device.pci.bar1_size);
}

/// A report is the state, the timer in whole milliseconds, the pending
/// interrupts where there are any, and a closing line.
pub proof fn report_ends_with_timer_and_interrupts(
    device: DeviceView,
    timer_ns: u64,
    interrupts: u32,
    i: int,
)
    ensures
        ({
            let report = device.report(timer_ns, interrupts);
            &&& 0 <= i < 12 ==> report[i] == device.state_lines()[i]
            &&& gives_number(
                report[12],
                "  GPU Timer: "@,
                timer_ns as int / 1_000_000,
                10,
                1,
                " ms"@,
            )
            &&& interrupts == 0 ==> report.len() == 14
            &&& interrupts != 0 ==> {
                &&& report.len() == 15
                &&& gives_number(
                    report[13],
                    "  Pending Interrupts: 0x"@,
                    interrupts as int,
                    16,
                    8,
                    seq![],
                )
            }
            &&& report.last() == "=================="@
        }),
{
    let report = device.report(timer_ns, interrupts);
    number_texts_give_their_number("  GPU Timer: "@, (timer_ns / 1_000_000) as nat, 0, " ms"@);
    number_texts_give_their_number("  Pending Interrupts: 0x"@, interrupts as nat, 8, seq![]);
    assert(device.state_lines().len() == 12);
    if interrupts != 0 {
        assert(report[13] =~= "  Pending Interrupts: 0x"@ + hex(interrupts as nat, 8) + seq![]);
    }
}

/// A status reads the timer, then the pending interrupts at 0x100, and reports
/// what both gave.
pub proof fn status_reads_timer_and_interrupts(device: DeviceView, replies: Seq<u32>)
    requires
        replies.len() < usize::MAX,
    ensures
        ({
            let timer = device.regs.timer_step(replies, 0);
            let step = device.status_step(replies);
            &&& timer is Next ==> step == Step::<Seq<Seq<char>>>::Next(timer->Next_0)
            &&& timer is Done && replies.len() == timer->used ==> step == Step::<
                Seq<Seq<char>>,
            >::Next(Access::ReadRegister { bar0: device.regs.bar0, offset: 0x100 })
            &&& timer is Done && replies.len() > timer->used ==> step == (Step::Done {
                result: device.report(timer->result, replies[timer->used as int]),
                used: (timer->used + 1) as usize,
            })
        }),
{
}

/// The models of a device and of what is reported of it have their fields.
pub proof fn device_models_show_the_fields(device: GpuDevice, info: GpuInfo)
    ensures
        ({
            let model = device.deep_view();
            &&& model.pci == device.pci.deep_view() && model.regs == device.regs
            &&& model.vram == device.vram.model()
            &&& model.compute == device.compute && model.tensors == device.tensors
            &&& model.compute_channel == device.compute_channel
            &&& model.compute_ready == device.compute_ready
            &&& model.chip_id == device.chip_id
            &&& model.gpc_count == device.gpc_count && model.tpc_per_gpc == device.tpc_per_gpc
        }),
        ({
            let model = info.deep_view();
            &&& model.name == info.name@ && model.family == info.family
            &&& model.device_id == info.device_id && model.vram_bytes == info.vram_bytes
            &&& model.gpc_count == info.gpc_count && model.tpc_per_gpc == info.tpc_per_gpc
            &&& model.sm_count == info.sm_count && model.needs_gsp_rm == info.needs_gsp_rm
            &&& model.compute_ready == info.compute_ready
        }),
{
}

} // verus!
