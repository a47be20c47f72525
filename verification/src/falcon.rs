//! Falcon microcontroller interface.
//!
//! Falcon units are embedded processors inside the GPU. Each has its own
//! instruction memory (IMEM), data memory (DMEM), interrupts and mailbox
//! registers.

use vstd::prelude::*;
use crate::access::{perform, tail, Access, Step};
use crate::mmio::GpuRegs;

verus! {

/// Interrupt status.
pub const FALCON_IRQSRD: u32 = 0x020;

/// Interrupt set.
pub const FALCON_IRQSSET: u32 = 0x024;

/// Interrupt clear.
pub const FALCON_IRQSCLR: u32 = 0x028;

/// Interrupt mask set.
pub const FALCON_IRQMSET: u32 = 0x024;

/// Interrupt mask clear.
pub const FALCON_IRQMCLR: u32 = 0x028;

/// Interrupt destination.
pub const FALCON_IRQDEST: u32 = 0x02C;

/// Mailbox 0.
pub const FALCON_MAILBOX0: u32 = 0x040;

/// Mailbox 1.
pub const FALCON_MAILBOX1: u32 = 0x044;

/// OS register, in which firmware signals that it is ready.
pub const FALCON_OS: u32 = 0x080;

/// IMEM configuration.
pub const FALCON_IMEMC: u32 = 0x180;

/// IMEM data port.
pub const FALCON_IMEMD: u32 = 0x184;

/// IMEM tag.
pub const FALCON_IMEMT: u32 = 0x188;

/// DMEM configuration.
pub const FALCON_DMEMC: u32 = 0x1C0;

/// DMEM data port.
pub const FALCON_DMEMD: u32 = 0x1C4;

/// CPU control register.
pub const FALCON_CPUCTL: u32 = 0x100;

/// Boot vector.
pub const FALCON_BOOTVEC: u32 = 0x104;

/// Hardware status.
pub const FALCON_HWCFG: u32 = 0x108;

/// DMA control.
pub const FALCON_DMACTL: u32 = 0x10C;

/// DMA transfer base.
pub const FALCON_DMATRFBASE: u32 = 0x110;

/// DMA transfer mode.
pub const FALCON_DMATRFMOFFS: u32 = 0x114;

/// DMA transfer command.
pub const FALCON_DMATRFCMD: u32 = 0x118;

/// DMA transfer status.
pub const FALCON_DMATRFFBOFFS: u32 = 0x11C;

/// CPU control bit 1: start execution.
pub const FALCON_CPUCTL_START: u32 = 0x2;

/// CPU control bit 2: halt.
pub const FALCON_CPUCTL_HALT: u32 = 0x4;

/// How many times a boot polls for readiness.
pub const BOOT_POLLS: u32 = 1_000_000;

/// Which Falcon engine is addressed.
#[derive(Debug, Clone, Copy, PartialEq, Eq, Structural)]
pub enum FalconEngine {
    /// Power Management Unit
    Pmu,
    /// Security Engine 2 (Turing and later)
    Sec2,
    /// GPU System Processor (Turing and later)
    Gsp,
}

impl FalconEngine {
    /// The BAR0 base offset of this engine.
    pub open spec fn base(self) -> u32 {
        match self {
            FalconEngine::Pmu => 0x10a000,
            FalconEngine::Sec2 => 0x840000,
            FalconEngine::Gsp => 0x110000,
        }
    }

    /// The BAR0 base offset of this engine.
    pub fn base_offset(&self) -> (base: u32)
        ensures
            base == self.base(),
    {
        match self {
            FalconEngine::Pmu => 0x10a000,
            FalconEngine::Sec2 => 0x840000,
            FalconEngine::Gsp => 0x110000,
        }
    }
}

/// Interface to one Falcon microcontroller.
pub struct Falcon {
    engine: FalconEngine,
    base: u32,
}

/// The little-endian 32-bit word number `i` of a byte string.
pub open spec fn word_at(bytes: Seq<u8>, i: int) -> u32 {
    (bytes[4 * i] + bytes[4 * i + 1] * 0x100 + bytes[4 * i + 2] * 0x1_0000 + bytes[4 * i + 3]
        * 0x100_0000) as u32
}

/// The configuration word for an upload to `offset`: auto-increment (bit 25)
/// and the dword offset in bits [15:2].
pub open spec fn upload_config(offset: u32) -> u32 {
    (0x200_0000 + offset % 0x1_0000 / 4 * 4) as u32
}

/// Whether a control register value has the halt bit set.
pub open spec fn is_halt_set(cpuctl: u32) -> bool {
    (cpuctl / FALCON_CPUCTL_HALT) % 2 == 1
}

impl Falcon {
    /// The engine that this interface addresses.
    pub closed spec fn engine(self) -> FalconEngine {
        self.engine
    }

    #[verifier::type_invariant]
    closed spec fn inv(self) -> bool {
        self.base == self.engine.base()
    }

    /// The access that reads a register of this Falcon.
    pub open spec fn read_at(self, regs: GpuRegs, offset: u32) -> Access {
        regs.read_at((self.engine().base() + offset) as u32)
    }

    /// The access that writes a register of this Falcon.
    pub open spec fn write_at(self, regs: GpuRegs, offset: u32, value: u32) -> Access {
        regs.write_at((self.engine().base() + offset) as u32, value)
    }

    /// An interface for the given engine.
    pub fn new(engine: FalconEngine) -> (falcon: Self)
        ensures
            falcon.engine() == engine,
    {
        Falcon { engine, base: engine.base_offset() }
    }

    fn read(&self, regs: &GpuRegs, offset: u32) -> (access: Access)
        requires
            offset < 0x1000,
        ensures
            access == self.read_at(*regs, offset),
    {
        proof {
            use_type_invariant(self);
        }
        regs.read32(self.base + offset)
    }

    fn write(&self, regs: &GpuRegs, offset: u32, value: u32) -> (access: Access)
        requires
            offset < 0x1000,
        ensures
            access == self.write_at(*regs, offset, value),
    {
        proof {
            use_type_invariant(self);
        }
        regs.write32(self.base + offset, value)
    }

    /// Whether this Falcon is halted: the halt bit of the CPU control register.
    pub fn is_halted(&self, regs: &GpuRegs, replies: &[u32]) -> (step: Step<bool>)
        ensures
            step == perform(
                seq![self.read_at(*regs, FALCON_CPUCTL)],
                replies@,
                is_halt_set(replies@[0]),
            ),
    {
        if replies.len() == 0 {
            Step::Next(self.read(regs, FALCON_CPUCTL))
        } else {
            Step::Done { result: (replies[0] / FALCON_CPUCTL_HALT) % 2 == 1, used: 1 }
        }
    }

    /// The accesses that halt this Falcon.
    pub open spec fn halt_accesses(self, regs: GpuRegs) -> Seq<Access> {
        seq![
            self.write_at(regs, FALCON_CPUCTL, FALCON_CPUCTL_HALT),
            self.read_at(regs, FALCON_CPUCTL),
        ]
    }

    /// Halts this Falcon and reads the control register back.
    pub fn halt(&self, regs: &GpuRegs, replies: &[u32]) -> (step: Step<()>)
        ensures
            step == perform(self.halt_accesses(*regs), replies@, ()),
    {
        let n: usize = replies.len();
        if n == 0 {
            Step::Next(self.write(regs, FALCON_CPUCTL, FALCON_CPUCTL_HALT))
        } else if n == 1 {
            Step::Next(self.read(regs, FALCON_CPUCTL))
        } else {
            Step::Done { result: (), used: 2 }
        }
    }

    /// The accesses of an upload through a configuration and a data register.
    /// Bytes that are not a whole number of words are not uploaded.
    pub open spec fn upload_accesses(
        self,
        regs: GpuRegs,
        config: u32,
        data: u32,
        bytes: Seq<u8>,
        offset: u32,
    ) -> Seq<Access> {
        if bytes.len() % 4 != 0 {
            seq![]
        } else {
            seq![self.write_at(regs, config, upload_config(offset))] + Seq::new(
                bytes.len() / 4,
                |i: int| self.write_at(regs, data, word_at(bytes, i)),
            )
        }
    }

    fn upload(
        &self,
        regs: &GpuRegs,
        config: u32,
        data: u32,
        bytes: &[u8],
        offset: u32,
        replies: &[u32],
    ) -> (step: Step<()>)
        requires
            config < 0x1000,
            data < 0x1000,
        ensures
            step == perform(
                self.upload_accesses(*regs, config, data, bytes@, offset),
                replies@,
                (),
            ),
    {
        if bytes.len() % 4 != 0 {
            return Step::Done { result: (), used: 0 };
        }
        let n: usize = replies.len();
        if n == 0 {
            return Step::Next(self.write(regs, config, 0x200_0000 + offset % 0x1_0000 / 4 * 4));
        }
        let words: usize = bytes.len() / 4;
        if n <= words {
            let at: usize = 4 * (n - 1);
            let word: u32 = bytes[at] as u32 + bytes[at + 1] as u32 * 0x100 + bytes[at + 2] as u32
                * 0x1_0000 + bytes[at + 3] as u32 * 0x100_0000;
            return Step::Next(self.write(regs, data, word));
        }
        Step::Done { result: (), used: words + 1 }
    }

    /// The accesses that upload firmware to IMEM.
    pub open spec fn imem_accesses(self, regs: GpuRegs, firmware: Seq<u8>, offset: u32) -> Seq<
        Access,
    > {
        self.upload_accesses(regs, FALCON_IMEMC, FALCON_IMEMD, firmware, offset)
    }

    /// The accesses that upload data to DMEM.
    pub open spec fn dmem_accesses(self, regs: GpuRegs, data: Seq<u8>, offset: u32) -> Seq<Access> {
        self.upload_accesses(regs, FALCON_DMEMC, FALCON_DMEMD, data, offset)
    }

    /// Uploads firmware to IMEM, as little-endian 32-bit words. Firmware whose
    /// size is not a multiple of four is not uploaded.
    pub fn upload_imem(
        &self,
        regs: &GpuRegs,
        firmware: &[u8],
        imem_offset: u32,
        replies: &[u32],
    ) -> (step: Step<()>)
        ensures
            step == perform(
                self.imem_accesses(*regs, firmware@, imem_offset),
                replies@,
                (),
            ),
    {
        self.upload(regs, FALCON_IMEMC, FALCON_IMEMD, firmware, imem_offset, replies)
    }

    /// Uploads data to DMEM, as little-endian 32-bit words. Data whose size is
    /// not a multiple of four is not uploaded.
    pub fn upload_dmem(
        &self,
        regs: &GpuRegs,
        data: &[u8],
        dmem_offset: u32,
        replies: &[u32],
    ) -> (step: Step<()>)
        ensures
            step == perform(self.dmem_accesses(*regs, data@, dmem_offset), replies@, ()),
    {
        self.upload(regs, FALCON_DMEMC, FALCON_DMEMD, data, dmem_offset, replies)
    }

    /// The accesses that boot this Falcon.
    pub open spec fn boot_accesses(self, regs: GpuRegs, entry_point: u32) -> Seq<Access> {
        seq![
            self.write_at(regs, FALCON_BOOTVEC, entry_point),
            self.write_at(regs, FALCON_CPUCTL, FALCON_CPUCTL_START),
        ]
    }

    /// Sets the boot vector and starts execution.
    pub fn boot(&self, regs: &GpuRegs, entry_point: u32, replies: &[u32]) -> (step: Step<()>)
        ensures
            step == perform(self.boot_accesses(*regs, entry_point), replies@, ()),
    {
        let n: usize = replies.len();
        if n == 0 {
            Step::Next(self.write(regs, FALCON_BOOTVEC, entry_point))
        } else if n == 1 {
            Step::Next(self.write(regs, FALCON_CPUCTL, FALCON_CPUCTL_START))
        } else {
            Step::Done { result: (), used: 2 }
        }
    }

    /// The step of polling the OS register: the value that the latest poll
    /// found if it is not zero, `None` once `timeout` polls have found zero.
    pub open spec fn ready_step(self, regs: GpuRegs, timeout: u32, replies: Seq<u32>) -> Step<
        Option<u32>,
    > {
        if 0 < replies.len() <= timeout && replies.last() != 0 {
            Step::Done { result: Some(replies.last()), used: replies.len() as usize }
        } else if replies.len() >= timeout {
            Step::Done { result: None, used: timeout as usize }
        } else {
            Step::Next(self.read_at(regs, FALCON_OS))
        }
    }

    /// Waits for the firmware to signal readiness in the OS register.
    ///
    /// Returns the value that it wrote, or `None` after `timeout_iters` polls.
    pub fn wait_ready(&self, regs: &GpuRegs, timeout_iters: u32, replies: &[u32]) -> (step: Step<
        Option<u32>,
    >)
        ensures
            step == self.ready_step(*regs, timeout_iters, replies@),
    {
        let n: usize = replies.len();
        if 0 < n && n <= timeout_iters as usize && replies[n - 1] != 0 {
            Step::Done { result: Some(replies[n - 1]), used: n }
        } else if n >= timeout_iters as usize {
            Step::Done { result: None, used: timeout_iters as usize }
        } else {
            Step::Next(self.read(regs, FALCON_OS))
        }
    }

    fn read_value(&self, regs: &GpuRegs, offset: u32, replies: &[u32]) -> (step: Step<u32>)
        requires
            offset < 0x1000,
        ensures
            step == perform(seq![self.read_at(*regs, offset)], replies@, replies@[0]),
    {
        if replies.len() == 0 {
            Step::Next(self.read(regs, offset))
        } else {
            Step::Done { result: replies[0], used: 1 }
        }
    }

    fn write_value(&self, regs: &GpuRegs, offset: u32, value: u32, replies: &[u32]) -> (step: Step<
        (),
    >)
        requires
            offset < 0x1000,
        ensures
            step == perform(seq![self.write_at(*regs, offset, value)], replies@, ()),
    {
        if replies.len() == 0 {
            Step::Next(self.write(regs, offset, value))
        } else {
            Step::Done { result: (), used: 1 }
        }
    }

    /// Reads mailbox 0.
    pub fn read_mailbox0(&self, regs: &GpuRegs, replies: &[u32]) -> (step: Step<u32>)
        ensures
            step == perform(seq![self.read_at(*regs, FALCON_MAILBOX0)], replies@, replies@[0]),
            replies@.len() == 0 ==> step == Step::<u32>::Next(self.read_at(*regs, 0x40)),
    {
        self.read_value(regs, FALCON_MAILBOX0, replies)
    }

    /// Writes mailbox 0.
    pub fn write_mailbox0(&self, regs: &GpuRegs, value: u32, replies: &[u32]) -> (step: Step<()>)
        ensures
            step == perform(seq![self.write_at(*regs, FALCON_MAILBOX0, value)], replies@, ()),
            replies@.len() == 0 ==> step == Step::<()>::Next(self.write_at(*regs, 0x40, value)),
    {
        self.write_value(regs, FALCON_MAILBOX0, value, replies)
    }

    /// Reads mailbox 1.
    pub fn read_mailbox1(&self, regs: &GpuRegs, replies: &[u32]) -> (step: Step<u32>)
        ensures
            step == perform(seq![self.read_at(*regs, FALCON_MAILBOX1)], replies@, replies@[0]),
            replies@.len() == 0 ==> step == Step::<u32>::Next(self.read_at(*regs, 0x44)),
    {
        self.read_value(regs, FALCON_MAILBOX1, replies)
    }

    /// Writes mailbox 1.
    pub fn write_mailbox1(&self, regs: &GpuRegs, value: u32, replies: &[u32]) -> (step: Step<()>)
        ensures
            step == perform(seq![self.write_at(*regs, FALCON_MAILBOX1, value)], replies@, ()),
            replies@.len() == 0 ==> step == Step::<()>::Next(self.write_at(*regs, 0x44, value)),
    {
        self.write_value(regs, FALCON_MAILBOX1, value, replies)
    }

    /// The accesses that clear the interrupts `pending`.
    pub open spec fn clear_accesses(self, regs: GpuRegs, pending: u32) -> Seq<Access> {
        if pending != 0 {
            seq![self.read_at(regs, FALCON_IRQSRD), self.write_at(regs, FALCON_IRQSCLR, pending)]
        } else {
            seq![self.read_at(regs, FALCON_IRQSRD)]
        }
    }

    /// Clears all pending interrupts of this Falcon.
    pub fn clear_interrupts(&self, regs: &GpuRegs, replies: &[u32]) -> (step: Step<()>)
        ensures
            step == perform(self.clear_accesses(*regs, replies@[0]), replies@, ()),
    {
        let n: usize = replies.len();
        if n == 0 {
            proof {
                assert(self.clear_accesses(*regs, replies@[0])[0] == self.read_at(
                    *regs,
                    FALCON_IRQSRD,
                ));
            }
            return Step::Next(self.read(regs, FALCON_IRQSRD));
        }
        let pending: u32 = replies[0];
        if pending == 0 {
            return Step::Done { result: (), used: 1 };
        }
        if n == 1 {
            Step::Next(self.write(regs, FALCON_IRQSCLR, pending))
        } else {
            Step::Done { result: (), used: 2 }
        }
    }

    /// The accesses of an initialization before it polls for readiness: halt,
    /// clear the interrupts `pending`, upload IMEM and DMEM, boot at 0.
    pub open spec fn load_accesses(
        self,
        regs: GpuRegs,
        imem_firmware: Seq<u8>,
        dmem_data: Seq<u8>,
        pending: u32,
    ) -> Seq<Access> {
        self.halt_accesses(regs) + self.clear_accesses(regs, pending) + self.imem_accesses(
            regs,
            imem_firmware,
            0,
        ) + (if dmem_data.len() > 0 {
            self.dmem_accesses(regs, dmem_data, 0)
        } else {
            seq![]
        }) + self.boot_accesses(regs, 0)
    }

    /// The step of an initialization with firmware. Reply 2 holds the pending
    /// interrupts.
    pub open spec fn init_step(
        self,
        regs: GpuRegs,
        imem_firmware: Seq<u8>,
        dmem_data: Seq<u8>,
        replies: Seq<u32>,
    ) -> Step<bool> {
        let load = self.load_accesses(regs, imem_firmware, dmem_data, replies[2]);
        if replies.len() < load.len() {
            Step::Next(load[replies.len() as int])
        } else {
            match self.ready_step(regs, BOOT_POLLS, replies.skip(load.len() as int)) {
                Step::Next(access) => Step::Next(access),
                Step::Done { result, used } => Step::Done {
                    result: result is Some,
                    used: (load.len() + used) as usize,
                },
            }
        }
    }

    /// Initializes the Falcon with firmware: halts it, clears its interrupts,
    /// uploads IMEM and DMEM, boots it and waits for readiness.
    ///
    /// Returns whether the firmware signalled that it is ready.
    pub fn init_with_firmware(
        &self,
        regs: &GpuRegs,
        imem_firmware: &[u8],
        dmem_data: &[u8],
        replies: &[u32],
    ) -> (step: Step<bool>)
        ensures
            step == self.init_step(*regs, imem_firmware@, dmem_data@, replies@),
    {
        let n: usize = replies.len();
        let ghost load = self.load_accesses(*regs, imem_firmware@, dmem_data@, replies@[2]);
        let ghost halt = self.halt_accesses(*regs);
        let ghost clear = self.clear_accesses(*regs, replies@[2]);
        let ghost imem = self.imem_accesses(*regs, imem_firmware@, 0);
        let ghost dmem = if dmem_data@.len() > 0 {
            self.dmem_accesses(*regs, dmem_data@, 0)
        } else {
            seq![]
        };
        let mut at: usize = match self.halt(regs, replies) {
            Step::Next(access) => {
                return Step::Next(access);
            },
            Step::Done { result: _, used } => used,
        };
        assert(n > 2 ==> replies@.skip(2)[0] == replies@[2]);
        at = match self.clear_interrupts(regs, tail(replies, at)) {
            Step::Next(access) => {
                return Step::Next(access);
            },
            Step::Done { result: _, used } => at + used,
        };
        assert(at == halt.len() + clear.len());
        at = match self.upload_imem(regs, imem_firmware, 0, tail(replies, at)) {
            Step::Next(access) => {
                assert(load[n as int] == imem[n - at]);
                return Step::Next(access);
            },
            Step::Done { result: _, used } => at + used,
        };
        assert(at == halt.len() + clear.len() + imem.len());
        if dmem_data.len() > 0 {
            at = match self.upload_dmem(regs, dmem_data, 0, tail(replies, at)) {
                Step::Next(access) => {
                    assert(load[n as int] == dmem[n - at]);
                    return Step::Next(access);
                },
                Step::Done { result: _, used } => at + used,
            };
        }
        assert(at == halt.len() + clear.len() + imem.len() + dmem.len());
        at = match self.boot(regs, 0, tail(replies, at)) {
            Step::Next(access) => {
                return Step::Next(access);
            },
            Step::Done { result: _, used } => at + used,
        };
        assert(at == load.len());
        match self.wait_ready(regs, BOOT_POLLS, tail(replies, at)) {
            Step::Next(access) => Step::Next(access),
            Step::Done { result, used } => Step::Done { result: result.is_some(), used: at + used },
        }
    }
}

/// Waiting polls as long as it reads zero, and ends with the first value that
/// is not.
pub proof fn wait_ready_reports_first_answer(
    falcon: Falcon,
    regs: GpuRegs,
    timeout: u32,
    replies: Seq<u32>,
    k: int,
)
    requires
        0 <= k < replies.len(),
        k < timeout,
        forall|i: int| 0 <= i < k ==> #[trigger] replies[i] == 0,
        replies[k] != 0,
    ensures
        forall|i: int|
            0 <= i <= k ==> #[trigger] falcon.ready_step(regs, timeout, replies.take(i))
                == Step::<Option<u32>>::Next(falcon.read_at(regs, FALCON_OS)),
        falcon.ready_step(regs, timeout, replies.take(k + 1)) == (Step::Done {
            result: Some(replies[k]),
            used: (k + 1) as usize,
        }),
{
}

/// Waiting gives up after exactly `timeout` polls that read zero.
pub proof fn wait_ready_times_out(
    falcon: Falcon,
    regs: GpuRegs,
    timeout: u32,
    replies: Seq<u32>,
)
    requires
        replies.len() == timeout,
        forall|i: int| 0 <= i < replies.len() ==> #[trigger] replies[i] == 0,
    ensures
        forall|i: int|
            0 <= i < timeout ==> #[trigger] falcon.ready_step(regs, timeout, replies.take(i))
                == Step::<Option<u32>>::Next(falcon.read_at(regs, FALCON_OS)),
        falcon.ready_step(regs, timeout, replies) == (Step::Done {
            result: None::<u32>,
            used: timeout as usize,
        }),
{
}

/// An initialization succeeds only if the last poll read a value that is not
/// zero, and fails only after all its polls.
pub proof fn init_succeeds_only_when_ready(
    falcon: Falcon,
    regs: GpuRegs,
    imem_firmware: Seq<u8>,
    dmem_data: Seq<u8>,
    replies: Seq<u32>,
)
    requires
        falcon.init_step(regs, imem_firmware, dmem_data, replies) is Done,
        replies.len() <= usize::MAX,
    ensures
        ({
            let load = falcon.load_accesses(regs, imem_firmware, dmem_data, replies[2]);
            let step = falcon.init_step(regs, imem_firmware, dmem_data, replies);
            &&& step->used <= replies.len()
            &&& step->result ==> load.len() < step->used && replies[step->used - 1] != 0
            &&& !step->result ==> step->used == load.len() + BOOT_POLLS
        }),
{
}

/// An initialization ends, whatever the hardware replies: at the latest after
/// all its polls.
pub proof fn firmware_init_ends(
    falcon: Falcon,
    regs: GpuRegs,
    imem_firmware: Seq<u8>,
    dmem_data: Seq<u8>,
    replies: Seq<u32>,
)
    requires
        falcon.load_accesses(regs, imem_firmware, dmem_data, replies[2]).len() + BOOT_POLLS
            <= replies.len(),
    ensures
        falcon.init_step(regs, imem_firmware, dmem_data, replies) is Done,
{
}

/// The words of an upload carry the bytes in little-endian order: each word
/// written splits back into its four bytes.
pub proof fn upload_words_carry_the_bytes(bytes: Seq<u8>, i: int)
    requires
        0 <= i,
        4 * i + 3 < bytes.len(),
    ensures
        word_at(bytes, i) % 0x100 == bytes[4 * i],
        word_at(bytes, i) / 0x100 % 0x100 == bytes[4 * i + 1],
        word_at(bytes, i) / 0x1_0000 % 0x100 == bytes[4 * i + 2],
        word_at(bytes, i) / 0x100_0000 == bytes[4 * i + 3],
{
}

/// No engine's registers overlap those of another.
pub proof fn falcon_registers_are_apart(a: Falcon, b: Falcon, regs: GpuRegs, x: u32, y: u32)
    requires
        a.engine() != b.engine(),
        x < 0x1000,
        y < 0x1000,
    ensures
        a.read_at(regs, x) != b.read_at(regs, y),
{
}

/// Where the registers of each unit begin, and where in them each register
/// lies.
pub proof fn falcon_register_map()
    ensures
        FalconEngine::Pmu.base() == 0x10_A000,
        FalconEngine::Sec2.base() == 0x84_0000,
        FalconEngine::Gsp.base() == 0x11_0000,
        FALCON_IRQSRD == 0x20 && FALCON_IRQSSET == 0x24 && FALCON_IRQSCLR == 0x28,
        FALCON_IRQMSET == 0x24 && FALCON_IRQMCLR == 0x28 && FALCON_IRQDEST == 0x2C,
        FALCON_MAILBOX0 == 0x40 && FALCON_MAILBOX1 == 0x44 && FALCON_OS == 0x80,
        FALCON_CPUCTL == 0x100 && FALCON_BOOTVEC == 0x104 && FALCON_HWCFG == 0x108,
        FALCON_DMACTL == 0x10C && FALCON_DMATRFBASE == 0x110 && FALCON_DMATRFMOFFS == 0x114,
        FALCON_DMATRFCMD == 0x118 && FALCON_DMATRFFBOFFS == 0x11C,
        FALCON_IMEMC == 0x180 && FALCON_IMEMD == 0x184 && FALCON_IMEMT == 0x188,
        FALCON_DMEMC == 0x1C0 && FALCON_DMEMD == 0x1C4,
        FALCON_CPUCTL_START == 2 && FALCON_CPUCTL_HALT == 4,
        BOOT_POLLS == 1_000_000,
{
}

/// A unit's register is accessed at its distance from the unit's first.
pub proof fn falcon_accesses_name_their_register(
    falcon: Falcon,
    regs: GpuRegs,
    offset: u32,
    value: u32,
)
    requires
        offset < 0x1000,
    ensures
        falcon.read_at(regs, offset) matches Access::ReadRegister { bar0, offset: o } && bar0
            == regs.bar0 && o - falcon.engine().base() == offset,
        falcon.write_at(regs, offset, value) matches Access::WriteRegister {
            bar0,
            offset: o,
            value: v,
        } && bar0 == regs.bar0 && o - falcon.engine().base() == offset && v == value,
{
}

/// Whether an access writes a register of a unit.
pub open spec fn writes_register(access: Access, falcon: Falcon, regs: GpuRegs, offset: u32) -> bool {
    access matches Access::WriteRegister { bar0, offset: o, value: _ } && bar0 == regs.bar0 && o
        == falcon.engine().base() + offset
}

/// Whether a word holds four bytes of an image, the lowest first.
pub open spec fn carries(word: u32, image: Seq<u8>, first: int) -> bool {
    &&& word % 0x100 == image[first]
    &&& word / 0x100 % 0x100 == image[first + 1]
    &&& word / 0x1_0000 % 0x100 == image[first + 2]
    &&& word / 0x100_0000 == image[first + 3]
}

/// An upload to instruction memory first writes the control register at 0x180:
/// bit 25 and, in the low 16 bits, the dword offset. Then it writes each word of
/// the image in turn to the data register at 0x184, so that the words' bytes,
/// lowest first, are the image. An image that is not made of words is refused.
pub proof fn imem_upload_writes_the_image(
    falcon: Falcon,
    regs: GpuRegs,
    image: Seq<u8>,
    offset: u32,
    i: int,
)
    ensures
        image.len() % 4 != 0 ==> falcon.imem_accesses(regs, image, offset).len() == 0,
        image.len() % 4 == 0 ==> {
            let accesses = falcon.imem_accesses(regs, image, offset);
            let control = accesses[0]->WriteRegister_value;
            &&& 4 * (accesses.len() - 1) == image.len()
            &&& writes_register(accesses[0], falcon, regs, 0x180)
            &&& control / 0x1_0000 == 0x200
            &&& control % 0x1_0000 == offset % 0x1_0000 - offset % 4
            &&& 0 <= i < image.len() / 4 ==> {
                &&& writes_register(accesses[1 + i], falcon, regs, 0x184)
                &&& carries(accesses[1 + i]->WriteRegister_value, image, 4 * i)
            }
        },
{
    if 0 <= i < image.len() / 4 {
        upload_words_carry_the_bytes(image, i);
    }
    lemma_control_word(offset);
}

/// An upload to data memory does the same with the control register at 0x1C0
/// and the data register at 0x1C4.
pub proof fn dmem_upload_writes_the_image(
    falcon: Falcon,
    regs: GpuRegs,
    image: Seq<u8>,
    offset: u32,
    i: int,
)
    ensures
        image.len() % 4 != 0 ==> falcon.dmem_accesses(regs, image, offset).len() == 0,
        image.len() % 4 == 0 ==> {
            let accesses = falcon.dmem_accesses(regs, image, offset);
            let control = accesses[0]->WriteRegister_value;
            &&& 4 * (accesses.len() - 1) == image.len()
            &&& writes_register(accesses[0], falcon, regs, 0x1C0)
            &&& control / 0x1_0000 == 0x200
            &&& control % 0x1_0000 == offset % 0x1_0000 - offset % 4
            &&& 0 <= i < image.len() / 4 ==> {
                &&& writes_register(accesses[1 + i], falcon, regs, 0x1C4)
                &&& carries(accesses[1 + i]->WriteRegister_value, image, 4 * i)
            }
        },
{
    if 0 <= i < image.len() / 4 {
        upload_words_carry_the_bytes(image, i);
    }
    lemma_control_word(offset);
}

proof fn lemma_control_word(offset: u32)
    ensures
        upload_config(offset) / 0x1_0000 == 0x200,
        upload_config(offset) % 0x1_0000 == offset % 0x1_0000 - offset % 4,
{
    let low = offset % 0x1_0000;
    assert(low % 4 == offset % 4);
    assert(low / 4 * 4 == low - low % 4);
}

/// Two images that are uploaded by the same accesses are the same.
pub proof fn upload_determines_the_image(
    falcon: Falcon,
    regs: GpuRegs,
    a: Seq<u8>,
    b: Seq<u8>,
    offset: u32,
)
    requires
        a.len() % 4 == 0,
        b.len() % 4 == 0,
        falcon.imem_accesses(regs, a, offset) == falcon.imem_accesses(regs, b, offset)
            || falcon.dmem_accesses(regs, a, offset) == falcon.dmem_accesses(regs, b, offset),
    ensures
        a == b,
{
    imem_upload_writes_the_image(falcon, regs, a, offset, 0);
    imem_upload_writes_the_image(falcon, regs, b, offset, 0);
    dmem_upload_writes_the_image(falcon, regs, a, offset, 0);
    dmem_upload_writes_the_image(falcon, regs, b, offset, 0);
    assert forall|k: int| 0 <= k < a.len() implies a[k] == b[k] by {
        let i = k / 4;
        imem_upload_writes_the_image(falcon, regs, a, offset, i);
        imem_upload_writes_the_image(falcon, regs, b, offset, i);
        dmem_upload_writes_the_image(falcon, regs, a, offset, i);
        dmem_upload_writes_the_image(falcon, regs, b, offset, i);
        assert(k == 4 * i || k == 4 * i + 1 || k == 4 * i + 2 || k == 4 * i + 3);
    }
    assert(a =~= b);
}

/// A unit is halted by writing bit 2 of the control register at 0x100, and
/// started by writing the entry point to 0x104 and then bit 1 to 0x100.
pub proof fn halt_and_boot_order(falcon: Falcon, regs: GpuRegs, entry_point: u32)
    ensures
        ({
            let halt = falcon.halt_accesses(regs);
            let boot = falcon.boot_accesses(regs, entry_point);
            &&& halt.len() == 2 && boot.len() == 2
            &&& writes_register(halt[0], falcon, regs, 0x100)
            &&& halt[0]->WriteRegister_value == 4
            &&& halt[1] == falcon.read_at(regs, 0x100)
            &&& writes_register(boot[0], falcon, regs, 0x104)
            &&& boot[0]->WriteRegister_value == entry_point
            &&& writes_register(boot[1], falcon, regs, 0x100)
            &&& boot[1]->WriteRegister_value == 2
        }),
{
}

/// Pending interrupts are read at 0x20, and exactly they are cleared at 0x28.
pub proof fn clear_writes_back_what_is_pending(falcon: Falcon, regs: GpuRegs, pending: u32)
    ensures
        ({
            let accesses = falcon.clear_accesses(regs, pending);
            &&& accesses[0] == falcon.read_at(regs, 0x20)
            &&& pending == 0 ==> accesses.len() == 1
            &&& pending != 0 ==> {
                &&& accesses.len() == 2
                &&& writes_register(accesses[1], falcon, regs, 0x28)
                &&& accesses[1]->WriteRegister_value == pending
            }
        }),
{
}

/// Firmware is loaded in this order: halt, clear interrupts, upload both images
/// at offset 0, boot at entry point 0. Data memory is left alone where there is
/// no data.
pub proof fn load_order(
    falcon: Falcon,
    regs: GpuRegs,
    imem_firmware: Seq<u8>,
    dmem_data: Seq<u8>,
    pending: u32,
    k: int,
)
    ensures
        ({
            let load = falcon.load_accesses(regs, imem_firmware, dmem_data, pending);
            let imem = falcon.imem_accesses(regs, imem_firmware, 0);
            let dmem = falcon.dmem_accesses(regs, dmem_data, 0);
            let start: int = if pending != 0 {
                4
            } else {
                3
            };
            let data = if dmem_data.len() > 0 {
                dmem.len()
            } else {
                0
            };
            let boot = start + imem.len() + data;
            &&& load.len() == boot + 2
            &&& writes_register(load[0], falcon, regs, 0x100) && load[0]->WriteRegister_value == 4
            &&& load[1] == falcon.read_at(regs, 0x100)
            &&& load[2] == falcon.read_at(regs, 0x20)
            &&& pending != 0 ==> writes_register(load[3], falcon, regs, 0x28)
                && load[3]->WriteRegister_value == pending
            &&& 0 <= k < imem.len() ==> load[start + k] == imem[k]
            &&& 0 <= k < data ==> load[start + imem.len() + k] == dmem[k]
            &&& writes_register(load[boot], falcon, regs, 0x104) && load[boot]->WriteRegister_value
                == 0
            &&& writes_register(load[boot + 1], falcon, regs, 0x100) && load[boot
                + 1]->WriteRegister_value == 2
        }),
{
}

/// After its firmware has been loaded a unit is ready as soon as the register at
/// 0x80 reads anything but 0, and the start fails once a million reads gave 0.
pub proof fn init_follows_the_ready_register(
    falcon: Falcon,
    regs: GpuRegs,
    imem_firmware: Seq<u8>,
    dmem_data: Seq<u8>,
    replies: Seq<u32>,
    polls: int,
)
    requires
        0 <= polls <= 1_000_000,
        replies.len() == falcon.load_accesses(regs, imem_firmware, dmem_data, replies[2]).len()
            + polls,
        replies.len() <= usize::MAX,
        forall|i: int|
            replies.len() - polls <= i < replies.len() - 1 ==> #[trigger] replies[i] == 0,
    ensures
        ({
            let step = falcon.init_step(regs, imem_firmware, dmem_data, replies);
            &&& polls > 0 && replies.last() != 0 ==> step == (Step::Done {
                result: true,
                used: replies.len() as usize,
            })
            &&& polls == 1_000_000 && replies.last() == 0 ==> step == (Step::Done {
                result: false,
                used: replies.len() as usize,
            })
            &&& polls < 1_000_000 && (polls == 0 || replies.last() == 0) ==> step == Step::<
                bool,
            >::Next(falcon.read_at(regs, 0x80))
        }),
{
}

/// A unit is halted exactly if bit 2 of its control register is set, whatever
/// the other bits are.
pub proof fn halt_is_bit_two(above: u32, bit: u32, below: u32)
    requires
        above < 0x2000_0000,
        bit < 2,
        below < 4,
    ensures
        is_halt_set((above * 8 + bit * 4 + below) as u32) <==> bit == 1,
{
}

} // verus!
