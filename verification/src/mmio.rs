//! GPU register map and register procedures.
//!
//! The control registers live in BAR0, divided into functional blocks at
//! fixed offsets. Every procedure here goes through one [`GpuRegs`] mapping.

use vstd::prelude::*;
use crate::access::{high_half, join_halves, low_half, perform, split_word, word64, Access, Step};

verus! {

/// NV_PMC (master control) base offset from BAR0.
pub const NV_PMC: u32 = 0x000000;

/// Boot device identification register; bits [31:20] hold the chipset ID.
pub const NV_PMC_BOOT_0: u32 = NV_PMC + 0x000;

/// Master interrupt status, one bit per engine.
pub const NV_PMC_INTR_0: u32 = NV_PMC + 0x100;

/// Master interrupt enable, one bit per engine.
pub const NV_PMC_INTR_EN_0: u32 = NV_PMC + 0x140;

/// Master enable register. Writing 0 disables every engine.
pub const NV_PMC_ENABLE: u32 = NV_PMC + 0x200;

/// Interrupt bit of the PFIFO engine (bit 8).
pub const NV_PMC_INTR_PFIFO: u32 = 0x0000_0100;

/// Interrupt bit of the PGRAPH engine (bit 12).
pub const NV_PMC_INTR_PGRAPH: u32 = 0x0000_1000;

/// Interrupt bit of PTIMER (bit 20).
pub const NV_PMC_INTR_PTIMER: u32 = 0x0010_0000;

/// NV_PBUS (bus interface) base offset from BAR0.
pub const NV_PBUS: u32 = 0x001000;

/// PCI-side interrupt status.
pub const NV_PBUS_INTR_0: u32 = NV_PBUS + 0x100;

/// PCI-side interrupt enable.
pub const NV_PBUS_INTR_EN_0: u32 = NV_PBUS + 0x140;

/// NV_PFIFO (command submission) base offset from BAR0.
pub const NV_PFIFO: u32 = 0x002000;

/// PFIFO interrupt status.
pub const NV_PFIFO_INTR_0: u32 = NV_PFIFO + 0x100;

/// PFIFO interrupt enable.
pub const NV_PFIFO_INTR_EN_0: u32 = NV_PFIFO + 0x140;

/// PFIFO runlist configuration.
pub const NV_PFIFO_RUNLIST_BASE: u32 = NV_PFIFO + 0x2270;

/// NV_PTIMER base offset from BAR0.
pub const NV_PTIMER: u32 = 0x009000;

/// Timer low 32 bits (nanoseconds).
pub const NV_PTIMER_TIME_0: u32 = NV_PTIMER + 0x400;

/// Timer high 32 bits (nanoseconds).
pub const NV_PTIMER_TIME_1: u32 = NV_PTIMER + 0x404;

/// Timer interrupt status.
pub const NV_PTIMER_INTR_0: u32 = NV_PTIMER + 0x100;

/// Timer interrupt enable.
pub const NV_PTIMER_INTR_EN_0: u32 = NV_PTIMER + 0x140;

/// NV_PFB (memory controller) base offset from BAR0.
pub const NV_PFB: u32 = 0x100000;

/// Memory configuration register.
pub const NV_PFB_CFG0: u32 = NV_PFB + 0x200;

/// VRAM size register.
pub const NV_PFB_VRAM_SIZE: u32 = NV_PFB + 0x20C;

/// Number of memory partitions.
pub const NV_PFB_NPARTS: u32 = NV_PFB + 0x22C;

/// NV_PGRAPH (graphics and compute engine) base offset from BAR0.
pub const NV_PGRAPH: u32 = 0x400000;

/// PGRAPH interrupt status.
pub const NV_PGRAPH_INTR: u32 = NV_PGRAPH + 0x1100;

/// PGRAPH interrupt enable.
pub const NV_PGRAPH_INTR_EN: u32 = NV_PGRAPH + 0x1140;

/// GPC (Graphics Processing Cluster) count.
pub const NV_PGRAPH_GPC_COUNT: u32 = NV_PGRAPH + 0x2608;

/// TPC (Texture Processing Cluster) count per GPC.
pub const NV_PGRAPH_TPC_PER_GPC: u32 = NV_PGRAPH + 0x2614;

/// NV_PDISP (display engine) base offset from BAR0.
pub const NV_PDISP: u32 = 0x610000;

/// Display interrupt status.
pub const NV_PDISP_INTR_0: u32 = NV_PDISP + 0x020;

/// NV_PMU (power management unit) base offset from BAR0.
pub const NV_PMU: u32 = 0x10a000;

/// PMU Falcon interrupt status.
pub const NV_PMU_FALCON_IRQSRD: u32 = NV_PMU + 0x020;

/// PMU Falcon interrupt mask set.
pub const NV_PMU_FALCON_IRQMSET: u32 = NV_PMU + 0x024;

/// PMU Falcon mailbox 0.
pub const NV_PMU_FALCON_MAILBOX0: u32 = NV_PMU + 0x040;

/// PMU Falcon mailbox 1.
pub const NV_PMU_FALCON_MAILBOX1: u32 = NV_PMU + 0x044;

/// NV_SEC2 (security engine, Turing and later) base offset from BAR0.
pub const NV_SEC2: u32 = 0x840000;

/// NV_GSP (GPU system processor, Turing and later) base offset from BAR0.
pub const NV_GSP: u32 = 0x110000;

/// A mapping of the GPU register space.
#[derive(Debug, Clone, Copy, PartialEq, Eq, Structural)]
pub struct GpuRegs {
    /// Virtual address of the BAR0 mapping.
    pub bar0: u64,
}

impl GpuRegs {
    /// The access that reads the register at `offset`.
    pub open spec fn read_at(self, offset: u32) -> Access {
        Access::ReadRegister { bar0: self.bar0, offset }
    }

    /// The access that writes `value` to the register at `offset`.
    pub open spec fn write_at(self, offset: u32, value: u32) -> Access {
        Access::WriteRegister { bar0: self.bar0, offset, value }
    }

    /// The step of a procedure that reads one register and returns `result`.
    pub open spec fn read_one<T>(self, offset: u32, replies: Seq<u32>, result: T) -> Step<T> {
        perform(seq![self.read_at(offset)], replies, result)
    }

    /// A register accessor for the BAR0 mapping at `bar0`.
    pub fn new(bar0: u64) -> (regs: Self)
        ensures
            regs.bar0 == bar0,
    {
        GpuRegs { bar0 }
    }

    /// Asks for the 32-bit register at `offset` from BAR0.
    pub fn read32(&self, offset: u32) -> (access: Access)
        ensures
            access == self.read_at(offset),
    {
        Access::ReadRegister { bar0: self.bar0, offset }
    }

    /// Asks for a write of the 32-bit register at `offset` from BAR0.
    pub fn write32(&self, offset: u32, value: u32) -> (access: Access)
        ensures
            access == self.write_at(offset, value),
    {
        Access::WriteRegister { bar0: self.bar0, offset, value }
    }

    /// The accesses that read a 64-bit register pair: low word, high word.
    pub open spec fn read64_accesses(self, offset: u32) -> Seq<Access> {
        seq![self.read_at(offset), self.read_at((offset + 4) as u32)]
    }

    /// The accesses that write a 64-bit register pair: low word, high word.
    pub open spec fn write64_accesses(self, offset: u32, value: u64) -> Seq<Access> {
        seq![
            self.write_at(offset, low_half(value)),
            self.write_at((offset + 4) as u32, high_half(value)),
        ]
    }

    /// Reads a 64-bit register as two 32-bit reads, low then high.
    pub fn read64(&self, offset: u32, replies: &[u32]) -> (step: Step<u64>)
        requires
            offset + 4 <= u32::MAX,
        ensures
            step == perform(
                self.read64_accesses(offset),
                replies@,
                word64(replies@[1], replies@[0]),
            ),
    {
        let n: usize = replies.len();
        if n == 0 {
            Step::Next(self.read32(offset))
        } else if n == 1 {
            Step::Next(self.read32(offset + 4))
        } else {
            Step::Done { result: join_halves(replies[1], replies[0]), used: 2 }
        }
    }

    /// Writes a 64-bit register as two 32-bit writes, low then high.
    pub fn write64(&self, offset: u32, value: u64, replies: &[u32]) -> (step: Step<()>)
        requires
            offset + 4 <= u32::MAX,
        ensures
            step == perform(
                self.write64_accesses(offset, value),
                replies@,
                (),
            ),
    {
        let n: usize = replies.len();
        let (hi, lo) = split_word(value);
        if n == 0 {
            Step::Next(self.write32(offset, lo))
        } else if n == 1 {
            Step::Next(self.write32(offset + 4, hi))
        } else {
            Step::Done { result: (), used: 2 }
        }
    }

    /// Reads the chipset ID, bits [31:20] of `NV_PMC_BOOT_0`.
    pub fn read_chip_id(&self, replies: &[u32]) -> (step: Step<u32>)
        ensures
            step == self.read_one(NV_PMC_BOOT_0, replies@, chip_id_of(replies@[0])),
    {
        if replies.len() == 0 {
            Step::Next(self.read32(NV_PMC_BOOT_0))
        } else {
            Step::Done { result: replies[0] / 0x10_0000, used: 1 }
        }
    }

    /// The step of the timer procedure whose earlier attempts have used the
    /// first `from` replies. One attempt reads the high half, the low half and
    /// the high half again, and stands if the two high halves agree.
    pub open spec fn timer_step(self, replies: Seq<u32>, from: int) -> Step<u64>
        decreases replies.len() - from,
    {
        if replies.len() < from + 3 {
            Step::Next(
                self.read_at(
                    if replies.len() == from + 1 {
                        NV_PTIMER_TIME_0
                    } else {
                        NV_PTIMER_TIME_1
                    },
                ),
            )
        } else if replies[from] == replies[from + 2] {
            Step::Done {
                result: word64(replies[from], replies[from + 1]),
                used: (from + 3) as usize,
            }
        } else {
            self.timer_step(replies, from + 3)
        }
    }

    /// Reads the 64-bit nanosecond timer. The high half is read before and
    /// after the low half, and the attempt is repeated until both agree.
    pub fn read_timer_ns(&self, replies: &[u32]) -> (step: Step<u64>)
        ensures
            step == self.timer_step(replies@, 0),
    {
        let n: usize = replies.len();
        let mut from: usize = 0;
        while n - from >= 3
            invariant
                n == replies@.len(),
                from <= n,
                self.timer_step(replies@, from as int) == self.timer_step(replies@, 0),
            decreases n - from,
        {
            if replies[from] == replies[from + 2] {
                return Step::Done {
                    result: join_halves(replies[from], replies[from + 1]),
                    used: from + 3,
                };
            }
            from = from + 3;
        }
        if n - from == 1 {
            Step::Next(self.read32(NV_PTIMER_TIME_0))
        } else {
            Step::Next(self.read32(NV_PTIMER_TIME_1))
        }
    }

    /// The accesses of a master reset, where `enable` is the value that the
    /// enable register had.
    pub open spec fn master_reset_accesses(self, enable: u32) -> Seq<Access> {
        seq![
            self.read_at(NV_PMC_ENABLE),
            self.write_at(NV_PMC_ENABLE, 0),
            self.read_at(NV_PMC_ENABLE),
            self.write_at(NV_PMC_ENABLE, enable),
            self.read_at(NV_PMC_ENABLE),
        ]
    }

    /// Resets all GPU engines by clearing `NV_PMC_ENABLE` and putting its
    /// value back. Each write is flushed by a read.
    pub fn master_reset(&self, replies: &[u32]) -> (step: Step<()>)
        ensures
            step == perform(self.master_reset_accesses(replies@[0]), replies@, ()),
    {
        let n: usize = replies.len();
        if n == 1 {
            Step::Next(self.write32(NV_PMC_ENABLE, 0))
        } else if n == 3 {
            Step::Next(self.write32(NV_PMC_ENABLE, replies[0]))
        } else if n < 5 {
            Step::Next(self.read32(NV_PMC_ENABLE))
        } else {
            Step::Done { result: (), used: 5 }
        }
    }

    /// Disables all GPU interrupts.
    pub fn disable_interrupts(&self, replies: &[u32]) -> (step: Step<()>)
        ensures
            step == perform(seq![self.write_at(NV_PMC_INTR_EN_0, 0)], replies@, ()),
    {
        if replies.len() == 0 {
            Step::Next(self.write32(NV_PMC_INTR_EN_0, 0x0000_0000))
        } else {
            Step::Done { result: (), used: 1 }
        }
    }

    /// Enables the interrupts of PFIFO, PGRAPH and PTIMER.
    pub fn enable_interrupts(&self, replies: &[u32]) -> (step: Step<()>)
        ensures
            step == perform(seq![self.write_at(NV_PMC_INTR_EN_0, 0x0010_1100)], replies@, ()),
            0x0010_1100 == NV_PMC_INTR_PFIFO + NV_PMC_INTR_PGRAPH + NV_PMC_INTR_PTIMER,
    {
        if replies.len() == 0 {
            let mask: u32 = NV_PMC_INTR_PFIFO | NV_PMC_INTR_PGRAPH | NV_PMC_INTR_PTIMER;
            assert(0x0000_0100u32 | 0x0000_1000u32 | 0x0010_0000u32 == 0x0010_1100u32)
                by (bit_vector);
            Step::Next(self.write32(NV_PMC_INTR_EN_0, mask))
        } else {
            Step::Done { result: (), used: 1 }
        }
    }

    /// Reads the pending interrupt status.
    pub fn read_interrupts(&self, replies: &[u32]) -> (step: Step<u32>)
        ensures
            step == self.read_one(NV_PMC_INTR_0, replies@, replies@[0]),
    {
        self.read_value(NV_PMC_INTR_0, replies)
    }

    /// Reads the number of Graphics Processing Clusters.
    pub fn gpc_count(&self, replies: &[u32]) -> (step: Step<u32>)
        ensures
            step == self.read_one(NV_PGRAPH_GPC_COUNT, replies@, replies@[0]),
    {
        self.read_value(NV_PGRAPH_GPC_COUNT, replies)
    }

    /// Reads the number of Texture Processing Clusters per GPC.
    pub fn tpc_per_gpc(&self, replies: &[u32]) -> (step: Step<u32>)
        ensures
            step == self.read_one(NV_PGRAPH_TPC_PER_GPC, replies@, replies@[0]),
    {
        self.read_value(NV_PGRAPH_TPC_PER_GPC, replies)
    }

    /// Reads one register and returns its value.
    pub fn read_value(&self, offset: u32, replies: &[u32]) -> (step: Step<u32>)
        ensures
            step == self.read_one(offset, replies@, replies@[0]),
    {
        if replies.len() == 0 {
            Step::Next(self.read32(offset))
        } else {
            Step::Done { result: replies[0], used: 1 }
        }
    }
}

/// The chipset ID in bits [31:20] of the boot register.
pub open spec fn chip_id_of(boot0: u32) -> u32 {
    boot0 / 0x10_0000
}

/// A master reset leaves the enable register as it was found: its last write
/// puts back the value that its first read returned.
pub proof fn master_reset_restores_enable(regs: GpuRegs, replies: Seq<u32>)
    requires
        replies.len() >= 5,
    ensures
        ({
            let accesses = regs.master_reset_accesses(replies[0]);
            &&& perform(accesses, replies, ()) == (Step::Done { result: (), used: 5 })
            &&& accesses[3] == regs.write_at(NV_PMC_ENABLE, replies[0])
            &&& forall|i: int| 3 < i < 5 ==> !(#[trigger] accesses[i] is WriteRegister)
        }),
{
}

proof fn lemma_timer_value(regs: GpuRegs, replies: Seq<u32>, from: int)
    requires
        0 <= from,
        regs.timer_step(replies, from) is Done,
        replies.len() <= usize::MAX,
    ensures
        timer_value_agrees(regs.timer_step(replies, from), replies),
        from + 3 <= regs.timer_step(replies, from)->used,
    decreases replies.len() - from,
{
    if replies[from] != replies[from + 2] {
        lemma_timer_value(regs, replies, from + 3);
    }
}

/// A finished timer step joins a low half with the readings of the high half
/// just before and just after it, which agree.
pub open spec fn timer_value_agrees(step: Step<u64>, replies: Seq<u32>) -> bool {
    let used = step->used as int;
    &&& 3 <= used <= replies.len()
    &&& replies[used - 3] == replies[used - 1]
    &&& step->result == word64(replies[used - 3], replies[used - 2])
}

/// A timer value is made of a low half that was read between two readings of
/// the high half that agree.
pub proof fn timer_value_is_consistent(regs: GpuRegs, replies: Seq<u32>)
    requires
        regs.timer_step(replies, 0) is Done,
        replies.len() <= usize::MAX,
    ensures
        timer_value_agrees(regs.timer_step(replies, 0), replies),
{
    lemma_timer_value(regs, replies, 0);
}

/// The chipset ID is the number of whole units of 2^20 in the boot register.
pub proof fn chip_id_is_the_top_bits(boot0: u32)
    ensures
        chip_id_of(boot0) * 0x10_0000 <= boot0 < (chip_id_of(boot0) + 1) * 0x10_0000,
        chip_id_of(boot0) < 0x1000,
{
}

/// A register access names the register and, for a write, the value that it
/// was asked for, in the BAR0 mapping of the device.
pub proof fn accesses_name_their_register(regs: GpuRegs, offset: u32, value: u32)
    ensures
        regs.read_at(offset) matches Access::ReadRegister { bar0, offset: o } && bar0 == regs.bar0
            && o == offset,
        regs.write_at(offset, value) matches Access::WriteRegister { bar0, offset: o, value: v }
            && bar0 == regs.bar0 && o == offset && v == value,
{
}

/// Where the registers of the GPU lie in BAR0.
pub proof fn register_map()
    ensures
        NV_PMC == 0 && NV_PMC_BOOT_0 == 0 && NV_PMC_INTR_0 == 0x100,
        NV_PMC_INTR_EN_0 == 0x140 && NV_PMC_ENABLE == 0x200,
        NV_PBUS == 0x1000 && NV_PBUS_INTR_0 == 0x1100 && NV_PBUS_INTR_EN_0 == 0x1140,
        NV_PFIFO == 0x2000 && NV_PFIFO_INTR_0 == 0x2100 && NV_PFIFO_INTR_EN_0 == 0x2140,
        NV_PFIFO_RUNLIST_BASE == 0x4270,
        NV_PTIMER == 0x9000 && NV_PTIMER_INTR_0 == 0x9100 && NV_PTIMER_INTR_EN_0 == 0x9140,
        NV_PTIMER_TIME_0 == 0x9400 && NV_PTIMER_TIME_1 == 0x9404,
        NV_PFB == 0x10_0000 && NV_PFB_CFG0 == 0x10_0200,
        NV_PFB_VRAM_SIZE == 0x10_020C && NV_PFB_NPARTS == 0x10_022C,
        NV_PMU == 0x10_A000 && NV_PMU_FALCON_IRQSRD == 0x10_A020,
        NV_PMU_FALCON_IRQMSET == 0x10_A024,
        NV_PMU_FALCON_MAILBOX0 == 0x10_A040 && NV_PMU_FALCON_MAILBOX1 == 0x10_A044,
        NV_GSP == 0x11_0000 && NV_PGRAPH == 0x40_0000,
        NV_PGRAPH_INTR == 0x40_1100 && NV_PGRAPH_INTR_EN == 0x40_1140,
        NV_PGRAPH_GPC_COUNT == 0x40_2608 && NV_PGRAPH_TPC_PER_GPC == 0x40_2614,
        NV_PDISP == 0x61_0000 && NV_PDISP_INTR_0 == 0x61_0020 && NV_SEC2 == 0x84_0000,
        NV_PMC_INTR_PFIFO == 0x100 && NV_PMC_INTR_PGRAPH == 0x1000,
        NV_PMC_INTR_PTIMER == 0x10_0000,
{
}

proof fn lemma_timer_order(regs: GpuRegs, replies: Seq<u32>, from: int)
    requires
        0 <= from <= replies.len(),
        from % 3 == 0,
        regs.timer_step(replies, from) is Next,
    ensures
        regs.timer_step(replies, from) == Step::<u64>::Next(
            regs.read_at(
                if replies.len() % 3 == 1 {
                    0x9400
                } else {
                    0x9404
                },
            ),
        ),
    decreases replies.len() - from,
{
    if replies.len() >= from + 3 {
        lemma_timer_order(regs, replies, from + 3);
    }
}

/// The timer is read in attempts of three: the high half at 0x9404, the low half
/// at 0x9400 and the high half again.
pub proof fn timer_reads_high_low_high(regs: GpuRegs, replies: Seq<u32>)
    requires
        regs.timer_step(replies, 0) is Next,
    ensures
        regs.timer_step(replies, 0) == Step::<u64>::Next(
            regs.read_at(
                if replies.len() % 3 == 1 {
                    0x9400
                } else {
                    0x9404
                },
            ),
        ),
{
    lemma_timer_order(regs, replies, 0);
}

proof fn lemma_timer_repeats(regs: GpuRegs, replies: Seq<u32>, from: int, k: int)
    requires
        0 <= from <= 3 * k,
        from % 3 == 0,
        3 * k + 2 < replies.len() <= usize::MAX,
        forall|i: int|
            from <= 3 * i && i < k ==> #[trigger] replies[3 * i] != replies[3 * i + 2],
        replies[3 * k] == replies[3 * k + 2],
    ensures
        regs.timer_step(replies, from) == (Step::Done {
            result: word64(replies[3 * k], replies[3 * k + 1]),
            used: (3 * k + 3) as usize,
        }),
    decreases 3 * k - from,
{
    if from < 3 * k {
        assert(replies[3 * (from / 3)] != replies[3 * (from / 3) + 2]);
        lemma_timer_repeats(regs, replies, from + 3, k);
    }
}

/// Reading the timer ends at the first attempt whose two high halves agree.
pub proof fn timer_ends_at_first_agreement(regs: GpuRegs, replies: Seq<u32>, k: int)
    requires
        0 <= k,
        3 * k + 2 < replies.len() <= usize::MAX,
        forall|i: int| 0 <= i < k ==> #[trigger] replies[3 * i] != replies[3 * i + 2],
        replies[3 * k] == replies[3 * k + 2],
    ensures
        regs.timer_step(replies, 0) == (Step::Done {
            result: word64(replies[3 * k], replies[3 * k + 1]),
            used: (3 * k + 3) as usize,
        }),
{
    lemma_timer_repeats(regs, replies, 0, k);
}

/// A register pair holds a 64-bit value with its low word first. Reading the
/// words that were written, each at the register that it was written to, gives
/// the value back.
pub proof fn register_pairs_hold_low_word_first(
    regs: GpuRegs,
    offset: u32,
    value: u64,
    replies: Seq<u32>,
)
    requires
        offset + 4 <= u32::MAX,
    ensures
        ({
            let writes = regs.write64_accesses(offset, value);
            let reads = regs.read64_accesses(offset);
            let bar0 = regs.bar0;
            let high = (offset + 4) as u32;
            let low_word = writes[0]->WriteRegister_value;
            let high_word = writes[1]->WriteRegister_value;
            &&& writes.len() == 2 && reads.len() == 2
            &&& writes[0] == (Access::WriteRegister { bar0, offset, value: low_word })
            &&& writes[1] == (Access::WriteRegister { bar0, offset: high, value: high_word })
            &&& low_word + high_word * 0x1_0000_0000 == value
            &&& reads[0] == (Access::ReadRegister { bar0, offset })
            &&& reads[1] == (Access::ReadRegister { bar0, offset: high })
            &&& replies.len() == 2 && replies[0] == low_word && replies[1] == high_word
                ==> word64(replies[1], replies[0]) == value
        }),
{
}

/// A master reset reads the enable register at 0x200, writes 0 to it, reads it,
/// writes back what the first read gave and reads it again.
pub proof fn master_reset_order(regs: GpuRegs, enable: u32)
    ensures
        ({
            let accesses = regs.master_reset_accesses(enable);
            let bar0 = regs.bar0;
            &&& accesses.len() == 5
            &&& accesses[0] == (Access::ReadRegister { bar0, offset: 0x200 })
            &&& accesses[1] == (Access::WriteRegister { bar0, offset: 0x200, value: 0 })
            &&& accesses[2] == (Access::ReadRegister { bar0, offset: 0x200 })
            &&& accesses[3] == (Access::WriteRegister { bar0, offset: 0x200, value: enable })
            &&& accesses[4] == (Access::ReadRegister { bar0, offset: 0x200 })
        }),
{
}

/// Reading one register takes one access and one reply.
pub proof fn one_read_takes_one_reply<T>(regs: GpuRegs, offset: u32, replies: Seq<u32>, result: T)
    ensures
        replies.len() == 0 ==> regs.read_one(offset, replies, result) == Step::<T>::Next(
            Access::ReadRegister { bar0: regs.bar0, offset },
        ),
        replies.len() > 0 ==> regs.read_one(offset, replies, result) == (Step::Done {
            result,
            used: 1,
        }),
{
}

} // verus!
