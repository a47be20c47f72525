use gpu_compute::access::{join_halves, split_word, tail, Access, Step};
use gpu_compute::mmio::{
    GpuRegs, NV_PGRAPH_GPC_COUNT, NV_PGRAPH_TPC_PER_GPC, NV_PMC_BOOT_0, NV_PMC_ENABLE,
    NV_PMC_INTR_0, NV_PMC_INTR_EN_0, NV_PTIMER_TIME_0, NV_PTIMER_TIME_1,
};

const BAR0: u64 = 0xF600_0000;

fn read(offset: u32) -> Access {
    Access::ReadRegister { bar0: BAR0, offset }
}

fn write(offset: u32, value: u32) -> Access {
    Access::WriteRegister { bar0: BAR0, offset, value }
}

fn run<T>(
    mut hardware: impl FnMut(Access) -> u32,
    procedure: impl Fn(&[u32]) -> Step<T>,
) -> (T, Vec<Access>) {
    let mut replies: Vec<u32> = Vec::new();
    let mut accesses: Vec<Access> = Vec::new();
    loop {
        match procedure(&replies) {
            Step::Next(access) => {
                accesses.push(access);
                replies.push(hardware(access));
            }
            Step::Done { result, used } => {
                assert_eq!(used, replies.len());
                return (result, accesses);
            }
        }
    }
}

#[test]
fn words_split_and_join() {
    assert_eq!(split_word(0x0123_4567_89AB_CDEF), (0x0123_4567, 0x89AB_CDEF));
    assert_eq!(join_halves(0x0123_4567, 0x89AB_CDEF), 0x0123_4567_89AB_CDEF);
    assert_eq!(join_halves(u32::MAX, u32::MAX), u64::MAX);
    assert_eq!(split_word(0), (0, 0));
}

#[test]
fn tail_drops_the_front() {
    assert_eq!(tail(&[1, 2, 3], 1), &[2, 3]);
    assert_eq!(tail(&[1, 2, 3], 3), &[] as &[u32]);
}

#[test]
fn single_register_accesses() {
    let regs = GpuRegs::new(BAR0);
    assert_eq!(regs.read32(0x1234), read(0x1234));
    assert_eq!(regs.write32(0x1234, 7), write(0x1234, 7));
    assert_eq!(regs.read_value(8, &[]), Step::Next(read(8)));
    assert_eq!(regs.read_value(8, &[42]), Step::Done { result: 42, used: 1 });
}

#[test]
fn read64_takes_low_then_high() {
    let regs = GpuRegs::new(BAR0);
    let (value, accesses) = run(
        |access| if access == read(0x100) { 0xDDDD_0001 } else { 0xAAAA_0002 },
        |replies| regs.read64(0x100, replies),
    );
    assert_eq!(value, 0xAAAA_0002_DDDD_0001);
    assert_eq!(accesses, vec![read(0x100), read(0x104)]);
}

#[test]
fn write64_puts_low_then_high() {
    let regs = GpuRegs::new(BAR0);
    let ((), accesses) = run(|_| 0, |replies| regs.write64(0x100, 0x1111_2222_3333_4444, replies));
    assert_eq!(accesses, vec![write(0x100, 0x3333_4444), write(0x104, 0x1111_2222)]);
}

#[test]
fn chip_id_is_the_top_twelve_bits() {
    let regs = GpuRegs::new(BAR0);
    assert_eq!(regs.read_chip_id(&[]), Step::Next(read(NV_PMC_BOOT_0)));
    assert_eq!(regs.read_chip_id(&[0x1740_00A1]), Step::Done { result: 0x174, used: 1 });
}

#[test]
fn timer_repeats_until_the_high_half_is_stable() {
    let regs = GpuRegs::new(BAR0);
    let highs = [5u32, 6, 6, 6];
    let mut next = 0;
    let (value, accesses) = run(
        |access| {
            if access == read(NV_PTIMER_TIME_0) {
                0x20
            } else {
                next += 1;
                highs[next - 1]
            }
        },
        |replies| regs.read_timer_ns(replies),
    );
    assert_eq!(value, 0x6_0000_0020);
    let attempt = vec![read(NV_PTIMER_TIME_1), read(NV_PTIMER_TIME_0), read(NV_PTIMER_TIME_1)];
    assert_eq!(accesses, [attempt.clone(), attempt].concat());
}

#[test]
fn master_reset_puts_the_enable_register_back() {
    let regs = GpuRegs::new(BAR0);
    let mut enable = 0xE011_312Cu32;
    let ((), accesses) = run(
        |access| match access {
            Access::WriteRegister { offset, value, .. } if offset == NV_PMC_ENABLE => {
                enable = value;
                0
            }
            _ => enable,
        },
        |replies| regs.master_reset(replies),
    );
    assert_eq!(enable, 0xE011_312C);
    assert_eq!(
        accesses,
        vec![
            read(NV_PMC_ENABLE),
            write(NV_PMC_ENABLE, 0),
            read(NV_PMC_ENABLE),
            write(NV_PMC_ENABLE, 0xE011_312C),
            read(NV_PMC_ENABLE),
        ]
    );
}

#[test]
fn interrupts_are_disabled_enabled_and_read() {
    let regs = GpuRegs::new(BAR0);
    assert_eq!(run(|_| 0, |r| regs.disable_interrupts(r)).1, vec![write(NV_PMC_INTR_EN_0, 0)]);
    assert_eq!(
        run(|_| 0, |r| regs.enable_interrupts(r)).1,
        vec![write(NV_PMC_INTR_EN_0, 0x0010_1100)]
    );
    assert_eq!(run(|_| 0x100, |r| regs.read_interrupts(r)), (0x100, vec![read(NV_PMC_INTR_0)]));
}

#[test]
fn topology_registers() {
    let regs = GpuRegs::new(BAR0);
    assert_eq!(run(|_| 6, |r| regs.gpc_count(r)), (6, vec![read(NV_PGRAPH_GPC_COUNT)]));
    assert_eq!(run(|_| 4, |r| regs.tpc_per_gpc(r)), (4, vec![read(NV_PGRAPH_TPC_PER_GPC)]));
    assert_eq!(NV_PGRAPH_GPC_COUNT, 0x402608);
    assert_eq!(NV_PGRAPH_TPC_PER_GPC, 0x402614);
}
