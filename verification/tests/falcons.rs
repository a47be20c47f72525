use gpu_compute::access::{Access, Step};
use gpu_compute::falcon::{
    Falcon, FalconEngine, BOOT_POLLS, FALCON_BOOTVEC, FALCON_CPUCTL, FALCON_DMEMC, FALCON_DMEMD,
    FALCON_IMEMC, FALCON_IMEMD, FALCON_IRQSCLR, FALCON_IRQSRD, FALCON_MAILBOX0, FALCON_MAILBOX1,
    FALCON_OS,
};
use gpu_compute::mmio::GpuRegs;

const BAR0: u64 = 0x4000;
const PMU: u32 = 0x10a000;

fn read(offset: u32) -> Access {
    Access::ReadRegister { bar0: BAR0, offset: PMU + offset }
}

fn write(offset: u32, value: u32) -> Access {
    Access::WriteRegister { bar0: BAR0, offset: PMU + offset, value }
}

fn run<T>(
    mut hardware: impl FnMut(Access) -> u32,
    procedure: impl Fn(&[u32]) -> Step<T>,
) -> (T, Vec<Access>) {
    let mut replies: Vec<u32> = Vec::new();
    let mut accesses: Vec<Access> = Vec::new();
    loop {
        match procedure(&replies) {
            Step::Next(access) => {
                accesses.push(access);
                replies.push(hardware(access));
            }
            Step::Done { result, used } => {
                assert_eq!(used, replies.len());
                return (result, accesses);
            }
        }
    }
}

#[test]
fn engines_have_their_own_bases() {
    assert_eq!(FalconEngine::Pmu.base_offset(), 0x10a000);
    assert_eq!(FalconEngine::Sec2.base_offset(), 0x840000);
    assert_eq!(FalconEngine::Gsp.base_offset(), 0x110000);
    let regs = GpuRegs::new(BAR0);
    let gsp = Falcon::new(FalconEngine::Gsp);
    assert_eq!(
        gsp.is_halted(&regs, &[]),
        Step::Next(Access::ReadRegister { bar0: BAR0, offset: 0x110100 })
    );
}

#[test]
fn halting() {
    let regs = GpuRegs::new(BAR0);
    let pmu = Falcon::new(FalconEngine::Pmu);
    assert_eq!(run(|_| 0x14, |r| pmu.is_halted(&regs, r)), (true, vec![read(FALCON_CPUCTL)]));
    assert_eq!(run(|_| 0x12, |r| pmu.is_halted(&regs, r)).0, false);
    assert_eq!(
        run(|_| 0, |r| pmu.halt(&regs, r)).1,
        vec![write(FALCON_CPUCTL, 4), read(FALCON_CPUCTL)]
    );
}

#[test]
fn uploads_are_little_endian_words() {
    let regs = GpuRegs::new(BAR0);
    let pmu = Falcon::new(FalconEngine::Pmu);
    let bytes = [0x01, 0x02, 0x03, 0x04, 0xAA, 0xBB, 0xCC, 0xDD];
    assert_eq!(
        run(|_| 0, |r| pmu.upload_imem(&regs, &bytes, 0x106, r)).1,
        vec![
            write(FALCON_IMEMC, 0x0200_0104),
            write(FALCON_IMEMD, 0x0403_0201),
            write(FALCON_IMEMD, 0xDDCC_BBAA),
        ]
    );
    assert_eq!(
        run(|_| 0, |r| pmu.upload_dmem(&regs, &bytes[..4], 0, r)).1,
        vec![write(FALCON_DMEMC, 0x0200_0000), write(FALCON_DMEMD, 0x0403_0201)]
    );
}

#[test]
fn uploads_of_broken_words_are_refused() {
    let regs = GpuRegs::new(BAR0);
    let pmu = Falcon::new(FalconEngine::Pmu);
    assert_eq!(run(|_| 0, |r| pmu.upload_imem(&regs, &[1, 2, 3], 0, r)).1, vec![]);
    assert_eq!(run(|_| 0, |r| pmu.upload_dmem(&regs, &[1, 2, 3, 4, 5], 0, r)).1, vec![]);
    // An empty upload only sets the address.
    assert_eq!(
        run(|_| 0, |r| pmu.upload_imem(&regs, &[], 0, r)).1,
        vec![write(FALCON_IMEMC, 0x0200_0000)]
    );
}

#[test]
fn booting() {
    let regs = GpuRegs::new(BAR0);
    let pmu = Falcon::new(FalconEngine::Pmu);
    assert_eq!(
        run(|_| 0, |r| pmu.boot(&regs, 0x100, r)).1,
        vec![write(FALCON_BOOTVEC, 0x100), write(FALCON_CPUCTL, 2)]
    );
}

#[test]
fn waiting_reports_the_first_answer() {
    let regs = GpuRegs::new(BAR0);
    let pmu = Falcon::new(FalconEngine::Pmu);
    let mut polls = 0;
    let (ready, accesses) = run(
        |_| {
            polls += 1;
            if polls == 3 {
                0x1234
            } else {
                0
            }
        },
        |r| pmu.wait_ready(&regs, 10, r),
    );
    assert_eq!(ready, Some(0x1234));
    assert_eq!(accesses, vec![read(FALCON_OS); 3]);
}

#[test]
fn waiting_gives_up() {
    let regs = GpuRegs::new(BAR0);
    let pmu = Falcon::new(FalconEngine::Pmu);
    let (ready, accesses) = run(|_| 0, |r| pmu.wait_ready(&regs, 5, r));
    assert_eq!(ready, None);
    assert_eq!(accesses.len(), 5);
    assert_eq!(pmu.wait_ready(&regs, 0, &[]), Step::Done { result: None, used: 0 });
}

#[test]
fn mailboxes() {
    let regs = GpuRegs::new(BAR0);
    let pmu = Falcon::new(FalconEngine::Pmu);
    assert_eq!(run(|_| 9, |r| pmu.read_mailbox0(&regs, r)), (9, vec![read(FALCON_MAILBOX0)]));
    assert_eq!(run(|_| 8, |r| pmu.read_mailbox1(&regs, r)), (8, vec![read(FALCON_MAILBOX1)]));
    assert_eq!(
        run(|_| 0, |r| pmu.write_mailbox0(&regs, 7, r)).1,
        vec![write(FALCON_MAILBOX0, 7)]
    );
    assert_eq!(
        run(|_| 0, |r| pmu.write_mailbox1(&regs, 6, r)).1,
        vec![write(FALCON_MAILBOX1, 6)]
    );
}

#[test]
fn clearing_interrupts_writes_back_what_is_pending() {
    let regs = GpuRegs::new(BAR0);
    let pmu = Falcon::new(FalconEngine::Pmu);
    assert_eq!(
        run(|_| 0x50, |r| pmu.clear_interrupts(&regs, r)).1,
        vec![read(FALCON_IRQSRD), write(FALCON_IRQSCLR, 0x50)]
    );
    assert_eq!(run(|_| 0, |r| pmu.clear_interrupts(&regs, r)).1, vec![read(FALCON_IRQSRD)]);
}

#[test]
fn firmware_initialization_runs_in_order() {
    let regs = GpuRegs::new(BAR0);
    let pmu = Falcon::new(FalconEngine::Pmu);
    let (ready, accesses) = run(
        |access| {
            if access == read(FALCON_IRQSRD) {
                0x1
            } else if access == read(FALCON_OS) {
                0xBEEF
            } else {
                0
            }
        },
        |r| pmu.init_with_firmware(&regs, &[1, 0, 0, 0], &[2, 0, 0, 0], r),
    );
    assert!(ready);
    assert_eq!(
        accesses,
        vec![
            write(FALCON_CPUCTL, 4),
            read(FALCON_CPUCTL),
            read(FALCON_IRQSRD),
            write(FALCON_IRQSCLR, 1),
            write(FALCON_IMEMC, 0x0200_0000),
            write(FALCON_IMEMD, 1),
            write(FALCON_DMEMC, 0x0200_0000),
            write(FALCON_DMEMD, 2),
            write(FALCON_BOOTVEC, 0),
            write(FALCON_CPUCTL, 2),
            read(FALCON_OS),
        ]
    );
}

#[test]
fn firmware_without_data_skips_dmem() {
    let regs = GpuRegs::new(BAR0);
    let pmu = Falcon::new(FalconEngine::Pmu);
    let (_, accesses) = run(
        |access| if access == read(FALCON_OS) { 1 } else { 0 },
        |r| pmu.init_with_firmware(&regs, &[1, 0, 0, 0], &[], r),
    );
    assert_eq!(accesses.len(), 8);
    assert!(!accesses.contains(&write(FALCON_DMEMC, 0x0200_0000)));
}

#[test]
fn firmware_that_never_answers_times_out() {
    let regs = GpuRegs::new(BAR0);
    let pmu = Falcon::new(FalconEngine::Pmu);
    let (ready, accesses) =
        run(|_| 0, |r| pmu.init_with_firmware(&regs, &[1, 0, 0, 0], &[], r));
    assert!(!ready);
    assert_eq!(accesses.len(), 7 + BOOT_POLLS as usize);
}
