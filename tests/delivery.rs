use uintr::cpu::{highest_request, CpuState, Delivery};
use uintr::handler::UintrInfo;
use uintr::msr::{StackAdjust, StackAdjustMode};

#[test]
fn delivery_rsp_load_mode_aligns_stored_value() {
    let s = StackAdjust::new(0x7fff_f008, StackAdjustMode::Load);
    assert_eq!(s.value, 0x7fff_f009);
    assert_eq!(s.delivery_rsp(0x1234_5678), 0x7fff_f000);
}

#[test]
fn delivery_rsp_subtract_mode() {
    let s = StackAdjust::new(0x80, StackAdjustMode::Subtract);
    assert_eq!(s.delivery_rsp(0x7fff_1238), 0x7fff_11b0);
}

#[test]
fn delivery_rsp_subtract_wraps() {
    let s = StackAdjust::new(0x10, StackAdjustMode::Subtract);
    assert_eq!(s.delivery_rsp(0x8), 0xffff_ffff_ffff_fff0);
}

#[test]
fn highest_request_vectors() {
    assert_eq!(highest_request(0b1010_0000), 7);
    assert_eq!(highest_request(1), 0);
    assert_eq!(highest_request(u64::MAX), 63);
}

#[test]
fn deliver_takes_highest_request_and_clears_flag() {
    let mut cpu = CpuState { rr: 0x28, handler: 0x40_1000, stack_adjust: 0x80, misc: 0, pd: 0, tt: 0, uif: true };
    let d = cpu.deliver(0x7000_0008, 0x1234, 0x202);
    assert_eq!(
        d,
        Some(Delivery {
            info: UintrInfo { uirr_vector: 5, rip: 0x1234, rflags: 0x202, rsp: 0x7000_0008 },
            rsp: 0x6fff_ff60,
            rip: 0x40_1000,
        })
    );
    assert_eq!(cpu.rr, 0x08);
    assert!(!cpu.uif);
    assert_eq!(cpu.deliver(0x7000_0008, 0x1234, 0x202), None);
    cpu.uiret();
    assert!(cpu.uif);
    let d2 = cpu.deliver(0x7000_0008, 0x1234, 0x202).unwrap();
    assert_eq!(d2.info.uirr_vector, 3);
    assert_eq!(cpu.rr, 0);
}

#[test]
fn deliver_without_request_does_nothing() {
    let mut cpu = CpuState { uif: true, ..CpuState::default() };
    assert_eq!(cpu.deliver(0x1000, 0x2000, 0x2), None);
    assert_eq!(cpu, CpuState { uif: true, ..CpuState::default() });
}
