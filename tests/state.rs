use uintr::cpu::{CpuState, RegisterOp};
use uintr::instructions::{disable_uirqs, enable_uirqs, uirqs_enabled};
use uintr::msr::{StackAdjustMode, UintrMsr};
use uintr::state::UintrState;

fn sample() -> UintrState {
    UintrState::new(
        0x7000_0018,
        3,
        true,
        0x40_1000,
        0x8001,
        StackAdjustMode::Load,
        0xec,
        true,
        0x9000_0047,
    )
}

#[test]
fn new_state_fields() {
    let s = sample();
    assert_eq!(s.handler, 0x40_1000);
    assert_eq!(s.stack_adjust.value, 0x8001);
    assert_eq!(s.misc.value, 0x8000_00ec_0000_0003);
    assert_eq!(s.post_desc.value, 0x9000_0040);
    assert_eq!(s.uirr, 0);
    assert_eq!(s.target_table.value, 0x7000_0011);
}

#[test]
fn restore_then_save_all_gives_same_state() {
    let s = sample();
    let mut cpu = CpuState::default();
    cpu.apply_all(&s.restore_all());
    let mut t = UintrState::default();
    t.save_all(&cpu);
    assert_eq!(t, s);
}

#[test]
fn restore_then_save_halves_give_same_state() {
    let s = UintrState::new(0x1230, 0, false, 0x77, 0x100, StackAdjustMode::Subtract, 0x21, false, 0x40);
    let mut cpu = CpuState { rr: 5, handler: 6, stack_adjust: 7, misc: u64::MAX, pd: 8, tt: 9, uif: true };
    cpu.apply_all(&s.restore_sender());
    let mut t = s;
    t.save_sender(&cpu);
    assert_eq!(t, s);
    cpu.apply_all(&s.restore_receiver());
    let mut u = s;
    u.save_receiver(&cpu);
    assert_eq!(u, s);
}

#[test]
fn restore_all_writes_flag_first_and_clears_flag_copy() {
    let s = sample();
    let ops = s.restore_all();
    assert_eq!(
        ops,
        vec![
            RegisterOp::SetUif,
            RegisterOp::Write(UintrMsr::IA32_UINTR_MISC, 0x0000_00ec_0000_0003),
            RegisterOp::Write(UintrMsr::IA32_UINTR_HANDLER, 0x40_1000),
            RegisterOp::Write(UintrMsr::IA32_UINTR_STACKADJUST, 0x8001),
            RegisterOp::Write(UintrMsr::IA32_UINTR_PD, 0x9000_0040),
            RegisterOp::Write(UintrMsr::IA32_UINTR_RR, 0),
            RegisterOp::Write(UintrMsr::IA32_UINTR_TT, 0x7000_0011),
        ]
    );
    let mut cpu = CpuState::default();
    cpu.apply_all(&ops);
    assert!(cpu.uif);
    assert_eq!(cpu.misc >> 63, 0);
}

#[test]
fn restore_sender_with_flag_clear() {
    let mut s = UintrState::default();
    s.set_sender(0x5008, 2, true);
    assert_eq!(
        s.restore_sender(),
        vec![
            RegisterOp::ClearUif,
            RegisterOp::Write(UintrMsr::IA32_UINTR_MISC, 2),
            RegisterOp::Write(UintrMsr::IA32_UINTR_TT, 0x5001),
        ]
    );
}

#[test]
fn default_state_reads_zero() {
    let s = UintrState::default();
    assert_eq!(s.misc.uitt_size(), 0);
    assert_eq!(s.misc.notif_vector(), 0);
    assert!(!s.misc.uif());
    assert!(!s.target_table.send_enabled());
    assert_eq!(s.handler, 0);
    assert_eq!(s.uirr, 0);
}

#[test]
fn set_sender_and_receiver() {
    let mut s = UintrState::default();
    s.uirr = 0x10;
    s.set_sender(0x5008, 0x1_0000_0002, true);
    assert_eq!(s.target_table.value, 0x5001);
    assert_eq!(s.misc.uitt_size(), 2);
    s.set_receiver(0x40_1000, 0x8001, StackAdjustMode::Subtract, 0x1ec, true, 0x9000_007f);
    assert_eq!(s.handler, 0x40_1000);
    assert_eq!(s.stack_adjust.value, 0x8000);
    assert_eq!(s.misc.notif_vector(), 0xec);
    assert!(s.misc.uif());
    assert_eq!(s.misc.uitt_size(), 2);
    assert_eq!(s.post_desc.value, 0x9000_0040);
    assert_eq!(s.uirr, 0x10);
    assert_eq!(s.target_table.value, 0x5001);
}

#[test]
fn save_takes_flag_from_core_not_register() {
    let cpu = CpuState { rr: 0, handler: 0, stack_adjust: 0, misc: 0x8000_00ec_0000_0004, pd: 0, tt: 0x6001, uif: false };
    let mut s = UintrState::default();
    s.save_sender(&cpu);
    assert!(!s.misc.uif());
    assert_eq!(s.misc.value, 0x0000_00ec_0000_0004);
    assert_eq!(s.target_table.value, 0x6001);
    let cpu2 = CpuState { misc: 4, uif: true, ..cpu };
    s.save_sender(&cpu2);
    assert_eq!(s.misc.value, 0x8000_0000_0000_0004);
}

#[test]
fn save_receiver_reads_registers() {
    let cpu = CpuState { rr: 0x30, handler: 0x1000, stack_adjust: 0x81, misc: 0x21_0000_0001, pd: 0x4000, tt: 0x7001, uif: true };
    let mut s = UintrState::default();
    s.save_receiver(&cpu);
    assert_eq!(s.uirr, 0x30);
    assert_eq!(s.handler, 0x1000);
    assert_eq!(s.stack_adjust.mode(), StackAdjustMode::Load);
    assert_eq!(s.stack_adjust.address(), 0x80);
    assert_eq!(s.misc.notif_vector(), 0x21);
    assert!(s.misc.uif());
    assert_eq!(s.post_desc.value, 0x4000);
    assert_eq!(s.target_table.value, 0);
}

#[test]
fn flag_instructions_on_core() {
    let mut cpu = CpuState::default();
    assert!(!uirqs_enabled(&cpu));
    enable_uirqs(&mut cpu);
    assert!(uirqs_enabled(&cpu));
    disable_uirqs(&mut cpu);
    assert!(!uirqs_enabled(&cpu));
    assert_eq!(cpu, CpuState::default());
}

#[test]
fn read_and_write_msr_on_core() {
    let mut cpu = CpuState::default();
    cpu.write_msr(UintrMsr::IA32_UINTR_PD, 0x40);
    assert_eq!(cpu.read_msr(UintrMsr::IA32_UINTR_PD), 0x40);
    assert_eq!(cpu.pd, 0x40);
    cpu.apply(RegisterOp::Write(UintrMsr::IA32_UINTR_RR, 3));
    assert_eq!(cpu.rr, 3);
}
