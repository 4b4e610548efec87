use uintr::msr::{Misc, PostDesc, StackAdjust, StackAdjustMode, TargetTable, UintrMsr};

#[test]
fn stack_adjust_round_trip_load() {
    let s = StackAdjust::new(0x1234_5679, StackAdjustMode::Load);
    assert_eq!(s.value, 0x1234_5679);
    assert_eq!(s.mode(), StackAdjustMode::Load);
    assert_eq!(s.address(), 0x1234_5678);
}

#[test]
fn stack_adjust_round_trip_subtract_drops_bit_zero() {
    let s = StackAdjust::new(0xffff_ffff_ffff_ffff, StackAdjustMode::Subtract);
    assert_eq!(s.value, 0xffff_ffff_ffff_fffe);
    assert_eq!(s.mode(), StackAdjustMode::Subtract);
    assert_eq!(s.address(), 0xffff_ffff_ffff_fffe);
}

#[test]
fn misc_round_trip_within_widths() {
    let m = Misc::new(0xffff_ffff, 0xff, false);
    assert_eq!(m.uitt_size(), 0xffff_ffff);
    assert_eq!(m.notif_vector(), 0xff);
    assert!(!m.uif());
    assert_eq!(m.value, 0x0000_00ff_ffff_ffff);
}

#[test]
fn misc_cuts_fields_to_width() {
    let m = Misc::new(0x1_0000_0005, 0x1ff, true);
    assert_eq!(m.uitt_size(), 5);
    assert_eq!(m.notif_vector(), 0xff);
    assert!(m.uif());
    assert_eq!(m.value, 0x8000_00ff_0000_0005);
}

#[test]
fn misc_hardware_value_clears_flag_copy() {
    let m = Misc::new(3, 0xec, true);
    assert_eq!(m.hardware_value(), 0x0000_00ec_0000_0003);
    let n = Misc::new(3, 0xec, false);
    assert_eq!(n.hardware_value(), 0x0000_00ec_0000_0003);
}

#[test]
fn misc_setters_keep_other_fields() {
    let mut m = Misc::new(7, 0x20, true);
    m.set_uif(false);
    assert_eq!((m.uitt_size(), m.notif_vector(), m.uif()), (7, 0x20, false));
    m.set_notif_vector(0x31);
    assert_eq!((m.uitt_size(), m.notif_vector(), m.uif()), (7, 0x31, false));
    m.set_uitt_size(9);
    assert_eq!((m.uitt_size(), m.notif_vector(), m.uif()), (9, 0x31, false));
    m.set_uif(true);
    assert_eq!(m.value, 0x8000_0031_0000_0009);
}

#[test]
fn post_desc_clears_reserved_bits() {
    let p = PostDesc::new(0x9000_007f);
    assert_eq!(p.value, 0x9000_0040);
    assert_eq!(p.address(), 0x9000_0040);
}

#[test]
fn target_table_fields() {
    let t = TargetTable::new(0x5008, true);
    assert_eq!(t.value, 0x5001);
    assert!(t.send_enabled());
    assert_eq!(t.address(), 0x5000);
    let u = TargetTable::new(0x5008, false);
    assert_eq!(u.value, 0x5000);
    assert!(!u.send_enabled());
}

#[test]
fn msr_numbers() {
    assert_eq!(UintrMsr::IA32_UINTR_RR.address(), 0x985);
    assert_eq!(UintrMsr::IA32_UINTR_HANDLER.address(), 0x986);
    assert_eq!(UintrMsr::IA32_UINTR_STACKADJUST.address(), 0x987);
    assert_eq!(UintrMsr::IA32_UINTR_MISC.address(), 0x988);
    assert_eq!(UintrMsr::IA32_UINTR_PD.address(), 0x989);
    assert_eq!(UintrMsr::IA32_UINTR_TT.address(), 0x98a);
}

#[test]
fn capability_constants() {
    assert_eq!(uintr::msr::X86_FEATURE_UINTR, 581);
    assert_eq!(uintr::msr::X86_CR4_UINTR, 0x0200_0000);
}
