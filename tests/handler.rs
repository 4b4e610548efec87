use uintr::handler::{set_handler, HandlerSlot, UintrHandler, UintrTrapframe};

#[test]
fn frame_words_round_trip() {
    let mut w = [0u64; 19];
    for (i, x) in w.iter_mut().enumerate() {
        *x = i as u64 + 1;
    }
    let t = UintrTrapframe::from_words(&w);
    assert_eq!(t.regs.rdi, 1);
    assert_eq!(t.regs.r11, 8);
    assert_eq!(t.regs.rbx, 9);
    assert_eq!(t.regs.rax, 15);
    assert_eq!(t.info.uirr_vector, 16);
    assert_eq!(t.info.rip, 17);
    assert_eq!(t.info.rflags, 18);
    assert_eq!(t.info.rsp, 19);
    assert_eq!(t.to_words(), w);
    assert_eq!(UintrTrapframe::from_words(&t.to_words()), t);
}

#[test]
fn handler_slot_store_then_load() {
    let slot = HandlerSlot::new(UintrHandler(0));
    assert_eq!(slot.current(), UintrHandler(0));
    set_handler(&slot, UintrHandler(3));
    assert_eq!(slot.current(), UintrHandler(3));
    set_handler(&slot, UintrHandler(usize::MAX));
    assert_eq!(slot.current(), UintrHandler(usize::MAX));
}

#[test]
fn handler_slot_loads_see_last_store() {
    let a = UintrHandler(0x5555_5555_5555_5555);
    let b = UintrHandler(0xaaaa_aaaa_aaaa_aaaa);
    let slot = HandlerSlot::new(a);
    for _ in 0..100 {
        assert_eq!(slot.current(), a);
    }
    set_handler(&slot, b);
    for _ in 0..100 {
        assert_eq!(slot.current(), b);
    }
}
