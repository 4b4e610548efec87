use uintr::instructions::{send_uipi, Notification};
use uintr::uitte::UittEntry;
use uintr::upid::Upid;

#[test]
fn uitte_new_masks_address() {
    let e = UittEntry::new(5, 0x1234_5678_9abc_def7);
    assert!(e.is_valid());
    assert_eq!(e.uintr_vector(), 5);
    assert_eq!(e.upid_addr.value, 0x1234_5678_9abc_dec0);
    assert_eq!(e.state, 0x501);
}

#[test]
fn uitte_vector_cut_to_six_bits() {
    let e = UittEntry::new(0x45, 0x40);
    assert_eq!(e.uintr_vector(), 5);
    assert_eq!(e.upid_addr.address(), 0x40);
}

#[test]
fn uitte_set_valid_keeps_vector() {
    let mut e = UittEntry::new(63, 0x80);
    e.set_valid(false);
    assert!(!e.is_valid());
    assert_eq!(e.uintr_vector(), 63);
    e.set_valid(true);
    assert!(e.is_valid());
    assert_eq!(e.state, 0x3f01);
}

#[test]
fn upid_disable_notification_flips_only_suppressed() {
    let mut u = Upid::new(true, false, 0x20, 7);
    assert_eq!(u.control, 0x0000_0007_0020_0001);
    u.set_notification_enabled(false);
    assert_eq!(u.control, 0x0000_0007_0020_0003);
    assert!(u.outstanding());
    assert!(u.suppressed());
    assert_eq!(u.notif_vector(), 0x20);
    assert_eq!(u.destination(), 7);
    assert_eq!(u.posted_uirq, 0);
    u.set_notification_enabled(true);
    assert_eq!(u.control, 0x0000_0007_0020_0001);
}

#[test]
fn upid_outstanding_flag() {
    let mut u = Upid::new(false, true, 0xff, 0xffff_ffff);
    assert_eq!(u.control, 0xffff_ffff_00ff_0002);
    u.set_outstanding_notification(true);
    assert!(u.outstanding());
    assert!(u.suppressed());
    assert_eq!(u.destination(), 0xffff_ffff);
}

#[test]
fn upid_post_notifies_once() {
    let mut u = Upid::new(false, false, 0xec, 3);
    assert!(u.post(5));
    assert_eq!(u.posted_uirq, 0x20);
    assert!(u.outstanding());
    assert!(!u.post(6));
    assert_eq!(u.posted_uirq, 0x60);
}

#[test]
fn upid_post_suppressed_does_not_notify() {
    let mut u = Upid::new(false, true, 0xec, 3);
    assert!(!u.post(63));
    assert_eq!(u.posted_uirq, 1 << 63);
    assert!(!u.outstanding());
}

#[test]
fn send_uipi_posts_entry_vector() {
    let table = vec![UittEntry::new(2, 0x1000), UittEntry::new(9, 0x1040)];
    let mut u = Upid::new(false, false, 0xf2, 1);
    assert_eq!(send_uipi(&table, 1, &mut u), Some(Notification { vector: 0xf2, destination: 1 }));
    assert_eq!(u.posted_uirq, 1 << 9);
    assert_eq!(send_uipi(&table, 0, &mut u), None);
    assert_eq!(u.posted_uirq, (1 << 9) | (1 << 2));
}
