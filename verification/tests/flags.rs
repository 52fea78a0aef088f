use gpio_cdev::{EventRequestFlags, LineFlags, LineRequestFlags};

#[test]
fn request_flags_have_the_bits_of_the_kernel() {
    assert_eq!(LineRequestFlags::input().bits(), 1 << 0);
    assert_eq!(LineRequestFlags::output().bits(), 1 << 1);
    assert_eq!(LineRequestFlags::active_low().bits(), 1 << 2);
    assert_eq!(LineRequestFlags::open_drain().bits(), 1 << 3);
    assert_eq!(LineRequestFlags::open_source().bits(), 1 << 4);
    assert_eq!(LineRequestFlags::empty().bits(), 0);
}

#[test]
fn event_flags_have_the_bits_of_the_kernel() {
    assert_eq!(EventRequestFlags::rising_edge().bits(), 1 << 0);
    assert_eq!(EventRequestFlags::falling_edge().bits(), 1 << 1);
    assert_eq!(EventRequestFlags::both_edges().bits(), 3);
    assert_eq!(
        EventRequestFlags::rising_edge() | EventRequestFlags::falling_edge(),
        EventRequestFlags::both_edges()
    );
}

#[test]
fn line_flags_have_the_bits_of_the_kernel() {
    assert_eq!(LineFlags::kernel().bits(), 1 << 0);
    assert_eq!(LineFlags::is_out().bits(), 1 << 1);
    assert_eq!(LineFlags::active_low().bits(), 1 << 2);
    assert_eq!(LineFlags::open_drain().bits(), 1 << 3);
    assert_eq!(LineFlags::open_source().bits(), 1 << 4);
}

#[test]
fn request_flags_combine() {
    let flags = LineRequestFlags::output() | LineRequestFlags::active_low();
    assert_eq!(flags.bits(), 0b110);
    assert!(flags.contains(LineRequestFlags::output()));
    assert!(flags.contains(LineRequestFlags::active_low()));
    assert!(flags.contains(LineRequestFlags::output() | LineRequestFlags::active_low()));
    assert!(!flags.contains(LineRequestFlags::input()));
    assert!(!flags.contains(LineRequestFlags::output() | LineRequestFlags::input()));
    assert!(flags.contains(LineRequestFlags::empty()));
    assert!(!flags.is_empty());
    assert!(LineRequestFlags::empty().is_empty());
}

#[test]
fn unknown_bits_are_cut_off() {
    assert_eq!(LineRequestFlags::from_bits_truncate(0xffff_ffff).bits(), 0x1f);
    assert_eq!(LineRequestFlags::from_bits_truncate(0x22).bits(), 0x02);
    assert_eq!(EventRequestFlags::from_bits_truncate(0xffff_ffff).bits(), 0x03);
    assert_eq!(EventRequestFlags::from_bits_truncate(0x05).bits(), 0x01);
    assert_eq!(LineFlags::from_bits_truncate(0xffff_ffff).bits(), 0x1f);
    assert_eq!(LineFlags::from_bits_truncate(0x20).bits(), 0);
    assert!(LineFlags::from_bits_truncate(0x20).is_empty());
}

#[test]
fn event_flags_contain_their_edges() {
    let both = EventRequestFlags::both_edges();
    assert!(both.contains(EventRequestFlags::rising_edge()));
    assert!(both.contains(EventRequestFlags::falling_edge()));
    assert!(!EventRequestFlags::rising_edge().contains(both));
    assert!(!both.is_empty());
}

#[test]
fn line_flags_contain_what_is_set() {
    let flags = LineFlags::from_bits_truncate(0b01010);
    assert!(flags.contains(LineFlags::is_out()));
    assert!(flags.contains(LineFlags::open_drain()));
    assert!(!flags.contains(LineFlags::kernel()));
    assert!(!flags.contains(LineFlags::active_low()));
    assert!(!flags.contains(LineFlags::open_source()));
}
