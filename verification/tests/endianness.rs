use virtio::utils::{Be16, Be32, Be64, Le16, Le32, Le64};

#[test]
fn virtio_endianness() {
    let n = 42_u64;

    assert_eq!(u64::from(Le64::from(n)), n);
    assert_eq!(u64::from(Be64::from(n)), n);

    assert_eq!(n.to_be(), Be64::from(n).0);
    assert_eq!(n.to_le(), Le64::from(n).0);

    assert_eq!(Le64::from(n).0.to_ne_bytes(), [0x2a, 0, 0, 0, 0, 0, 0, 0]);
    assert_eq!(Be64::from(n).0.to_ne_bytes(), [0, 0, 0, 0, 0, 0, 0, 0x2a]);
}

#[test]
fn every_width_has_its_bytes_in_order() {
    assert_eq!(Le16::from(0x0102).0.to_ne_bytes(), [0x02, 0x01]);
    assert_eq!(Be16::from(0x0102).0.to_ne_bytes(), [0x01, 0x02]);
    assert_eq!(Le32::from(0x01020304).0.to_ne_bytes(), [0x04, 0x03, 0x02, 0x01]);
    assert_eq!(Be32::from(0x01020304).0.to_ne_bytes(), [0x01, 0x02, 0x03, 0x04]);
    assert_eq!(
        Le64::from(0x0102030405060708).0.to_ne_bytes(),
        [0x08, 0x07, 0x06, 0x05, 0x04, 0x03, 0x02, 0x01]
    );
    assert_eq!(
        Be64::from(0x0102030405060708).0.to_ne_bytes(),
        [0x01, 0x02, 0x03, 0x04, 0x05, 0x06, 0x07, 0x08]
    );
}

#[test]
fn every_width_survives_the_round_trip() {
    for v in [0u16, 1, 0x0102, 0xfffe, u16::MAX] {
        assert_eq!(u16::from(Le16::from(v)), v);
        assert_eq!(u16::from(Be16::from(v)), v);
        assert_eq!(Le16::from(v).to_cpu(), v);
        assert_eq!(Be16::from(v).to_cpu(), v);
    }
    for v in [0u32, 1, 0x01020304, u32::MAX - 1, u32::MAX] {
        assert_eq!(u32::from(Le32::from(v)), v);
        assert_eq!(u32::from(Be32::from(v)), v);
        assert_eq!(Le32::from(v).to_cpu(), v);
        assert_eq!(Be32::from(v).to_cpu(), v);
    }
    for v in [0u64, 1, 0x0102030405060708, u64::MAX - 1, u64::MAX] {
        assert_eq!(u64::from(Le64::from(v)), v);
        assert_eq!(u64::from(Be64::from(v)), v);
        assert_eq!(Le64::from(v).to_cpu(), v);
        assert_eq!(Be64::from(v).to_cpu(), v);
    }
}

#[test]
fn memory_is_read_in_order() {
    assert_eq!(Le16(u16::from_ne_bytes([0x02, 0x01])).to_cpu(), 0x0102);
    assert_eq!(Be16(u16::from_ne_bytes([0x01, 0x02])).to_cpu(), 0x0102);
    assert_eq!(Le32(u32::from_ne_bytes([4, 3, 2, 1])).to_cpu(), 0x01020304);
    assert_eq!(Be32(u32::from_ne_bytes([1, 2, 3, 4])).to_cpu(), 0x01020304);
    assert_eq!(Le64(u64::from_ne_bytes([8, 7, 6, 5, 4, 3, 2, 1])).to_cpu(), 0x0102030405060708);
    assert_eq!(Be64(u64::from_ne_bytes([1, 2, 3, 4, 5, 6, 7, 8])).to_cpu(), 0x0102030405060708);
}

#[test]
fn comparison_is_by_value() {
    assert!(Le16::from(0x0102) == 0x0102u16);
    assert!(0x0102u16 == Be16::from(0x0102));
    assert!(Be16::from(0x0102) != 0x0201u16);
    assert!(Le32::from(7) == 7u32);
    assert!(7u32 == Be32::from(7));
    assert!(8u32 != Le32::from(7));
    assert!(Be64::from(7) == 7u64);
    assert!(7u64 == Le64::from(7));
    assert!(Be64::from(7) != 8u64);
    assert!(Be64::from(7) == Be64::from(7));
    assert!(Be64::from(7) != Be64::from(8));
}

#[test]
fn default_is_zero() {
    assert_eq!(Le16::default().to_cpu(), 0);
    assert_eq!(Be16::default().to_cpu(), 0);
    assert_eq!(Le32::default().to_cpu(), 0);
    assert_eq!(Be32::default().to_cpu(), 0);
    assert_eq!(Le64::default().to_cpu(), 0);
    assert_eq!(Be64::default().to_cpu(), 0);
}

#[test]
fn layout_is_that_of_the_integer() {
    assert_eq!(size_of::<Le16>(), size_of::<u16>());
    assert_eq!(align_of::<Le16>(), align_of::<u16>());
    assert_eq!(size_of::<Be16>(), size_of::<u16>());
    assert_eq!(align_of::<Be16>(), align_of::<u16>());
    assert_eq!(size_of::<Le32>(), size_of::<u32>());
    assert_eq!(align_of::<Le32>(), align_of::<u32>());
    assert_eq!(size_of::<Be32>(), size_of::<u32>());
    assert_eq!(align_of::<Be32>(), align_of::<u32>());
    assert_eq!(size_of::<Le64>(), size_of::<u64>());
    assert_eq!(align_of::<Le64>(), align_of::<u64>());
    assert_eq!(size_of::<Be64>(), size_of::<u64>());
    assert_eq!(align_of::<Be64>(), align_of::<u64>());
}
