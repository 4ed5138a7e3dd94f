use ntpserver::NtpFracValue;

#[test]
fn frac_zero() {
    assert_eq!(NtpFracValue::zero().val, 0u32);
}

#[test]
fn frac_increment_adds_one() {
    let mut v: NtpFracValue = NtpFracValue::zero();
    v.increment();
    assert_eq!(v.val, 1u32);
    v.increment();
    assert_eq!(v.val, 2u32);
    let mut high: NtpFracValue = NtpFracValue { val: u32::MAX - 1 };
    high.increment();
    assert_eq!(high.val, u32::MAX);
}

#[test]
fn frac_write_spells_big_endian() {
    let v: NtpFracValue = NtpFracValue { val: 0x0001_8000 };
    let mut buf: [u8; 4] = [0xff; 4];
    v.write(&mut buf);
    assert_eq!(buf, [0u8, 1, 0x80, 0]);
}

#[test]
fn frac_write_leaves_the_rest_of_the_buffer() {
    let v: NtpFracValue = NtpFracValue { val: 0xa1b2_c3d4 };
    let mut buf: [u8; 6] = [0x11; 6];
    v.write(&mut buf);
    assert_eq!(buf, [0xa1u8, 0xb2, 0xc3, 0xd4, 0x11, 0x11]);
}

#[test]
fn frac_read_takes_the_first_four_bytes() {
    let buf: [u8; 5] = [0x12, 0x34, 0x56, 0x78, 0x9a];
    assert_eq!(NtpFracValue::read(&buf).val, 0x1234_5678u32);
    let swapped: [u8; 4] = [1, 0, 0, 0];
    assert_eq!(NtpFracValue::read(&swapped).val, 1u32 << 24);
}

#[test]
fn frac_round_trip() {
    let patterns: [u32; 7] = [0, 1, u32::MAX, 0x8000_0000, 0x0001_0000, 0x0102_0304, 0xdead_beef];
    for val in patterns {
        let v: NtpFracValue = NtpFracValue { val };
        let mut buf: [u8; 4] = [0x5a; 4];
        v.write(&mut buf);
        assert_eq!(NtpFracValue::read(&buf), v);
        let mut again: [u8; 4] = [0; 4];
        NtpFracValue::read(&buf).write(&mut again);
        assert_eq!(again, buf);
    }
}
