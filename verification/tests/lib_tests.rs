use confetti::add;
use confetti::bits::sign_extend;

#[test]
fn it_works() {
    let result = add(2, 2);
    assert_eq!(result, 4);
}

#[test]
fn add_large_values() {
    assert_eq!(add(u64::MAX - 1, 1), u64::MAX);
    assert_eq!(add(0, 0), 0);
}

#[test]
fn sign_extend_negative_16_bit() {
    assert_eq!(sign_extend(0xFFFF, 16), -1);
    assert_eq!(sign_extend(0x8000, 16), -32768);
    assert_eq!(sign_extend(0xFFFE, 16), -2);
}

#[test]
fn sign_extend_positive_16_bit() {
    assert_eq!(sign_extend(0x7FFF, 16), 32767);
    assert_eq!(sign_extend(0x0001, 16), 1);
}

#[test]
fn sign_extend_drops_high_bits() {
    // bits above the field are replaced by copies of the field's top bit
    assert_eq!(sign_extend(0x1234_0005, 16), 5);
    assert_eq!(sign_extend(0x200001, 22), -2097151);
    assert_eq!(sign_extend(0x7FFF_FFFF, 31), -1);
}

#[test]
fn sign_extend_full_width_is_identity() {
    assert_eq!(sign_extend(-123456, 32), -123456);
    assert_eq!(sign_extend(i32::MIN, 32), i32::MIN);
}

#[test]
fn sign_extend_is_idempotent() {
    for raw in [0x8000i32, 0x7FFF, 0x1_FFFF, -5, 0] {
        let once = sign_extend(raw, 16);
        assert_eq!(sign_extend(once, 16), once);
    }
}
