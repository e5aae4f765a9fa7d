use rivercat::block::Block128;
use rivercat::block::Block256;

#[test]
fn default_blocks_are_all_zero() {
    assert_eq!(Block128::default().bytes(), [0u8; 16]);
    assert_eq!(Block256::default().bytes(), [0u8; 32]);
}

#[test]
fn new_keeps_the_bytes() {
    let b = Block256::new(*b"hello world hello this is my256!");
    assert_eq!(b.bytes(), *b"hello world hello this is my256!");
    let k = Block128::new(*b"thisiakey128bits");
    assert_eq!(k.bytes(), *b"thisiakey128bits");
}

#[test]
fn split_gives_left_then_right_half() {
    let mut data = [0u8; 32];
    for (i, byte) in data.iter_mut().enumerate() {
        *byte = i as u8;
    }
    let (left, right) = Block256::new(data).split();
    let mut expected_left = [0u8; 16];
    let mut expected_right = [0u8; 16];
    for i in 0..16 {
        expected_left[i] = i as u8;
        expected_right[i] = (i + 16) as u8;
    }
    assert_eq!(left.bytes(), expected_left);
    assert_eq!(right.bytes(), expected_right);
}

#[test]
fn join_inverts_split() {
    let data = *b"0123456789abcdefFEDCBA9876543210";
    let (left, right) = Block256::new(data).split();
    assert_eq!(Block256::join(left, right).bytes(), data);
}

#[test]
fn xor_is_bytewise() {
    let a = Block128::new([0xf0; 16]);
    let b = Block128::new([0x0f; 16]);
    assert_eq!(a.xor(&b).bytes(), [0xff; 16]);
    assert_eq!(a.xor(&a).bytes(), [0x00; 16]);
}

#[test]
fn xor_undoes_itself() {
    let a = Block128::new(*b"thisiakey128bits");
    let b = Block128::new([0x5a; 16]);
    assert_eq!(a.xor(&b).xor(&b).bytes(), a.bytes());
}

#[test]
fn wrapping_add_wraps_each_byte_independently() {
    let a = Block128::new([200; 16]);
    let b = Block128::new([100; 16]);
    // 200 + 100 = 300 wraps to 44; no carry crosses into the next byte
    assert_eq!(a.wrapping_add(&b).bytes(), [44u8; 16]);

    let mut lhs = [0u8; 16];
    lhs[0] = 0xff;
    let mut rhs = [0u8; 16];
    rhs[0] = 0x01;
    let sum = Block128::new(lhs).wrapping_add(&Block128::new(rhs));
    assert_eq!(sum.bytes(), [0u8; 16]);
}

#[test]
fn from_u128_is_little_endian() {
    let b = Block128::from_u128(0x0102_0304);
    let mut expected = [0u8; 16];
    expected[0] = 0x04;
    expected[1] = 0x03;
    expected[2] = 0x02;
    expected[3] = 0x01;
    assert_eq!(b.bytes(), expected);

    let top = Block128::from_u128(0xab << 120);
    let mut expected_top = [0u8; 16];
    expected_top[15] = 0xab;
    assert_eq!(top.bytes(), expected_top);
}
