use rivercat::block::Block128;
use rivercat::scheduler::IterativeRijndaelScheduler;
use rivercat::scheduler::KeyExpander;
use rivercat::scheduler::Scheduler;
use rivercat::scheduler::aes_key_schedule;
use rivercat::scheduler::rot_word;
use rivercat::sbox::s_box_substitution;

#[test]
fn test_s_box_sub() {
    assert_eq!(s_box_substitution(0xdc), 0x86);
}

#[test]
fn s_box_known_entries() {
    assert_eq!(s_box_substitution(0x00), 0x63);
    assert_eq!(s_box_substitution(0x01), 0x7c);
    assert_eq!(s_box_substitution(0x53), 0xed);
    assert_eq!(s_box_substitution(0xff), 0x16);
}

#[test]
fn s_box_is_a_bijection_on_bytes() {
    // every output value appears exactly once over the 256 inputs
    let mut seen = [false; 256];
    for b in 0..=255u8 {
        let out = s_box_substitution(b) as usize;
        assert!(!seen[out], "duplicate S-box output {out:#x}");
        seen[out] = true;
    }
    assert!(seen.iter().all(|&s| s));
}

#[test]
fn rot_word_rotates_left_by_one_byte() {
    assert_eq!(rot_word(0x01020304), 0x02030401);
    assert_eq!(rot_word(0xff000000), 0x000000ff);
}

#[test]
fn key_schedule_matches_published_aes128_vector() {
    // the key-expansion example of the AES standard
    let key: [u8; 16] = [
        0x2b, 0x7e, 0x15, 0x16, 0x28, 0xae, 0xd2, 0xa6, 0xab, 0xf7, 0x15, 0x88, 0x09, 0xcf, 0x4f,
        0x3c,
    ];
    let w = aes_key_schedule(&key);
    assert_eq!(w[0], 0x2b7e1516);
    assert_eq!(w[1], 0x28aed2a6);
    assert_eq!(w[2], 0xabf71588);
    assert_eq!(w[3], 0x09cf4f3c);
    assert_eq!(w[4], 0xa0fafe17);
    assert_eq!(w[5], 0x88542cb1);
    assert_eq!(w[9], 0x7a96b943);
    assert_eq!(w[10], 0x5935807a);
    assert_eq!(w[40], 0xd014f9a8);
    assert_eq!(w[43], 0xb6630ca6);
}

#[test]
fn key_expansion_is_deterministic() {
    let key = Block128::new(*b"thisiakey128bits");
    let w1 = KeyExpander::expand_keys(key).table();
    let w2 = KeyExpander::expand_keys(key).table();
    assert_eq!(w1, w2);
    let w3 = aes_key_schedule(&key.bytes());
    assert_eq!(w1, w3);
}

#[test]
fn get_key_at_position_is_referentially_transparent() {
    let mut s = IterativeRijndaelScheduler::new(Block128::new(*b"thisiakey128bits"));
    let a = s.get_key_at_position(4);
    let _ = s.get_key_at_position(9);
    let _ = s.next_key();
    let b = s.get_key_at_position(4);
    assert_eq!(a.bytes(), b.bytes());
}

#[test]
fn get_key_at_position_matches_next_key_walk() {
    let key = Block128::new(*b"thisiakey128bits");
    let mut walker = IterativeRijndaelScheduler::new(key);
    let mut direct = IterativeRijndaelScheduler::new(key);
    walker.set_position(0);
    for i in 0..23usize {
        let from_walk = walker.next_key();
        let from_index = direct.get_key_at_position(i);
        assert_eq!(from_walk.bytes(), from_index.bytes(), "round {i}");
    }
}

#[test]
fn round_key_indices_fold_modulo_the_table() {
    let mut s = IterativeRijndaelScheduler::new(Block128::new(*b"thisiakey128bits"));
    let k0 = s.get_key_at_position(0);
    let k11 = s.get_key_at_position(11);
    let k22 = s.get_key_at_position(22);
    assert_eq!(k0.bytes(), k11.bytes());
    assert_eq!(k0.bytes(), k22.bytes());
}

#[test]
fn next_key_wraps_to_the_start_after_the_table() {
    let mut s = IterativeRijndaelScheduler::new(Block128::new(*b"thisiakey128bits"));
    let k0 = s.get_key_at_position(0);
    // a cursor past the 11-round table wraps to round 0
    s.set_position(11);
    let wrapped = s.next_key();
    assert_eq!(wrapped.bytes(), k0.bytes());
    // a cursor inside the table reads in place
    s.set_position(5);
    let k5 = s.next_key();
    let k5_direct = s.get_key_at_position(5);
    assert_eq!(k5.bytes(), k5_direct.bytes());
    // any cursor past the table wraps, however far past
    s.set_position(100);
    let far = s.next_key();
    assert_eq!(far.bytes(), k0.bytes());
}

#[test]
fn round_key_zero_is_the_root_key_big_endian() {
    // words 0..4 are the big-endian root-key words, so round key 0
    // reassembles to the root key itself
    let key = Block128::new(*b"thisiakey128bits");
    let mut s = IterativeRijndaelScheduler::new(key);
    let k0 = s.get_key_at_position(0);
    assert_eq!(k0.bytes(), *b"thisiakey128bits");
}

#[test]
fn round_key_one_matches_published_vector() {
    let key: [u8; 16] = [
        0x2b, 0x7e, 0x15, 0x16, 0x28, 0xae, 0xd2, 0xa6, 0xab, 0xf7, 0x15, 0x88, 0x09, 0xcf, 0x4f,
        0x3c,
    ];
    let mut s = IterativeRijndaelScheduler::new(Block128::new(key));
    let k1 = s.get_key_at_position(1);
    let expected: [u8; 16] = [
        0xa0, 0xfa, 0xfe, 0x17, 0x88, 0x54, 0x2c, 0xb1, 0x23, 0xa3, 0x39, 0x39, 0x2a, 0x6c, 0x76,
        0x05,
    ];
    assert_eq!(k1.bytes(), expected);
}
