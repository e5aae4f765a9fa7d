use rivercat::block::Block128;
use rivercat::block::Block256;
use rivercat::cipher::FeistelNet128;
use rivercat::cipher::ScheduledFeistelNet128;
use rivercat::round_function::NaiveWrappingAdd;
use rivercat::round_function::RoundFunction256;
use rivercat::scheduler::IterativeRijndaelScheduler;
use rivercat::scheduler::Scheduler;

#[test]
fn test_feistel_scheduled() {
    let input = Block256::new(*b"hello world hello this is my256!");
    let input_copy = Block256::new(*b"hello world hello this is my256!");
    let key = Block128::new(*b"thisiakey128bits");
    let r = 32;

    let key_scheduler = IterativeRijndaelScheduler::new(key);

    let mut feistel = ScheduledFeistelNet128::<IterativeRijndaelScheduler>::new(
        input,
        key_scheduler,
    );
    feistel.encrypt_with::<NaiveWrappingAdd>(r);
    let ciphertext = feistel.halves();
    assert_ne!(Block256::join(ciphertext.0, ciphertext.1).bytes(), input_copy.bytes());

    feistel.decrypt_with::<NaiveWrappingAdd>(r);
    let recovered = feistel.halves();
    let recovered256 = Block256::join(recovered.0, recovered.1);

    assert_eq!(input_copy, recovered256);
}

#[test]
fn round_trip_for_each_round_count_up_to_the_table() {
    let plaintext = *b"0123456789abcdefFEDCBA9876543210";
    let key = Block128::new(*b"another128bitkey");
    for r in 1..=10usize {
        let scheduler = IterativeRijndaelScheduler::new(key);
        let mut engine = ScheduledFeistelNet128::new(Block256::new(plaintext), scheduler);
        engine.encrypt_with::<NaiveWrappingAdd>(r);
        engine.decrypt_with::<NaiveWrappingAdd>(r);
        let (left, right) = engine.halves();
        assert_eq!(Block256::join(left, right).bytes(), plaintext, "rounds = {r}");
    }
}

#[test]
fn scheduled_encrypt_one_round_recurrence() {
    // after one round: left' = right XOR f(left, key0), right' = left
    let mut plaintext = [0u8; 32];
    for (i, byte) in plaintext.iter_mut().enumerate() {
        *byte = i as u8;
    }
    let key = Block128::new(*b"thisiakey128bits");
    let mut scheduler = IterativeRijndaelScheduler::new(key);
    let key0 = scheduler.get_key_at_position(0);

    let scheduler2 = IterativeRijndaelScheduler::new(key);
    let mut engine = ScheduledFeistelNet128::new(Block256::new(plaintext), scheduler2);
    engine.encrypt_with::<NaiveWrappingAdd>(1);
    let (left, right) = engine.halves();

    let old_left = Block128::new([0, 1, 2, 3, 4, 5, 6, 7, 8, 9, 10, 11, 12, 13, 14, 15]);
    let old_right = Block128::new([
        16, 17, 18, 19, 20, 21, 22, 23, 24, 25, 26, 27, 28, 29, 30, 31,
    ]);
    let expected_left = old_right.xor(&NaiveWrappingAdd::f(old_left, key0));
    assert_eq!(left.bytes(), expected_left.bytes());
    assert_eq!(right.bytes(), old_left.bytes());
}

#[test]
fn fixed_key_encrypt_is_deterministic() {
    let plaintext = *b"hello world hello this is my256!";
    let key = Block128::new(*b"thisiakey128bits");

    let mut first = FeistelNet128::new(Block256::new(plaintext), key);
    first.encrypt_with::<NaiveWrappingAdd>(7);
    let (l1, r1) = first.halves();

    let mut second = FeistelNet128::new(Block256::new(plaintext), key);
    second.encrypt_with::<NaiveWrappingAdd>(7);
    let (l2, r2) = second.halves();

    assert_eq!(l1.bytes(), l2.bytes());
    assert_eq!(r1.bytes(), r2.bytes());
}

#[test]
fn fixed_key_round_counts_give_distinct_states() {
    let plaintext = *b"hello world hello this is my256!";
    let key = Block128::new(*b"thisiakey128bits");

    let mut one = FeistelNet128::new(Block256::new(plaintext), key);
    one.encrypt_with::<NaiveWrappingAdd>(1);
    let mut two = FeistelNet128::new(Block256::new(plaintext), key);
    two.encrypt_with::<NaiveWrappingAdd>(2);

    let state_one = Block256::join(one.halves().0, one.halves().1);
    let state_two = Block256::join(two.halves().0, two.halves().1);
    assert_ne!(state_one.bytes(), state_two.bytes());
    assert_ne!(state_one.bytes(), plaintext);
}

#[test]
fn fixed_key_one_round_recurrence() {
    // left half all 1s, right half all 2s, key all 3s:
    // f(left, key) = [4; 16] bytewise, so left' = [2 ^ 4; 16] = [6; 16]
    let mut input = [1u8; 32];
    for byte in input.iter_mut().skip(16) {
        *byte = 2;
    }
    let key = Block128::new([3; 16]);
    let mut engine = FeistelNet128::new(Block256::new(input), key);
    engine.encrypt_with::<NaiveWrappingAdd>(1);
    let (left, right) = engine.halves();
    assert_eq!(left.bytes(), [6u8; 16]);
    assert_eq!(right.bytes(), [1u8; 16]);
}

#[test]
fn naive_wrapping_add_round_function_wraps_bytewise() {
    let a = Block128::new([250; 16]);
    let b = Block128::new([10; 16]);
    let sum = NaiveWrappingAdd::f(a, b);
    // 250 + 10 wraps to 4 in every byte independently: no carry moves over
    assert_eq!(sum.bytes(), [4u8; 16]);
}
