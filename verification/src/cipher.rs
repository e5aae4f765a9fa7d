//! The Feistel network engines.
//!
//! A 256-bit input block is split into a left and a right 128-bit half.
//! Each encryption round replaces the pair `(left, right)` with
//! `(right XOR f(left, key), left)`; decryption walks the round keys in
//! reverse order and applies the mirrored update, which makes it the exact
//! inverse of encryption (`lemma_feistel_round_trip`).
//!
//! Two variants exist: a fixed-key engine that applies the same round key
//! every round (a demonstration of the recurrence, with no decryption),
//! and a scheduled engine that fetches per-round keys from a
//! [`Scheduler`](crate::scheduler::Scheduler).

use vstd::prelude::*;

use crate::block::Block128;
use crate::block::Block256;
use crate::block::xor_bytes;
use crate::round_function::RoundFunction256;
use crate::scheduler::Scheduler;

verus! {

/// One encryption round under `key`: the old left half runs through the
/// round function, is XORed into the right half, and the halves swap.
pub open spec fn encrypt_round<F: RoundFunction256>(l: Seq<u8>, r: Seq<u8>, key: Seq<u8>) -> (
    Seq<u8>,
    Seq<u8>,
) {
    (xor_bytes(r, F::f_spec(l, key)), l)
}

/// One decryption round under `key`: the mirrored update, which undoes
/// `encrypt_round` with the same key.
pub open spec fn decrypt_round<F: RoundFunction256>(l: Seq<u8>, r: Seq<u8>, key: Seq<u8>) -> (
    Seq<u8>,
    Seq<u8>,
) {
    (r, xor_bytes(l, F::f_spec(r, key)))
}

/// The halves after encrypting with every key of `keys` in forward order:
/// round `i` uses `keys[i]`, and round `keys.len() - 1` runs last.
pub open spec fn encrypt_rounds<F: RoundFunction256>(
    l: Seq<u8>,
    r: Seq<u8>,
    keys: Seq<Seq<u8>>,
) -> (Seq<u8>, Seq<u8>)
    decreases keys.len(),
{
    if keys.len() == 0 {
        (l, r)
    } else {
        let prev = encrypt_rounds::<F>(l, r, keys.drop_last());
        encrypt_round::<F>(prev.0, prev.1, keys.last())
    }
}

/// The halves after decrypting with every key of `keys` in reverse order:
/// round `keys.len() - 1` runs first and round 0 last.
pub open spec fn decrypt_rounds<F: RoundFunction256>(
    l: Seq<u8>,
    r: Seq<u8>,
    keys: Seq<Seq<u8>>,
) -> (Seq<u8>, Seq<u8>)
    decreases keys.len(),
{
    if keys.len() == 0 {
        (l, r)
    } else {
        let first = decrypt_round::<F>(l, r, keys.last());
        decrypt_rounds::<F>(first.0, first.1, keys.drop_last())
    }
}

/// The halves after `n` encryption rounds that all use the same `key`.
pub open spec fn encrypt_rounds_fixed<F: RoundFunction256>(
    l: Seq<u8>,
    r: Seq<u8>,
    key: Seq<u8>,
    n: nat,
) -> (Seq<u8>, Seq<u8>)
    decreases n,
{
    if n == 0 {
        (l, r)
    } else {
        let prev = encrypt_rounds_fixed::<F>(l, r, key, (n - 1) as nat);
        encrypt_round::<F>(prev.0, prev.1, key)
    }
}

/// The round keys a scheduler serves for rounds `0..n`.
pub open spec fn round_keys<S: Scheduler<Block128>>(s: S, n: nat) -> Seq<Seq<u8>> {
    Seq::new(n, |i: int| s.key_at(i as nat))
}

/// Both halves stay 128 bits wide through any number of encryption rounds.
pub proof fn lemma_encrypt_rounds_len<F: RoundFunction256>(
    l: Seq<u8>,
    r: Seq<u8>,
    keys: Seq<Seq<u8>>,
)
    requires
        l.len() == 16,
        r.len() == 16,
        forall|i: int| 0 <= i < keys.len() ==> (#[trigger] keys[i]).len() == 16,
    ensures
        encrypt_rounds::<F>(l, r, keys).0.len() == 16,
        encrypt_rounds::<F>(l, r, keys).1.len() == 16,
    decreases keys.len(),
{
    if keys.len() > 0 {
        lemma_encrypt_rounds_len::<F>(l, r, keys.drop_last());
        let prev = encrypt_rounds::<F>(l, r, keys.drop_last());
        F::f_spec_len(prev.0, keys.last());
    }
}

/// Round-trip law: for all 128-bit halves and all key sequences of
/// 128-bit round keys — hence for every plaintext, root key and round
/// count — decrypting the encrypted halves with the same keys restores
/// the original pair exactly.
pub proof fn lemma_feistel_round_trip<F: RoundFunction256>(l: Seq<u8>, r: Seq<u8>, keys: Seq<Seq<u8>>)
    requires
        l.len() == 16,
        r.len() == 16,
        forall|i: int| 0 <= i < keys.len() ==> (#[trigger] keys[i]).len() == 16,
    ensures
        ({
            let c = encrypt_rounds::<F>(l, r, keys);
            decrypt_rounds::<F>(c.0, c.1, keys) == (l, r)
        }),
    decreases keys.len(),
{
    if keys.len() > 0 {
        let k = keys.last();
        let prev = encrypt_rounds::<F>(l, r, keys.drop_last());
        lemma_encrypt_rounds_len::<F>(l, r, keys.drop_last());
        F::f_spec_len(prev.0, k);
        let fk = F::f_spec(prev.0, k);
        let c = encrypt_rounds::<F>(l, r, keys);
        assert(c == encrypt_round::<F>(prev.0, prev.1, k));
        // the XOR of the round-function output cancels itself bytewise
        assert forall|i: int| 0 <= i < 16 implies xor_bytes(xor_bytes(prev.1, fk), fk)[i]
            == prev.1[i] by {
            let a = prev.1[i];
            let b = fk[i];
            assert(((a ^ b) ^ b) == a) by (bit_vector);
        }
        assert(xor_bytes(xor_bytes(prev.1, fk), fk) =~= prev.1);
        assert(decrypt_round::<F>(c.0, c.1, k) == prev);
        lemma_feistel_round_trip::<F>(l, r, keys.drop_last());
    }
}

/// Round-trip law for a scheduled engine: whatever keys a scheduler
/// serves, decrypting with them in reverse order undoes encrypting with
/// them in forward order, for every round count.
pub proof fn lemma_scheduled_round_trip<S: Scheduler<Block128>, F: RoundFunction256>(
    s: S,
    l: Seq<u8>,
    r: Seq<u8>,
    n: nat,
)
    requires
        l.len() == 16,
        r.len() == 16,
    ensures
        ({
            let keys = round_keys::<S>(s, n);
            let c = encrypt_rounds::<F>(l, r, keys);
            decrypt_rounds::<F>(c.0, c.1, keys) == (l, r)
        }),
{
    let keys = round_keys::<S>(s, n);
    assert forall|i: int| 0 <= i < keys.len() implies (#[trigger] keys[i]).len() == 16 by {
        s.key_at_len(i as nat);
    }
    lemma_feistel_round_trip::<F>(l, r, keys);
}

/// Fixed-key encryption is deterministic: runs started from the same
/// halves and the same key reach the same state after the same number of
/// rounds.
pub proof fn lemma_fixed_key_determinism<F: RoundFunction256>(
    l1: Seq<u8>,
    r1: Seq<u8>,
    k1: Seq<u8>,
    l2: Seq<u8>,
    r2: Seq<u8>,
    k2: Seq<u8>,
    n: nat,
)
    requires
        l1 == l2,
        r1 == r2,
        k1 == k2,
    ensures
        encrypt_rounds_fixed::<F>(l1, r1, k1, n) == encrypt_rounds_fixed::<F>(l2, r2, k2, n),
{
}

/// Decryption can also be peeled at round 0: the round-0 step is the last
/// one applied.  This is the view the decryption loop maintains.
proof fn lemma_decrypt_rounds_peel_first<F: RoundFunction256>(
    l: Seq<u8>,
    r: Seq<u8>,
    keys: Seq<Seq<u8>>,
)
    requires
        keys.len() > 0,
    ensures
        ({
            let rest = decrypt_rounds::<F>(l, r, keys.subrange(1, keys.len() as int));
            decrypt_rounds::<F>(l, r, keys) == decrypt_round::<F>(rest.0, rest.1, keys[0])
        }),
    decreases keys.len(),
{
    let n = keys.len() as int;
    let first = decrypt_round::<F>(l, r, keys.last());
    if keys.len() == 1 {
        assert(keys.subrange(1, n) =~= Seq::<Seq<u8>>::empty());
        assert(keys.drop_last() =~= Seq::<Seq<u8>>::empty());
        assert(decrypt_rounds::<F>(first.0, first.1, keys.drop_last()) == (first.0, first.1));
        assert(decrypt_rounds::<F>(l, r, keys) == (first.0, first.1));
        assert(decrypt_rounds::<F>(l, r, keys.subrange(1, n)) == (l, r));
        assert(keys.last() == keys[0]);
    } else {
        lemma_decrypt_rounds_peel_first::<F>(first.0, first.1, keys.drop_last());
        let rest1 = decrypt_rounds::<F>(first.0, first.1, keys.drop_last().subrange(1, n - 1));
        assert(decrypt_rounds::<F>(first.0, first.1, keys.drop_last()) == decrypt_round::<F>(
            rest1.0,
            rest1.1,
            keys.drop_last()[0],
        ));
        assert(decrypt_rounds::<F>(l, r, keys) == decrypt_rounds::<F>(
            first.0,
            first.1,
            keys.drop_last(),
        ));
        let sub = keys.subrange(1, n);
        assert(sub.last() == keys.last());
        assert(sub.drop_last() =~= keys.drop_last().subrange(1, n - 1));
        assert(decrypt_rounds::<F>(l, r, sub) == decrypt_rounds::<F>(
            first.0,
            first.1,
            sub.drop_last(),
        ));
        assert(keys.drop_last()[0] == keys[0]);
    }
}

/// The fixed-key Feistel engine: one 256-bit input and one 128-bit key,
/// the same round key every round.  It demonstrates the basic recurrence
/// only and has no corresponding decryption.
pub struct FeistelNet128 {
    left: Block128,
    right: Block128,
    key_i: Block128,
}

impl FeistelNet128 {
    /// The left half of the working state.
    pub closed spec fn left_view(&self) -> Seq<u8> {
        self.left@
    }

    /// The right half of the working state.
    pub closed spec fn right_view(&self) -> Seq<u8> {
        self.right@
    }

    /// The fixed round key.
    pub closed spec fn key_view(&self) -> Seq<u8> {
        self.key_i@
    }

    /// Consumes a 256-bit block; bytes `[0, 16)` become the left half and
    /// bytes `[16, 32)` the right half.
    pub fn new(data: Block256, key_i: Block128) -> (r: Self)
        ensures
            r.left_view() == data@.subrange(0, 16),
            r.right_view() == data@.subrange(16, 32),
            r.key_view() == key_i@,
    {
        let (left, right) = data.split();
        Self { left, right, key_i }
    }

    fn update_state(&mut self, left: Block128, right: Block128)
        ensures
            final(self).left == left,
            final(self).right == right,
            final(self).key_i == old(self).key_i,
    {
        self.left = left;
        self.right = right;
    }

    /// Runs `r` encryption rounds, every round using the same fixed key.
    /// The result is a pure function of the input halves, the key and the
    /// round count, so repeating the run repeats the ciphertext.
    pub fn encrypt_with<F: RoundFunction256>(&mut self, r: usize)
        ensures
            ({
                let c = encrypt_rounds_fixed::<F>(
                    old(self).left_view(),
                    old(self).right_view(),
                    old(self).key_view(),
                    r as nat,
                );
                final(self).left_view() == c.0 && final(self).right_view() == c.1
            }),
            final(self).key_view() == old(self).key_view(),
    {
        let ghost l0 = self.left@;
        let ghost r0 = self.right@;
        let ghost k = self.key_i@;
        let mut left = self.left;
        let mut right = self.right;
        let mut round: usize = 0;
        while round < r
            invariant
                round <= r,
                self.key_i@ == k,
                (left@, right@) == encrypt_rounds_fixed::<F>(l0, r0, k, round as nat),
            decreases r - round,
        {
            let temp = left;
            left = right.xor(&F::f(left, self.key_i));
            right = temp;
            round += 1;
        }
        self.update_state(left, right);
    }

    /// The two current halves, left then right.
    pub fn halves(&self) -> (r: (Block128, Block128))
        ensures
            r.0@ == self.left_view(),
            r.1@ == self.right_view(),
    {
        (self.left, self.right)
    }
}

/// The scheduled Feistel engine: a 256-bit input block and an owned key
/// scheduler.  Encryption fetches the round key for each round index in
/// forward order; decryption fetches them in reverse order and applies the
/// mirrored update, which restores the plaintext exactly
/// (`lemma_feistel_round_trip`).
pub struct ScheduledFeistelNet128<S> where S: Scheduler<Block128> {
    left: Block128,
    right: Block128,
    key_i: S,
}

impl<S> ScheduledFeistelNet128<S> where S: Scheduler<Block128> {
    /// The left half of the working state.
    pub closed spec fn left_view(&self) -> Seq<u8> {
        self.left@
    }

    /// The right half of the working state.
    pub closed spec fn right_view(&self) -> Seq<u8> {
        self.right@
    }

    /// The owned scheduler.
    pub closed spec fn scheduler(&self) -> S {
        self.key_i
    }

    /// Consumes a 256-bit block; bytes `[0, 16)` become the left half and
    /// bytes `[16, 32)` the right half.  The engine exclusively owns the
    /// scheduler from here on.
    pub fn new(data: Block256, key_i: S) -> (r: Self)
        ensures
            r.left_view() == data@.subrange(0, 16),
            r.right_view() == data@.subrange(16, 32),
            r.scheduler() == key_i,
    {
        let (left, right) = data.split();
        Self { left, right, key_i }
    }

    fn update_state(&mut self, left: Block128, right: Block128)
        ensures
            final(self).left == left,
            final(self).right == right,
            final(self).key_i == old(self).key_i,
    {
        self.left = left;
        self.right = right;
    }

    /// Runs rounds `0..r` in forward order, round `i` under the
    /// scheduler's key for round `i`.  The scheduler's key table survives
    /// unchanged; only its cursor moves (to 0, where encryption reads).
    pub fn encrypt_with<F: RoundFunction256>(&mut self, r: usize)
        ensures
            ({
                let c = encrypt_rounds::<F>(
                    old(self).left_view(),
                    old(self).right_view(),
                    round_keys::<S>(old(self).scheduler(), r as nat),
                );
                final(self).left_view() == c.0 && final(self).right_view() == c.1
            }),
            forall|j: nat|
                (#[trigger] final(self).scheduler().key_at(j)) == old(self).scheduler().key_at(j),
            final(self).scheduler().key_count() == old(self).scheduler().key_count(),
            final(self).scheduler().cursor() == 0,
    {
        self.key_i.set_position(0);
        let ghost l0 = self.left@;
        let ghost r0 = self.right@;
        let ghost keys = round_keys::<S>(self.key_i, r as nat);
        let ghost sched = self.key_i;
        proof {
            assert(keys =~= round_keys::<S>(old(self).scheduler(), r as nat));
        }
        let mut left = self.left;
        let mut right = self.right;
        let mut round: usize = 0;
        while round < r
            invariant
                round <= r,
                self.key_i == sched,
                keys == round_keys::<S>(sched, r as nat),
                (left@, right@) == encrypt_rounds::<F>(l0, r0, keys.take(round as int)),
            decreases r - round,
        {
            let key = self.key_i.get_key_at_position(round);
            let temp = left;
            left = right.xor(&F::f(left, key));
            right = temp;
            round += 1;
            proof {
                assert(keys.take(round as int).drop_last() =~= keys.take(round as int - 1));
                assert(keys.take(round as int).last() == keys[round as int - 1]);
            }
        }
        proof {
            assert(keys.take(r as int) =~= keys);
        }
        self.update_state(left, right);
    }

    /// Runs rounds `r - 1` down to 0 in reverse order, round `i` under the
    /// scheduler's key for round `i`, applying the mirrored update each
    /// round.  The scheduler's key table survives unchanged; only its
    /// cursor moves (to `r - 1`, where decryption starts reading).
    pub fn decrypt_with<F: RoundFunction256>(&mut self, r: usize)
        requires
            r >= 1,
        ensures
            ({
                let c = decrypt_rounds::<F>(
                    old(self).left_view(),
                    old(self).right_view(),
                    round_keys::<S>(old(self).scheduler(), r as nat),
                );
                final(self).left_view() == c.0 && final(self).right_view() == c.1
            }),
            forall|j: nat|
                (#[trigger] final(self).scheduler().key_at(j)) == old(self).scheduler().key_at(j),
            final(self).scheduler().key_count() == old(self).scheduler().key_count(),
            final(self).scheduler().cursor() == (r - 1) as nat,
    {
        self.key_i.set_position(r - 1);
        let ghost l0 = self.left@;
        let ghost r0 = self.right@;
        let ghost keys = round_keys::<S>(self.key_i, r as nat);
        let ghost sched = self.key_i;
        proof {
            assert(keys =~= round_keys::<S>(old(self).scheduler(), r as nat));
        }
        let mut left = self.left;
        let mut right = self.right;
        let mut round: usize = r;
        while round > 0
            invariant
                round <= r,
                self.key_i == sched,
                keys == round_keys::<S>(sched, r as nat),
                (left@, right@) == decrypt_rounds::<F>(l0, r0, keys.skip(round as int)),
            decreases round,
        {
            round -= 1;
            let key = self.key_i.get_key_at_position(round);
            let temp = right;
            right = left.xor(&F::f(right, key));
            left = temp;
            proof {
                let tail = keys.skip(round as int);
                lemma_decrypt_rounds_peel_first::<F>(l0, r0, tail);
                assert(tail.subrange(1, tail.len() as int) =~= keys.skip(round as int + 1));
                assert(tail[0] == keys[round as int]);
            }
        }
        proof {
            assert(keys.skip(0) =~= keys);
        }
        self.update_state(left, right);
    }

    /// The two current halves, left then right.
    pub fn halves(&self) -> (r: (Block128, Block128))
        ensures
            r.0@ == self.left_view(),
            r.1@ == self.right_view(),
    {
        (self.left, self.right)
    }
}

} // verus!
