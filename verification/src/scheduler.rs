//! Rijndael (AES-128) key expansion and the key-scheduler capability.
//!
//! The expansion turns a 128-bit root key into 44 32-bit words; round key
//! `r` is the big-endian reassembly of words `[4r, 4r + 4)`, so one
//! expansion yields 11 round keys (round indices 0 through 10).
//!
//! The scheduler interface serves round keys either by random access
//! (`get_key_at_position`) or by walking a cursor (`next_key`).  Both fold
//! indices into the 11-entry table: `get_key_at_position` reduces its index
//! modulo 11, and `next_key` silently wraps its cursor to the start once
//! the table is exhausted.  The wraparound is documented, deliberate
//! behaviour — it means round keys repeat beyond 10 rounds, and bounding
//! the round count is the caller's responsibility.

use vstd::prelude::*;

use crate::block::Block;
use crate::block::Block128;
use crate::sbox::s_box_spec;
use crate::sbox::s_box_substitution;

verus! {

/// The AES round-constant sequence: successive powers of 2 in GF(2^8),
/// indexed from 0 for the first key-schedule round.
pub open spec fn rcon_spec(i: int) -> u8 {
    if i == 0 {
        0x01
    } else if i == 1 {
        0x02
    } else if i == 2 {
        0x04
    } else if i == 3 {
        0x08
    } else if i == 4 {
        0x10
    } else if i == 5 {
        0x20
    } else if i == 6 {
        0x40
    } else if i == 7 {
        0x80
    } else if i == 8 {
        0x1b
    } else if i == 9 {
        0x36
    } else {
        0x00
    }
}

fn rcon(i: usize) -> (r: u8)
    requires
        i < 10,
    ensures
        r == rcon_spec(i as int),
{
    match i {
        0 => 0x01,
        1 => 0x02,
        2 => 0x04,
        3 => 0x08,
        4 => 0x10,
        5 => 0x20,
        6 => 0x40,
        7 => 0x80,
        8 => 0x1b,
        _ => 0x36,
    }
}

/// Left-rotation of a 32-bit word by 8 bits: its most significant byte
/// becomes the least significant one.
pub open spec fn rot_word_spec(word: u32) -> u32 {
    (word << 8) | (word >> 24)
}

pub fn rot_word(word: u32) -> (r: u32)
    ensures
        r == rot_word_spec(word),
{
    (word << 8) | (word >> 24)
}

/// The S-box applied independently to each of the 4 bytes of a word.
pub open spec fn sub_word_spec(word: u32) -> u32 {
    (s_box_spec((word & 0xff) as u8) as u32) | ((s_box_spec(((word >> 8) & 0xff) as u8) as u32)
        << 8) | ((s_box_spec(((word >> 16) & 0xff) as u8) as u32) << 16) | ((s_box_spec(
        ((word >> 24) & 0xff) as u8,
    ) as u32) << 24)
}

pub(crate) fn sub_word(word: u32) -> (r: u32)
    ensures
        r == sub_word_spec(word),
{
    let b0: u8 = s_box_substitution((word & 0xff) as u8);
    let b1: u8 = s_box_substitution(((word >> 8) & 0xff) as u8);
    let b2: u8 = s_box_substitution(((word >> 16) & 0xff) as u8);
    let b3: u8 = s_box_substitution(((word >> 24) & 0xff) as u8);
    (b0 as u32) | ((b1 as u32) << 8) | ((b2 as u32) << 16) | ((b3 as u32) << 24)
}

/// The big-endian 32-bit word formed from four bytes.
pub open spec fn word_from_be_bytes(b0: u8, b1: u8, b2: u8, b3: u8) -> u32 {
    ((b0 as u32) << 24) | ((b1 as u32) << 16) | ((b2 as u32) << 8) | (b3 as u32)
}

/// Word `i` of the expanded key derived from a 16-byte root key.
/// Words 0 through 3 are the big-endian interpretation of root-key bytes
/// `[4i, 4i + 4)`; each later word is `w[i - 4] XOR temp`, where `temp` is
/// `w[i - 1]`, transformed by `SubWord`, `RotWord` and the round constant
/// whenever `i` is a multiple of 4.
pub open spec fn expanded_word(key: Seq<u8>, i: int) -> u32
    decreases i,
{
    if i < 4 {
        word_from_be_bytes(key[4 * i], key[4 * i + 1], key[4 * i + 2], key[4 * i + 3])
    } else {
        let prev = expanded_word(key, i - 1);
        let temp = if i % 4 == 0 {
            sub_word_spec(rot_word_spec(prev)) ^ ((rcon_spec(i / 4 - 1) as u32) << 24)
        } else {
            prev
        };
        expanded_word(key, i - 4) ^ temp
    }
}

/// Big-endian byte `k` (0 is the most significant) of a 32-bit word.
pub open spec fn be_byte_of_word(w: u32, k: int) -> u8 {
    ((w >> ((24 - 8 * k) as u32)) & 0xff) as u8
}

/// The 16 bytes of round key `r` out of a 44-word table: words
/// `[4r, 4r + 4)` reassembled big-endian, word `4r` first.
pub open spec fn round_key_of_words(words: Seq<u32>, r: int) -> Seq<u8> {
    Seq::new(16, |j: int| be_byte_of_word(words[4 * r + j / 4], j % 4))
}

/// The 16 bytes of round key `r` derived from a 16-byte root key.
pub open spec fn round_key_bytes(key: Seq<u8>, r: int) -> Seq<u8> {
    round_key_of_words(Seq::new(44, |i: int| expanded_word(key, i)), r)
}

/// Expands a 128-bit root key into the 44 32-bit words of the AES-128 key
/// schedule.
pub fn aes_key_schedule(key: &[u8; 16]) -> (w: [u32; 44])
    ensures
        forall|i: int| 0 <= i < 44 ==> w@[i] == expanded_word(key@, i),
{
    let mut w: [u32; 44] = [0; 44];
    let mut i: usize = 0;
    while i < 4
        invariant
            i <= 4,
            w@.len() == 44,
            forall|j: int| 0 <= j < i ==> w@[j] == expanded_word(key@, j),
        decreases 4 - i,
    {
        w[i] = ((key[4 * i] as u32) << 24) | ((key[4 * i + 1] as u32) << 16) | ((key[4 * i
            + 2] as u32) << 8) | (key[4 * i + 3] as u32);
        i += 1;
    }
    while i < 44
        invariant
            4 <= i <= 44,
            w@.len() == 44,
            forall|j: int| 0 <= j < i ==> w@[j] == expanded_word(key@, j),
        decreases 44 - i,
    {
        let mut temp: u32 = w[i - 1];
        if i % 4 == 0 {
            temp = sub_word(rot_word(temp)) ^ ((rcon(i / 4 - 1) as u32) << 24);
        }
        w[i] = w[i - 4] ^ temp;
        i += 1;
    }
    w
}

/// A materialized AES-style key schedule: 44 32-bit words derived from one
/// 128-bit root key.
pub struct KeyExpandedBlock {
    key: [u32; 44],
}

impl KeyExpandedBlock {
    /// The expanded words.
    pub closed spec fn words(&self) -> Seq<u32> {
        self.key@
    }

    /// The expanded words as a table of 44 32-bit words.
    pub fn table(&self) -> (t: [u32; 44])
        ensures
            t@ == self.words(),
    {
        self.key
    }
}

pub struct KeyExpander;

impl KeyExpander {
    /// Materialises the full expansion of `input` at once.
    pub fn expand_keys(input: Block128) -> (r: KeyExpandedBlock)
        ensures
            r.words().len() == 44,
            forall|i: int| 0 <= i < 44 ==> r.words()[i] == expanded_word(input@, i),
    {
        KeyExpandedBlock { key: aes_key_schedule(&input.data) }
    }
}

/// The key-scheduler capability: given a root key it serves 128-bit round
/// keys, both by random access and by walking an internal cursor.
///
/// `key_at` is the table of served keys, `key_count` the number of round
/// keys the table holds, and `cursor` the round index `next_key` reads
/// next.  Serving a key never changes the table: `get_key_at_position` is
/// referentially transparent over it, and `next_key` and `set_position`
/// move only the cursor.
pub trait Scheduler<B>: Sized where B: Block {
    /// The round key served for round index `i`.
    spec fn key_at(&self, i: nat) -> Seq<u8>;

    /// How many round keys the table holds.
    spec fn key_count(&self) -> nat;

    /// The round index that `next_key` reads next.
    spec fn cursor(&self) -> nat;

    /// Every served round key is 128 bits wide.
    proof fn key_at_len(&self, i: nat)
        ensures
            self.key_at(i).len() == 16,
    ;

    /// Returns the round key at the current cursor and advances the cursor
    /// by one round.  A cursor already past the table wraps to the start
    /// (index 0) rather than erroring; this masks key reuse beyond the
    /// table's round capacity and callers must bound their round counts.
    fn next_key(&mut self) -> (r: Block128)
        ensures
            forall|j: nat| (#[trigger] final(self).key_at(j)) == old(self).key_at(j),
            final(self).key_count() == old(self).key_count(),
            ({
                let c = if old(self).cursor() >= old(self).key_count() {
                    0nat
                } else {
                    old(self).cursor()
                };
                r@ == old(self).key_at(c) && final(self).cursor() == c + 1
            }),
    ;

    /// Repositions the cursor to round index `i`; the expansion is not
    /// recomputed.
    fn set_position(&mut self, i: usize)
        ensures
            forall|j: nat| (#[trigger] final(self).key_at(j)) == old(self).key_at(j),
            final(self).key_count() == old(self).key_count(),
            final(self).cursor() == i as nat,
    ;

    /// Returns the round key for round `i` without mutating any state:
    /// the same `i` yields the same key regardless of prior calls.
    fn get_key_at_position(&mut self, i: usize) -> (r: Block128)
        ensures
            *final(self) == *old(self),
            r@ == old(self).key_at(i as nat),
    ;
}

/// A scheduler that computes the full expanded key once at construction
/// and serves every round key from that precomputed table.
pub struct IterativeRijndaelScheduler {
    k_i: KeyExpandedBlock,
    i: usize,
}

impl IterativeRijndaelScheduler {
    /// Expands `init_key` eagerly; the scheduler then owns the 11-round
    /// table and a cursor starting at round 0.
    pub fn new(init_key: Block128) -> (r: Self)
        ensures
            forall|i: nat| (#[trigger] r.key_at(i)) == round_key_bytes(init_key@, (i % 11) as int),
            r.key_count() == 11,
            r.cursor() == 0,
    {
        let expanded = aes_key_schedule(&init_key.data);
        let k_i = KeyExpandedBlock { key: expanded };
        let r = IterativeRijndaelScheduler { k_i, i: 0 };
        proof {
            assert forall|i: nat| (#[trigger] r.key_at(i)) == round_key_bytes(
                init_key@,
                (i % 11) as int,
            ) by {
                assert(r.key_at(i) =~= round_key_bytes(init_key@, (i % 11) as int));
            }
        }
        r
    }
}

/// Extracts big-endian byte `k` (0 is the most significant) of a word.
fn be_byte(num: u32, k: u32) -> (b: u8)
    requires
        k < 4,
    ensures
        b == be_byte_of_word(num, k as int),
{
    let sh: u32 = 24 - 8 * k;
    let v: u32 = (num >> sh) & 0xff;
    proof {
        assert((num >> sh) & 0xff < 256) by (bit_vector);
    }
    v as u8
}

/// Builds the 16-byte round key `r_idx` out of a 44-word expanded table.
fn assemble_round_key(words: &[u32; 44], r_idx: usize) -> (b: Block128)
    requires
        r_idx < 11,
    ensures
        b@ == round_key_of_words(words@, r_idx as int),
{
    let start: usize = r_idx * 4;
    let mut block128: [u8; 16] = [0; 16];
    let mut j: usize = 0;
    while j < 4
        invariant
            j <= 4,
            start == r_idx * 4,
            r_idx < 11,
            block128@.len() == 16,
            forall|t: int|
                0 <= t < 4 * j ==> block128@[t] == be_byte_of_word(words@[4 * r_idx + t / 4], t % 4),
        decreases 4 - j,
    {
        let num: u32 = words[start + j];
        let start_index: usize = j * 4;
        block128[start_index] = be_byte(num, 0);
        block128[start_index + 1] = be_byte(num, 1);
        block128[start_index + 2] = be_byte(num, 2);
        block128[start_index + 3] = be_byte(num, 3);
        j += 1;
    }
    let b = Block128 { data: block128 };
    proof {
        assert(b@ =~= round_key_of_words(words@, r_idx as int));
    }
    b
}

impl Scheduler<Block128> for IterativeRijndaelScheduler {
    /// Round-key indices fold modulo the 11-round table.
    closed spec fn key_at(&self, i: nat) -> Seq<u8> {
        round_key_of_words(self.k_i.words(), (i % 11) as int)
    }

    closed spec fn key_count(&self) -> nat {
        11
    }

    closed spec fn cursor(&self) -> nat {
        self.i as nat
    }

    proof fn key_at_len(&self, i: nat) {
    }

    fn next_key(&mut self) -> (r: Block128) {
        if self.i >= 11 {
            self.i = 0;
        }
        let r = assemble_round_key(&self.k_i.key, self.i);
        self.i = self.i + 1;
        r
    }

    fn set_position(&mut self, i: usize) {
        self.i = i;
    }

    fn get_key_at_position(&mut self, i: usize) -> (r: Block128) {
        assemble_round_key(&self.k_i.key, i % 11)
    }
}

/// Key expansion is deterministic: two expanded tables derived from the
/// same root key agree word for word.
pub proof fn lemma_key_expansion_deterministic(key: Seq<u8>, w1: Seq<u32>, w2: Seq<u32>)
    requires
        w1.len() == 44,
        w2.len() == 44,
        forall|i: int| 0 <= i < 44 ==> w1[i] == expanded_word(key, i),
        forall|i: int| 0 <= i < 44 ==> w2[i] == expanded_word(key, i),
    ensures
        w1 == w2,
{
    assert(w1 =~= w2);
}

/// The cursor normalization `next_key` performs on entry: a cursor past
/// the 11-round table wraps to the start.
pub open spec fn wrap_cursor(c: nat) -> nat {
    if c >= 11 {
        0
    } else {
        c
    }
}

/// The cursor of an `IterativeRijndaelScheduler` after `k` calls of
/// `next_key` starting from position 0.
pub open spec fn walk_cursor(k: nat) -> nat
    decreases k,
{
    if k == 0 {
        0
    } else {
        wrap_cursor(walk_cursor((k - 1) as nat)) + 1
    }
}

/// The round-key index served by call number `k` (counting from 0) of
/// `next_key`, walking from position 0.
pub open spec fn walk_index(k: nat) -> nat {
    wrap_cursor(walk_cursor(k))
}

proof fn lemma_walk_index(k: nat)
    ensures
        walk_index(k) == k % 11,
    decreases k,
{
    if k > 0 {
        lemma_walk_index((k - 1) as nat);
    }
}

/// Round-key retrieval is consistent between the two entry points: the key
/// `get_key_at_position(i)` serves equals the one returned by the `i`-th
/// `next_key` call (0-based) when walking from position 0 — both fold `i`
/// modulo the 11-round table.
pub proof fn lemma_get_key_matches_next_key_walk(s: &IterativeRijndaelScheduler, i: nat)
    ensures
        s.key_at(i) == s.key_at(walk_index(i)),
{
    lemma_walk_index(i);
}

} // verus!
