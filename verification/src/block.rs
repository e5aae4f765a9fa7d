//! Fixed-width byte blocks: a 256-bit block that splits into two 128-bit
//! halves, and a 128-bit block with bytewise XOR and bytewise wrapping
//! addition.  All operations are total and pure.

use vstd::prelude::*;

verus! {

/// Marker for the fixed-width block types of this crate.
pub trait Block {}

/// Bytewise XOR of two equal-length byte sequences.
pub open spec fn xor_bytes(a: Seq<u8>, b: Seq<u8>) -> Seq<u8> {
    Seq::new(a.len(), |i: int| a[i] ^ b[i])
}

/// Bytewise wrapping addition: each byte wraps independently modulo 256;
/// there is no carry between bytes.
pub open spec fn wrapping_add_bytes(a: Seq<u8>, b: Seq<u8>) -> Seq<u8> {
    Seq::new(a.len(), |i: int| ((a[i] + b[i]) % 256) as u8)
}

/// A 256-bit value: 32 ordered bytes.  Bytes `[0, 16)` form the left half
/// and bytes `[16, 32)` the right half.
#[derive(Debug)]
pub struct Block256 {
    pub data: [u8; 32],
}

impl Block for Block256 {}

impl PartialEq for Block256 {
    /// Structural equality: two blocks are equal exactly when all 32
    /// bytes agree.
    fn eq(&self, other: &Block256) -> (r: bool) {
        let mut i: usize = 0;
        while i < 32
            invariant
                i <= 32,
                forall|j: int| 0 <= j < i ==> self.data@[j] == other.data@[j],
            decreases 32 - i,
        {
            if self.data[i] != other.data[i] {
                return false;
            }
            i += 1;
        }
        proof {
            assert(self.data =~= other.data);
        }
        true
    }
}

impl vstd::std_specs::cmp::PartialEqSpecImpl for Block256 {
    open spec fn obeys_eq_spec() -> bool {
        true
    }

    open spec fn eq_spec(&self, other: &Block256) -> bool {
        self.data == other.data
    }
}

impl View for Block256 {
    type V = Seq<u8>;

    open spec fn view(&self) -> Seq<u8> {
        self.data@
    }
}

impl Default for Block256 {
    /// The all-zero 256-bit block.
    fn default() -> (r: Self)
        ensures
            r@ == Seq::new(32, |i: int| 0u8),
    {
        let r = Self { data: [0; 32] };
        proof {
            assert(r@ =~= Seq::new(32, |i: int| 0u8));
        }
        r
    }
}

impl Block256 {
    pub fn new(data: [u8; 32]) -> (r: Self)
        ensures
            r@ == data@,
    {
        Self { data }
    }

    /// Splits the block into its left half (bytes `[0, 16)`) and right
    /// half (bytes `[16, 32)`).
    pub fn split(self) -> (r: (Block128, Block128))
        ensures
            r.0@ == self@.subrange(0, 16),
            r.1@ == self@.subrange(16, 32),
    {
        let mut left: [u8; 16] = [0; 16];
        let mut right: [u8; 16] = [0; 16];
        let mut i: usize = 0;
        while i < 16
            invariant
                i <= 16,
                left@.len() == 16,
                right@.len() == 16,
                forall|j: int| 0 <= j < i ==> left@[j] == self@[j],
                forall|j: int| 0 <= j < i ==> right@[j] == self@[j + 16],
            decreases 16 - i,
        {
            left[i] = self.data[i];
            right[i] = self.data[i + 16];
            i += 1;
        }
        proof {
            assert(left@ =~= self@.subrange(0, 16));
            assert(right@ =~= self@.subrange(16, 32));
        }
        (Block128 { data: left }, Block128 { data: right })
    }

    /// Rejoins a left and a right 128-bit half into one 256-bit block.
    pub fn join(lhs: Block128, rhs: Block128) -> (r: Block256)
        ensures
            r@ == lhs@ + rhs@,
    {
        let mut data: [u8; 32] = [0; 32];
        let mut i: usize = 0;
        while i < 16
            invariant
                i <= 16,
                data@.len() == 32,
                forall|j: int| 0 <= j < i ==> data@[j] == lhs@[j],
                forall|j: int| 0 <= j < i ==> data@[j + 16] == rhs@[j],
            decreases 16 - i,
        {
            data[i] = lhs.data[i];
            data[i + 16] = rhs.data[i];
            i += 1;
        }
        let r = Block256 { data };
        proof {
            assert(r@ =~= lhs@ + rhs@);
        }
        r
    }

    /// The raw bytes of the block.
    pub fn bytes(&self) -> (r: [u8; 32])
        ensures
            r@ == self@,
    {
        self.data
    }
}

/// A 128-bit value: 16 ordered bytes.
#[derive(Debug, Clone, Copy)]
pub struct Block128 {
    pub data: [u8; 16],
}

impl Block for Block128 {}

impl View for Block128 {
    type V = Seq<u8>;

    open spec fn view(&self) -> Seq<u8> {
        self.data@
    }
}

impl Default for Block128 {
    /// The all-zero 128-bit block.
    fn default() -> (r: Self)
        ensures
            r@ == Seq::new(16, |i: int| 0u8),
    {
        let r = Self { data: [0; 16] };
        proof {
            assert(r@ =~= Seq::new(16, |i: int| 0u8));
        }
        r
    }
}

impl Block128 {
    pub fn new(data: [u8; 16]) -> (r: Self)
        ensures
            r@ == data@,
    {
        Self { data }
    }

    /// Builds the block from the little-endian bytes of a 128-bit integer:
    /// byte `i` holds bits `[8i, 8i + 8)` of `value`.
    pub fn from_u128(value: u128) -> (r: Self)
        ensures
            r@.len() == 16,
            forall|i: int| 0 <= i < 16 ==> r@[i] == low_byte_of(value, i),
    {
        let mut data: [u8; 16] = [0; 16];
        let mut i: usize = 0;
        while i < 16
            invariant
                i <= 16,
                data@.len() == 16,
                forall|j: int| 0 <= j < i ==> data@[j] == low_byte_of(value, j),
            decreases 16 - i,
        {
            let shifted: u128 = value >> ((8 * i) as u128);
            data[i] = (shifted & 0xff) as u8;
            i += 1;
        }
        Self { data }
    }

    /// Bytewise wrapping addition with `rhs`.
    pub fn wrapping_add(&self, rhs: &Self) -> (r: Block128)
        ensures
            r@ == wrapping_add_bytes(self@, rhs@),
    {
        let mut result: [u8; 16] = [0; 16];
        let mut i: usize = 0;
        while i < 16
            invariant
                i <= 16,
                result@.len() == 16,
                forall|j: int| 0 <= j < i ==> result@[j] == wrapping_add_bytes(self@, rhs@)[j],
            decreases 16 - i,
        {
            let a: u8 = self.data[i];
            let b: u8 = rhs.data[i];
            result[i] = a.wrapping_add(b);
            i += 1;
        }
        let r = Self { data: result };
        proof {
            assert(r@ =~= wrapping_add_bytes(self@, rhs@));
        }
        r
    }

    /// Bytewise XOR with `rhs`.
    pub fn xor(&self, rhs: &Self) -> (r: Block128)
        ensures
            r@ == xor_bytes(self@, rhs@),
    {
        let mut result: [u8; 16] = [0; 16];
        let mut i: usize = 0;
        while i < 16
            invariant
                i <= 16,
                result@.len() == 16,
                forall|j: int| 0 <= j < i ==> result@[j] == xor_bytes(self@, rhs@)[j],
            decreases 16 - i,
        {
            result[i] = self.data[i] ^ rhs.data[i];
            i += 1;
        }
        let r = Self { data: result };
        proof {
            assert(r@ =~= xor_bytes(self@, rhs@));
        }
        r
    }

    /// The raw bytes of the block.
    pub fn bytes(&self) -> (r: [u8; 16])
        ensures
            r@ == self@,
    {
        self.data
    }
}

/// Byte `i` (little-endian) of a 128-bit integer.
pub open spec fn low_byte_of(value: u128, i: int) -> u8 {
    ((value >> ((8 * i) as u128)) & 0xff) as u8
}

} // verus!
