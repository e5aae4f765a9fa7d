//! A generic Feistel network block cipher over 256-bit blocks, with round
//! keys supplied by a pluggable key scheduler.  The concrete scheduler
//! materialises a Rijndael-style (AES-128) key expansion and serves 128-bit
//! round keys from the expanded table.
//!
//! Every operation here is pure computation over fixed-width byte blocks;
//! the central correctness statement is that decryption walks the round
//! keys in reverse order and exactly inverts encryption.

pub mod block;
pub mod cipher;
pub mod round_function;
pub mod sbox;
pub mod scheduler;
