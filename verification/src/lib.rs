//! # md2_digest
//!
//! This crate generates the md2 digest for the bytes that are used as input.
//!
//! The digest is defined in RFC 1319. A message is padded to a whole number
//! of 16-byte blocks, a 16-byte checksum of the padded message is put behind
//! it, and a compression pass over all of that leaves the 16 bytes of the
//! digest. What each stage computes is stated as a function on sequences of
//! bytes, and the code is proved to compute exactly that.

pub mod block;
pub mod checksum;
pub mod digest;
pub mod hex;
pub mod padding;
pub mod sbox;

pub use crate::checksum::{checksum, MsgWithChecksum};
pub use crate::digest::{make_md2, MD2Digest};
pub use crate::padding::{MsgWithPadding, Padding};
