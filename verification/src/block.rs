//! Blocks: the 16-byte units in which a message is read.

use vstd::prelude::*;

verus! {

/// Sixteen zero bytes.
pub open spec fn zero_block() -> Seq<u8> {
    Seq::new(16, |i: int| 0u8)
}

/// The `k`-th block of `data`: its bytes `16 * k .. 16 * k + 16`.
pub open spec fn block_at(data: Seq<u8>, k: int) -> Seq<u8> {
    data.subrange(16 * k, 16 * k + 16)
}

} // verus!
