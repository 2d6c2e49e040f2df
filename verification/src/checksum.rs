//! The 16-byte checksum of a padded message, and the view of the message
//! with the checksum behind it.

use vstd::prelude::*;

use crate::block::{block_at, zero_block};
use crate::padding::MsgWithPadding;
use crate::sbox::{pi_sub, PI_SUB};

verus! {

/// The checksum so far, and the byte that was written to it last.
pub struct ChecksumState {
    pub sum: Seq<u8>,
    pub last: u8,
}

/// The state before any byte: a zero checksum, and zero as the last byte.
pub open spec fn checksum_start() -> ChecksumState {
    ChecksumState { sum: zero_block(), last: 0 }
}

/// Mixes the message byte `c` into position `i` of the checksum: the table
/// entry at `c ^ last` is xor-ed onto that position, and what then stands
/// there is the new last byte.
pub open spec fn checksum_step(st: ChecksumState, i: int, c: u8) -> ChecksumState {
    let mixed = st.sum[i] ^ pi_sub(c ^ st.last);
    ChecksumState { sum: st.sum.update(i, mixed), last: mixed }
}

/// The state after the first `n` bytes of `block` went into positions
/// `0 .. n`, in this order.
pub open spec fn checksum_block(st: ChecksumState, block: Seq<u8>, n: nat) -> ChecksumState
    decreases n,
{
    if n == 0 {
        st
    } else {
        checksum_step(checksum_block(st, block, (n - 1) as nat), n - 1, block[n - 1])
    }
}

/// The state after the first `n` blocks of `data`. The last byte is carried
/// from each block to the next.
pub open spec fn checksum_blocks(data: Seq<u8>, n: nat) -> ChecksumState
    decreases n,
{
    if n == 0 {
        checksum_start()
    } else {
        checksum_block(checksum_blocks(data, (n - 1) as nat), block_at(data, n - 1), 16)
    }
}

/// The checksum of `data`, over all its whole blocks. Of a padded message
/// that is all of it.
pub open spec fn checksum_of(data: Seq<u8>) -> Seq<u8> {
    checksum_blocks(data, data.len() / 16).sum
}

/// Mixing bytes into positions that the checksum has keeps its length.
pub proof fn lemma_checksum_block_len(st: ChecksumState, block: Seq<u8>, n: nat)
    requires
        n <= st.sum.len(),
    ensures
        checksum_block(st, block, n).sum.len() == st.sum.len(),
    decreases n,
{
    if n > 0 {
        lemma_checksum_block_len(st, block, (n - 1) as nat);
    }
}

/// After any number of blocks the checksum has 16 bytes.
pub proof fn lemma_checksum_blocks_len(data: Seq<u8>, n: nat)
    ensures
        checksum_blocks(data, n).sum.len() == 16,
    decreases n,
{
    if n > 0 {
        lemma_checksum_blocks_len(data, (n - 1) as nat);
        lemma_checksum_block_len(checksum_blocks(data, (n - 1) as nat), block_at(data, n - 1), 16);
    }
}

/// Computes the checksum of a padded message in one pass over its blocks.
///
/// The length of message and padding together has to fit a `usize`.
pub fn checksum(msg: MsgWithPadding) -> (sum: [u8; 16])
    requires
        msg@.len() <= usize::MAX,
    ensures
        sum@ == checksum_of(msg@),
{
    let mut checksum: [u8; 16] = [0; 16];
    let mut l: u8 = 0;
    let blocks: usize = msg.len() / 16;
    let mut outer_index: usize = 0;
    assert(checksum@ =~= zero_block());
    while outer_index < blocks
        invariant
            outer_index <= blocks,
            blocks == msg@.len() / 16,
            msg@.len() <= usize::MAX,
            (ChecksumState { sum: checksum@, last: l }) == checksum_blocks(
                msg@,
                outer_index as nat,
            ),
        decreases blocks - outer_index,
    {
        let ghost before = checksum_blocks(msg@, outer_index as nat);
        let ghost block = block_at(msg@, outer_index as int);
        let mut inner_index: usize = 0;
        while inner_index < 16
            invariant
                inner_index <= 16,
                outer_index < blocks,
                blocks == msg@.len() / 16,
                msg@.len() <= usize::MAX,
                block == block_at(msg@, outer_index as int),
                (ChecksumState { sum: checksum@, last: l }) == checksum_block(
                    before,
                    block,
                    inner_index as nat,
                ),
            decreases 16 - inner_index,
        {
            let c = msg.get_inner((outer_index * 16) + inner_index);
            assert(c == block[inner_index as int]);
            checksum[inner_index] = checksum[inner_index] ^ PI_SUB[(c ^ l) as usize];
            l = checksum[inner_index];
            inner_index += 1;
        }
        outer_index += 1;
    }
    checksum
}

/// A padded message and its checksum, read as one sequence of bytes.
pub struct MsgWithChecksum<'msg> {
    pub msg_with_padding: MsgWithPadding<'msg>,
    pub checksum: [u8; 16],
}

impl<'msg> View for MsgWithChecksum<'msg> {
    type V = Seq<u8>;

    /// The padded message's bytes, then the 16 checksum bytes.
    open spec fn view(&self) -> Seq<u8> {
        self.msg_with_padding@ + self.checksum@
    }
}

impl<'msg> MsgWithChecksum<'msg> {
    /// Puts `checksum` behind `msg_with_padding`.
    pub fn new(msg_with_padding: MsgWithPadding<'msg>, checksum: [u8; 16]) -> (m: Self)
        ensures
            m.msg_with_padding == msg_with_padding,
            m.checksum == checksum,
            m@ == msg_with_padding@ + checksum@,
    {
        Self { msg_with_padding, checksum }
    }

    /// The number of bytes of padded message and checksum together, which
    /// has to fit a `usize`.
    pub fn len(&self) -> (n: usize)
        requires
            self@.len() <= usize::MAX,
        ensures
            n == self@.len(),
            n == self.msg_with_padding@.len() + 16,
    {
        self.msg_with_padding.len() + self.checksum.len()
    }

    /// The byte at `index`: that of the padded message where `index` falls
    /// within it, that of the checksum behind it. `index` is within the view,
    /// and the length of the padded message fits a `usize`.
    pub fn get_inner(&self, index: usize) -> (byte: u8)
        requires
            self.msg_with_padding@.len() <= usize::MAX,
            index < self@.len(),
        ensures
            byte == self@[index as int],
    {
        if index < self.msg_with_padding.len() {
            self.msg_with_padding.get_inner(index)
        } else {
            self.checksum[index - self.msg_with_padding.len()]
        }
    }
}

} // verus!
