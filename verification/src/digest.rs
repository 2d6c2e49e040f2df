//! The compression pass over the padded message and its checksum, and the
//! digest that it leaves.

use vstd::prelude::*;

use crate::block::{block_at, zero_block};
use crate::checksum::{checksum, checksum_of, lemma_checksum_blocks_len, MsgWithChecksum};
use crate::hex::{hex_string, to_hex};
use crate::padding::{lemma_padded, padded, MsgWithPadding, Padding};
use crate::sbox::{pi_sub, PI_SUB};

verus! {

/// The 48-byte working buffer and the byte that runs through the rounds.
pub struct RoundState {
    pub buffer: Seq<u8>,
    pub t: u8,
}

/// The working buffer at the start of a block: the digest state so far, then
/// the block, then the xor of the two.
pub open spec fn load_block(state: Seq<u8>, block: Seq<u8>) -> Seq<u8> {
    Seq::new(
        48,
        |i: int|
            if i < 16 {
                state[i]
            } else if i < 32 {
                block[i - 16]
            } else {
                block[i - 32] ^ state[i - 32]
            },
    )
}

/// One position of a round: the buffer byte at `j` is xor-ed with the table
/// entry at `t`, and the result is both written back and the new `t`.
pub open spec fn round_step(st: RoundState, j: int) -> RoundState {
    let t = st.buffer[j] ^ pi_sub(st.t);
    RoundState { buffer: st.buffer.update(j, t), t }
}

/// The state after positions `0 .. n` of a round, in this order.
pub open spec fn round_prefix(st: RoundState, n: nat) -> RoundState
    decreases n,
{
    if n == 0 {
        st
    } else {
        round_step(round_prefix(st, (n - 1) as nat), n - 1)
    }
}

/// The state after `r` rounds on `buffer`. `t` starts at 0; each round runs
/// over all 48 positions and then adds its own number to `t`, modulo 256.
pub open spec fn rounds(buffer: Seq<u8>, r: nat) -> RoundState
    decreases r,
{
    if r == 0 {
        RoundState { buffer, t: 0 }
    } else {
        let done = round_prefix(rounds(buffer, (r - 1) as nat), 48);
        RoundState { buffer: done.buffer, t: ((done.t + (r - 1)) % 256) as u8 }
    }
}

/// The digest state after `block` was worked into `state`: the first 16
/// bytes of the buffer after 18 rounds.
pub open spec fn compress(state: Seq<u8>, block: Seq<u8>) -> Seq<u8> {
    rounds(load_block(state, block), 18).buffer.subrange(0, 16)
}

/// The digest state after the first `n` blocks of `data`, from a zero state.
pub open spec fn compress_blocks(data: Seq<u8>, n: nat) -> Seq<u8>
    decreases n,
{
    if n == 0 {
        zero_block()
    } else {
        compress(compress_blocks(data, (n - 1) as nat), block_at(data, n - 1))
    }
}

/// What the compression pass reads: the padded message, then its checksum.
pub open spec fn with_checksum(msg: Seq<u8>) -> Seq<u8> {
    padded(msg) + checksum_of(padded(msg))
}

/// The MD2 digest of `msg`.
pub open spec fn md2(msg: Seq<u8>) -> Seq<u8> {
    let data = with_checksum(msg);
    compress_blocks(data, data.len() / 16)
}

/// A round over positions that the buffer has keeps its length.
pub proof fn lemma_round_prefix_len(st: RoundState, n: nat)
    requires
        n <= st.buffer.len(),
    ensures
        round_prefix(st, n).buffer.len() == st.buffer.len(),
    decreases n,
{
    if n > 0 {
        lemma_round_prefix_len(st, (n - 1) as nat);
    }
}

/// Rounds on a buffer of 48 bytes leave a buffer of 48 bytes.
pub proof fn lemma_rounds_len(buffer: Seq<u8>, r: nat)
    requires
        buffer.len() == 48,
    ensures
        rounds(buffer, r).buffer.len() == 48,
    decreases r,
{
    if r > 0 {
        lemma_rounds_len(buffer, (r - 1) as nat);
        lemma_round_prefix_len(rounds(buffer, (r - 1) as nat), 48);
    }
}

/// The digest state has 16 bytes after any number of blocks.
pub proof fn lemma_compress_blocks_len(data: Seq<u8>, n: nat)
    ensures
        compress_blocks(data, n).len() == 16,
    decreases n,
{
    if n > 0 {
        lemma_rounds_len(
            load_block(compress_blocks(data, (n - 1) as nat), block_at(data, n - 1)),
            18,
        );
    }
}

/// The padded message with its checksum is the padded message and 16 bytes
/// more: a whole number of blocks, and at least two.
pub proof fn lemma_with_checksum(msg: Seq<u8>)
    ensures
        with_checksum(msg).len() == padded(msg).len() + 16,
        with_checksum(msg).len() % 16 == 0,
        with_checksum(msg).len() >= 32,
{
    lemma_padded(msg);
    lemma_checksum_blocks_len(padded(msg), padded(msg).len() / 16);
}

/// The digest of any message has exactly 16 bytes.
pub proof fn lemma_md2_len(msg: Seq<u8>)
    ensures
        md2(msg).len() == 16,
{
    lemma_compress_blocks_len(with_checksum(msg), with_checksum(msg).len() / 16);
}

/// Computes the MD2 digest of `input`.
///
/// The padded message and its checksum are read by a `usize` index, so they
/// have to fit one: the input may be up to `usize::MAX - 32` bytes long.
pub fn make_md2(input: &[u8]) -> (digest: [u8; 16])
    requires
        input@.len() + 32 <= usize::MAX,
    ensures
        digest@ == md2(input@),
        digest@.len() == 16,
{
    let msg_with_padding = MsgWithPadding::new(input, Padding::new(input.len()));
    proof {
        lemma_padded(input@);
        lemma_checksum_blocks_len(padded(input@), padded(input@).len() / 16);
    }
    let checksum = checksum(msg_with_padding);
    let msg = MsgWithChecksum::new(msg_with_padding, checksum);
    assert(msg@ == with_checksum(input@));
    let blocks: usize = msg.len() / 16;
    let mut buffer: [u8; 48] = [0; 48];
    let mut outer_index: usize = 0;
    assert(buffer@.subrange(0, 16) =~= zero_block());
    while outer_index < blocks
        invariant
            outer_index <= blocks,
            blocks == msg@.len() / 16,
            msg@.len() <= usize::MAX,
            buffer@.subrange(0, 16) == compress_blocks(msg@, outer_index as nat),
        decreases blocks - outer_index,
    {
        let ghost state = compress_blocks(msg@, outer_index as nat);
        let ghost block = block_at(msg@, outer_index as int);
        let mut inner_index: usize = 0;
        while inner_index < 16
            invariant
                inner_index <= 16,
                outer_index < blocks,
                blocks == msg@.len() / 16,
                msg@.len() <= usize::MAX,
                block == block_at(msg@, outer_index as int),
                buffer@.subrange(0, 16) == state,
                forall|j: int| 0 <= j < inner_index ==> buffer@[16 + j] == block[j],
                forall|j: int| 0 <= j < inner_index ==> buffer@[32 + j] == block[j] ^ state[j],
            decreases 16 - inner_index,
        {
            buffer[16 + inner_index] = msg.get_inner((outer_index * 16) + inner_index);
            buffer[32 + inner_index] = buffer[16 + inner_index] ^ buffer[inner_index];
            inner_index += 1;
        }
        let ghost loaded = buffer@;
        assert(loaded =~= load_block(state, block));
        let mut t: u8 = 0;
        inner_index = 0;
        while inner_index < 18
            invariant
                inner_index <= 18,
                (RoundState { buffer: buffer@, t }) == rounds(loaded, inner_index as nat),
            decreases 18 - inner_index,
        {
            let ghost start = RoundState { buffer: buffer@, t };
            let mut innermost_index: usize = 0;
            while innermost_index < 48
                invariant
                    innermost_index <= 48,
                    (RoundState { buffer: buffer@, t }) == round_prefix(
                        start,
                        innermost_index as nat,
                    ),
                decreases 48 - innermost_index,
            {
                t = buffer[innermost_index] ^ PI_SUB[t as usize];
                buffer[innermost_index] = t;
                innermost_index += 1;
            }
            t = t.wrapping_add(inner_index as u8);
            inner_index += 1;
        }
        outer_index += 1;
    }
    let mut digest: [u8; 16] = [0; 16];
    outer_index = 0;
    while outer_index < 16
        invariant
            outer_index <= 16,
            forall|j: int| 0 <= j < outer_index ==> digest@[j] == buffer@[j],
        decreases 16 - outer_index,
    {
        digest[outer_index] = buffer[outer_index];
        outer_index += 1;
    }
    assert(digest@ =~= buffer@.subrange(0, 16));
    digest
}

/// The md2 digest created from a slice of bytes.
pub struct MD2Digest([u8; 16]);

impl View for MD2Digest {
    type V = Seq<u8>;

    /// The 16 bytes of the digest.
    closed spec fn view(&self) -> Seq<u8> {
        self.0@
    }
}

impl MD2Digest {
    /// Generate a new [`MD2Digest`] from a slice of bytes.
    ///
    /// The input may be up to `usize::MAX - 32` bytes long, as for
    /// [`make_md2`].
    #[must_use]
    pub fn new(input: &[u8]) -> (digest: Self)
        requires
            input@.len() + 32 <= usize::MAX,
        ensures
            digest@ == md2(input@),
            digest@.len() == 16,
    {
        Self(make_md2(input))
    }

    /// Returns the bytes of the digest in an array.
    #[must_use]
    pub fn bytes(&self) -> (bytes: [u8; 16])
        ensures
            bytes@ == self@,
    {
        self.0
    }

    /// Returns the digest as 32 lower-case hex digits.
    #[must_use]
    pub fn to_hex(&self) -> (hex: String)
        ensures
            hex@ == hex_string(self@),
            hex@.len() == 32,
    {
        to_hex(self.0.as_slice())
    }

    /// Every digest has exactly 16 bytes.
    pub proof fn lemma_len(&self)
        ensures
            self@.len() == 16,
    {
    }

    /// A message has one digest: whatever is the digest of the same bytes is
    /// the same value.
    pub proof fn lemma_same_bytes_same_digest(&self, other: &Self, msg: Seq<u8>, other_msg: Seq<u8>)
        requires
            msg == other_msg,
            self@ == md2(msg),
            other@ == md2(other_msg),
        ensures
            self@ == other@,
            *self == *other,
    {
        assert(self.0 =~= other.0);
    }
}

} // verus!
