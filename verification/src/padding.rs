//! Padding of a message to a whole number of 16-byte blocks.
//!
//! Every padding byte holds the number of padding bytes, so the padding is
//! kept as that one number and the padded message is read through a view over
//! the caller's bytes; nothing is copied.

use vstd::prelude::*;

verus! {

/// Number of padding bytes that a message of `len` bytes gets: what is
/// missing to the next multiple of 16, and a full block of 16 where `len`
/// already is a multiple of 16.
pub open spec fn padding_amount(len: nat) -> nat {
    (16 - len % 16) as nat
}

/// `amount` bytes, each of value `amount`.
pub open spec fn padding_bytes(amount: nat) -> Seq<u8> {
    Seq::new(amount, |i: int| amount as u8)
}

/// The message followed by its padding.
pub open spec fn padded(msg: Seq<u8>) -> Seq<u8> {
    msg + padding_bytes(padding_amount(msg.len()))
}

/// The padding amount is 16 for a length that is a multiple of 16 and
/// `16 - len % 16` for any other; it is never 0, and it fills the message up
/// to a multiple of 16.
pub proof fn lemma_padding_amount(len: nat)
    ensures
        len % 16 == 0 ==> padding_amount(len) == 16,
        len % 16 != 0 ==> padding_amount(len) == 16 - len % 16,
        1 <= padding_amount(len) <= 16,
        (len + padding_amount(len)) % 16 == 0,
{
}

/// A padded message is a positive whole number of blocks, starts with the
/// message, and every byte behind the message holds the padding amount.
pub proof fn lemma_padded(msg: Seq<u8>)
    ensures
        padded(msg).len() == msg.len() + padding_amount(msg.len()),
        padded(msg).len() % 16 == 0,
        padded(msg).len() >= 16,
        forall|i: int| 0 <= i < msg.len() ==> padded(msg)[i] == msg[i],
        forall|i: int|
            msg.len() <= i < padded(msg).len() ==> padded(msg)[i] == padding_amount(msg.len()),
{
    lemma_padding_amount(msg.len());
}

/// The padding amount, 1 to 16. `Zero` stands for a full block of 16: some
/// padding is always applied.
#[derive(Clone, Copy)]
pub enum Padding {
    Zero,
    One,
    Two,
    Three,
    Four,
    Five,
    Six,
    Seven,
    Eight,
    Nine,
    Ten,
    Eleven,
    Twelve,
    Thirteen,
    Fourteen,
    Fifteen,
}

impl Padding {
    /// The amount that the variant stands for.
    pub open spec fn spec_len(self) -> usize {
        match self {
            Self::Zero => 16,
            Self::One => 1,
            Self::Two => 2,
            Self::Three => 3,
            Self::Four => 4,
            Self::Five => 5,
            Self::Six => 6,
            Self::Seven => 7,
            Self::Eight => 8,
            Self::Nine => 9,
            Self::Ten => 10,
            Self::Eleven => 11,
            Self::Twelve => 12,
            Self::Thirteen => 13,
            Self::Fourteen => 14,
            Self::Fifteen => 15,
        }
    }

    /// The padding for a message of `input` bytes.
    pub fn new(input: usize) -> (padding: Self)
        ensures
            padding.len() == padding_amount(input as nat),
            input % 16 == 0 ==> padding.len() == 16,
            input % 16 != 0 ==> padding.len() == 16 - input % 16,
            1 <= padding.len() <= 16,
            (input + padding.len()) % 16 == 0,
    {
        let amount: usize = 16 - input % 16;
        match amount {
            1 => Self::One,
            2 => Self::Two,
            3 => Self::Three,
            4 => Self::Four,
            5 => Self::Five,
            6 => Self::Six,
            7 => Self::Seven,
            8 => Self::Eight,
            9 => Self::Nine,
            10 => Self::Ten,
            11 => Self::Eleven,
            12 => Self::Twelve,
            13 => Self::Thirteen,
            14 => Self::Fourteen,
            15 => Self::Fifteen,
            _ => Self::Zero,
        }
    }

    /// The number of padding bytes, which is also the value of each of them.
    #[verifier::when_used_as_spec(spec_len)]
    pub fn len(self) -> (amount: usize)
        ensures
            amount == self.spec_len(),
            1 <= amount <= 16,
    {
        match self {
            Self::Zero => 16,
            Self::One => 1,
            Self::Two => 2,
            Self::Three => 3,
            Self::Four => 4,
            Self::Five => 5,
            Self::Six => 6,
            Self::Seven => 7,
            Self::Eight => 8,
            Self::Nine => 9,
            Self::Ten => 10,
            Self::Eleven => 11,
            Self::Twelve => 12,
            Self::Thirteen => 13,
            Self::Fourteen => 14,
            Self::Fifteen => 15,
        }
    }

    /// Two paddings of the same amount are the same padding, so the amount
    /// that `new` promises names one variant.
    pub proof fn lemma_len_is_injective(self, other: Self)
        requires
            self.len() == other.len(),
        ensures
            self == other,
    {
    }
}

/// A message and its padding, read as one sequence of bytes.
#[derive(Clone, Copy)]
pub struct MsgWithPadding<'msg> {
    pub msg: &'msg [u8],
    pub padding: Padding,
}

impl<'msg> View for MsgWithPadding<'msg> {
    type V = Seq<u8>;

    /// The message's bytes, then the padding bytes.
    open spec fn view(&self) -> Seq<u8> {
        self.msg@ + padding_bytes(self.padding.len() as nat)
    }
}

impl<'msg> MsgWithPadding<'msg> {
    /// Whether the padding is the one that the message's length calls for.
    pub open spec fn is_padded(&self) -> bool {
        self.padding.len() == padding_amount(self.msg@.len())
    }

    /// Puts `padding` behind `msg`.
    pub fn new(msg: &'msg [u8], padding: Padding) -> (m: Self)
        ensures
            m.msg@ == msg@,
            m.padding == padding,
            m@ == msg@ + padding_bytes(padding.len() as nat),
    {
        Self { msg, padding }
    }

    /// The number of bytes of message and padding together, which has to fit
    /// a `usize`.
    pub fn len(&self) -> (n: usize)
        requires
            self@.len() <= usize::MAX,
        ensures
            n == self@.len(),
            n == self.msg@.len() + self.padding.len(),
    {
        self.msg.len() + self.padding.len()
    }

    /// The byte at `index`, which is within the view: the message's byte
    /// where `index` falls within the message, the padding value behind it.
    pub fn get_inner(&self, index: usize) -> (byte: u8)
        requires
            index < self@.len(),
        ensures
            byte == self@[index as int],
            index < self.msg@.len() ==> byte == self.msg@[index as int],
            index >= self.msg@.len() ==> byte == self.padding.len(),
    {
        if index >= self.msg.len() {
            self.padding.len() as u8
        } else {
            self.msg[index]
        }
    }

    /// With the padding that its length calls for, the view is the padded
    /// message: a positive whole number of blocks.
    pub proof fn lemma_is_padded(&self)
        requires
            self.is_padded(),
        ensures
            self@ == padded(self.msg@),
            self@.len() % 16 == 0,
            self@.len() >= 16,
    {
        lemma_padded(self.msg@);
    }
}

} // verus!
