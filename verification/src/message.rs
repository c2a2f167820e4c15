//! The short text that a redraw shows: a fixed label followed by the
//! counter in decimal, held in a buffer of fixed size.

use vstd::prelude::*;
use vstd::slice::slice_subrange;

verus! {

/// Number of bytes that a [`Message`] can hold.
pub const MESSAGE_CAPACITY: usize = 13;

/// Number of bytes of the label.
pub const LABEL_LEN: usize = 7;

/// Largest counter whose text fits into a [`Message`].
pub const MAX_COUNTER: u32 = 999_999;

/// The label that stands before the counter: the ASCII bytes of `YEEHAW`
/// and one space.
pub open spec fn label() -> Seq<u8> {
    seq![0x59u8, 0x45u8, 0x45u8, 0x48u8, 0x41u8, 0x57u8, 0x20u8]
}

/// The ASCII digits of `n` in base ten, most significant first, without
/// leading zeros.
pub open spec fn decimal(n: nat) -> Seq<u8>
    decreases n,
{
    if n < 10 {
        seq![(0x30 + n) as u8]
    } else {
        decimal(n / 10).push((0x30 + n % 10) as u8)
    }
}

/// The text for counter value `n`: the label, then `n` in decimal.
pub open spec fn counter_text(n: u32) -> Seq<u8> {
    label() + decimal(n as nat)
}

/// A text of at most [`MESSAGE_CAPACITY`] bytes in a buffer of that size.
#[derive(Clone, Copy, Debug, PartialEq, Eq)]
pub struct Message {
    buffer: [u8; 13],
    used: usize,
}

impl View for Message {
    type V = Seq<u8>;

    closed spec fn view(&self) -> Seq<u8> {
        self.buffer@.take(self.used as int)
    }
}

/// A number has as many digits as its tenth, and one more.
pub proof fn lemma_decimal_len(n: nat)
    ensures
        decimal(n).len() == if n < 10 {
            1
        } else {
            decimal(n / 10).len() + 1
        },
        decimal(n).len() >= 1,
{
}

/// The text of a counter fits into a message exactly up to
/// [`MAX_COUNTER`].
pub proof fn lemma_counter_text_fits(n: u32)
    ensures
        counter_text(n).len() <= MESSAGE_CAPACITY <==> n <= MAX_COUNTER,
        counter_text(n).len() == LABEL_LEN + decimal(n as nat).len(),
{
    let n = n as nat;
    reveal_with_fuel(decimal, 8);
    if n < 10 {
    } else if n < 100 {
    } else if n < 1_000 {
    } else if n < 10_000 {
    } else if n < 100_000 {
    } else if n < 1_000_000 {
    } else {
        lemma_decimal_len(n / 1_000_000);
    }
}

impl Message {
    #[verifier::type_invariant]
    spec fn inv(self) -> bool {
        &&& self.used <= MESSAGE_CAPACITY
        &&& forall|i: int| self.used <= i < MESSAGE_CAPACITY ==> self.buffer@[i] == 0
    }

    /// The message for counter value `n`, or nothing when its text is
    /// longer than [`MESSAGE_CAPACITY`] bytes, which is so exactly for
    /// `n` above [`MAX_COUNTER`].
    pub fn for_counter(n: u32) -> (made: Option<Message>)
        ensures
            made is Some <==> counter_text(n).len() <= MESSAGE_CAPACITY,
            made is Some <==> n <= MAX_COUNTER,
            made matches Some(message) ==> message@ == counter_text(n),
    {
        proof {
            lemma_counter_text_fits(n);
            lemma_decimal_bound(n);
        }
        let mut digits: usize = 1;
        let mut rest: u32 = n;
        while rest >= 10
            invariant
                1 <= digits <= 10,
                decimal(n as nat).len() == decimal(rest as nat).len() + digits - 1,
                digits + decimal(rest as nat).len() <= 11,
            decreases rest,
        {
            proof {
                lemma_decimal_len(rest as nat);
                lemma_decimal_len(rest as nat / 10);
            }
            rest = rest / 10;
            digits = digits + 1;
        }
        if digits > MESSAGE_CAPACITY - LABEL_LEN {
            return None;
        }
        let mut buffer: [u8; 13] = [0u8; 13];
        buffer[0] = 0x59;
        buffer[1] = 0x45;
        buffer[2] = 0x45;
        buffer[3] = 0x48;
        buffer[4] = 0x41;
        buffer[5] = 0x57;
        buffer[6] = 0x20;
        let used: usize = LABEL_LEN + digits;
        let mut at: usize = used;
        let mut value: u32 = n;
        assert(decimal(n as nat) =~= decimal(value as nat) + buffer@.subrange(
            at as int,
            used as int,
        ));
        while value >= 10
            invariant
                used == LABEL_LEN + digits,
                used <= MESSAGE_CAPACITY,
                LABEL_LEN < at <= used,
                at - LABEL_LEN == decimal(value as nat).len(),
                decimal(n as nat) == decimal(value as nat) + buffer@.subrange(
                    at as int,
                    used as int,
                ),
                buffer@.take(LABEL_LEN as int) == label(),
                forall|i: int| used <= i < MESSAGE_CAPACITY ==> buffer@[i] == 0,
            decreases value,
        {
            let ghost tail = buffer@.subrange(at as int, used as int);
            proof {
                lemma_decimal_len(value as nat);
            }
            at = at - 1;
            let digit = 0x30 + (value % 10) as u8;
            buffer[at] = digit;
            assert(buffer@.subrange(at as int, used as int) =~= seq![digit] + tail);
            assert(decimal(value as nat) == decimal(value as nat / 10).push(digit));
            assert(decimal(value as nat / 10).push(digit) + tail =~= decimal(value as nat / 10) + (
            seq![digit] + tail));
            value = value / 10;
            assert(buffer@.take(LABEL_LEN as int) =~= label());
        }
        let ghost tail = buffer@.subrange(at as int, used as int);
        at = at - 1;
        let digit = 0x30 + value as u8;
        buffer[at] = digit;
        assert(at == LABEL_LEN);
        assert(buffer@.subrange(at as int, used as int) =~= seq![digit] + tail);
        assert(decimal(value as nat) =~= seq![digit]);
        assert(buffer@.take(LABEL_LEN as int) =~= label());
        assert(buffer@.take(used as int) =~= label() + decimal(n as nat));
        Some(Message { buffer, used })
    }

    /// Number of bytes of the text.
    pub fn len(&self) -> (len: usize)
        ensures
            len == self@.len(),
            len <= MESSAGE_CAPACITY,
    {
        proof {
            use_type_invariant(self);
        }
        self.used
    }

    /// The bytes of the text.
    pub fn as_bytes(&self) -> (bytes: &[u8])
        ensures
            bytes@ == self@,
    {
        proof {
            use_type_invariant(self);
        }
        slice_subrange(self.buffer.as_slice(), 0, self.used)
    }
}

/// A `u32` has at most ten decimal digits.
proof fn lemma_decimal_bound(n: u32)
    ensures
        decimal(n as nat).len() <= 10,
{
    reveal_with_fuel(decimal, 11);
}

} // verus!
