//! Messages for the error output: what the adapter prints when it cannot go
//! on.

use vstd::prelude::*;
use crate::capability::HostCall;

verus! {

/// The byte `0`.
pub const DIGIT_ZERO: u8 = 48;

/// The byte of a line feed.
pub const LINE_FEED: u8 = 10;

/// The operation that prints the `buf_len` bytes at the address `buf` to the
/// error output.
pub fn print(buf: usize, buf_len: usize) -> (r: HostCall)
    ensures
        r == (HostCall::PrintStderr { buf, buf_len }),
{
    HostCall::PrintStderr { buf, buf_len }
}

/// The decimal digits of `x`, most significant first, without leading zeros.
pub open spec fn spec_digits(x: nat) -> Seq<u8>
    decreases x,
{
    if x < 10 {
        seq![(DIGIT_ZERO + x) as u8]
    } else {
        spec_digits(x / 10) + seq![(DIGIT_ZERO + x % 10) as u8]
    }
}

fn push_digits(out: &mut Vec<u8>, x: u32)
    ensures
        final(out)@ == old(out)@ + spec_digits(x as nat),
    decreases x,
{
    if x >= 10 {
        push_digits(out, x / 10);
    }
    out.push(DIGIT_ZERO + (x % 10) as u8);
    assert(out@ =~= old(out)@ + spec_digits(x as nat));
}

/// Writes a number in decimal digits.
pub fn decimal_digits(x: u32) -> (r: Vec<u8>)
    ensures
        r@ == spec_digits(x as nat),
        1 <= r@.len(),
{
    let mut out: Vec<u8> = Vec::new();
    push_digits(&mut out, x);
    assert(out@ =~= spec_digits(x as nat));
    proof {
        lemma_digits_len(x as nat);
    }
    out
}

/// A number has at least one digit.
pub proof fn lemma_digits_len(x: nat)
    ensures
        spec_digits(x).len() >= 1,
    decreases x,
{
    if x >= 10 {
        lemma_digits_len(x / 10);
    }
}

/// The bytes of `unreachable executed at line `.
pub open spec fn spec_unreachable_prefix() -> Seq<u8> {
    seq![
        117u8, 110, 114, 101, 97, 99, 104, 97, 98, 108, 101, 32, 101, 120, 101, 99, 117, 116, 101,
        100, 32, 97, 116, 32, 108, 105, 110, 101, 32,
    ]
}

/// The message for a place in the adapter that should never be reached:
/// `unreachable executed at line `, the line in decimal digits, and a line
/// feed.
pub fn unreachable_message(line: u32) -> (r: Vec<u8>)
    ensures
        r@ == spec_unreachable_prefix() + spec_digits(line as nat) + seq![LINE_FEED],
{
    let mut out: Vec<u8> = vec![
        117u8, 110, 114, 101, 97, 99, 104, 97, 98, 108, 101, 32, 101, 120, 101, 99, 117, 116, 101,
        100, 32, 97, 116, 32, 108, 105, 110, 101, 32,
    ];
    assert(out@ =~= spec_unreachable_prefix());
    push_digits(&mut out, line);
    out.push(LINE_FEED);
    out
}

} // verus!
