//! Size accounting: how long an event claims to be inside an event body.
//!
//! The sizes come from untrusted input, so their sum must not wrap, and the
//! outer envelope puts a hard ceiling on the length of an event body.

use saturating::Saturating;
use vstd::prelude::*;

use crate::consts::MAX_EVENT_BODY_LEN;

verus! {

/// The sum of two sizes, held at `usize::MAX` where it would not fit.
///
/// Makes the sum with `+=` on `saturating::Saturating<usize>`, which that
/// crate defines as `usize::saturating_add` of the two wrapped values. The
/// contract states what that operation is documented to return; it is
/// taken on trust.
#[verifier::external_body]
fn saturating_sum(a: usize, b: usize) -> (r: usize)
    ensures
        r == if a + b > usize::MAX {
            usize::MAX as int
        } else {
            a + b
        },
{
    let mut total = Saturating(a);
    total += Saturating(b);
    total.0
}

/// The length of an event with a header of `header_size` bytes and a payload
/// of `payload_len` bytes: their sum, but never more than an event body can
/// hold.
pub open spec fn spec_encoded_length(header_size: nat, payload_len: nat) -> nat {
    if header_size + payload_len > MAX_EVENT_BODY_LEN {
        MAX_EVENT_BODY_LEN as nat
    } else {
        header_size + payload_len
    }
}

/// The length of an event with a header of `header_size` bytes and a payload
/// of `payload_len` bytes. The sum saturates instead of wrapping and is then
/// clamped to the largest event body.
pub fn encoded_length(header_size: usize, payload_len: usize) -> (r: usize)
    ensures
        r == spec_encoded_length(header_size as nat, payload_len as nat),
        r <= MAX_EVENT_BODY_LEN,
{
    let total = saturating_sum(header_size, payload_len);
    if total < MAX_EVENT_BODY_LEN {
        total
    } else {
        MAX_EVENT_BODY_LEN
    }
}

} // verus!
