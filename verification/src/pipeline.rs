//! Per-iteration decisions of the acquisition loop.
//!
//! On each hardware interrupt the loop reads the live configuration and the
//! hardware registers, derives the scale factor, drains the available raw
//! buffers, decodes each one, and publishes the result only while at least
//! one subscriber is listening.  The decisions — whether a buffer is decoded
//! at all, what each payload holds, and how the scale factor depends on the
//! configuration — are verified here; the interrupt wait and the transport
//! live outside the verified core.

use vstd::arithmetic::div_mod::lemma_div_is_ordered_by_denominator;
use vstd::arithmetic::mul::lemma_mul_inequality;
use vstd::arithmetic::power2::{lemma_pow2_strictly_increases, pow2};
use vstd::bits::lemma_u32_shl_is_mul;
use vstd::prelude::*;

use crate::decoder::{decode_magnitudes, magnitudes_spec};

verus! {

/// Numerator of the scale factor, chosen so that typical magnitudes land in a
/// convenient positive range after later client-side log-scaling.
pub const BASE_SCALE_NUMERATOR: u64 = 4_000_000;

/// Decodes one raw buffer if anyone is listening: with at least one
/// subscriber the result holds the buffer's magnitudes in word order, with
/// none the buffer is dropped and no payload is built.
pub fn process_buffer(buffer: &Vec<u64>, receivers: usize) -> (r: Option<Vec<u64>>)
    ensures
        match r {
            Some(m) => receivers > 0 && m@ == magnitudes_spec(buffer@),
            None => receivers == 0,
        },
{
    if receivers > 0 {
        Some(decode_magnitudes(buffer))
    } else {
        None
    }
}

/// Processes one interrupt's batch of buffers for a fixed subscriber count:
/// with no subscriber nothing is produced; otherwise exactly one payload of
/// magnitudes per buffer, in arrival order.
pub fn process_batch(buffers: &Vec<Vec<u64>>, receivers: usize) -> (r: Vec<Vec<u64>>)
    ensures
        receivers == 0 ==> r@.len() == 0,
        receivers > 0 ==> r@.len() == buffers@.len(),
        receivers > 0 ==> forall|k: int|
            0 <= k < buffers@.len() ==> #[trigger] r@[k]@ == magnitudes_spec(buffers@[k]@),
{
    let mut r: Vec<Vec<u64>> = Vec::new();
    if receivers == 0 {
        return r;
    }
    let mut j: usize = 0;
    while j < buffers.len()
        invariant
            j <= buffers@.len(),
            r@.len() == j,
            forall|k: int| 0 <= k < j ==> #[trigger] r@[k]@ == magnitudes_spec(buffers@[k]@),
        decreases buffers@.len() - j,
    {
        r.push(decode_magnitudes(&buffers[j]));
        j = j + 1;
    }
    r
}

/// The number of non-coherent integrations configured by an integration
/// exponent: two to that exponent.
pub fn num_integrations(integrations_exp: u32) -> (n: u32)
    requires
        integrations_exp < 32,
    ensures
        n == pow2(integrations_exp as nat),
        n >= 1,
{
    proof {
        vstd::bits::lemma_u32_pow2_no_overflow(integrations_exp as nat);
        lemma_u32_shl_is_mul(1u32, integrations_exp);
        vstd::arithmetic::power2::lemma_pow2_pos(integrations_exp as nat);
    }
    1u32 << integrations_exp
}

/// Denominator of the scale factor: the number of integrations times the
/// sample rate.
pub open spec fn scale_denominator(integrations_exp: nat, samp_rate: nat) -> nat {
    pow2(integrations_exp) * samp_rate
}

/// Law: the scale factor is antitone in the integration exponent and in the
/// sample rate.  The scale is a fixed numerator divided by the number of
/// integrations times the sample rate; raising either input can only grow
/// that denominator, and the exact quotient of any numerator by a larger
/// positive denominator is never larger.  (The rounding of the quotient to a
/// single-precision value happens outside the verified core.)
pub proof fn lemma_scale_antitone(numerator: nat, e1: nat, r1: nat, e2: nat, r2: nat)
    requires
        e1 <= e2,
        0 < r1 <= r2,
    ensures
        scale_denominator(e1, r1) <= scale_denominator(e2, r2),
        numerator as int / scale_denominator(e1, r1) as int
            >= numerator as int / scale_denominator(e2, r2) as int,
{
    if e1 < e2 {
        lemma_pow2_strictly_increases(e1, e2);
    }
    lemma_mul_inequality(pow2(e1) as int, pow2(e2) as int, r1 as int);
    lemma_mul_inequality(r1 as int, r2 as int, pow2(e2) as int);
    assert(pow2(e2) * r1 == r1 * pow2(e2));
    assert(pow2(e2) * r2 == r2 * pow2(e2));
    assert(pow2(e1) >= 1) by {
        vstd::arithmetic::power2::lemma_pow2_pos(e1);
    }
    assert(scale_denominator(e1, r1) >= 1) by (nonlinear_arith)
        requires
            pow2(e1) >= 1,
            r1 >= 1,
            scale_denominator(e1, r1) == pow2(e1) * r1,
    ;
    lemma_div_is_ordered_by_denominator(
        numerator as int,
        scale_denominator(e1, r1) as int,
        scale_denominator(e2, r2) as int,
    );
}

} // verus!
