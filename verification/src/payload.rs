//! Serialisation of decoded bins into the published payload.
//!
//! A published payload is one 4-byte little-endian IEEE-754 single-precision
//! value per spectral bin, concatenated in bin order, with no header and no
//! length prefix.  The verified code works on the 32-bit bit patterns of the
//! values; the payload is handed to the transport as a [`bytes::Bytes`].

use vstd::prelude::*;

verus! {

/// Byte `k` (0 = least significant) of the little-endian serialisation of a
/// 32-bit bin.
pub open spec fn bin_byte(w: u32, k: int) -> u8 {
    if k == 0 {
        (w & 0xff) as u8
    } else if k == 1 {
        ((w >> 8) & 0xff) as u8
    } else if k == 2 {
        ((w >> 16) & 0xff) as u8
    } else {
        ((w >> 24) & 0xff) as u8
    }
}

/// The payload bytes of a sequence of bins: four little-endian bytes per bin,
/// in bin order.
pub open spec fn payload_bytes(bins: Seq<u32>) -> Seq<u8> {
    Seq::new((bins.len() * 4) as nat, |i: int| bin_byte(bins[i / 4], i % 4))
}

/// Serialises a sequence of 32-bit bins to the payload byte layout: exactly
/// four bytes per bin, little-endian, in bin order.
pub fn serialize_bins(bins: &Vec<u32>) -> (r: Vec<u8>)
    ensures
        r@ == payload_bytes(bins@),
        r@.len() == 4 * bins@.len(),
{
    let mut r: Vec<u8> = Vec::new();
    let mut j: usize = 0;
    while j < bins.len()
        invariant
            j <= bins@.len(),
            r@.len() == 4 * j,
            forall|i: int| 0 <= i < r@.len() ==> r@[i] == bin_byte(bins@[i / 4], i % 4),
        decreases bins@.len() - j,
    {
        let w = bins[j];
        proof {
            assert((4 * j) / 4 == j && (4 * j) % 4 == 0) by (nonlinear_arith);
            assert((4 * j + 1) / 4 == j && (4 * j + 1) % 4 == 1) by (nonlinear_arith);
            assert((4 * j + 2) / 4 == j && (4 * j + 2) % 4 == 2) by (nonlinear_arith);
            assert((4 * j + 3) / 4 == j && (4 * j + 3) % 4 == 3) by (nonlinear_arith);
        }
        r.push((w & 0xff) as u8);
        r.push(((w >> 8) & 0xff) as u8);
        r.push(((w >> 16) & 0xff) as u8);
        r.push(((w >> 24) & 0xff) as u8);
        j = j + 1;
    }
    proof {
        assert(r@ =~= payload_bytes(bins@));
    }
    r
}

/// Law: the payload of a decoded buffer holds exactly four bytes per raw
/// word, for every buffer length including zero.  Decoding yields one
/// magnitude per word, the conversion to single-precision bins is one bin per
/// magnitude, and serialisation is four bytes per bin.
pub proof fn lemma_payload_length(buffer: Seq<u64>, bins: Seq<u32>)
    requires
        bins.len() == crate::decoder::magnitudes_spec(buffer).len(),
    ensures
        payload_bytes(bins).len() == 4 * buffer.len(),
{
}

/// Declares the outside type [`bytes::Bytes`], the transport's payload
/// container, so that verified code can hand payloads out; its contents are
/// reached only through [`bytes_of`].
#[verifier::external_type_specification]
#[verifier::external_body]
pub struct ExBytes(bytes::Bytes);

/// The bytes that a [`bytes::Bytes`] value holds, in order.
pub uninterp spec fn bytes_of(b: bytes::Bytes) -> Seq<u8>;

/// Relies on `bytes::Bytes::from(Vec<u8>)`: the resulting `Bytes` holds
/// exactly the vector's bytes, in order.
#[verifier::external_body]
fn bytes_from_vec(v: Vec<u8>) -> (b: bytes::Bytes)
    ensures
        bytes_of(b) == v@,
{
    bytes::Bytes::from(v)
}

/// Builds the publishable payload of a sequence of bins: a [`bytes::Bytes`]
/// holding four little-endian bytes per bin, in bin order.
pub fn encode_payload(bins: &Vec<u32>) -> (b: bytes::Bytes)
    ensures
        bytes_of(b) == payload_bytes(bins@),
        bytes_of(b).len() == 4 * bins@.len(),
{
    let r = serialize_bins(bins);
    bytes_from_vec(r)
}

} // verus!
