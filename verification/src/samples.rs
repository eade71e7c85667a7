//! Conversion of captured driver formats into the canonical sample type,
//! and the explicit byte serialization used when samples leave the
//! process as a raw stream.

use vstd::prelude::*;
use crate::SampleType;

verus! {

/// The canonical sample for a 16-bit capture: its high-order byte.
pub open spec fn canonical_from_i16(x: i16) -> SampleType {
    (x >> 8) as i8
}

/// The canonical sample for a 32-bit capture: its high-order byte.
pub open spec fn canonical_from_i32(x: i32) -> SampleType {
    (x >> 24) as i8
}

/// The wire byte for one sample: its two's-complement byte, stated
/// without any bit reinterpretation.
pub open spec fn sample_byte(s: SampleType) -> u8 {
    if s >= 0 {
        s as u8
    } else {
        (s + 256) as u8
    }
}

/// The wire bytes for a whole chunk, sample for sample in order.
pub open spec fn chunk_bytes(s: Seq<SampleType>) -> Seq<u8> {
    s.map_values(|x: SampleType| sample_byte(x))
}

/// Converts one 16-bit driver buffer into canonical samples, value for
/// value in order.
pub fn chunk_from_i16(data: &Vec<i16>) -> (r: Vec<SampleType>)
    ensures
        r@.len() == data@.len(),
        forall|i: int| 0 <= i < data@.len() ==> r@[i] == canonical_from_i16(#[trigger] data@[i]),
{
    let mut r: Vec<SampleType> = Vec::new();
    let mut i: usize = 0;
    while i < data.len()
        invariant
            i <= data.len(),
            r@.len() == i,
            forall|j: int| 0 <= j < i ==> r@[j] == canonical_from_i16(#[trigger] data@[j]),
        decreases data.len() - i,
    {
        r.push((data[i] >> 8) as i8);
        i = i + 1;
    }
    r
}

/// Converts one 32-bit driver buffer into canonical samples, value for
/// value in order.
pub fn chunk_from_i32(data: &Vec<i32>) -> (r: Vec<SampleType>)
    ensures
        r@.len() == data@.len(),
        forall|i: int| 0 <= i < data@.len() ==> r@[i] == canonical_from_i32(#[trigger] data@[i]),
{
    let mut r: Vec<SampleType> = Vec::new();
    let mut i: usize = 0;
    while i < data.len()
        invariant
            i <= data.len(),
            r@.len() == i,
            forall|j: int| 0 <= j < i ==> r@[j] == canonical_from_i32(#[trigger] data@[j]),
        decreases data.len() - i,
    {
        r.push((data[i] >> 24) as i8);
        i = i + 1;
    }
    r
}

/// Serializes a chunk for the transcription wire: one two's-complement
/// byte per sample, in order, with no framing.
pub fn samples_to_bytes(samples: &Vec<SampleType>) -> (r: Vec<u8>)
    ensures
        r@ == chunk_bytes(samples@),
{
    let mut r: Vec<u8> = Vec::new();
    let mut i: usize = 0;
    while i < samples.len()
        invariant
            i <= samples.len(),
            r@.len() == i,
            forall|j: int| 0 <= j < i ==> r@[j] == sample_byte(#[trigger] samples@[j]),
        decreases samples.len() - i,
    {
        let s = samples[i];
        let b: u8 = if s >= 0 {
            s as u8
        } else {
            ((s as i16) + 256) as u8
        };
        r.push(b);
        i = i + 1;
    }
    proof {
        assert(r@ =~= chunk_bytes(samples@));
    }
    r
}

} // verus!
