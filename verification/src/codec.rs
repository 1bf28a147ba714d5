//! The frame-transfer wire layout: the fixed little-endian binary layout
//! used to hand a decoded or rendered unit to a caller without a text
//! encoding.
//!
//! A video response is `position : i64 | time : 8 bytes | stride : u64 |
//! length : u64 | payload`, an audio response is `position : i64 | time : 8
//! bytes | length : u64 | payload`, all little-endian, no padding. The
//! `time` field carries the IEEE-754 bits of `position` times the stream's
//! timebase in seconds; computing that product is floating-point work the
//! caller does, so the codec takes the eight bytes as a ready `u64` bit
//! pattern.

use vstd::prelude::*;

use vstd::bytes::{
    lemma_auto_spec_u32_to_from_le_bytes, lemma_auto_spec_u64_to_from_le_bytes,
    spec_u32_from_le_bytes, spec_u32_to_le_bytes, spec_u64_from_le_bytes, spec_u64_to_le_bytes,
    u32_to_le_bytes, u64_to_le_bytes,
};

verus! {

/// The encoded video render response: position, time bits, stride in
/// pixels, payload length in bytes, then the raw RGBA payload.
pub open spec fn video_transfer_bytes(
    position: i64,
    time_bits: u64,
    stride: u64,
    payload: Seq<u8>,
) -> Seq<u8> {
    spec_u64_to_le_bytes(position as u64) + spec_u64_to_le_bytes(time_bits)
        + spec_u64_to_le_bytes(stride) + spec_u64_to_le_bytes(payload.len() as u64) + payload
}

/// Each sample as its four little-endian bytes, in order.
pub open spec fn samples_le_bytes(samples: Seq<i32>) -> Seq<u8>
    decreases samples.len(),
{
    if samples.len() == 0 {
        Seq::empty()
    } else {
        samples_le_bytes(samples.drop_last()) + spec_u32_to_le_bytes(samples.last() as u32)
    }
}

/// The encoded audio render response: position, time bits, sample count,
/// then the samples, four bytes each.
pub open spec fn audio_transfer_bytes(position: i64, time_bits: u64, samples: Seq<i32>) -> Seq<
    u8,
> {
    spec_u64_to_le_bytes(position as u64) + spec_u64_to_le_bytes(time_bits) + spec_u64_to_le_bytes(
        samples.len() as u64,
    ) + samples_le_bytes(samples)
}

/// Encode a rendered video frame for transfer.
pub fn encode_video_transfer(position: i64, time_bits: u64, stride: u64, payload: &Vec<u8>) -> (r:
    Vec<u8>)
    ensures
        r@ == video_transfer_bytes(position, time_bits, stride, payload@),
        r@.len() == 32 + payload@.len(),
{
    proof {
        lemma_auto_spec_u64_to_from_le_bytes();
    }
    let mut out = u64_to_le_bytes(position as u64);
    let mut part = u64_to_le_bytes(time_bits);
    out.append(&mut part);
    let mut part = u64_to_le_bytes(stride);
    out.append(&mut part);
    let mut part = u64_to_le_bytes(payload.len() as u64);
    out.append(&mut part);
    let ghost header = out@;
    let mut i: usize = 0;
    while i < payload.len()
        invariant
            header == spec_u64_to_le_bytes(position as u64) + spec_u64_to_le_bytes(time_bits)
                + spec_u64_to_le_bytes(stride) + spec_u64_to_le_bytes(payload@.len() as u64),
            0 <= i <= payload@.len(),
            out@ == header + payload@.take(i as int),
        decreases payload@.len() - i,
    {
        let b = payload[i];
        out.push(b);
        proof {
            assert(out@ =~= header + payload@.take(i as int + 1));
        }
        i = i + 1;
    }
    proof {
        assert(payload@.take(payload@.len() as int) =~= payload@);
        lemma_auto_spec_u64_to_from_le_bytes();
    }
    out
}

/// Encode a decoded audio block for transfer.
pub fn encode_audio_transfer(position: i64, time_bits: u64, samples: &Vec<i32>) -> (r: Vec<u8>)
    ensures
        r@ == audio_transfer_bytes(position, time_bits, samples@),
{
    proof {
        lemma_auto_spec_u64_to_from_le_bytes();
    }
    let mut out = u64_to_le_bytes(position as u64);
    let mut part = u64_to_le_bytes(time_bits);
    out.append(&mut part);
    let mut part = u64_to_le_bytes(samples.len() as u64);
    out.append(&mut part);
    let ghost header = out@;
    proof {
        assert(samples_le_bytes(samples@.take(0)) =~= Seq::<u8>::empty());
        assert(out@ =~= header + samples_le_bytes(samples@.take(0)));
    }
    let mut i: usize = 0;
    while i < samples.len()
        invariant
            header == spec_u64_to_le_bytes(position as u64) + spec_u64_to_le_bytes(time_bits)
                + spec_u64_to_le_bytes(samples@.len() as u64),
            0 <= i <= samples@.len(),
            out@ == header + samples_le_bytes(samples@.take(i as int)),
        decreases samples@.len() - i,
    {
        let mut sample_bytes = u32_to_le_bytes(samples[i] as u32);
        out.append(&mut sample_bytes);
        proof {
            let t = samples@.take(i as int + 1);
            assert(t.drop_last() =~= samples@.take(i as int));
            assert(t.last() == samples@[i as int]);
            assert(out@ =~= header + samples_le_bytes(t));
        }
        i = i + 1;
    }
    proof {
        assert(samples@.take(samples@.len() as int) =~= samples@);
    }
    out
}

/// Round trip for the video layout: the encoded bytes determine position,
/// time bits, stride and the exact payload, so any decoder of the layout
/// reproduces them.
pub proof fn lemma_video_transfer_round_trip(
    p1: i64,
    t1: u64,
    s1: u64,
    pl1: Seq<u8>,
    p2: i64,
    t2: u64,
    s2: u64,
    pl2: Seq<u8>,
)
    requires
        video_transfer_bytes(p1, t1, s1, pl1) == video_transfer_bytes(p2, t2, s2, pl2),
    ensures
        p1 == p2,
        t1 == t2,
        s1 == s2,
        pl1 == pl2,
{
    lemma_auto_spec_u64_to_from_le_bytes();
    let d1 = video_transfer_bytes(p1, t1, s1, pl1);
    let d2 = video_transfer_bytes(p2, t2, s2, pl2);
    assert(d1.subrange(0, 8) =~= spec_u64_to_le_bytes(p1 as u64));
    assert(d2.subrange(0, 8) =~= spec_u64_to_le_bytes(p2 as u64));
    assert(p1 as u64 == spec_u64_from_le_bytes(d1.subrange(0, 8)));
    assert(p2 as u64 == spec_u64_from_le_bytes(d2.subrange(0, 8)));
    assert(p1 as u64 == p2 as u64 ==> p1 == p2) by (bit_vector);
    assert(d1.subrange(8, 16) =~= spec_u64_to_le_bytes(t1));
    assert(d2.subrange(8, 16) =~= spec_u64_to_le_bytes(t2));
    assert(d1.subrange(16, 24) =~= spec_u64_to_le_bytes(s1));
    assert(d2.subrange(16, 24) =~= spec_u64_to_le_bytes(s2));
    assert(pl1.len() == d1.len() - 32);
    assert(pl2.len() == d2.len() - 32);
    assert(pl1 =~= d1.subrange(32, d1.len() as int));
    assert(pl2 =~= d2.subrange(32, d2.len() as int));
}

proof fn lemma_samples_le_bytes_len(samples: Seq<i32>)
    ensures
        samples_le_bytes(samples).len() == 4 * samples.len(),
    decreases samples.len(),
{
    lemma_auto_spec_u32_to_from_le_bytes();
    if samples.len() > 0 {
        lemma_samples_le_bytes_len(samples.drop_last());
    }
}

proof fn lemma_samples_le_bytes_injective(s1: Seq<i32>, s2: Seq<i32>)
    requires
        s1.len() == s2.len(),
        samples_le_bytes(s1) == samples_le_bytes(s2),
    ensures
        s1 == s2,
    decreases s1.len(),
{
    lemma_auto_spec_u32_to_from_le_bytes();
    if s1.len() == 0 {
        assert(s1 =~= s2);
    } else {
        let n = s1.len() as int;
        let b1 = samples_le_bytes(s1);
        let b2 = samples_le_bytes(s2);
        lemma_samples_le_bytes_len(s1.drop_last());
        lemma_samples_le_bytes_len(s2.drop_last());
        assert(samples_le_bytes(s1.drop_last()) =~= b1.subrange(0, 4 * (n - 1)));
        assert(samples_le_bytes(s2.drop_last()) =~= b2.subrange(0, 4 * (n - 1)));
        assert(spec_u32_to_le_bytes(s1.last() as u32) =~= b1.subrange(4 * (n - 1), 4 * n));
        assert(spec_u32_to_le_bytes(s2.last() as u32) =~= b2.subrange(4 * (n - 1), 4 * n));
        assert(s1.last() as u32 == spec_u32_from_le_bytes(b1.subrange(4 * (n - 1), 4 * n)));
        assert(s2.last() as u32 == spec_u32_from_le_bytes(b2.subrange(4 * (n - 1), 4 * n)));
        let x1 = s1.last();
        let x2 = s2.last();
        assert(x1 as u32 == x2 as u32 ==> x1 == x2) by (bit_vector);
        lemma_samples_le_bytes_injective(s1.drop_last(), s2.drop_last());
        assert(s1 =~= s1.drop_last().push(s1.last()));
        assert(s2 =~= s2.drop_last().push(s2.last()));
        assert(s1 =~= s2);
    }
}

/// Round trip for the audio layout: the encoded bytes determine position,
/// time bits and the exact sample run, so any decoder of the layout
/// reproduces them.
pub proof fn lemma_audio_transfer_round_trip(
    p1: i64,
    t1: u64,
    sm1: Seq<i32>,
    p2: i64,
    t2: u64,
    sm2: Seq<i32>,
)
    requires
        audio_transfer_bytes(p1, t1, sm1) == audio_transfer_bytes(p2, t2, sm2),
        sm1.len() <= u64::MAX,
        sm2.len() <= u64::MAX,
    ensures
        p1 == p2,
        t1 == t2,
        sm1 == sm2,
{
    lemma_auto_spec_u64_to_from_le_bytes();
    lemma_samples_le_bytes_len(sm1);
    lemma_samples_le_bytes_len(sm2);
    let d1 = audio_transfer_bytes(p1, t1, sm1);
    let d2 = audio_transfer_bytes(p2, t2, sm2);
    assert(d1.subrange(0, 8) =~= spec_u64_to_le_bytes(p1 as u64));
    assert(d2.subrange(0, 8) =~= spec_u64_to_le_bytes(p2 as u64));
    assert(p1 as u64 == spec_u64_from_le_bytes(d1.subrange(0, 8)));
    assert(p2 as u64 == spec_u64_from_le_bytes(d2.subrange(0, 8)));
    assert(p1 as u64 == p2 as u64 ==> p1 == p2) by (bit_vector);
    assert(d1.subrange(8, 16) =~= spec_u64_to_le_bytes(t1));
    assert(d2.subrange(8, 16) =~= spec_u64_to_le_bytes(t2));
    assert(d1.subrange(16, 24) =~= spec_u64_to_le_bytes(sm1.len() as u64));
    assert(d2.subrange(16, 24) =~= spec_u64_to_le_bytes(sm2.len() as u64));
    assert(sm1.len() as u64 == spec_u64_from_le_bytes(d1.subrange(16, 24)));
    assert(sm2.len() as u64 == spec_u64_from_le_bytes(d2.subrange(16, 24)));
    let n1 = sm1.len() as u64;
    let n2 = sm2.len() as u64;
    assert(n1 == n2);
    assert(sm1.len() == sm2.len());
    assert(samples_le_bytes(sm1) =~= d1.subrange(24, d1.len() as int));
    assert(samples_le_bytes(sm2) =~= d2.subrange(24, d2.len() as int));
    lemma_samples_le_bytes_injective(sm1, sm2);
}

} // verus!
