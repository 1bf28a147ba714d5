//! The windowed loudness analyzer: drives an audio context forward,
//! accumulating the sum of squared sample amplitudes over rolling windows of
//! `step` samples, and emits one mean-square entry per full window. A
//! partially filled trailing window is dropped, never emitted.

use vstd::prelude::*;

use vstd::arithmetic::div_mod::{
    lemma_fundamental_div_mod_converse, lemma_multiply_divide_le,
};
use vstd::arithmetic::mul::{lemma_mul_basics, lemma_mul_inequality, lemma_mul_nonnegative};

use crate::MediaError;
use crate::audio::AudioContext;
use crate::model::{AudioBlock, AudioStreamData};

verus! {

/// A windowed loudness summary: `start` is the position of the first unit
/// consumed, `end` is `start` plus the number of samples covered by full
/// windows, and `entries` holds one mean-square amplitude per full window.
#[derive(Debug, PartialEq, Eq)]
pub struct IntensitySummary {
    pub start: i64,
    pub end: i64,
    pub entries: Vec<i64>,
}

/// The sum of squared amplitudes over a run of samples.
pub open spec fn sum_sq(s: Seq<i32>) -> int
    decreases s.len(),
{
    if s.len() == 0 {
        0
    } else {
        sum_sq(s.drop_last()) + (s.last() as int) * (s.last() as int)
    }
}

/// The mean-square amplitude of window `k` of `s`, for windows of `step`
/// samples.
pub open spec fn window_mean(s: Seq<i32>, step: int, k: int) -> int {
    sum_sq(s.subrange(k * step, (k + 1) * step)) / step
}

/// The samples of blocks `[from, to)`, concatenated in order.
pub open spec fn concat_samples(blocks: Seq<AudioBlock>, from: int, to: int) -> Seq<i32>
    decreases to - from,
{
    if from >= to || from < 0 || to > blocks.len() {
        Seq::empty()
    } else {
        concat_samples(blocks, from, to - 1) + blocks[to - 1].samples@
    }
}

/// The first block index at or after `from` whose position is at or after
/// `target`, or the number of blocks when there is none.
pub open spec fn first_block_at_or_after(blocks: Seq<AudioBlock>, from: int, target: i64) -> int
    decreases blocks.len() - from,
{
    if from < 0 || from >= blocks.len() {
        blocks.len() as int
    } else if blocks[from].position >= target {
        from
    } else {
        first_block_at_or_after(blocks, from + 1, target)
    }
}

/// The first corrupt block at or after `from`, or the number of blocks when
/// there is none.
pub open spec fn first_corrupt_block(blocks: Seq<AudioBlock>, from: int) -> int
    decreases blocks.len() - from,
{
    if from < 0 || from >= blocks.len() {
        blocks.len() as int
    } else if blocks[from].corrupt {
        from
    } else {
        first_corrupt_block(blocks, from + 1)
    }
}

proof fn lemma_sum_sq_push(s: Seq<i32>, x: i32)
    ensures
        sum_sq(s.push(x)) == sum_sq(s) + (x as int) * (x as int),
{
    assert(s.push(x).drop_last() =~= s);
}

/// Every squared `i32` is at most `2^62`, so a sum of squares is bounded by
/// the sample count times `2^62`.
proof fn lemma_sum_sq_bounds(s: Seq<i32>)
    ensures
        0 <= sum_sq(s) <= s.len() * 0x4000000000000000,
    decreases s.len(),
{
    if s.len() == 0 {
    } else {
        lemma_sum_sq_bounds(s.drop_last());
        let x = s.last() as int;
        assert(0 <= x * x <= 0x4000000000000000) by (nonlinear_arith)
            requires
                -0x80000000 <= x <= 0x7fffffff,
        ;
    }
}

proof fn lemma_first_block_at_or_after_bounds(blocks: Seq<AudioBlock>, from: int, target: i64)
    requires
        0 <= from <= blocks.len(),
    ensures
        from <= first_block_at_or_after(blocks, from, target) <= blocks.len(),
    decreases blocks.len() - from,
{
    if from < blocks.len() && blocks[from].position < target {
        lemma_first_block_at_or_after_bounds(blocks, from + 1, target);
    }
}

proof fn lemma_first_corrupt_block_bounds(blocks: Seq<AudioBlock>, from: int)
    requires
        0 <= from <= blocks.len(),
    ensures
        from <= first_corrupt_block(blocks, from) <= blocks.len(),
    decreases blocks.len() - from,
{
    if from < blocks.len() && !blocks[from].corrupt {
        lemma_first_corrupt_block_bounds(blocks, from + 1);
    }
}

/// What a loudness computation does to the context and what it returns.
///
/// The computation decodes block after block, starting at the context's
/// cursor, until it has decoded the first block at or after `until`; the
/// samples of the blocks before that one are accumulated. It fails with
/// `DecodeFailure` when the run is already exhausted, when a corrupt block
/// is hit, or when the run ends before `until` is reached. On success the
/// summary's entries are the mean squares of the successive full windows of
/// the consumed samples, and `end - start` is exactly the window count times
/// `step`.
pub open spec fn intensity_rel(
    d: AudioStreamData,
    c0: AudioContext,
    c1: AudioContext,
    until: i64,
    step: i64,
    r: Result<IntensitySummary, MediaError>,
) -> bool {
    let blocks = d.blocks@;
    let n = blocks.len() as int;
    let cur0 = c0.cursor as int;
    if cur0 >= n {
        c1 == c0 && r == Err::<IntensitySummary, MediaError>(MediaError::DecodeFailure)
    } else {
        let b = first_corrupt_block(blocks, cur0);
        let e = first_block_at_or_after(blocks, cur0, until);
        if b <= e && b < n {
            &&& r == Err::<IntensitySummary, MediaError>(MediaError::DecodeFailure)
            &&& c1 == (AudioContext {
                cursor: (b + 1) as usize,
                cache: if b == cur0 {
                    c0.cache
                } else {
                    Some((b - 1) as usize)
                },
                ..c0
            })
        } else if e >= n {
            &&& r == Err::<IntensitySummary, MediaError>(MediaError::DecodeFailure)
            &&& c1 == (AudioContext { cursor: n as usize, cache: Some((n - 1) as usize), ..c0 })
        } else {
            &&& c1 == (AudioContext { cursor: (e + 1) as usize, cache: Some(e as usize), ..c0 })
            &&& match r {
                Ok(sm) => {
                    let s = concat_samples(blocks, cur0, e);
                    &&& sm.start == blocks[cur0].position
                    &&& sm.entries@.len() == s.len() as int / (step as int)
                    &&& forall|k: int|
                        0 <= k < sm.entries@.len() ==> sm.entries@[k] == window_mean(
                            s,
                            step as int,
                            k,
                        )
                    &&& sm.end == sm.start + sm.entries@.len() * step
                },
                Err(_) => false,
            }
        }
    }
}

/// Decode forward from the context's cursor, accumulating mean-square
/// loudness over rolling windows of `step` samples, until the decoded
/// position reaches or passes `until`.
///
/// The summary's `start` is the position of the first block decoded; when
/// that position is already at or past `until`, the entry list is empty and
/// `end == start`. A partial trailing window is dropped: `end - start` is
/// always the entry count times `step`.
#[verifier::rlimit(100)]
pub fn compute_intensity(d: &AudioStreamData, c: &mut AudioContext, until: i64, step: i64) -> (r:
    Result<IntensitySummary, MediaError>)
    requires
        d.wf(),
        old(c).wf(*d),
        1 <= step,
    ensures
        final(c).wf(*d),
        intensity_rel(*d, *old(c), *final(c), until, step, r),
{
    let ghost blocks = d.blocks@;
    let ghost cur0 = old(c).cursor as int;
    if c.cursor >= d.blocks.len() {
        return Err(MediaError::DecodeFailure);
    }
    if d.blocks[c.cursor].corrupt {
        proof {
            assert(first_corrupt_block(blocks, cur0) == cur0);
            lemma_first_block_at_or_after_bounds(blocks, cur0, until);
        }
        c.cursor = c.cursor + 1;
        return Err(MediaError::DecodeFailure);
    }
    let start: i64 = d.blocks[c.cursor].position;
    let mut bi: usize = c.cursor;
    c.cache = Some(bi);
    c.cursor = bi + 1;
    let mut entries: Vec<i64> = Vec::new();
    let mut counter: i64 = 0;
    let mut sum: u128 = 0;
    let ghost mut s = concat_samples(blocks, cur0, cur0);
    proof {
        assert(s =~= Seq::<i32>::empty());
        assert(s.skip(0) =~= s);
        lemma_mul_basics(step as int);
        assert(entries@.len() * step == 0);
    }
    while d.blocks[bi].position < until
        invariant
            d.wf(),
            old(c).wf(*d),
            1 <= step,
            blocks == d.blocks@,
            cur0 == old(c).cursor as int,
            0 <= cur0 <= bi < blocks.len(),
            start == blocks[cur0].position,
            !blocks[bi as int].corrupt,
            first_corrupt_block(blocks, cur0) == first_corrupt_block(blocks, bi as int + 1),
            first_block_at_or_after(blocks, cur0, until) == first_block_at_or_after(
                blocks,
                bi as int,
                until,
            ),
            *c == (AudioContext { cursor: (bi + 1) as usize, cache: Some(bi), ..*old(c) }),
            s == concat_samples(blocks, cur0, bi as int),
            entries@.len() * step + counter == s.len(),
            0 <= counter < step,
            forall|k: int|
                0 <= k < entries@.len() ==> entries@[k] == window_mean(s, step as int, k),
            sum == sum_sq(s.skip(entries@.len() * step)),
            start + s.len() <= blocks[bi as int].position,
        decreases blocks.len() - bi,
    {
        let ghost base = s;
        let mut j: usize = 0;
        while j < d.blocks[bi].samples.len()
            invariant
                d.wf(),
                1 <= step,
                blocks == d.blocks@,
                0 <= cur0 <= bi < blocks.len(),
                0 <= j <= blocks[bi as int].samples@.len(),
                base == concat_samples(blocks, cur0, bi as int),
                start + base.len() <= blocks[bi as int].position,
                start == blocks[cur0].position,
                s == base + blocks[bi as int].samples@.take(j as int),
                entries@.len() * step + counter == s.len(),
                0 <= counter < step,
                forall|k: int|
                    0 <= k < entries@.len() ==> entries@[k] == window_mean(s, step as int, k),
                sum == sum_sq(s.skip(entries@.len() * step)),
            decreases blocks[bi as int].samples@.len() - j,
        {
            let x: i32 = d.blocks[bi].samples[j];
            let xi: i64 = x as i64;
            assert(0 <= xi * xi <= 0x4000000000000000) by (nonlinear_arith)
                requires
                    -0x80000000 <= xi <= 0x7fffffff,
            ;
            let sqv: i64 = xi * xi;
            proof {
                let m = entries@.len() as int;
                let tail = s.skip(m * step);
                lemma_sum_sq_bounds(tail);
                assert(tail.len() == counter);
            }
            sum = sum + (sqv as u128);
            counter = counter + 1;
            proof {
                let m = entries@.len() as int;
                let s_old = s;
                s = s.push(x);
                assert(s =~= base + blocks[bi as int].samples@.take(j as int + 1));
                assert(m * step <= s_old.len());
                assert(s.skip(m * step) =~= s_old.skip(m * step).push(x));
                lemma_sum_sq_push(s_old.skip(m * step), x);
                assert forall|k: int|
                    0 <= k < m implies #[trigger] s.subrange(k * step, (k + 1) * step)
                    == s_old.subrange(k * step, (k + 1) * step) by {
                    lemma_mul_nonnegative(k, step as int);
                    lemma_mul_inequality(k, k + 1, step as int);
                    lemma_mul_inequality(k + 1, m, step as int);
                    assert(s.subrange(k * step, (k + 1) * step) =~= s_old.subrange(
                        k * step,
                        (k + 1) * step,
                    ));
                }
            }
            if counter == step {
                proof {
                    let m = entries@.len() as int;
                    assert(s.len() == (m + 1) * step) by (nonlinear_arith)
                        requires
                            s.len() == m * step + step,
                    ;
                    assert(s.skip(m * step) =~= s.subrange(m * step, (m + 1) * step));
                    lemma_sum_sq_bounds(s.skip(m * step));
                    assert(sum <= (step as int) * 0x4000000000000000);
                    lemma_multiply_divide_le(sum as int, step as int, 0x4000000000000000);
                }
                let entry: i64 = (sum / (step as u128)) as i64;
                entries.push(entry);
                counter = 0;
                sum = 0;
                proof {
                    let m = entries@.len() as int;
                    assert(s.skip(m * step) =~= Seq::<i32>::empty());
                }
            }
            j = j + 1;
        }
        proof {
            assert(blocks[bi as int].samples@.take(j as int) =~= blocks[bi as int].samples@);
            assert(s =~= concat_samples(blocks, cur0, bi as int + 1));
        }
        if c.cursor >= d.blocks.len() {
            proof {
                let n = blocks.len() as int;
                assert(bi as int + 1 == n);
                assert(first_block_at_or_after(blocks, bi as int, until)
                    == first_block_at_or_after(blocks, bi as int + 1, until));
                assert(first_block_at_or_after(blocks, n, until) == n);
                assert(first_corrupt_block(blocks, n) == n);
                assert(first_corrupt_block(blocks, cur0) == n);
                assert(first_block_at_or_after(blocks, cur0, until) == n);
                assert(*c == (AudioContext {
                    cursor: n as usize,
                    cache: Some((n - 1) as usize),
                    ..*old(c)
                }));
            }
            return Err(MediaError::DecodeFailure);
        }
        if d.blocks[c.cursor].corrupt {
            proof {
                let n = blocks.len() as int;
                let k = bi as int + 1;
                assert(k < n);
                assert(first_block_at_or_after(blocks, bi as int, until)
                    == first_block_at_or_after(blocks, k, until));
                assert(first_corrupt_block(blocks, k) == k);
                lemma_first_block_at_or_after_bounds(blocks, k, until);
                assert(first_corrupt_block(blocks, cur0) == k);
                assert(first_block_at_or_after(blocks, cur0, until) >= k);
                assert(cur0 < k);
            }
            c.cursor = c.cursor + 1;
            return Err(MediaError::DecodeFailure);
        }
        proof {
            assert(first_block_at_or_after(blocks, bi as int, until) == first_block_at_or_after(
                blocks,
                bi as int + 1,
                until,
            ));
            assert(first_corrupt_block(blocks, bi as int + 1) == first_corrupt_block(
                blocks,
                bi as int + 2,
            ));
            assert(start + s.len() <= blocks[bi as int].position
                + blocks[bi as int].samples@.len());
        }
        bi = c.cursor;
        c.cache = Some(bi);
        c.cursor = bi + 1;
    }
    proof {
        assert(first_block_at_or_after(blocks, bi as int, until) == bi as int);
        lemma_first_corrupt_block_bounds(blocks, bi as int + 1);
        lemma_fundamental_div_mod_converse(
            s.len() as int,
            step as int,
            entries@.len() as int,
            counter as int,
        );
        assert(entries@.len() <= entries@.len() * step) by (nonlinear_arith)
            requires
                step >= 1,
        ;
    }
    let nentries: i64 = entries.len() as i64;
    let prod: i64 = nentries * step;
    let end: i64 = start + prod;
    Ok(IntensitySummary { start, end, entries })
}

} // verus!
