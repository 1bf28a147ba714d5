//! The per-stream decode context for audio: a cursor into the stream's run
//! of sample blocks and a single cache slot holding the most recently
//! decoded block. Seeking is coarse: it lands on the block at or before the
//! target and clears the cache, so the next advance yields the first block
//! at or after the landing point.

use vstd::prelude::*;

use crate::MediaError;
use crate::model::{AudioBlock, AudioStreamData, Rational};

verus! {

/// Decode state for one opened audio stream. The stream parameters are fixed
/// at open time; only `cursor` (the next block to decode) and `cache` (the
/// index of the block in the cache slot) change afterwards.
pub struct AudioContext {
    pub stream_index: usize,
    pub time_base: Rational,
    pub sample_rate: u32,
    pub length: i64,
    pub cursor: usize,
    pub cache: Option<usize>,
}

impl AudioContext {
    /// Well-formed with respect to the stream it was opened on: parameters
    /// agree, the cursor is within the run, and the cached block (if any)
    /// was already decoded.
    pub open spec fn wf(self, d: AudioStreamData) -> bool {
        &&& self.time_base == d.time_base
        &&& self.sample_rate == d.sample_rate
        &&& self.length == d.length
        &&& self.cursor <= d.blocks@.len()
        &&& match self.cache {
            Some(j) => j < self.cursor,
            None => true,
        }
    }

    /// The position of the cached block, if one is held.
    pub open spec fn spec_cached_position(self, d: AudioStreamData) -> Option<i64> {
        match self.cache {
            Some(j) => Some(d.blocks@[j as int].position),
            None => None,
        }
    }
}

/// The context a fresh open of stream `index` yields: nothing decoded yet.
pub open spec fn fresh_audio_context(d: AudioStreamData, index: usize) -> AudioContext {
    AudioContext {
        stream_index: index,
        time_base: d.time_base,
        sample_rate: d.sample_rate,
        length: d.length,
        cursor: 0,
        cache: None,
    }
}

/// What one advance does: at the end of the run it reports the end marker
/// and changes nothing; on a corrupt block it fails, stepping past the block
/// and leaving the cache alone; otherwise it decodes the next block into the
/// cache slot.
pub open spec fn audio_advance_spec(d: AudioStreamData, c: AudioContext) -> (AudioContext, Result<
    bool,
    MediaError,
>) {
    if c.cursor >= d.blocks@.len() {
        (c, Ok(false))
    } else if d.blocks@[c.cursor as int].corrupt {
        (AudioContext { cursor: (c.cursor + 1) as usize, ..c }, Err(MediaError::DecodeFailure))
    } else {
        (
            AudioContext { cursor: (c.cursor + 1) as usize, cache: Some(c.cursor), ..c },
            Ok(true),
        )
    }
}

/// Decode the next block of the stream into the cache slot.
///
/// Returns `Ok(false)` at the end of the stream, every time, without
/// resurrecting any block; `Err(DecodeFailure)` on a corrupt block.
pub fn audio_advance(d: &AudioStreamData, c: &mut AudioContext) -> (r: Result<bool, MediaError>)
    requires
        d.wf(),
        old(c).wf(*d),
    ensures
        final(c).wf(*d),
        (*final(c), r) == audio_advance_spec(*d, *old(c)),
{
    if c.cursor >= d.blocks.len() {
        Ok(false)
    } else if d.blocks[c.cursor].corrupt {
        c.cursor = c.cursor + 1;
        Err(MediaError::DecodeFailure)
    } else {
        c.cache = Some(c.cursor);
        c.cursor = c.cursor + 1;
        Ok(true)
    }
}

/// Once `advance` has reported the end of the stream, it keeps reporting it,
/// never changing the context and never yielding another block.
pub proof fn lemma_audio_end_marker_stable(d: AudioStreamData, c: AudioContext)
    requires
        audio_advance_spec(d, c).1 == Ok::<bool, MediaError>(false),
    ensures
        audio_advance_spec(d, c).0 == c,
        audio_advance_spec(d, audio_advance_spec(d, c).0) == (c, Ok::<bool, MediaError>(false)),
{
}

/// The first block index at or after `from` whose position is above
/// `target`, or the number of blocks when there is none.
pub open spec fn first_block_above(blocks: Seq<AudioBlock>, from: int, target: i64) -> int
    decreases blocks.len() - from,
{
    if from < 0 || from >= blocks.len() {
        blocks.len() as int
    } else if blocks[from].position > target {
        from
    } else {
        first_block_above(blocks, from + 1, target)
    }
}

/// Where a coarse seek to `target` lands: the last block whose position is
/// at or before the target, or the start of the run when every block lies
/// beyond it.
pub open spec fn audio_seek_cursor(blocks: Seq<AudioBlock>, target: i64) -> int {
    let f = first_block_above(blocks, 0, target);
    if f == 0 {
        0
    } else {
        f - 1
    }
}

/// Coarse seek: moves the cursor to the block at or before `target` and
/// invalidates the cache slot. The next advance decodes from the landing
/// point on.
pub fn audio_seek(d: &AudioStreamData, c: &mut AudioContext, target: i64) -> (r: Result<
    (),
    MediaError,
>)
    requires
        d.wf(),
        old(c).wf(*d),
    ensures
        final(c).wf(*d),
        r == Ok::<(), MediaError>(()),
        final(c).cursor == audio_seek_cursor(d.blocks@, target),
        final(c).cache is None,
        *final(c) == (AudioContext {
            cursor: final(c).cursor,
            cache: None,
            ..*old(c)
        }),
{
    let mut i: usize = 0;
    while i < d.blocks.len() && d.blocks[i].position <= target
        invariant
            d.wf(),
            0 <= i <= d.blocks@.len(),
            first_block_above(d.blocks@, 0, target) == first_block_above(d.blocks@, i as int, target),
        decreases d.blocks@.len() - i,
    {
        i = i + 1;
    }
    assert(first_block_above(d.blocks@, i as int, target) == i as int);
    c.cache = None;
    if i == 0 {
        c.cursor = 0;
    } else {
        c.cursor = i - 1;
    }
    Ok(())
}

} // verus!
