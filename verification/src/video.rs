//! The per-stream decode context for video: a cursor into the stream's run
//! of frames, a single cache slot holding the most recently decoded frame
//! and, lazily, its scaled rendering, plus the configurable output geometry.
//!
//! Container-level seeks are accurate only to the nearest keyframe, so the
//! frame-exact seek lands on the keyframe at or before the target and then
//! decodes forward, discarding frames, until the first frame at or after the
//! target sits in the cache slot.

use vstd::prelude::*;

use crate::MediaError;
use crate::model::{MAX_DIMENSION, Rational, VideoFrame, VideoStreamData};
use crate::scale::{scale_rgba, scaled_image};

verus! {

/// A frame converted to the output geometry: interleaved RGBA, rows of
/// `width` pixels.
pub struct ScaledImage {
    pub width: u32,
    pub height: u32,
    pub data: Vec<u8>,
}

/// The cache slot: the index of the decoded frame in the stream's run, and
/// its rendering at some output geometry, if one was requested.
pub struct VideoCacheSlot {
    pub frame: usize,
    pub scaled: Option<ScaledImage>,
}

/// Decode state for one opened video stream. The stream parameters and the
/// original geometry are fixed at open time; the output geometry, the cursor
/// and the cache slot change afterwards.
pub struct VideoContext {
    pub stream_index: usize,
    pub time_base: Rational,
    pub frame_rate: Rational,
    pub length: i64,
    pub width: u32,
    pub height: u32,
    pub out_width: u32,
    pub out_height: u32,
    pub cursor: usize,
    pub cache: Option<VideoCacheSlot>,
}

impl VideoContext {
    /// Well-formed with respect to the stream it was opened on: parameters
    /// and original geometry agree, the output geometry is one the scaler
    /// accepts, the cursor is within the run, the cached frame (if any) was
    /// already decoded, and a cached rendering is a whole RGBA image of its
    /// recorded geometry.
    pub open spec fn wf(self, d: VideoStreamData) -> bool {
        &&& self.time_base == d.time_base
        &&& self.frame_rate == d.frame_rate
        &&& self.length == d.length
        &&& self.width == d.width
        &&& self.height == d.height
        &&& 1 <= self.out_width <= MAX_DIMENSION
        &&& 1 <= self.out_height <= MAX_DIMENSION
        &&& self.cursor <= d.frames@.len()
        &&& match self.cache {
            Some(slot) => slot.frame < self.cursor && match slot.scaled {
                Some(im) => {
                    &&& 1 <= im.width <= MAX_DIMENSION
                    &&& 1 <= im.height <= MAX_DIMENSION
                    &&& im.data@.len() == im.width * im.height * 4
                },
                None => true,
            },
            None => true,
        }
    }

    /// The position of the cached frame, if one is held.
    pub open spec fn spec_cached_position(self, d: VideoStreamData) -> Option<i64> {
        match self.cache {
            Some(slot) => Some(d.frames@[slot.frame as int].position),
            None => None,
        }
    }
}

/// The context a fresh open of stream `index` yields: nothing decoded yet,
/// output geometry defaulted to the stream's own.
pub open spec fn fresh_video_context(d: VideoStreamData, index: usize) -> VideoContext {
    VideoContext {
        stream_index: index,
        time_base: d.time_base,
        frame_rate: d.frame_rate,
        length: d.length,
        width: d.width,
        height: d.height,
        out_width: d.width,
        out_height: d.height,
        cursor: 0,
        cache: None,
    }
}

/// What one advance does: at the end of the run it reports the end marker
/// and changes nothing; on a corrupt frame it fails, stepping past the frame
/// and leaving the cache alone; otherwise it decodes the next frame into the
/// cache slot, with no rendering yet.
pub open spec fn video_advance_spec(d: VideoStreamData, c: VideoContext) -> (VideoContext, Result<
    bool,
    MediaError,
>) {
    if c.cursor >= d.frames@.len() {
        (c, Ok(false))
    } else if d.frames@[c.cursor as int].corrupt {
        (VideoContext { cursor: (c.cursor + 1) as usize, ..c }, Err(MediaError::DecodeFailure))
    } else {
        (
            VideoContext {
                cursor: (c.cursor + 1) as usize,
                cache: Some(VideoCacheSlot { frame: c.cursor, scaled: None }),
                ..c
            },
            Ok(true),
        )
    }
}

/// Decode the next frame of the stream into the cache slot.
///
/// Returns `Ok(false)` at the end of the stream, every time, without
/// resurrecting any frame; `Err(DecodeFailure)` on a corrupt frame.
pub fn video_advance(d: &VideoStreamData, c: &mut VideoContext) -> (r: Result<bool, MediaError>)
    requires
        d.wf(),
        old(c).wf(*d),
    ensures
        final(c).wf(*d),
        (*final(c), r) == video_advance_spec(*d, *old(c)),
{
    if c.cursor >= d.frames.len() {
        Ok(false)
    } else if d.frames[c.cursor].corrupt {
        c.cursor = c.cursor + 1;
        Err(MediaError::DecodeFailure)
    } else {
        c.cache = Some(VideoCacheSlot { frame: c.cursor, scaled: None });
        c.cursor = c.cursor + 1;
        Ok(true)
    }
}

/// Once `advance` has reported the end of the stream, it keeps reporting it,
/// never changing the context and never yielding another frame.
pub proof fn lemma_video_end_marker_stable(d: VideoStreamData, c: VideoContext)
    requires
        video_advance_spec(d, c).1 == Ok::<bool, MediaError>(false),
    ensures
        video_advance_spec(d, c).0 == c,
        video_advance_spec(d, video_advance_spec(d, c).0) == (c, Ok::<bool, MediaError>(false)),
{
}

/// The first frame index at or after `from` whose position is at or after
/// `target`, or the number of frames when there is none.
pub open spec fn first_frame_at_or_after(frames: Seq<VideoFrame>, from: int, target: i64) -> int
    decreases frames.len() - from,
{
    if from < 0 || from >= frames.len() {
        frames.len() as int
    } else if frames[from].position >= target {
        from
    } else {
        first_frame_at_or_after(frames, from + 1, target)
    }
}

/// The first corrupt frame at or after `from`, or the number of frames when
/// there is none.
pub open spec fn first_corrupt_from(frames: Seq<VideoFrame>, from: int) -> int
    decreases frames.len() - from,
{
    if from < 0 || from >= frames.len() {
        frames.len() as int
    } else if frames[from].corrupt {
        from
    } else {
        first_corrupt_from(frames, from + 1)
    }
}

/// Where the container-level seek lands: the last keyframe at or before
/// `target`, or the start of the run when there is none.
pub open spec fn last_keyframe_at_or_before(frames: Seq<VideoFrame>, target: i64) -> int
    decreases frames.len(),
{
    if frames.len() == 0 {
        0
    } else if frames.last().keyframe && frames.last().position <= target {
        frames.len() - 1
    } else {
        last_keyframe_at_or_before(frames.drop_last(), target)
    }
}

proof fn lemma_first_frame_at_or_after_bounds(frames: Seq<VideoFrame>, from: int, target: i64)
    requires
        0 <= from <= frames.len(),
    ensures
        from <= first_frame_at_or_after(frames, from, target) <= frames.len(),
    decreases frames.len() - from,
{
    if from < frames.len() && frames[from].position < target {
        lemma_first_frame_at_or_after_bounds(frames, from + 1, target);
    }
}

proof fn lemma_first_corrupt_from_bounds(frames: Seq<VideoFrame>, from: int)
    requires
        0 <= from <= frames.len(),
    ensures
        from <= first_corrupt_from(frames, from) <= frames.len(),
    decreases frames.len() - from,
{
    if from < frames.len() && !frames[from].corrupt {
        lemma_first_corrupt_from_bounds(frames, from + 1);
    }
}

proof fn lemma_last_keyframe_bounds(frames: Seq<VideoFrame>, target: i64)
    ensures
        0 <= last_keyframe_at_or_before(frames, target),
        frames.len() == 0 ==> last_keyframe_at_or_before(frames, target) == 0,
        frames.len() > 0 ==> last_keyframe_at_or_before(frames, target) <= frames.len() - 1,
    decreases frames.len(),
{
    if frames.len() > 0 && !(frames.last().keyframe && frames.last().position <= target) {
        lemma_last_keyframe_bounds(frames.drop_last(), target);
    }
}

/// What a frame-exact seek to `target` does. The scan starts at the keyframe
/// at or before the target and decodes forward: a corrupt frame before the
/// target frame fails the seek with `DecodeFailure`; running off the end of
/// the stream before reaching the target fails it with `SeekFailure`; either
/// failure leaves the cache slot invalidated. Otherwise the first frame at
/// or after the target is left as the cache entry.
pub open spec fn video_seek_spec(d: VideoStreamData, c: VideoContext, target: i64) -> (
    VideoContext,
    Result<(), MediaError>,
) {
    let ki = last_keyframe_at_or_before(d.frames@, target);
    let j = first_frame_at_or_after(d.frames@, ki, target);
    let b = first_corrupt_from(d.frames@, ki);
    if b <= j && b < d.frames@.len() {
        (
            VideoContext { cursor: (b + 1) as usize, cache: None, ..c },
            Err(MediaError::DecodeFailure),
        )
    } else if j >= d.frames@.len() {
        (
            VideoContext { cursor: d.frames@.len() as usize, cache: None, ..c },
            Err(MediaError::SeekFailure),
        )
    } else {
        (
            VideoContext {
                cursor: (j + 1) as usize,
                cache: Some(VideoCacheSlot { frame: j as usize, scaled: None }),
                ..c
            },
            Ok(()),
        )
    }
}

/// Frame-exact seek: land on the keyframe at or before `target`, then
/// decode and discard frames until the first frame at or after the target
/// sits in the cache slot.
#[verifier::rlimit(60)]
pub fn video_seek_precise(d: &VideoStreamData, c: &mut VideoContext, target: i64) -> (r: Result<
    (),
    MediaError,
>)
    requires
        d.wf(),
        old(c).wf(*d),
    ensures
        final(c).wf(*d),
        (*final(c), r) == video_seek_spec(*d, *old(c), target),
{
    let ghost frames = d.frames@;
    let mut i: usize = d.frames.len();
    proof {
        assert(frames.take(frames.len() as int) =~= frames);
    }
    while i > 0 && !(d.frames[i - 1].keyframe && d.frames[i - 1].position <= target)
        invariant
            0 <= i <= frames.len(),
            frames == d.frames@,
            last_keyframe_at_or_before(frames, target) == last_keyframe_at_or_before(
                frames.take(i as int),
                target,
            ),
        decreases i,
    {
        proof {
            let s = frames.take(i as int);
            assert(s.last() == frames[i as int - 1]);
            assert(s.drop_last() =~= frames.take(i as int - 1));
        }
        i = i - 1;
    }
    let ki: usize = if i == 0 {
        0
    } else {
        i - 1
    };
    proof {
        if i > 0 {
            let s = frames.take(i as int);
            assert(s.last() == frames[i as int - 1]);
            assert(last_keyframe_at_or_before(s, target) == i - 1);
        }
        assert(ki as int == last_keyframe_at_or_before(frames, target));
        lemma_last_keyframe_bounds(frames, target);
    }
    c.cache = None;
    let mut j: usize = ki;
    while j < d.frames.len()
        invariant
            d.wf(),
            old(c).wf(*d),
            frames == d.frames@,
            ki <= j <= frames.len(),
            ki as int == last_keyframe_at_or_before(frames, target),
            first_frame_at_or_after(frames, ki as int, target) == first_frame_at_or_after(
                frames,
                j as int,
                target,
            ),
            first_corrupt_from(frames, ki as int) == first_corrupt_from(frames, j as int),
            *c == (VideoContext { cache: None, ..*old(c) }),
        decreases frames.len() - j,
    {
        if d.frames[j].corrupt {
            proof {
                assert(first_corrupt_from(frames, j as int) == j as int);
                lemma_first_frame_at_or_after_bounds(frames, j as int, target);
                assert(first_corrupt_from(frames, ki as int) == j as int);
                assert(first_frame_at_or_after(frames, ki as int, target) >= j as int);
            }
            c.cursor = j + 1;
            return Err(MediaError::DecodeFailure);
        }
        if d.frames[j].position >= target {
            proof {
                assert(first_frame_at_or_after(frames, j as int, target) == j as int);
                assert(first_corrupt_from(frames, j as int) == first_corrupt_from(
                    frames,
                    j as int + 1,
                ));
                lemma_first_corrupt_from_bounds(frames, j as int + 1);
                assert(first_corrupt_from(frames, ki as int) > j as int);
                assert(first_frame_at_or_after(frames, ki as int, target) == j as int);
            }
            c.cursor = j + 1;
            c.cache = Some(VideoCacheSlot { frame: j, scaled: None });
            return Ok(());
        }
        proof {
            assert(first_frame_at_or_after(frames, j as int, target) == first_frame_at_or_after(
                frames,
                j as int + 1,
                target,
            ));
            assert(first_corrupt_from(frames, j as int) == first_corrupt_from(
                frames,
                j as int + 1,
            ));
        }
        j = j + 1;
    }
    proof {
        assert(first_frame_at_or_after(frames, j as int, target) == frames.len());
        assert(first_corrupt_from(frames, j as int) == frames.len());
    }
    c.cursor = d.frames.len();
    Err(MediaError::SeekFailure)
}

/// Re-seeking to the same target from the state a successful frame-exact
/// seek produced changes nothing: the same frame stays cached at the same
/// position, and the seek succeeds again.
pub proof fn lemma_precise_seek_idempotent(d: VideoStreamData, c: VideoContext, target: i64)
    requires
        video_seek_spec(d, c, target).1 is Ok,
    ensures
        video_seek_spec(d, video_seek_spec(d, c, target).0, target) == video_seek_spec(
            d,
            c,
            target,
        ),
{
}

/// What a successful output-geometry change does: dimensions the scaler
/// accepts replace the output geometry, touching nothing else (the current
/// frame is not re-rendered); anything else is rejected.
pub open spec fn set_output_size_spec(c: VideoContext, w: u32, h: u32) -> (VideoContext, Result<
    (),
    MediaError,
>) {
    if 1 <= w <= MAX_DIMENSION && 1 <= h <= MAX_DIMENSION {
        (VideoContext { out_width: w, out_height: h, ..c }, Ok(()))
    } else {
        (c, Err(MediaError::ConfigurationError))
    }
}

/// Reconfigure the output geometry. Fails on zero dimensions and on
/// dimensions beyond what the scaler supports; does not re-render the
/// current frame.
pub fn video_set_output_size(c: &mut VideoContext, w: u32, h: u32) -> (r: Result<(), MediaError>)
    ensures
        (*final(c), r) == set_output_size_spec(*old(c), w, h),
{
    if 1 <= w && w <= MAX_DIMENSION && 1 <= h && h <= MAX_DIMENSION {
        c.out_width = w;
        c.out_height = h;
        Ok(())
    } else {
        Err(MediaError::ConfigurationError)
    }
}

/// How a rendered context relates to the one before: the cached frame is
/// unchanged, and its rendering is the nearest-neighbour scaling of that
/// frame to the output geometry.
pub open spec fn video_rescaled(
    d: VideoStreamData,
    c0: VideoContext,
    frame: usize,
    c1: VideoContext,
    r: Result<(), MediaError>,
) -> bool {
    &&& r == Ok::<(), MediaError>(())
    &&& c1 == (VideoContext { cache: c1.cache, ..c0 })
    &&& match c1.cache {
        Some(s1) => {
            &&& s1.frame == frame
            &&& match s1.scaled {
                Some(im) => {
                    &&& im.width == c0.out_width
                    &&& im.height == c0.out_height
                    &&& im.data@ == scaled_image(
                        d.frames@[frame as int].data@,
                        d.width as int,
                        d.height as int,
                        c0.out_width as int,
                        c0.out_height as int,
                    )
                },
                None => false,
            }
        },
        None => false,
    }
}

/// What rendering the current frame does: with no current frame it fails;
/// with a rendering already at the output geometry it changes nothing;
/// otherwise it scales the cached frame to the output geometry and stores
/// the result alongside it.
pub open spec fn video_render_rel(
    d: VideoStreamData,
    c0: VideoContext,
    c1: VideoContext,
    r: Result<(), MediaError>,
) -> bool {
    match c0.cache {
        None => c1 == c0 && r == Err::<(), MediaError>(MediaError::DecodeFailure),
        Some(slot) => match slot.scaled {
            Some(im) => if im.width == c0.out_width && im.height == c0.out_height {
                c1 == c0 && r == Ok::<(), MediaError>(())
            } else {
                video_rescaled(d, c0, slot.frame, c1, r)
            },
            None => video_rescaled(d, c0, slot.frame, c1, r),
        },
    }
}

/// Render the cached frame at the output geometry, if that rendering is not
/// already cached. Fails when nothing has been decoded since open or seek.
pub fn video_render_current(d: &VideoStreamData, c: &mut VideoContext) -> (r: Result<
    (),
    MediaError,
>)
    requires
        d.wf(),
        old(c).wf(*d),
    ensures
        final(c).wf(*d),
        video_render_rel(*d, *old(c), *final(c), r),
{
    let (fi, needs) = match &c.cache {
        None => {
            return Err(MediaError::DecodeFailure);
        },
        Some(slot) => (
            slot.frame,
            match &slot.scaled {
                Some(im) => im.width != c.out_width || im.height != c.out_height,
                None => true,
            },
        ),
    };
    if needs {
        let data = scale_rgba(&d.frames[fi].data, d.width, d.height, c.out_width, c.out_height);
        c.cache = Some(
            VideoCacheSlot {
                frame: fi,
                scaled: Some(ScaledImage { width: c.out_width, height: c.out_height, data }),
            },
        );
    }
    Ok(())
}

} // verus!
