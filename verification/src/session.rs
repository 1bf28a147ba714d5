//! A playback session: one opened container, at most one open audio context
//! and at most one open video context. Opening a stream of a kind replaces
//! any context of that kind wholesale; a failed operation on one context
//! leaves the other untouched.

use vstd::prelude::*;

use crate::MediaError;
use crate::audio::{audio_advance, audio_advance_spec, audio_seek, audio_seek_cursor, AudioContext, fresh_audio_context};
use crate::intensity::{compute_intensity, intensity_rel, IntensitySummary};
use crate::model::{
    first_audio_index, first_video_index, AudioStreamData, MediaContainer, Rational, StreamData,
    VideoStreamData,
};
use crate::video::{
    fresh_video_context, set_output_size_spec, video_advance, video_advance_spec,
    video_render_current, video_render_rel, video_seek_precise, video_seek_spec, VideoContext,
};

verus! {

/// The data of a video frame handed to a caller: the cached frame's
/// position, the stream's timebase (for the caller's time computation), the
/// row length of the rendered payload in pixels, and the rendered RGBA
/// bytes.
#[derive(Debug, PartialEq, Eq)]
pub struct VideoFrameParts {
    pub position: i64,
    pub time_base: Rational,
    pub stride: u64,
    pub payload: Vec<u8>,
}

/// The data of an audio block handed to a caller: the cached block's
/// position, the stream's timebase, and the samples.
#[derive(Debug, PartialEq, Eq)]
pub struct AudioFrameParts {
    pub position: i64,
    pub time_base: Rational,
    pub samples: Vec<i32>,
}

/// A playback session over one opened container.
pub struct MediaPlayback {
    pub container: MediaContainer,
    pub audio: Option<AudioContext>,
    pub video: Option<VideoContext>,
}

/// The stream index an audio open resolves to: the given one, or the first
/// audio stream of the container when none is given.
pub open spec fn resolve_audio_index(c: MediaContainer, index: Option<usize>) -> int {
    match index {
        Some(i) => i as int,
        None => first_audio_index(c.streams@, 0),
    }
}

/// The stream index a video open resolves to.
pub open spec fn resolve_video_index(c: MediaContainer, index: Option<usize>) -> int {
    match index {
        Some(i) => i as int,
        None => first_video_index(c.streams@, 0),
    }
}

/// Whether an audio open succeeds: the resolved index must name an audio
/// stream of the container.
pub open spec fn open_audio_ok(c: MediaContainer, index: Option<usize>) -> bool {
    let i = resolve_audio_index(c, index);
    0 <= i < c.streams@.len() && c.streams@[i].data is Audio
}

/// Whether a video open succeeds.
pub open spec fn open_video_ok(c: MediaContainer, index: Option<usize>) -> bool {
    let i = resolve_video_index(c, index);
    0 <= i < c.streams@.len() && c.streams@[i].data is Video
}

impl MediaPlayback {
    /// The container is well formed and each open context agrees with the
    /// stream it was opened on.
    pub open spec fn wf(self) -> bool {
        &&& self.container.wf()
        &&& match self.audio {
            Some(a) => {
                &&& a.stream_index < self.container.streams@.len()
                &&& self.container.streams@[a.stream_index as int].data is Audio
                &&& a.wf(self.container.audio_at(a.stream_index as int))
            },
            None => true,
        }
        &&& match self.video {
            Some(v) => {
                &&& v.stream_index < self.container.streams@.len()
                &&& self.container.streams@[v.stream_index as int].data is Video
                &&& v.wf(self.container.video_at(v.stream_index as int))
            },
            None => true,
        }
    }

    /// The opened audio stream's data.
    pub open spec fn audio_data(self) -> AudioStreamData {
        match self.audio {
            Some(a) => self.container.audio_at(a.stream_index as int),
            None => arbitrary(),
        }
    }

    /// The opened video stream's data.
    pub open spec fn video_data(self) -> VideoStreamData {
        match self.video {
            Some(v) => self.container.video_at(v.stream_index as int),
            None => arbitrary(),
        }
    }

    /// The position of the cached audio block, if one is held.
    pub open spec fn spec_audio_position(self) -> Option<i64> {
        match self.audio {
            Some(a) => a.spec_cached_position(self.audio_data()),
            None => None,
        }
    }

    /// The position of the cached video frame, if one is held.
    pub open spec fn spec_video_position(self) -> Option<i64> {
        match self.video {
            Some(v) => v.spec_cached_position(self.video_data()),
            None => None,
        }
    }

    /// Open a session over a parsed container; no stream is opened yet.
    pub fn from_container(container: MediaContainer) -> (s: MediaPlayback)
        requires
            container.wf(),
        ensures
            s == (MediaPlayback { container, audio: None, video: None }),
            s.wf(),
    {
        MediaPlayback { container, audio: None, video: None }
    }

    /// The container's duration, in microseconds.
    pub fn duration(&self) -> (r: i64)
        ensures
            r == self.container.duration,
    {
        self.container.duration
    }

    /// One human-readable descriptor per container stream, in container
    /// order, whether or not the stream is opened.
    pub fn describe_streams(&self) -> (r: Vec<String>)
        ensures
            r@.len() == self.container.streams@.len(),
            forall|i: int|
                0 <= i < r@.len() ==> r@[i] == self.container.streams@[i].description,
    {
        let mut out: Vec<String> = Vec::new();
        let mut i: usize = 0;
        while i < self.container.streams.len()
            invariant
                0 <= i <= self.container.streams@.len(),
                out@.len() == i,
                forall|k: int|
                    0 <= k < i ==> out@[k] == self.container.streams@[k].description,
            decreases self.container.streams@.len() - i,
        {
            out.push(self.container.streams[i].description.clone());
            i = i + 1;
        }
        out
    }

    /// Open the audio stream at `index`, or the container's first audio
    /// stream when none is given, replacing any open audio context; fails
    /// with `NoSuchStream` when the index is out of range, names a stream of
    /// another kind, or the container has no audio at all. The video context
    /// is untouched either way.
    pub fn open_audio(&mut self, index: Option<usize>) -> (r: Result<usize, MediaError>)
        requires
            old(self).wf(),
        ensures
            final(self).wf(),
            open_audio_ok(old(self).container, index) ==> {
                let i = resolve_audio_index(old(self).container, index);
                &&& r == Ok::<usize, MediaError>(i as usize)
                &&& *final(self) == (MediaPlayback {
                    audio: Some(
                        fresh_audio_context(old(self).container.audio_at(i), i as usize),
                    ),
                    ..*old(self)
                })
            },
            !open_audio_ok(old(self).container, index) ==> r == Err::<usize, MediaError>(
                MediaError::NoSuchStream,
            ) && *final(self) == *old(self),
            open_audio_rel(*old(self), *final(self), index, r),
    {
        let i: usize = match index {
            Some(i) => i,
            None => {
                let mut j: usize = 0;
                while j < self.container.streams.len() && !matches!(
                    &self.container.streams[j].data,
                    StreamData::Audio(_),
                )
                    invariant
                        0 <= j <= self.container.streams@.len(),
                        first_audio_index(self.container.streams@, 0) == first_audio_index(
                            self.container.streams@,
                            j as int,
                        ),
                    decreases self.container.streams@.len() - j,
                {
                    j = j + 1;
                }
                j
            },
        };
        if i >= self.container.streams.len() {
            return Err(MediaError::NoSuchStream);
        }
        let (tb, sr, ln) = match &self.container.streams[i].data {
            StreamData::Audio(d) => (d.time_base, d.sample_rate, d.length),
            _ => {
                return Err(MediaError::NoSuchStream);
            },
        };
        self.audio = Some(
            AudioContext {
                stream_index: i,
                time_base: tb,
                sample_rate: sr,
                length: ln,
                cursor: 0,
                cache: None,
            },
        );
        Ok(i)
    }

    /// Open the video stream at `index`, or the container's first video
    /// stream when none is given, replacing any open video context; fails
    /// with `NoSuchStream` as the audio open does. The audio context is
    /// untouched either way.
    pub fn open_video(&mut self, index: Option<usize>) -> (r: Result<usize, MediaError>)
        requires
            old(self).wf(),
        ensures
            final(self).wf(),
            open_video_ok(old(self).container, index) ==> {
                let i = resolve_video_index(old(self).container, index);
                &&& r == Ok::<usize, MediaError>(i as usize)
                &&& *final(self) == (MediaPlayback {
                    video: Some(
                        fresh_video_context(old(self).container.video_at(i), i as usize),
                    ),
                    ..*old(self)
                })
            },
            !open_video_ok(old(self).container, index) ==> r == Err::<usize, MediaError>(
                MediaError::NoSuchStream,
            ) && *final(self) == *old(self),
            open_video_rel(*old(self), *final(self), index, r),
    {
        let i: usize = match index {
            Some(i) => i,
            None => {
                let mut j: usize = 0;
                while j < self.container.streams.len() && !matches!(
                    &self.container.streams[j].data,
                    StreamData::Video(_),
                )
                    invariant
                        0 <= j <= self.container.streams@.len(),
                        first_video_index(self.container.streams@, 0) == first_video_index(
                            self.container.streams@,
                            j as int,
                        ),
                    decreases self.container.streams@.len() - j,
                {
                    j = j + 1;
                }
                j
            },
        };
        if i >= self.container.streams.len() {
            return Err(MediaError::NoSuchStream);
        }
        let (tb, fr, w, h, ln) = match &self.container.streams[i].data {
            StreamData::Video(d) => (d.time_base, d.frame_rate, d.width, d.height, d.length),
            _ => {
                return Err(MediaError::NoSuchStream);
            },
        };
        self.video = Some(
            VideoContext {
                stream_index: i,
                time_base: tb,
                frame_rate: fr,
                length: ln,
                width: w,
                height: h,
                out_width: w,
                out_height: h,
                cursor: 0,
                cache: None,
            },
        );
        Ok(i)
    }
}

/// How an audio open changes the session: on success the audio context is
/// replaced wholesale by a fresh context of the resolved stream.
pub open spec fn open_audio_rel(
    s0: MediaPlayback,
    s1: MediaPlayback,
    index: Option<usize>,
    r: Result<usize, MediaError>,
) -> bool {
    if open_audio_ok(s0.container, index) {
        let i = resolve_audio_index(s0.container, index);
        &&& r == Ok::<usize, MediaError>(i as usize)
        &&& s1 == (MediaPlayback {
            audio: Some(fresh_audio_context(s0.container.audio_at(i), i as usize)),
            ..s0
        })
    } else {
        r == Err::<usize, MediaError>(MediaError::NoSuchStream) && s1 == s0
    }
}

/// How a video open changes the session: on success the video context is
/// replaced wholesale by a fresh context of the resolved stream.
pub open spec fn open_video_rel(
    s0: MediaPlayback,
    s1: MediaPlayback,
    index: Option<usize>,
    r: Result<usize, MediaError>,
) -> bool {
    if open_video_ok(s0.container, index) {
        let i = resolve_video_index(s0.container, index);
        &&& r == Ok::<usize, MediaError>(i as usize)
        &&& s1 == (MediaPlayback {
            video: Some(fresh_video_context(s0.container.video_at(i), i as usize)),
            ..s0
        })
    } else {
        r == Err::<usize, MediaError>(MediaError::NoSuchStream) && s1 == s0
    }
}

/// Opening a video stream replaces the prior video context wholesale: the
/// session after opening stream `i2` is the same whether or not stream `i1`
/// was opened first, and the fresh context holds no cached unit, so no unit
/// of a discarded stream can ever be returned by a current-frame query.
pub proof fn lemma_open_video_replaces(
    s: MediaPlayback,
    s1: MediaPlayback,
    s2: MediaPlayback,
    s2_direct: MediaPlayback,
    i1: Option<usize>,
    i2: Option<usize>,
)
    requires
        open_video_rel(s, s1, i1, Ok(resolve_video_index(s.container, i1) as usize)),
        open_video_rel(s1, s2, i2, Ok(resolve_video_index(s1.container, i2) as usize)),
        open_video_rel(s, s2_direct, i2, Ok(resolve_video_index(s.container, i2) as usize)),
        open_video_ok(s.container, i1),
        open_video_ok(s.container, i2),
    ensures
        s2 == s2_direct,
        match s2.video {
            Some(v) => v.cache is None,
            None => false,
        },
        s2.spec_video_position() is None,
{
}

/// How an audio advance changes the session.
pub open spec fn advance_audio_rel(
    s0: MediaPlayback,
    s1: MediaPlayback,
    r: Result<bool, MediaError>,
) -> bool {
    match s0.audio {
        None => s1 == s0 && r == Err::<bool, MediaError>(MediaError::NoSuchStream),
        Some(a) => {
            let (a1, rr) = audio_advance_spec(s0.audio_data(), a);
            s1 == (MediaPlayback { audio: Some(a1), ..s0 }) && r == rr
        },
    }
}

/// How a video advance changes the session.
pub open spec fn advance_video_rel(
    s0: MediaPlayback,
    s1: MediaPlayback,
    r: Result<bool, MediaError>,
) -> bool {
    match s0.video {
        None => s1 == s0 && r == Err::<bool, MediaError>(MediaError::NoSuchStream),
        Some(v) => {
            let (v1, rr) = video_advance_spec(s0.video_data(), v);
            s1 == (MediaPlayback { video: Some(v1), ..s0 }) && r == rr
        },
    }
}

/// How a coarse audio seek changes the session.
pub open spec fn seek_audio_rel(
    s0: MediaPlayback,
    s1: MediaPlayback,
    position: i64,
    r: Result<(), MediaError>,
) -> bool {
    match s0.audio {
        None => s1 == s0 && r == Err::<(), MediaError>(MediaError::NoSuchStream),
        Some(a) => {
            &&& r == Ok::<(), MediaError>(())
            &&& s1 == (MediaPlayback {
                audio: Some(
                    AudioContext {
                        cursor: audio_seek_cursor(s0.audio_data().blocks@, position) as usize,
                        cache: None,
                        ..a
                    },
                ),
                ..s0
            })
        },
    }
}

/// How a frame-exact video seek changes the session.
pub open spec fn seek_video_rel(
    s0: MediaPlayback,
    s1: MediaPlayback,
    position: i64,
    r: Result<(), MediaError>,
) -> bool {
    match s0.video {
        None => s1 == s0 && r == Err::<(), MediaError>(MediaError::NoSuchStream),
        Some(v) => {
            let (v1, rr) = video_seek_spec(s0.video_data(), v, position);
            s1 == (MediaPlayback { video: Some(v1), ..s0 }) && r == rr
        },
    }
}

/// How an output-geometry change changes the session.
pub open spec fn set_video_size_rel(
    s0: MediaPlayback,
    s1: MediaPlayback,
    w: u32,
    h: u32,
    r: Result<(), MediaError>,
) -> bool {
    match s0.video {
        None => s1 == s0 && r == Err::<(), MediaError>(MediaError::NoSuchStream),
        Some(v) => {
            let (v1, rr) = set_output_size_spec(v, w, h);
            s1 == (MediaPlayback { video: Some(v1), ..s0 }) && r == rr
        },
    }
}

/// How rendering the current video frame changes the session.
pub open spec fn render_video_rel(
    s0: MediaPlayback,
    s1: MediaPlayback,
    r: Result<(), MediaError>,
) -> bool {
    match s0.video {
        None => s1 == s0 && r == Err::<(), MediaError>(MediaError::NoSuchStream),
        Some(v) => match s1.video {
            Some(v1) => s1 == (MediaPlayback { video: Some(v1), ..s0 }) && video_render_rel(
                s0.video_data(),
                v,
                v1,
                r,
            ),
            None => false,
        },
    }
}

/// How a loudness computation changes the session.
pub open spec fn intensity_session_rel(
    s0: MediaPlayback,
    s1: MediaPlayback,
    until: i64,
    step: i64,
    r: Result<IntensitySummary, MediaError>,
) -> bool {
    match s0.audio {
        None => s1 == s0 && r == Err::<IntensitySummary, MediaError>(MediaError::NoSuchStream),
        Some(a) => match s1.audio {
            Some(a1) => s1 == (MediaPlayback { audio: Some(a1), ..s0 }) && intensity_rel(
                s0.audio_data(),
                a,
                a1,
                until,
                step,
                r,
            ),
            None => false,
        },
    }
}

/// How the ensure-current audio position query changes the session: with a
/// cached block it is a pure query; with none it advances once and reports
/// the position then cached, if any.
pub open spec fn ensure_audio_position_rel(
    s0: MediaPlayback,
    s1: MediaPlayback,
    r: Result<Option<i64>, MediaError>,
) -> bool {
    match s0.audio {
        None => s1 == s0 && r == Err::<Option<i64>, MediaError>(MediaError::NoSuchStream),
        Some(a) => if a.cache is Some {
            s1 == s0 && r == Ok::<Option<i64>, MediaError>(s0.spec_audio_position())
        } else {
            let (a1, rr) = audio_advance_spec(s0.audio_data(), a);
            &&& s1 == (MediaPlayback { audio: Some(a1), ..s0 })
            &&& r == match rr {
                Ok(_) => Ok::<Option<i64>, MediaError>(s1.spec_audio_position()),
                Err(e) => Err(e),
            }
        },
    }
}

/// How the ensure-current video position query changes the session.
pub open spec fn ensure_video_position_rel(
    s0: MediaPlayback,
    s1: MediaPlayback,
    r: Result<Option<i64>, MediaError>,
) -> bool {
    match s0.video {
        None => s1 == s0 && r == Err::<Option<i64>, MediaError>(MediaError::NoSuchStream),
        Some(v) => if v.cache is Some {
            s1 == s0 && r == Ok::<Option<i64>, MediaError>(s0.spec_video_position())
        } else {
            let (v1, rr) = video_advance_spec(s0.video_data(), v);
            &&& s1 == (MediaPlayback { video: Some(v1), ..s0 })
            &&& r == match rr {
                Ok(_) => Ok::<Option<i64>, MediaError>(s1.spec_video_position()),
                Err(e) => Err(e),
            }
        },
    }
}

/// How moving to the next audio block changes the session: one advance, then
/// the position of whatever block the cache then holds.
pub open spec fn move_next_audio_rel(
    s0: MediaPlayback,
    s1: MediaPlayback,
    r: Result<Option<i64>, MediaError>,
) -> bool {
    match s0.audio {
        None => s1 == s0 && r == Err::<Option<i64>, MediaError>(MediaError::NoSuchStream),
        Some(a) => {
            let (a1, rr) = audio_advance_spec(s0.audio_data(), a);
            &&& s1 == (MediaPlayback { audio: Some(a1), ..s0 })
            &&& r == match rr {
                Ok(_) => Ok::<Option<i64>, MediaError>(s1.spec_audio_position()),
                Err(e) => Err(e),
            }
        },
    }
}

/// How moving to the next video frame changes the session.
pub open spec fn move_next_video_rel(
    s0: MediaPlayback,
    s1: MediaPlayback,
    r: Result<Option<i64>, MediaError>,
) -> bool {
    match s0.video {
        None => s1 == s0 && r == Err::<Option<i64>, MediaError>(MediaError::NoSuchStream),
        Some(v) => {
            let (v1, rr) = video_advance_spec(s0.video_data(), v);
            &&& s1 == (MediaPlayback { video: Some(v1), ..s0 })
            &&& r == match rr {
                Ok(_) => Ok::<Option<i64>, MediaError>(s1.spec_video_position()),
                Err(e) => Err(e),
            }
        },
    }
}

/// How polling the next audio block changes the session: as a move, except
/// that the end of the stream is reported as `Ok(None)` rather than as the
/// stale cached position.
pub open spec fn poll_next_audio_rel(
    s0: MediaPlayback,
    s1: MediaPlayback,
    r: Result<Option<i64>, MediaError>,
) -> bool {
    match s0.audio {
        None => s1 == s0 && r == Err::<Option<i64>, MediaError>(MediaError::NoSuchStream),
        Some(a) => {
            let (a1, rr) = audio_advance_spec(s0.audio_data(), a);
            &&& s1 == (MediaPlayback { audio: Some(a1), ..s0 })
            &&& r == match rr {
                Ok(true) => Ok::<Option<i64>, MediaError>(s1.spec_audio_position()),
                Ok(false) => Ok::<Option<i64>, MediaError>(None),
                Err(e) => Err(e),
            }
        },
    }
}

/// What a video transfer query returns: the cached frame's position and the
/// rendered image at the output geometry, exactly as held in the cache slot.
pub open spec fn video_parts_rel(s: MediaPlayback, r: Result<VideoFrameParts, MediaError>) -> bool {
    match s.video {
        None => r == Err::<VideoFrameParts, MediaError>(MediaError::NoSuchStream),
        Some(v) => match v.cache {
            None => r == Err::<VideoFrameParts, MediaError>(MediaError::DecodeFailure),
            Some(slot) => match slot.scaled {
                None => r == Err::<VideoFrameParts, MediaError>(MediaError::DecodeFailure),
                Some(im) => match r {
                    Ok(parts) => {
                        &&& parts.position == s.video_data().frames@[slot.frame as int].position
                        &&& parts.time_base == v.time_base
                        &&& parts.stride == im.width as u64
                        &&& parts.payload@ == im.data@
                    },
                    Err(_) => false,
                },
            },
        },
    }
}

/// What an audio transfer query returns: the cached block's position and its
/// samples, exactly as held in the stream data.
pub open spec fn audio_parts_rel(s: MediaPlayback, r: Result<AudioFrameParts, MediaError>) -> bool {
    match s.audio {
        None => r == Err::<AudioFrameParts, MediaError>(MediaError::NoSuchStream),
        Some(a) => match a.cache {
            None => r == Err::<AudioFrameParts, MediaError>(MediaError::DecodeFailure),
            Some(j) => match r {
                Ok(parts) => {
                    &&& parts.position == s.audio_data().blocks@[j as int].position
                    &&& parts.time_base == a.time_base
                    &&& parts.samples@ == s.audio_data().blocks@[j as int].samples@
                },
                Err(_) => false,
            },
        },
    }
}

/// How handing out the current video frame changes the session: the cached
/// frame is rendered at the output geometry if need be, then its position
/// and rendered bytes are returned; with no video context or no cached
/// frame, nothing changes and the matching error is returned.
pub open spec fn send_video_frame_rel(
    s0: MediaPlayback,
    s1: MediaPlayback,
    r: Result<VideoFrameParts, MediaError>,
) -> bool {
    match s0.video {
        None => s1 == s0 && r == Err::<VideoFrameParts, MediaError>(MediaError::NoSuchStream),
        Some(v) => match v.cache {
            None => s1 == s0 && r == Err::<VideoFrameParts, MediaError>(
                MediaError::DecodeFailure,
            ),
            Some(_) => render_video_rel(s0, s1, Ok(())) && video_parts_rel(s1, r),
        },
    }
}

/// An exact copy of a byte buffer.
fn copy_bytes(src: &Vec<u8>) -> (r: Vec<u8>)
    ensures
        r@ == src@,
{
    let mut out: Vec<u8> = Vec::new();
    let mut i: usize = 0;
    while i < src.len()
        invariant
            0 <= i <= src@.len(),
            out@ == src@.take(i as int),
        decreases src@.len() - i,
    {
        out.push(src[i]);
        proof {
            assert(out@ =~= src@.take(i as int + 1));
        }
        i = i + 1;
    }
    proof {
        assert(src@.take(src@.len() as int) =~= src@);
    }
    out
}

/// An exact copy of a sample buffer.
fn copy_samples(src: &Vec<i32>) -> (r: Vec<i32>)
    ensures
        r@ == src@,
{
    let mut out: Vec<i32> = Vec::new();
    let mut i: usize = 0;
    while i < src.len()
        invariant
            0 <= i <= src@.len(),
            out@ == src@.take(i as int),
        decreases src@.len() - i,
    {
        out.push(src[i]);
        proof {
            assert(out@ =~= src@.take(i as int + 1));
        }
        i = i + 1;
    }
    proof {
        assert(src@.take(src@.len() as int) =~= src@);
    }
    out
}

impl MediaPlayback {
    /// Decode the next audio block into the audio cache slot; `Ok(false)`
    /// reports the end of the stream.
    pub fn advance_audio(&mut self) -> (r: Result<bool, MediaError>)
        requires
            old(self).wf(),
        ensures
            final(self).wf(),
            advance_audio_rel(*old(self), *final(self), r),
    {
        let a = match &mut self.audio {
            None => {
                return Err(MediaError::NoSuchStream);
            },
            Some(a) => a,
        };
        let idx = a.stream_index;
        match &self.container.streams[idx].data {
            StreamData::Audio(d) => audio_advance(d, a),
            _ => {
                proof {
                    assert(false);
                }
                Err(MediaError::NoSuchStream)
            },
        }
    }

    /// Decode the next video frame into the video cache slot; `Ok(false)`
    /// reports the end of the stream.
    pub fn advance_video(&mut self) -> (r: Result<bool, MediaError>)
        requires
            old(self).wf(),
        ensures
            final(self).wf(),
            advance_video_rel(*old(self), *final(self), r),
    {
        let v = match &mut self.video {
            None => {
                return Err(MediaError::NoSuchStream);
            },
            Some(v) => v,
        };
        let idx = v.stream_index;
        match &self.container.streams[idx].data {
            StreamData::Video(d) => video_advance(d, v),
            _ => {
                proof {
                    assert(false);
                }
                Err(MediaError::NoSuchStream)
            },
        }
    }

    /// Coarse audio seek: land at or before `position` and clear the cache
    /// slot.
    pub fn seek_audio(&mut self, position: i64) -> (r: Result<(), MediaError>)
        requires
            old(self).wf(),
        ensures
            final(self).wf(),
            seek_audio_rel(*old(self), *final(self), position, r),
    {
        let a = match &mut self.audio {
            None => {
                return Err(MediaError::NoSuchStream);
            },
            Some(a) => a,
        };
        let idx = a.stream_index;
        match &self.container.streams[idx].data {
            StreamData::Audio(d) => audio_seek(d, a, position),
            _ => {
                proof {
                    assert(false);
                }
                Err(MediaError::NoSuchStream)
            },
        }
    }

    /// Frame-exact video seek: leaves the first frame at or after `position`
    /// in the cache slot, or fails as `video_seek_spec` says.
    pub fn seek_video_precise(&mut self, position: i64) -> (r: Result<(), MediaError>)
        requires
            old(self).wf(),
        ensures
            final(self).wf(),
            seek_video_rel(*old(self), *final(self), position, r),
    {
        let v = match &mut self.video {
            None => {
                return Err(MediaError::NoSuchStream);
            },
            Some(v) => v,
        };
        let idx = v.stream_index;
        match &self.container.streams[idx].data {
            StreamData::Video(d) => video_seek_precise(d, v, position),
            _ => {
                proof {
                    assert(false);
                }
                Err(MediaError::NoSuchStream)
            },
        }
    }

    /// Reconfigure the video output geometry; the current frame is not
    /// re-rendered.
    pub fn set_video_output_size(&mut self, w: u32, h: u32) -> (r: Result<(), MediaError>)
        requires
            old(self).wf(),
        ensures
            final(self).wf(),
            set_video_size_rel(*old(self), *final(self), w, h, r),
    {
        let v = match &mut self.video {
            None => {
                return Err(MediaError::NoSuchStream);
            },
            Some(v) => v,
        };
        crate::video::video_set_output_size(v, w, h)
    }

    /// Render the cached video frame at the output geometry, if not already
    /// rendered at it.
    pub fn render_current_video_frame(&mut self) -> (r: Result<(), MediaError>)
        requires
            old(self).wf(),
        ensures
            final(self).wf(),
            render_video_rel(*old(self), *final(self), r),
    {
        let v = match &mut self.video {
            None => {
                return Err(MediaError::NoSuchStream);
            },
            Some(v) => v,
        };
        let idx = v.stream_index;
        match &self.container.streams[idx].data {
            StreamData::Video(d) => video_render_current(d, v),
            _ => {
                proof {
                    assert(false);
                }
                Err(MediaError::NoSuchStream)
            },
        }
    }

    /// Windowed loudness over the audio stream, from the audio context's
    /// current cursor until the decoded position reaches `until`.
    pub fn compute_intensity(&mut self, until: i64, step: i64) -> (r: Result<
        IntensitySummary,
        MediaError,
    >)
        requires
            old(self).wf(),
            1 <= step,
        ensures
            final(self).wf(),
            intensity_session_rel(*old(self), *final(self), until, step, r),
    {
        let a = match &mut self.audio {
            None => {
                return Err(MediaError::NoSuchStream);
            },
            Some(a) => a,
        };
        let idx = a.stream_index;
        match &self.container.streams[idx].data {
            StreamData::Audio(d) => compute_intensity(d, a, until, step),
            _ => {
                proof {
                    assert(false);
                }
                Err(MediaError::NoSuchStream)
            },
        }
    }

    /// The cached audio block's position: a pure query, no decoding.
    pub fn current_audio_position(&self) -> (r: Option<i64>)
        requires
            self.wf(),
        ensures
            r == self.spec_audio_position(),
    {
        match &self.audio {
            None => None,
            Some(a) => match a.cache {
                None => None,
                Some(j) => {
                    let idx = a.stream_index;
                    match &self.container.streams[idx].data {
                        StreamData::Audio(d) => Some(d.blocks[j].position),
                        _ => {
                            proof {
                                assert(false);
                            }
                            None
                        },
                    }
                },
            },
        }
    }

    /// The cached audio block's position, decoding one block first when
    /// nothing is cached yet (the explicit ensure-current form of the
    /// current-position query).
    pub fn ensure_current_audio_position(&mut self) -> (r: Result<Option<i64>, MediaError>)
        requires
            old(self).wf(),
        ensures
            final(self).wf(),
            ensure_audio_position_rel(*old(self), *final(self), r),
    {
        let cached = match &self.audio {
            None => {
                return Err(MediaError::NoSuchStream);
            },
            Some(a) => a.cache.is_some(),
        };
        if cached {
            Ok(self.current_audio_position())
        } else {
            match self.advance_audio() {
                Err(e) => Err(e),
                Ok(_) => Ok(self.current_audio_position()),
            }
        }
    }

    /// The cached video frame's position, decoding one frame first when
    /// nothing is cached yet.
    pub fn ensure_current_video_position(&mut self) -> (r: Result<Option<i64>, MediaError>)
        requires
            old(self).wf(),
        ensures
            final(self).wf(),
            ensure_video_position_rel(*old(self), *final(self), r),
    {
        let cached = match &self.video {
            None => {
                return Err(MediaError::NoSuchStream);
            },
            Some(v) => v.cache.is_some(),
        };
        if cached {
            Ok(self.current_video_position())
        } else {
            match self.advance_video() {
                Err(e) => Err(e),
                Ok(_) => Ok(self.current_video_position()),
            }
        }
    }

    /// The rendered current video frame, as the plain values the wire codec
    /// takes. Fails when no frame is cached or its rendering was never
    /// requested.
    pub fn current_video_transfer(&self) -> (r: Result<VideoFrameParts, MediaError>)
        requires
            self.wf(),
        ensures
            video_parts_rel(*self, r),
    {
        let v = match &self.video {
            None => {
                return Err(MediaError::NoSuchStream);
            },
            Some(v) => v,
        };
        let slot = match &v.cache {
            None => {
                return Err(MediaError::DecodeFailure);
            },
            Some(slot) => slot,
        };
        let im = match &slot.scaled {
            None => {
                return Err(MediaError::DecodeFailure);
            },
            Some(im) => im,
        };
        let idx = v.stream_index;
        let fi = slot.frame;
        match &self.container.streams[idx].data {
            StreamData::Video(d) => Ok(
                VideoFrameParts {
                    position: d.frames[fi].position,
                    time_base: v.time_base,
                    stride: im.width as u64,
                    payload: copy_bytes(&im.data),
                },
            ),
            _ => {
                proof {
                    assert(false);
                }
                Err(MediaError::NoSuchStream)
            },
        }
    }

    /// The cached current audio block, as the plain values the wire codec
    /// takes. Fails when no block is cached; it does not decode.
    pub fn current_audio_transfer(&self) -> (r: Result<AudioFrameParts, MediaError>)
        requires
            self.wf(),
        ensures
            audio_parts_rel(*self, r),
    {
        let a = match &self.audio {
            None => {
                return Err(MediaError::NoSuchStream);
            },
            Some(a) => a,
        };
        let j = match a.cache {
            None => {
                return Err(MediaError::DecodeFailure);
            },
            Some(j) => j,
        };
        let idx = a.stream_index;
        match &self.container.streams[idx].data {
            StreamData::Audio(d) => Ok(
                AudioFrameParts {
                    position: d.blocks[j].position,
                    time_base: a.time_base,
                    samples: copy_samples(&d.blocks[j].samples),
                },
            ),
            _ => {
                proof {
                    assert(false);
                }
                Err(MediaError::NoSuchStream)
            },
        }
    }

    /// The cached video frame's position: a pure query, no decoding.
    pub fn current_video_position(&self) -> (r: Option<i64>)
        requires
            self.wf(),
        ensures
            r == self.spec_video_position(),
    {
        match &self.video {
            None => None,
            Some(v) => match &v.cache {
                None => None,
                Some(slot) => {
                    let idx = v.stream_index;
                    let fi = slot.frame;
                    match &self.container.streams[idx].data {
                        StreamData::Video(d) => Some(d.frames[fi].position),
                        _ => {
                            proof {
                                assert(false);
                            }
                            None
                        },
                    }
                },
            },
        }
    }
}

} // verus!
