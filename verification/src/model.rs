//! The data model of an opened container: stream parameters and the decoded
//! units a demuxer/decoder hands out, held as plain values so that every
//! operation over them can be specified exactly.
//!
//! A container is described by data: per stream, its fixed parameters
//! (timebase, geometry, sample rate) and the ordered run of units its decoder
//! yields. The engine's contexts keep cursors into these runs; all seek,
//! advance and analysis logic is stated over them.

use vstd::prelude::*;

verus! {

/// The largest width or height, in pixels, that the output scaler accepts.
pub const MAX_DIMENSION: u32 = 16384;

/// A positive rational, used for a stream's position timebase
/// (seconds per native unit) and a video stream's frame rate.
#[derive(Clone, Copy, Debug, PartialEq, Eq, Structural)]
pub struct Rational {
    pub num: i32,
    pub den: i32,
}

impl Rational {
    pub open spec fn wf(self) -> bool {
        self.num >= 0 && self.den >= 1
    }
}

/// One decoded block of audio samples. `position` is in native stream units
/// (sample offsets); a `corrupt` block stands for data the decoder rejects.
///
/// Samples are signed fixed-point amplitudes.
pub struct AudioBlock {
    pub position: i64,
    pub corrupt: bool,
    pub samples: Vec<i32>,
}

/// One coded video picture. `data` is the decoded image, interleaved RGBA,
/// 4 bytes per pixel, rows of the stream's width.
pub struct VideoFrame {
    pub position: i64,
    pub keyframe: bool,
    pub corrupt: bool,
    pub data: Vec<u8>,
}

/// An audio stream: fixed decode parameters plus the run of blocks its
/// decoder yields, ordered by position.
pub struct AudioStreamData {
    pub time_base: Rational,
    pub sample_rate: u32,
    pub length: i64,
    pub blocks: Vec<AudioBlock>,
}

impl AudioStreamData {
    /// Blocks sit at non-negative positions, do not overlap (each block's
    /// position plus its sample count is at most the next block's position),
    /// and every block's end fits in an `i64`.
    pub open spec fn wf(self) -> bool {
        &&& self.time_base.wf()
        &&& self.sample_rate >= 1
        &&& self.length >= 0
        &&& forall|i: int|
            0 <= i < self.blocks@.len() ==> (#[trigger] self.blocks@[i]).position >= 0
                && self.blocks@[i].position + self.blocks@[i].samples@.len() <= i64::MAX
        &&& forall|i: int|
            0 <= i < self.blocks@.len() - 1 ==> (#[trigger] self.blocks@[i]).position
                + self.blocks@[i].samples@.len() <= self.blocks@[i + 1].position
    }
}

/// A video stream: fixed decode parameters, the frame geometry, and the run
/// of frames its decoder yields, at strictly increasing positions.
pub struct VideoStreamData {
    pub time_base: Rational,
    pub frame_rate: Rational,
    pub width: u32,
    pub height: u32,
    pub length: i64,
    pub frames: Vec<VideoFrame>,
}

impl VideoStreamData {
    pub open spec fn wf(self) -> bool {
        &&& self.time_base.wf()
        &&& self.frame_rate.wf()
        &&& 1 <= self.width <= MAX_DIMENSION
        &&& 1 <= self.height <= MAX_DIMENSION
        &&& self.length >= 0
        &&& forall|i: int|
            0 <= i < self.frames@.len() ==> (#[trigger] self.frames@[i]).position >= 0
                && self.frames@[i].data@.len() == self.width * self.height * 4
        &&& forall|i: int|
            0 <= i < self.frames@.len() - 1 ==> (#[trigger] self.frames@[i]).position
                < self.frames@[i + 1].position
    }
}

/// What one container stream carries. Streams of other kinds (subtitles,
/// attachments) are listed but cannot be opened.
pub enum StreamData {
    Audio(AudioStreamData),
    Video(VideoStreamData),
    Other,
}

impl StreamData {
    pub open spec fn wf(self) -> bool {
        match self {
            StreamData::Audio(d) => d.wf(),
            StreamData::Video(d) => d.wf(),
            StreamData::Other => true,
        }
    }

    pub open spec fn is_audio(self) -> bool {
        self is Audio
    }

    pub open spec fn is_video(self) -> bool {
        self is Video
    }
}

/// One container stream: a human-readable descriptor plus its data.
pub struct StreamDesc {
    pub description: String,
    pub data: StreamData,
}

/// An opened container: its duration (in microseconds) and its streams, in
/// container order; a stream's index is its place in this list.
pub struct MediaContainer {
    pub duration: i64,
    pub streams: Vec<StreamDesc>,
}

impl MediaContainer {
    pub open spec fn wf(self) -> bool {
        &&& self.duration >= 0
        &&& self.streams@.len() <= 0x7fffffff
        &&& forall|i: int|
            0 <= i < self.streams@.len() ==> (#[trigger] self.streams@[i]).data.wf()
    }

    /// The audio stream data at index `i`, when that stream is audio.
    pub open spec fn audio_at(self, i: int) -> AudioStreamData
        recommends
            0 <= i < self.streams@.len(),
            self.streams@[i].data is Audio,
    {
        match self.streams@[i].data {
            StreamData::Audio(d) => d,
            _ => arbitrary(),
        }
    }

    /// The video stream data at index `i`, when that stream is video.
    pub open spec fn video_at(self, i: int) -> VideoStreamData
        recommends
            0 <= i < self.streams@.len(),
            self.streams@[i].data is Video,
    {
        match self.streams@[i].data {
            StreamData::Video(d) => d,
            _ => arbitrary(),
        }
    }
}

/// The index of the first audio stream at or after `from`, or the number of
/// streams when there is none: the container's default audio stream.
pub open spec fn first_audio_index(streams: Seq<StreamDesc>, from: int) -> int
    decreases streams.len() - from,
{
    if from < 0 || from >= streams.len() {
        streams.len() as int
    } else if streams[from].data is Audio {
        from
    } else {
        first_audio_index(streams, from + 1)
    }
}

/// The index of the first video stream at or after `from`, or the number of
/// streams when there is none: the container's default video stream.
pub open spec fn first_video_index(streams: Seq<StreamDesc>, from: int) -> int
    decreases streams.len() - from,
{
    if from < 0 || from >= streams.len() {
        streams.len() as int
    } else if streams[from].data is Video {
        from
    } else {
        first_video_index(streams, from + 1)
    }
}

} // verus!
