//! The session registry and the command layer over it: every caller-facing
//! operation takes an opaque integer identifier, and an identifier that was
//! never handed out by `open_media` yields `UnknownSession` — an outcome
//! distinct from `NoSuchStream`, which reports a missing stream kind on a
//! session that does exist.

use vstd::prelude::*;

use std::collections::HashMap;

use crate::MediaError;
use crate::intensity::IntensitySummary;
use crate::model::MediaContainer;
use crate::session::{
    audio_parts_rel, ensure_audio_position_rel, ensure_video_position_rel, intensity_session_rel,
    move_next_audio_rel, move_next_video_rel, open_audio_rel, open_video_rel, poll_next_audio_rel,
    seek_audio_rel, seek_video_rel, send_video_frame_rel, set_video_size_rel, AudioFrameParts,
    MediaPlayback, VideoFrameParts,
};

verus! {

broadcast use vstd::std_specs::hash::group_hash_axioms;

/// Container-level status: the indices of the open contexts (-1 when a kind
/// is not open), the container duration, and one descriptor per stream.
#[derive(Debug, PartialEq, Eq)]
pub struct MediaStatus {
    pub audio_index: i32,
    pub video_index: i32,
    pub duration: i64,
    pub streams: Vec<String>,
}

/// Audio-stream status: length in native units and the decoder's sample
/// rate.
#[derive(Debug, PartialEq, Eq)]
pub struct AudioStatus {
    pub length: i64,
    pub sample_rate: u32,
}

/// Video-stream status: length in native units, frame rate, the original
/// geometry and the configured output geometry.
#[derive(Debug, PartialEq, Eq)]
pub struct VideoStatus {
    pub length: i64,
    pub frame_rate: crate::model::Rational,
    pub width: u32,
    pub height: u32,
    pub out_width: u32,
    pub out_height: u32,
}


/// Replacing one session of a well-formed registry by a well-formed session
/// keeps the registry well formed.
proof fn lemma_registry_wf_after_update(
    r0: PlaybackRegistry,
    r1: PlaybackRegistry,
    id: i32,
    s: MediaPlayback,
)
    requires
        r0.wf(),
        s.wf(),
        r0.table@.contains_key(id),
        r1.next_id == r0.next_id,
        r1.table@ == r0.table@.insert(id, s),
    ensures
        r1.wf(),
{
    assert forall|k: i32| #[trigger] r1.table@.dom().contains(k) implies 0 <= k < r1.next_id
        && r1.table@[k].wf() by {
        if k == id {
            assert(r0.table@.dom().contains(id));
        } else {
            assert(r0.table@.dom().contains(k));
        }
    }
}

/// The registry of open sessions: identifiers count up from zero and are
/// never reused, so an identifier at or beyond `next_id` was never handed
/// out.
pub struct PlaybackRegistry {
    pub next_id: i32,
    pub table: HashMap<i32, MediaPlayback>,
}

impl PlaybackRegistry {
    /// Every held identifier was handed out earlier (it is below `next_id`)
    /// and maps to a well-formed session.
    pub open spec fn wf(self) -> bool {
        &&& self.next_id >= 0
        &&& forall|k: i32|
            #[trigger] self.table@.dom().contains(k) ==> 0 <= k < self.next_id
                && self.table@[k].wf()
    }

    pub fn new() -> (r: PlaybackRegistry)
        ensures
            r.wf(),
            r.next_id == 0,
            r.table@ == Map::<i32, MediaPlayback>::empty(),
    {
        PlaybackRegistry { next_id: 0, table: HashMap::new() }
    }

    /// Register a session over a freshly parsed container and hand out its
    /// identifier, which no earlier open ever returned.
    pub fn open_media(&mut self, container: MediaContainer) -> (r: i32)
        requires
            old(self).wf(),
            container.wf(),
            old(self).next_id < i32::MAX,
        ensures
            final(self).wf(),
            r == old(self).next_id,
            !old(self).table@.contains_key(r),
            final(self).next_id == old(self).next_id + 1,
            final(self).table@ == old(self).table@.insert(
                r,
                MediaPlayback { container, audio: None, video: None },
            ),
    {
        let id = self.next_id;
        self.next_id = self.next_id + 1;
        let s = MediaPlayback::from_container(container);
        self.table.insert(id, s);
        proof {
            assert forall|k: i32| #[trigger] self.table@.dom().contains(k) implies 0 <= k
                < self.next_id && self.table@[k].wf() by {
                if k != id {
                    assert(old(self).table@.dom().contains(k));
                }
            }
        }
        id
    }

    /// Drop the session under `id`, releasing its container and contexts;
    /// every later operation on `id` yields `UnknownSession`.
    pub fn close_media(&mut self, id: i32) -> (r: Result<(), MediaError>)
        requires
            old(self).wf(),
        ensures
            final(self).wf(),
            final(self).next_id == old(self).next_id,
            r == Ok::<(), MediaError>(()) <==> old(self).table@.contains_key(id),
            r is Err ==> r == Err::<(), MediaError>(MediaError::UnknownSession),
            final(self).table@ == old(self).table@.remove(id),
    {
        let r = match self.table.remove(&id) {
            Some(_) => Ok(()),
            None => {
                proof {
                    assert(old(self).table@.remove(id) =~= old(self).table@);
                }
                Err(MediaError::UnknownSession)
            },
        };
        proof {
            assert forall|k: i32| #[trigger] self.table@.dom().contains(k) implies 0 <= k
                < self.next_id && self.table@[k].wf() by {
                assert(old(self).table@.dom().contains(k));
            }
        }
        r
    }

    /// Container-level status of the session under `id`.
    pub fn media_status(&self, id: i32) -> (r: Result<MediaStatus, MediaError>)
        requires
            self.wf(),
        ensures
            r is Err <==> !self.table@.contains_key(id),
            r is Err ==> r == Err::<MediaStatus, MediaError>(MediaError::UnknownSession),
            self.table@.contains_key(id) ==> match r {
                Ok(st) => {
                    let s = self.table@[id];
                    &&& st.audio_index as int == match s.audio {
                        Some(a) => a.stream_index as int,
                        None => -1,
                    }
                    &&& st.video_index as int == match s.video {
                        Some(v) => v.stream_index as int,
                        None => -1,
                    }
                    &&& st.duration == s.container.duration
                    &&& st.streams@.len() == s.container.streams@.len()
                    &&& forall|i: int|
                        0 <= i < st.streams@.len() ==> st.streams@[i]
                            == s.container.streams@[i].description
                },
                Err(_) => false,
            },
    {
        let s = match self.table.get(&id) {
            None => {
                return Err(MediaError::UnknownSession);
            },
            Some(s) => s,
        };
        let audio_index: i32 = match &s.audio {
            Some(a) => a.stream_index as i32,
            None => -1,
        };
        let video_index: i32 = match &s.video {
            Some(v) => v.stream_index as i32,
            None => -1,
        };
        Ok(
            MediaStatus {
                audio_index,
                video_index,
                duration: s.duration(),
                streams: s.describe_streams(),
            },
        )
    }

    /// Status of the open audio context of the session under `id`.
    pub fn audio_status(&self, id: i32) -> (r: Result<AudioStatus, MediaError>)
        requires
            self.wf(),
        ensures
            !self.table@.contains_key(id) <==> r == Err::<AudioStatus, MediaError>(
                MediaError::UnknownSession,
            ),
            self.table@.contains_key(id) ==> match self.table@[id].audio {
                None => r == Err::<AudioStatus, MediaError>(MediaError::NoSuchStream),
                Some(a) => match r {
                    Ok(st) => st.length == a.length && st.sample_rate == a.sample_rate,
                    Err(_) => false,
                },
            },
    {
        let s = match self.table.get(&id) {
            None => {
                return Err(MediaError::UnknownSession);
            },
            Some(s) => s,
        };
        match &s.audio {
            None => Err(MediaError::NoSuchStream),
            Some(a) => Ok(AudioStatus { length: a.length, sample_rate: a.sample_rate }),
        }
    }

    /// Status of the open video context of the session under `id`; original
    /// and output geometry are reported separately.
    pub fn video_status(&self, id: i32) -> (r: Result<VideoStatus, MediaError>)
        requires
            self.wf(),
        ensures
            !self.table@.contains_key(id) <==> r == Err::<VideoStatus, MediaError>(
                MediaError::UnknownSession,
            ),
            self.table@.contains_key(id) ==> match self.table@[id].video {
                None => r == Err::<VideoStatus, MediaError>(MediaError::NoSuchStream),
                Some(v) => match r {
                    Ok(st) => {
                        &&& st.length == v.length
                        &&& st.frame_rate == v.frame_rate
                        &&& st.width == v.width
                        &&& st.height == v.height
                        &&& st.out_width == v.out_width
                        &&& st.out_height == v.out_height
                    },
                    Err(_) => false,
                },
            },
    {
        let s = match self.table.get(&id) {
            None => {
                return Err(MediaError::UnknownSession);
            },
            Some(s) => s,
        };
        match &s.video {
            None => Err(MediaError::NoSuchStream),
            Some(v) => Ok(
                VideoStatus {
                    length: v.length,
                    frame_rate: v.frame_rate,
                    width: v.width,
                    height: v.height,
                    out_width: v.out_width,
                    out_height: v.out_height,
                },
            ),
        }
    }
    /// Open an audio stream on the session under `id`, replacing any open
    /// audio context.
    ///
    /// An identifier never handed out by `open_media` yields
    /// `UnknownSession` and changes nothing.
    pub fn open_audio(&mut self, id: i32, index: Option<usize>) -> (r: Result<usize, MediaError>)
        requires
            old(self).wf(),
        ensures
            final(self).wf(),
            final(self).next_id == old(self).next_id,
            r == Err::<usize, MediaError>(MediaError::UnknownSession) <==> !old(self).table@.contains_key(id),
            !old(self).table@.contains_key(id) ==> final(self).table@ == old(self).table@,
            old(self).table@.contains_key(id) ==> final(self).table@.contains_key(id) && final(self).table@ == old(self).table@.insert(id, final(self).table@[id]) && open_audio_rel(old(self).table@[id], final(self).table@[id], index, r),
    {
        let mut s = match self.table.remove(&id) {
            None => {
                proof {
                    assert(old(self).table@.remove(id) =~= old(self).table@);
                    assert(self.table@ == old(self).table@);
                }
                return Err(MediaError::UnknownSession);
            },
            Some(s) => s,
        };
        let r = s.open_audio(index);
        self.table.insert(id, s);
        proof {
            assert(self.table@ =~= old(self).table@.insert(id, self.table@[id]));
            lemma_registry_wf_after_update(*old(self), *self, id, self.table@[id]);
        }
        r
    }

    /// Open a video stream on the session under `id`, replacing any open
    /// video context.
    ///
    /// An identifier never handed out by `open_media` yields
    /// `UnknownSession` and changes nothing.
    pub fn open_video(&mut self, id: i32, index: Option<usize>) -> (r: Result<usize, MediaError>)
        requires
            old(self).wf(),
        ensures
            final(self).wf(),
            final(self).next_id == old(self).next_id,
            r == Err::<usize, MediaError>(MediaError::UnknownSession) <==> !old(self).table@.contains_key(id),
            !old(self).table@.contains_key(id) ==> final(self).table@ == old(self).table@,
            old(self).table@.contains_key(id) ==> final(self).table@.contains_key(id) && final(self).table@ == old(self).table@.insert(id, final(self).table@[id]) && open_video_rel(old(self).table@[id], final(self).table@[id], index, r),
    {
        let mut s = match self.table.remove(&id) {
            None => {
                proof {
                    assert(old(self).table@.remove(id) =~= old(self).table@);
                    assert(self.table@ == old(self).table@);
                }
                return Err(MediaError::UnknownSession);
            },
            Some(s) => s,
        };
        let r = s.open_video(index);
        self.table.insert(id, s);
        proof {
            assert(self.table@ =~= old(self).table@.insert(id, self.table@[id]));
            lemma_registry_wf_after_update(*old(self), *self, id, self.table@[id]);
        }
        r
    }

    /// Coarse audio seek on the session under `id`.
    ///
    /// An identifier never handed out by `open_media` yields
    /// `UnknownSession` and changes nothing.
    pub fn seek_audio(&mut self, id: i32, position: i64) -> (r: Result<(), MediaError>)
        requires
            old(self).wf(),
        ensures
            final(self).wf(),
            final(self).next_id == old(self).next_id,
            r == Err::<(), MediaError>(MediaError::UnknownSession) <==> !old(self).table@.contains_key(id),
            !old(self).table@.contains_key(id) ==> final(self).table@ == old(self).table@,
            old(self).table@.contains_key(id) ==> final(self).table@.contains_key(id) && final(self).table@ == old(self).table@.insert(id, final(self).table@[id]) && seek_audio_rel(old(self).table@[id], final(self).table@[id], position, r),
    {
        let mut s = match self.table.remove(&id) {
            None => {
                proof {
                    assert(old(self).table@.remove(id) =~= old(self).table@);
                    assert(self.table@ == old(self).table@);
                }
                return Err(MediaError::UnknownSession);
            },
            Some(s) => s,
        };
        let r = s.seek_audio(position);
        self.table.insert(id, s);
        proof {
            assert(self.table@ =~= old(self).table@.insert(id, self.table@[id]));
            lemma_registry_wf_after_update(*old(self), *self, id, self.table@[id]);
        }
        r
    }

    /// Frame-exact video seek on the session under `id`.
    ///
    /// An identifier never handed out by `open_media` yields
    /// `UnknownSession` and changes nothing.
    pub fn seek_video(&mut self, id: i32, position: i64) -> (r: Result<(), MediaError>)
        requires
            old(self).wf(),
        ensures
            final(self).wf(),
            final(self).next_id == old(self).next_id,
            r == Err::<(), MediaError>(MediaError::UnknownSession) <==> !old(self).table@.contains_key(id),
            !old(self).table@.contains_key(id) ==> final(self).table@ == old(self).table@,
            old(self).table@.contains_key(id) ==> final(self).table@.contains_key(id) && final(self).table@ == old(self).table@.insert(id, final(self).table@[id]) && seek_video_rel(old(self).table@[id], final(self).table@[id], position, r),
    {
        let mut s = match self.table.remove(&id) {
            None => {
                proof {
                    assert(old(self).table@.remove(id) =~= old(self).table@);
                    assert(self.table@ == old(self).table@);
                }
                return Err(MediaError::UnknownSession);
            },
            Some(s) => s,
        };
        let r = s.seek_video_precise(position);
        self.table.insert(id, s);
        proof {
            assert(self.table@ =~= old(self).table@.insert(id, self.table@[id]));
            lemma_registry_wf_after_update(*old(self), *self, id, self.table@[id]);
        }
        r
    }

    /// Reconfigure the video output geometry on the session under `id`.
    ///
    /// An identifier never handed out by `open_media` yields
    /// `UnknownSession` and changes nothing.
    pub fn video_set_size(&mut self, id: i32, width: u32, height: u32) -> (r: Result<(), MediaError>)
        requires
            old(self).wf(),
        ensures
            final(self).wf(),
            final(self).next_id == old(self).next_id,
            r == Err::<(), MediaError>(MediaError::UnknownSession) <==> !old(self).table@.contains_key(id),
            !old(self).table@.contains_key(id) ==> final(self).table@ == old(self).table@,
            old(self).table@.contains_key(id) ==> final(self).table@.contains_key(id) && final(self).table@ == old(self).table@.insert(id, final(self).table@[id]) && set_video_size_rel(old(self).table@[id], final(self).table@[id], width, height, r),
    {
        let mut s = match self.table.remove(&id) {
            None => {
                proof {
                    assert(old(self).table@.remove(id) =~= old(self).table@);
                    assert(self.table@ == old(self).table@);
                }
                return Err(MediaError::UnknownSession);
            },
            Some(s) => s,
        };
        let r = s.set_video_output_size(width, height);
        self.table.insert(id, s);
        proof {
            assert(self.table@ =~= old(self).table@.insert(id, self.table@[id]));
            lemma_registry_wf_after_update(*old(self), *self, id, self.table@[id]);
        }
        r
    }

    /// Decode the next audio block on the session under `id` and report the
    /// position then cached.
    ///
    /// An identifier never handed out by `open_media` yields
    /// `UnknownSession` and changes nothing.
    #[verifier::rlimit(50)]
    pub fn move_to_next_audio_frame(&mut self, id: i32) -> (r: Result<Option<i64>, MediaError>)
        requires
            old(self).wf(),
        ensures
            final(self).wf(),
            final(self).next_id == old(self).next_id,
            r == Err::<Option<i64>, MediaError>(MediaError::UnknownSession) <==> !old(self).table@.contains_key(id),
            !old(self).table@.contains_key(id) ==> final(self).table@ == old(self).table@,
            old(self).table@.contains_key(id) ==> final(self).table@.contains_key(id) && final(self).table@ == old(self).table@.insert(id, final(self).table@[id]) && move_next_audio_rel(old(self).table@[id], final(self).table@[id], r),
    {
        let mut s = match self.table.remove(&id) {
            None => {
                proof {
                    assert(old(self).table@.remove(id) =~= old(self).table@);
                    assert(self.table@ == old(self).table@);
                }
                return Err(MediaError::UnknownSession);
            },
            Some(s) => s,
        };
        let r = match s.advance_audio() {
            Err(e) => Err(e),
            Ok(_) => Ok(s.current_audio_position()),
        };
        self.table.insert(id, s);
        proof {
            assert(self.table@ =~= old(self).table@.insert(id, self.table@[id]));
            lemma_registry_wf_after_update(*old(self), *self, id, self.table@[id]);
        }
        r
    }

    /// Decode the next video frame on the session under `id` and report the
    /// position then cached.
    ///
    /// An identifier never handed out by `open_media` yields
    /// `UnknownSession` and changes nothing.
    #[verifier::rlimit(50)]
    pub fn move_to_next_video_frame(&mut self, id: i32) -> (r: Result<Option<i64>, MediaError>)
        requires
            old(self).wf(),
        ensures
            final(self).wf(),
            final(self).next_id == old(self).next_id,
            r == Err::<Option<i64>, MediaError>(MediaError::UnknownSession) <==> !old(self).table@.contains_key(id),
            !old(self).table@.contains_key(id) ==> final(self).table@ == old(self).table@,
            old(self).table@.contains_key(id) ==> final(self).table@.contains_key(id) && final(self).table@ == old(self).table@.insert(id, final(self).table@[id]) && move_next_video_rel(old(self).table@[id], final(self).table@[id], r),
    {
        let mut s = match self.table.remove(&id) {
            None => {
                proof {
                    assert(old(self).table@.remove(id) =~= old(self).table@);
                    assert(self.table@ == old(self).table@);
                }
                return Err(MediaError::UnknownSession);
            },
            Some(s) => s,
        };
        let r = match s.advance_video() {
            Err(e) => Err(e),
            Ok(_) => Ok(s.current_video_position()),
        };
        self.table.insert(id, s);
        proof {
            assert(self.table@ =~= old(self).table@.insert(id, self.table@[id]));
            lemma_registry_wf_after_update(*old(self), *self, id, self.table@[id]);
        }
        r
    }

    /// Decode the next audio block on the session under `id`; `Ok(None)`
    /// reports a clean end of stream.
    ///
    /// An identifier never handed out by `open_media` yields
    /// `UnknownSession` and changes nothing.
    #[verifier::rlimit(50)]
    pub fn poll_next_audio_frame(&mut self, id: i32) -> (r: Result<Option<i64>, MediaError>)
        requires
            old(self).wf(),
        ensures
            final(self).wf(),
            final(self).next_id == old(self).next_id,
            r == Err::<Option<i64>, MediaError>(MediaError::UnknownSession) <==> !old(self).table@.contains_key(id),
            !old(self).table@.contains_key(id) ==> final(self).table@ == old(self).table@,
            old(self).table@.contains_key(id) ==> final(self).table@.contains_key(id) && final(self).table@ == old(self).table@.insert(id, final(self).table@[id]) && poll_next_audio_rel(old(self).table@[id], final(self).table@[id], r),
    {
        let mut s = match self.table.remove(&id) {
            None => {
                proof {
                    assert(old(self).table@.remove(id) =~= old(self).table@);
                    assert(self.table@ == old(self).table@);
                }
                return Err(MediaError::UnknownSession);
            },
            Some(s) => s,
        };
        let r = match s.advance_audio() {
            Err(e) => Err(e),
            Ok(true) => Ok(s.current_audio_position()),
            Ok(false) => Ok(None),
        };
        self.table.insert(id, s);
        proof {
            assert(self.table@ =~= old(self).table@.insert(id, self.table@[id]));
            lemma_registry_wf_after_update(*old(self), *self, id, self.table@[id]);
        }
        r
    }

    /// The current audio position on the session under `id`, decoding one
    /// block first when nothing is cached yet.
    ///
    /// An identifier never handed out by `open_media` yields
    /// `UnknownSession` and changes nothing.
    #[verifier::rlimit(50)]
    pub fn get_current_audio_position(&mut self, id: i32) -> (r: Result<Option<i64>, MediaError>)
        requires
            old(self).wf(),
        ensures
            final(self).wf(),
            final(self).next_id == old(self).next_id,
            r == Err::<Option<i64>, MediaError>(MediaError::UnknownSession) <==> !old(self).table@.contains_key(id),
            !old(self).table@.contains_key(id) ==> final(self).table@ == old(self).table@,
            old(self).table@.contains_key(id) ==> final(self).table@.contains_key(id) && final(self).table@ == old(self).table@.insert(id, final(self).table@[id]) && ensure_audio_position_rel(old(self).table@[id], final(self).table@[id], r),
    {
        let mut s = match self.table.remove(&id) {
            None => {
                proof {
                    assert(old(self).table@.remove(id) =~= old(self).table@);
                    assert(self.table@ == old(self).table@);
                }
                return Err(MediaError::UnknownSession);
            },
            Some(s) => s,
        };
        let r = s.ensure_current_audio_position();
        self.table.insert(id, s);
        proof {
            assert(self.table@ =~= old(self).table@.insert(id, self.table@[id]));
            lemma_registry_wf_after_update(*old(self), *self, id, self.table@[id]);
        }
        r
    }

    /// The current video position on the session under `id`, decoding one
    /// frame first when nothing is cached yet.
    ///
    /// An identifier never handed out by `open_media` yields
    /// `UnknownSession` and changes nothing.
    #[verifier::rlimit(50)]
    pub fn get_current_video_position(&mut self, id: i32) -> (r: Result<Option<i64>, MediaError>)
        requires
            old(self).wf(),
        ensures
            final(self).wf(),
            final(self).next_id == old(self).next_id,
            r == Err::<Option<i64>, MediaError>(MediaError::UnknownSession) <==> !old(self).table@.contains_key(id),
            !old(self).table@.contains_key(id) ==> final(self).table@ == old(self).table@,
            old(self).table@.contains_key(id) ==> final(self).table@.contains_key(id) && final(self).table@ == old(self).table@.insert(id, final(self).table@[id]) && ensure_video_position_rel(old(self).table@[id], final(self).table@[id], r),
    {
        let mut s = match self.table.remove(&id) {
            None => {
                proof {
                    assert(old(self).table@.remove(id) =~= old(self).table@);
                    assert(self.table@ == old(self).table@);
                }
                return Err(MediaError::UnknownSession);
            },
            Some(s) => s,
        };
        let r = s.ensure_current_video_position();
        self.table.insert(id, s);
        proof {
            assert(self.table@ =~= old(self).table@.insert(id, self.table@[id]));
            lemma_registry_wf_after_update(*old(self), *self, id, self.table@[id]);
        }
        r
    }

    /// Windowed loudness over the audio stream of the session under `id`,
    /// until the decoded position reaches `until`.
    ///
    /// An identifier never handed out by `open_media` yields
    /// `UnknownSession` and changes nothing.
    pub fn get_intensities(&mut self, id: i32, until: i64, step: i64) -> (r: Result<IntensitySummary, MediaError>)
        requires
            old(self).wf(),
            1 <= step,
        ensures
            final(self).wf(),
            final(self).next_id == old(self).next_id,
            r == Err::<IntensitySummary, MediaError>(MediaError::UnknownSession) <==> !old(self).table@.contains_key(id),
            !old(self).table@.contains_key(id) ==> final(self).table@ == old(self).table@,
            old(self).table@.contains_key(id) ==> final(self).table@.contains_key(id) && final(self).table@ == old(self).table@.insert(id, final(self).table@[id]) && intensity_session_rel(old(self).table@[id], final(self).table@[id], until, step, r),
    {
        let mut s = match self.table.remove(&id) {
            None => {
                proof {
                    assert(old(self).table@.remove(id) =~= old(self).table@);
                    assert(self.table@ == old(self).table@);
                }
                return Err(MediaError::UnknownSession);
            },
            Some(s) => s,
        };
        let r = s.compute_intensity(until, step);
        self.table.insert(id, s);
        proof {
            assert(self.table@ =~= old(self).table@.insert(id, self.table@[id]));
            lemma_registry_wf_after_update(*old(self), *self, id, self.table@[id]);
        }
        r
    }

    /// The rendered current video frame of the session under `id`: renders
    /// the cached frame at the output geometry if need be and hands out its
    /// position, timebase, stride and RGBA bytes for the wire encoding.
    pub fn send_current_video_frame(&mut self, id: i32) -> (r: Result<VideoFrameParts, MediaError>)
        requires
            old(self).wf(),
        ensures
            final(self).wf(),
            final(self).next_id == old(self).next_id,
            r == Err::<VideoFrameParts, MediaError>(MediaError::UnknownSession) <==> !old(self).table@.contains_key(id),
            !old(self).table@.contains_key(id) ==> final(self).table@ == old(self).table@,
            old(self).table@.contains_key(id) ==> final(self).table@.contains_key(id) && final(self).table@ == old(self).table@.insert(id, final(self).table@[id])
                && send_video_frame_rel(old(self).table@[id], final(self).table@[id], r),
    {
        let mut s = match self.table.remove(&id) {
            None => {
                proof {
                    assert(old(self).table@.remove(id) =~= old(self).table@);
                    assert(self.table@ == old(self).table@);
                }
                return Err(MediaError::UnknownSession);
            },
            Some(s) => s,
        };
        let r = match s.render_current_video_frame() {
            Err(e) => Err(e),
            Ok(_) => s.current_video_transfer(),
        };
        self.table.insert(id, s);
        proof {
            assert(self.table@ =~= old(self).table@.insert(id, self.table@[id]));
            lemma_registry_wf_after_update(*old(self), *self, id, self.table@[id]);
        }
        r
    }

    /// The cached current audio block of the session under `id`: its
    /// position, timebase and samples for the wire encoding. A pure query:
    /// it decodes nothing and fails when no block is cached.
    pub fn send_current_audio_frame(&self, id: i32) -> (r: Result<AudioFrameParts, MediaError>)
        requires
            self.wf(),
        ensures
            r == Err::<AudioFrameParts, MediaError>(MediaError::UnknownSession) <==> !self.table@.contains_key(id),
            self.table@.contains_key(id) ==> audio_parts_rel(self.table@[id], r),
    {
        let s = match self.table.get(&id) {
            None => {
                return Err(MediaError::UnknownSession);
            },
            Some(s) => s,
        };
        s.current_audio_transfer()
    }

}
} // verus!
