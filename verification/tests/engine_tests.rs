use media_engine::MediaError;
use media_engine::model::{
    AudioBlock, AudioStreamData, MediaContainer, Rational, StreamData, StreamDesc, VideoFrame,
    VideoStreamData,
};
use media_engine::registry::PlaybackRegistry;
use media_engine::session::MediaPlayback;

fn silence_audio_stream(block_len: usize, blocks: usize) -> StreamData {
    let mut bs = Vec::new();
    for i in 0..blocks {
        bs.push(AudioBlock {
            position: (i * block_len) as i64,
            corrupt: false,
            samples: vec![0i32; block_len],
        });
    }
    StreamData::Audio(AudioStreamData {
        time_base: Rational { num: 1, den: 48000 },
        sample_rate: 48000,
        length: (block_len * blocks) as i64,
        blocks: bs,
    })
}

fn video_stream(width: u32, height: u32, frames: usize, key_every: usize) -> StreamData {
    let mut fs = Vec::new();
    for i in 0..frames {
        fs.push(VideoFrame {
            position: i as i64,
            keyframe: i % key_every == 0,
            corrupt: false,
            data: vec![7u8; (width * height * 4) as usize],
        });
    }
    StreamData::Video(VideoStreamData {
        time_base: Rational { num: 1, den: 25 },
        frame_rate: Rational { num: 25, den: 1 },
        width,
        height,
        length: frames as i64,
        frames: fs,
    })
}

fn demo_container() -> MediaContainer {
    MediaContainer {
        duration: 2_000_000,
        streams: vec![
            StreamDesc {
                description: String::from("audio: pcm, 48000 Hz"),
                data: silence_audio_stream(1024, 49),
            },
            StreamDesc {
                description: String::from("video: rgba, 1920x1080, 25 fps"),
                data: video_stream(1920, 1080, 10, 5),
            },
        ],
    }
}

fn small_container() -> MediaContainer {
    MediaContainer {
        duration: 1_000_000,
        streams: vec![
            StreamDesc {
                description: String::from("audio"),
                data: silence_audio_stream(4, 3),
            },
            StreamDesc {
                description: String::from("video a"),
                data: video_stream(4, 2, 10, 5),
            },
            StreamDesc {
                description: String::from("video b"),
                data: video_stream(8, 4, 6, 3),
            },
        ],
    }
}

#[test]
fn open_media_hands_out_fresh_ids() {
    let mut reg = PlaybackRegistry::new();
    let a = reg.open_media(small_container());
    let b = reg.open_media(small_container());
    assert_eq!(a, 0);
    assert_eq!(b, 1);
}

#[test]
fn unknown_session_is_distinct_from_no_such_stream() {
    let mut reg = PlaybackRegistry::new();
    let id = reg.open_media(MediaContainer { duration: 0, streams: vec![] });
    // an identifier never returned by open: UnknownSession
    assert_eq!(reg.audio_status(999), Err(MediaError::UnknownSession));
    assert_eq!(reg.seek_audio(999, 0), Err(MediaError::UnknownSession));
    assert_eq!(
        reg.move_to_next_video_frame(12345),
        Err(MediaError::UnknownSession)
    );
    // a valid session without the stream kind: NoSuchStream
    assert_eq!(reg.audio_status(id), Err(MediaError::NoSuchStream));
    assert_eq!(reg.seek_audio(id, 0), Err(MediaError::NoSuchStream));
    assert_ne!(
        reg.audio_status(id),
        Err(MediaError::UnknownSession),
        "the two conditions must stay distinguishable"
    );
}

#[test]
fn close_invalidates_the_identifier() {
    let mut reg = PlaybackRegistry::new();
    let id = reg.open_media(small_container());
    assert_eq!(reg.close_media(id), Ok(()));
    assert_eq!(reg.close_media(id), Err(MediaError::UnknownSession));
    assert_eq!(reg.audio_status(id), Err(MediaError::UnknownSession));
}

#[test]
fn open_video_replaces_prior_context() {
    let mut s = MediaPlayback::from_container(small_container());
    assert_eq!(s.open_video(Some(1)), Ok(1));
    assert_eq!(s.advance_video(), Ok(true));
    assert_eq!(s.current_video_position(), Some(0));
    // reopening with a different index replaces the context wholesale:
    // nothing of the discarded stream remains cached
    assert_eq!(s.open_video(Some(2)), Ok(2));
    assert_eq!(s.current_video_position(), None);
}

#[test]
fn open_defaults_to_first_stream_of_kind() {
    let mut s = MediaPlayback::from_container(small_container());
    assert_eq!(s.open_video(None), Ok(1));
    assert_eq!(s.open_audio(None), Ok(0));
    assert_eq!(s.open_video(Some(0)), Err(MediaError::NoSuchStream));
    assert_eq!(s.open_video(Some(9)), Err(MediaError::NoSuchStream));
}

#[test]
fn precise_seek_is_idempotent_at_the_target() {
    let mut s = MediaPlayback::from_container(small_container());
    assert_eq!(s.open_video(Some(1)), Ok(1));
    assert_eq!(s.seek_video_precise(7), Ok(()));
    assert_eq!(s.current_video_position(), Some(7));
    assert_eq!(s.seek_video_precise(7), Ok(()));
    assert_eq!(s.current_video_position(), Some(7));
}

#[test]
fn precise_seek_lands_on_first_frame_at_or_after_target() {
    let mut s = MediaPlayback::from_container(small_container());
    assert_eq!(s.open_video(Some(1)), Ok(1));
    assert_eq!(s.seek_video_precise(3), Ok(()));
    assert_eq!(s.current_video_position(), Some(3));
    // backward seek works too
    assert_eq!(s.seek_video_precise(1), Ok(()));
    assert_eq!(s.current_video_position(), Some(1));
}

#[test]
fn precise_seek_past_end_reports_seek_failure() {
    let mut s = MediaPlayback::from_container(small_container());
    assert_eq!(s.open_video(Some(1)), Ok(1));
    assert_eq!(s.seek_video_precise(100), Err(MediaError::SeekFailure));
    assert_eq!(s.current_video_position(), None);
}

#[test]
fn advance_past_end_returns_the_end_marker_stably() {
    let mut s = MediaPlayback::from_container(MediaContainer {
        duration: 0,
        streams: vec![StreamDesc {
            description: String::from("audio"),
            data: silence_audio_stream(4, 2),
        }],
    });
    assert_eq!(s.open_audio(None), Ok(0));
    assert_eq!(s.advance_audio(), Ok(true));
    assert_eq!(s.advance_audio(), Ok(true));
    // end of stream: the marker comes back on every further advance and the
    // cached block never changes
    for _ in 0..3 {
        assert_eq!(s.advance_audio(), Ok(false));
        assert_eq!(s.current_audio_position(), Some(4));
    }
}

#[test]
fn video_advance_past_end_is_stable_too() {
    let mut s = MediaPlayback::from_container(small_container());
    assert_eq!(s.open_video(Some(2)), Ok(2));
    for i in 0..6 {
        assert_eq!(s.advance_video(), Ok(true));
        assert_eq!(s.current_video_position(), Some(i));
    }
    for _ in 0..3 {
        assert_eq!(s.advance_video(), Ok(false));
        assert_eq!(s.current_video_position(), Some(5));
    }
}

#[test]
fn precise_seek_over_a_corrupt_frame_reports_decode_failure() {
    let mut frames = Vec::new();
    for i in 0..6usize {
        frames.push(VideoFrame {
            position: i as i64,
            keyframe: i == 0,
            corrupt: i == 2,
            data: vec![0u8; 4 * 2 * 4],
        });
    }
    let mut s = MediaPlayback::from_container(MediaContainer {
        duration: 0,
        streams: vec![StreamDesc {
            description: String::from("video"),
            data: StreamData::Video(VideoStreamData {
                time_base: Rational { num: 1, den: 25 },
                frame_rate: Rational { num: 25, den: 1 },
                width: 4,
                height: 2,
                length: 6,
                frames,
            }),
        }],
    });
    assert_eq!(s.open_video(None), Ok(0));
    // the scan from the keyframe at 0 must decode the corrupt frame at 2
    // before reaching 4: a decode error, not a seek error
    assert_eq!(s.seek_video_precise(4), Err(MediaError::DecodeFailure));
    assert_eq!(s.current_video_position(), None);
}

#[test]
fn corrupt_data_reports_decode_failure_and_leaves_the_session_usable() {
    let mut s = MediaPlayback::from_container(MediaContainer {
        duration: 0,
        streams: vec![StreamDesc {
            description: String::from("audio"),
            data: StreamData::Audio(AudioStreamData {
                time_base: Rational { num: 1, den: 48000 },
                sample_rate: 48000,
                length: 12,
                blocks: vec![
                    AudioBlock { position: 0, corrupt: false, samples: vec![0; 4] },
                    AudioBlock { position: 4, corrupt: true, samples: vec![] },
                    AudioBlock { position: 8, corrupt: false, samples: vec![0; 4] },
                ],
            }),
        }],
    });
    assert_eq!(s.open_audio(None), Ok(0));
    assert_eq!(s.advance_audio(), Ok(true));
    assert_eq!(s.advance_audio(), Err(MediaError::DecodeFailure));
    // the failure is fatal to the operation, not to the session
    assert_eq!(s.advance_audio(), Ok(true));
    assert_eq!(s.current_audio_position(), Some(8));
}

#[test]
fn audio_seek_lands_at_or_before_the_target() {
    let mut s = MediaPlayback::from_container(demo_container());
    assert_eq!(s.open_audio(None), Ok(0));
    assert_eq!(s.seek_audio(2500), Ok(()));
    assert_eq!(s.current_audio_position(), None);
    assert_eq!(s.advance_audio(), Ok(true));
    assert_eq!(s.current_audio_position(), Some(2048));
}

#[test]
fn set_output_size_rejects_bad_geometry() {
    let mut s = MediaPlayback::from_container(small_container());
    assert_eq!(s.open_video(None), Ok(1));
    assert_eq!(
        s.set_video_output_size(0, 100),
        Err(MediaError::ConfigurationError)
    );
    assert_eq!(
        s.set_video_output_size(100, 0),
        Err(MediaError::ConfigurationError)
    );
    assert_eq!(
        s.set_video_output_size(100_000, 100),
        Err(MediaError::ConfigurationError)
    );
    assert_eq!(s.set_video_output_size(2, 1), Ok(()));
}

#[test]
fn render_without_a_current_frame_fails() {
    let mut s = MediaPlayback::from_container(small_container());
    assert_eq!(s.open_video(None), Ok(1));
    assert_eq!(
        s.render_current_video_frame(),
        Err(MediaError::DecodeFailure)
    );
}

#[test]
fn scenario_video_status_and_render_geometry() {
    // one audio stream at 48000 Hz and one video stream at 25 fps, 1920x1080
    let mut reg = PlaybackRegistry::new();
    let id = reg.open_media(demo_container());
    assert!(reg.open_video(id, None).is_ok());
    assert_eq!(reg.video_set_size(id, 960, 540), Ok(()));
    let st = reg.video_status(id).unwrap();
    assert_eq!((st.width, st.height), (1920, 1080));
    assert_eq!((st.out_width, st.out_height), (960, 540));
    assert_eq!(st.frame_rate, Rational { num: 25, den: 1 });
    assert_eq!(reg.move_to_next_video_frame(id), Ok(Some(0)));
    let parts = reg.send_current_video_frame(id).unwrap();
    assert_eq!(parts.stride, 960);
    assert_eq!(parts.payload.len(), 960 * 540 * 4);
    assert_eq!(parts.position, 0);
}

#[test]
fn render_is_lazy_and_idempotent() {
    let mut s = MediaPlayback::from_container(small_container());
    assert_eq!(s.open_video(Some(1)), Ok(1));
    assert_eq!(s.advance_video(), Ok(true));
    assert_eq!(s.render_current_video_frame(), Ok(()));
    let first = s.current_video_transfer().unwrap();
    assert_eq!(s.render_current_video_frame(), Ok(()));
    let second = s.current_video_transfer().unwrap();
    assert_eq!(first.payload, second.payload);
    assert_eq!(first.position, second.position);
}

#[test]
fn scenario_intensity_of_silence() {
    // 48000 Hz audio, silence: until=48000, step=4800 gives exactly 10
    // entries, all zero, start 0, end 48000
    let mut reg = PlaybackRegistry::new();
    let id = reg.open_media(demo_container());
    assert!(reg.open_audio(id, None).is_ok());
    let sum = reg.get_intensities(id, 48000, 4800).unwrap();
    assert_eq!(sum.start, 0);
    assert_eq!(sum.end, 48000);
    assert_eq!(sum.entries.len(), 10);
    assert!(sum.entries.iter().all(|&e| e == 0));
}

#[test]
fn intensity_window_count_and_snapped_end() {
    // entries == floor(consumed / step), end - start == entries * step
    let blocks = vec![
        AudioBlock { position: 0, corrupt: false, samples: vec![2; 5] },
        AudioBlock { position: 5, corrupt: false, samples: vec![2; 5] },
        AudioBlock { position: 10, corrupt: false, samples: vec![2; 5] },
    ];
    let mut s = MediaPlayback::from_container(MediaContainer {
        duration: 0,
        streams: vec![StreamDesc {
            description: String::from("audio"),
            data: StreamData::Audio(AudioStreamData {
                time_base: Rational { num: 1, den: 48000 },
                sample_rate: 48000,
                length: 15,
                blocks,
            }),
        }],
    });
    assert_eq!(s.open_audio(None), Ok(0));
    let sum = s.compute_intensity(10, 4).unwrap();
    // blocks at 0 and 5 are consumed (10 samples); the block at 10 stops the
    // loop; the partial third window (2 samples) is dropped
    assert_eq!(sum.start, 0);
    assert_eq!(sum.entries.len(), 2);
    assert_eq!(sum.end - sum.start, 2 * 4);
    // mean square of constant samples of amplitude 2 is 4
    assert!(sum.entries.iter().all(|&e| e == 4));
}

#[test]
fn intensity_with_target_behind_first_block_is_empty() {
    let mut s = MediaPlayback::from_container(demo_container());
    assert_eq!(s.open_audio(None), Ok(0));
    assert_eq!(s.seek_audio(2048), Ok(()));
    let sum = s.compute_intensity(1000, 4800).unwrap();
    assert_eq!(sum.start, 2048);
    assert_eq!(sum.end, 2048);
    assert!(sum.entries.is_empty());
}

#[test]
fn intensity_failures() {
    let mut reg = PlaybackRegistry::new();
    let id = reg.open_media(MediaContainer { duration: 0, streams: vec![] });
    assert_eq!(
        reg.get_intensities(id, 100, 10),
        Err(MediaError::NoSuchStream)
    );
    let mut s = MediaPlayback::from_container(MediaContainer {
        duration: 0,
        streams: vec![StreamDesc {
            description: String::from("audio"),
            data: silence_audio_stream(4, 2),
        }],
    });
    assert_eq!(s.open_audio(None), Ok(0));
    // the run ends (position 4 < until) before the target is reached
    assert!(matches!(
        s.compute_intensity(100, 4),
        Err(MediaError::DecodeFailure)
    ));
}

#[test]
fn media_status_reports_streams_and_open_indices() {
    let mut reg = PlaybackRegistry::new();
    let id = reg.open_media(small_container());
    let st = reg.media_status(id).unwrap();
    assert_eq!(st.audio_index, -1);
    assert_eq!(st.video_index, -1);
    assert_eq!(st.duration, 1_000_000);
    assert_eq!(st.streams.len(), 3);
    assert_eq!(st.streams[1], "video a");
    assert!(reg.open_video(id, None).is_ok());
    assert!(reg.open_audio(id, None).is_ok());
    let st = reg.media_status(id).unwrap();
    assert_eq!(st.audio_index, 0);
    assert_eq!(st.video_index, 1);
}

#[test]
fn current_position_queries_advance_only_when_nothing_is_cached() {
    let mut reg = PlaybackRegistry::new();
    let id = reg.open_media(small_container());
    assert!(reg.open_audio(id, None).is_ok());
    // nothing cached: the query decodes the first block
    assert_eq!(reg.get_current_audio_position(id), Ok(Some(0)));
    // now cached: the query is pure
    assert_eq!(reg.get_current_audio_position(id), Ok(Some(0)));
    assert_eq!(reg.move_to_next_audio_frame(id), Ok(Some(4)));
}

#[test]
fn poll_reports_end_of_stream_as_none() {
    let mut reg = PlaybackRegistry::new();
    let id = reg.open_media(MediaContainer {
        duration: 0,
        streams: vec![StreamDesc {
            description: String::from("audio"),
            data: silence_audio_stream(4, 1),
        }],
    });
    assert!(reg.open_audio(id, None).is_ok());
    assert_eq!(reg.poll_next_audio_frame(id), Ok(Some(0)));
    assert_eq!(reg.poll_next_audio_frame(id), Ok(None));
    assert_eq!(reg.poll_next_audio_frame(id), Ok(None));
}

#[test]
fn audio_failure_leaves_video_usable() {
    let mut reg = PlaybackRegistry::new();
    let id = reg.open_media(small_container());
    assert!(reg.open_video(id, None).is_ok());
    assert_eq!(reg.move_to_next_video_frame(id), Ok(Some(0)));
    // a failing audio operation must not disturb the video context
    assert_eq!(reg.seek_audio(id, 0), Err(MediaError::NoSuchStream));
    assert_eq!(reg.get_current_video_position(id), Ok(Some(0)));
}
