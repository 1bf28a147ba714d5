use media_engine::codec::{encode_audio_transfer, encode_video_transfer};
use media_engine::scale::scale_rgba;

/// An independent decoder for the video wire layout, written directly from
/// the layout description.
fn decode_video(data: &[u8]) -> (i64, f64, u64, u64, Vec<u8>) {
    let position = i64::from_le_bytes(data[0..8].try_into().unwrap());
    let time = f64::from_le_bytes(data[8..16].try_into().unwrap());
    let stride = u64::from_le_bytes(data[16..24].try_into().unwrap());
    let length = u64::from_le_bytes(data[24..32].try_into().unwrap());
    (position, time, stride, length, data[32..].to_vec())
}

/// An independent decoder for the audio wire layout.
fn decode_audio(data: &[u8]) -> (i64, f64, u64, Vec<i32>) {
    let position = i64::from_le_bytes(data[0..8].try_into().unwrap());
    let time = f64::from_le_bytes(data[8..16].try_into().unwrap());
    let count = u64::from_le_bytes(data[16..24].try_into().unwrap());
    let mut samples = Vec::new();
    for i in 0..count as usize {
        let off = 24 + 4 * i;
        samples.push(i32::from_le_bytes(data[off..off + 4].try_into().unwrap()));
    }
    (position, time, count, samples)
}

#[test]
fn video_transfer_round_trip() {
    let payload: Vec<u8> = vec![1, 2, 3, 4, 250, 251, 252, 253];
    let position: i64 = -42;
    let time: f64 = (position as f64) * (1.0 / 25.0);
    let encoded = encode_video_transfer(position, time.to_bits(), 2, &payload);
    assert_eq!(encoded.len(), 32 + payload.len());
    let (p, t, s, l, pl) = decode_video(&encoded);
    assert_eq!(p, position);
    assert!((t - time).abs() <= f64::EPSILON * time.abs());
    assert_eq!(s, 2);
    assert_eq!(l, payload.len() as u64);
    assert_eq!(pl, payload);
}

#[test]
fn video_transfer_exact_header_bytes() {
    let encoded = encode_video_transfer(1, 0, 3, &vec![9]);
    let mut expected: Vec<u8> = Vec::new();
    expected.extend_from_slice(&1i64.to_le_bytes());
    expected.extend_from_slice(&0u64.to_le_bytes());
    expected.extend_from_slice(&3u64.to_le_bytes());
    expected.extend_from_slice(&1u64.to_le_bytes());
    expected.push(9);
    assert_eq!(encoded, expected);
}

#[test]
fn audio_transfer_round_trip() {
    let samples: Vec<i32> = vec![0, 1, -1, i32::MAX, i32::MIN, 48000];
    let position: i64 = 96000;
    let time: f64 = (position as f64) * (1.0 / 48000.0);
    let encoded = encode_audio_transfer(position, time.to_bits(), &samples);
    assert_eq!(encoded.len(), 24 + 4 * samples.len());
    let (p, t, c, sm) = decode_audio(&encoded);
    assert_eq!(p, position);
    assert!((t - time).abs() <= f64::EPSILON * time.abs());
    assert_eq!(c, samples.len() as u64);
    assert_eq!(sm, samples);
}

#[test]
fn audio_transfer_of_empty_block() {
    let encoded = encode_audio_transfer(0, 0, &vec![]);
    assert_eq!(encoded.len(), 24);
    let (p, _, c, sm) = decode_audio(&encoded);
    assert_eq!(p, 0);
    assert_eq!(c, 0);
    assert!(sm.is_empty());
}

#[test]
fn scaler_picks_nearest_neighbour_pixels() {
    // a 2x2 image with distinct pixels, scaled to 4x4: each source pixel
    // becomes a 2x2 block
    let mut src: Vec<u8> = Vec::new();
    for p in 0..4u8 {
        src.extend_from_slice(&[p, p + 10, p + 20, 255]);
    }
    let out = scale_rgba(&src, 2, 2, 4, 4);
    assert_eq!(out.len(), 4 * 4 * 4);
    for y in 0..4usize {
        for x in 0..4usize {
            let sp = (y / 2) * 2 + x / 2;
            let o = (y * 4 + x) * 4;
            assert_eq!(out[o], sp as u8);
            assert_eq!(out[o + 1], sp as u8 + 10);
            assert_eq!(out[o + 2], sp as u8 + 20);
            assert_eq!(out[o + 3], 255);
        }
    }
}

#[test]
fn scaler_downscale_length() {
    let src = vec![3u8; 8 * 8 * 4];
    let out = scale_rgba(&src, 8, 8, 3, 2);
    assert_eq!(out.len(), 3 * 2 * 4);
    assert!(out.iter().all(|&b| b == 3));
}
