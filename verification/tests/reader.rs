use crossbeam_channel::bounded;
use pony_renderer::video::reader::{
    append_annexb_nals, avcc_sample_complete, find_h264_track, parameter_sets_payload, EncodedChunkKind, MP4Command, SampleUnpacker,
    TrackCandidate, VideoCodec, VideoCursor, VideoDecoder, VideoDecoderOptions,
};

#[test]
fn nal_units_get_start_codes() {
    let sample = [0u8, 0, 0, 2, 0xAA, 0xBB, 0, 0, 0, 1, 0xCC];
    let mut out = vec![9u8];
    append_annexb_nals(&mut out, &sample, 4);
    assert_eq!(out, vec![9, 0, 0, 0, 1, 0xAA, 0xBB, 0, 0, 0, 1, 0xCC]);
}

#[test]
fn short_lengths_and_trailing_bytes() {
    // Two-byte lengths; the last byte cannot hold a whole length and is ignored.
    let sample = [0u8, 3, 1, 2, 3, 0, 0, 7];
    let mut out = Vec::new();
    append_annexb_nals(&mut out, &sample, 2);
    assert_eq!(out, vec![0, 0, 0, 1, 1, 2, 3, 0, 0, 0, 1]);
    let mut empty = Vec::new();
    append_annexb_nals(&mut empty, &[], 1);
    assert!(empty.is_empty());
}

#[test]
fn long_nal_lengths_are_big_endian() {
    let mut sample = vec![0u8, 1, 4];
    sample.extend(std::iter::repeat(5u8).take(260));
    let mut out = Vec::new();
    append_annexb_nals(&mut out, &sample, 3);
    assert_eq!(out.len(), 4 + 260);
    assert_eq!(&out[..5], &[0, 0, 0, 1, 5]);
}

#[test]
fn parameter_sets_are_prefixed_in_order() {
    let sps = vec![vec![0x67u8, 1], vec![0x67u8]];
    let pps = vec![vec![0x68u8, 2]];
    let payload = parameter_sets_payload(&sps, &pps);
    assert_eq!(payload, vec![0, 0, 0, 1, 0x67, 1, 0, 0, 0, 1, 0x67, 0, 0, 0, 1, 0x68, 2]);
    assert!(parameter_sets_payload(&vec![], &vec![]).is_empty());
}

#[test]
fn unpacker_puts_parameter_sets_before_the_first_sample_only() {
    let mut unpacker = SampleUnpacker::new(&vec![vec![0x67u8]], &vec![vec![0x68u8]], 3);
    assert_eq!(unpacker.length_size(), 4);
    let first = unpacker.unpack(&[0, 0, 0, 1, 0x65]);
    assert_eq!(first, vec![0, 0, 0, 1, 0x67, 0, 0, 0, 1, 0x68, 0, 0, 0, 1, 0x65]);
    let second = unpacker.unpack(&[0, 0, 0, 1, 0x41]);
    assert_eq!(second, vec![0, 0, 0, 1, 0x41]);
    let mut one_byte = SampleUnpacker::new(&vec![], &vec![], 0);
    assert_eq!(one_byte.unpack(&[1, 9, 0]), vec![0, 0, 0, 1, 9, 0, 0, 0, 1]);
}

#[test]
fn the_first_playable_track_is_chosen() {
    let track = |id, v, h, a| TrackCandidate { track_id: id, is_video: v, is_h264: h, has_avc_config: a };
    let tracks = vec![track(1, false, true, true), track(2, true, false, true), track(3, true, true, true), track(4, true, true, true)];
    assert_eq!(find_h264_track(&tracks), Some(2));
    assert_eq!(find_h264_track(&vec![track(1, true, true, false)]), None);
    assert_eq!(find_h264_track(&vec![]), None);
}

#[test]
fn cursor_skips_ahead_from_the_first_sample() {
    let (tx, rx) = bounded(2);
    tx.send(MP4Command::Play).unwrap();
    let mut cursor = VideoCursor::new(3_000, 3, rx);
    assert_eq!(cursor.current_sample(), 1);
    assert_eq!(cursor.next_sample(), Some(2));
    // The command was taken from the channel.
    assert!(tx.is_empty());
    assert_eq!(cursor.next_sample(), Some(3));
    assert_eq!(cursor.next_sample(), None);
    assert_eq!(cursor.next_sample(), None);
    assert_eq!(cursor.current_sample(), 5);
    assert_eq!(VideoCursor::process_commands_and_get_next_sample(), 0);
    VideoCursor::seek(10);
    VideoCursor::skip_forward(10);
    VideoCursor::skip_backward(10);
}

#[test]
fn decoder_options_compare_by_value() {
    let options = VideoDecoderOptions { decoder: VideoDecoder::FFmpegH264 };
    assert_eq!(options.clone(), VideoDecoderOptions { decoder: VideoDecoder::FFmpegH264 });
    assert_eq!(EncodedChunkKind::Video(VideoCodec::H264), EncodedChunkKind::Video(VideoCodec::H264));
}

#[test]
fn complete_and_truncated_samples() {
    // Two NAL units with one-byte lengths, then a lone length byte that
    // promises more than is left.
    assert!(avcc_sample_complete(&[2, 9, 9, 1, 7], 1));
    assert!(!avcc_sample_complete(&[2, 9, 9, 1, 7, 3, 1], 1));
    // Trailing bytes shorter than a length are ignored.
    assert!(avcc_sample_complete(&[0, 0, 0, 1, 5, 0, 0], 4));
    assert!(!avcc_sample_complete(&[0, 0, 0, 2, 5], 4));
    assert!(avcc_sample_complete(&[], 2));
}

#[test]
fn an_encoded_sample_unpacks_to_its_nal_units() {
    // Two NAL units behind two-byte lengths, then a one-byte fragment.
    let sample = [0u8, 3, 0x65, 0x88, 0x84, 0, 1, 0x41, 0];
    assert!(avcc_sample_complete(&sample, 2));
    let mut out = Vec::new();
    append_annexb_nals(&mut out, &sample, 2);
    assert_eq!(out, vec![0, 0, 0, 1, 0x65, 0x88, 0x84, 0, 0, 0, 1, 0x41]);
}
