use pony_renderer::video::decoder_thread::{copy_plane, frame_of, rows_fit_width};
use pony_renderer::video::PipelineEvent;

#[test]
fn padded_rows_are_cut_to_the_picture_width() {
    let data = [1u8, 2, 3, 0, 4, 5, 6, 0, 7, 8, 9];
    assert_eq!(copy_plane(&data, 4, 3), vec![1, 2, 3, 4, 5, 6, 7, 8, 9]);
}

#[test]
fn unpadded_and_empty_planes() {
    let data = [1u8, 2, 3, 4, 5, 6];
    assert_eq!(copy_plane(&data, 3, 3), data.to_vec());
    assert_eq!(copy_plane(&data, 6, 2), vec![1, 2]);
    assert_eq!(copy_plane(&[], 4, 9), Vec::<u8>::new());
    assert_eq!(copy_plane(&data, 2, 0), Vec::<u8>::new());
}

#[test]
fn only_data_events_carry_frames() {
    assert_eq!(frame_of(PipelineEvent::Data(3)), Some(3));
    assert_eq!(frame_of(PipelineEvent::<u8>::SeekAck), None);
    assert_eq!(frame_of(PipelineEvent::<u8>::EOS), None);
}

#[test]
fn rows_must_hold_the_picture_width() {
    assert!(rows_fit_width(11, 4, 3));
    assert!(rows_fit_width(12, 4, 4));
    assert!(!rows_fit_width(10, 4, 3));
    assert!(!rows_fit_width(8, 4, 5));
    assert!(rows_fit_width(0, 4, 9));
}
