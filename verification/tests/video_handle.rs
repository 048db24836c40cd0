use crossbeam_channel::{bounded, Sender};
use pony_renderer::shared::Shared;
use pony_renderer::thread_utils::custom_beams::loose;
use pony_renderer::video::video_handle::{
    scale_duration, SeekCommand, SeekError, SeekOutcome, VideoHandle,
};
use pony_renderer::video::{Frame, FrameData, PipelineEvent, PlaySpeed, PlayState, Resolution, YuvPlanes};

const MS: u64 = 1_000_000;

fn frame(pts: u64, decode_cost: u64) -> Frame {
    Frame {
        data: FrameData::PlanarYuv420(YuvPlanes {
            y_plane: bytes::Bytes::new(),
            u_plane: bytes::Bytes::new(),
            v_plane: bytes::Bytes::new(),
        }),
        resolution: Resolution { width: 2, height: 2 },
        pts,
        decode_cost,
    }
}

fn handle_with_capacity(cap: usize) -> (VideoHandle, Sender<PipelineEvent<Frame>>, crossbeam_channel::Receiver<SeekCommand>) {
    let (command_sender, command_receiver) = loose::<SeekCommand>(1);
    let (frame_sender, frame_receiver) = bounded(cap);
    let mut handle = VideoHandle::new(1000 * MS, command_sender, frame_receiver, 0);
    handle.play();
    (handle, frame_sender, command_receiver)
}

#[test]
fn new_handle_is_stopped_at_the_start() {
    let (command_sender, _cmd) = loose::<SeekCommand>(1);
    let (tx, frame_receiver) = bounded(4);
    let mut handle = VideoHandle::new(1000 * MS, command_sender, frame_receiver, 0);
    tx.send(PipelineEvent::Data(frame(0, 1))).unwrap();
    handle.tick(10 * MS);
    // A stopped handle takes nothing and keeps its clock.
    assert_eq!(handle.get_next_pts(), None);
    let state = handle.state();
    assert!(state.play_state == PlayState::Stopped);
    assert!(state.play_speed == PlaySpeed::Normal);
    assert_eq!(state.total_duration, 1000 * MS);
    assert_eq!(handle.get_pts(), 0);
    assert_eq!(handle.get_dropped_frames(), 0);
    assert_eq!(handle.get_frame_pts(), None);
    assert_eq!(handle.get_next_pts(), None);
    assert_eq!(handle.get_last_decode_cost(), None);
}

#[test]
fn tick_while_paused_only_keeps_the_reading() {
    let (mut handle, tx, _cmd) = handle_with_capacity(4);
    tx.send(PipelineEvent::Data(frame(0, 1))).unwrap();
    handle.pause();
    handle.tick(50 * MS);
    assert!(handle.state().play_state == PlayState::Paused);
    assert_eq!(handle.state().last_update, 50 * MS);
    assert_eq!(handle.get_pts(), 0);
    assert_eq!(handle.get_next_pts(), None);
    handle.play();
    handle.tick(60 * MS);
    // Only the 10 ms since the last reading count.
    assert_eq!(handle.get_pts(), 10 * MS);
}

#[test]
fn tick_with_nothing_waiting_changes_nothing() {
    let (mut handle, _tx, _cmd) = handle_with_capacity(4);
    handle.tick(40 * MS);
    assert_eq!(handle.state().last_update, 0);
    assert_eq!(handle.get_pts(), 0);
    assert!(!handle.state().eos);
}

#[test]
fn tick_presents_due_frames_and_counts_drops() {
    let (mut handle, tx, _cmd) = handle_with_capacity(8);
    tx.send(PipelineEvent::Data(frame(0, 3))).unwrap();
    tx.send(PipelineEvent::Data(frame(10 * MS, 4))).unwrap();
    tx.send(PipelineEvent::Data(frame(20 * MS, 5))).unwrap();
    handle.tick(15 * MS);
    assert_eq!(handle.get_pts(), 15 * MS);
    // Frames at 0 and 10 ms were due; the one at 0 ms was replaced unseen.
    assert_eq!(handle.get_dropped_frames(), 1);
    assert_eq!(handle.get_frame_pts(), Some(10 * MS));
    assert_eq!(handle.get_last_decode_cost(), Some(4));
    assert_eq!(handle.get_next_pts(), Some(20 * MS));
    let shown = handle.get_current_frame().unwrap();
    assert_eq!(shown.pts, 10 * MS);
    assert!(handle.get_current_frame().is_none());
    handle.tick(25 * MS);
    assert_eq!(handle.get_frame_pts(), Some(20 * MS));
    assert_eq!(handle.get_dropped_frames(), 1);
    // The channel ran dry: nothing waits now.
    assert_eq!(handle.get_next_pts(), None);
    assert!(handle.state().eos);
}

#[test]
fn tick_stops_at_end_of_stream() {
    let (mut handle, tx, _cmd) = handle_with_capacity(8);
    tx.send(PipelineEvent::Data(frame(0, 1))).unwrap();
    tx.send(PipelineEvent::EOS).unwrap();
    tx.send(PipelineEvent::Data(frame(1, 1))).unwrap();
    handle.tick(5 * MS);
    assert_eq!(handle.get_frame_pts(), Some(0));
    assert!(handle.state().eos);
    assert!(handle.state().play_state == PlayState::Completed);
    // The frame after the end of the stream stays in the channel.
    assert_eq!(handle.get_buffer_size(), (1, 8));
}

#[test]
fn play_speed_scales_the_clock() {
    assert_eq!(scale_duration(100, &PlaySpeed::Fast), 150);
    assert_eq!(scale_duration(100, &PlaySpeed::Slower), 25);
    assert_eq!(scale_duration(100, &PlaySpeed::Stopped), 0);
    assert_eq!(scale_duration(100, &PlaySpeed::Fastest), 1000);
    assert_eq!(scale_duration(u64::MAX, &PlaySpeed::Faster), u64::MAX);
    let (mut handle, tx, _cmd) = handle_with_capacity(4);
    handle.set_play_speed(PlaySpeed::Slow);
    tx.send(PipelineEvent::Data(frame(100 * MS, 1))).unwrap();
    handle.tick(40 * MS);
    assert_eq!(handle.get_pts(), 20 * MS);
}

#[test]
fn seek_drains_until_the_target() {
    let (mut handle, tx, cmd) = handle_with_capacity(16);
    tx.send(PipelineEvent::Data(frame(1 * MS, 1))).unwrap();
    handle.tick(0);
    assert_eq!(handle.get_next_pts(), Some(1 * MS));
    tx.send(PipelineEvent::Data(frame(2 * MS, 1))).unwrap();
    tx.send(PipelineEvent::SeekAck).unwrap();
    tx.send(PipelineEvent::Data(frame(5 * MS, 1))).unwrap();
    tx.send(PipelineEvent::Data(frame(12 * MS, 7))).unwrap();
    tx.send(PipelineEvent::Data(frame(13 * MS, 1))).unwrap();
    let outcome = handle.seek(10 * MS);
    assert!(matches!(outcome, Ok(SeekOutcome::Found)));
    assert!(matches!(cmd.try_recv(), Ok(SeekCommand::Seek(t)) if t == 10 * MS));
    // The waiting frame, the frame before the acknowledgement and the one
    // before the target are dropped.
    assert_eq!(handle.get_dropped_frames(), 3);
    assert_eq!(handle.get_pts(), 10 * MS);
    assert_eq!(handle.get_frame_pts(), None);
    assert_eq!(handle.get_next_pts(), None);
    assert_eq!(handle.get_current_frame().unwrap().pts, 12 * MS);
    assert_eq!(handle.get_buffer_size().0, 1);
}

#[test]
fn seek_ends_at_end_of_stream_and_on_close() {
    let (mut handle, tx, _cmd) = handle_with_capacity(4);
    tx.send(PipelineEvent::EOS).unwrap();
    assert!(matches!(handle.seek(3), Ok(SeekOutcome::EndOfStream)));
    assert!(handle.state().play_state == PlayState::Completed);
    tx.send(PipelineEvent::SeekAck).unwrap();
    tx.send(PipelineEvent::EOS).unwrap();
    assert!(matches!(handle.seek(3), Ok(SeekOutcome::EndOfStream)));
    tx.send(PipelineEvent::SeekAck).unwrap();
    drop(tx);
    assert!(matches!(handle.seek(3), Ok(SeekOutcome::Disconnected)));
    assert_eq!(handle.get_pts(), 3);
}

#[test]
fn seek_refuses_a_second_acknowledgement() {
    let (mut handle, tx, _cmd) = handle_with_capacity(4);
    tx.send(PipelineEvent::SeekAck).unwrap();
    tx.send(PipelineEvent::SeekAck).unwrap();
    assert!(matches!(handle.seek(3), Err(SeekError::DuplicateSeekAck)));
}

#[test]
fn seek_without_room_for_the_request_fails() {
    let (command_sender, _command_receiver) = loose::<SeekCommand>(0);
    let (_tx, frame_receiver) = bounded::<PipelineEvent<Frame>>(4);
    let mut handle = VideoHandle::new(10, command_sender, frame_receiver, 0);
    assert!(matches!(handle.seek(7), Err(SeekError::CommandNotSent)));
    assert_eq!(handle.get_pts(), 7);
}

#[test]
fn shared_handle_steers_the_same_playback() {
    let (handle, tx, _cmd) = handle_with_capacity(4);
    let shared = Shared::new(handle);
    let other = shared.clone();
    tx.send(PipelineEvent::Data(frame(0, 2))).unwrap();
    other.pause().unwrap();
    shared.tick(5).unwrap();
    assert_eq!(shared.get_pts(), Ok(0));
    shared.play().unwrap();
    shared.tick(9).unwrap();
    assert_eq!(other.get_pts(), Ok(4));
    assert_eq!(other.get_frame_pts(), Ok(Some(0)));
    assert_eq!(other.get_last_decode_cost(), Ok(Some(2)));
    assert_eq!(other.get_dropped_frames(), Ok(0));
    assert_eq!(other.get_next_pts(), Ok(None));
    assert_eq!(other.get_buffer_size(), Ok((0, 4)));
    assert!(other.get_current_frame().unwrap().is_some());
    tx.send(PipelineEvent::SeekAck).unwrap();
    tx.send(PipelineEvent::Data(frame(8, 1))).unwrap();
    assert!(matches!(shared.seek(8), Ok(Ok(SeekOutcome::Found))));
    other.stop().unwrap();
    assert_eq!(shared.get_pts(), Ok(0));
    assert!(shared.with(|h| h.state().play_state == PlayState::Stopped).unwrap());
}

#[test]
fn stopping_goes_back_to_the_start() {
    let (mut handle, tx, _cmd) = handle_with_capacity(4);
    tx.send(PipelineEvent::Data(frame(0, 1))).unwrap();
    handle.tick(30 * MS);
    assert_eq!(handle.get_pts(), 30 * MS);
    handle.stop();
    assert_eq!(handle.get_pts(), 0);
    assert!(handle.state().play_state == PlayState::Stopped);
    handle.tick(50 * MS);
    assert_eq!(handle.get_pts(), 0);
}

fn held(handle: &VideoHandle) -> u64 {
    handle.state().queued_frame.is_some() as u64 + handle.state().next_frame.is_some() as u64
}

#[test]
fn every_frame_taken_by_ticks_is_held_or_dropped() {
    let (mut handle, tx, _cmd) = handle_with_capacity(16);
    for i in 0..10u64 {
        tx.send(PipelineEvent::Data(frame(i * 10 * MS, 1))).unwrap();
    }
    handle.tick(35 * MS);
    // Frames at 0..=30 ms were presented in turn, the one at 40 ms waits.
    assert_eq!(held(&handle) + handle.get_dropped_frames(), 5);
    let shown = handle.get_current_frame().map(|f| f.pts);
    assert_eq!(shown, Some(30 * MS));
    handle.tick(95 * MS);
    // All ten were taken: one shown, one queued, none waiting after the
    // end-of-stream check found the channel empty, the rest dropped.
    assert_eq!(held(&handle) + handle.get_dropped_frames() + 1, 10);
}

#[test]
fn every_frame_a_seek_reads_is_held_or_dropped() {
    let (mut handle, tx, cmd) = handle_with_capacity(16);
    tx.send(PipelineEvent::Data(frame(0, 1))).unwrap();
    tx.send(PipelineEvent::Data(frame(10 * MS, 1))).unwrap();
    handle.tick(1);
    let before = held(&handle) + handle.get_dropped_frames();
    tx.send(PipelineEvent::Data(frame(20 * MS, 1))).unwrap();
    tx.send(PipelineEvent::SeekAck).unwrap();
    tx.send(PipelineEvent::Data(frame(400 * MS, 1))).unwrap();
    tx.send(PipelineEvent::Data(frame(500 * MS, 1))).unwrap();
    tx.send(PipelineEvent::Data(frame(510 * MS, 1))).unwrap();
    assert!(matches!(handle.seek(500 * MS), Ok(SeekOutcome::Found)));
    assert!(matches!(cmd.try_recv(), Ok(SeekCommand::Seek(t)) if t == 500 * MS));
    // Three frames were read; the frame at 510 ms is still in the channel.
    assert_eq!(held(&handle) + handle.get_dropped_frames(), before + 3);
    assert_eq!(handle.state().queued_frame.as_ref().map(|f| f.pts), Some(500 * MS));
}

#[test]
fn seek_queues_the_first_frame_at_or_after_the_target() {
    let (mut handle, tx, _cmd) = handle_with_capacity(16);
    tx.send(PipelineEvent::SeekAck).unwrap();
    tx.send(PipelineEvent::Data(frame(100 * MS, 1))).unwrap();
    tx.send(PipelineEvent::Data(frame(300 * MS, 1))).unwrap();
    tx.send(PipelineEvent::Data(frame(600 * MS, 1))).unwrap();
    tx.send(PipelineEvent::Data(frame(700 * MS, 1))).unwrap();
    assert!(matches!(handle.seek(500 * MS), Ok(SeekOutcome::Found)));
    assert_eq!(handle.state().queued_frame.as_ref().map(|f| f.pts), Some(600 * MS));
    assert_eq!(handle.get_dropped_frames(), 2);
    assert_eq!(handle.get_pts(), 500 * MS);
    assert_eq!(handle.get_frame_pts(), None);
}

#[test]
fn a_seek_after_the_end_resumes_playback() {
    let (mut handle, tx, _cmd) = handle_with_capacity(8);
    tx.send(PipelineEvent::Data(frame(0, 1))).unwrap();
    tx.send(PipelineEvent::EOS).unwrap();
    handle.tick(5 * MS);
    assert!(handle.state().play_state == PlayState::Completed);
    tx.send(PipelineEvent::SeekAck).unwrap();
    tx.send(PipelineEvent::Data(frame(50 * MS, 1))).unwrap();
    assert!(matches!(handle.seek(50 * MS), Ok(SeekOutcome::Found)));
    assert!(handle.state().play_state == PlayState::Playing);
    let (len, cap) = handle.get_buffer_size();
    assert!(len <= cap);
}

#[test]
fn the_clock_reads_the_seek_target_until_the_next_tick() {
    let (mut handle, tx, _cmd) = handle_with_capacity(8);
    tx.send(PipelineEvent::SeekAck).unwrap();
    tx.send(PipelineEvent::Data(frame(70 * MS, 1))).unwrap();
    let dropped = handle.get_dropped_frames();
    assert!(matches!(handle.seek(70 * MS), Ok(SeekOutcome::Found)));
    handle.pause();
    handle.set_play_speed(PlaySpeed::Fast);
    handle.play();
    let _ = handle.get_current_frame();
    assert_eq!(handle.get_pts(), 70 * MS);
    assert_eq!(handle.get_frame_pts(), None);
    assert!(handle.get_dropped_frames() >= dropped);
}
