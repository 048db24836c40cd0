use crossbeam_channel::bounded;
use pony_renderer::shared::Shared;
use pony_renderer::thread_utils::custom_beams::loose;
use pony_renderer::video::{MP4Command, PipelineEvent, PlayState, VideoHandle, VideoUpdateInfo};

#[test]
fn reports_and_frames_follow_the_play_state() {
    let (command_sender, command_receiver) = loose::<MP4Command>(1);
    let (update_sender, update_receiver) = bounded(4);
    let (frame_sender, frame_receiver) = bounded(4);
    let mut handle = VideoHandle::new(command_sender, update_receiver, frame_receiver);
    assert!(*handle.play_state() == PlayState::Stopped);
    assert!(handle.try_read_next_frame().is_none());
    handle.play();
    assert!(*handle.play_state() == PlayState::Playing);
    update_sender.send(VideoUpdateInfo::Frame(40)).unwrap();
    assert!(matches!(handle.sync(), Some(VideoUpdateInfo::Frame(40))));
    assert_eq!(handle.progress(), 40);
    update_sender.send(VideoUpdateInfo::Started).unwrap();
    assert!(matches!(handle.sync(), Some(VideoUpdateInfo::Started)));
    assert_eq!(handle.progress(), 40);
    assert!(handle.sync().is_none());
    frame_sender.send(PipelineEvent::EOS).unwrap();
    handle.pause();
    assert!(handle.try_read_next_frame().is_none());
    handle.play();
    assert!(matches!(handle.try_read_next_frame(), Some(PipelineEvent::EOS)));
    assert!(handle.seek(5).is_ok());
    assert!(matches!(command_receiver.try_recv(), Ok(MP4Command::Seek(5))));
    let shared = Shared::new(handle);
    shared.stop().unwrap();
    assert!(matches!(command_receiver.try_recv(), Ok(MP4Command::GoToMiddle)));
    assert!(shared.with(|h| *h.play_state() == PlayState::Playing).unwrap());
    shared.pause().unwrap();
    assert!(shared.try_read_next_frame().unwrap().is_none());
    shared.play().unwrap();
    assert!(shared.seek(9).unwrap().is_ok());
    update_sender.send(VideoUpdateInfo::EOS).unwrap();
    assert!(matches!(shared.sync(), Ok(Some(VideoUpdateInfo::EOS))));
}
