use crossbeam_channel::bounded;
use pony_renderer::video::decoder_loop::{decoder_step, DecoderAction, DecoderEvent, DecoderLoop, FrameResult};
use pony_renderer::video::reader::{MP4Command, VideoCursor};
use pony_renderer::video::reader_loop::{reader_step, ReaderAction, ReaderEvent, ReaderLoop, SampleRead};
use pony_renderer::video::video_handle::SeekCommand;

fn decoder_run(events: Vec<DecoderEvent>) -> Vec<DecoderAction> {
    let mut state = DecoderLoop::new();
    events.into_iter().map(|event| decoder_step(&mut state, event)).collect()
}

#[test]
fn the_decoder_answers_a_seek_before_decoding_again_and_ends_with_eos() {
    let actions = decoder_run(vec![
        DecoderEvent::Stop(false),
        DecoderEvent::Packet { video: false },
        DecoderEvent::Stop(false),
        DecoderEvent::Packet { video: true },
        DecoderEvent::Frame(FrameResult::NotConverted),
        DecoderEvent::Stop(false),
        DecoderEvent::Frame(FrameResult::Converted),
        DecoderEvent::Stop(false),
        DecoderEvent::Sent(true),
        DecoderEvent::Command(Some(SeekCommand::Seek(5))),
        DecoderEvent::Sent(true),
        DecoderEvent::Sought,
        DecoderEvent::Stop(false),
        DecoderEvent::Stop(false),
        DecoderEvent::InputEnded,
        DecoderEvent::Sent(true),
        DecoderEvent::Stop(false),
    ]);
    assert_eq!(
        actions,
        vec![
            DecoderAction::ReadPacket, DecoderAction::CheckStop, DecoderAction::ReadPacket, DecoderAction::DecodePacket, DecoderAction::CheckStop, DecoderAction::ReceiveFrame, DecoderAction::CheckStop, DecoderAction::SendFrame,
            DecoderAction::TakeCommand, DecoderAction::SendSeekAck, DecoderAction::Seek(5), DecoderAction::CheckStop, DecoderAction::CheckStop, DecoderAction::ReadPacket, DecoderAction::SendEos, DecoderAction::Exit, DecoderAction::Exit,
        ]
    );
}

#[test]
fn the_decoder_keeps_decoding_without_a_seek() {
    let actions = decoder_run(vec![
        DecoderEvent::Stop(false),
        DecoderEvent::Packet { video: true },
        DecoderEvent::Frame(FrameResult::Converted),
        DecoderEvent::Stop(false),
        DecoderEvent::Sent(true),
        DecoderEvent::Command(Some(SeekCommand::SkipForward)),
        DecoderEvent::Frame(FrameResult::NoFrame),
        DecoderEvent::Stop(false),
    ]);
    assert_eq!(actions, vec![DecoderAction::ReadPacket, DecoderAction::DecodePacket, DecoderAction::CheckStop, DecoderAction::SendFrame, DecoderAction::TakeCommand, DecoderAction::ReceiveFrame, DecoderAction::CheckStop, DecoderAction::CheckStop]);
}

#[test]
fn the_decoder_stops_with_or_without_eos() {
    // Asked to stop at the top of the loop: the thread ends at once.
    assert_eq!(decoder_run(vec![DecoderEvent::Stop(true)]), vec![DecoderAction::Exit]);
    // Asked to stop among frames: the end of the stream still goes out.
    let actions = decoder_run(vec![
        DecoderEvent::Stop(false),
        DecoderEvent::Packet { video: true },
        DecoderEvent::Frame(FrameResult::Converted),
        DecoderEvent::Stop(true),
        DecoderEvent::Stop(true),
    ]);
    assert_eq!(actions, vec![DecoderAction::ReadPacket, DecoderAction::DecodePacket, DecoderAction::CheckStop, DecoderAction::CheckStop, DecoderAction::SendEos]);
    // A frame that cannot be sent ends the thread without the end of the stream.
    let actions = decoder_run(vec![
        DecoderEvent::Stop(false),
        DecoderEvent::Packet { video: true },
        DecoderEvent::Frame(FrameResult::Converted),
        DecoderEvent::Stop(false),
        DecoderEvent::Sent(false),
    ]);
    assert_eq!(actions.last(), Some(&DecoderAction::Exit));
    // An acknowledgement that cannot be sent ends it too.
    let actions = decoder_run(vec![
        DecoderEvent::Stop(false),
        DecoderEvent::Packet { video: true },
        DecoderEvent::Frame(FrameResult::Converted),
        DecoderEvent::Stop(false),
        DecoderEvent::Sent(true),
        DecoderEvent::Command(Some(SeekCommand::Seek(1))),
        DecoderEvent::Sent(false),
    ]);
    assert_eq!(actions[actions.len() - 2..], [DecoderAction::SendSeekAck, DecoderAction::Exit]);
}

fn reader_over(samples: u32) -> ReaderLoop {
    let (_tx, rx) = bounded::<MP4Command>(1);
    ReaderLoop::new(VideoCursor::new(1000, samples, rx))
}

#[test]
fn the_reader_reads_in_cursor_order_then_sends_eos_once() {
    let mut state = reader_over(4);
    let events = vec![
        ReaderEvent::Stop(false),
        ReaderEvent::Sample(SampleRead::Read),
        ReaderEvent::Sent(true),
        ReaderEvent::Stop(false),
        ReaderEvent::Sample(SampleRead::Missing),
        ReaderEvent::Stop(false),
        ReaderEvent::Sample(SampleRead::Failed),
        ReaderEvent::Stop(false),
        ReaderEvent::Sent(true),
        ReaderEvent::Stop(false),
    ];
    let actions: Vec<ReaderAction> = events.into_iter().map(|e| reader_step(&mut state, e)).collect();
    // The cursor stands on the first sample and steps before each read.
    assert_eq!(
        actions,
        vec![ReaderAction::ReadSample(2), ReaderAction::SendChunk, ReaderAction::CheckStop, ReaderAction::ReadSample(3), ReaderAction::CheckStop, ReaderAction::ReadSample(4), ReaderAction::CheckStop, ReaderAction::SendEos, ReaderAction::Exit, ReaderAction::Exit]
    );
}

#[test]
fn the_reader_stops_with_eos_and_ends_without_it_when_a_send_fails() {
    let mut state = reader_over(4);
    assert_eq!(reader_step(&mut state, ReaderEvent::Stop(true)), ReaderAction::SendEos);
    let mut state = reader_over(4);
    assert_eq!(reader_step(&mut state, ReaderEvent::Stop(false)), ReaderAction::ReadSample(2));
    assert_eq!(reader_step(&mut state, ReaderEvent::Sample(SampleRead::Read)), ReaderAction::SendChunk);
    assert_eq!(reader_step(&mut state, ReaderEvent::Sent(false)), ReaderAction::Exit);
    assert_eq!(state.current_sample(), 2);
}
