//! Video playback: the frames that travel from the decoder to the renderer,
//! the playback handles that schedule them, and the MP4 reading helpers.
pub mod decoder_loop;
pub mod decoder_thread;
pub mod reader;
pub mod reader_loop;
pub mod video_handle;

use crate::shared::{AlreadyBorrowed, Shared};
use crate::thread_utils::custom_beams::{loose_ops, offered, receiver_try_recv, sent_by, ChannelOp, LooseSender};
use crossbeam_channel::Receiver;
use vstd::prelude::*;

pub use decoder_thread::{Frame, FrameData, PipelineEvent, Resolution, YuvPlanes};

verus! {

/// Requests to the decoder thread. Positions are in nanoseconds.
pub enum MP4Command {
    /// Pause, if possible.
    Pause,
    /// Play, if possible.
    Play,
    /// Pause and go to the start.
    Stop,
    /// Go ten seconds forward.
    SkipForward,
    /// Go ten seconds back.
    SkipBackward,
    /// Go to a position.
    Seek(u64),
    /// Go to the middle.
    GoToMiddle,
}

/// What the decoder thread reports back. Positions are in nanoseconds.
pub enum VideoUpdateInfo {
    Started,
    Frame(u64),
    EOS,
}

/// Where playback stands.
#[derive(PartialEq, Eq, Structural)]
pub enum PlayState {
    /// Just created, or stopped back to the start.
    Stopped,
    /// Playing.
    Playing,
    /// Paused.
    Paused,
    /// The end of the stream was reached.
    Completed,
}

/// How fast playback runs.
#[derive(PartialEq, Eq, Structural)]
pub enum PlaySpeed {
    /// The user steps frame by frame.
    Stopped,
    /// A quarter of real time.
    Slower,
    /// Half of real time.
    Slow,
    /// Real time.
    Normal,
    /// One and a half times real time.
    Fast,
    /// Twice real time.
    Faster,
    /// As fast as the machine goes, bounded at ten times real time.
    Fastest,
}

/// What a playback handle that reads progress reports from its decoder knows.
pub struct PlaybackReport {
    pub play_state: PlayState,
    pub play_speed: PlaySpeed,
    /// How far the decoder has got, in nanoseconds.
    pub progress: u64,
}

/// A playback handle that steers its decoder thread by commands and reads
/// progress reports and frames back from it.
pub struct VideoHandle {
    report: PlaybackReport,
    command_sender: LooseSender<MP4Command>,
    update_receiver: Receiver<VideoUpdateInfo>,
    yuv_frame_receiver: Receiver<PipelineEvent<Frame>>,
}

impl View for VideoHandle {
    type V = PlaybackReport;

    closed spec fn view(&self) -> PlaybackReport {
        self.report
    }
}

/// The report after a progress update from the decoder: a frame position
/// becomes the progress; other updates change nothing.
pub open spec fn synced(report: PlaybackReport, update: Option<VideoUpdateInfo>) -> PlaybackReport {
    match update {
        Some(VideoUpdateInfo::Frame(position)) => PlaybackReport { progress: position, ..report },
        _ => report,
    }
}

impl VideoHandle {
    /// The commands the handle has sent to the decoder, oldest first.
    pub closed spec fn commands(&self) -> Seq<MP4Command> {
        self.command_sender.sent()
    }

    /// Everything the handle did to its command channel, oldest first: each
    /// command offered, and whether the channel took it.
    pub closed spec fn command_ops(&self) -> Seq<ChannelOp<MP4Command>> {
        self.command_sender.ops()
    }

    /// A handle just made: stopped at the start, at normal speed.
    pub fn new(
        command_sender: LooseSender<MP4Command>,
        update_receiver: Receiver<VideoUpdateInfo>,
        yuv_frame_receiver: Receiver<PipelineEvent<Frame>>,
    ) -> (handle: Self)
        ensures
            handle@ == (PlaybackReport { play_state: PlayState::Stopped, play_speed: PlaySpeed::Normal, progress: 0 }),
            handle.commands() == command_sender.sent(),
            handle.command_ops() == command_sender.ops(),
    {
        VideoHandle {
            report: PlaybackReport { play_state: PlayState::Stopped, play_speed: PlaySpeed::Normal, progress: 0 },
            command_sender,
            update_receiver,
            yuv_frame_receiver,
        }
    }

    /// Where playback stands.
    pub fn play_state(&self) -> (state: &PlayState)
        ensures
            *state == self@.play_state,
    {
        &self.report.play_state
    }

    /// How far the decoder has got, in nanoseconds.
    pub fn progress(&self) -> (progress: u64)
        ensures
            progress == self@.progress,
    {
        self.report.progress
    }

    /// Resumes playback.
    pub fn play(&mut self)
        ensures
            final(self)@ == (PlaybackReport { play_state: PlayState::Playing, ..old(self)@ }),
            final(self).commands() == old(self).commands(),
            final(self).command_ops() == old(self).command_ops(),
    {
        self.report.play_state = PlayState::Playing;
    }

    /// Pauses playback: frames stay in the channel, which holds the decoder back.
    pub fn pause(&mut self)
        ensures
            final(self)@ == (PlaybackReport { play_state: PlayState::Paused, ..old(self)@ }),
            final(self).commands() == old(self).commands(),
            final(self).command_ops() == old(self).command_ops(),
    {
        self.report.play_state = PlayState::Paused;
    }

    /// Asks the decoder to go to the middle of the video: the command is
    /// offered to the decoder's channel, and on the record if the channel
    /// took it.
    pub fn stop(&mut self)
        ensures
            final(self)@ == old(self)@,
            exists|taken: bool|
                {
                    &&& final(self).command_ops() == old(self).command_ops() + #[trigger] offered(
                        MP4Command::GoToMiddle,
                        taken,
                    )
                    &&& final(self).commands() == old(self).commands() + sent_by(taken, MP4Command::GoToMiddle)
                },
    {
        let res = self.command_sender.send(MP4Command::GoToMiddle);
        assert(self.command_ops() == old(self).command_ops() + offered(MP4Command::GoToMiddle, res is Ok));
    }

    /// Asks the decoder to seek to `to` nanoseconds, dropping a seek request
    /// that is still waiting. Gives back the command if it could not be sent.
    pub fn seek(&mut self, to: u64) -> (res: Result<(), MP4Command>)
        ensures
            final(self)@ == old(self)@,
            res matches Err(command) ==> command == MP4Command::Seek(to),
            final(self).commands() == old(self).commands() + sent_by(res is Ok, MP4Command::Seek(to)),
            exists|retried: bool|
                final(self).command_ops() == old(self).command_ops() + #[trigger] loose_ops(
                    MP4Command::Seek(to),
                    retried,
                    res is Ok,
                ),
    {
        match self.command_sender.loosely_send(MP4Command::Seek(to)) {
            Ok(()) => Ok(()),
            Err(crate::thread_utils::custom_beams::TrySendError::Full(command)) => Err(command),
            Err(crate::thread_utils::custom_beams::TrySendError::Disconnected(command)) => Err(command),
        }
    }

    /// Applies a progress update from the decoder.
    pub fn apply_update(&mut self, update: Option<VideoUpdateInfo>)
        ensures
            final(self)@ == synced(old(self)@, update),
            final(self).commands() == old(self).commands(),
            final(self).command_ops() == old(self).command_ops(),
    {
        if let Some(VideoUpdateInfo::Frame(position)) = update {
            self.report.progress = position;
        }
    }

    /// Reads one waiting progress update from the decoder, if there is one,
    /// and applies it; returns the update so that the caller can report it.
    pub fn sync(&mut self) -> (update: Option<VideoUpdateInfo>)
        ensures
            final(self)@ == synced(old(self)@, update),
            final(self).commands() == old(self).commands(),
            final(self).command_ops() == old(self).command_ops(),
    {
        let update = match receiver_try_recv(&self.update_receiver) {
            Ok(update) => Some(update),
            Err(_) => None,
        };
        match update {
            Some(VideoUpdateInfo::Frame(position)) => {
                self.report.progress = position;
                Some(VideoUpdateInfo::Frame(position))
            },
            other => other,
        }
    }

    /// Takes the next event from the decoder while playing; while not playing
    /// it reads nothing, which holds the decoder back.
    pub fn try_read_next_frame(&mut self) -> (event: Option<PipelineEvent<Frame>>)
        ensures
            final(self)@ == old(self)@,
            old(self)@.play_state != PlayState::Playing ==> event is None,
            final(self).commands() == old(self).commands(),
            final(self).command_ops() == old(self).command_ops(),
    {
        if self.report.play_state != PlayState::Playing {
            return None;
        }
        match receiver_try_recv(&self.yuv_frame_receiver) {
            Ok(event) => Some(event),
            Err(_) => None,
        }
    }
}

impl Shared<VideoHandle> {
    /// Resumes playback.
    pub fn play(&self) -> Result<(), AlreadyBorrowed> {
        self.with(|this: &mut VideoHandle| this.play())
    }

    /// Pauses playback.
    pub fn pause(&self) -> Result<(), AlreadyBorrowed> {
        self.with(|this: &mut VideoHandle| this.pause())
    }

    /// Asks the decoder to go to the middle of the video.
    pub fn stop(&self) -> Result<(), AlreadyBorrowed> {
        self.with(|this: &mut VideoHandle| this.stop())
    }

    /// Asks the decoder to seek to `to` nanoseconds.
    pub fn seek(&self, to: u64) -> Result<Result<(), MP4Command>, AlreadyBorrowed> {
        self.with(|this: &mut VideoHandle| this.seek(to))
    }

    /// Reads one waiting progress update from the decoder and applies it.
    pub fn sync(&self) -> Result<Option<VideoUpdateInfo>, AlreadyBorrowed> {
        self.with(|this: &mut VideoHandle| this.sync())
    }

    /// Takes the next event from the decoder while playing.
    pub fn try_read_next_frame(&self) -> Result<Option<PipelineEvent<Frame>>, AlreadyBorrowed> {
        self.with(|this: &mut VideoHandle| this.try_read_next_frame())
    }
}

} // verus!
