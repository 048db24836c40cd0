//! The playback handle that presents decoded frames on the renderer's clock.
//!
//! The handle keeps two frames: `next_frame`, the earliest decoded frame not
//! yet due, and `queued_frame`, the frame the renderer should show. Each tick
//! advances the playback clock by the time that passed, scaled by the play
//! speed, and moves every frame that has become due into the presentation
//! slot; a queued frame that is replaced before the renderer took it counts as
//! dropped. A handle starts stopped at the start of the video, plays once
//! asked to, and completes when the decoder reports the end of the stream.
//! All times are in nanoseconds.
use crate::shared::{AlreadyBorrowed, Shared};
use crate::thread_utils::custom_beams::{
    channel_bounded, loose_ops, receiver_is_empty, sent_by, ChannelOp, receiver_recv, receiver_try_recv, LooseSender,
};
use crate::video::{Frame, PipelineEvent, PlaySpeed, PlayState};
use crossbeam_channel::{Receiver, Sender};
use vstd::prelude::*;

verus! {

/// Requests to the decoder thread.
pub enum SeekCommand {
    Stop,
    /// Go ten seconds forward.
    SkipForward,
    /// Go ten seconds back.
    SkipBackward,
    /// Go to a position, in nanoseconds.
    Seek(u64),
}

/// Everything the handle knows about playback, apart from its channels.
pub struct PlaybackState {
    pub play_state: PlayState,
    pub play_speed: PlaySpeed,
    /// The length of the video.
    pub total_duration: u64,
    /// How many decoded frames were never shown.
    pub dropped_frames: u64,
    /// The earliest decoded frame that is not yet due.
    pub next_frame: Option<Frame>,
    /// The frame the renderer should show next.
    pub queued_frame: Option<Frame>,
    /// The wall-clock reading of the last tick that advanced the clock.
    pub last_update: u64,
    /// The playback clock.
    pub current_timestamp: u64,
    /// What decoding the last queued frame cost.
    pub last_decode_cost: Option<u64>,
    /// The presentation time of the last queued frame.
    pub frame_timestamp: Option<u64>,
    /// Whether the last attempt to take a frame from the decoder got none.
    pub eos: bool,
}

/// The play speed in quarters of real time; the fastest speed is bounded at
/// ten times real time.
pub open spec fn speed_quarters(speed: PlaySpeed) -> nat {
    match speed {
        PlaySpeed::Stopped => 0,
        PlaySpeed::Slower => 1,
        PlaySpeed::Slow => 2,
        PlaySpeed::Normal => 4,
        PlaySpeed::Fast => 6,
        PlaySpeed::Faster => 8,
        PlaySpeed::Fastest => 40,
    }
}

/// `n`, or the largest `u64` where `n` is larger.
pub open spec fn saturated(n: nat) -> u64 {
    if n > u64::MAX {
        u64::MAX
    } else {
        n as u64
    }
}

/// `n + 1`, or `n` where that does not fit.
pub open spec fn saturating_inc(n: u64) -> u64 {
    saturated((n + 1) as nat)
}

/// Wall-clock time `elapsed` as it passes on the playback clock.
pub open spec fn scaled_elapsed(elapsed: u64, speed: PlaySpeed) -> u64 {
    saturated(((elapsed * speed_quarters(speed)) / 4) as nat)
}

/// The time between two wall-clock readings; none when the later reading is
/// not later.
pub open spec fn elapsed_between(earlier: u64, later: u64) -> u64 {
    if later >= earlier {
        (later - earlier) as u64
    } else {
        0
    }
}

/// The state after the clock is advanced to the wall-clock reading `now`.
pub open spec fn clock_advanced(s: PlaybackState, now: u64) -> PlaybackState {
    PlaybackState {
        last_update: now,
        current_timestamp: saturated(
            (s.current_timestamp + scaled_elapsed(elapsed_between(s.last_update, now), s.play_speed)) as nat,
        ),
        ..s
    }
}

/// Whether the waiting frame is due on the playback clock; with no waiting
/// frame there is nothing to wait for.
pub open spec fn frame_due(s: PlaybackState) -> bool {
    match s.next_frame {
        Some(frame) => frame.pts <= s.current_timestamp,
        None => true,
    }
}

/// What one attempt to take a frame from the decoder gave.
pub enum Taken {
    /// A decoded frame.
    Frame(Frame),
    /// No frame: the channel was empty or closed, or held an acknowledgement.
    Nothing,
    /// The decoder reported the end of the stream.
    Ended,
}

/// The frame taken, if any.
pub open spec fn taken_frame(t: Taken) -> Option<Frame> {
    match t {
        Taken::Frame(frame) => Some(frame),
        _ => None,
    }
}

/// The play state once `t` was taken: the end of the stream completes
/// playback.
pub open spec fn state_after_taking(play_state: PlayState, t: Taken) -> PlayState {
    match t {
        Taken::Ended => PlayState::Completed,
        _ => play_state,
    }
}

/// The state after the waiting frame moves into the presentation slot and
/// `incoming` becomes the waiting frame. A frame that was still queued counts
/// as dropped.
pub open spec fn presented(s: PlaybackState, incoming: Taken) -> PlaybackState {
    PlaybackState {
        dropped_frames: if s.queued_frame is Some {
            saturating_inc(s.dropped_frames)
        } else {
            s.dropped_frames
        },
        queued_frame: s.next_frame,
        frame_timestamp: match s.next_frame {
            Some(frame) => Some(frame.pts),
            None => s.frame_timestamp,
        },
        last_decode_cost: match s.next_frame {
            Some(frame) => Some(frame.decode_cost),
            None => s.last_decode_cost,
        },
        next_frame: taken_frame(incoming),
        eos: !(incoming is Frame),
        play_state: state_after_taking(s.play_state, incoming),
        ..s
    }
}

/// Whether presenting stops at `s` after `steps` presentations: the waiting
/// frame is not due yet, the decoder had no frame, or the drop counter can
/// count no further.
pub open spec fn presentation_halted(s: PlaybackState, steps: nat) -> bool {
    ||| !frame_due(s)
    ||| s.dropped_frames == u64::MAX
    ||| (steps > 0 && s.eos)
}

/// The state after presenting due frames, taking the frames in `incoming`
/// from the decoder one per presentation, until presenting halts.
pub open spec fn present_due_frames(s: PlaybackState, incoming: Seq<Taken>) -> PlaybackState
    decreases incoming.len(),
{
    if incoming.len() == 0 {
        s
    } else {
        let prev = present_due_frames(s, incoming.drop_last());
        if presentation_halted(prev, (incoming.len() - 1) as nat) {
            prev
        } else {
            presented(prev, incoming.last())
        }
    }
}

/// The state from which a running tick presents frames: a frame taken from
/// the decoder (`first`) waits if none did, and the clock is advanced to the
/// wall-clock reading `now`.
pub open spec fn tick_start(s: PlaybackState, now: u64, first: Taken) -> PlaybackState {
    let waiting = if s.next_frame is None {
        PlaybackState {
            next_frame: taken_frame(first),
            eos: !(first is Frame),
            play_state: state_after_taking(s.play_state, first),
            ..s
        }
    } else {
        s
    };
    clock_advanced(waiting, now)
}

/// The state after a tick at wall-clock reading `now`, given what the
/// decoder's channel showed: whether it held anything (`has_frames`), the
/// frame taken when none was waiting (`first`), and the frames taken while
/// presenting (`incoming`).
pub open spec fn ticked(
    s: PlaybackState,
    now: u64,
    has_frames: bool,
    first: Taken,
    incoming: Seq<Taken>,
) -> PlaybackState {
    if s.play_state != PlayState::Playing {
        PlaybackState { last_update: now, ..s }
    } else if s.next_frame is None && !has_frames {
        s
    } else {
        present_due_frames(tick_start(s, now, first), incoming)
    }
}

/// Whether presenting from `s` used every frame of `incoming`: no shorter
/// run of presentations had already halted.
pub open spec fn consumed_all(s: PlaybackState, incoming: Seq<Taken>) -> bool {
    forall|k: int|
        0 <= k < incoming.len() ==> !presentation_halted(#[trigger] present_due_frames(s, incoming.take(k)), k as nat)
}

/// Whether a running tick presented once for every frame it took while
/// presenting.
pub open spec fn tick_consumed(
    s: PlaybackState,
    now: u64,
    has_frames: bool,
    first: Taken,
    incoming: Seq<Taken>,
) -> bool {
    (s.play_state == PlayState::Playing && (s.next_frame is Some || has_frames)) ==> consumed_all(
        tick_start(s, now, first),
        incoming,
    )
}

/// How many frames the handle holds: the queued one and the waiting one.
pub open spec fn held_frames(s: PlaybackState) -> nat {
    (if s.queued_frame is Some {
        1nat
    } else {
        0nat
    }) + (if s.next_frame is Some {
        1nat
    } else {
        0nat
    })
}

/// How many of the results of taking from the decoder were frames.
pub open spec fn frames_in(taken: Seq<Taken>) -> nat
    decreases taken.len(),
{
    if taken.len() == 0 {
        0
    } else {
        frames_in(taken.drop_last()) + if taken.last() is Frame {
            1nat
        } else {
            0nat
        }
    }
}

/// How many frames a tick took from the decoder.
pub open spec fn frames_taken(
    s: PlaybackState,
    has_frames: bool,
    first: Taken,
    incoming: Seq<Taken>,
) -> nat {
    if s.play_state != PlayState::Playing || (s.next_frame is None && !has_frames) {
        0
    } else {
        (if s.next_frame is None && first is Frame {
            1nat
        } else {
            0nat
        }) + frames_in(incoming)
    }
}

/// Whether a tick from `s` ran its presentation loop to the end: it does
/// whenever playback runs and a frame was waiting or could be taken.
pub open spec fn tick_settled(
    s: PlaybackState,
    has_frames: bool,
    incoming: Seq<Taken>,
    after: PlaybackState,
) -> bool {
    (s.play_state == PlayState::Playing && (s.next_frame is Some || has_frames)) ==> presentation_halted(
        after,
        incoming.len(),
    )
}

/// How a seek ended.
pub enum SeekOutcome {
    /// A frame at or after the target was queued.
    Found,
    /// The decoder reported the end of the stream.
    EndOfStream,
    /// The decoder's channel closed.
    Disconnected,
    /// The drop counter could count no further, so draining stopped.
    CounterFull,
}

/// Why a seek failed.
pub enum SeekError {
    /// The seek request could not be sent to the decoder.
    CommandNotSent,
    /// The decoder acknowledged a seek twice.
    DuplicateSeekAck,
}

/// Where waiting for the decoder's acknowledgement of a seek stands.
pub enum AckWait {
    InProgress,
    Acknowledged,
    Ended(SeekOutcome),
}

/// Where waiting for the first frame at or after the seek target stands.
pub enum TargetWait {
    InProgress,
    Ended(Result<SeekOutcome, SeekError>),
}

/// The state and progress after one event (`None`: the channel closed)
/// while waiting for the acknowledgement: frames before it are dropped, and
/// the end of the stream completes playback.
pub open spec fn ack_step(s: PlaybackState, event: Option<PipelineEvent<Frame>>) -> (PlaybackState, AckWait) {
    match event {
        None => (s, AckWait::Ended(SeekOutcome::Disconnected)),
        Some(PipelineEvent::Data(_)) => (PlaybackState { dropped_frames: saturating_inc(s.dropped_frames), ..s }, AckWait::InProgress),
        Some(PipelineEvent::SeekAck) => (s, AckWait::Acknowledged),
        Some(PipelineEvent::EOS) => (PlaybackState { play_state: PlayState::Completed, ..s }, AckWait::Ended(SeekOutcome::EndOfStream)),
    }
}

/// Waiting for the acknowledgement over the events `events`.
pub open spec fn wait_for_ack(s: PlaybackState, events: Seq<Option<PipelineEvent<Frame>>>) -> (PlaybackState, AckWait)
    decreases events.len(),
{
    if events.len() == 0 {
        (s, AckWait::InProgress)
    } else {
        let (prev, wait) = wait_for_ack(s, events.drop_last());
        if !(wait is InProgress) || prev.dropped_frames == u64::MAX {
            (prev, wait)
        } else {
            ack_step(prev, events.last())
        }
    }
}

/// The state and progress after one event while looking for the first frame
/// at or after `to`: that frame is queued, earlier frames are dropped, and the
/// end of the stream completes playback.
pub open spec fn target_step(s: PlaybackState, to: u64, event: Option<PipelineEvent<Frame>>) -> (PlaybackState, TargetWait) {
    match event {
        None => (s, TargetWait::Ended(Ok(SeekOutcome::Disconnected))),
        Some(PipelineEvent::Data(frame)) => if frame.pts >= to {
            (
                PlaybackState {
                    dropped_frames: if s.queued_frame is Some {
                        saturating_inc(s.dropped_frames)
                    } else {
                        s.dropped_frames
                    },
                    queued_frame: Some(frame),
                    ..s
                },
                TargetWait::Ended(Ok(SeekOutcome::Found)),
            )
        } else {
            (PlaybackState { dropped_frames: saturating_inc(s.dropped_frames), ..s }, TargetWait::InProgress)
        },
        Some(PipelineEvent::SeekAck) => (s, TargetWait::Ended(Err(SeekError::DuplicateSeekAck))),
        Some(PipelineEvent::EOS) => (
            PlaybackState { play_state: PlayState::Completed, ..s },
            TargetWait::Ended(Ok(SeekOutcome::EndOfStream)),
        ),
    }
}

/// Looking for the first frame at or after `to` over the events `events`.
pub open spec fn wait_for_target(s: PlaybackState, to: u64, events: Seq<Option<PipelineEvent<Frame>>>) -> (PlaybackState, TargetWait)
    decreases events.len(),
{
    if events.len() == 0 {
        (s, TargetWait::InProgress)
    } else {
        let (prev, wait) = wait_for_target(s, to, events.drop_last());
        if !(wait is InProgress) || prev.dropped_frames == u64::MAX {
            (prev, wait)
        } else {
            target_step(prev, to, events.last())
        }
    }
}

/// The state when a seek to `to` starts: the clock jumps to the target and
/// no frame has been shown from the new position.
pub open spec fn seek_started(s: PlaybackState, to: u64) -> PlaybackState {
    PlaybackState { current_timestamp: to, frame_timestamp: None, ..s }
}

/// The play state once a seek request reached the decoder: playback that had
/// completed resumes, since the decoder goes on from the target.
pub open spec fn resumed(play_state: PlayState) -> PlayState {
    if play_state == PlayState::Completed {
        PlayState::Playing
    } else {
        play_state
    }
}

/// The state once the request is sent: the waiting frame is dropped, and
/// completed playback resumes.
pub open spec fn waiting_frame_dropped(s: PlaybackState) -> PlaybackState {
    let s = PlaybackState { play_state: resumed(s.play_state), ..s };
    if s.next_frame is Some {
        PlaybackState { dropped_frames: saturating_inc(s.dropped_frames), next_frame: None, ..s }
    } else {
        s
    }
}

/// The state and result of a seek to `to`, given whether the request got to
/// the decoder (`sent`), the events read before the acknowledgement
/// (`before`) and the events read after it (`after`).
pub open spec fn sought(
    s: PlaybackState,
    to: u64,
    sent: bool,
    before: Seq<Option<PipelineEvent<Frame>>>,
    after: Seq<Option<PipelineEvent<Frame>>>,
) -> (PlaybackState, Result<SeekOutcome, SeekError>) {
    let started = seek_started(s, to);
    if !sent {
        (started, Err(SeekError::CommandNotSent))
    } else {
        let (acked, wait) = wait_for_ack(waiting_frame_dropped(started), before);
        match wait {
            AckWait::InProgress => (acked, Ok(SeekOutcome::CounterFull)),
            AckWait::Ended(outcome) => (acked, Ok(outcome)),
            AckWait::Acknowledged => {
                let (found, target) = wait_for_target(acked, to, after);
                match target {
                    TargetWait::InProgress => (found, Ok(SeekOutcome::CounterFull)),
                    TargetWait::Ended(res) => (found, res),
                }
            },
        }
    }
}

/// Whether a seek read events until it had an answer: a wait that is still
/// in progress has stopped only because the drop counter is full.
pub open spec fn seek_settled(
    s: PlaybackState,
    to: u64,
    sent: bool,
    before: Seq<Option<PipelineEvent<Frame>>>,
    after: Seq<Option<PipelineEvent<Frame>>>,
) -> bool {
    let (acked, wait) = wait_for_ack(waiting_frame_dropped(seek_started(s, to)), before);
    sent ==> {
        &&& (wait is InProgress ==> acked.dropped_frames == u64::MAX)
        &&& (!(wait is Acknowledged) ==> after.len() == 0)
        &&& (wait is Acknowledged ==> {
            let (found, target) = wait_for_target(acked, to, after);
            target is InProgress ==> found.dropped_frames == u64::MAX
        })
    }
}


/// How many of the results of reading from the decoder carried a frame.
pub open spec fn frame_events(events: Seq<Option<PipelineEvent<Frame>>>) -> nat
    decreases events.len(),
{
    if events.len() == 0 {
        0
    } else {
        frame_events(events.drop_last()) + if events.last() matches Some(PipelineEvent::Data(_)) {
            1nat
        } else {
            0nat
        }
    }
}

/// Whether waiting for the acknowledgement from `s` used every event of
/// `events`: it was still waiting, and could still count, before each.
pub open spec fn ack_consumed(s: PlaybackState, events: Seq<Option<PipelineEvent<Frame>>>) -> bool {
    forall|k: int|
        0 <= k < events.len() ==> {
            let (st, wait) = #[trigger] wait_for_ack(s, events.take(k));
            wait is InProgress && st.dropped_frames < u64::MAX
        }
}

/// Whether looking for the target from `s` used every event of `events`.
pub open spec fn target_consumed(s: PlaybackState, to: u64, events: Seq<Option<PipelineEvent<Frame>>>) -> bool {
    forall|k: int|
        0 <= k < events.len() ==> {
            let (st, wait) = #[trigger] wait_for_target(s, to, events.take(k));
            wait is InProgress && st.dropped_frames < u64::MAX
        }
}

/// Whether a seek read no event after it had its answer.
pub open spec fn seek_consumed(
    s: PlaybackState,
    to: u64,
    sent: bool,
    before: Seq<Option<PipelineEvent<Frame>>>,
    after: Seq<Option<PipelineEvent<Frame>>>,
) -> bool {
    let dropped = waiting_frame_dropped(seek_started(s, to));
    let (acked, wait) = wait_for_ack(dropped, before);
    sent ==> ack_consumed(dropped, before) && (wait is Acknowledged ==> target_consumed(acked, to, after))
}

/// How many frames a seek read from the decoder.
pub open spec fn seek_frames_read(
    sent: bool,
    before: Seq<Option<PipelineEvent<Frame>>>,
    after: Seq<Option<PipelineEvent<Frame>>>,
) -> nat {
    if sent {
        frame_events(before) + frame_events(after)
    } else {
        0
    }
}

proof fn lemma_present_due_frames_monotone(s: PlaybackState, incoming: Seq<Taken>)
    ensures
        present_due_frames(s, incoming).dropped_frames >= s.dropped_frames,
        present_due_frames(s, incoming).current_timestamp == s.current_timestamp,
        present_due_frames(s, incoming).play_state == s.play_state
            || present_due_frames(s, incoming).play_state == PlayState::Completed,
        present_due_frames(s, incoming).last_update == s.last_update,
        present_due_frames(s, incoming).play_speed == s.play_speed,
    decreases incoming.len(),
{
    if incoming.len() > 0 {
        lemma_present_due_frames_monotone(s, incoming.drop_last());
    }
}

/// A tick never lowers the count of dropped frames and never moves the
/// playback clock back; it changes the play state only to complete playback
/// at the end of the stream.
pub proof fn lemma_tick_monotone(
    s: PlaybackState,
    now: u64,
    has_frames: bool,
    first: Taken,
    incoming: Seq<Taken>,
)
    ensures
        ticked(s, now, has_frames, first, incoming).dropped_frames >= s.dropped_frames,
        ticked(s, now, has_frames, first, incoming).current_timestamp >= s.current_timestamp,
        ticked(s, now, has_frames, first, incoming).play_state == s.play_state
            || ticked(s, now, has_frames, first, incoming).play_state == PlayState::Completed,
{
    if s.play_state == PlayState::Playing && (s.next_frame is Some || has_frames) {
        lemma_present_due_frames_monotone(tick_start(s, now, first), incoming);
    }
}

/// While playback does not run, a tick keeps only the wall-clock reading:
/// the clock stands still and no frame is taken or shown.
pub proof fn lemma_tick_while_not_playing(
    s: PlaybackState,
    now: u64,
    has_frames: bool,
    first: Taken,
    incoming: Seq<Taken>,
)
    requires
        s.play_state != PlayState::Playing,
    ensures
        ticked(s, now, has_frames, first, incoming) == (PlaybackState { last_update: now, ..s }),
{
}

/// A tick that runs reads the wall clock once: the playback clock moves on
/// by the time since the last update, scaled by the play speed (not at all
/// when stopped, a quarter, half, once, one and a half, twice or ten times
/// that time, rounded down, and held at the largest `u64`),
/// and that reading becomes the last update, so the next tick counts only the
/// time after it. A tick while playback does not run only records the
/// reading; one that finds playback running but no frame waiting and none in
/// the channel returns before reading the clock and changes nothing.
pub proof fn lemma_tick_reads_the_wall_clock(
    s: PlaybackState,
    now: u64,
    has_frames: bool,
    first: Taken,
    incoming: Seq<Taken>,
)
    ensures
        (s.play_state != PlayState::Playing || s.next_frame is Some || has_frames) ==> ticked(
            s,
            now,
            has_frames,
            first,
            incoming,
        ).last_update == now,
        (s.play_state == PlayState::Playing && s.next_frame is None && !has_frames) ==> ticked(
            s,
            now,
            has_frames,
            first,
            incoming,
        ) == s,
        (s.play_state == PlayState::Playing && (s.next_frame is Some || has_frames) && s.last_update <= now)
            ==> ({
            let e = now - s.last_update;
            let advanced = s.current_timestamp + match s.play_speed {
                PlaySpeed::Stopped => 0,
                PlaySpeed::Slower => e / 4,
                PlaySpeed::Slow => e / 2,
                PlaySpeed::Normal => e,
                PlaySpeed::Fast => e * 3 / 2,
                PlaySpeed::Faster => 2 * e,
                PlaySpeed::Fastest => 10 * e,
            };
            ticked(s, now, has_frames, first, incoming).current_timestamp == if advanced > u64::MAX {
                u64::MAX as int
            } else {
                advanced
            }
        }),
        ticked(s, now, has_frames, first, incoming).play_speed == s.play_speed,
{
    if s.play_state == PlayState::Playing && (s.next_frame is Some || has_frames) {
        let start = tick_start(s, now, first);
        lemma_present_due_frames_monotone(start, incoming);
        if s.last_update <= now {
            let e = (now - s.last_update) as int;
            assert(e * 6 / 4 == e * 3 / 2 && e * 2 / 4 == e / 2 && e * 1 / 4 == e / 4 && e * 8 / 4 == 2 * e
                && e * 40 / 4 == 10 * e && e * 4 / 4 == e && e * 0 / 4 == 0);
        }
    }
}

/// How many times real time passes on the playback clock at a speed that is
/// a whole multiple of it; other speeds give none.
pub open spec fn whole_speed_factor(speed: PlaySpeed) -> int {
    match speed {
        PlaySpeed::Normal => 1,
        PlaySpeed::Faster => 2,
        PlaySpeed::Fastest => 10,
        _ => 0,
    }
}

/// At a speed that is a whole multiple of real time (stopped, normal, twice
/// and ten times), the playback clock adds up over ticks: two running ticks
/// at wall-clock readings `t1` and then `t2` move it exactly as far as the
/// time from the last update before the first to `t2`, scaled, and leave `t2`
/// as the last update.
pub proof fn lemma_ticks_add_up(
    s: PlaybackState,
    t1: u64,
    has1: bool,
    first1: Taken,
    incoming1: Seq<Taken>,
    t2: u64,
    has2: bool,
    first2: Taken,
    incoming2: Seq<Taken>,
)
    requires
        s.play_state == PlayState::Playing,
        s.next_frame is Some || has1,
        ticked(s, t1, has1, first1, incoming1).play_state == PlayState::Playing,
        ticked(s, t1, has1, first1, incoming1).next_frame is Some || has2,
        s.last_update <= t1 <= t2,
        s.play_speed == PlaySpeed::Stopped || s.play_speed == PlaySpeed::Normal || s.play_speed
            == PlaySpeed::Faster || s.play_speed == PlaySpeed::Fastest,
        s.current_timestamp + whole_speed_factor(s.play_speed) * (t2 - s.last_update) <= u64::MAX,
    ensures
        ticked(ticked(s, t1, has1, first1, incoming1), t2, has2, first2, incoming2).current_timestamp
            == s.current_timestamp + whole_speed_factor(s.play_speed) * (t2 - s.last_update),
        ticked(ticked(s, t1, has1, first1, incoming1), t2, has2, first2, incoming2).last_update == t2,
{
    let s1 = ticked(s, t1, has1, first1, incoming1);
    lemma_tick_reads_the_wall_clock(s, t1, has1, first1, incoming1);
    lemma_tick_reads_the_wall_clock(s1, t2, has2, first2, incoming2);
}

proof fn lemma_present_due_frames_accounts(s: PlaybackState, incoming: Seq<Taken>)
    requires
        consumed_all(s, incoming),
        present_due_frames(s, incoming).dropped_frames < u64::MAX,
    ensures
        held_frames(present_due_frames(s, incoming)) + present_due_frames(s, incoming).dropped_frames
            == held_frames(s) + s.dropped_frames + frames_in(incoming),
    decreases incoming.len(),
{
    if incoming.len() > 0 {
        let n = incoming.len() - 1;
        let rest = incoming.drop_last();
        assert(incoming.take(n) =~= rest);
        assert forall|k: int| 0 <= k < rest.len() implies !presentation_halted(
            #[trigger] present_due_frames(s, rest.take(k)),
            k as nat,
        ) by {
            assert(rest.take(k) =~= incoming.take(k));
        }
        let prev = present_due_frames(s, rest);
        assert(!presentation_halted(present_due_frames(s, incoming.take(n)), n as nat));
        lemma_present_due_frames_monotone(s, incoming);
        assert(prev.dropped_frames <= present_due_frames(s, incoming).dropped_frames) by {
            lemma_present_due_frames_monotone(prev, seq![incoming.last()]);
        }
        lemma_present_due_frames_accounts(s, rest);
    }
}

/// Every frame a tick takes from the decoder is accounted for: it is held
/// as the queued or the waiting frame, or counted as dropped. Held frames
/// and the drop count together grow by exactly the frames taken, as long as
/// the count has not reached its limit.
pub proof fn lemma_tick_accounts_for_every_frame(
    s: PlaybackState,
    now: u64,
    has_frames: bool,
    first: Taken,
    incoming: Seq<Taken>,
)
    requires
        tick_consumed(s, now, has_frames, first, incoming),
        ticked(s, now, has_frames, first, incoming).dropped_frames < u64::MAX,
    ensures
        held_frames(ticked(s, now, has_frames, first, incoming)) + ticked(
            s,
            now,
            has_frames,
            first,
            incoming,
        ).dropped_frames == held_frames(s) + s.dropped_frames + frames_taken(s, has_frames, first, incoming),
{
    if s.play_state == PlayState::Playing && (s.next_frame is Some || has_frames) {
        lemma_present_due_frames_accounts(tick_start(s, now, first), incoming);
    }
}

proof fn lemma_wait_for_ack_keeps(s: PlaybackState, events: Seq<Option<PipelineEvent<Frame>>>)
    ensures
        wait_for_ack(s, events).0.dropped_frames >= s.dropped_frames,
        wait_for_ack(s, events).0 == (PlaybackState {
            dropped_frames: wait_for_ack(s, events).0.dropped_frames,
            play_state: wait_for_ack(s, events).0.play_state,
            ..s
        }),
        !(wait_for_ack(s, events).1 matches AckWait::Ended(SeekOutcome::Found)),
    decreases events.len(),
{
    if events.len() > 0 {
        lemma_wait_for_ack_keeps(s, events.drop_last());
    }
}

proof fn lemma_wait_for_target_keeps(s: PlaybackState, to: u64, events: Seq<Option<PipelineEvent<Frame>>>)
    ensures
        wait_for_target(s, to, events).0.dropped_frames >= s.dropped_frames,
        wait_for_target(s, to, events).0.current_timestamp == s.current_timestamp,
        wait_for_target(s, to, events).0.next_frame == s.next_frame,
        wait_for_target(s, to, events).0.frame_timestamp == s.frame_timestamp,
        wait_for_target(s, to, events).1 matches TargetWait::Ended(Ok(SeekOutcome::Found))
            ==> wait_for_target(s, to, events).0.queued_frame matches Some(frame) && frame.pts >= to,
    decreases events.len(),
{
    if events.len() > 0 {
        lemma_wait_for_target_keeps(s, to, events.drop_last());
    }
}

proof fn lemma_wait_for_ack_accounts(s: PlaybackState, events: Seq<Option<PipelineEvent<Frame>>>)
    requires
        ack_consumed(s, events),
        wait_for_ack(s, events).0.dropped_frames < u64::MAX,
    ensures
        held_frames(wait_for_ack(s, events).0) + wait_for_ack(s, events).0.dropped_frames == held_frames(s)
            + s.dropped_frames + frame_events(events),
    decreases events.len(),
{
    if events.len() > 0 {
        let n = events.len() - 1;
        let rest = events.drop_last();
        assert(events.take(n) =~= rest);
        assert forall|k: int| 0 <= k < rest.len() implies {
            let (st, wait) = #[trigger] wait_for_ack(s, rest.take(k));
            wait is InProgress && st.dropped_frames < u64::MAX
        } by {
            assert(rest.take(k) =~= events.take(k));
        }
        let _ = wait_for_ack(s, events.take(n));
        lemma_wait_for_ack_accounts(s, rest);
    }
}

proof fn lemma_wait_for_target_accounts(s: PlaybackState, to: u64, events: Seq<Option<PipelineEvent<Frame>>>)
    requires
        target_consumed(s, to, events),
        wait_for_target(s, to, events).0.dropped_frames < u64::MAX,
    ensures
        held_frames(wait_for_target(s, to, events).0) + wait_for_target(s, to, events).0.dropped_frames
            == held_frames(s) + s.dropped_frames + frame_events(events),
    decreases events.len(),
{
    if events.len() > 0 {
        let n = events.len() - 1;
        let rest = events.drop_last();
        assert(events.take(n) =~= rest);
        assert forall|k: int| 0 <= k < rest.len() implies {
            let (st, wait) = #[trigger] wait_for_target(s, to, rest.take(k));
            wait is InProgress && st.dropped_frames < u64::MAX
        } by {
            assert(rest.take(k) =~= events.take(k));
        }
        let _ = wait_for_target(s, to, events.take(n));
        lemma_wait_for_target_accounts(s, to, rest);
    }
}

/// Every frame a seek takes from the decoder, and the frame that was
/// waiting, is accounted for: it is held as the queued frame or counted as
/// dropped. Held frames and the drop count together grow by exactly the
/// frames read, as long as the count has not reached its limit.
pub proof fn lemma_seek_accounts_for_every_frame(
    s: PlaybackState,
    to: u64,
    sent: bool,
    before: Seq<Option<PipelineEvent<Frame>>>,
    after: Seq<Option<PipelineEvent<Frame>>>,
)
    requires
        seek_settled(s, to, sent, before, after),
        seek_consumed(s, to, sent, before, after),
        sought(s, to, sent, before, after).0.dropped_frames < u64::MAX,
    ensures
        held_frames(sought(s, to, sent, before, after).0) + sought(s, to, sent, before, after).0.dropped_frames
            == held_frames(s) + s.dropped_frames + seek_frames_read(sent, before, after),
{
    if sent {
        let started = seek_started(s, to);
        let dropped = waiting_frame_dropped(started);
        let (acked, wait) = wait_for_ack(dropped, before);
        let last = sought(s, to, sent, before, after).0;
        lemma_wait_for_ack_keeps(dropped, before);
        lemma_wait_for_target_keeps(acked, to, after);
        assert(acked.dropped_frames <= last.dropped_frames);
        assert(held_frames(dropped) + dropped.dropped_frames == held_frames(s) + s.dropped_frames);
        lemma_wait_for_ack_accounts(dropped, before);
        if wait is Acknowledged {
            lemma_wait_for_target_accounts(acked, to, after);
        } else {
            assert(after.len() == 0);
            assert(frame_events(after) == 0);
        }
    }
}

/// A seek always moves the clock to its target and forgets which frame was
/// shown last; once the request is sent no frame from the old position
/// waits; it never lowers the count of dropped frames; and a seek that
/// finds its frame queues one at or after the target.
pub proof fn lemma_seek_lands_on_target(
    s: PlaybackState,
    to: u64,
    sent: bool,
    before: Seq<Option<PipelineEvent<Frame>>>,
    after: Seq<Option<PipelineEvent<Frame>>>,
)
    ensures
        sought(s, to, sent, before, after).0.current_timestamp == to,
        sought(s, to, sent, before, after).0.frame_timestamp is None,
        sought(s, to, sent, before, after).0.dropped_frames >= s.dropped_frames,
        sent ==> sought(s, to, sent, before, after).0.next_frame is None,
        sought(s, to, sent, before, after).1 matches Ok(SeekOutcome::Found) ==> sought(
            s,
            to,
            sent,
            before,
            after,
        ).0.queued_frame matches Some(frame) && frame.pts >= to,
{
    if sent {
        let dropped = waiting_frame_dropped(seek_started(s, to));
        lemma_wait_for_ack_keeps(dropped, before);
        let acked = wait_for_ack(dropped, before).0;
        lemma_wait_for_target_keeps(acked, to, after);
    }
}

/// Whether the decoder reported the end of the stream among `events`.
pub open spec fn reports_end(events: Seq<Option<PipelineEvent<Frame>>>) -> bool {
    exists|i: int| 0 <= i < events.len() && #[trigger] events[i] matches Some(PipelineEvent::EOS)
}

proof fn lemma_wait_for_ack_play_state(s: PlaybackState, events: Seq<Option<PipelineEvent<Frame>>>)
    ensures
        wait_for_ack(s, events).0.play_state == s.play_state || wait_for_ack(s, events).0.play_state
            == PlayState::Completed,
        !reports_end(events) ==> wait_for_ack(s, events).0.play_state == s.play_state,
    decreases events.len(),
{
    if events.len() > 0 {
        let rest = events.drop_last();
        lemma_wait_for_ack_play_state(s, rest);
        if !reports_end(events) {
            assert forall|i: int| 0 <= i < rest.len() implies !(#[trigger] rest[i] matches Some(
                PipelineEvent::EOS,
            )) by {
                assert(rest[i] == events[i]);
            }
            assert(!(events[events.len() - 1] matches Some(PipelineEvent::EOS)));
        }
    }
}

proof fn lemma_wait_for_target_play_state(s: PlaybackState, to: u64, events: Seq<Option<PipelineEvent<Frame>>>)
    ensures
        wait_for_target(s, to, events).0.play_state == s.play_state || wait_for_target(s, to, events).0.play_state
            == PlayState::Completed,
        !reports_end(events) ==> wait_for_target(s, to, events).0.play_state == s.play_state,
    decreases events.len(),
{
    if events.len() > 0 {
        let rest = events.drop_last();
        lemma_wait_for_target_play_state(s, to, rest);
        if !reports_end(events) {
            assert forall|i: int| 0 <= i < rest.len() implies !(#[trigger] rest[i] matches Some(
                PipelineEvent::EOS,
            )) by {
                assert(rest[i] == events[i]);
            }
            assert(!(events[events.len() - 1] matches Some(PipelineEvent::EOS)));
        }
    }
}

/// A seek moves the clock, not the play state: paused playback stays paused,
/// stopped playback stays stopped and running playback keeps running. Only
/// playback that had completed resumes, once the request reached the
/// decoder, and only the decoder's report of the end of the stream completes
/// playback.
pub proof fn lemma_seek_keeps_play_state(
    s: PlaybackState,
    to: u64,
    sent: bool,
    before: Seq<Option<PipelineEvent<Frame>>>,
    after: Seq<Option<PipelineEvent<Frame>>>,
)
    ensures
        ({
            let p = sought(s, to, sent, before, after).0.play_state;
            ||| p == s.play_state
            ||| p == PlayState::Completed
            ||| (sent && s.play_state == PlayState::Completed && p == PlayState::Playing)
        }),
        (!reports_end(before) && !reports_end(after)) ==> sought(s, to, sent, before, after).0.play_state == if sent
            && s.play_state == PlayState::Completed {
            PlayState::Playing
        } else {
            s.play_state
        },
{
    if sent {
        let dropped = waiting_frame_dropped(seek_started(s, to));
        lemma_wait_for_ack_play_state(dropped, before);
        let acked = wait_for_ack(dropped, before).0;
        lemma_wait_for_target_play_state(acked, to, after);
    }
}

/// A seek that finds its frame queues the first frame the decoder sent
/// after acknowledging that lies at or after the target: every event read
/// before it was a frame from before the target.
pub proof fn lemma_seek_queues_the_first_frame_at_target(
    s: PlaybackState,
    to: u64,
    sent: bool,
    before: Seq<Option<PipelineEvent<Frame>>>,
    after: Seq<Option<PipelineEvent<Frame>>>,
)
    requires
        seek_consumed(s, to, sent, before, after),
        sought(s, to, sent, before, after).1 matches Ok(SeekOutcome::Found),
    ensures
        after.len() > 0,
        after.last() matches Some(PipelineEvent::Data(frame)) && frame.pts >= to && sought(
            s,
            to,
            sent,
            before,
            after,
        ).0.queued_frame == Some(frame),
        forall|i: int|
            0 <= i < after.len() - 1 ==> (#[trigger] after[i] matches Some(PipelineEvent::Data(frame))
                && frame.pts < to),
{
    let dropped = waiting_frame_dropped(seek_started(s, to));
    let (acked, wait) = wait_for_ack(dropped, before);
    lemma_wait_for_ack_keeps(dropped, before);
    assert(sent && wait is Acknowledged);
    let n = after.len() - 1;
    assert(after.len() > 0);
    assert(after.take(n) =~= after.drop_last());
    let _ = wait_for_target(acked, to, after.take(n));
    assert forall|i: int| 0 <= i < after.len() - 1 implies (#[trigger] after[i] matches Some(
        PipelineEvent::Data(frame),
    ) && frame.pts < to) by {
        assert(after.take(i + 1).drop_last() =~= after.take(i));
        assert(after.take(i + 1).last() == after[i]);
        let _ = wait_for_target(acked, to, after.take(i));
        let _ = wait_for_target(acked, to, after.take(i + 1));
    }
}

/// Whether the handle's record of the stream is consistent: a frame that is
/// waiting was taken from a stream that had not ended.
pub open spec fn waiting_frame_live(s: PlaybackState) -> bool {
    s.next_frame is Some ==> !s.eos
}

proof fn lemma_present_due_frames_keeps_live(s: PlaybackState, incoming: Seq<Taken>)
    requires
        waiting_frame_live(s),
    ensures
        waiting_frame_live(present_due_frames(s, incoming)),
    decreases incoming.len(),
{
    if incoming.len() > 0 {
        lemma_present_due_frames_keeps_live(s, incoming.drop_last());
    }
}

/// A handle starts consistent, and a tick keeps it so: a waiting frame
/// always means the stream had not ended when it was taken.
pub proof fn lemma_tick_keeps_waiting_frame_live(
    s: PlaybackState,
    now: u64,
    has_frames: bool,
    first: Taken,
    incoming: Seq<Taken>,
)
    requires
        waiting_frame_live(s),
    ensures
        waiting_frame_live(ticked(s, now, has_frames, first, incoming)),
        forall|total: u64, t: u64| #[trigger] waiting_frame_live(initial_state(total, t)),
{
    if s.play_state == PlayState::Playing && (s.next_frame is Some || has_frames) {
        lemma_present_due_frames_keeps_live(tick_start(s, now, first), incoming);
    }
}

/// A seek keeps the handle consistent: a waiting frame always means the
/// stream had not ended when it was taken.
pub proof fn lemma_seek_keeps_waiting_frame_live(
    s: PlaybackState,
    to: u64,
    sent: bool,
    before: Seq<Option<PipelineEvent<Frame>>>,
    after: Seq<Option<PipelineEvent<Frame>>>,
)
    requires
        waiting_frame_live(s),
    ensures
        waiting_frame_live(sought(s, to, sent, before, after).0),
{
    if sent {
        let dropped = waiting_frame_dropped(seek_started(s, to));
        lemma_wait_for_ack_keeps(dropped, before);
        let acked = wait_for_ack(dropped, before).0;
        lemma_wait_for_target_keeps(acked, to, after);
    }
}

/// Whether the state reports the queued frame it holds, where that frame is
/// not the one `s0` held: its presentation time and decode cost.
pub open spec fn reports_new_queued_frame(s0: PlaybackState, s: PlaybackState) -> bool {
    s.queued_frame != s0.queued_frame ==> match s.queued_frame {
        Some(frame) => s.frame_timestamp == Some(frame.pts) && s.last_decode_cost == Some(frame.decode_cost),
        None => true,
    }
}

proof fn lemma_present_due_frames_reports(s: PlaybackState, incoming: Seq<Taken>)
    ensures
        reports_new_queued_frame(s, present_due_frames(s, incoming)),
    decreases incoming.len(),
{
    if incoming.len() > 0 {
        lemma_present_due_frames_reports(s, incoming.drop_last());
    }
}

/// After a tick, a frame that the tick moved into the presentation slot is
/// the one whose presentation time and decode cost the handle reports.
pub proof fn lemma_tick_reports_the_queued_frame(
    s: PlaybackState,
    now: u64,
    has_frames: bool,
    first: Taken,
    incoming: Seq<Taken>,
)
    ensures
        reports_new_queued_frame(s, ticked(s, now, has_frames, first, incoming)),
{
    if s.play_state == PlayState::Playing && (s.next_frame is Some || has_frames) {
        let start = tick_start(s, now, first);
        lemma_present_due_frames_reports(start, incoming);
        assert(start.queued_frame == s.queued_frame);
    }
}

/// One call that changes a handle, with what the decoder's channels gave it.
pub enum HandleCall {
    Play,
    Pause,
    Stop,
    SetPlaySpeed(PlaySpeed),
    /// The renderer takes the queued frame.
    TakeCurrentFrame,
    /// A tick at wall-clock reading `now`; see `ticked`.
    Tick { now: u64, has_frames: bool, first: Taken, incoming: Ghost<Seq<Taken>> },
    /// A seek to `to`; see `sought`.
    Seek {
        to: u64,
        sent: bool,
        before: Ghost<Seq<Option<PipelineEvent<Frame>>>>,
        after: Ghost<Seq<Option<PipelineEvent<Frame>>>>,
    },
}

/// The handle's state after `call`, as the method making that call states
/// it.
pub open spec fn handle_after(s: PlaybackState, call: HandleCall) -> PlaybackState {
    match call {
        HandleCall::Play => PlaybackState { play_state: PlayState::Playing, ..s },
        HandleCall::Pause => PlaybackState { play_state: PlayState::Paused, ..s },
        HandleCall::Stop => PlaybackState { play_state: PlayState::Stopped, current_timestamp: 0, ..s },
        HandleCall::SetPlaySpeed(speed) => PlaybackState { play_speed: speed, ..s },
        HandleCall::TakeCurrentFrame => PlaybackState { queued_frame: None, ..s },
        HandleCall::Tick { now, has_frames, first, incoming } => ticked(s, now, has_frames, first, incoming@),
        HandleCall::Seek { to, sent, before, after } => sought(s, to, sent, before@, after@).0,
    }
}

/// The handle's state after `calls`, made in turn.
pub open spec fn handle_run(s: PlaybackState, calls: Seq<HandleCall>) -> PlaybackState
    decreases calls.len(),
{
    if calls.len() == 0 {
        s
    } else {
        handle_after(handle_run(s, calls.drop_last()), calls.last())
    }
}

/// Whether a call leaves the playback clock and the shown frame's time
/// alone: anything but a tick, a stop or a seek.
pub open spec fn keeps_clock(call: HandleCall) -> bool {
    !(call is Tick || call is Stop || call is Seek)
}

/// The count of dropped frames never goes down, whatever calls are made and
/// whatever the decoder sends.
pub proof fn lemma_dropped_frames_never_decrease(s: PlaybackState, calls: Seq<HandleCall>)
    ensures
        handle_run(s, calls).dropped_frames >= s.dropped_frames,
    decreases calls.len(),
{
    if calls.len() > 0 {
        lemma_dropped_frames_never_decrease(s, calls.drop_last());
        let prev = handle_run(s, calls.drop_last());
        match calls.last() {
            HandleCall::Tick { now, has_frames, first, incoming } => {
                lemma_tick_monotone(prev, now, has_frames, first, incoming@);
            },
            HandleCall::Seek { to, sent, before, after } => {
                lemma_seek_lands_on_target(prev, to, sent, before@, after@);
            },
            _ => {},
        }
    }
}

/// Calls other than ticks, stops and seeks leave the playback clock and the
/// time of the last shown frame as they were.
pub proof fn lemma_clock_holds_without_ticks(s: PlaybackState, calls: Seq<HandleCall>)
    requires
        forall|i: int| 0 <= i < calls.len() ==> keeps_clock(#[trigger] calls[i]),
    ensures
        handle_run(s, calls).current_timestamp == s.current_timestamp,
        handle_run(s, calls).frame_timestamp == s.frame_timestamp,
    decreases calls.len(),
{
    if calls.len() > 0 {
        let rest = calls.drop_last();
        assert forall|i: int| 0 <= i < rest.len() implies keeps_clock(#[trigger] rest[i]) by {
            assert(rest[i] == calls[i]);
        }
        lemma_clock_holds_without_ticks(s, rest);
        assert(keeps_clock(calls[calls.len() - 1]));
    }
}

/// After a seek to `to`, the clock reads `to` and no frame time is reported
/// until the next tick, stop or seek.
pub proof fn lemma_clock_reads_seek_target(
    s: PlaybackState,
    to: u64,
    sent: bool,
    before: Seq<Option<PipelineEvent<Frame>>>,
    after: Seq<Option<PipelineEvent<Frame>>>,
    calls: Seq<HandleCall>,
)
    requires
        forall|i: int| 0 <= i < calls.len() ==> keeps_clock(#[trigger] calls[i]),
    ensures
        handle_run(sought(s, to, sent, before, after).0, calls).current_timestamp == to,
        handle_run(sought(s, to, sent, before, after).0, calls).frame_timestamp is None,
{
    lemma_seek_lands_on_target(s, to, sent, before, after);
    lemma_clock_holds_without_ticks(sought(s, to, sent, before, after).0, calls);
}

/// The play speed in quarters of real time.
pub fn play_speed_quarters(speed: &PlaySpeed) -> (quarters: u64)
    ensures
        quarters == speed_quarters(*speed),
{
    match speed {
        PlaySpeed::Stopped => 0,
        PlaySpeed::Slower => 1,
        PlaySpeed::Slow => 2,
        PlaySpeed::Normal => 4,
        PlaySpeed::Fast => 6,
        PlaySpeed::Faster => 8,
        PlaySpeed::Fastest => 40,
    }
}

/// Wall-clock time `duration` as it passes on the playback clock at `speed`.
pub fn scale_duration(duration: u64, speed: &PlaySpeed) -> (scaled: u64)
    ensures
        scaled == scaled_elapsed(duration, *speed),
{
    let quarters = play_speed_quarters(speed);
    assert(duration * quarters <= u64::MAX * 40) by (nonlinear_arith)
        requires
            quarters <= 40,
    ;
    let product: u128 = (duration as u128) * (quarters as u128);
    let scaled = product / 4;
    if scaled > u64::MAX as u128 {
        u64::MAX
    } else {
        scaled as u64
    }
}

impl PlaybackState {
    /// Whether a running tick takes a frame from the decoder before it
    /// presents: it does when no frame is waiting and the decoder's channel
    /// (`channel_empty` is what it reported) holds something.
    pub fn takes_first_frame(&self, channel_empty: bool) -> (take: bool)
        ensures
            take == (self.next_frame is None && !channel_empty),
    {
        self.next_frame.is_none() && !channel_empty
    }

    /// Makes the frame in `taken`, what was taken from the decoder, the
    /// waiting frame; the stream counts as ended when no frame came, and
    /// playback is completed when the decoder reported the end.
    pub fn wait_for(&mut self, taken: Taken)
        ensures
            *final(self) == (PlaybackState {
                next_frame: taken_frame(taken),
                eos: !(taken is Frame),
                play_state: state_after_taking(old(self).play_state, taken),
                ..*old(self)
            }),
    {
        self.take_in(taken);
    }

    /// Records what was taken from the decoder: its frame becomes the
    /// waiting frame, and the end of the stream completes playback.
    fn take_in(&mut self, taken: Taken)
        ensures
            final(self).next_frame == taken_frame(taken),
            final(self).eos == !(taken is Frame),
            final(self).play_state == state_after_taking(old(self).play_state, taken),
            *final(self) == (PlaybackState {
                next_frame: final(self).next_frame,
                eos: final(self).eos,
                play_state: final(self).play_state,
                ..*old(self)
            }),
    {
        match taken {
            Taken::Frame(frame) => {
                self.eos = false;
                self.next_frame = Some(frame);
            },
            Taken::Nothing => {
                self.eos = true;
                self.next_frame = None;
            },
            Taken::Ended => {
                self.eos = true;
                self.next_frame = None;
                self.play_state = PlayState::Completed;
            },
        }
    }

    /// Whether the waiting frame is due on the playback clock.
    pub fn frame_due(&self) -> (due: bool)
        ensures
            due == frame_due(*self),
    {
        match &self.next_frame {
            Some(frame) => frame.pts <= self.current_timestamp,
            None => true,
        }
    }

    /// Advances the playback clock to the wall-clock reading `now`.
    pub fn advance_clock(&mut self, now: u64)
        ensures
            *final(self) == clock_advanced(*old(self), now),
    {
        let delta = if now >= self.last_update {
            now - self.last_update
        } else {
            0
        };
        self.last_update = now;
        let scaled = scale_duration(delta, &self.play_speed);
        self.current_timestamp = self.current_timestamp.saturating_add(scaled);
    }

    /// Moves the waiting frame into the presentation slot and makes the
    /// frame in `incoming` the waiting frame; the end of the stream completes
    /// playback.
    pub fn present(&mut self, incoming: Taken)
        ensures
            *final(self) == presented(*old(self), incoming),
    {
        if self.queued_frame.is_some() {
            self.dropped_frames = self.dropped_frames.saturating_add(1);
        }
        let queued = self.next_frame.take();
        match &queued {
            Some(frame) => {
                self.frame_timestamp = Some(frame.pts);
                self.last_decode_cost = Some(frame.decode_cost);
            },
            None => {},
        }
        self.queued_frame = queued;
        self.take_in(incoming);
    }

    /// Starts a seek to `to`.
    pub fn start_seek(&mut self, to: u64)
        ensures
            *final(self) == seek_started(*old(self), to),
    {
        self.current_timestamp = to;
        self.frame_timestamp = None;
    }

    /// Drops the waiting frame, which belongs to the old position, and
    /// resumes playback that had completed.
    pub fn drop_waiting_frame(&mut self)
        ensures
            *final(self) == waiting_frame_dropped(*old(self)),
    {
        if self.play_state == PlayState::Completed {
            self.play_state = PlayState::Playing;
        }
        if self.next_frame.is_some() {
            self.dropped_frames = self.dropped_frames.saturating_add(1);
            self.next_frame = None;
        }
    }

    /// Handles one event while waiting for the acknowledgement of a seek.
    pub fn skip_before_ack(&mut self, event: Option<PipelineEvent<Frame>>) -> (wait: AckWait)
        ensures
            (*final(self), wait) == ack_step(*old(self), event),
    {
        match event {
            None => AckWait::Ended(SeekOutcome::Disconnected),
            Some(PipelineEvent::Data(_)) => {
                self.dropped_frames = self.dropped_frames.saturating_add(1);
                AckWait::InProgress
            },
            Some(PipelineEvent::SeekAck) => AckWait::Acknowledged,
            Some(PipelineEvent::EOS) => {
                self.play_state = PlayState::Completed;
                AckWait::Ended(SeekOutcome::EndOfStream)
            },
        }
    }

    /// Handles one event while looking for the first frame at or after `to`.
    pub fn skip_before_target(&mut self, to: u64, event: Option<PipelineEvent<Frame>>) -> (wait: TargetWait)
        ensures
            (*final(self), wait) == target_step(*old(self), to, event),
    {
        match event {
            None => TargetWait::Ended(Ok(SeekOutcome::Disconnected)),
            Some(PipelineEvent::Data(frame)) => {
                if frame.pts >= to {
                    if self.queued_frame.is_some() {
                        self.dropped_frames = self.dropped_frames.saturating_add(1);
                    }
                    self.queued_frame = Some(frame);
                    TargetWait::Ended(Ok(SeekOutcome::Found))
                } else {
                    self.dropped_frames = self.dropped_frames.saturating_add(1);
                    TargetWait::InProgress
                }
            },
            Some(PipelineEvent::SeekAck) => TargetWait::Ended(Err(SeekError::DuplicateSeekAck)),
            Some(PipelineEvent::EOS) => {
                self.play_state = PlayState::Completed;
                TargetWait::Ended(Ok(SeekOutcome::EndOfStream))
            },
        }
    }
}

/// Takes one event from the decoder without waiting: its frame, the end of
/// the stream, or nothing for no event or an acknowledgement.
fn take_one_frame(receiver: &Receiver<PipelineEvent<Frame>>) -> Taken {
    match receiver_try_recv(receiver) {
        Ok(PipelineEvent::Data(frame)) => Taken::Frame(frame),
        Ok(PipelineEvent::EOS) => Taken::Ended,
        _ => Taken::Nothing,
    }
}

/// The capacity a frame channel was made with, as `Receiver::capacity`
/// reports it: fixed when the channel is made, none for an unbounded one.
pub uninterp spec fn frame_channel_capacity(receiver: Receiver<PipelineEvent<Frame>>) -> Option<usize>;

/// How many decoded frames the decoder may run ahead of playback: many more
/// when measuring how fast it decodes (`benchmark`).
pub fn frame_channel_size(benchmark: bool) -> (cap: usize)
    ensures
        cap == if benchmark {
            512usize
        } else {
            16usize
        },
{
    if benchmark {
        512
    } else {
        16
    }
}

/// The channel the decoder sends frames on, made with room for
/// `frame_channel_size(benchmark)` events.
pub fn frame_channel(benchmark: bool) -> (Sender<PipelineEvent<Frame>>, Receiver<PipelineEvent<Frame>>) {
    channel_bounded(frame_channel_size(benchmark))
}

/// Calls `Receiver::capacity`, which reports the capacity the channel was
/// made with; that does not change afterwards, so it is named by the
/// receiver.
#[verifier::external_body]
fn frame_receiver_capacity(receiver: &Receiver<PipelineEvent<Frame>>) -> (capacity: Option<usize>)
    ensures
        capacity == frame_channel_capacity(*receiver),
{
    receiver.capacity()
}

/// Calls `Receiver::len`: how many events wait in the channel, which other
/// threads fill. A bounded channel never holds more than its capacity.
#[verifier::external_body]
fn frame_receiver_len(receiver: &Receiver<PipelineEvent<Frame>>) -> (len: usize)
    ensures
        frame_channel_capacity(*receiver) matches Some(c) ==> len <= c,
{
    receiver.len()
}

/// The buffer fill and capacity reported for a channel, from what its
/// receiver reported: an unbounded channel reports a capacity of zero.
pub fn buffer_size_from(len: usize, capacity: Option<usize>) -> (size: (u64, u64))
    ensures
        size.0 == len,
        size.1 == match capacity {
            Some(c) => c,
            None => 0usize,
        },
{
    let cap = match capacity {
        Some(c) => c,
        None => 0,
    };
    (len as u64, cap as u64)
}

/// Plays a video that a decoder thread feeds frame by frame.
pub struct VideoHandle {
    state: PlaybackState,
    command_sender: LooseSender<SeekCommand>,
    yuv_frame_receiver: Receiver<PipelineEvent<Frame>>,
}

impl View for VideoHandle {
    type V = PlaybackState;

    closed spec fn view(&self) -> PlaybackState {
        self.state
    }
}

/// The state of a handle just made for a video of length `total_duration`
/// at wall-clock reading `now`: stopped at the start, at normal speed.
pub open spec fn initial_state(total_duration: u64, now: u64) -> PlaybackState {
    PlaybackState {
        play_state: PlayState::Stopped,
        play_speed: PlaySpeed::Normal,
        total_duration,
        dropped_frames: 0,
        next_frame: None,
        queued_frame: None,
        last_update: now,
        current_timestamp: 0,
        last_decode_cost: None,
        frame_timestamp: None,
        eos: false,
    }
}

impl VideoHandle {
    /// The commands the handle has sent to the decoder, oldest first.
    pub closed spec fn commands(&self) -> Seq<SeekCommand> {
        self.command_sender.sent()
    }

    /// Everything the handle did to its command channel, oldest first: each
    /// command offered, and whether the channel took it.
    pub closed spec fn command_ops(&self) -> Seq<ChannelOp<SeekCommand>> {
        self.command_sender.ops()
    }

    /// The capacity of the channel the decoder sends frames on.
    pub closed spec fn frame_capacity(&self) -> Option<usize> {
        frame_channel_capacity(self.yuv_frame_receiver)
    }

    /// A handle, stopped at the start and at normal speed, for a video of
    /// length `total_duration` decoded by the thread at the other ends of the
    /// two channels; `now` is the wall-clock reading.
    pub fn new(
        total_duration: u64,
        command_sender: LooseSender<SeekCommand>,
        yuv_frame_receiver: Receiver<PipelineEvent<Frame>>,
        now: u64,
    ) -> (handle: Self)
        ensures
            handle@ == initial_state(total_duration, now),
            handle.commands() == command_sender.sent(),
            handle.command_ops() == command_sender.ops(),
            handle.frame_capacity() == frame_channel_capacity(yuv_frame_receiver),
    {
        VideoHandle {
            state: PlaybackState {
                play_state: PlayState::Stopped,
                play_speed: PlaySpeed::Normal,
                total_duration,
                dropped_frames: 0,
                next_frame: None,
                queued_frame: None,
                last_update: now,
                current_timestamp: 0,
                last_decode_cost: None,
                frame_timestamp: None,
                eos: false,
            },
            command_sender,
            yuv_frame_receiver,
        }
    }

    /// Everything the handle knows about playback.
    pub fn state(&self) -> (state: &PlaybackState)
        ensures
            *state == self@,
    {
        &self.state
    }

    /// Resumes playback.
    pub fn play(&mut self)
        ensures
            final(self)@ == (PlaybackState { play_state: PlayState::Playing, ..old(self)@ }),
            final(self).commands() == old(self).commands(),
            final(self).command_ops() == old(self).command_ops(),
            final(self).frame_capacity() == old(self).frame_capacity(),
    {
        self.state.play_state = PlayState::Playing;
    }

    /// Pauses playback.
    pub fn pause(&mut self)
        ensures
            final(self)@ == (PlaybackState { play_state: PlayState::Paused, ..old(self)@ }),
            final(self).commands() == old(self).commands(),
            final(self).command_ops() == old(self).command_ops(),
            final(self).frame_capacity() == old(self).frame_capacity(),
    {
        self.state.play_state = PlayState::Paused;
    }

    /// Stops playback and puts the clock back at the start.
    pub fn stop(&mut self)
        ensures
            final(self)@ == (PlaybackState { play_state: PlayState::Stopped, current_timestamp: 0, ..old(self)@ }),
            final(self).commands() == old(self).commands(),
            final(self).command_ops() == old(self).command_ops(),
            final(self).frame_capacity() == old(self).frame_capacity(),
    {
        self.state.play_state = PlayState::Stopped;
        self.state.current_timestamp = 0;
    }

    /// Sets the play speed.
    pub fn set_play_speed(&mut self, speed: PlaySpeed)
        ensures
            final(self)@ == (PlaybackState { play_speed: speed, ..old(self)@ }),
            final(self).commands() == old(self).commands(),
            final(self).command_ops() == old(self).command_ops(),
            final(self).frame_capacity() == old(self).frame_capacity(),
    {
        self.state.play_speed = speed;
    }

    /// The playback clock.
    pub fn get_pts(&self) -> (pts: u64)
        ensures
            pts == self@.current_timestamp,
    {
        self.state.current_timestamp
    }

    /// The presentation time of the last queued frame.
    pub fn get_frame_pts(&self) -> (pts: Option<u64>)
        ensures
            pts == self@.frame_timestamp,
    {
        self.state.frame_timestamp
    }

    /// How many decoded frames were never shown.
    pub fn get_dropped_frames(&self) -> (dropped: u64)
        ensures
            dropped == self@.dropped_frames,
    {
        self.state.dropped_frames
    }

    /// The presentation time of the waiting frame.
    pub fn get_next_pts(&self) -> (pts: Option<u64>)
        ensures
            pts == match self@.next_frame {
                Some(frame) => Some(frame.pts),
                None => None,
            },
    {
        match &self.state.next_frame {
            Some(frame) => Some(frame.pts),
            None => None,
        }
    }

    /// What decoding the last queued frame cost.
    pub fn get_last_decode_cost(&self) -> (cost: Option<u64>)
        ensures
            cost == self@.last_decode_cost,
    {
        self.state.last_decode_cost
    }

    /// How many events wait in the decoder's channel, which other threads
    /// fill, and how many it can hold: its capacity, or 0 for an unbounded
    /// channel.
    pub fn get_buffer_size(&self) -> (size: (u64, u64))
        ensures
            size.1 == match self.frame_capacity() {
                Some(c) => c,
                None => 0usize,
            },
            self.frame_capacity() is Some ==> size.0 <= size.1,
    {
        let len = frame_receiver_len(&self.yuv_frame_receiver);
        let capacity = frame_receiver_capacity(&self.yuv_frame_receiver);
        buffer_size_from(len, capacity)
    }

    /// Hands the queued frame to the renderer, leaving the slot empty.
    pub fn get_current_frame(&mut self) -> (frame: Option<Frame>)
        ensures
            frame == old(self)@.queued_frame,
            final(self)@ == (PlaybackState { queued_frame: None, ..old(self)@ }),
            final(self).commands() == old(self).commands(),
            final(self).command_ops() == old(self).command_ops(),
            final(self).frame_capacity() == old(self).frame_capacity(),
    {
        self.state.queued_frame.take()
    }

    /// Advances playback to the wall-clock reading `now`. While not playing,
    /// only the reading is kept. Otherwise, when no frame is waiting and the
    /// decoder's channel is empty, nothing changes; else the clock advances
    /// and every due frame is presented, taking a new waiting frame from the
    /// channel each time, until the waiting frame lies in the future, the
    /// channel gave nothing, or the drop counter is full.
    pub fn tick(&mut self, now: u64)
        ensures
            exists|has_frames: bool, first: Taken, incoming: Seq<Taken>|
                #[trigger] ticked(old(self)@, now, has_frames, first, incoming) == final(self)@
                    && tick_settled(old(self)@, has_frames, incoming, final(self)@)
                    && tick_consumed(old(self)@, now, has_frames, first, incoming),
            final(self).commands() == old(self).commands(),
            final(self).command_ops() == old(self).command_ops(),
            final(self).frame_capacity() == old(self).frame_capacity(),
    {
        if self.state.play_state != PlayState::Playing {
            self.state.last_update = now;
            assert(ticked(old(self)@, now, false, Taken::Nothing, Seq::empty()) == self@);
            assert(tick_settled(old(self)@, false, Seq::empty(), self@));
            return;
        }
        let ghost mut has_frames = false;
        let ghost mut first: Taken = Taken::Nothing;
        if self.state.next_frame.is_none() {
            let channel_empty = receiver_is_empty(&self.yuv_frame_receiver);
            if self.state.takes_first_frame(channel_empty) {
                let taken = take_one_frame(&self.yuv_frame_receiver);
                proof {
                    has_frames = true;
                    first = taken;
                }
                self.state.wait_for(taken);
            } else {
                assert(ticked(old(self)@, now, false, Taken::Nothing, Seq::empty()) == self@);
                assert(tick_settled(old(self)@, false, Seq::empty(), self@));
                return;
            }
        }
        self.state.advance_clock(now);
        let ghost clocked = self.state;
        let ghost mut incoming: Seq<Taken> = Seq::empty();
        let mut stepped = false;
        loop
            invariant
                present_due_frames(clocked, incoming) == self.state,
                consumed_all(clocked, incoming),
                self.commands() == old(self).commands(),
                self.command_ops() == old(self).command_ops(),
                self.frame_capacity() == old(self).frame_capacity(),
                stepped == (incoming.len() > 0),
                stepped ==> self.state.eos == (self.state.next_frame is None),
            ensures
                present_due_frames(clocked, incoming) == self.state,
                consumed_all(clocked, incoming),
                presentation_halted(self.state, incoming.len()),
            decreases
                u64::MAX - self.state.dropped_frames,
                if !stepped {
                    3int
                } else if self.state.queued_frame is Some {
                    0int
                } else if self.state.next_frame is Some {
                    1int
                } else {
                    2int
                },
        {
            if !self.state.frame_due() || self.state.dropped_frames == u64::MAX || (stepped
                && self.state.eos) {
                break;
            }
            let taken = take_one_frame(&self.yuv_frame_receiver);
            proof {
                let longer = incoming.push(taken);
                assert(longer.drop_last() =~= incoming);
                assert forall|k: int| 0 <= k < longer.len() implies !presentation_halted(
                    #[trigger] present_due_frames(clocked, longer.take(k)),
                    k as nat,
                ) by {
                    if k < incoming.len() {
                        assert(longer.take(k) =~= incoming.take(k));
                    } else {
                        assert(longer.take(k) =~= incoming);
                    }
                }
                incoming = longer;
            }
            self.state.present(taken);
            stepped = true;
        }
        assert(ticked(old(self)@, now, has_frames, first, incoming) == self@);
        assert(tick_settled(old(self)@, has_frames, incoming, self@));
        assert(tick_consumed(old(self)@, now, has_frames, first, incoming));
    }

    /// Jumps playback to `to`: the clock moves to the target, the decoder is
    /// asked to seek there (a waiting request is dropped), the waiting frame
    /// is dropped and completed playback resumes, frames the decoder sent
    /// before acknowledging are dropped,
    /// and after the acknowledgement frames before the target are dropped
    /// until the first frame at or after it is queued. The end of the
    /// stream (which completes playback), a closed channel or a full drop
    /// counter end the seek early; a request that cannot be sent and a second
    /// acknowledgement are errors.
    pub fn seek(&mut self, to: u64) -> (res: Result<SeekOutcome, SeekError>)
        ensures
            exists|
                sent: bool,
                before: Seq<Option<PipelineEvent<Frame>>>,
                after: Seq<Option<PipelineEvent<Frame>>>,
            |
                #[trigger] sought(old(self)@, to, sent, before, after) == (final(self)@, res)
                    && seek_settled(old(self)@, to, sent, before, after)
                    && seek_consumed(old(self)@, to, sent, before, after)
                    && final(self).commands() == old(self).commands() + sent_by(sent, SeekCommand::Seek(to))
                    && exists|retried: bool|
                        final(self).command_ops() == old(self).command_ops() + #[trigger] loose_ops(
                            SeekCommand::Seek(to),
                            retried,
                            sent,
                        ),
            final(self).frame_capacity() == old(self).frame_capacity(),
    {
        self.state.start_seek(to);
        let sent = self.command_sender.loosely_send(SeekCommand::Seek(to)).is_ok();
        let ghost ops_after = self.command_ops();
        assert(exists|retried: bool| ops_after == old(self).command_ops() + #[trigger] loose_ops(SeekCommand::Seek(to), retried, sent));
        if !sent {
            let res = Err(SeekError::CommandNotSent);
            assert(self.commands() =~= old(self).commands() + sent_by(false, SeekCommand::Seek(to)));
            assert(sought(old(self)@, to, false, Seq::empty(), Seq::empty()) == (self@, res));
            assert(seek_settled(old(self)@, to, false, Seq::empty(), Seq::empty()));
            assert(seek_consumed(old(self)@, to, false, Seq::empty(), Seq::empty()));
            return res;
        }
        self.state.drop_waiting_frame();
        let ghost dropped = self.state;
        let ghost mut before: Seq<Option<PipelineEvent<Frame>>> = Seq::empty();
        let mut wait = AckWait::InProgress;
        loop
            invariant_except_break
                wait is InProgress,
            invariant
                wait_for_ack(dropped, before) == (self.state, wait),
                ack_consumed(dropped, before),
                self.commands() == old(self).commands() + sent_by(true, SeekCommand::Seek(to)),
                self.command_ops() == ops_after,
                sent,
                exists|retried: bool| ops_after == old(self).command_ops() + #[trigger] loose_ops(SeekCommand::Seek(to), retried, sent),
                self.frame_capacity() == old(self).frame_capacity(),
            ensures
                wait_for_ack(dropped, before) == (self.state, wait),
                ack_consumed(dropped, before),
                wait is InProgress ==> self.state.dropped_frames == u64::MAX,
            decreases u64::MAX - self.state.dropped_frames,
        {
            if self.state.dropped_frames == u64::MAX {
                break;
            }
            let event = receiver_recv(&self.yuv_frame_receiver);
            proof {
                let longer = before.push(event);
                assert(longer.drop_last() =~= before);
                assert forall|k: int| 0 <= k < longer.len() implies {
                    let (st, w) = #[trigger] wait_for_ack(dropped, longer.take(k));
                    w is InProgress && st.dropped_frames < u64::MAX
                } by {
                    if k < before.len() {
                        assert(longer.take(k) =~= before.take(k));
                    } else {
                        assert(longer.take(k) =~= before);
                    }
                }
                before = longer;
            }
            wait = self.state.skip_before_ack(event);
            if !matches!(wait, AckWait::InProgress) {
                break;
            }
        }
        match wait {
            AckWait::InProgress => {
                let res = Ok(SeekOutcome::CounterFull);
                assert(sought(old(self)@, to, true, before, Seq::empty()) == (self@, res));
                assert(seek_settled(old(self)@, to, true, before, Seq::empty()));
                assert(seek_consumed(old(self)@, to, true, before, Seq::empty()));
                return res;
            },
            AckWait::Ended(outcome) => {
                let res = Ok(outcome);
                assert(sought(old(self)@, to, true, before, Seq::empty()) == (self@, res));
                assert(seek_settled(old(self)@, to, true, before, Seq::empty()));
                assert(seek_consumed(old(self)@, to, true, before, Seq::empty()));
                return res;
            },
            AckWait::Acknowledged => {},
        }
        let ghost acked = self.state;
        let ghost mut after: Seq<Option<PipelineEvent<Frame>>> = Seq::empty();
        let mut target = TargetWait::InProgress;
        loop
            invariant_except_break
                target is InProgress,
            invariant
                wait_for_target(acked, to, after) == (self.state, target),
                target_consumed(acked, to, after),
                self.commands() == old(self).commands() + sent_by(true, SeekCommand::Seek(to)),
                self.command_ops() == ops_after,
                sent,
                exists|retried: bool| ops_after == old(self).command_ops() + #[trigger] loose_ops(SeekCommand::Seek(to), retried, sent),
                self.frame_capacity() == old(self).frame_capacity(),
            ensures
                wait_for_target(acked, to, after) == (self.state, target),
                target_consumed(acked, to, after),
                target is InProgress ==> self.state.dropped_frames == u64::MAX,
            decreases u64::MAX - self.state.dropped_frames,
        {
            if self.state.dropped_frames == u64::MAX {
                break;
            }
            let event = receiver_recv(&self.yuv_frame_receiver);
            proof {
                let longer = after.push(event);
                assert(longer.drop_last() =~= after);
                assert forall|k: int| 0 <= k < longer.len() implies {
                    let (st, w) = #[trigger] wait_for_target(acked, to, longer.take(k));
                    w is InProgress && st.dropped_frames < u64::MAX
                } by {
                    if k < after.len() {
                        assert(longer.take(k) =~= after.take(k));
                    } else {
                        assert(longer.take(k) =~= after);
                    }
                }
                after = longer;
            }
            target = self.state.skip_before_target(to, event);
            if !matches!(target, TargetWait::InProgress) {
                break;
            }
        }
        let res = match target {
            TargetWait::InProgress => Ok(SeekOutcome::CounterFull),
            TargetWait::Ended(res) => res,
        };
        assert(sought(old(self)@, to, true, before, after) == (self@, res));
        assert(seek_settled(old(self)@, to, true, before, after));
        assert(seek_consumed(old(self)@, to, true, before, after));
        res
    }
}

impl Shared<VideoHandle> {
    /// Resumes playback.
    pub fn play(&self) -> Result<(), AlreadyBorrowed> {
        self.with(|this: &mut VideoHandle| this.play())
    }

    /// Pauses playback.
    pub fn pause(&self) -> Result<(), AlreadyBorrowed> {
        self.with(|this: &mut VideoHandle| this.pause())
    }

    /// Stops playback and puts the clock back at the start.
    pub fn stop(&self) -> Result<(), AlreadyBorrowed> {
        self.with(|this: &mut VideoHandle| this.stop())
    }

    /// The playback clock.
    pub fn get_pts(&self) -> Result<u64, AlreadyBorrowed> {
        self.with(|this: &mut VideoHandle| this.get_pts())
    }

    /// The presentation time of the last queued frame.
    pub fn get_frame_pts(&self) -> Result<Option<u64>, AlreadyBorrowed> {
        self.with(|this: &mut VideoHandle| this.get_frame_pts())
    }

    /// How many decoded frames were never shown.
    pub fn get_dropped_frames(&self) -> Result<u64, AlreadyBorrowed> {
        self.with(|this: &mut VideoHandle| this.get_dropped_frames())
    }

    /// The presentation time of the waiting frame.
    pub fn get_next_pts(&self) -> Result<Option<u64>, AlreadyBorrowed> {
        self.with(|this: &mut VideoHandle| this.get_next_pts())
    }

    /// What decoding the last queued frame cost.
    pub fn get_last_decode_cost(&self) -> Result<Option<u64>, AlreadyBorrowed> {
        self.with(|this: &mut VideoHandle| this.get_last_decode_cost())
    }

    /// How many events wait in the decoder's channel, and how many it can hold.
    pub fn get_buffer_size(&self) -> Result<(u64, u64), AlreadyBorrowed> {
        self.with(|this: &mut VideoHandle| this.get_buffer_size())
    }

    /// Jumps playback to `to` nanoseconds.
    pub fn seek(&self, to: u64) -> Result<Result<SeekOutcome, SeekError>, AlreadyBorrowed> {
        self.with(|this: &mut VideoHandle| this.seek(to))
    }

    /// Advances playback to the wall-clock reading `now`.
    pub fn tick(&self, now: u64) -> Result<(), AlreadyBorrowed> {
        self.with(|this: &mut VideoHandle| this.tick(now))
    }

    /// Hands the queued frame to the renderer.
    pub fn get_current_frame(&self) -> Result<Option<Frame>, AlreadyBorrowed> {
        self.with(|this: &mut VideoHandle| this.get_current_frame())
    }
}

} // verus!
