//! The decisions of the decoder thread: when to read, decode and send, how a
//! seek request is answered, and when the thread ends.
//!
//! The thread runs the loop by hand: it performs the action the last step
//! chose, reports what came of it as the next event, and steps again. The
//! first action is to check whether the thread was asked to stop.
use crate::video::video_handle::SeekCommand;
use vstd::prelude::*;

verus! {

/// Where the decoder thread stands in its loop.
#[derive(Clone, Copy, Debug, PartialEq, Eq, Structural)]
pub enum DecoderPhase {
    /// At the top of the loop, checking whether to stop.
    Top,
    /// Reading the next packet of the input.
    Reading,
    /// Taking decoded frames out of the decoder.
    Receiving,
    /// A frame came out of the decoder (`converted`: it could be turned into
    /// a picture); checking whether to stop.
    FrameStop { converted: bool },
    /// Sending a frame to the renderer.
    SendingFrame,
    /// Looking for a request from the renderer.
    Commanding,
    /// Acknowledging a seek to `target` nanoseconds.
    Acking { target: u64 },
    /// Seeking the input.
    Seeking,
    /// Done with a packet; checking whether to stop.
    AfterStop,
    /// Sending the end of the stream.
    Ending,
    /// The thread has ended.
    Done,
}

/// The decoder thread's loop.
#[derive(Clone, Copy, Debug, PartialEq, Eq, Structural)]
pub struct DecoderLoop {
    pub phase: DecoderPhase,
}

/// What asking the decoder for a frame gave.
#[derive(Clone, Copy, Debug, PartialEq, Eq, Structural)]
pub enum FrameResult {
    /// No frame is ready.
    NoFrame,
    /// A frame came out, but not in a format that can be shown.
    NotConverted,
    /// A frame came out and was turned into a picture.
    Converted,
}

/// What came of the last action.
pub enum DecoderEvent {
    /// Whether the thread was asked to stop.
    Stop(bool),
    /// A packet was read; `video` when it belongs to the video stream.
    Packet { video: bool },
    /// The input has no more packets.
    InputEnded,
    /// What the decoder gave.
    Frame(FrameResult),
    /// Whether a send went through.
    Sent(bool),
    /// The request that was waiting, if any.
    Command(Option<SeekCommand>),
    /// The input was flushed and sought.
    Sought,
}

/// What the decoder thread does next.
#[derive(Clone, Copy, Debug, PartialEq, Eq, Structural)]
pub enum DecoderAction {
    /// Check whether the thread was asked to stop.
    CheckStop,
    /// Read the next packet of the input.
    ReadPacket,
    /// Hand the packet to the decoder and ask for a frame.
    DecodePacket,
    /// Ask the decoder for the next frame.
    ReceiveFrame,
    /// Send the frame to the renderer.
    SendFrame,
    /// Take a waiting request from the renderer, without waiting.
    TakeCommand,
    /// Acknowledge a seek request to the renderer.
    SendSeekAck,
    /// Flush the decoder and seek the input to this position, in nanoseconds.
    Seek(u64),
    /// Drain the decoder and send the end of the stream.
    SendEos,
    /// End the thread.
    Exit,
}

/// The loop's next state and action after `event`. An event that does not
/// answer the last action ends the loop.
pub open spec fn decoder_next(s: DecoderLoop, event: DecoderEvent) -> (DecoderLoop, DecoderAction) {
    let go = |phase: DecoderPhase, action: DecoderAction| (DecoderLoop { phase }, action);
    match (s.phase, event) {
        (DecoderPhase::Top, DecoderEvent::Stop(true)) => go(DecoderPhase::Done, DecoderAction::Exit),
        (DecoderPhase::Top, DecoderEvent::Stop(false)) => go(DecoderPhase::Reading, DecoderAction::ReadPacket),
        (DecoderPhase::Reading, DecoderEvent::InputEnded) => go(DecoderPhase::Ending, DecoderAction::SendEos),
        (DecoderPhase::Reading, DecoderEvent::Packet { video }) => if video {
            go(DecoderPhase::Receiving, DecoderAction::DecodePacket)
        } else {
            go(DecoderPhase::Top, DecoderAction::CheckStop)
        },
        (DecoderPhase::Receiving, DecoderEvent::Frame(result)) => match result {
            FrameResult::NoFrame => go(DecoderPhase::AfterStop, DecoderAction::CheckStop),
            FrameResult::NotConverted => go(DecoderPhase::FrameStop { converted: false }, DecoderAction::CheckStop),
            FrameResult::Converted => go(DecoderPhase::FrameStop { converted: true }, DecoderAction::CheckStop),
        },
        (DecoderPhase::FrameStop { converted }, DecoderEvent::Stop(stop)) => if stop {
            go(DecoderPhase::AfterStop, DecoderAction::CheckStop)
        } else if converted {
            go(DecoderPhase::SendingFrame, DecoderAction::SendFrame)
        } else {
            go(DecoderPhase::Receiving, DecoderAction::ReceiveFrame)
        },
        (DecoderPhase::SendingFrame, DecoderEvent::Sent(ok)) => if ok {
            go(DecoderPhase::Commanding, DecoderAction::TakeCommand)
        } else {
            go(DecoderPhase::Done, DecoderAction::Exit)
        },
        (DecoderPhase::Commanding, DecoderEvent::Command(command)) => match command {
            Some(SeekCommand::Seek(target)) => go(DecoderPhase::Acking { target }, DecoderAction::SendSeekAck),
            _ => go(DecoderPhase::Receiving, DecoderAction::ReceiveFrame),
        },
        (DecoderPhase::Acking { target }, DecoderEvent::Sent(ok)) => if ok {
            go(DecoderPhase::Seeking, DecoderAction::Seek(target))
        } else {
            go(DecoderPhase::Done, DecoderAction::Exit)
        },
        (DecoderPhase::Seeking, DecoderEvent::Sought) => go(DecoderPhase::AfterStop, DecoderAction::CheckStop),
        (DecoderPhase::AfterStop, DecoderEvent::Stop(stop)) => if stop {
            go(DecoderPhase::Ending, DecoderAction::SendEos)
        } else {
            go(DecoderPhase::Top, DecoderAction::CheckStop)
        },
        _ => go(DecoderPhase::Done, DecoderAction::Exit),
    }
}

impl DecoderLoop {
    /// A loop at its top; its first action is to check whether to stop.
    pub fn new() -> (l: DecoderLoop)
        ensures
            l.phase == DecoderPhase::Top,
    {
        DecoderLoop { phase: DecoderPhase::Top }
    }
}

/// Takes one step of the decoder thread's loop.
pub fn decoder_step(state: &mut DecoderLoop, event: DecoderEvent) -> (action: DecoderAction)
    ensures
        (*final(state), action) == decoder_next(*old(state), event),
{
    let (phase, action) = match (state.phase, event) {
        (DecoderPhase::Top, DecoderEvent::Stop(true)) => (DecoderPhase::Done, DecoderAction::Exit),
        (DecoderPhase::Top, DecoderEvent::Stop(false)) => (DecoderPhase::Reading, DecoderAction::ReadPacket),
        (DecoderPhase::Reading, DecoderEvent::InputEnded) => (DecoderPhase::Ending, DecoderAction::SendEos),
        (DecoderPhase::Reading, DecoderEvent::Packet { video }) => if video {
            (DecoderPhase::Receiving, DecoderAction::DecodePacket)
        } else {
            (DecoderPhase::Top, DecoderAction::CheckStop)
        },
        (DecoderPhase::Receiving, DecoderEvent::Frame(result)) => match result {
            FrameResult::NoFrame => (DecoderPhase::AfterStop, DecoderAction::CheckStop),
            FrameResult::NotConverted => (DecoderPhase::FrameStop { converted: false }, DecoderAction::CheckStop),
            FrameResult::Converted => (DecoderPhase::FrameStop { converted: true }, DecoderAction::CheckStop),
        },
        (DecoderPhase::FrameStop { converted }, DecoderEvent::Stop(stop)) => if stop {
            (DecoderPhase::AfterStop, DecoderAction::CheckStop)
        } else if converted {
            (DecoderPhase::SendingFrame, DecoderAction::SendFrame)
        } else {
            (DecoderPhase::Receiving, DecoderAction::ReceiveFrame)
        },
        (DecoderPhase::SendingFrame, DecoderEvent::Sent(ok)) => if ok {
            (DecoderPhase::Commanding, DecoderAction::TakeCommand)
        } else {
            (DecoderPhase::Done, DecoderAction::Exit)
        },
        (DecoderPhase::Commanding, DecoderEvent::Command(command)) => match command {
            Some(SeekCommand::Seek(target)) => (DecoderPhase::Acking { target }, DecoderAction::SendSeekAck),
            _ => (DecoderPhase::Receiving, DecoderAction::ReceiveFrame),
        },
        (DecoderPhase::Acking { target }, DecoderEvent::Sent(ok)) => if ok {
            (DecoderPhase::Seeking, DecoderAction::Seek(target))
        } else {
            (DecoderPhase::Done, DecoderAction::Exit)
        },
        (DecoderPhase::Seeking, DecoderEvent::Sought) => (DecoderPhase::AfterStop, DecoderAction::CheckStop),
        (DecoderPhase::AfterStop, DecoderEvent::Stop(stop)) => if stop {
            (DecoderPhase::Ending, DecoderAction::SendEos)
        } else {
            (DecoderPhase::Top, DecoderAction::CheckStop)
        },
        _ => (DecoderPhase::Done, DecoderAction::Exit),
    };
    state.phase = phase;
    action
}

/// The state and the actions after the loop took `events` in turn.
pub open spec fn decoder_run(s: DecoderLoop, events: Seq<DecoderEvent>) -> (DecoderLoop, Seq<DecoderAction>)
    decreases events.len(),
{
    if events.len() == 0 {
        (s, seq![])
    } else {
        let (prev, actions) = decoder_run(s, events.drop_last());
        let (next, action) = decoder_next(prev, events.last());
        (next, actions.push(action))
    }
}

/// Whether an action ends the thread's work: the end of the stream or the
/// end of the thread.
pub open spec fn decoder_final(action: DecoderAction) -> bool {
    action is SendEos || action is Exit
}

/// A seek request is acknowledged at once, and only a seek request is: taking
/// `Seek(target)` leads straight to the acknowledgement, and a delivered
/// acknowledgement straight to seeking to `target`, before any frame is
/// decoded or sent again.
pub proof fn lemma_decoder_acknowledges_each_seek(s: DecoderLoop, event: DecoderEvent)
    ensures
        decoder_next(s, event).1 is SendSeekAck <==> (s.phase is Commanding && event matches DecoderEvent::Command(
            Some(SeekCommand::Seek(_)),
        )),
        s.phase is Commanding ==> (event matches DecoderEvent::Command(Some(SeekCommand::Seek(target)))
            ==> decoder_next(s, event) == (DecoderLoop { phase: DecoderPhase::Acking { target } }, DecoderAction::SendSeekAck)),
        s.phase matches DecoderPhase::Acking { target } ==> (event matches DecoderEvent::Sent(true)
            ==> decoder_next(s, event).1 == DecoderAction::Seek(target)),
        decoder_next(s, event).1 is Seek ==> s.phase is Acking,
{
}

/// Whether `event` is what the action chosen on entering `phase` reports:
/// a stop check answers with `Stop`, a read with a packet or the end of the
/// input, a decode with a frame result, a send with `Sent`, taking a request
/// with `Command`, a seek with `Sought`. Nothing answers the end of the
/// stream or the end of the thread.
pub open spec fn answers(phase: DecoderPhase, event: DecoderEvent) -> bool {
    match phase {
        DecoderPhase::Top | DecoderPhase::FrameStop { .. } | DecoderPhase::AfterStop => event is Stop,
        DecoderPhase::Reading => event is Packet || event is InputEnded,
        DecoderPhase::Receiving => event is Frame,
        DecoderPhase::SendingFrame | DecoderPhase::Acking { .. } => event is Sent,
        DecoderPhase::Commanding => event is Command,
        DecoderPhase::Seeking => event is Sought,
        DecoderPhase::Ending | DecoderPhase::Done => false,
    }
}

/// The thread ends only when asked to stop at the top of the loop, when a
/// send to the renderer fails, or on an event that does not answer its last
/// action. In particular, after a frame was sent, a check for requests that
/// finds anything but a seek request goes back to taking frames from the
/// decoder.
pub proof fn lemma_decoder_exits_only_on_stop_or_failure(s: DecoderLoop, event: DecoderEvent)
    ensures
        decoder_next(s, event).1 is Exit <==> {
            ||| !answers(s.phase, event)
            ||| (s.phase is Top && event matches DecoderEvent::Stop(true))
            ||| ((s.phase is SendingFrame || s.phase is Acking) && event matches DecoderEvent::Sent(false))
        },
        decoder_next(s, event).1 is Exit <==> decoder_next(s, event).0.phase is Done,
        (s.phase is Commanding && event is Command && !(event matches DecoderEvent::Command(
            Some(SeekCommand::Seek(_)),
        ))) ==> decoder_next(s, event) == (DecoderLoop { phase: DecoderPhase::Receiving }, DecoderAction::ReceiveFrame),
{
}

proof fn lemma_decoder_run_ends(s: DecoderLoop, events: Seq<DecoderEvent>)
    ensures
        ({
            let (last, actions) = decoder_run(s, events);
            &&& actions.len() == events.len()
            &&& forall|i: int, j: int|
                0 <= i < j < actions.len() && decoder_final(#[trigger] actions[i]) ==> #[trigger] actions[j]
                    is Exit
            &&& actions.len() > 0 && actions.last() is SendEos ==> last.phase is Ending
            &&& (exists|i: int| 0 <= i < actions.len() && #[trigger] actions[i] is Exit) ==> last.phase is Done
        }),
    decreases events.len(),
{
    if events.len() > 0 {
        let rest = events.drop_last();
        lemma_decoder_run_ends(s, rest);
        let (prev, before) = decoder_run(s, rest);
        let (next, action) = decoder_next(prev, events.last());
        let actions = before.push(action);
        assert(decoder_run(s, events) == (next, actions));
        if exists|i: int| 0 <= i < before.len() && decoder_final(#[trigger] before[i]) {
            let i = choose|i: int| 0 <= i < before.len() && decoder_final(#[trigger] before[i]);
            let k = before.len() - 1;
            if i < k {
                assert(before[k] is Exit);
            }
            assert(decoder_final(before[k]));
            if before[k] is Exit {
                assert(prev.phase is Done);
            } else {
                assert(prev.phase is Ending);
            }
            assert(action is Exit);
        }
        assert forall|i: int, j: int|
            0 <= i < j < actions.len() && decoder_final(#[trigger] actions[i]) implies #[trigger] actions[j]
            is Exit by {
            if j < before.len() {
                assert(actions[i] == before[i] && actions[j] == before[j]);
            } else {
                assert(actions[i] == before[i]);
            }
        }
        if exists|i: int| 0 <= i < actions.len() && #[trigger] actions[i] is Exit {
            let i = choose|i: int| 0 <= i < actions.len() && #[trigger] actions[i] is Exit;
            if i < before.len() {
                assert(before[i] is Exit);
                assert(prev.phase is Done);
            }
        }
    }
}

/// The end of the stream comes last: once the loop chose to send it, or to
/// end the thread, every later action ends the thread.
pub proof fn lemma_decoder_eos_last(s: DecoderLoop, events: Seq<DecoderEvent>)
    ensures
        forall|i: int, j: int|
            0 <= i < j < events.len() && decoder_final(#[trigger] decoder_run(s, events).1[i])
                ==> #[trigger] decoder_run(s, events).1[j] is Exit,
{
    lemma_decoder_run_ends(s, events);
}

} // verus!
