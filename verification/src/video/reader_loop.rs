//! The decisions of the MP4 reader thread: which sample to read next, when
//! to send a chunk, and when the thread ends.
//!
//! The thread runs the loop by hand: it performs the action the last step
//! chose, reports what came of it as the next event, and steps again. The
//! first action is to check whether the thread was asked to stop.
use crate::video::reader::{cursor_stepped, CursorState, VideoCursor};
use vstd::prelude::*;

verus! {

/// Where the reader thread stands in its loop.
#[derive(Clone, Copy, Debug, PartialEq, Eq, Structural)]
pub enum ReaderPhase {
    /// At the top of the loop, checking whether to stop.
    Top,
    /// Reading a sample.
    Reading,
    /// Sending a chunk to the decoder.
    Sending,
    /// Sending the end of the stream.
    Ending,
    /// The thread has ended.
    Done,
}

/// What reading a sample gave.
#[derive(Clone, Copy, Debug, PartialEq, Eq, Structural)]
pub enum SampleRead {
    /// The sample was read and unpacked into a chunk.
    Read,
    /// The track has no such sample.
    Missing,
    /// Reading failed.
    Failed,
}

/// What came of the last action.
#[derive(Clone, Copy, Debug, PartialEq, Eq, Structural)]
pub enum ReaderEvent {
    /// Whether the thread was asked to stop.
    Stop(bool),
    /// What reading the sample gave.
    Sample(SampleRead),
    /// Whether a send went through.
    Sent(bool),
}

/// What the reader thread does next.
#[derive(Clone, Copy, Debug, PartialEq, Eq, Structural)]
pub enum ReaderAction {
    /// Check whether the thread was asked to stop.
    CheckStop,
    /// Read the sample with this number and unpack it.
    ReadSample(u32),
    /// Send the chunk to the decoder.
    SendChunk,
    /// Send the end of the stream.
    SendEos,
    /// End the thread.
    Exit,
}

/// The reader thread's loop: where it stands, and its cursor over the
/// track's samples.
pub struct ReaderLoop {
    phase: ReaderPhase,
    cursor: VideoCursor,
}

impl View for ReaderLoop {
    type V = (ReaderPhase, CursorState);

    closed spec fn view(&self) -> (ReaderPhase, CursorState) {
        (self.phase, self.cursor@)
    }
}

/// The loop's next state and action after `event`. At the top, when not
/// asked to stop, the cursor steps on and its sample is read, or the end of
/// the stream is sent once the track has no more samples. An event that does
/// not answer the last action ends the loop.
pub open spec fn reader_next(s: (ReaderPhase, CursorState), event: ReaderEvent) -> (
    (ReaderPhase, CursorState),
    ReaderAction,
) {
    let (phase, cursor) = s;
    match (phase, event) {
        (ReaderPhase::Top, ReaderEvent::Stop(stop)) => if stop {
            ((ReaderPhase::Ending, cursor), ReaderAction::SendEos)
        } else {
            let (stepped, sample) = cursor_stepped(cursor);
            match sample {
                Some(id) => ((ReaderPhase::Reading, stepped), ReaderAction::ReadSample(id)),
                None => ((ReaderPhase::Ending, stepped), ReaderAction::SendEos),
            }
        },
        (ReaderPhase::Reading, ReaderEvent::Sample(read)) => match read {
            SampleRead::Read => ((ReaderPhase::Sending, cursor), ReaderAction::SendChunk),
            _ => ((ReaderPhase::Top, cursor), ReaderAction::CheckStop),
        },
        (ReaderPhase::Sending, ReaderEvent::Sent(ok)) => if ok {
            ((ReaderPhase::Top, cursor), ReaderAction::CheckStop)
        } else {
            ((ReaderPhase::Done, cursor), ReaderAction::Exit)
        },
        _ => ((ReaderPhase::Done, cursor), ReaderAction::Exit),
    }
}

impl ReaderLoop {
    /// A loop at its top over `cursor`; its first action is to check whether
    /// to stop.
    pub fn new(cursor: VideoCursor) -> (l: ReaderLoop)
        ensures
            l@ == (ReaderPhase::Top, cursor@),
    {
        ReaderLoop { phase: ReaderPhase::Top, cursor }
    }

    /// Where the loop stands.
    pub fn phase(&self) -> (phase: ReaderPhase)
        ensures
            phase == self@.0,
    {
        self.phase
    }

    /// The sample the cursor stands on.
    pub fn current_sample(&self) -> (sample: u32)
        ensures
            sample == self@.1.current_sample,
    {
        self.cursor.current_sample()
    }
}

/// Takes one step of the reader thread's loop.
pub fn reader_step(state: &mut ReaderLoop, event: ReaderEvent) -> (action: ReaderAction)
    requires
        old(state)@.0 is Top ==> old(state)@.1.current_sample < u32::MAX,
    ensures
        (final(state)@, action) == reader_next(old(state)@, event),
{
    match (state.phase, event) {
        (ReaderPhase::Top, ReaderEvent::Stop(stop)) => if stop {
            state.phase = ReaderPhase::Ending;
            ReaderAction::SendEos
        } else {
            match state.cursor.next_sample() {
                Some(id) => {
                    state.phase = ReaderPhase::Reading;
                    ReaderAction::ReadSample(id)
                },
                None => {
                    state.phase = ReaderPhase::Ending;
                    ReaderAction::SendEos
                },
            }
        },
        (ReaderPhase::Reading, ReaderEvent::Sample(read)) => match read {
            SampleRead::Read => {
                state.phase = ReaderPhase::Sending;
                ReaderAction::SendChunk
            },
            _ => {
                state.phase = ReaderPhase::Top;
                ReaderAction::CheckStop
            },
        },
        (ReaderPhase::Sending, ReaderEvent::Sent(ok)) => if ok {
            state.phase = ReaderPhase::Top;
            ReaderAction::CheckStop
        } else {
            state.phase = ReaderPhase::Done;
            ReaderAction::Exit
        },
        _ => {
            state.phase = ReaderPhase::Done;
            ReaderAction::Exit
        },
    }
}

/// The state and the actions after the loop took `events` in turn.
pub open spec fn reader_run(s: (ReaderPhase, CursorState), events: Seq<ReaderEvent>) -> (
    (ReaderPhase, CursorState),
    Seq<ReaderAction>,
)
    decreases events.len(),
{
    if events.len() == 0 {
        (s, seq![])
    } else {
        let (prev, actions) = reader_run(s, events.drop_last());
        let (next, action) = reader_next(prev, events.last());
        (next, actions.push(action))
    }
}

/// Whether an action ends the thread's work: the end of the stream or the
/// end of the thread.
pub open spec fn reader_final(action: ReaderAction) -> bool {
    action is SendEos || action is Exit
}

proof fn lemma_reader_run_ends(s: (ReaderPhase, CursorState), events: Seq<ReaderEvent>)
    requires
        s.1.current_sample as int + events.len() < u32::MAX,
    ensures
        ({
            let (last, actions) = reader_run(s, events);
            &&& actions.len() == events.len()
            &&& s.1.current_sample <= last.1.current_sample <= s.1.current_sample + events.len()
            &&& forall|i: int, j: int|
                0 <= i < j < actions.len() && reader_final(#[trigger] actions[i]) ==> #[trigger] actions[j] is Exit
            &&& forall|i: int, j: int|
                0 <= i < j < actions.len() && #[trigger] actions[i] is ReadSample && #[trigger] actions[j] is ReadSample
                    ==> actions[i]->ReadSample_0 < actions[j]->ReadSample_0
            &&& forall|i: int|
                0 <= i < actions.len() && #[trigger] actions[i] is ReadSample ==> actions[i]->ReadSample_0
                    <= last.1.current_sample
            &&& actions.len() > 0 && actions.last() is SendEos ==> last.0 is Ending
            &&& (exists|i: int| 0 <= i < actions.len() && #[trigger] actions[i] is Exit) ==> last.0 is Done
        }),
    decreases events.len(),
{
    if events.len() > 0 {
        let rest = events.drop_last();
        lemma_reader_run_ends(s, rest);
        let (prev, before) = reader_run(s, rest);
        let (next, action) = reader_next(prev, events.last());
        let actions = before.push(action);
        assert(reader_run(s, events) == (next, actions));
        if exists|i: int| 0 <= i < before.len() && reader_final(#[trigger] before[i]) {
            let i = choose|i: int| 0 <= i < before.len() && reader_final(#[trigger] before[i]);
            let k = before.len() - 1;
            if i < k {
                assert(before[k] is Exit);
            }
            assert(reader_final(before[k]));
            if before[k] is Exit {
                assert(prev.0 is Done);
            } else {
                assert(prev.0 is Ending);
            }
            assert(action is Exit);
        }
        assert forall|i: int, j: int|
            0 <= i < j < actions.len() && reader_final(#[trigger] actions[i]) implies #[trigger] actions[j]
            is Exit by {
            if j < before.len() {
                assert(actions[i] == before[i] && actions[j] == before[j]);
            } else {
                assert(actions[i] == before[i]);
            }
        }
        assert forall|i: int, j: int|
            0 <= i < j < actions.len() && #[trigger] actions[i] is ReadSample && #[trigger] actions[j] is ReadSample
                implies actions[i]->ReadSample_0 < actions[j]->ReadSample_0 by {
            assert(actions[i] == before[i]);
            if j < before.len() {
                assert(actions[j] == before[j]);
            } else {
                assert(before[i]->ReadSample_0 <= prev.1.current_sample);
            }
        }
        assert forall|i: int|
            0 <= i < actions.len() && #[trigger] actions[i] is ReadSample implies actions[i]->ReadSample_0
                <= next.1.current_sample by {
            if i < before.len() {
                assert(actions[i] == before[i]);
            }
        }
        if exists|i: int| 0 <= i < actions.len() && #[trigger] actions[i] is Exit {
            let i = choose|i: int| 0 <= i < actions.len() && #[trigger] actions[i] is Exit;
            if i < before.len() {
                assert(before[i] is Exit);
                assert(prev.0 is Done);
            }
        }
    }
}

/// Chunks go out in the cursor's order: the samples the loop reads have
/// increasing numbers. The end of the stream comes last: once the loop chose
/// to send it, or to end the thread (after a chunk could not be sent), every
/// later action ends the thread.
pub proof fn lemma_reader_reads_in_order_then_ends(s: (ReaderPhase, CursorState), events: Seq<ReaderEvent>)
    requires
        s.1.current_sample as int + events.len() < u32::MAX,
    ensures
        forall|i: int, j: int|
            0 <= i < j < events.len() && #[trigger] reader_run(s, events).1[i] is ReadSample
                && #[trigger] reader_run(s, events).1[j] is ReadSample ==> reader_run(s, events).1[i]->ReadSample_0
                < reader_run(s, events).1[j]->ReadSample_0,
        forall|i: int, j: int|
            0 <= i < j < events.len() && reader_final(#[trigger] reader_run(s, events).1[i])
                ==> #[trigger] reader_run(s, events).1[j] is Exit,
{
    lemma_reader_run_ends(s, events);
}

} // verus!
