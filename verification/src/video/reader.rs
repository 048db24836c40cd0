//! Reading H.264 video out of MP4 files: choosing the track, stepping
//! through its samples, and turning the samples into an Annex B stream.
//!
//! An MP4 sample holds one access unit as NAL units, each behind a
//! big-endian length of one to four bytes. A decoder wants Annex B instead:
//! every NAL unit behind the start code `00 00 00 01`, with the sequence and
//! picture parameter sets, which the container keeps apart, in front of the
//! first sample.
use crate::thread_utils::custom_beams::receiver_try_recv;
use crossbeam_channel::Receiver;
use vstd::prelude::*;

verus! {

/// Requests to the reader thread. Positions are in nanoseconds.
pub enum MP4Command {
    /// Pause, if possible.
    Pause,
    /// Play, if possible.
    Play,
    /// Pause and go to the start.
    Stop,
    /// Go ten seconds forward.
    SkipForward,
    /// Go ten seconds back.
    SkipBackward,
    /// Go to a position.
    Seek(u64),
}

/// The decoders that can take the stream.
#[derive(Debug, Clone, Copy, PartialEq, Eq, Structural)]
pub enum VideoDecoder {
    FFmpegH264,
}

/// How the stream is to be decoded.
#[derive(Debug, Clone, PartialEq, Eq, Structural)]
pub struct VideoDecoderOptions {
    pub decoder: VideoDecoder,
}

/// The codecs a stream can be in.
#[derive(Debug, Clone, Copy, PartialEq, Eq, Structural)]
pub enum VideoCodec {
    H264,
}

/// What an encoded chunk holds.
#[derive(Debug, Clone, Copy, PartialEq, Eq, Structural)]
pub enum EncodedChunkKind {
    Video(VideoCodec),
}

/// One encoded access unit, with its presentation and decoding times in
/// nanoseconds.
pub struct EncodedChunk {
    pub data: bytes::Bytes,
    pub pts: u64,
    pub dts: Option<u64>,
    pub kind: EncodedChunkKind,
}

/// The Annex B start code.
pub open spec fn start_code() -> Seq<u8> {
    seq![0u8, 0u8, 0u8, 1u8]
}

/// The number that `bytes` spell in big-endian order.
pub open spec fn be_value(bytes: Seq<u8>) -> nat
    decreases bytes.len(),
{
    if bytes.len() == 0 {
        0
    } else {
        (be_value(bytes.drop_last()) * 256 + bytes.last()) as nat
    }
}

/// `256` to the power `n`.
pub open spec fn pow256(n: nat) -> nat
    decreases n,
{
    if n == 0 {
        1
    } else {
        256 * pow256((n - 1) as nat)
    }
}

/// Whether every NAL unit of the sample `data`, with lengths of
/// `length_size` bytes, lies within the sample. Reading stops where fewer
/// bytes than a length remain.
pub open spec fn avcc_well_formed(data: Seq<u8>, length_size: nat) -> bool
    decreases data.len(),
{
    if length_size == 0 || data.len() < length_size {
        true
    } else {
        let n = be_value(data.take(length_size as int));
        n <= data.len() - length_size && avcc_well_formed(data.skip((length_size + n) as int), length_size)
    }
}

/// The NAL units of the sample `data`, each behind a start code.
pub open spec fn annexb_from_avcc(data: Seq<u8>, length_size: nat) -> Seq<u8>
    decreases data.len(),
{
    if length_size == 0 || data.len() < length_size {
        seq![]
    } else {
        let n = be_value(data.take(length_size as int));
        if n > data.len() - length_size {
            seq![]
        } else {
            start_code() + data.subrange(length_size as int, (length_size + n) as int) + annexb_from_avcc(
                data.skip((length_size + n) as int),
                length_size,
            )
        }
    }
}

/// The parameter sets `sets`, each behind a start code.
pub open spec fn prefixed_nals(sets: Seq<Seq<u8>>) -> Seq<u8>
    decreases sets.len(),
{
    if sets.len() == 0 {
        seq![]
    } else {
        prefixed_nals(sets.drop_last()) + start_code() + sets.last()
    }
}

/// Appends `data[from..to]` to `out`.
pub(crate) fn extend_with_range(out: &mut Vec<u8>, data: &[u8], from: usize, to: usize)
    requires
        from <= to <= data.len(),
    ensures
        final(out)@ == old(out)@ + data@.subrange(from as int, to as int),
{
    let mut i = from;
    while i < to
        invariant
            from <= i <= to <= data.len(),
            out@ == old(out)@ + data@.subrange(from as int, i as int),
        decreases to - i,
    {
        out.push(data[i]);
        assert(data@.subrange(from as int, i + 1) =~= data@.subrange(from as int, i as int).push(data@[i as int]));
        i = i + 1;
    }
}

/// Appends the Annex B start code to `out`.
fn push_start_code(out: &mut Vec<u8>)
    ensures
        final(out)@ == old(out)@ + start_code(),
{
    out.push(0);
    out.push(0);
    out.push(0);
    out.push(1);
    assert(out@ =~= old(out)@ + start_code());
}

/// The big-endian number in `data[pos..pos + size]`.
fn read_be_length(data: &[u8], pos: usize, size: usize) -> (value: u64)
    requires
        1 <= size <= 4,
        pos + size <= data.len(),
    ensures
        value == be_value(data@.subrange(pos as int, pos + size)),
        value < 0x1_0000_0000,
{
    let mut value: u64 = 0;
    let mut k: usize = 0;
    assert(pow256(4) == 0x1_0000_0000) by {
        reveal_with_fuel(pow256, 5);
    }
    while k < size
        invariant
            k <= size <= 4,
            pos + size <= data.len(),
            value == be_value(data@.subrange(pos as int, pos + k)),
            value < pow256(k as nat),
            pow256(k as nat) <= 0x1_0000_0000,
        decreases size - k,
    {
        let byte = data[pos + k];
        let ghost p = pow256(k as nat);
        assert(value * 256 + byte < 256 * p) by (nonlinear_arith)
            requires
                value < p,
                byte < 256,
        ;
        assert(data@.subrange(pos as int, pos + k + 1).drop_last() =~= data@.subrange(pos as int, pos + k));
        value = value * 256 + byte as u64;
        k = k + 1;
        assert(pow256(k as nat) <= 0x1_0000_0000) by {
            reveal_with_fuel(pow256, 5);
        }
    }
    value
}

/// Whether every NAL unit of the sample `sample`, with lengths of
/// `length_size` bytes, lies within the sample.
pub fn avcc_sample_complete(sample: &[u8], length_size: usize) -> (complete: bool)
    requires
        1 <= length_size <= 4,
    ensures
        complete == avcc_well_formed(sample@, length_size as nat),
{
    let ls = length_size;
    let mut pos: usize = 0;
    assert(sample@.skip(0) =~= sample@);
    while sample.len() - pos >= ls
        invariant
            ls == length_size,
            1 <= ls <= 4,
            pos <= sample.len(),
            avcc_well_formed(sample@, ls as nat) == avcc_well_formed(sample@.skip(pos as int), ls as nat),
        decreases sample.len() - pos,
    {
        let ghost rest = sample@.skip(pos as int);
        assert(rest.take(ls as int) =~= sample@.subrange(pos as int, pos + ls));
        let len = read_be_length(sample, pos, ls);
        if len as usize > sample.len() - pos - ls {
            assert(!avcc_well_formed(rest, ls as nat));
            return false;
        }
        let end = pos + ls + len as usize;
        assert(rest.skip(ls + len) =~= sample@.skip(end as int));
        pos = end;
    }
    true
}

/// Appends the NAL units of the MP4 sample `sample`, whose NAL units sit
/// behind big-endian lengths of `length_size` bytes, to `out`, each behind
/// the Annex B start code. Bytes after the last whole length are ignored.
pub fn append_annexb_nals(out: &mut Vec<u8>, sample: &[u8], length_size: usize)
    requires
        1 <= length_size <= 4,
        avcc_well_formed(sample@, length_size as nat),
    ensures
        final(out)@ == old(out)@ + annexb_from_avcc(sample@, length_size as nat),
{
    let ls = length_size;
    let mut pos: usize = 0;
    assert(sample@.skip(0) =~= sample@);
    while sample.len() - pos >= ls
        invariant
            1 <= ls <= 4,
            pos <= sample.len(),
            avcc_well_formed(sample@.skip(pos as int), ls as nat),
            out@ + annexb_from_avcc(sample@.skip(pos as int), ls as nat) == old(out)@ + annexb_from_avcc(
                sample@,
                ls as nat,
            ),
        decreases sample.len() - pos,
    {
        let ghost rest = sample@.skip(pos as int);
        assert(rest.take(ls as int) =~= sample@.subrange(pos as int, pos + ls));
        let len = read_be_length(sample, pos, ls);
        let nal_len = len as usize;
        let start = pos + ls;
        let end = start + nal_len;
        assert(rest.subrange(ls as int, ls + nal_len) =~= sample@.subrange(start as int, end as int));
        assert(rest.skip(ls + nal_len) =~= sample@.skip(end as int));
        let ghost before = out@;
        push_start_code(out);
        extend_with_range(out, sample, start, end);
        assert(out@ + annexb_from_avcc(sample@.skip(end as int), ls as nat) =~= before + annexb_from_avcc(
            rest,
            ls as nat,
        ));
        pos = end;
    }
}

/// The parameter sets `sets`, each behind a start code, appended to `out`.
fn append_prefixed_nals(out: &mut Vec<u8>, sets: &Vec<Vec<u8>>)
    ensures
        final(out)@ == old(out)@ + prefixed_nals(sets.deep_view()),
{
    let mut i: usize = 0;
    while i < sets.len()
        invariant
            i <= sets.len(),
            out@ == old(out)@ + prefixed_nals(sets.deep_view().take(i as int)),
        decreases sets.len() - i,
    {
        let set = &sets[i];
        push_start_code(out);
        extend_with_range(out, set.as_slice(), 0, set.len());
        assert(set@.subrange(0, set@.len() as int) =~= set@);
        assert(sets.deep_view().take(i + 1).drop_last() =~= sets.deep_view().take(i as int));
        assert(out@ =~= old(out)@ + prefixed_nals(sets.deep_view().take(i + 1)));
        i = i + 1;
    }
    assert(sets.deep_view().take(sets.len() as int) =~= sets.deep_view());
}

/// The sequence parameter sets and then the picture parameter sets, each
/// behind a start code: what goes in front of the first sample.
pub fn parameter_sets_payload(sps: &Vec<Vec<u8>>, pps: &Vec<Vec<u8>>) -> (payload: Vec<u8>)
    ensures
        payload@ == prefixed_nals(sps.deep_view()) + prefixed_nals(pps.deep_view()),
{
    let mut payload: Vec<u8> = Vec::new();
    append_prefixed_nals(&mut payload, sps);
    append_prefixed_nals(&mut payload, pps);
    assert(payload@ =~= prefixed_nals(sps.deep_view()) + prefixed_nals(pps.deep_view()));
    payload
}

/// What a sample unpacker knows: the parameter sets still to be sent, if
/// any, and the size of the NAL lengths in the samples.
pub struct UnpackerState {
    pub pending_header: Option<Seq<u8>>,
    pub length_size: nat,
}

/// The Annex B data for the sample `sample` and the unpacker's state
/// afterwards: the parameter sets, if still pending, go in front, and are
/// then no longer pending.
pub open spec fn unpacked(state: UnpackerState, sample: Seq<u8>) -> (Seq<u8>, UnpackerState) {
    (
        match state.pending_header {
            Some(header) => header,
            None => Seq::empty(),
        } + annexb_from_avcc(sample, state.length_size),
        UnpackerState { pending_header: None, ..state },
    )
}

/// The parameter sets go in front of the first sample only: of two samples
/// unpacked in turn, the second comes out as its NAL units alone.
pub proof fn lemma_parameter_sets_lead_once(state: UnpackerState, first: Seq<u8>, second: Seq<u8>)
    ensures
        unpacked(unpacked(state, first).1, second).0 == annexb_from_avcc(second, state.length_size),
        unpacked(state, first).0 == match state.pending_header {
            Some(header) => header,
            None => Seq::empty(),
        } + annexb_from_avcc(first, state.length_size),
{
    assert(Seq::<u8>::empty() + annexb_from_avcc(second, state.length_size) =~= annexb_from_avcc(
        second,
        state.length_size,
    ));
}

/// Turns the samples of one H.264 track into an Annex B stream, putting the
/// parameter sets in front of the first sample.
pub struct SampleUnpacker {
    sps_and_pps_payload: Option<Vec<u8>>,
    length_size: usize,
}

impl View for SampleUnpacker {
    type V = UnpackerState;

    closed spec fn view(&self) -> UnpackerState {
        UnpackerState {
            pending_header: match self.sps_and_pps_payload {
                Some(payload) => Some(payload@),
                None => None,
            },
            length_size: self.length_size as nat,
        }
    }
}

impl SampleUnpacker {
    /// An unpacker for a track whose configuration gives the parameter sets
    /// `sps` and `pps` and NAL lengths of `length_size_minus_one + 1` bytes.
    pub fn new(sps: &Vec<Vec<u8>>, pps: &Vec<Vec<u8>>, length_size_minus_one: u8) -> (unpacker: Self)
        requires
            length_size_minus_one <= 3,
        ensures
            unpacker@ == (UnpackerState {
                pending_header: Some(prefixed_nals(sps.deep_view()) + prefixed_nals(pps.deep_view())),
                length_size: (length_size_minus_one + 1) as nat,
            }),
    {
        let payload = parameter_sets_payload(sps, pps);
        SampleUnpacker { sps_and_pps_payload: Some(payload), length_size: length_size_minus_one as usize + 1 }
    }

    /// The size of the NAL lengths in the samples, in bytes.
    pub fn length_size(&self) -> (size: usize)
        ensures
            size == self@.length_size,
    {
        self.length_size
    }

    /// The sample `sample` as Annex B, behind the parameter sets if they were
    /// not sent yet.
    pub fn unpack(&mut self, sample: &[u8]) -> (data: Vec<u8>)
        requires
            1 <= old(self)@.length_size <= 4,
            avcc_well_formed(sample@, old(self)@.length_size),
        ensures
            (data@, final(self)@) == unpacked(old(self)@, sample@),
    {
        let mut data: Vec<u8> = Vec::new();
        let pending = self.sps_and_pps_payload.take();
        match pending {
            Some(first_nal) => {
                data = first_nal;
            },
            None => {},
        }
        append_annexb_nals(&mut data, sample, self.length_size);
        data
    }
}

/// `n` written in `size` bytes, most significant first.
pub open spec fn be_bytes(n: nat, size: nat) -> Seq<u8>
    decreases size,
{
    if size == 0 {
        seq![]
    } else {
        be_bytes(n / 256, (size - 1) as nat).push((n % 256) as u8)
    }
}

/// The NAL units `nals` as an MP4 sample stores them: each behind its length
/// in `size` big-endian bytes.
pub open spec fn avcc_encode(nals: Seq<Seq<u8>>, size: nat) -> Seq<u8>
    decreases nals.len(),
{
    if nals.len() == 0 {
        seq![]
    } else {
        be_bytes(nals[0].len(), size) + nals[0] + avcc_encode(nals.drop_first(), size)
    }
}

/// The NAL units `nals` as an Annex B stream: each behind a start code.
pub open spec fn annexb_of(nals: Seq<Seq<u8>>) -> Seq<u8>
    decreases nals.len(),
{
    if nals.len() == 0 {
        seq![]
    } else {
        start_code() + nals[0] + annexb_of(nals.drop_first())
    }
}

proof fn lemma_be_bytes(n: nat, size: nat)
    requires
        n < pow256(size),
    ensures
        be_bytes(n, size).len() == size,
        be_value(be_bytes(n, size)) == n,
    decreases size,
{
    if size > 0 {
        let p = pow256((size - 1) as nat);
        assert(n / 256 < p && n == (n / 256) * 256 + n % 256) by (nonlinear_arith)
            requires
                n < 256 * p,
        ;
        lemma_be_bytes(n / 256, (size - 1) as nat);
        let front = be_bytes(n / 256, (size - 1) as nat);
        assert(front.push((n % 256) as u8).drop_last() =~= front);
    }
}

/// A sample whose NAL units each fit their length field unpacks to exactly
/// those NAL units, each behind a start code, whatever fragment shorter than
/// a length follows them; and such a sample is well formed.
pub proof fn lemma_unpacking_recovers_nal_units(nals: Seq<Seq<u8>>, size: nat, tail: Seq<u8>)
    requires
        1 <= size <= 4,
        forall|k: int| 0 <= k < nals.len() ==> (#[trigger] nals[k]).len() < pow256(size),
        tail.len() < size,
    ensures
        avcc_well_formed(avcc_encode(nals, size) + tail, size),
        annexb_from_avcc(avcc_encode(nals, size) + tail, size) == annexb_of(nals),
    decreases nals.len(),
{
    let data = avcc_encode(nals, size) + tail;
    if nals.len() == 0 {
        assert(data =~= tail);
    } else {
        let nal = nals[0];
        let rest = nals.drop_first();
        let n = nal.len();
        assert(nals[0].len() < pow256(size));
        lemma_be_bytes(n, size);
        let head = be_bytes(n, size);
        let more = avcc_encode(rest, size) + tail;
        assert(data =~= head + nal + more);
        assert(data.take(size as int) =~= head);
        assert(data.subrange(size as int, (size + n) as int) =~= nal);
        assert(data.skip((size + n) as int) =~= more);
        assert forall|k: int| 0 <= k < rest.len() implies (#[trigger] rest[k]).len() < pow256(size) by {
            assert(rest[k] == nals[k + 1]);
        }
        lemma_unpacking_recovers_nal_units(rest, size, tail);
    }
}

/// What is known of a track when choosing the one to play.
pub struct TrackCandidate {
    pub track_id: u32,
    /// The track's type could be read and is video.
    pub is_video: bool,
    /// The track's media type could be read and is H.264.
    pub is_h264: bool,
    /// The track carries an AVC configuration.
    pub has_avc_config: bool,
}

/// Whether a track can be played.
pub open spec fn playable(track: TrackCandidate) -> bool {
    track.is_video && track.is_h264 && track.has_avc_config
}

/// The position of the first playable track, if any.
pub fn find_h264_track(tracks: &Vec<TrackCandidate>) -> (found: Option<usize>)
    ensures
        match found {
            Some(i) => i < tracks.len() && playable(tracks@[i as int]) && forall|j: int|
                0 <= j < i ==> !playable(#[trigger] tracks@[j]),
            None => forall|j: int| 0 <= j < tracks.len() ==> !playable(#[trigger] tracks@[j]),
        },
{
    let mut i: usize = 0;
    while i < tracks.len()
        invariant
            i <= tracks.len(),
            forall|j: int| 0 <= j < i ==> !playable(#[trigger] tracks@[j]),
        decreases tracks.len() - i,
    {
        let track = &tracks[i];
        if track.is_video && track.is_h264 && track.has_avc_config {
            return Some(i);
        }
        i = i + 1;
    }
    None
}

/// Where a cursor over the samples of a track stands. Durations are in
/// nanoseconds.
pub struct CursorState {
    pub video_duration: u64,
    pub avg_sample_duration: u64,
    pub sample_count: u32,
    pub current_sample: u32,
}

/// The cursor after one step, and the sample it names, if the track has it.
pub open spec fn cursor_stepped(cursor: CursorState) -> (CursorState, Option<u32>) {
    let next = CursorState { current_sample: (cursor.current_sample + 1) as u32, ..cursor };
    (next, if next.current_sample <= next.sample_count {
        Some(next.current_sample)
    } else {
        None
    })
}

/// A cursor walks the samples upward one at a time, and once it has run
/// past the last sample every further step finds none.
pub proof fn lemma_cursor_walks_forward(cursor: CursorState)
    requires
        cursor.current_sample < u32::MAX - 1,
    ensures
        ({
            let (once, first) = cursor_stepped(cursor);
            let (_, second) = cursor_stepped(once);
            &&& first is None ==> second is None
            &&& (first is Some && second is Some) ==> second.unwrap() == first.unwrap() + 1
        }),
{
}

/// Steps through the samples of a track, numbered from one.
pub struct VideoCursor {
    video_duration: u64,
    avg_sample_duration: u64,
    sample_count: u32,
    current_sample: u32,
    command_receiver: Receiver<MP4Command>,
}

impl View for VideoCursor {
    type V = CursorState;

    closed spec fn view(&self) -> CursorState {
        CursorState {
            video_duration: self.video_duration,
            avg_sample_duration: self.avg_sample_duration,
            sample_count: self.sample_count,
            current_sample: self.current_sample,
        }
    }
}

impl VideoCursor {
    /// A cursor over the `sample_count` samples of a track of length
    /// `video_duration`, standing on the first sample.
    pub fn new(video_duration: u64, sample_count: u32, command_receiver: Receiver<MP4Command>) -> (cursor: Self)
        requires
            sample_count > 0,
        ensures
            cursor@ == (CursorState {
                video_duration,
                avg_sample_duration: (video_duration / (sample_count as u64)) as u64,
                sample_count,
                current_sample: 1,
            }),
    {
        Self {
            sample_count,
            video_duration,
            current_sample: 1,
            avg_sample_duration: video_duration / (sample_count as u64),
            command_receiver,
        }
    }

    /// The sample the cursor stands on.
    pub fn current_sample(&self) -> (sample: u32)
        ensures
            sample == self@.current_sample,
    {
        self.current_sample
    }

    /// Takes a waiting command, which is not acted on yet, moves to the next
    /// sample and returns its number while the track has one.
    pub fn next_sample(&mut self) -> (sample: Option<u32>)
        requires
            old(self)@.current_sample < u32::MAX,
        ensures
            (final(self)@, sample) == cursor_stepped(old(self)@),
    {
        let _ = receiver_try_recv(&self.command_receiver);
        self.current_sample = self.current_sample + 1;
        if self.current_sample <= self.sample_count {
            return Some(self.current_sample);
        }
        None
    }

    /// Reading commands to pick the next sample is not done yet: gives 0.
    pub fn process_commands_and_get_next_sample() -> (sample: u32)
        ensures
            sample == 0,
    {
        0
    }

    /// Seeking by time is not done yet: does nothing.
    pub fn seek(to: u64) {
    }

    /// Skipping forward is not done yet: does nothing.
    pub fn skip_forward(seconds: u32) {
    }

    /// Skipping back is not done yet: does nothing.
    pub fn skip_backward(seconds: u32) {
    }
}

} // verus!
