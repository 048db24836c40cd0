//! What the decoder thread hands to the renderer, and the copying of a
//! decoded plane out of the decoder's padded rows.
use crate::video::reader::extend_with_range;
use vstd::prelude::*;

verus! {

#[verifier::external_type_specification]
#[verifier::external_body]
pub struct ExBytes(bytes::Bytes);

/// What travels down a pipeline stage: a payload, the acknowledgement of a
/// seek request, or the end of the stream.
#[derive(Debug)]
pub enum PipelineEvent<T> {
    Data(T),
    SeekAck,
    EOS,
}

/// A picture size in pixels.
#[derive(Debug, Clone, Copy, PartialEq, Eq, Hash, Structural)]
pub struct Resolution {
    pub width: usize,
    pub height: usize,
}

/// The three planes of a YUV 4:2:0 picture.
#[derive(Debug)]
pub struct YuvPlanes {
    pub y_plane: bytes::Bytes,
    pub u_plane: bytes::Bytes,
    pub v_plane: bytes::Bytes,
}

/// The pixels of a decoded picture.
#[derive(Debug)]
pub enum FrameData {
    PlanarYuv420(YuvPlanes),
}

/// A decoded picture with its presentation time and what decoding it cost,
/// both in nanoseconds.
#[derive(Debug)]
pub struct Frame {
    pub data: FrameData,
    pub resolution: Resolution,
    pub pts: u64,
    pub decode_cost: u64,
}

/// The payload of an event, if it carries one.
pub open spec fn event_frame<T>(event: PipelineEvent<T>) -> Option<T> {
    match event {
        PipelineEvent::Data(frame) => Some(frame),
        _ => None,
    }
}

/// The payload of an event, if it carries one; an acknowledgement or the end
/// of the stream gives nothing.
pub fn frame_of<T>(event: PipelineEvent<T>) -> (frame: Option<T>)
    ensures
        frame == event_frame(event),
{
    match event {
        PipelineEvent::Data(frame) => Some(frame),
        PipelineEvent::EOS => None,
        PipelineEvent::SeekAck => None,
    }
}

/// The first `width` bytes of each `stride`-byte row of `data`, row after
/// row; the last row may be shorter than a stride.
pub open spec fn plane_rows(data: Seq<u8>, stride: nat, width: nat) -> Seq<u8>
    decreases data.len(),
{
    if stride == 0 || data.len() == 0 {
        seq![]
    } else if data.len() <= stride {
        data.take(width as int)
    } else {
        data.take(width as int) + plane_rows(data.skip(stride as int), stride, width)
    }
}

/// Whether every `stride`-byte row of a plane of `len` bytes, the last one
/// included, holds at least `width` bytes.
pub open spec fn rows_hold_width(len: nat, stride: nat, width: nat) -> bool {
    len == 0 || (width <= stride && (len % stride == 0 || len % stride >= width))
}

/// Whether every `stride`-byte row of a plane of `len` bytes holds at least
/// `width` bytes.
pub fn rows_fit_width(len: usize, stride: usize, width: usize) -> (fits: bool)
    requires
        stride > 0,
    ensures
        fits == rows_hold_width(len as nat, stride as nat, width as nat),
{
    len == 0 || (width <= stride && (len % stride == 0 || len % stride >= width))
}

/// A copied plane holds `width` bytes for every row of the decoder's
/// buffer, the last, shorter row included.
pub proof fn lemma_plane_rows_len(data: Seq<u8>, stride: nat, width: nat)
    requires
        stride > 0,
        rows_hold_width(data.len(), stride, width),
    ensures
        plane_rows(data, stride, width).len() == width * ((data.len() + stride - 1) / stride as int),
    decreases data.len(),
{
    let len = data.len() as int;
    let s = stride as int;
    if len == 0 {
        assert((s - 1) / s == 0) by (nonlinear_arith)
            requires
                s > 0,
        ;
        assert(plane_rows(data, stride, width).len() == 0);
        assert(width * ((len + s - 1) / s) == 0);
    } else if len <= s {
        assert((len + s - 1) / s == 1) by (nonlinear_arith)
            requires
                0 < len <= s,
        ;
        if len < s {
            assert(len % s == len) by (nonlinear_arith)
                requires
                    0 < len < s,
            ;
        }
        assert(width <= len);
        assert(plane_rows(data, stride, width) == data.take(width as int));
        assert(plane_rows(data, stride, width).len() == width * ((len + s - 1) / s));
    } else {
        assert(((len - s) % s) == len % s) by (nonlinear_arith)
            requires
                len > s > 0,
        ;
        lemma_plane_rows_len(data.skip(stride as int), stride, width);
        assert(plane_rows(data, stride, width) == data.take(width as int) + plane_rows(data.skip(stride as int), stride, width));
        assert((len + s - 1) / s == (len - s + s - 1) / s + 1) by (nonlinear_arith)
            requires
                len > s > 0,
        ;
        assert(width * ((len - s + s - 1) / s) + width == width * ((len - s + s - 1) / s + 1)) by (nonlinear_arith);
        assert(plane_rows(data, stride, width).len() == width * ((len + s - 1) / s));
    }
}

/// Copies a decoded plane out of the decoder's buffer `data`, whose rows are
/// `stride` bytes apart, keeping the `width` bytes of picture at the start
/// of each row.
pub fn copy_plane(data: &[u8], stride: usize, width: usize) -> (plane: Vec<u8>)
    requires
        stride > 0,
        rows_hold_width(data.len() as nat, stride as nat, width as nat),
    ensures
        plane@ == plane_rows(data@, stride as nat, width as nat),
{
    let mut plane: Vec<u8> = Vec::new();
    let mut pos: usize = 0;
    assert(data@.skip(0) =~= data@);
    while pos < data.len()
        invariant
            stride > 0,
            pos <= data.len(),
            rows_hold_width((data.len() - pos) as nat, stride as nat, width as nat),
            plane@ + plane_rows(data@.skip(pos as int), stride as nat, width as nat) == plane_rows(
                data@,
                stride as nat,
                width as nat,
            ),
        decreases data.len() - pos,
    {
        let remaining = data.len() - pos;
        let ghost rest = data@.skip(pos as int);
        assert(width <= remaining) by {
            if remaining < stride {
                assert((remaining as int) % (stride as int) == remaining as int) by (nonlinear_arith)
                    requires
                        0 < remaining < stride,
                ;
            }
        }
        let ghost before = plane@;
        extend_with_range(&mut plane, data, pos, pos + width);
        assert(rest.take(width as int) =~= data@.subrange(pos as int, pos + width));
        if remaining <= stride {
            assert(plane@ + plane_rows(data@.skip(data.len() as int), stride as nat, width as nat) =~= before
                + plane_rows(rest, stride as nat, width as nat));
            pos = data.len();
        } else {
            assert(rest.skip(stride as int) =~= data@.skip(pos + stride));
            assert(((remaining - stride) as int) % (stride as int) == (remaining as int) % (stride as int))
                by (nonlinear_arith)
                requires
                    remaining > stride > 0,
            ;
            pos = pos + stride;
        }
    }
    plane
}

} // verus!
