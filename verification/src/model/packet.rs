use vstd::prelude::*;

use crate::model::time::Timebase;

verus! {

/// A compressed or container-level unit of data. Ownership moves from a
/// demuxer through the codecs to a muxer; the byte buffer is never shared.
#[derive(Debug, Clone)]
pub struct Packet {
    pub data: Vec<u8>,
    pub pts: i64,
    pub dts: i64,
    pub timebase: Timebase,
    pub stream_index: usize,
    pub keyframe: bool,
    pub discard: bool,
}

impl Packet {
    pub fn new(data: Vec<u8>, stream_index: usize, timebase: Timebase) -> (r: Packet)
        ensures
            r.data == data,
            r.pts == 0,
            r.dts == 0,
            r.timebase == timebase,
            r.stream_index == stream_index,
            !r.keyframe,
            !r.discard,
    {
        Packet { data, pts: 0, dts: 0, timebase, stream_index, keyframe: false, discard: false }
    }

    pub fn with_pts(self, pts: i64) -> (r: Packet)
        ensures
            r == (Packet { pts, ..self }),
    {
        Packet { pts, ..self }
    }

    pub fn with_dts(self, dts: i64) -> (r: Packet)
        ensures
            r == (Packet { dts, ..self }),
    {
        Packet { dts, ..self }
    }

    pub fn size(&self) -> (r: usize)
        ensures
            r == self.data@.len(),
    {
        self.data.len()
    }

    pub fn is_empty(&self) -> (r: bool)
        ensures
            r == (self.data@.len() == 0),
    {
        self.data.is_empty()
    }
}

} // verus!
