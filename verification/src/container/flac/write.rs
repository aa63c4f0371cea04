use vstd::prelude::*;

use crate::container::flac::{
    flac_format_wf, flac_header_bytes, flac_magic, flac_packed_field, streaminfo_bytes, FlacFormat,
};
use crate::io::endian;
use crate::io::error::{IoError, IoResult};
use crate::io::writer::{MediaWrite, WritePrimitives};
use crate::model::packet::Packet;
use crate::model::traits::Muxer;

verus! {

/// Writes the signature and a last-marked STREAMINFO block at construction,
/// then streams frame packets verbatim.
pub struct FlacWriter<W> {
    pub writer: W,
    pub format: FlacFormat,
}

impl<W: MediaWrite> FlacWriter<W> {
    /// Emits the whole header; a format whose fields overflow their slots
    /// is rejected.
    pub fn new(writer: W, format: FlacFormat) -> (r: IoResult<FlacWriter<W>>)
        ensures
            writer.appending() ==> (r matches Ok(w) ==> w.writer.sink() == writer.sink()
                + flac_header_bytes(format) && w.writer.appending() && w.format == format),
            writer.appending() ==> (r is Err <==> !flac_format_wf(format)),
    {
        if !(format.min_frame_size < 0x100_0000 && format.max_frame_size < 0x100_0000
            && format.sample_rate < 0x10_0000 && 1 <= format.channels && format.channels <= 8 && 1
            <= format.bits_per_sample && format.bits_per_sample <= 32 && format.total_samples
            < 0x10_0000_0000) {
            return Err(IoError::invalid_data("stream fields overflow STREAMINFO"));
        }
        let mut wr = writer;
        let magic: Vec<u8> = vec![0x66u8, 0x4cu8, 0x61u8, 0x43u8, 0x80u8, 0x00u8, 0x00u8, 0x22u8];
        proof {
            assert(magic@ =~= flac_magic() + seq![0x80u8, 0x00u8, 0x00u8, 0x22u8]);
        }
        match wr.write_all(magic.as_slice()) {
            Ok(()) => (),
            Err(e) => {
                return Err(e);
            },
        }
        match wr.write_u16_be(format.min_block_size) {
            Ok(()) => (),
            Err(e) => {
                return Err(e);
            },
        }
        match wr.write_u16_be(format.max_block_size) {
            Ok(()) => (),
            Err(e) => {
                return Err(e);
            },
        }
        match wr.write_u24_be(format.min_frame_size) {
            Ok(()) => (),
            Err(e) => {
                return Err(e);
            },
        }
        match wr.write_u24_be(format.max_frame_size) {
            Ok(()) => (),
            Err(e) => {
                return Err(e);
            },
        }
        proof {
            assert(0 <= flac_packed_field(format) < 0x1_0000_0000_0000_0000) by (nonlinear_arith)
                requires
                    format.sample_rate < 0x10_0000 && 1 <= format.channels <= 8 && 1
                        <= format.bits_per_sample <= 32 && format.total_samples
                        < 0x10_0000_0000 && flac_packed_field(format) == format.sample_rate
                        * 0x1000_0000_0000 + (format.channels - 1) * 0x200_0000_0000 + (
                    format.bits_per_sample - 1) * 0x10_0000_0000 + format.total_samples,
            ;
        }
        let packed: u64 = format.sample_rate as u64 * 0x1000_0000_0000 + (format.channels as u64
            - 1) * 0x200_0000_0000 + (format.bits_per_sample as u64 - 1) * 0x10_0000_0000
            + format.total_samples;
        let packed_bytes = endian::u64_to_be(packed);
        match wr.write_all(packed_bytes.as_slice()) {
            Ok(()) => (),
            Err(e) => {
                return Err(e);
            },
        }
        let md5: Vec<u8> = vstd::slice::slice_to_vec(format.md5_signature.as_slice());
        match wr.write_all(md5.as_slice()) {
            Ok(()) => (),
            Err(e) => {
                return Err(e);
            },
        }
        proof {
            if writer.appending() {
                assert(md5@ =~= format.md5_signature@);
                assert(wr.sink() =~= writer.sink() + flac_header_bytes(format));
            }
        }
        Ok(FlacWriter { writer: wr, format })
    }
}

impl<W: MediaWrite> Muxer for FlacWriter<W> {
    /// Streams the packet's frame bytes verbatim.
    fn write_packet(&mut self, packet: Packet) -> (r: IoResult<()>)
        ensures
            old(self).writer.appending() ==> r is Ok && final(self).writer.sink() == old(self).writer.sink() + packet.data@ && final(self).writer.appending() && final(self).format
                == old(self).format,
    {
        self.writer.write_all(packet.data.as_slice())
    }

    fn finalize(&mut self) -> (r: IoResult<()>)
        ensures
            old(self).writer.appending() ==> r is Ok && final(self).writer.sink() == old(self).writer.sink() && final(self).writer.appending() && final(self).format == old(self).format,
    {
        self.writer.flush()
    }
}

} // verus!
