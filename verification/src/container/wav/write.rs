use vstd::prelude::*;

use crate::container::wav::{wav_file_bytes, wav_header_bytes, WavFormat};
use crate::io::error::{IoError, IoResult};
use crate::io::writer::{MediaWrite, PatchSink, WritePrimitives};
use crate::model::packet::Packet;
use crate::model::traits::Muxer;

verus! {

/// Writes a WAV file in streaming order: construction emits the canonical
/// 44-byte header with zero size fields, each packet's payload goes to the
/// sink at once, and `finalize` back-patches the `RIFF` size at offset 4
/// and the `data` size at offset 40. State held between calls is a byte
/// counter, never the payload itself.
pub struct WavWriter<W> {
    pub writer: W,
    pub format: WavFormat,
    pub data_bytes: u64,
    pub hdr: Ghost<u32>,
}

impl<W: PatchSink> WavWriter<W> {
    /// The header fields derived from the format fit their slots, the sink
    /// still accepts appends, and it holds the header (with whichever data
    /// size was last stamped into it) followed by the payload so far.
    pub open spec fn wf(&self) -> bool {
        &&& (self.format.bit_depth / 8) * self.format.channels <= u16::MAX
        &&& self.format.sample_rate * ((self.format.bit_depth / 8) * self.format.channels)
            <= u32::MAX
        &&& self.writer.appending()
        &&& self.writer.sink().len() == 44 + self.data_bytes
        &&& self.writer.sink().take(44) == wav_header_bytes(self.format, self.hdr@)
    }

    /// The payload bytes delivered so far: everything past the header.
    pub open spec fn payload_view(&self) -> Seq<u8> {
        self.writer.sink().skip(44)
    }

    /// Emits the 44-byte header with both size fields zero, to be patched
    /// by `finalize`; rejects a format whose byte rate or frame size would
    /// not fit the header fields.
    pub fn new(writer: W, format: WavFormat) -> (r: IoResult<WavWriter<W>>)
        ensures
            writer.appending() && writer.sink() == Seq::<u8>::empty() ==> {
                &&& (r is Ok <==> (format.bit_depth / 8) * format.channels <= u16::MAX
                    && format.sample_rate * ((format.bit_depth / 8) * format.channels)
                    <= u32::MAX)
                &&& (r matches Ok(w) ==> w.wf() && w.format == format && w.data_bytes == 0
                    && w.hdr@ == 0 && w.writer.sink() == wav_header_bytes(format, 0)
                    && w.payload_view() == Seq::<u8>::empty())
            },
    {
        proof {
            vstd::arithmetic::mul::lemma_mul_upper_bound(
                format.bit_depth as int / 8,
                8191,
                format.channels as int,
                255,
            );
        }
        let block_align: u64 = (format.bit_depth as u64 / 8) * format.channels as u64;
        if block_align > u16::MAX as u64 {
            return Err(IoError::invalid_data("sample frame too large for WAV header"));
        }
        proof {
            vstd::arithmetic::mul::lemma_mul_upper_bound(
                format.sample_rate as int,
                u32::MAX as int,
                block_align as int,
                u16::MAX as int,
            );
        }
        let byte_rate: u64 = format.sample_rate as u64 * block_align;
        if byte_rate > u32::MAX as u64 {
            return Err(IoError::invalid_data("byte rate too large for WAV header"));
        }
        let mut sink = writer;
        match write_header(&mut sink, format, 0) {
            Ok(()) => (),
            Err(e) => {
                return Err(e);
            },
        }
        let w = WavWriter { writer: sink, format, data_bytes: 0, hdr: Ghost(0u32) };
        proof {
            if writer.appending() && writer.sink() =~= Seq::<u8>::empty() {
                assert(w.writer.sink() =~= wav_header_bytes(format, 0));
                assert(w.writer.sink().take(44) =~= wav_header_bytes(format, 0));
                assert(w.payload_view() =~= Seq::<u8>::empty());
            }
        }
        Ok(w)
    }

    pub fn into_inner(self) -> (r: W)
        ensures
            r == self.writer,
    {
        self.writer
    }
}

impl<W: PatchSink> Muxer for WavWriter<W> {
    /// Forwards the packet's bytes to the sink and counts them toward the
    /// size fields `finalize` will stamp.
    fn write_packet(&mut self, packet: Packet) -> (r: IoResult<()>)
        ensures
            old(self).wf() ==> {
                &&& (r is Ok <==> old(self).data_bytes + packet.data@.len() <= u64::MAX)
                &&& (r is Ok ==> final(self).wf() && final(self).format == old(self).format
                    && final(self).hdr == old(self).hdr
                    && final(self).data_bytes == old(self).data_bytes + packet.data@.len()
                    && final(self).payload_view() == old(self).payload_view() + packet.data@)
            },
    {
        let len = packet.data.len();
        if self.data_bytes > u64::MAX - len as u64 {
            return Err(IoError::invalid_data("payload too large for WAV"));
        }
        match self.writer.write_all(packet.data.as_slice()) {
            Ok(()) => (),
            Err(e) => {
                return Err(e);
            },
        }
        self.data_bytes = self.data_bytes + len as u64;
        proof {
            if old(self).wf() {
                assert(self.writer.sink().take(44) =~= old(self).writer.sink().take(44));
                assert(self.payload_view() =~= old(self).payload_view() + packet.data@);
            }
        }
        Ok(())
    }

    /// Stamps the real sizes into the header written at construction: the
    /// `RIFF` size at offset 4 and the `data` size at offset 40. The sink
    /// is then the canonical file for the payload delivered so far, and a
    /// repeated call stamps the same values again.
    fn finalize(&mut self) -> (r: IoResult<()>)
        ensures
            old(self).wf() ==> {
                &&& (r is Ok <==> old(self).data_bytes + 36 <= u32::MAX)
                &&& (r is Ok ==> final(self).wf() && final(self).format == old(self).format
                    && final(self).data_bytes == old(self).data_bytes
                    && final(self).hdr@ == old(self).data_bytes
                    && final(self).payload_view() == old(self).payload_view()
                    && final(self).writer.sink() == wav_file_bytes(old(self).format, old(self).payload_view()))
            },
    {
        let d = self.data_bytes;
        if d > (u32::MAX - 36) as u64 {
            return Err(IoError::invalid_data("payload too large for WAV size field"));
        }
        let ds: u32 = d as u32;
        let ghost sink0 = self.writer.sink();
        match self.writer.patch_u32_le(4, 36 + ds) {
            Ok(()) => (),
            Err(e) => {
                return Err(e);
            },
        }
        let ghost sink1 = self.writer.sink();
        match self.writer.patch_u32_le(40, ds) {
            Ok(()) => (),
            Err(e) => {
                return Err(e);
            },
        }
        match self.writer.flush() {
            Ok(()) => (),
            Err(e) => {
                return Err(e);
            },
        }
        self.hdr = Ghost(ds);
        proof {
            if old(self).wf() {
                let f = old(self).format;
                let p = old(self).payload_view();
                assert(sink0 =~= wav_header_bytes(f, old(self).hdr@) + p);
                assert(self.writer.sink() =~= wav_header_bytes(f, ds) + p);
                assert(self.writer.sink().take(44) =~= wav_header_bytes(f, ds));
                assert(self.payload_view() =~= p);
                assert(p.len() == old(self).data_bytes);
            }
        }
        Ok(())
    }
}

/// The canonical 44-byte header for the format, with `data_size` stamped
/// into both size fields.
#[verifier::loop_isolation(false)]
fn write_header<W: MediaWrite>(writer: &mut W, format: WavFormat, data_size: u32) -> (r: IoResult<
    (),
>)
    requires
        (format.bit_depth / 8) * format.channels <= u16::MAX,
        format.sample_rate * ((format.bit_depth / 8) * format.channels) <= u32::MAX,
        data_size + 36 <= u32::MAX,
    ensures
        old(writer).appending() ==> r is Ok && final(writer).sink() == old(writer).sink()
            + wav_header_bytes(format, data_size) && final(writer).appending(),
{
    let ghost sink0 = writer.sink();
    let riff: Vec<u8> = vec![0x52u8, 0x49u8, 0x46u8, 0x46u8];
    match writer.write_all(riff.as_slice()) {
        Ok(()) => (),
        Err(e) => {
            return Err(e);
        },
    }
    match writer.write_u32_le(36 + data_size) {
        Ok(()) => (),
        Err(e) => {
            return Err(e);
        },
    }
    let wave_fmt: Vec<u8> = vec![0x57u8, 0x41u8, 0x56u8, 0x45u8, 0x66u8, 0x6du8, 0x74u8, 0x20u8];
    match writer.write_all(wave_fmt.as_slice()) {
        Ok(()) => (),
        Err(e) => {
            return Err(e);
        },
    }
    match writer.write_u32_le(16) {
        Ok(()) => (),
        Err(e) => {
            return Err(e);
        },
    }
    match writer.write_u16_le(1) {
        Ok(()) => (),
        Err(e) => {
            return Err(e);
        },
    }
    match writer.write_u16_le(format.channels as u16) {
        Ok(()) => (),
        Err(e) => {
            return Err(e);
        },
    }
    match writer.write_u32_le(format.sample_rate) {
        Ok(()) => (),
        Err(e) => {
            return Err(e);
        },
    }
    let block_align: u64 = (format.bit_depth as u64 / 8) * format.channels as u64;
    let byte_rate: u64 = format.sample_rate as u64 * block_align;
    match writer.write_u32_le(byte_rate as u32) {
        Ok(()) => (),
        Err(e) => {
            return Err(e);
        },
    }
    match writer.write_u16_le(block_align as u16) {
        Ok(()) => (),
        Err(e) => {
            return Err(e);
        },
    }
    match writer.write_u16_le(format.bit_depth) {
        Ok(()) => (),
        Err(e) => {
            return Err(e);
        },
    }
    let data_tag: Vec<u8> = vec![0x64u8, 0x61u8, 0x74u8, 0x61u8];
    match writer.write_all(data_tag.as_slice()) {
        Ok(()) => (),
        Err(e) => {
            return Err(e);
        },
    }
    match writer.write_u32_le(data_size) {
        Ok(()) => (),
        Err(e) => {
            return Err(e);
        },
    }
    proof {
        if old(writer).appending() {
            assert(riff@ =~= seq![0x52u8, 0x49u8, 0x46u8, 0x46u8]);
            assert(wave_fmt@ =~= seq![
                0x57u8,
                0x41u8,
                0x56u8,
                0x45u8,
                0x66u8,
                0x6du8,
                0x74u8,
                0x20u8,
            ]);
            assert(data_tag@ =~= seq![0x64u8, 0x61u8, 0x74u8, 0x61u8]);
            assert(seq![0x57u8, 0x41u8, 0x56u8, 0x45u8, 0x66u8, 0x6du8, 0x74u8, 0x20u8] =~= seq![
                0x57u8,
                0x41u8,
                0x56u8,
                0x45u8,
            ] + seq![0x66u8, 0x6du8, 0x74u8, 0x20u8]);
            assert(writer.sink() =~= sink0 + wav_header_bytes(format, data_size));
        }
    }
    Ok(())
}

} // verus!
