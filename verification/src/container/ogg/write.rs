use vstd::prelude::*;

use crate::io::endian;
use crate::io::error::IoResult;
use crate::io::writer::{MediaWrite, WritePrimitives};
use crate::model::packet::Packet;
use crate::model::traits::Muxer;

verus! {

/// The page check: a 32-bit cyclic redundancy check, most significant bit
/// first, polynomial 0x04C11DB7, computed with the check field zeroed.
#[verifier::loop_isolation(false)]
pub fn ogg_crc(data: &Vec<u8>) -> u32 {
    let mut crc: u32 = 0;
    let mut i: usize = 0;
    let n = data.len();
    while i < n
        invariant
            n == data@.len(),
        decreases n - i,
    {
        crc = crc ^ ((data[i] as u32) * 0x100_0000);
        let mut bit: u8 = 0;
        while bit < 8
            decreases 8 - bit,
        {
            crc = if crc >= 0x8000_0000 {
                (((crc as u64 * 2) % 0x1_0000_0000) as u32) ^ 0x04C1_1DB7
            } else {
                ((crc as u64 * 2) % 0x1_0000_0000) as u32
            };
            bit = bit + 1;
        }
        i = i + 1;
    }
    crc
}

/// One page as the writer lays it out: the `OggS` capture pattern, version
/// zero, a plain header type, the granule position and then the serial,
/// sequence and check words little-endian, the segment table cutting the
/// payload into laces of at most 255 bytes, and the payload itself.
pub open spec fn ogg_page_bytes(
    payload: Seq<u8>,
    granule: u64,
    serial: u32,
    seqno: u32,
    crc: u32,
) -> Seq<u8> {
    let n = payload.len() as int;
    let full = n / 255;
    let tail = n % 255;
    seq![0x4Fu8, 0x67u8, 0x67u8, 0x53u8, 0u8, 0u8] + Seq::new(
        8,
        |i: int| endian::be64_bytes(granule)[7 - i],
    ) + endian::le32_bytes(serial) + endian::le32_bytes(seqno) + endian::le32_bytes(crc) + seq![
        (full + 1) as u8,
    ] + Seq::new(full as nat, |i: int| 255u8) + seq![tail as u8] + payload
}

/// Writes each packet as one page under a fixed bitstream serial, with
/// monotonic page sequence numbers and the packet bytes re-cut into laces
/// of at most 255 bytes.
pub struct OggWriter<W> {
    pub writer: W,
    pub bitstream_serial: u32,
    pub page_sequence: u32,
    pub granule: u64,
}

impl<W: MediaWrite> OggWriter<W> {
    pub fn new(writer: W, bitstream_serial: u32) -> (r: IoResult<OggWriter<W>>)
        ensures
            r matches Ok(w) && w.writer == writer && w.bitstream_serial == bitstream_serial
                && w.page_sequence == 0,
    {
        Ok(OggWriter { writer, bitstream_serial, page_sequence: 0, granule: 0 })
    }
}

impl<W: MediaWrite> Muxer for OggWriter<W> {
    /// One page: capture pattern, version, type, granule, serial, sequence,
    /// check, the segment table, then the packet bytes. The page grows the
    /// sink by exactly those bytes and the sequence number advances.
    #[verifier::loop_isolation(false)]
    #[verifier::rlimit(100)]
    fn write_packet(&mut self, packet: Packet) -> (r: IoResult<()>)
        ensures
            final(self).bitstream_serial == old(self).bitstream_serial,
            old(self).writer.appending() ==> {
                &&& (r is Ok <==> packet.data@.len() < 255 * 255)
                &&& (r is Ok ==> {
                    &&& final(self).writer.appending()
                    &&& final(self).page_sequence == (if old(self).page_sequence < u32::MAX {
                        old(self).page_sequence + 1
                    } else {
                        u32::MAX as int
                    })
                    &&& exists|crc: u32|
                        final(self).writer.sink() == old(self).writer.sink() + ogg_page_bytes(
                            packet.data@,
                            old(self).granule,
                            old(self).bitstream_serial,
                            old(self).page_sequence,
                            crc,
                        )
                })
            },
    {
        let n = packet.data.len();
        if n >= 255 * 255 {
            // the segment table holds at most 255 lacing values
            return Err(crate::io::error::IoError::invalid_data("packet too large for one page"));
        }
        let ghost granule0 = self.granule;
        let ghost serial0 = self.bitstream_serial;
        let ghost seqno0 = self.page_sequence;
        let full_laces = n / 255;
        let tail = n % 255;
        let nsegs = full_laces + 1;
        let mut page: Vec<u8> = Vec::new();
        page.push(0x4F);
        page.push(0x67);
        page.push(0x67);
        page.push(0x53);
        page.push(0);
        page.push(0);
        let ghost hdr6 = seq![0x4Fu8, 0x67u8, 0x67u8, 0x53u8, 0u8, 0u8];
        proof {
            assert(page@ =~= hdr6);
        }
        // the granule position: the running packet count stands in
        let g = endian::u64_to_be(self.granule);
        let mut k: usize = 8;
        while k > 0
            invariant
                k <= 8,
                g@.len() == 8,
                g@ == endian::be64_bytes(granule0),
                page@ == hdr6 + Seq::new((8 - k) as nat, |i: int| endian::be64_bytes(granule0)[7 - i]),
            decreases k,
        {
            k = k - 1;
            page.push(g[k]);
            proof {
                assert(page@ =~= hdr6 + Seq::new(
                    (8 - k) as nat,
                    |i: int| endian::be64_bytes(granule0)[7 - i],
                ));
            }
        }
        let ghost hdr14 = hdr6 + Seq::new(8, |i: int| endian::be64_bytes(granule0)[7 - i]);
        let (s0, s1, s2, s3) = endian::u32_to_le(self.bitstream_serial);
        page.push(s0);
        page.push(s1);
        page.push(s2);
        page.push(s3);
        let (q0, q1, q2, q3) = endian::u32_to_le(self.page_sequence);
        page.push(q0);
        page.push(q1);
        page.push(q2);
        page.push(q3);
        // the check is patched in after the page is complete
        let (z0, z1, z2, z3) = endian::u32_to_le(0);
        page.push(z0);
        page.push(z1);
        page.push(z2);
        page.push(z3);
        page.push(nsegs as u8);
        let ghost hdr27 = hdr14 + endian::le32_bytes(serial0) + endian::le32_bytes(seqno0)
            + endian::le32_bytes(0u32) + seq![(n as int / 255 + 1) as u8];
        proof {
            assert(page@ =~= hdr27);
        }
        let mut s: usize = 0;
        while s < full_laces
            invariant
                full_laces == n as int / 255,
                s <= full_laces,
                page@ == hdr27 + Seq::new(s as nat, |i: int| 255u8),
            decreases full_laces - s,
        {
            page.push(255);
            s = s + 1;
            proof {
                assert(page@ =~= hdr27 + Seq::new(s as nat, |i: int| 255u8));
            }
        }
        page.push(tail as u8);
        proof {
            assert(page@ =~= hdr27 + Seq::new((n as int / 255) as nat, |i: int| 255u8) + seq![
                (n as int % 255) as u8,
            ]);
        }
        let mut body = packet.data;
        let ghost payload0 = body@;
        page.append(&mut body);
        let ghost prepatch = hdr27 + Seq::new((n as int / 255) as nat, |i: int| 255u8) + seq![
            (n as int % 255) as u8,
        ] + payload0;
        proof {
            assert(page@ =~= prepatch);
        }
        let crc = ogg_crc(&page);
        let (c0, c1, c2, c3) = endian::u32_to_le(crc);
        if page.len() > 25 {
            page.set(22, c0);
            page.set(23, c1);
            page.set(24, c2);
            page.set(25, c3);
        }
        proof {
            assert(page@ =~= prepatch.update(22, c0).update(23, c1).update(24, c2).update(25, c3));
            assert(page@ =~= ogg_page_bytes(payload0, granule0, serial0, seqno0, crc));
            assert(payload0 == packet.data@);
        }
        match self.writer.write_all(page.as_slice()) {
            Ok(()) => (),
            Err(e) => {
                return Err(e);
            },
        }
        self.page_sequence = match self.page_sequence.checked_add(1) {
            Some(v) => v,
            None => u32::MAX,
        };
        self.granule = match self.granule.checked_add(1) {
            Some(v) => v,
            None => u64::MAX,
        };
        Ok(())
    }

    fn finalize(&mut self) -> (r: IoResult<()>)
        ensures
            old(self).writer.appending() ==> r is Ok && final(self).writer.sink() == old(self).writer.sink() && final(self).writer.appending(),
    {
        self.writer.flush()
    }
}

} // verus!
