//! Packets and the frames that carry them on a byte stream.
//!
//! A frame is a six-byte header followed by the packet's data. The header
//! holds the frame's total size (header included), the packet's command, and
//! a reserved word that is written as zero and ignored when read; all three
//! are little-endian `u16`s.

use vstd::prelude::*;
use crate::field::{DecodeError, u16_le, rest_of, lemma_u16_round_trip, lemma_take_concat};

verus! {

pub const HEADER_SIZE: usize = 6;

/// The largest frame the `u16` size word can describe.
pub const MAX_FRAME_SIZE: usize = 65535;

/// One packet: a command and the payload it carries.
#[derive(Clone, Debug)]
pub struct Packet {
    pub command: u16,
    pub data: Vec<u8>,
}

/// The frame carrying a packet with this command and data.
pub open spec fn frame_bytes(command: u16, data: Seq<u8>) -> Seq<u8> {
    u16_le((data.len() + 6) as u16) + u16_le(command) + u16_le(0) + data
}

/// A packet fits in a frame when its size word can hold the frame's size.
pub open spec fn fits_in_frame(data: Seq<u8>) -> bool {
    data.len() + HEADER_SIZE <= MAX_FRAME_SIZE
}

pub open spec fn le_at(b: Seq<u8>, i: int) -> int {
    b[i] + 256 * b[i + 1]
}

/// What the start of a stream's buffer holds: `Ok(None)` while the first
/// frame is incomplete, else that frame's command, data and size.
pub open spec fn next_frame(b: Seq<u8>) -> Result<Option<(u16, Seq<u8>, nat)>, DecodeError> {
    if b.len() < HEADER_SIZE {
        Ok(None)
    } else if le_at(b, 0) < HEADER_SIZE {
        Err(DecodeError::Malformed)
    } else if b.len() < le_at(b, 0) {
        Ok(None)
    } else {
        Ok(Some((le_at(b, 2) as u16, b.subrange(HEADER_SIZE as int, le_at(b, 0)), le_at(b, 0) as nat)))
    }
}

/// Frames a packet; fails exactly when it does not fit in a frame.
pub fn encode_frame(packet: &Packet) -> (r: Option<Vec<u8>>)
    ensures
        r is Some <==> fits_in_frame(packet.data@),
        r matches Some(b) ==> b@ == frame_bytes(packet.command, packet.data@),
{
    if packet.data.len() > MAX_FRAME_SIZE - HEADER_SIZE {
        return None;
    }
    let size: u16 = (packet.data.len() + HEADER_SIZE) as u16;
    let mut out: Vec<u8> = Vec::new();
    out.push((size % 256) as u8);
    out.push((size / 256) as u8);
    out.push((packet.command % 256) as u8);
    out.push((packet.command / 256) as u8);
    out.push(0);
    out.push(0);
    let mut i: usize = 0;
    while i < packet.data.len()
        invariant
            i <= packet.data@.len(),
            out@ == u16_le(size) + u16_le(packet.command) + u16_le(0) + packet.data@.take(i as int),
        decreases packet.data@.len() - i,
    {
        out.push(packet.data[i]);
        assert(packet.data@.take(i + 1) =~= packet.data@.take(i as int).push(packet.data@[i as int]));
        i += 1;
    }
    assert(packet.data@.take(i as int) =~= packet.data@);
    Some(out)
}

/// Reassembles frames from the bytes of a stream as they arrive.
pub struct FrameReader {
    buffer: Vec<u8>,
}

impl View for FrameReader {
    type V = Seq<u8>;

    /// The bytes received and not yet handed out as packets.
    closed spec fn view(&self) -> Seq<u8> {
        self.buffer@
    }
}

impl FrameReader {
    pub fn new() -> (r: FrameReader)
        ensures
            r@ == Seq::<u8>::empty(),
    {
        FrameReader { buffer: Vec::new() }
    }

    /// Takes in bytes read from the stream.
    pub fn push_bytes(&mut self, bytes: &[u8])
        ensures
            final(self)@ == old(self)@ + bytes@,
    {
        let mut i: usize = 0;
        while i < bytes.len()
            invariant
                i <= bytes@.len(),
                self@ == old(self)@ + bytes@.take(i as int),
            decreases bytes@.len() - i,
        {
            self.buffer.push(bytes[i]);
            assert(bytes@.take(i + 1) =~= bytes@.take(i as int).push(bytes@[i as int]));
            i += 1;
        }
        assert(bytes@.take(i as int) =~= bytes@);
    }

    /// Hands out the first frame's packet once all of it has arrived, and
    /// drops its bytes. A size word smaller than the header is an error, and
    /// the buffer is then left as it was.
    pub fn next_packet(&mut self) -> (r: Result<Option<Packet>, DecodeError>)
        ensures
            match next_frame(old(self)@) {
                Err(e) => r == Err::<Option<Packet>, DecodeError>(e) && final(self)@ == old(self)@,
                Ok(None) => r matches Ok(None) && final(self)@ == old(self)@,
                Ok(Some((command, data, size))) => r matches Ok(Some(p)) && p.command == command
                    && p.data@ == data && final(self)@ == rest_of(old(self)@, size as int),
            },
    {
        if self.buffer.len() < HEADER_SIZE {
            return Ok(None);
        }
        let size: usize = self.buffer[0] as usize + 256 * (self.buffer[1] as usize);
        if size < HEADER_SIZE {
            return Err(DecodeError::Malformed);
        }
        if self.buffer.len() < size {
            return Ok(None);
        }
        let command: u16 = self.buffer[2] as u16 + 256 * (self.buffer[3] as u16);
        let mut data: Vec<u8> = Vec::new();
        let mut i: usize = HEADER_SIZE;
        while i < size
            invariant
                HEADER_SIZE <= i <= size <= self.buffer@.len(),
                data@ == self.buffer@.subrange(HEADER_SIZE as int, i as int),
            decreases size - i,
        {
            data.push(self.buffer[i]);
            assert(self.buffer@.subrange(HEADER_SIZE as int, i + 1) =~= self.buffer@.subrange(
                HEADER_SIZE as int,
                i as int,
            ).push(self.buffer@[i as int]));
            i += 1;
        }
        let mut rest: Vec<u8> = Vec::new();
        let mut j: usize = size;
        while j < self.buffer.len()
            invariant
                size <= j <= self.buffer@.len(),
                rest@ == self.buffer@.subrange(size as int, j as int),
            decreases self.buffer@.len() - j,
        {
            rest.push(self.buffer[j]);
            assert(self.buffer@.subrange(size as int, j + 1) =~= self.buffer@.subrange(
                size as int,
                j as int,
            ).push(self.buffer@[j as int]));
            j += 1;
        }
        self.buffer = rest;
        Ok(Some(Packet { command, data }))
    }

    /// At the end of the stream: fails when part of a frame is still waiting.
    pub fn finish(&self) -> (r: Result<(), DecodeError>)
        ensures
            r is Ok <==> self@.len() == 0,
            r is Err ==> r == Err::<(), DecodeError>(DecodeError::Truncated),
    {
        if self.buffer.len() == 0 {
            Ok(())
        } else {
            Err(DecodeError::Truncated)
        }
    }
}

/// A frame followed by more bytes yields its own packet and size.
pub proof fn lemma_frame_round_trip(command: u16, data: Seq<u8>, rest: Seq<u8>)
    requires
        fits_in_frame(data),
    ensures
        next_frame(frame_bytes(command, data) + rest) == Ok::<
            Option<(u16, Seq<u8>, nat)>,
            DecodeError,
        >(Some((command, data, frame_bytes(command, data).len()))),
        rest_of(frame_bytes(command, data) + rest, frame_bytes(command, data).len() as int)
            == rest,
{
    let size = (data.len() + 6) as u16;
    let f = frame_bytes(command, data);
    let b = f + rest;
    lemma_u16_round_trip(size, seq![]);
    lemma_u16_round_trip(command, seq![]);
    assert(b[0] == u16_le(size)[0]);
    assert(b[1] == u16_le(size)[1]);
    assert(b[2] == u16_le(command)[0]);
    assert(b[3] == u16_le(command)[1]);
    assert((u16_le(size) + seq![])[0] == u16_le(size)[0]);
    assert((u16_le(size) + seq![])[1] == u16_le(size)[1]);
    assert((u16_le(command) + seq![])[0] == u16_le(command)[0]);
    assert((u16_le(command) + seq![])[1] == u16_le(command)[1]);
    assert(le_at(b, 0) == size);
    assert(le_at(b, 2) == command);
    assert(b.subrange(6, le_at(b, 0)) =~= data);
    assert(rest_of(b, f.len() as int) =~= rest);
}

/// A frame cut short at any point is still waiting for bytes, so no packet
/// comes out of it, and at the end of the stream it is an error.
pub proof fn lemma_frame_truncated(command: u16, data: Seq<u8>, k: int)
    requires
        fits_in_frame(data),
        0 <= k < frame_bytes(command, data).len(),
    ensures
        next_frame(frame_bytes(command, data).take(k)) == Ok::<
            Option<(u16, Seq<u8>, nat)>,
            DecodeError,
        >(None),
{
    let f = frame_bytes(command, data);
    let t = f.take(k);
    lemma_frame_round_trip(command, data, seq![]);
    assert(f + seq![] =~= f);
    if k >= HEADER_SIZE {
        assert(t[0] == f[0]);
        assert(t[1] == f[1]);
        assert(le_at(t, 0) == le_at(f, 0));
    }
}

} // verus!
