use crate::command::{Command, RESPONSE_FLAG};
use crate::error::Error;
use vstd::prelude::*;
use vstd::slice::{slice_subrange, slice_to_vec};

verus! {

/// The bytes before the payload of a frame: the command byte and two length
/// bytes.
pub const FRAME_HEADER_SIZE: usize = 3;

/// The longest payload that the two length bytes can announce.
pub const MAX_PAYLOAD_SIZE: usize = 0xffff;

/// A request or a response on the wire: a command byte, then the length of
/// the payload in two bytes, high byte first, then the payload.
#[derive(Clone, Debug, PartialEq, Eq)]
pub struct Frame {
    pub opcode: u8,
    pub payload: Vec<u8>,
}

/// The bytes of the frame with a given command byte and payload.
pub open spec fn frame_bytes(opcode: u8, payload: Seq<u8>) -> Seq<u8> {
    seq![opcode, (payload.len() / 256) as u8, (payload.len() % 256) as u8] + payload
}

/// The payload length that the header of a frame announces.
pub open spec fn announced_len(bytes: Seq<u8>) -> int {
    bytes[1] as int * 256 + bytes[2] as int
}

/// Whether `bytes` start with a whole frame: a header and as many payload
/// bytes as it announces.
pub open spec fn starts_with_frame(bytes: Seq<u8>) -> bool {
    bytes.len() >= FRAME_HEADER_SIZE && bytes.len() >= FRAME_HEADER_SIZE + announced_len(bytes)
}

impl Frame {
    /// The bytes of this frame, where its payload is short enough.
    pub open spec fn spec_bytes(&self) -> Seq<u8> {
        frame_bytes(self.opcode, self.payload@)
    }

    /// The command that the command byte stands for.
    pub fn command(&self) -> (cmd: Command)
        ensures
            cmd == Command::spec_from_code(self.opcode as u32),
    {
        Command::from_byte(self.opcode)
    }

    /// Whether the frame is a response: whether the top bit of its command
    /// byte is set.
    pub fn is_response(&self) -> (b: bool)
        ensures
            b == (self.opcode & RESPONSE_FLAG != 0),
            b == (self.opcode >= 0x80),
    {
        let op: u8 = self.opcode;
        assert((op & 0x80 != 0) == (op >= 0x80)) by (bit_vector);
        self.opcode & RESPONSE_FLAG != 0
    }

    /// A frame for a command and its payload.
    pub fn new(command: Command, payload: Vec<u8>) -> (frame: Frame)
        ensures
            frame.opcode == command.spec_byte(),
            frame.payload == payload,
    {
        Frame { opcode: command.byte(), payload }
    }

    /// Writes the frame. Fails, with `PayloadTooLong`, exactly when the
    /// payload has more than 65535 bytes.
    pub fn encode(&self) -> (r: Result<Vec<u8>, Error>)
        ensures
            self.payload@.len() <= MAX_PAYLOAD_SIZE ==> r is Ok && r->Ok_0@ == self.spec_bytes(),
            self.payload@.len() > MAX_PAYLOAD_SIZE ==> r == Err::<Vec<u8>, Error>(
                Error::PayloadTooLong,
            ),
    {
        let len: usize = self.payload.len();
        if len > MAX_PAYLOAD_SIZE {
            return Err(Error::PayloadTooLong);
        }
        let mut out: Vec<u8> = Vec::new();
        out.push(self.opcode);
        out.push((len / 256) as u8);
        out.push((len % 256) as u8);
        let mut i: usize = 0;
        while i < len
            invariant
                i <= len,
                len == self.payload@.len(),
                out@ == seq![self.opcode, (len / 256) as u8, (len % 256) as u8]
                    + self.payload@.take(i as int),
            decreases len - i,
        {
            out.push(self.payload[i]);
            proof {
                assert(self.payload@.take(i + 1) =~= self.payload@.take(i as int).push(
                    self.payload@[i as int],
                ));
            }
            i = i + 1;
        }
        proof {
            assert(self.payload@.take(len as int) =~= self.payload@);
        }
        Ok(out)
    }

    /// Reads the frame at the start of `bytes`, and says how many bytes it
    /// took. Fails, with `Truncated`, exactly when the bytes end before the
    /// header does, or before the payload that the header announces. Bytes
    /// after the frame are left alone.
    pub fn decode(bytes: &[u8]) -> (r: Result<(Frame, usize), Error>)
        ensures
            !starts_with_frame(bytes@) ==> r == Err::<(Frame, usize), Error>(Error::Truncated),
            starts_with_frame(bytes@) ==> r is Ok && ({
                let (frame, used) = r->Ok_0;
                &&& used == FRAME_HEADER_SIZE + announced_len(bytes@)
                &&& frame.opcode == bytes@[0]
                &&& frame.payload@ == bytes@.subrange(FRAME_HEADER_SIZE as int, used as int)
            }),
    {
        if bytes.len() < FRAME_HEADER_SIZE {
            return Err(Error::Truncated);
        }
        let len: usize = (bytes[1] as usize) * 256 + (bytes[2] as usize);
        if bytes.len() - FRAME_HEADER_SIZE < len {
            return Err(Error::Truncated);
        }
        let used: usize = FRAME_HEADER_SIZE + len;
        let payload = slice_to_vec(slice_subrange(bytes, FRAME_HEADER_SIZE, used));
        Ok((Frame { opcode: bytes[0], payload }, used))
    }
}

/// Reading what was written gives the frame back, whatever follows it: the
/// same command byte, the same payload, and the length of what was written.
pub proof fn lemma_frame_round_trip(opcode: u8, payload: Seq<u8>, rest: Seq<u8>)
    requires
        payload.len() <= MAX_PAYLOAD_SIZE,
    ensures
        starts_with_frame(frame_bytes(opcode, payload) + rest),
        announced_len(frame_bytes(opcode, payload) + rest) == payload.len(),
        (frame_bytes(opcode, payload) + rest)[0] == opcode,
        (frame_bytes(opcode, payload) + rest).subrange(
            FRAME_HEADER_SIZE as int,
            FRAME_HEADER_SIZE + payload.len(),
        ) == payload,
{
    let bytes = frame_bytes(opcode, payload) + rest;
    let n = payload.len();
    assert(bytes[1] == (n / 256) as u8);
    assert(bytes[2] == (n % 256) as u8);
    assert(bytes.subrange(FRAME_HEADER_SIZE as int, FRAME_HEADER_SIZE + n) =~= payload);
}

/// Writing what was read gives the bytes that were read back.
pub proof fn lemma_frame_bytes_round_trip(bytes: Seq<u8>)
    requires
        starts_with_frame(bytes),
    ensures
        frame_bytes(
            bytes[0],
            bytes.subrange(FRAME_HEADER_SIZE as int, FRAME_HEADER_SIZE + announced_len(bytes)),
        ) == bytes.take(FRAME_HEADER_SIZE + announced_len(bytes)),
{
    let n = announced_len(bytes);
    let payload = bytes.subrange(FRAME_HEADER_SIZE as int, FRAME_HEADER_SIZE + n);
    assert(payload.len() == n);
    assert(n / 256 == bytes[1] as int && n % 256 == bytes[2] as int);
    assert(frame_bytes(bytes[0], payload) =~= bytes.take(FRAME_HEADER_SIZE + n));
}

} // verus!
