//! ISO-TP (ISO 15765-2) frame layout: the four frame types, their byte
//! encodings, and the separation-time encoding used in flow control.
use vstd::prelude::*;
use crate::error::Error;

verus! {

/// The largest payload that one ISO-TP message can carry.
pub const MAX_PAYLOAD: usize = 4095;

/// Session parameters of one ISO-TP link.
#[derive(Debug, Clone, Copy, PartialEq, Eq, Structural)]
pub struct Options {
    /// CAN id that frames are transmitted on.
    pub source_id: u32,
    /// CAN id that frames are received on.
    pub dest_id: u32,
    /// Budget for each wait on the peer, in microseconds.
    pub timeout_us: u64,
}

impl Options {
    /// Options for the diagnostic convention: replies come on `source_id + 8`.
    pub fn for_server(source_id: u16, timeout_us: u64) -> (r: Options)
        ensures
            r.source_id == source_id,
            r.dest_id == source_id + 8,
            r.timeout_us == timeout_us,
    {
        Options { source_id: source_id as u32, dest_id: source_id as u32 + 8, timeout_us }
    }
}

impl Default for Options {
    fn default() -> (r: Options)
        ensures
            r.source_id == 0x7E0,
            r.dest_id == 0x7E8,
            r.timeout_us == 1_000_000,
    {
        Options { source_id: 0x7E0, dest_id: 0x7E8, timeout_us: 1_000_000 }
    }
}

/// The type of an ISO-TP frame, held in the high nibble of its first byte.
#[derive(Debug, Clone, Copy, PartialEq, Eq, Structural)]
pub enum FrameType {
    Single,
    First,
    Consecutive,
    Flow,
}

/// The flag of a flow-control frame.
#[derive(Debug, Clone, Copy, PartialEq, Eq, Structural)]
pub enum FCFlag {
    Continue,
    Wait,
    Overflow,
}

pub open spec fn fc_flag_code(flag: FCFlag) -> u8 {
    match flag {
        FCFlag::Continue => 0,
        FCFlag::Wait => 1,
        FCFlag::Overflow => 2,
    }
}

impl FCFlag {
    /// The value of the flag in the low nibble of a flow-control frame.
    pub fn code(&self) -> (r: u8)
        ensures
            r == fc_flag_code(*self),
    {
        match self {
            FCFlag::Continue => 0,
            FCFlag::Wait => 1,
            FCFlag::Overflow => 2,
        }
    }
}

/// A decoded flow-control frame; the separation time is normalised to microseconds.
#[derive(Debug, Clone, Copy, PartialEq, Eq, Structural)]
pub struct FlowControlFrame {
    pub flag: FCFlag,
    pub block_size: u8,
    pub separation_us: u64,
}

/// Microseconds that a separation-time byte stands for.
pub open spec fn st_micros(st: u8) -> u64 {
    if st <= 0x7F {
        (st as u64 * 1000) as u64
    } else if 0xF1 <= st && st <= 0xF9 {
        ((st - 0xF0) as u64 * 100) as u64
    } else {
        0
    }
}

/// The separation-time byte used to ask for a pause of `us` microseconds.
pub open spec fn st_byte(us: u64) -> u8 {
    if us == 0 || us >= 1000 {
        if us / 1000 >= 127 { 127 } else { (us / 1000) as u8 }
    } else if us < 100 {
        0xF1
    } else {
        (0xF0 + us / 100) as u8
    }
}

/// Decodes a separation-time byte: `0..=0x7F` are milliseconds, `0xF1..=0xF9`
/// are hundreds of microseconds, every other value is reserved and means no pause.
pub fn st_to_duration(st: u8) -> (r: u64)
    ensures
        r == st_micros(st),
{
    if st <= 0x7F {
        st as u64 * 1000
    } else if 0xF1 <= st && st <= 0xF9 {
        (st - 0xF0) as u64 * 100
    } else {
        0
    }
}

/// Encodes a pause as a separation-time byte: whole milliseconds up to 127,
/// hundreds of microseconds below one millisecond.
pub fn duration_to_st(us: u64) -> (r: u8)
    ensures
        r == st_byte(us),
{
    if us == 0 || us >= 1000 {
        if us / 1000 >= 127 { 127 } else { (us / 1000) as u8 }
    } else if us < 100 {
        0xF1
    } else {
        (0xF0 + us / 100) as u8
    }
}

/// Encoding the pause that a separation-time byte stands for gives a byte
/// that stands for the same pause.
pub proof fn lemma_separation_time_round_trip(st: u8)
    ensures
        st_micros(st_byte(st_micros(st))) == st_micros(st),
{
}

/// `s` followed by zero bytes up to a length of eight.
pub open spec fn pad8(s: Seq<u8>) -> Seq<u8> {
    s + Seq::new((8 - s.len()) as nat, |i: int| 0u8)
}

/// A single frame carrying all of `p` (at most 7 bytes).
pub open spec fn single_frame_bytes(p: Seq<u8>) -> Seq<u8> {
    pad8(seq![p.len() as u8] + p)
}

/// The first frame of a message of `size` bytes that starts with `head`.
pub open spec fn first_frame_bytes(head: Seq<u8>, size: u16) -> Seq<u8> {
    pad8(seq![(0x10 + size / 256) as u8, (size % 256) as u8] + head)
}

/// A consecutive frame with sequence index `index` (mod 16) carrying `chunk`.
pub open spec fn consec_frame_bytes(chunk: Seq<u8>, index: u8) -> Seq<u8> {
    pad8(seq![(0x20 + index % 16) as u8] + chunk)
}

/// A flow-control frame.
pub open spec fn flow_frame_bytes(flag: FCFlag, block_size: u8, st: u8) -> Seq<u8> {
    pad8(seq![(0x30 + fc_flag_code(flag)) as u8, block_size, st])
}

/// The frame type named by the first byte of a frame, if any.
pub open spec fn frame_type_of(b: u8) -> Option<FrameType> {
    if b / 16 == 0 {
        Some(FrameType::Single)
    } else if b / 16 == 1 {
        Some(FrameType::First)
    } else if b / 16 == 2 {
        Some(FrameType::Consecutive)
    } else if b / 16 == 3 {
        Some(FrameType::Flow)
    } else {
        None
    }
}

/// A decoded single frame: `length` bytes of `data` are the payload.
#[derive(Debug, Clone, Copy)]
pub struct SingleFrame {
    pub length: u8,
    pub data: [u8; 7],
}

/// A decoded first frame: the message's total length and its first six bytes.
#[derive(Debug, Clone, Copy)]
pub struct FirstFrame {
    pub length: u16,
    pub data: [u8; 6],
}

/// A decoded consecutive frame: its 4-bit sequence index and seven data bytes.
#[derive(Debug, Clone, Copy)]
pub struct ConsecutiveFrame {
    pub index: u8,
    pub data: [u8; 7],
}

/// One CAN frame's worth of ISO-TP bytes, padded to eight.
#[derive(Debug, Clone, Copy)]
pub struct Frame {
    pub data: [u8; 8],
}

pub fn byte_or_zero(data: &[u8], i: usize) -> (r: u8)
    ensures
        r == if i < data@.len() { data@[i as int] } else { 0u8 },
{
    if i < data.len() {
        data[i]
    } else {
        0
    }
}

proof fn lemma_nibbles(b: u8)
    ensures
        b >> 4u8 == b / 16,
        b & 0x0Fu8 == b % 16,
        b & 0xF0u8 == (b / 16) * 16,
{
    assert(b >> 4u8 == b / 16) by (bit_vector);
    assert(b & 0x0Fu8 == b % 16) by (bit_vector);
    assert(b & 0xF0u8 == (b / 16) * 16) by (bit_vector);
}

impl SingleFrame {
    /// Decodes a single frame; its declared length must be at most 7 and
    /// covered by the bytes given.
    pub fn new(frame: &[u8]) -> (r: Result<SingleFrame, Error>)
        ensures
            r is Ok <==> frame@.len() >= 1 && frame@[0] / 16 == 0 && frame@[0] % 16 <= 7
                && frame@.len() >= 1 + frame@[0] % 16,
            r matches Ok(s) ==> s.length == frame@[0] % 16 && s.data@
                == frame@.subrange(1, 1 + s.length as int) + Seq::new(
                (7 - s.length) as nat,
                |i: int| 0u8,
            ),
            r matches Err(e) ==> e == Error::InvalidFrame,
    {
        if frame.len() == 0 {
            return Err(Error::InvalidFrame);
        }
        let b = frame[0];
        proof {
            lemma_nibbles(b);
        }
        if b >> 4 != 0 {
            return Err(Error::InvalidFrame);
        }
        let len = b & 0x0F;
        if len > 7 || frame.len() < 1 + len as usize {
            return Err(Error::InvalidFrame);
        }
        let l = len as usize;
        let data = [
            if 0 < l { frame[1] } else { 0 },
            if 1 < l { frame[2] } else { 0 },
            if 2 < l { frame[3] } else { 0 },
            if 3 < l { frame[4] } else { 0 },
            if 4 < l { frame[5] } else { 0 },
            if 5 < l { frame[6] } else { 0 },
            if 6 < l { frame[7] } else { 0 },
        ];
        let s = SingleFrame { length: len, data };
        assert(s.data@ =~= frame@.subrange(1, 1 + s.length as int) + Seq::new(
            (7 - s.length) as nat,
            |i: int| 0u8,
        ));
        Ok(s)
    }
}

impl FirstFrame {
    /// Decodes a first frame: eight bytes, type nibble 1, and a declared
    /// length of at least 8.
    pub fn new(frame: &[u8]) -> (r: Result<FirstFrame, Error>)
        ensures
            r is Ok <==> frame@.len() >= 8 && frame@[0] / 16 == 1 && (frame@[0] % 16) * 256
                + frame@[1] >= 8,
            r matches Ok(f) ==> f.length == (frame@[0] % 16) * 256 + frame@[1] && f.data@
                == frame@.subrange(2, 8),
            r matches Err(e) ==> e == Error::InvalidFrame,
    {
        if frame.len() < 8 {
            return Err(Error::InvalidFrame);
        }
        let b = frame[0];
        proof {
            lemma_nibbles(b);
        }
        if b >> 4 != 1 {
            return Err(Error::InvalidFrame);
        }
        let length: u16 = (b & 0x0F) as u16 * 256 + frame[1] as u16;
        if length < 8 {
            return Err(Error::InvalidFrame);
        }
        let f = FirstFrame {
            length,
            data: [frame[2], frame[3], frame[4], frame[5], frame[6], frame[7]],
        };
        assert(f.data@ =~= frame@.subrange(2, 8));
        Ok(f)
    }
}

impl ConsecutiveFrame {
    /// Decodes a consecutive frame (type nibble 2).
    pub fn new(frame: &Frame) -> (r: Result<ConsecutiveFrame, Error>)
        ensures
            r is Ok <==> frame.data@[0] / 16 == 2,
            r matches Ok(c) ==> c.index == frame.data@[0] % 16 && c.data@ == frame.data@.subrange(
                1,
                8,
            ),
            r matches Err(e) ==> e == Error::InvalidFrame,
    {
        let d = frame.data;
        proof {
            lemma_nibbles(d[0]);
        }
        if d[0] >> 4 != 2 {
            return Err(Error::InvalidFrame);
        }
        let c = ConsecutiveFrame { index: d[0] & 0x0F, data: [d[1], d[2], d[3], d[4], d[5], d[6], d[7]] };
        assert(c.data@ =~= frame.data@.subrange(1, 8));
        Ok(c)
    }
}

impl FlowControlFrame {
    /// Decodes a flow-control frame; its flag must be 0, 1 or 2.
    pub fn new(frame: &Frame) -> (r: Result<FlowControlFrame, Error>)
        ensures
            r is Ok <==> frame.data@[0] / 16 == 3 && frame.data@[0] % 16 <= 2,
            r matches Ok(fc) ==> fc_flag_code(fc.flag) == frame.data@[0] % 16 && fc.block_size
                == frame.data@[1] && fc.separation_us == st_micros(frame.data@[2]),
            r matches Err(e) ==> e == Error::InvalidFrame,
    {
        let d = frame.data;
        proof {
            lemma_nibbles(d[0]);
        }
        if d[0] >> 4 != 3 {
            return Err(Error::InvalidFrame);
        }
        let code = d[0] & 0x0F;
        let flag = if code == 0 {
            FCFlag::Continue
        } else if code == 1 {
            FCFlag::Wait
        } else if code == 2 {
            FCFlag::Overflow
        } else {
            return Err(Error::InvalidFrame);
        };
        Ok(FlowControlFrame { flag, block_size: d[1], separation_us: st_to_duration(d[2]) })
    }
}

impl Frame {
    pub fn new(data: [u8; 8]) -> (r: Frame)
        ensures
            r.data == data,
    {
        Frame { data }
    }

    /// A single frame carrying `data`.
    pub fn from_single_data(data: &[u8]) -> (r: Frame)
        requires
            data@.len() <= 7,
        ensures
            r.data@ == single_frame_bytes(data@),
    {
        let d = [
            data.len() as u8,
            byte_or_zero(data, 0),
            byte_or_zero(data, 1),
            byte_or_zero(data, 2),
            byte_or_zero(data, 3),
            byte_or_zero(data, 4),
            byte_or_zero(data, 5),
            byte_or_zero(data, 6),
        ];
        assert(d@ =~= single_frame_bytes(data@));
        Frame { data: d }
    }

    /// The frame that carries a decoded single frame.
    pub fn from_single(frame: &SingleFrame) -> (r: Frame)
        requires
            frame.length <= 7,
        ensures
            r.data@ == single_frame_bytes(frame.data@.subrange(0, frame.length as int)),
    {
        let payload = slice_prefix(&frame.data, frame.length as usize);
        Self::from_single_data(payload)
    }

    /// A flow-control frame.
    pub fn from_flow(flow: FlowControlFrame) -> (r: Frame)
        ensures
            r.data@ == flow_frame_bytes(flow.flag, flow.block_size, st_byte(flow.separation_us)),
    {
        let d = [0x30 + flow.flag.code(), flow.block_size, duration_to_st(flow.separation_us), 0, 0, 0, 0, 0];
        assert(d@ =~= flow_frame_bytes(flow.flag, flow.block_size, st_byte(flow.separation_us)));
        Frame { data: d }
    }

    /// The first frame of a `size`-byte message whose first bytes are `data`.
    pub fn from_first_data(data: &[u8], size: u16) -> (r: Frame)
        requires
            data@.len() <= 6,
            size <= 4095,
        ensures
            r.data@ == first_frame_bytes(data@, size),
    {
        let hi = (size / 256) as u8;
        let d = [
            0x10 + hi,
            (size % 256) as u8,
            byte_or_zero(data, 0),
            byte_or_zero(data, 1),
            byte_or_zero(data, 2),
            byte_or_zero(data, 3),
            byte_or_zero(data, 4),
            byte_or_zero(data, 5),
        ];
        assert(d@ =~= first_frame_bytes(data@, size));
        Frame { data: d }
    }

    /// A consecutive frame with sequence index `index` (mod 16).
    pub fn from_consec_data(data: &[u8], index: u8) -> (r: Frame)
        requires
            data@.len() <= 7,
        ensures
            r.data@ == consec_frame_bytes(data@, index),
    {
        let d = [
            0x20 + index % 16,
            byte_or_zero(data, 0),
            byte_or_zero(data, 1),
            byte_or_zero(data, 2),
            byte_or_zero(data, 3),
            byte_or_zero(data, 4),
            byte_or_zero(data, 5),
            byte_or_zero(data, 6),
        ];
        assert(d@ =~= consec_frame_bytes(data@, index));
        Frame { data: d }
    }

    /// The type of this frame, from the high nibble of its first byte.
    pub fn get_type(&self) -> (r: Option<FrameType>)
        ensures
            r == frame_type_of(self.data@[0]),
    {
        let b = self.data[0];
        proof {
            lemma_nibbles(b);
        }
        match b >> 4 {
            0 => Some(FrameType::Single),
            1 => Some(FrameType::First),
            2 => Some(FrameType::Consecutive),
            3 => Some(FrameType::Flow),
            _ => None,
        }
    }
}

/// The first `n` elements of `s`.
pub fn slice_prefix(s: &[u8], n: usize) -> (r: &[u8])
    requires
        n <= s@.len(),
    ensures
        r@ == s@.subrange(0, n as int),
{
    slice_subrange(s, 0, n)
}

/// The elements of `s` from `start` up to `end`.
pub fn slice_subrange(s: &[u8], start: usize, end: usize) -> (r: &[u8])
    requires
        start <= end <= s@.len(),
    ensures
        r@ == s@.subrange(start as int, end as int),
{
    vstd::slice::slice_subrange(s, start, end)
}

} // verus!
