//! ISO-TP transport over a CAN port: segmentation on send, reassembly on
//! receive, and the flow control between them.
use vstd::prelude::*;
use crate::can::{CanInterface, Message};
use crate::clock::{pause, Stopwatch};
use crate::error::Error;
use crate::isotp::{
    byte_or_zero, consec_frame_bytes, first_frame_bytes, pad8, single_frame_bytes, slice_prefix,
    slice_subrange, FCFlag, FirstFrame, FlowControlFrame, Frame, Options, SingleFrame, MAX_PAYLOAD,
};

verus! {

/// Number of consecutive frames that follow the first frame of an `n`-byte
/// message (`n >= 8`): the `n - 6` bytes after the first frame, seven at a
/// time, rounded up, which is `n / 7`.
pub open spec fn consec_count(n: nat) -> nat {
    n / 7
}

/// Where the `k`-th consecutive frame's chunk starts (`k >= 1`).
pub open spec fn chunk_start(k: nat) -> nat {
    (6 + 7 * (k - 1)) as nat
}

/// Bytes of an `n`-byte message carried by its first `k` frames.
pub open spec fn carried(n: nat, k: nat) -> nat {
    if n <= 7 {
        if k == 0 { 0 } else { n }
    } else if k == 0 {
        0
    } else if chunk_start(k) >= n {
        n
    } else {
        chunk_start(k)
    }
}

/// The `k`-th frame sent for payload `p`.
pub open spec fn tx_frame(p: Seq<u8>, k: nat) -> Seq<u8> {
    if p.len() <= 7 {
        single_frame_bytes(p)
    } else if k == 0 {
        first_frame_bytes(p.subrange(0, 6), p.len() as u16)
    } else {
        let start = chunk_start(k);
        let end = if start + 7 <= p.len() { start + 7 } else { p.len() };
        consec_frame_bytes(p.subrange(start as int, end as int), (k % 16) as u8)
    }
}

/// Number of frames sent for a payload of `n` bytes.
pub open spec fn frame_count(n: nat) -> nat {
    if n <= 7 { 1 } else { 1 + consec_count(n) }
}

/// Every frame that sending `p` puts on the bus, in order.
pub open spec fn frames_of(p: Seq<u8>) -> Seq<Seq<u8>> {
    Seq::new(frame_count(p.len()), |k: int| tx_frame(p, k as nat))
}

/// What a receiver holds part way through a message.
pub struct RxState {
    pub buffer: Seq<u8>,
    pub remaining: nat,
    pub index: nat,
}

/// The receiver's state after the frame that opens a message, if it opens one.
pub open spec fn rx_start(f: Seq<u8>) -> Option<RxState> {
    if f[0] / 16 == 0 && f[0] % 16 <= 7 {
        Some(RxState { buffer: f.subrange(1, 1 + f[0] % 16), remaining: 0, index: 1 })
    } else if f[0] / 16 == 1 && (f[0] % 16) * 256 + f[1] >= 8 {
        Some(
            RxState {
                buffer: f.subrange(2, 8),
                remaining: ((f[0] % 16) * 256 + f[1] - 6) as nat,
                index: 1,
            },
        )
    } else {
        None
    }
}

/// The receiver's state after one more consecutive frame, if it is the expected one.
pub open spec fn rx_push(s: RxState, f: Seq<u8>) -> Option<RxState> {
    if s.remaining > 0 && f[0] == 0x20 + s.index {
        let take: nat = if s.remaining < 7 { s.remaining } else { 7 };
        Some(
            RxState {
                buffer: s.buffer + f.subrange(1, 1 + take as int),
                remaining: (s.remaining - take) as nat,
                index: (s.index + 1) % 16,
            },
        )
    } else {
        None
    }
}

/// The receiver's state after the frames `fs`, if each was accepted.
pub open spec fn rx_run(fs: Seq<Seq<u8>>) -> Option<RxState>
    decreases fs.len(),
{
    if fs.len() == 0 {
        None
    } else if fs.len() == 1 {
        rx_start(fs[0])
    } else {
        match rx_run(fs.drop_last()) {
            Some(s) => rx_push(s, fs.last()),
            None => None,
        }
    }
}

/// The message that the frames `fs` make up exactly, if they make one up.
pub open spec fn reassemble(fs: Seq<Seq<u8>>) -> Option<Seq<u8>> {
    match rx_run(fs) {
        Some(s) => if s.remaining == 0 { Some(s.buffer) } else { None },
        None => None,
    }
}

/// The receiver's state once the first `k` frames of `p` came in (`k >= 1`).
pub open spec fn rx_after(p: Seq<u8>, k: nat) -> RxState {
    let c = carried(p.len(), k);
    RxState { buffer: p.subrange(0, c as int), remaining: (p.len() - c) as nat, index: k % 16 }
}

proof fn lemma_consec_layout(chunk: Seq<u8>, index: u8)
    requires
        chunk.len() <= 7,
        index < 16,
    ensures
        consec_frame_bytes(chunk, index).len() == 8,
        consec_frame_bytes(chunk, index)[0] == 0x20 + index,
        consec_frame_bytes(chunk, index).subrange(1, 1 + chunk.len() as int) == chunk,
{
    let f = consec_frame_bytes(chunk, index);
    assert(f.subrange(1, 1 + chunk.len() as int) =~= chunk);
}

proof fn lemma_chunk_bounds(n: nat, k: nat)
    requires
        8 <= n,
        1 <= k <= n / 7,
    ensures
        chunk_start(k) < n,
        chunk_start(k + 1) == chunk_start(k) + 7,
{
    assert(7 * k <= n) by (nonlinear_arith)
        requires k <= n / 7, n >= 8;
}

proof fn lemma_rx_step(p: Seq<u8>, k: nat)
    requires
        8 <= p.len() <= 4095,
        1 <= k <= consec_count(p.len()),
    ensures
        rx_push(rx_after(p, k), tx_frame(p, k)) == Some(rx_after(p, k + 1)),
{
    let n = p.len();
    lemma_chunk_bounds(n, k);
    let start = chunk_start(k);
    let end = if start + 7 <= n { start + 7 } else { n };
    let chunk = p.subrange(start as int, end as int);
    let index = (k % 16) as u8;
    let f = tx_frame(p, k);
    assert(f == consec_frame_bytes(chunk, index));
    lemma_consec_layout(chunk, index);
    let s = rx_after(p, k);
    assert(carried(n, k) == start);
    assert(s.remaining == n - start);
    assert(s.index == index);
    let take: nat = if s.remaining < 7 { s.remaining } else { 7 };
    assert(take == chunk.len());
    let t = rx_after(p, k + 1);
    assert(carried(n, k + 1) == end);
    assert(s.buffer + chunk =~= t.buffer);
}

proof fn lemma_rx_prefix(p: Seq<u8>, k: nat)
    requires
        p.len() <= 4095,
        1 <= k <= frame_count(p.len()),
    ensures
        rx_run(frames_of(p).subrange(0, k as int)) == Some(rx_after(p, k)),
    decreases k,
{
    let fs = frames_of(p);
    let n = p.len();
    if k == 1 {
        assert(fs.subrange(0, 1)[0] == tx_frame(p, 0));
        let f = tx_frame(p, 0);
        if n <= 7 {
            assert(f[0] == n);
            assert(f.subrange(1, 1 + f[0] % 16) =~= p);
            assert(rx_after(p, 1).buffer =~= p);
        } else {
            let head = p.subrange(0, 6);
            assert(f[0] == 0x10 + (n as u16) / 256);
            assert(f[1] == (n as u16) % 256);
            assert((f[0] % 16) * 256 + f[1] == n);
            assert(f.subrange(2, 8) =~= head);
            assert(rx_after(p, 1).buffer =~= head);
        }
    } else {
        lemma_rx_prefix(p, (k - 1) as nat);
        assert(fs.subrange(0, k as int).drop_last() =~= fs.subrange(0, k - 1));
        assert(fs.subrange(0, k as int).last() == tx_frame(p, (k - 1) as nat));
        lemma_rx_step(p, (k - 1) as nat);
    }
}

/// Sending a payload of at most 4095 bytes and reassembling the frames that
/// went out gives back exactly that payload.
pub proof fn lemma_round_trip(p: Seq<u8>)
    requires
        p.len() <= MAX_PAYLOAD,
    ensures
        reassemble(frames_of(p)) == Some(p),
{
    let k = frame_count(p.len());
    lemma_rx_prefix(p, k);
    assert(frames_of(p).subrange(0, k as int) =~= frames_of(p));
    if p.len() > 7 {
        assert(7 * (p.len() / 7) + 6 >= p.len()) by (nonlinear_arith);
    }
    assert(rx_after(p, k).buffer =~= p);
}

/// The consecutive frames of a message carry sequence indices 1, 2, ..., 15,
/// 0, 1, ... in their first byte.
pub proof fn lemma_sequence_indices(p: Seq<u8>, k: nat)
    requires
        8 <= p.len() <= MAX_PAYLOAD,
        1 <= k < frame_count(p.len()),
    ensures
        frames_of(p)[k as int][0] == 0x20 + k % 16,
{
}


/// Appends the bytes of `s` to `v`.
pub fn append_bytes(v: &mut Vec<u8>, s: &[u8])
    ensures
        final(v)@ == old(v)@ + s@,
{
    let mut i: usize = 0;
    while i < s.len()
        invariant
            i <= s@.len(),
            v@ == old(v)@ + s@.subrange(0, i as int),
        decreases s@.len() - i,
    {
        v.push(s[i]);
        i = i + 1;
        assert(s@.subrange(0, i as int) =~= s@.subrange(0, i - 1).push(s@[i - 1]));
    }
    assert(s@.subrange(0, i as int) =~= s@);
}

/// The frames of one multi-frame message, handed out in sending order.
pub struct SendPacket<'a> {
    buffer: &'a [u8],
    offset: usize,
    index: u8,
    sent: Ghost<nat>,
}

impl<'a> SendPacket<'a> {
    /// The payload being sent.
    pub closed spec fn payload(&self) -> Seq<u8> {
        self.buffer@
    }

    /// How many frames have been handed out.
    pub closed spec fn sent(&self) -> nat {
        self.sent@
    }

    pub closed spec fn wf(&self) -> bool {
        &&& 8 <= self.buffer@.len() <= MAX_PAYLOAD
        &&& self.sent@ <= frame_count(self.buffer@.len())
        &&& self.offset == carried(self.buffer@.len(), self.sent@)
        &&& self.index == self.sent@ % 16
    }

    /// Starts sending `buffer`, which needs a first frame (8 to 4095 bytes).
    pub fn new(buffer: &'a [u8]) -> (r: SendPacket<'a>)
        requires
            8 <= buffer@.len() <= MAX_PAYLOAD,
        ensures
            r.wf(),
            r.payload() == buffer@,
            r.sent() == 0,
    {
        SendPacket { buffer, offset: 0, index: 0, sent: Ghost(0) }
    }

    /// The first frame: the total length and the first six bytes.
    pub fn first_frame(&mut self) -> (r: Frame)
        requires
            old(self).wf(),
            old(self).sent() == 0,
        ensures
            final(self).wf(),
            final(self).payload() == old(self).payload(),
            final(self).sent() == 1,
            r.data@ == tx_frame(old(self).payload(), 0),
    {
        let head = slice_prefix(self.buffer, 6);
        let frame = Frame::from_first_data(head, self.buffer.len() as u16);
        self.offset = 6;
        self.index = 1;
        self.sent = Ghost(1);
        frame
    }

    /// The next consecutive frame: up to seven more bytes and the next index.
    pub fn next_consec_frame(&mut self) -> (r: Frame)
        requires
            old(self).wf(),
            1 <= old(self).sent() < frame_count(old(self).payload().len()),
        ensures
            final(self).wf(),
            final(self).payload() == old(self).payload(),
            final(self).sent() == old(self).sent() + 1,
            r.data@ == tx_frame(old(self).payload(), old(self).sent()),
    {
        let ghost k = self.sent@;
        let ghost n = self.buffer@.len();
        proof {
            assert(7 * k <= n) by (nonlinear_arith)
                requires k <= n / 7, n >= 8;
        }
        let n_left = self.buffer.len() - self.offset;
        let len = if n_left < 7 { n_left } else { 7 };
        let chunk = slice_subrange(self.buffer, self.offset, self.offset + len);
        let frame = Frame::from_consec_data(chunk, self.index);
        self.offset = self.offset + len;
        self.index = if self.index == 15 { 0 } else { self.index + 1 };
        self.sent = Ghost(k + 1);
        frame
    }

    /// True once every frame has been handed out.
    pub fn eof(&self) -> (r: bool)
        requires
            self.wf(),
            self.sent() >= 1,
        ensures
            r == (self.sent() == frame_count(self.payload().len())),
    {
        let ghost k = self.sent@;
        let ghost n = self.buffer@.len();
        proof {
            if k < frame_count(n) {
                assert(7 * k <= n) by (nonlinear_arith)
                    requires k <= n / 7, n >= 8;
            } else {
                assert(7 * (n / 7) + 6 >= n) by (nonlinear_arith)
                    requires n >= 8;
            }
        }
        self.offset == self.buffer.len()
    }
}

/// A message being reassembled from its frames.
pub struct Reassembly {
    buffer: Vec<u8>,
    remaining: usize,
    index: u8,
}

impl View for Reassembly {
    type V = RxState;

    closed spec fn view(&self) -> RxState {
        RxState {
            buffer: self.buffer@,
            remaining: self.remaining as nat,
            index: self.index as nat,
        }
    }
}

impl Reassembly {
    /// Opens a message with a single or first frame.
    pub fn start(frame: &Frame) -> (r: Result<Reassembly, Error>)
        ensures
            r is Ok <==> rx_start(frame.data@) is Some,
            r matches Ok(s) ==> rx_start(frame.data@) == Some(s@) && s@.remaining <= MAX_PAYLOAD,
            r matches Err(e) ==> e == Error::InvalidFrame,
    {
        let d: &[u8] = &frame.data;
        let b = d[0];
        proof {
            assert(b >> 4u8 == b / 16) by (bit_vector);
        }
        if b >> 4 == 0 {
            match SingleFrame::new(d) {
                Ok(single) => {
                    let payload = slice_prefix(&single.data, single.length as usize);
                    let mut buffer = Vec::new();
                    append_bytes(&mut buffer, payload);
                    let r = Reassembly { buffer, remaining: 0, index: 1 };
                    assert(r@.buffer =~= frame.data@.subrange(1, 1 + frame.data@[0] % 16));
                    Ok(r)
                },
                Err(e) => Err(e),
            }
        } else {
            match FirstFrame::new(d) {
                Ok(first) => {
                    let mut buffer = Vec::new();
                    append_bytes(&mut buffer, &first.data);
                    Ok(Reassembly { buffer, remaining: first.length as usize - 6, index: 1 })
                },
                Err(e) => Err(e),
            }
        }
    }

    /// Adds the next consecutive frame; it must carry the expected index.
    pub fn push(&mut self, frame: &Frame) -> (r: Result<(), Error>)
        requires
            old(self)@.index < 16,
        ensures
            r is Ok <==> rx_push(old(self)@, frame.data@) is Some,
            r is Ok ==> rx_push(old(self)@, frame.data@) == Some(final(self)@),
            r is Err ==> final(self)@ == old(self)@,
            r matches Err(e) ==> e == Error::InvalidFrame,
            final(self)@.index < 16,
    {
        if self.remaining == 0 || frame.data[0] != 0x20 + self.index {
            return Err(Error::InvalidFrame);
        }
        let take = if self.remaining < 7 { self.remaining } else { 7 };
        let chunk = slice_subrange(&frame.data, 1, 1 + take);
        append_bytes(&mut self.buffer, chunk);
        self.remaining = self.remaining - take;
        self.index = if self.index == 15 { 0 } else { self.index + 1 };
        Ok(())
    }

    /// True once the declared length has been received.
    pub fn is_complete(&self) -> (r: bool)
        ensures
            r == (self@.remaining == 0),
    {
        self.remaining == 0
    }

    /// The bytes received so far.
    pub fn into_payload(self) -> (r: Vec<u8>)
        ensures
            r@ == self@.buffer,
    {
        self.buffer
    }
}


/// What a sender does on a flow-control frame: `Ok(true)` to go on sending,
/// `Ok(false)` to wait for another one, `InvalidFrame` when the peer overflowed.
pub fn flow_action(fc: FlowControlFrame) -> (r: Result<bool, Error>)
    ensures
        (fc.flag == FCFlag::Continue) == (r == Ok::<bool, Error>(true)),
        (fc.flag == FCFlag::Wait) == (r == Ok::<bool, Error>(false)),
        (fc.flag == FCFlag::Overflow) == (r == Err::<bool, Error>(Error::InvalidFrame)),
{
    match fc.flag {
        FCFlag::Continue => Ok(true),
        FCFlag::Wait => Ok(false),
        FCFlag::Overflow => Err(Error::InvalidFrame),
    }
}

/// What a receiver listening on `dest_id` makes of one CAN message: `None`
/// for another id (it is dropped), otherwise the frame padded to eight
/// bytes, or `TooMuchData` for a message over eight bytes.
pub fn accept_message(msg: &Message, dest_id: u32) -> (r: Option<Result<Frame, Error>>)
    ensures
        msg.id != dest_id ==> r is None,
        msg.id == dest_id && msg.data@.len() <= 8 ==> (r matches Some(Ok(f)) && f.data@ == pad8(
            msg.data@,
        )),
        msg.id == dest_id && msg.data@.len() > 8 ==> r == Some(
            Err::<Frame, Error>(Error::TooMuchData),
        ),
{
    if msg.id != dest_id {
        return None;
    }
    if msg.data.len() > 8 {
        return Some(Err(Error::TooMuchData));
    }
    let d = msg.data.as_slice();
    let f = Frame::new(
        [
            byte_or_zero(d, 0),
            byte_or_zero(d, 1),
            byte_or_zero(d, 2),
            byte_or_zero(d, 3),
            byte_or_zero(d, 4),
            byte_or_zero(d, 5),
            byte_or_zero(d, 6),
            byte_or_zero(d, 7),
        ],
    );
    assert(f.data@ =~= pad8(msg.data@));
    Some(Ok(f))
}

/// A transport that carries whole payloads of up to 4095 bytes.
pub trait IsotpInterface {
    /// Receives one payload.
    fn recv(&self) -> Result<Vec<u8>, Error>;

    /// Sends one payload.
    fn send(&self, data: &[u8]) -> Result<(), Error>;

    /// Sends `request`, then receives the reply.
    fn request(&self, request: &[u8]) -> Result<Vec<u8>, Error> {
        match self.send(request) {
            Ok(()) => self.recv(),
            Err(e) => Err(e),
        }
    }
}

/// ISO-TP over a CAN port.
pub struct IsotpCan<C: CanInterface> {
    pub can: C,
    pub options: Options,
}

impl<C: CanInterface> IsotpCan<C> {
    pub fn new(can: C, options: Options) -> (r: IsotpCan<C>)
        ensures
            r.can == can,
            r.options == options,
    {
        IsotpCan { can, options }
    }

    fn send_frame(&self, frame: &Frame) -> Result<(), Error> {
        self.can.send(self.options.source_id, &frame.data)
    }

    fn send_flow_control_frame(&self, flow: FlowControlFrame) -> Result<(), Error> {
        self.send_frame(&Frame::from_flow(flow))
    }

    /// Waits for the next frame on `dest_id`, dropping frames on other ids,
    /// for at most the session timeout in all.
    fn recv_frame(&self) -> Result<Frame, Error> {
        let timeout = self.options.timeout_us;
        let watch = Stopwatch::start();
        let mut polls: u64 = 0;
        loop
            decreases u64::MAX - polls,
        {
            let elapsed = watch.elapsed_us();
            if elapsed >= timeout || polls == u64::MAX {
                return Err(Error::Timeout);
            }
            let msg = match self.can.recv(timeout - elapsed) {
                Ok(m) => m,
                Err(e) => return Err(e),
            };
            if let Some(accepted) = accept_message(&msg, self.options.dest_id) {
                return accepted;
            }
            polls = polls + 1;
        }
    }

    fn recv_flow_control_frame(&self) -> Result<FlowControlFrame, Error> {
        match self.recv_frame() {
            Ok(frame) => FlowControlFrame::new(&frame),
            Err(e) => Err(e),
        }
    }

    /// Waits until the peer lets us send: `Wait` frames are read past,
    /// `Overflow` fails the send.
    fn await_clear_to_send(&self) -> (r: Result<FlowControlFrame, Error>)
        ensures
            r matches Ok(fc) ==> fc.flag == FCFlag::Continue,
    {
        let watch = Stopwatch::start();
        let mut polls: u64 = 0;
        loop
            decreases u64::MAX - polls,
        {
            let fc = match self.recv_flow_control_frame() {
                Ok(fc) => fc,
                Err(e) => return Err(e),
            };
            match flow_action(fc) {
                Ok(true) => return Ok(fc),
                Ok(false) => {},
                Err(e) => return Err(e),
            }
            if polls == u64::MAX || watch.elapsed_us() >= self.options.timeout_us {
                return Err(Error::Timeout);
            }
            polls = polls + 1;
        }
    }

    /// Sends `data` as one ISO-TP message: a single frame up to 7 bytes,
    /// otherwise a first frame and consecutive frames under the peer's flow control.
    pub fn send(&self, data: &[u8]) -> (r: Result<(), Error>)
        ensures
            data@.len() > MAX_PAYLOAD ==> r == Err::<(), Error>(Error::TooMuchData),
            r is Ok ==> data@.len() <= MAX_PAYLOAD,
    {
        if data.len() > MAX_PAYLOAD {
            return Err(Error::TooMuchData);
        }
        if data.len() <= 7 {
            return self.send_frame(&Frame::from_single_data(data));
        }
        let mut packet = SendPacket::new(data);
        let first = packet.first_frame();
        if let Err(e) = self.send_frame(&first) {
            return Err(e);
        }
        let mut flow_control = match self.await_clear_to_send() {
            Ok(fc) => fc,
            Err(e) => return Err(e),
        };
        let ghost n = data@.len();
        loop
            invariant
                packet.wf(),
                packet.payload() == data@,
                n == data@.len(),
                1 <= packet.sent() <= frame_count(n),
            decreases frame_count(n) - packet.sent(),
        {
            if packet.eof() {
                break;
            }
            if flow_control.separation_us != 0 {
                pause(flow_control.separation_us);
            }
            let frame = packet.next_consec_frame();
            if let Err(e) = self.send_frame(&frame) {
                return Err(e);
            }
            if !packet.eof() && flow_control.block_size > 0 {
                flow_control.block_size = flow_control.block_size - 1;
                if flow_control.block_size == 0 {
                    flow_control = match self.await_clear_to_send() {
                        Ok(fc) => fc,
                        Err(e) => return Err(e),
                    };
                }
            }
        }
        Ok(())
    }

    /// Receives one ISO-TP message on `dest_id`. After a first frame it grants
    /// the peer an unlimited block with no separation time.
    pub fn recv(&self) -> (r: Result<Vec<u8>, Error>)
        ensures
            r matches Ok(p) ==> exists|fs: Seq<Seq<u8>>| reassemble(fs) == Some(p@),
    {
        let frame = match self.recv_frame() {
            Ok(f) => f,
            Err(e) => return Err(e),
        };
        let mut rx = match Reassembly::start(&frame) {
            Ok(rx) => rx,
            Err(e) => return Err(e),
        };
        let ghost mut fs: Seq<Seq<u8>> = seq![frame.data@];
        assert(rx_run(fs) == rx_start(frame.data@));
        if !rx.is_complete() {
            let grant = FlowControlFrame { flag: FCFlag::Continue, block_size: 0, separation_us: 0 };
            if let Err(e) = self.send_flow_control_frame(grant) {
                return Err(e);
            }
        }
        while !rx.is_complete()
            invariant
                rx_run(fs) == Some(rx@),
                rx@.index < 16,
            decreases rx@.remaining,
        {
            let next = match self.recv_frame() {
                Ok(f) => f,
                Err(e) => return Err(e),
            };
            if let Err(e) = rx.push(&next) {
                return Err(e);
            }
            proof {
                let old_fs = fs;
                fs = fs.push(next.data@);
                assert(fs.drop_last() =~= old_fs);
            }
        }
        assert(reassemble(fs) == Some(rx@.buffer));
        Ok(rx.into_payload())
    }
}

impl<C: CanInterface> IsotpInterface for IsotpCan<C> {
    fn recv(&self) -> Result<Vec<u8>, Error> {
        IsotpCan::recv(self)
    }

    fn send(&self, data: &[u8]) -> Result<(), Error> {
        IsotpCan::send(self, data)
    }
}

} // verus!
