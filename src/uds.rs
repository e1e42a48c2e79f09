//! UDS (ISO 14229-1) requests and responses over an ISO-TP transport.
use vstd::prelude::*;
use crate::clock::Stopwatch;
use crate::error::Error;
use crate::transport::{append_bytes, IsotpInterface};

verus! {

/// DiagnosticSessionControl.
pub const UDS_REQ_SESSION: u8 = 0x10;
/// SecurityAccess.
pub const UDS_REQ_SECURITY: u8 = 0x27;
/// ReadMemoryByAddress.
pub const UDS_REQ_READMEM: u8 = 0x23;
/// RequestDownload.
pub const UDS_REQ_REQUESTDOWNLOAD: u8 = 0x34;
/// RequestUpload.
pub const UDS_REQ_REQUESTUPLOAD: u8 = 0x35;
/// TransferData.
pub const UDS_REQ_TRANSFERDATA: u8 = 0x36;
/// ReadDataByIdentifier.
pub const UDS_REQ_READDATABYID: u8 = 0x22;
/// Read stored trouble codes.
pub const UDS_REQ_READDTC: u8 = 0x03;
/// First byte of a negative response.
pub const UDS_NEGATIVE: u8 = 0x7F;
/// Negative response code "request correctly received, response pending".
pub const UDS_NRES_RCRRP: u8 = 0x78;

/// A positive response body.
pub struct Response {
    pub data: Vec<u8>,
}

/// What one reply to a request on service `sid` means: `None` while the ECU
/// asks us to keep waiting, otherwise the payload or the error it ends with.
pub open spec fn reply_outcome(sid: u8, r: Seq<u8>) -> Option<Result<Seq<u8>, Error>> {
    if r.len() == 0 {
        Some(Err(Error::InvalidPacket))
    } else if r[0] == UDS_NEGATIVE {
        if r.len() < 3 {
            Some(Err(Error::NegativeResponse(0)))
        } else if r[2] == UDS_NRES_RCRRP {
            None
        } else {
            Some(Err(Error::NegativeResponse(r[2])))
        }
    } else if r[0] != sid + 0x40 {
        Some(Err(Error::InvalidPacket))
    } else {
        Some(Ok(r.subrange(1, r.len() as int)))
    }
}

/// The outcome of a request on service `sid` when the ECU's replies are `rs`:
/// the first reply that is not "response pending" decides.
pub open spec fn exchange_outcome(sid: u8, rs: Seq<Seq<u8>>) -> Option<Result<Seq<u8>, Error>>
    decreases rs.len(),
{
    if rs.len() == 0 {
        None
    } else {
        match reply_outcome(sid, rs[0]) {
            None => exchange_outcome(sid, rs.drop_first()),
            Some(o) => Some(o),
        }
    }
}

/// Replies that only ask to keep waiting, followed by one that decides,
/// end the exchange with what that last reply says.
pub proof fn lemma_exchange_decided_by_last(sid: u8, rs: Seq<Seq<u8>>, last: Seq<u8>)
    requires
        forall|i: int| 0 <= i < rs.len() ==> reply_outcome(sid, #[trigger] rs[i]) is None,
        reply_outcome(sid, last) is Some,
    ensures
        exchange_outcome(sid, rs.push(last)) == reply_outcome(sid, last),
    decreases rs.len(),
{
    if rs.len() == 0 {
        assert(rs.push(last)[0] == last);
    } else {
        assert(rs.push(last)[0] == rs[0]);
        assert(rs.push(last).drop_first() =~= rs.drop_first().push(last));
        assert forall|i: int| 0 <= i < rs.drop_first().len() implies reply_outcome(
            sid,
            #[trigger] rs.drop_first()[i],
        ) is None by {
            assert(rs.drop_first()[i] == rs[i + 1]);
        }
        lemma_exchange_decided_by_last(sid, rs.drop_first(), last);
    }
}

/// The reply `[0x7F, sid, 0x78]`: the ECU is still working on the request.
pub open spec fn pending_reply(sid: u8) -> Seq<u8> {
    seq![UDS_NEGATIVE, sid, UDS_NRES_RCRRP]
}

/// A positive reply to service `sid` carrying `r`.
pub open spec fn positive_reply(sid: u8, r: Seq<u8>) -> Seq<u8> {
    seq![(sid + 0x40) as u8] + r
}

/// A positive reply `[sid + 0x40, r...]` makes the request return `r`. (A
/// service id of 0x3F or of 0xC0 and above has no positive reply distinct
/// from a negative one or within a byte.)
pub proof fn lemma_success_skeleton(sid: u8, r: Seq<u8>)
    requires
        sid < 0xC0,
        sid != 0x3F,
    ensures
        exchange_outcome(sid, seq![positive_reply(sid, r)]) == Some(Ok::<Seq<u8>, Error>(r)),
{
    let reply = positive_reply(sid, r);
    assert(reply.subrange(1, reply.len() as int) =~= r);
    assert(seq![reply].drop_first() =~= Seq::<Seq<u8>>::empty());
}

/// However many "response pending" replies come first, a positive reply
/// `[sid + 0x40, r...]` makes the request return `r`.
pub proof fn lemma_pending_then_positive(sid: u8, k: nat, r: Seq<u8>)
    requires
        sid < 0xC0,
        sid != 0x3F,
    ensures
        exchange_outcome(sid, Seq::new(k, |i: int| pending_reply(sid)).push(positive_reply(sid, r)))
            == Some(Ok::<Seq<u8>, Error>(r)),
{
    let rs = Seq::new(k, |i: int| pending_reply(sid));
    let reply = positive_reply(sid, r);
    assert(reply.subrange(1, reply.len() as int) =~= r);
    lemma_exchange_decided_by_last(sid, rs, reply);
}

/// Classifies one reply to a request on service `sid`.
pub fn classify_reply(sid: u8, response: &[u8]) -> (r: Option<Result<Vec<u8>, Error>>)
    ensures
        r is None <==> reply_outcome(sid, response@) is None,
        r matches Some(Ok(p)) ==> reply_outcome(sid, response@) == Some(Ok::<Seq<u8>, Error>(p@)),
        r matches Some(Err(e)) ==> reply_outcome(sid, response@) == Some(Err::<Seq<u8>, Error>(e)),
{
    if response.len() == 0 {
        return Some(Err(Error::InvalidPacket));
    }
    if response[0] == UDS_NEGATIVE {
        if response.len() < 3 {
            return Some(Err(Error::NegativeResponse(0)));
        }
        if response[2] == UDS_NRES_RCRRP {
            return None;
        }
        return Some(Err(Error::NegativeResponse(response[2])));
    }
    if response[0] as u16 != sid as u16 + 0x40 {
        return Some(Err(Error::InvalidPacket));
    }
    let mut payload = Vec::new();
    append_bytes(&mut payload, crate::isotp::slice_subrange(response, 1, response.len()));
    Some(Ok(payload))
}

/// `[sid, data...]`: a request on the wire.
pub fn build_request(sid: u8, data: &[u8]) -> (r: Vec<u8>)
    ensures
        r@ == seq![sid] + data@,
{
    let mut v = Vec::new();
    v.push(sid);
    append_bytes(&mut v, data);
    v
}

/// The body of a ReadMemoryByAddress request: the address as four big-endian
/// bytes, then the length as two.
pub open spec fn read_memory_body(address: u32, length: u16) -> Seq<u8> {
    seq![
        (address / 0x100_0000) as u8,
        (address / 0x1_0000 % 256) as u8,
        (address / 256 % 256) as u8,
        (address % 256) as u8,
        (length / 256) as u8,
        (length % 256) as u8,
    ]
}

/// `n` as four big-endian bytes.
pub open spec fn be_u32(n: u32) -> Seq<u8> {
    seq![(n / 0x100_0000) as u8, (n / 0x1_0000 % 256) as u8, (n / 256 % 256) as u8, (n % 256) as u8]
}

/// Writes `n` as four big-endian bytes.
pub fn write_be_u32(n: u32) -> (r: [u8; 4])
    ensures
        r@ == be_u32(n),
{
    let r = [(n / 0x100_0000) as u8, (n / 0x1_0000 % 256) as u8, (n / 256 % 256) as u8, (n % 256) as u8];
    assert(r@ =~= be_u32(n));
    r
}

/// The body of a ReadMemoryByAddress request.
pub fn read_memory_request(address: u32, length: u16) -> (r: Vec<u8>)
    ensures
        r@ == read_memory_body(address, length),
{
    let a = write_be_u32(address);
    let mut v = Vec::new();
    append_bytes(&mut v, &a);
    v.push((length / 256) as u8);
    v.push((length % 256) as u8);
    assert(v@ =~= read_memory_body(address, length));
    v
}

/// `response` with its first `echo.len()` bytes removed, provided they equal `echo`.
pub open spec fn strip_echo_spec(echo: Seq<u8>, response: Seq<u8>) -> Result<Seq<u8>, Error> {
    if response.len() >= echo.len() && response.subrange(0, echo.len() as int) == echo {
        Ok(response.subrange(echo.len() as int, response.len() as int))
    } else {
        Err(Error::InvalidPacket)
    }
}

/// The one byte `b`.
pub open spec fn byte_seq(b: u8) -> Seq<u8> {
    seq![b]
}

/// A data identifier as two big-endian bytes.
pub open spec fn did_bytes(id: u16) -> Seq<u8> {
    seq![(id / 256) as u8, (id % 256) as u8]
}

/// Checks that a positive response starts with `echo` and removes it.
pub fn strip_echo(echo: &[u8], response: &[u8]) -> (r: Result<Vec<u8>, Error>)
    ensures
        r matches Ok(p) ==> strip_echo_spec(echo@, response@) == Ok::<Seq<u8>, Error>(p@),
        r matches Err(e) ==> strip_echo_spec(echo@, response@) == Err::<Seq<u8>, Error>(e),
{
    if response.len() < echo.len() {
        return Err(Error::InvalidPacket);
    }
    let mut i: usize = 0;
    while i < echo.len()
        invariant
            i <= echo@.len() <= response@.len(),
            forall|j: int| 0 <= j < i ==> response@[j] == echo@[j],
        decreases echo@.len() - i,
    {
        if response[i] != echo[i] {
            assert(response@.subrange(0, echo@.len() as int)[i as int] != echo@[i as int]);
            return Err(Error::InvalidPacket);
        }
        i = i + 1;
    }
    assert(response@.subrange(0, echo@.len() as int) =~= echo@);
    let mut rest = Vec::new();
    append_bytes(&mut rest, crate::isotp::slice_subrange(response, echo.len(), response.len()));
    Ok(rest)
}

/// A UDS client: one request, one final reply.
pub trait UdsInterface {
    /// Sends `[request_sid, data...]` and returns the body of the positive reply.
    fn request(&self, request_sid: u8, data: &[u8]) -> Result<Vec<u8>, Error>;
}

/// Sends a DiagnosticSessionControl request and returns the parameter record.
pub fn request_session<U: UdsInterface>(uds: &U, session_type: u8) -> (r: Result<Vec<u8>, Error>)
    ensures
        r matches Ok(p) ==> exists|body: Seq<u8>|
            #[trigger] strip_echo_spec(byte_seq(session_type), body) == Ok::<Seq<u8>, Error>(p@),
{
    let echo = [session_type];
    match uds.request(UDS_REQ_SESSION, &echo) {
        Ok(body) => {
            let stripped = strip_echo(&echo, body.as_slice());
            assert(echo@ =~= byte_seq(session_type));
            assert(stripped matches Ok(p) ==> strip_echo_spec(byte_seq(session_type), body@) == Ok::<Seq<u8>, Error>(
                p@,
            ));
            stripped
        },
        Err(e) => Err(e),
    }
}

/// Asks for a security seed (SecurityAccess, sub-function 1) and returns it.
pub fn request_security_seed<U: UdsInterface>(uds: &U) -> (r: Result<Vec<u8>, Error>)
    ensures
        r matches Ok(p) ==> exists|body: Seq<u8>|
            #[trigger] strip_echo_spec(byte_seq(1u8), body) == Ok::<Seq<u8>, Error>(p@),
{
    let echo = [1u8];
    match uds.request(UDS_REQ_SECURITY, &echo) {
        Ok(body) => {
            let stripped = strip_echo(&echo, body.as_slice());
            assert(echo@ =~= byte_seq(1u8));
            assert(stripped matches Ok(p) ==> strip_echo_spec(byte_seq(1u8), body@) == Ok::<Seq<u8>, Error>(
                p@,
            ));
            stripped
        },
        Err(e) => Err(e),
    }
}

/// Sends a security key (SecurityAccess, sub-function 2).
pub fn request_security_key<U: UdsInterface>(uds: &U, key: &[u8]) -> (r: Result<(), Error>) {
    let request = build_request(2, key);
    match uds.request(UDS_REQ_SECURITY, request.as_slice()) {
        Ok(_) => Ok(()),
        Err(e) => Err(e),
    }
}

/// Reads `length` bytes of ECU memory at `address` (ReadMemoryByAddress).
pub fn request_read_memory_address<U: UdsInterface>(uds: &U, address: u32, length: u16) -> (r:
    Result<Vec<u8>, Error>) {
    let body = read_memory_request(address, length);
    uds.request(UDS_REQ_READMEM, body.as_slice())
}

/// Reads the data record of identifier `id` (ReadDataByIdentifier); the
/// reply's echo of `id` is checked and removed.
pub fn read_data_by_identifier<U: UdsInterface>(uds: &U, id: u16) -> (r: Result<Vec<u8>, Error>)
    ensures
        r matches Ok(p) ==> exists|body: Seq<u8>|
            #[trigger] strip_echo_spec(did_bytes(id), body) == Ok::<
                Seq<u8>,
                Error,
            >(p@),
{
    let echo = [(id / 256) as u8, (id % 256) as u8];
    match uds.request(UDS_REQ_READDATABYID, &echo) {
        Ok(body) => {
            let stripped = strip_echo(&echo, body.as_slice());
            assert(echo@ =~= did_bytes(id));
            assert(stripped matches Ok(p) ==> strip_echo_spec(did_bytes(id), body@) == Ok::<Seq<u8>, Error>(
                p@,
            ));
            stripped
        },
        Err(e) => Err(e),
    }
}

/// UDS over an ISO-TP transport.
pub struct UdsIsotp<I: IsotpInterface> {
    pub interface: I,
    /// How long, in microseconds, "response pending" replies may keep a request waiting.
    pub timeout_us: u64,
}

/// The default bound on waiting out "response pending" replies: one second.
pub const UDS_DEFAULT_TIMEOUT_US: u64 = 1_000_000;

impl<I: IsotpInterface> UdsIsotp<I> {
    pub fn new(interface: I) -> (r: UdsIsotp<I>)
        ensures
            r.interface == interface,
            r.timeout_us == UDS_DEFAULT_TIMEOUT_US,
    {
        UdsIsotp { interface, timeout_us: UDS_DEFAULT_TIMEOUT_US }
    }

    /// A client that waits out "response pending" replies for at most `timeout_us`.
    pub fn with_timeout(interface: I, timeout_us: u64) -> (r: UdsIsotp<I>)
        ensures
            r.interface == interface,
            r.timeout_us == timeout_us,
    {
        UdsIsotp { interface, timeout_us }
    }

    /// Sends `[request_sid, data...]`, then reads replies until one is not
    /// "response pending"; that reply decides the result. Waiting past
    /// `timeout_us` fails with `Timeout`.
    pub fn request(&self, request_sid: u8, data: &[u8]) -> (r: Result<Vec<u8>, Error>)
        ensures
            r matches Ok(p) ==> exists|rs: Seq<Seq<u8>>|
                exchange_outcome(request_sid, rs) == Some(Ok::<Seq<u8>, Error>(p@)),
    {
        let v = build_request(request_sid, data);
        if let Err(e) = self.interface.send(v.as_slice()) {
            return Err(e);
        }
        let ghost mut rs: Seq<Seq<u8>> = Seq::empty();
        let watch = Stopwatch::start();
        let mut polls: u64 = 0;
        loop
            invariant
                forall|i: int| 0 <= i < rs.len() ==> reply_outcome(request_sid, #[trigger] rs[i]) is None,
            decreases u64::MAX - polls,
        {
            let response = match self.interface.recv() {
                Ok(resp) => resp,
                Err(e) => return Err(e),
            };
            match classify_reply(request_sid, response.as_slice()) {
                Some(outcome) => {
                    proof {
                        lemma_exchange_decided_by_last(request_sid, rs, response@);
                    }
                    return outcome;
                },
                None => {
                    proof {
                        rs = rs.push(response@);
                    }
                    if polls == u64::MAX || watch.elapsed_us() >= self.timeout_us {
                        return Err(Error::Timeout);
                    }
                    polls = polls + 1;
                },
            }
        }
    }
}

impl<I: IsotpInterface> UdsInterface for UdsIsotp<I> {
    fn request(&self, request_sid: u8, data: &[u8]) -> Result<Vec<u8>, Error> {
        UdsIsotp::request(self, request_sid, data)
    }
}

} // verus!
