use std::cell::RefCell;
use std::collections::VecDeque;

use tuner::error::Error;
use tuner::transport::IsotpInterface;
use tuner::uds::{
    build_request, classify_reply, read_data_by_identifier, read_memory_request,
    request_read_memory_address, request_security_key, request_security_seed, request_session,
    strip_echo, write_be_u32, UdsInterface, UdsIsotp,
};

/// An ECU simulated at the ISO-TP level: replies come from a script.
struct ScriptedEcu {
    requests: RefCell<Vec<Vec<u8>>>,
    replies: RefCell<VecDeque<Vec<u8>>>,
}

impl ScriptedEcu {
    fn new(replies: Vec<Vec<u8>>) -> ScriptedEcu {
        ScriptedEcu { requests: RefCell::new(Vec::new()), replies: RefCell::new(replies.into()) }
    }
}

impl IsotpInterface for ScriptedEcu {
    fn recv(&self) -> Result<Vec<u8>, Error> {
        self.replies.borrow_mut().pop_front().ok_or(Error::Timeout)
    }

    fn send(&self, data: &[u8]) -> Result<(), Error> {
        self.requests.borrow_mut().push(data.to_vec());
        Ok(())
    }
}

#[test]
fn positive_reply_returns_its_body() {
    for sid in [0x10u8, 0x22, 0x23, 0x27, 0x36, 0xB1] {
        let uds = UdsIsotp::new(ScriptedEcu::new(vec![vec![sid + 0x40, 9, 8, 7]]));
        assert_eq!(uds.request(sid, &[1, 2]).unwrap(), vec![9, 8, 7]);
        assert_eq!(uds.interface.requests.borrow()[0], vec![sid, 1, 2]);
    }
}

#[test]
fn response_pending_is_waited_out() {
    for k in [0usize, 1, 2, 5, 50] {
        let mut replies = vec![vec![0x7F, 0x31, 0x78]; k];
        replies.push(vec![0x71, 0xAA]);
        let uds = UdsIsotp::new(ScriptedEcu::new(replies));
        assert_eq!(uds.request(0x31, &[]).unwrap(), vec![0xAA]);
        assert_eq!(uds.interface.requests.borrow().len(), 1);
    }
}

#[test]
fn read_memory_request_encoding() {
    assert_eq!(read_memory_request(0x0001_F000, 0x0FFE), vec![0x00, 0x01, 0xF0, 0x00, 0x0F, 0xFE]);
    let uds = UdsIsotp::new(ScriptedEcu::new(vec![vec![0x63, 1, 2]]));
    assert_eq!(request_read_memory_address(&uds, 0x0001_F000, 0x0FFE).unwrap(), vec![1, 2]);
    assert_eq!(uds.interface.requests.borrow()[0], vec![0x23, 0x00, 0x01, 0xF0, 0x00, 0x0F, 0xFE]);
}

#[test]
fn read_data_by_identifier_strips_echo() {
    let uds = UdsIsotp::new(ScriptedEcu::new(vec![vec![0x62, 0x01, 0x0A, 0x00, 0x7D]]));
    assert_eq!(read_data_by_identifier(&uds, 0x010A).unwrap(), vec![0x00, 0x7D]);
    assert_eq!(uds.interface.requests.borrow()[0], vec![0x22, 0x01, 0x0A]);
}

#[test]
fn read_data_by_identifier_checks_echo() {
    let uds = UdsIsotp::new(ScriptedEcu::new(vec![vec![0x62, 0x01, 0x0B, 0x00]]));
    assert_eq!(read_data_by_identifier(&uds, 0x010A), Err(Error::InvalidPacket));
    let uds = UdsIsotp::new(ScriptedEcu::new(vec![vec![0x62, 0x01]]));
    assert_eq!(read_data_by_identifier(&uds, 0x010A), Err(Error::InvalidPacket));
}

#[test]
fn negative_response_carries_its_code() {
    let uds = UdsIsotp::new(ScriptedEcu::new(vec![vec![0x7F, 0x23, 0x33]]));
    assert_eq!(request_read_memory_address(&uds, 0, 4), Err(Error::NegativeResponse(0x33)));
}

#[test]
fn truncated_negative_response_has_code_zero() {
    let uds = UdsIsotp::new(ScriptedEcu::new(vec![vec![0x7F, 0x23]]));
    assert_eq!(uds.request(0x23, &[]), Err(Error::NegativeResponse(0)));
}

#[test]
fn empty_or_mismatched_reply_is_invalid() {
    let uds = UdsIsotp::new(ScriptedEcu::new(vec![vec![]]));
    assert_eq!(uds.request(0x22, &[]), Err(Error::InvalidPacket));
    let uds = UdsIsotp::new(ScriptedEcu::new(vec![vec![0x50, 1]]));
    assert_eq!(uds.request(0x22, &[]), Err(Error::InvalidPacket));
}

#[test]
fn pending_replies_are_bounded_by_timeout() {
    let uds = UdsIsotp::with_timeout(ScriptedEcu::new(vec![vec![0x7F, 0x31, 0x78]; 3]), 0);
    assert_eq!(uds.timeout_us, 0);
    assert_eq!(uds.request(0x31, &[]), Err(Error::Timeout));
}

#[test]
fn transport_errors_pass_through() {
    let uds = UdsIsotp::new(ScriptedEcu::new(vec![]));
    assert_eq!(UdsInterface::request(&uds, 0x22, &[]), Err(Error::Timeout));
}

#[test]
fn classify_reply_cases() {
    assert_eq!(classify_reply(0x10, &[0x7F, 0x10, 0x78]), None);
    assert_eq!(classify_reply(0x10, &[0x50, 0x87]), Some(Ok(vec![0x87])));
    assert_eq!(classify_reply(0x10, &[0x7F, 0x10, 0x12]), Some(Err(Error::NegativeResponse(0x12))));
    assert_eq!(classify_reply(0xC5, &[0x05]), Some(Err(Error::InvalidPacket)));
}

#[test]
fn session_and_security_helpers() {
    let uds = UdsIsotp::new(ScriptedEcu::new(vec![
        vec![0x50, 0x87, 0x01],
        vec![0x67, 0x01, 0xAA, 0xBB],
        vec![0x67, 0x02],
    ]));
    assert_eq!(request_session(&uds, 0x87).unwrap(), vec![0x01]);
    assert_eq!(request_security_seed(&uds).unwrap(), vec![0xAA, 0xBB]);
    request_security_key(&uds, &[1, 2, 3]).unwrap();
    let reqs = uds.interface.requests.borrow();
    assert_eq!(reqs[0], vec![0x10, 0x87]);
    assert_eq!(reqs[1], vec![0x27, 0x01]);
    assert_eq!(reqs[2], vec![0x27, 0x02, 1, 2, 3]);
}

#[test]
fn session_reply_must_echo_type() {
    let uds = UdsIsotp::new(ScriptedEcu::new(vec![vec![0x50, 0x85]]));
    assert_eq!(request_session(&uds, 0x87), Err(Error::InvalidPacket));
    let uds = UdsIsotp::new(ScriptedEcu::new(vec![vec![0x67]]));
    assert_eq!(request_security_seed(&uds), Err(Error::InvalidPacket));
}

#[test]
fn byte_helpers() {
    assert_eq!(write_be_u32(0x1234_5678), [0x12, 0x34, 0x56, 0x78]);
    assert_eq!(build_request(0x36, &[1, 2]), vec![0x36, 1, 2]);
    assert_eq!(strip_echo(&[1, 2], &[1, 2, 3]).unwrap(), vec![3]);
    assert_eq!(strip_echo(&[1, 2], &[1, 3, 3]), Err(Error::InvalidPacket));
}
