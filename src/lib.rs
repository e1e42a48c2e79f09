//! Host-side protocol stack for talking to an engine control unit over CAN:
//! ISO-TP segmentation, UDS requests, seed/key authentication and the
//! download, flash, datalog and trouble-code workflows built on them.

pub mod error;
pub mod can;
pub mod clock;
pub mod isotp;
pub mod transport;
pub mod uds;
pub mod authenticator;
pub mod download;
pub mod flash;
pub mod diagnostics;
pub mod definition;
pub mod datalog;
pub mod link;
pub mod rom;
