//! Command dispatch and report framing for the OpenInput vendor HID protocol.
//!
//! Every message travels in one of two fixed-size HID reports: a short one of
//! 8 bytes and a long one of 32 bytes. A report starts with its report id, a
//! function page and a function id; the rest is payload. This crate holds the
//! frame codec, the table that routes a (page, id) address to a function, the
//! functions of the info page, and the encoding of errors on the error page.
//!
//! The fixed-capacity buffers and maps are those of `heapless`; nothing here
//! allocates.
use vstd::prelude::*;

pub mod bounded;
pub mod dispatch;
pub mod error;
pub mod info_table;
pub mod keyboard;
pub mod listing;
pub mod report;
pub mod usb;

pub use dispatch::{Dispatch, DispatchContext, DispatchMeta, DispatchResponse};
pub use error::{Error, OpenInputReportError};
pub use report::{OiReport, OiReportId};

verus! {

/// Report id of the short (8 byte) OpenInput report.
pub const OPENINPUT_SHORT_REPORT_ID: u8 = 0x20;

/// Report id of the long (32 byte) OpenInput report.
pub const OPENINPUT_LONG_REPORT_ID: u8 = 0x21;

/// Total length of a short report.
pub const SHORT_LEN: usize = 8;

/// Total length of a long report.
pub const LONG_LEN: usize = 32;

/// Report id, function page, function id.
pub const DISPATCH_PREFIX_LEN: usize = 3;

/// Payload length of a short report.
pub const DISPATCH_SHORT_RET_LEN: usize = 5;

/// Payload length of a long report.
pub const DISPATCH_LONG_RET_LEN: usize = 29;

/// OpenInput protocol version: major, minor, patch.
pub const PROTOCOL_VERSION: [u8; 3] = [0, 0, 1];

} // verus!
