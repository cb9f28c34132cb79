//! Errors of the protocol and their encoding on the error page.
use vstd::prelude::*;
use usb_device::UsbError;
use crate::bounded::frame_bytes;
use crate::report::{encode, FrameView, OiReport};

verus! {

/// Function page on which every error is reported.
pub const ERROR_FUNCTION_PAGE: u8 = 0xFF;

/// Report id, error page, error id, failed page, failed function id.
pub const ERROR_PREFIX_LEN: usize = 5;

/// Capacity of the text of a custom error.
pub const CUSTOM_ERROR_LEN: usize = crate::LONG_LEN - ERROR_PREFIX_LEN;

/// What a function, or the lookup of one, can answer instead of a response.
#[derive(Debug, Clone, Copy, PartialEq, Eq)]
pub enum Error {
    /// The input parameter with this index was not acceptable.
    InvalidValue(u8),
    /// No function is registered under the page and id that were asked for.
    UnsupportedFunction,
    /// Free-form ASCII text, ended by a zero byte unless it fills the buffer.
    Custom([u8; 27]),
}

/// What can go wrong between the USB stack and the reports of this crate.
#[derive(Debug, Clone, Copy, PartialEq, Eq)]
pub enum OpenInputReportError {
    /// The device's own code failed.
    InternalError,
    /// A report came with a length that its report id does not allow.
    FuckyBuffer,
    /// The USB stack failed, or a report was of a type or id that is not taken.
    UsbError(UsbError),
}

impl From<UsbError> for OpenInputReportError {
    fn from(src: UsbError) -> (r: Self) {
        OpenInputReportError::UsbError(src)
    }
}

impl vstd::std_specs::convert::FromSpecImpl<UsbError> for OpenInputReportError {
    open spec fn obeys_from_spec() -> bool {
        true
    }

    open spec fn from_spec(src: UsbError) -> Self {
        OpenInputReportError::UsbError(src)
    }
}

/// Number of bytes of `msg` before its first zero byte; all of them if it has none.
pub open spec fn text_len(msg: Seq<u8>) -> int
    decreases msg.len(),
{
    if msg.len() == 0 || msg[0] == 0 {
        0
    } else {
        1 + text_len(msg.skip(1))
    }
}

/// `data` followed by as many zero bytes as it takes to reach `len`.
pub open spec fn zero_padded(data: Seq<u8>, len: int) -> Seq<u8> {
    data + Seq::new((len - data.len()) as nat, |i: int| 0u8)
}

/// An error fits a short report unless it is text of more than 3 bytes.
pub open spec fn error_is_short(e: Error) -> bool {
    match e {
        Error::Custom(msg) => text_len(msg@) <= 3,
        _ => true,
    }
}

/// What an error says about the call that failed, before padding.
pub open spec fn error_data(e: Error, page: u8, id: u8) -> Seq<u8> {
    match e {
        Error::InvalidValue(index) => seq![page, id, index],
        Error::UnsupportedFunction => seq![page, id],
        Error::Custom(msg) => seq![page, id] + msg@.take(text_len(msg@)),
    }
}

/// The frame that reports error `e` for a call to function `id` of `page`.
pub open spec fn error_frame(e: Error, page: u8, id: u8) -> FrameView {
    FrameView {
        id: if error_is_short(e) { 0x20u8 } else { 0x21u8 },
        function_page: 0xFF,
        function_id: e.spec_id(),
        data: zero_padded(error_data(e, page, id), if error_is_short(e) { 5 } else { 29 }),
    }
}

/// `n` counts the bytes before the first zero byte of `msg`.
pub proof fn lemma_text_len(msg: Seq<u8>, n: int)
    requires
        0 <= n <= msg.len(),
        forall|i: int| 0 <= i < n ==> msg[i] != 0,
        n == msg.len() || msg[n] == 0,
    ensures
        text_len(msg) == n,
    decreases n,
{
    if n > 0 {
        lemma_text_len(msg.skip(1), n - 1);
    }
}

impl Error {
    /// The function id under which the error is reported.
    pub open spec fn spec_id(&self) -> u8 {
        match self {
            Error::InvalidValue(_) => 0x01,
            Error::UnsupportedFunction => 0x02,
            Error::Custom(_) => 0xFE,
        }
    }

    /// The function id under which the error is reported.
    #[verifier::when_used_as_spec(spec_id)]
    pub fn id(&self) -> (r: u8)
        ensures
            r == self.spec_id(),
    {
        match self {
            Error::InvalidValue(_) => 0x01,
            Error::UnsupportedFunction => 0x02,
            Error::Custom(_) => 0xFE,
        }
    }

    /// The report that tells the host that the call to function `id` of
    /// `page` failed with this error.
    pub fn serialize_error(&self, page: u8, id: u8) -> (v: heapless::Vec<u8, 32>)
        ensures
            frame_bytes(v) == encode(error_frame(*self, page, id)),
    {
        let mut short_data: [u8; 5] = [page, id, 0, 0, 0];
        let mut long_data: [u8; 29] = [0; 29];
        let o = match *self {
            Error::InvalidValue(index) => {
                short_data[2] = index;
                assert(short_data@ =~= zero_padded(error_data(*self, page, id), 5));
                OiReport::new_short(ERROR_FUNCTION_PAGE, self.id(), &short_data)
            },
            Error::UnsupportedFunction => {
                assert(short_data@ =~= zero_padded(error_data(*self, page, id), 5));
                OiReport::new_short(ERROR_FUNCTION_PAGE, self.id(), &short_data)
            },
            // only text may need a long report
            Error::Custom(ascii) => {
                let mut len: usize = 0;
                while len < CUSTOM_ERROR_LEN && ascii[len] != 0
                    invariant
                        len <= 27,
                        forall|i: int| 0 <= i < len ==> ascii@[i] != 0,
                    decreases 27 - len,
                {
                    len += 1;
                }
                proof {
                    lemma_text_len(ascii@, len as int);
                }
                // text of up to 3 bytes fits a short report
                if len <= 3 {
                    let mut i: usize = 0;
                    while i < len
                        invariant
                            i <= len <= 3,
                            short_data@[0] == page,
                            short_data@[1] == id,
                            forall|j: int| 0 <= j < i ==> short_data@[2 + j] == ascii@[j],
                            forall|j: int| 2 + i <= j < 5 ==> short_data@[j] == 0,
                        decreases len - i,
                    {
                        short_data[2 + i] = ascii[i];
                        i += 1;
                    }
                    assert(short_data@ =~= zero_padded(error_data(*self, page, id), 5));
                    OiReport::new_short(ERROR_FUNCTION_PAGE, self.id(), &short_data)
                } else {
                    long_data[0] = page;
                    long_data[1] = id;
                    let mut i: usize = 0;
                    while i < len
                        invariant
                            i <= len <= 27,
                            long_data@[0] == page,
                            long_data@[1] == id,
                            forall|j: int| 0 <= j < i ==> long_data@[2 + j] == ascii@[j],
                            forall|j: int| 2 + i <= j < 29 ==> long_data@[j] == 0,
                        decreases len - i,
                    {
                        long_data[2 + i] = ascii[i];
                        i += 1;
                    }
                    assert(long_data@ =~= zero_padded(error_data(*self, page, id), 29));
                    OiReport::new_long(ERROR_FUNCTION_PAGE, self.id(), &long_data)
                }
            },
        };
        heapless::Vec::from(o)
    }
}

/// What the text of a custom error becomes on the wire. With the first zero
/// byte of `msg` at offset `n` (27 if it has none): text of up to 3 bytes
/// goes into a short report, longer text into a long report; the text
/// follows the page and id of the failed call, the zero byte and what
/// follows it are not sent, and 27 bytes of text fill the report to its end.
pub proof fn lemma_custom_error_frame(msg: [u8; 27], page: u8, id: u8, n: int)
    requires
        0 <= n <= 27,
        forall|i: int| 0 <= i < n ==> msg@[i] != 0,
        n == 27 || msg@[n] == 0,
    ensures
        error_frame(Error::Custom(msg), page, id).function_page == 0xFF,
        error_frame(Error::Custom(msg), page, id).function_id == 0xFE,
        n <= 3 ==> error_frame(Error::Custom(msg), page, id).id == 0x20,
        n <= 3 ==> error_frame(Error::Custom(msg), page, id).data == seq![page, id] + msg@.take(
            n,
        ) + Seq::new((3 - n) as nat, |i: int| 0u8),
        n > 3 ==> error_frame(Error::Custom(msg), page, id).id == 0x21,
        n > 3 ==> error_frame(Error::Custom(msg), page, id).data == seq![page, id] + msg@.take(n)
            + Seq::new((27 - n) as nat, |i: int| 0u8),
        n == 27 ==> error_frame(Error::Custom(msg), page, id).data == seq![page, id] + msg@,
{
    lemma_text_len(msg@, n);
    if n == 27 {
        assert(msg@.take(27) =~= msg@);
        assert(seq![page, id] + msg@ + Seq::new(0nat, |i: int| 0u8) =~= seq![page, id] + msg@);
    }
}

/// An unsupported function is reported in a short report on the error page,
/// under function id 2, with the page and id of the failed call as payload.
pub proof fn lemma_unsupported_function_frame(page: u8, id: u8)
    ensures
        encode(error_frame(Error::UnsupportedFunction, page, id)) == seq![
            0x20u8,
            0xFFu8,
            0x02u8,
            page,
            id,
            0u8,
            0u8,
            0u8,
        ],
{
}

/// An invalid value is reported in a short report on the error page, under
/// function id 1, with the page and id of the failed call and the index of
/// the parameter as payload.
pub proof fn lemma_invalid_value_frame(index: u8, page: u8, id: u8)
    ensures
        encode(error_frame(Error::InvalidValue(index), page, id)) == seq![
            0x20u8,
            0xFFu8,
            0x01u8,
            page,
            id,
            index,
            0u8,
            0u8,
        ],
{
}

} // verus!
