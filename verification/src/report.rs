//! The wire frame: report id, function page, function id, payload.
use vstd::prelude::*;
use vstd::slice::slice_subrange;
use crate::bounded::{frame_bytes, frame_extend, frame_new};

verus! {

/// The report ids that the interface carries.
#[derive(Debug, Clone, Copy, PartialEq, Eq, Structural)]
pub enum OiReportId {
    Short,
    Long,
    Keyboard,
}

impl OiReportId {
    /// The report id as it appears in byte 0 of a report.
    pub open spec fn spec_id(&self) -> u8 {
        match self {
            OiReportId::Short => 0x20,
            OiReportId::Long => 0x21,
            OiReportId::Keyboard => 0x02,
        }
    }

    /// The report id as it appears in byte 0 of a report.
    #[verifier::when_used_as_spec(spec_id)]
    pub fn id(&self) -> (r: u8)
        ensures
            r == self.spec_id(),
    {
        match self {
            OiReportId::Short => 0x20,
            OiReportId::Long => 0x21,
            OiReportId::Keyboard => 0x02,
        }
    }
}

impl TryFrom<u8> for OiReportId {
    type Error = ();

    /// Only the two OpenInput report ids are recognised here.
    fn try_from(value: u8) -> (r: Result<Self, ()>) {
        match value {
            0x20 => Ok(OiReportId::Short),
            0x21 => Ok(OiReportId::Long),
            _ => Err(()),
        }
    }
}

impl vstd::std_specs::convert::TryFromSpecImpl<u8> for OiReportId {
    open spec fn obeys_try_from_spec() -> bool {
        true
    }

    open spec fn try_from_spec(value: u8) -> Result<Self, ()> {
        if value == 0x20 {
            Ok(OiReportId::Short)
        } else if value == 0x21 {
            Ok(OiReportId::Long)
        } else {
            Err(())
        }
    }
}

/// What a frame is, as plain values.
pub struct FrameView {
    pub id: u8,
    pub function_page: u8,
    pub function_id: u8,
    pub data: Seq<u8>,
}

/// A frame carries 5 bytes of payload (short) or 29 (long).
pub open spec fn frame_wf(f: FrameView) -> bool {
    f.data.len() == 5 || f.data.len() == 29
}

/// The bytes of a frame on the wire.
pub open spec fn encode(f: FrameView) -> Seq<u8> {
    seq![f.id, f.function_page, f.function_id] + f.data
}

/// The frame that 8 or 32 bytes hold; other lengths hold none.
pub open spec fn decode(bytes: Seq<u8>) -> Option<FrameView> {
    if bytes.len() == 8 || bytes.len() == 32 {
        Some(
            FrameView {
                id: bytes[0],
                function_page: bytes[1],
                function_id: bytes[2],
                data: bytes.skip(3),
            },
        )
    } else {
        None
    }
}

/// One OpenInput report, borrowing its payload.
#[derive(Debug, Clone, Copy, PartialEq, Eq)]
pub struct OiReport<'a> {
    id: u8,
    function_page: u8,
    function_id: u8,
    data: &'a [u8],
}

impl<'a> View for OiReport<'a> {
    type V = FrameView;

    closed spec fn view(&self) -> FrameView {
        FrameView {
            id: self.id,
            function_page: self.function_page,
            function_id: self.function_id,
            data: self.data@,
        }
    }
}

impl<'a> OiReport<'a> {
    #[verifier::type_invariant]
    spec fn payload_sized(self) -> bool {
        self.data@.len() == 5 || self.data@.len() == 29
    }

    /// Decodes a report of 8 or 32 bytes; any other length is refused.
    pub fn read(bytes: &'a [u8]) -> (r: Result<Self, ()>)
        ensures
            r is Ok <==> bytes@.len() == 8 || bytes@.len() == 32,
            match r {
                Ok(f) => decode(bytes@) == Some(f@),
                Err(_) => decode(bytes@) is None,
            },
    {
        if bytes.len() != crate::SHORT_LEN && bytes.len() != crate::LONG_LEN {
            return Err(());
        }
        let data = slice_subrange(bytes, crate::DISPATCH_PREFIX_LEN, bytes.len());
        Ok(OiReport { id: bytes[0], function_page: bytes[1], function_id: bytes[2], data })
    }

    /// A short report with the given payload.
    pub fn new_short(page: u8, fn_id: u8, data: &'a [u8; 5]) -> (r: Self)
        ensures
            r@ == (FrameView { id: 0x20, function_page: page, function_id: fn_id, data: data@ }),
    {
        OiReport {
            id: crate::OPENINPUT_SHORT_REPORT_ID,
            function_page: page,
            function_id: fn_id,
            data: data.as_slice(),
        }
    }

    /// A long report with the given payload.
    pub fn new_long(page: u8, fn_id: u8, data: &'a [u8; 29]) -> (r: Self)
        ensures
            r@ == (FrameView { id: 0x21, function_page: page, function_id: fn_id, data: data@ }),
    {
        OiReport {
            id: crate::OPENINPUT_LONG_REPORT_ID,
            function_page: page,
            function_id: fn_id,
            data: data.as_slice(),
        }
    }

    /// A report that carries `data`, short or long as its length says.
    pub(crate) fn with_payload(page: u8, fn_id: u8, data: &'a [u8]) -> (r: Self)
        requires
            data@.len() == 5 || data@.len() == 29,
        ensures
            r@ == (FrameView {
                id: if data@.len() == 5 { 0x20u8 } else { 0x21u8 },
                function_page: page,
                function_id: fn_id,
                data: data@,
            }),
    {
        let id: u8 = if data.len() == 5 {
            crate::OPENINPUT_SHORT_REPORT_ID
        } else {
            crate::OPENINPUT_LONG_REPORT_ID
        };
        OiReport { id, function_page: page, function_id: fn_id, data }
    }

    /// The report id in byte 0.
    pub fn id(&self) -> (r: u8)
        ensures
            r == self@.id,
    {
        self.id
    }

    /// The function page that the report addresses.
    pub fn function_page(&self) -> (r: u8)
        ensures
            r == self@.function_page,
    {
        self.function_page
    }

    /// The function that the report addresses within its page.
    pub fn function_id(&self) -> (r: u8)
        ensures
            r == self@.function_id,
    {
        self.function_id
    }

    /// The payload: 5 bytes in a short report, 29 in a long one.
    pub fn data(&self) -> (r: &'a [u8])
        ensures
            r@ == self@.data,
            frame_wf(self@),
    {
        proof {
            use_type_invariant(self);
        }
        self.data
    }

    /// The bytes of the report as they go on the wire: 8 or 32.
    pub fn to_bytes(&self) -> (v: heapless::Vec<u8, 32>)
        ensures
            frame_bytes(v) == encode(self@),
            frame_wf(self@),
    {
        proof {
            use_type_invariant(self);
        }
        let mut v = frame_new();
        let head: [u8; 3] = [self.id, self.function_page, self.function_id];
        frame_extend(&mut v, head.as_slice()).unwrap();
        frame_extend(&mut v, self.data).unwrap();
        v
    }
}

impl<'a> From<OiReport<'a>> for heapless::Vec<u8, 32> {
    /// The bytes of the report as they go on the wire.
    fn from(src: OiReport<'a>) -> (v: Self)
        ensures
            frame_bytes(v) == encode(src@),
    {
        src.to_bytes()
    }
}

impl<'a> vstd::std_specs::convert::FromSpecImpl<OiReport<'a>> for heapless::Vec<u8, 32> {
    /// Two buffers that hold the same bytes need not be the same value, so
    /// the conversion is described by the `ensures` of `from` alone.
    open spec fn obeys_from_spec() -> bool {
        false
    }

    open spec fn from_spec(src: OiReport<'a>) -> Self {
        arbitrary()
    }
}

/// Decoding what was encoded gives the frame back.
pub proof fn lemma_decode_encode(f: FrameView)
    requires
        frame_wf(f),
    ensures
        decode(encode(f)) == Some(f),
{
    assert(encode(f).skip(3) =~= f.data);
}

/// Encoding what was decoded gives the bytes back.
pub proof fn lemma_encode_decode(bytes: Seq<u8>)
    requires
        bytes.len() == 8 || bytes.len() == 32,
    ensures
        decode(bytes) matches Some(f) && frame_wf(f) && encode(f) == bytes,
{
    assert(encode(decode(bytes).unwrap()) =~= bytes);
}

/// Only 8 and 32 bytes decode.
pub proof fn lemma_decode_refuses(bytes: Seq<u8>)
    ensures
        decode(bytes) is None <==> bytes.len() != 8 && bytes.len() != 32,
{
}

} // verus!
