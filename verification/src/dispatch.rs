//! The dispatch table and what a dispatched function answers.
use vstd::prelude::*;
use crate::bounded::{
    page_fns, page_get, page_insert, page_new, response_as_slice, response_bytes,
    response_extend, response_new, response_resize, table_get, table_insert, table_new,
    table_pages,
};
use crate::error::{error_frame, lemma_unsupported_function_frame, zero_padded, Error};
use crate::info_table::{
    firmware_info, lemma_listing_head, protocol_version, spec_firmware_info,
    spec_protocol_version, spec_supported_fn_pages, spec_supported_fns, supported_fn_pages,
    supported_fns, INFO_FIRMWARE_INFO, INFO_SUPPORTED_FUNCTIONS, INFO_SUPPORTED_FUNCTION_PAGES,
    INFO_VERSION,
};
use crate::report::{encode, FrameView, OiReport};

verus! {

/// The functions that a table can route to. A table holds the name of a
/// function, not a pointer to it, so that what a table answers is known from
/// the table alone.
#[derive(Debug, Clone, Copy, PartialEq, Eq, Structural)]
pub enum DispatchFn {
    /// Answers the protocol version.
    ProtocolVersion,
    /// Answers one of the firmware's descriptive strings.
    FirmwareInfo,
    /// Lists the registered function pages.
    SupportedFnPages,
    /// Lists the functions registered on one page.
    SupportedFns,
}

/// The functions of one page, by function id; at most 8.
pub type FnPage = heapless::FnvIndexMap<u8, DispatchFn, 8>;

/// The pages of a device, by page number; at most 8.
pub type DispatchTable = heapless::FnvIndexMap<u8, FnPage, 8>;

/// Function page of the functions that describe the device.
pub const INFO_FUNCTION_PAGE: u8 = 0x00;

/// The ASCII text "Unspecified Vendor".
pub const DEFAULT_FIRMWARE_VENDOR: [u8; 18] = [
    0x55, 0x6e, 0x73, 0x70, 0x65, 0x63, 0x69, 0x66, 0x69, 0x65,
    0x64, 0x20, 0x56, 0x65, 0x6e, 0x64, 0x6f, 0x72,
];

/// The ASCII text "Unspecified Version".
pub const DEFAULT_FIRMWARE_VERSION: [u8; 19] = [
    0x55, 0x6e, 0x73, 0x70, 0x65, 0x63, 0x69, 0x66, 0x69, 0x65,
    0x64, 0x20, 0x56, 0x65, 0x72, 0x73, 0x69, 0x6f, 0x6e,
];

/// The ASCII text "Unspecified Name".
pub const DEFAULT_DEVICE_NAME: [u8; 16] = [
    0x55, 0x6e, 0x73, 0x70, 0x65, 0x63, 0x69, 0x66, 0x69, 0x65,
    0x64, 0x20, 0x4e, 0x61, 0x6d, 0x65,
];

/// What a function answers: up to 29 bytes, padded to a report's payload
/// size only when it is framed.
#[derive(Debug)]
pub struct DispatchResponse(heapless::Vec<u8, 29>);

impl View for DispatchResponse {
    type V = Seq<u8>;

    closed spec fn view(&self) -> Seq<u8> {
        response_bytes(self.0)
    }
}

/// Payload length of the report that carries a response of `len` bytes.
pub open spec fn padded_len(len: int) -> int {
    if len <= 5 {
        5
    } else {
        29
    }
}

/// The frame that carries the response `data` of function `fn_id` of `page`.
pub open spec fn response_frame(data: Seq<u8>, page: u8, fn_id: u8) -> FrameView {
    FrameView {
        id: if data.len() <= 5 { 0x20u8 } else { 0x21u8 },
        function_page: page,
        function_id: fn_id,
        data: zero_padded(data, padded_len(data.len() as int)),
    }
}

impl DispatchResponse {
    /// The bytes of the response.
    pub fn as_slice(&self) -> (s: &[u8])
        ensures
            s@ == self@,
            s@.len() <= 29,
    {
        response_as_slice(&self.0)
    }

    /// Pads the response with zero bytes to the payload size of the smallest
    /// report that holds it, and frames it as that report.
    pub fn report<'a>(&'a mut self, page: u8, fn_id: u8) -> (r: OiReport<'a>)
        ensures
            r@ == response_frame(old(self)@, page, fn_id),
            final(self)@ == r@.data,
    {
        let len: usize = response_as_slice(&self.0).len();
        if len <= crate::DISPATCH_SHORT_RET_LEN {
            response_resize(&mut self.0, crate::DISPATCH_SHORT_RET_LEN, 0).unwrap();
        } else {
            response_resize(&mut self.0, crate::DISPATCH_LONG_RET_LEN, 0).unwrap();
        }
        let data = response_as_slice(&self.0);
        assert(data@ =~= zero_padded(old(self)@, padded_len(len as int)));
        OiReport::with_payload(page, fn_id, data)
    }
}

impl From<heapless::Vec<u8, 29>> for DispatchResponse {
    fn from(src: heapless::Vec<u8, 29>) -> (r: Self)
        ensures
            r@ == response_bytes(src),
    {
        Self(src)
    }
}

impl vstd::std_specs::convert::FromSpecImpl<heapless::Vec<u8, 29>> for DispatchResponse {
    open spec fn obeys_from_spec() -> bool {
        true
    }

    closed spec fn from_spec(src: heapless::Vec<u8, 29>) -> Self {
        DispatchResponse(src)
    }
}

/// What a dispatched function hands back.
pub type DispatchReturn = Result<DispatchResponse, Error>;

/// A function's answer as plain values.
pub open spec fn response_view(r: DispatchReturn) -> Result<Seq<u8>, Error> {
    match r {
        Ok(response) => Ok(response@),
        Err(e) => Err(e),
    }
}

/// What a device says about itself on the info page.
pub struct DispatchMeta {
    protocol_version: [u8; 3],
    firmware_vendor: heapless::Vec<u8, 29>,
    firmware_version: heapless::Vec<u8, 29>,
    device_name: heapless::Vec<u8, 29>,
}

/// A device's description as plain values.
pub struct MetaView {
    pub protocol_version: [u8; 3],
    pub firmware_vendor: Seq<u8>,
    pub firmware_version: Seq<u8>,
    pub device_name: Seq<u8>,
}

impl View for DispatchMeta {
    type V = MetaView;

    closed spec fn view(&self) -> MetaView {
        MetaView {
            protocol_version: self.protocol_version,
            firmware_vendor: response_bytes(self.firmware_vendor),
            firmware_version: response_bytes(self.firmware_version),
            device_name: response_bytes(self.device_name),
        }
    }
}

impl DispatchMeta {
    /// A description made of the given version and strings.
    pub fn new(
        protocol_version: [u8; 3],
        firmware_vendor: heapless::Vec<u8, 29>,
        firmware_version: heapless::Vec<u8, 29>,
        device_name: heapless::Vec<u8, 29>,
    ) -> (r: Self)
        ensures
            r@ == (MetaView {
                protocol_version,
                firmware_vendor: response_bytes(firmware_vendor),
                firmware_version: response_bytes(firmware_version),
                device_name: response_bytes(device_name),
            }),
    {
        DispatchMeta { protocol_version, firmware_vendor, firmware_version, device_name }
    }

    /// The protocol version: major, minor, patch.
    pub fn protocol_version(&self) -> (r: &[u8; 3])
        ensures
            *r == self@.protocol_version,
    {
        &self.protocol_version
    }

    /// The name of the firmware's vendor.
    pub fn firmware_vendor(&self) -> (r: &[u8])
        ensures
            r@ == self@.firmware_vendor,
            r@.len() <= 29,
    {
        response_as_slice(&self.firmware_vendor)
    }

    /// The version of the firmware.
    pub fn firmware_version(&self) -> (r: &[u8])
        ensures
            r@ == self@.firmware_version,
            r@.len() <= 29,
    {
        response_as_slice(&self.firmware_version)
    }

    /// The name of the device.
    pub fn device_name(&self) -> (r: &[u8])
        ensures
            r@ == self@.device_name,
            r@.len() <= 29,
    {
        response_as_slice(&self.device_name)
    }
}

/// What a function may read while it answers: the table it was found in and
/// the device's description.
pub struct DispatchContext<'a> {
    table: &'a DispatchTable,
    meta: &'a DispatchMeta,
}

impl<'a> DispatchContext<'a> {
    /// The registered pages, each as its registered functions.
    pub closed spec fn pages(&self) -> Map<u8, Map<u8, DispatchFn>> {
        table_pages(*self.table)
    }

    /// The device's description.
    pub closed spec fn meta_view(&self) -> MetaView {
        self.meta@
    }

    /// The table.
    pub fn table(&self) -> (t: &'a DispatchTable)
        ensures
            table_pages(*t) == self.pages(),
    {
        self.table
    }

    /// The device's description.
    pub fn meta(&self) -> (m: &'a DispatchMeta)
        ensures
            m@ == self.meta_view(),
    {
        self.meta
    }
}

/// What function `f` answers to `input`.
pub open spec fn spec_call(
    f: DispatchFn,
    input: Seq<u8>,
    pages: Map<u8, Map<u8, DispatchFn>>,
    meta: MetaView,
) -> Result<Seq<u8>, Error> {
    match f {
        DispatchFn::ProtocolVersion => spec_protocol_version(meta),
        DispatchFn::FirmwareInfo => spec_firmware_info(input, meta),
        DispatchFn::SupportedFnPages => spec_supported_fn_pages(input, pages),
        DispatchFn::SupportedFns => spec_supported_fns(input, pages),
    }
}

/// Function `id` is registered on page `page`.
pub open spec fn registered(pages: Map<u8, Map<u8, DispatchFn>>, page: u8, id: u8) -> bool {
    pages.contains_key(page) && pages[page].contains_key(id)
}

/// What a call to function `id` of `page` with payload `input` answers.
pub open spec fn spec_dispatch(
    pages: Map<u8, Map<u8, DispatchFn>>,
    meta: MetaView,
    page: u8,
    id: u8,
    input: Seq<u8>,
) -> Result<Seq<u8>, Error> {
    if registered(pages, page, id) {
        spec_call(pages[page][id], input, pages, meta)
    } else {
        Err(Error::UnsupportedFunction)
    }
}

/// Whether `input` is a payload that function `f` answers with a response:
/// a selector of 0 to 2 for the firmware strings, a position within the
/// listing for the two listings, and a registered page for the listing of
/// functions.
pub open spec fn valid_payload(
    f: DispatchFn,
    input: Seq<u8>,
    pages: Map<u8, Map<u8, DispatchFn>>,
) -> bool {
    match f {
        DispatchFn::ProtocolVersion => true,
        DispatchFn::FirmwareInfo => input[0] <= 2,
        DispatchFn::SupportedFnPages => input[0] <= pages.dom().len(),
        DispatchFn::SupportedFns => pages.contains_key(input[0]) && input[1]
            <= pages[input[0]].dom().len(),
    }
}

/// A call to a registered function is answered with a response exactly when
/// its payload is valid for that function.
pub proof fn lemma_registered_call(
    pages: Map<u8, Map<u8, DispatchFn>>,
    meta: MetaView,
    page: u8,
    id: u8,
    input: Seq<u8>,
)
    requires
        registered(pages, page, id),
    ensures
        spec_dispatch(pages, meta, page, id, input) is Ok <==> valid_payload(
            pages[page][id],
            input,
            pages,
        ),
{
    lemma_listing_head(pages.dom(), input[0] as int);
    if pages.contains_key(input[0]) {
        lemma_listing_head(pages[input[0]].dom(), input[1] as int);
    }
}

/// A call to a page or function that is not registered is answered with
/// `UnsupportedFunction`, which goes on the wire as a short report on the
/// error page that names the page and id that were asked for.
pub proof fn lemma_unregistered_call(
    pages: Map<u8, Map<u8, DispatchFn>>,
    meta: MetaView,
    page: u8,
    id: u8,
    input: Seq<u8>,
)
    requires
        !registered(pages, page, id),
    ensures
        spec_dispatch(pages, meta, page, id, input) == Err::<Seq<u8>, Error>(
            Error::UnsupportedFunction,
        ),
        encode(error_frame(Error::UnsupportedFunction, page, id)) == seq![
            0x20u8,
            0xFFu8,
            0x02u8,
            page,
            id,
            0u8,
            0u8,
            0u8,
        ],
{
    lemma_unsupported_function_frame(page, id);
}

/// Two dispatchers with the same table and description answer the same
/// request alike.
pub proof fn lemma_dispatch_deterministic(
    a: Dispatch,
    b: Dispatch,
    page: u8,
    id: u8,
    input: Seq<u8>,
)
    requires
        a.pages() == b.pages(),
        a.meta_view() == b.meta_view(),
    ensures
        spec_dispatch(a.pages(), a.meta_view(), page, id, input) == spec_dispatch(
            b.pages(),
            b.meta_view(),
            page,
            id,
            input,
        ),
{
}

impl DispatchFn {
    /// Runs the function on `input`.
    pub fn call(&self, input: &[u8], ctx: DispatchContext) -> (r: DispatchReturn)
        requires
            input@.len() >= 2,
        ensures
            response_view(r) == spec_call(*self, input@, ctx.pages(), ctx.meta_view()),
    {
        match self {
            DispatchFn::ProtocolVersion => protocol_version(input, ctx),
            DispatchFn::FirmwareInfo => firmware_info(input, ctx),
            DispatchFn::SupportedFnPages => supported_fn_pages(input, ctx),
            DispatchFn::SupportedFns => supported_fns(input, ctx),
        }
    }
}

/// The pages of the table that `Dispatch::default` builds: the info page alone.
pub open spec fn default_pages() -> Map<u8, Map<u8, DispatchFn>> {
    map![
        0u8 => map![
            0u8 => DispatchFn::ProtocolVersion,
            1u8 => DispatchFn::FirmwareInfo,
            2u8 => DispatchFn::SupportedFnPages,
            3u8 => DispatchFn::SupportedFns,
        ],
    ]
}

/// The description that `Dispatch::default` builds.
pub open spec fn default_meta() -> MetaView {
    MetaView {
        protocol_version: crate::PROTOCOL_VERSION,
        firmware_vendor: DEFAULT_FIRMWARE_VENDOR@,
        firmware_version: DEFAULT_FIRMWARE_VERSION@,
        device_name: DEFAULT_DEVICE_NAME@,
    }
}

/// A dispatch table with the description of the device it serves.
pub struct Dispatch {
    /// 8 pages, at most 8 functions per page
    table: DispatchTable,
    pub meta: DispatchMeta,
}

impl Dispatch {
    /// The registered pages, each as its registered functions.
    pub closed spec fn pages(&self) -> Map<u8, Map<u8, DispatchFn>> {
        table_pages(self.table)
    }

    /// The device's description.
    pub closed spec fn meta_view(&self) -> MetaView {
        self.meta@
    }

    /// What the functions of this table get to read.
    pub fn context(&self) -> (ctx: DispatchContext<'_>)
        ensures
            ctx.pages() == self.pages(),
            ctx.meta_view() == self.meta_view(),
    {
        DispatchContext { table: &self.table, meta: &self.meta }
    }

    /// Looks up function `id` of `page` and runs it on `data`, the payload of
    /// the request: 5 to 29 bytes. A page or function that is not registered
    /// is answered with `UnsupportedFunction`; a registered function answers
    /// with a response exactly when the payload is valid for it.
    pub fn dispatch_raw(&self, page: u8, id: u8, data: &[u8]) -> (r: DispatchReturn)
        requires
            5 <= data@.len() <= 29,
        ensures
            response_view(r) == spec_dispatch(self.pages(), self.meta_view(), page, id, data@),
            !registered(self.pages(), page, id) ==> r matches Err(Error::UnsupportedFunction),
            r is Ok <==> registered(self.pages(), page, id) && valid_payload(
                self.pages()[page][id],
                data@,
                self.pages(),
            ),
    {
        let func = match table_get(&self.table, page) {
            Some(fn_page) => match page_get(fn_page, id) {
                Some(func) => *func,
                None => return Err(Error::UnsupportedFunction),
            },
            None => return Err(Error::UnsupportedFunction),
        };
        proof {
            lemma_registered_call(self.pages(), self.meta_view(), page, id, data@);
        }
        func.call(data, self.context())
    }

    /// A dispatcher over a table built by hand. Such a table need not hold
    /// the functions of the info page.
    pub fn new_raw(table: DispatchTable, meta: DispatchMeta) -> (r: Self)
        ensures
            r.pages() == table_pages(table),
            r.meta_view() == meta@,
    {
        Self { table, meta }
    }
}

impl Default for Dispatch {
    /// The info page alone, on a device that has not been described.
    fn default() -> (r: Self)
        ensures
            r.pages() == default_pages(),
            r.meta_view() == default_meta(),
    {
        let mut table = table_new();
        let mut info_page = page_new();
        assert(page_fns(info_page) =~= Map::empty());
        assert(table_pages(table) =~= Map::empty());

        page_insert(&mut info_page, INFO_VERSION, DispatchFn::ProtocolVersion).unwrap();
        page_insert(&mut info_page, INFO_FIRMWARE_INFO, DispatchFn::FirmwareInfo).unwrap();
        page_insert(
            &mut info_page,
            INFO_SUPPORTED_FUNCTION_PAGES,
            DispatchFn::SupportedFnPages,
        ).unwrap();
        page_insert(&mut info_page, INFO_SUPPORTED_FUNCTIONS, DispatchFn::SupportedFns).unwrap();
        assert(page_fns(info_page) =~= default_pages()[0u8]);

        table_insert(&mut table, INFO_FUNCTION_PAGE, info_page).unwrap();
        assert(table_pages(table) =~= default_pages());

        let mut firmware_vendor = response_new();
        response_extend(&mut firmware_vendor, DEFAULT_FIRMWARE_VENDOR.as_slice()).unwrap();
        let mut firmware_version = response_new();
        response_extend(&mut firmware_version, DEFAULT_FIRMWARE_VERSION.as_slice()).unwrap();
        let mut device_name = response_new();
        response_extend(&mut device_name, DEFAULT_DEVICE_NAME.as_slice()).unwrap();
        let meta = DispatchMeta::new(
            crate::PROTOCOL_VERSION,
            firmware_vendor,
            firmware_version,
            device_name,
        );
        Self::new_raw(table, meta)
    }
}

} // verus!
