//! The functions of the info page, through which a host discovers a device.
use vstd::prelude::*;
use vstd::slice::slice_subrange;
use crate::bounded::{
    key_list, keys_as_slice, keys_sort, page_keys, response_extend, response_new, table_get,
    table_keys,
};
use crate::dispatch::{
    response_view, DispatchContext, DispatchFn, DispatchResponse, DispatchReturn, MetaView,
};
use crate::error::Error;
use crate::listing::{
    lemma_sorted_distinct, lemma_sorted_keys, lemma_sorted_keys_len, lists, sorted_keys,
    strictly_ascending,
};

verus! {

/// Function id of `protocol_version`.
pub const INFO_VERSION: u8 = 0x00;

/// Function id of `firmware_info`.
pub const INFO_FIRMWARE_INFO: u8 = 0x01;

/// Function id of `supported_fn_pages`.
pub const INFO_SUPPORTED_FUNCTION_PAGES: u8 = 0x02;

/// Function id of `supported_fns`.
pub const INFO_SUPPORTED_FUNCTIONS: u8 = 0x03;

/// Which of the firmware's strings is asked for.
#[derive(Debug, Clone, Copy, PartialEq, Eq, Structural)]
pub enum FirmwareInfoParam {
    Vendor,
    Version,
    DeviceName,
}

impl TryFrom<u8> for FirmwareInfoParam {
    type Error = Error;

    /// 0, 1 and 2 select a string; anything else is an invalid first parameter.
    fn try_from(value: u8) -> (r: Result<Self, Error>) {
        match value {
            0 => Ok(FirmwareInfoParam::Vendor),
            1 => Ok(FirmwareInfoParam::Version),
            2 => Ok(FirmwareInfoParam::DeviceName),
            _ => Err(Error::InvalidValue(0)),
        }
    }
}

impl vstd::std_specs::convert::TryFromSpecImpl<u8> for FirmwareInfoParam {
    open spec fn obeys_try_from_spec() -> bool {
        true
    }

    open spec fn try_from_spec(value: u8) -> Result<Self, Error> {
        if value == 0 {
            Ok(FirmwareInfoParam::Vendor)
        } else if value == 1 {
            Ok(FirmwareInfoParam::Version)
        } else if value == 2 {
            Ok(FirmwareInfoParam::DeviceName)
        } else {
            Err(Error::InvalidValue(0))
        }
    }
}

/// The answer of `protocol_version`: major, minor, patch.
pub open spec fn spec_protocol_version(meta: MetaView) -> Result<Seq<u8>, Error> {
    Ok(meta.protocol_version@)
}

/// The answer of `firmware_info`: the string that the first byte selects.
pub open spec fn spec_firmware_info(input: Seq<u8>, meta: MetaView) -> Result<Seq<u8>, Error> {
    if input[0] == 0 {
        Ok(meta.firmware_vendor)
    } else if input[0] == 1 {
        Ok(meta.firmware_version)
    } else if input[0] == 2 {
        Ok(meta.device_name)
    } else {
        Err(Error::InvalidValue(0))
    }
}

/// A listing of `keys` from position `start` of their ascending order: the
/// number of keys listed, a zero byte, then the keys. A `start` beyond the
/// last position is an invalid parameter.
pub open spec fn listing(keys: Set<u8>, start: int) -> Result<Seq<u8>, Error> {
    let all = sorted_keys(keys);
    if start > all.len() {
        Err(Error::InvalidValue(0))
    } else {
        Ok(seq![(all.len() - start) as u8, 0u8] + all.skip(start))
    }
}

/// The answer of `supported_fn_pages`: the registered pages from position `input[0]`.
pub open spec fn spec_supported_fn_pages(
    input: Seq<u8>,
    pages: Map<u8, Map<u8, DispatchFn>>,
) -> Result<Seq<u8>, Error> {
    listing(pages.dom(), input[0] as int)
}

/// The answer of `supported_fns`: the functions of page `input[0]` from
/// position `input[1]`, if that page is registered.
pub open spec fn spec_supported_fns(
    input: Seq<u8>,
    pages: Map<u8, Map<u8, DispatchFn>>,
) -> Result<Seq<u8>, Error> {
    if pages.contains_key(input[0]) {
        listing(pages[input[0]].dom(), input[1] as int)
    } else {
        Err(Error::UnsupportedFunction)
    }
}

/// Answers the protocol version of the device. The input is not read.
pub fn protocol_version(_input: &[u8], ctx: DispatchContext) -> (r: DispatchReturn)
    ensures
        response_view(r) == spec_protocol_version(ctx.meta_view()),
{
    let mut output = response_new();
    response_extend(&mut output, ctx.meta().protocol_version().as_slice()).unwrap();
    Ok(DispatchResponse::from(output))
}

/// Answers the firmware string that `input[0]` selects: 0 the vendor, 1 the
/// version, 2 the device name.
pub fn firmware_info(input: &[u8], ctx: DispatchContext) -> (r: DispatchReturn)
    requires
        input@.len() >= 1,
    ensures
        response_view(r) == spec_firmware_info(input@, ctx.meta_view()),
{
    let info = match FirmwareInfoParam::try_from(input[0]) {
        Ok(info) => info,
        Err(e) => return Err(e),
    };
    let text = match info {
        FirmwareInfoParam::Vendor => ctx.meta().firmware_vendor(),
        FirmwareInfoParam::Version => ctx.meta().firmware_version(),
        FirmwareInfoParam::DeviceName => ctx.meta().device_name(),
    };
    let mut output = response_new();
    response_extend(&mut output, text).unwrap();
    Ok(DispatchResponse::from(output))
}

/// Sorts `keys` and lists them from position `start`.
fn list_from(keys: heapless::Vec<u8, 8>, start: usize) -> (r: DispatchReturn)
    requires
        key_list(keys).no_duplicates(),
    ensures
        response_view(r) == listing(key_list(keys).to_set(), start as int),
{
    let mut keys = keys;
    let ghost unsorted = key_list(keys);
    keys_sort(&mut keys);
    proof {
        lemma_sorted_distinct(unsorted, key_list(keys));
    }
    let all = keys_as_slice(&keys);
    if start > all.len() {
        return Err(Error::InvalidValue(0));
    }
    let element_list = slice_subrange(all, start, all.len());
    assert(element_list@ =~= all@.skip(start as int));

    let mut output = response_new();
    let head: [u8; 2] = [element_list.len() as u8, 0];
    response_extend(&mut output, head.as_slice()).unwrap();
    response_extend(&mut output, element_list).unwrap();
    Ok(DispatchResponse::from(output))
}

/// Lists the registered function pages in ascending order, from position `input[0]`.
pub fn supported_fn_pages(input: &[u8], ctx: DispatchContext) -> (r: DispatchReturn)
    requires
        input@.len() >= 1,
    ensures
        response_view(r) == spec_supported_fn_pages(input@, ctx.pages()),
{
    let start: usize = input[0] as usize;
    list_from(table_keys(ctx.table()), start)
}

/// Lists the functions of page `input[0]` in ascending order, from position `input[1]`.
pub fn supported_fns(input: &[u8], ctx: DispatchContext) -> (r: DispatchReturn)
    requires
        input@.len() >= 2,
    ensures
        response_view(r) == spec_supported_fns(input@, ctx.pages()),
{
    let page = input[0];
    let start: usize = input[1] as usize;
    let page = match table_get(ctx.table(), page) {
        Some(page) => page,
        None => return Err(Error::UnsupportedFunction),
    };
    list_from(page_keys(page), start)
}

/// A host that pages through a listing misses nothing and sees nothing twice.
/// From every position up to the number of keys the listing succeeds; the
/// first `next - start` keys listed from `start`, followed by the keys listed
/// from `next`, are the keys listed from `start`; and the keys listed from 0
/// are all the keys, each once, in ascending order.
pub proof fn lemma_listing_pages(keys: Set<u8>, start: int, next: int)
    requires
        0 <= start <= next <= keys.len(),
    ensures
        listing(keys, start) is Ok,
        listing(keys, next) is Ok,
        listing(keys, start).unwrap().skip(2).take(next - start) + listing(
            keys,
            next,
        ).unwrap().skip(2) == listing(keys, start).unwrap().skip(2),
        listing(keys, 0) == Ok::<Seq<u8>, Error>(
            seq![sorted_keys(keys).len() as u8, 0u8] + sorted_keys(keys),
        ),
        strictly_ascending(sorted_keys(keys)),
        sorted_keys(keys).no_duplicates(),
        lists(sorted_keys(keys), keys),
{
    let all = sorted_keys(keys);
    lemma_sorted_keys(keys);
    lemma_sorted_keys_len(keys);
    let a = listing(keys, start).unwrap();
    let b = listing(keys, next).unwrap();
    assert(a.skip(2) =~= all.skip(start));
    assert(b.skip(2) =~= all.skip(next));
    assert(all.skip(start).take(next - start) + all.skip(next) =~= all.skip(start));
    assert(all.skip(0) =~= all);
}

/// A listing succeeds exactly from the positions up to the number of keys,
/// and then starts with the number of keys that it lists and a zero byte.
pub proof fn lemma_listing_head(keys: Set<u8>, start: int)
    requires
        0 <= start,
    ensures
        listing(keys, start) is Ok <==> start <= keys.len(),
        listing(keys, start) is Err ==> listing(keys, start) == Err::<Seq<u8>, Error>(
            Error::InvalidValue(0),
        ),
        listing(keys, start) matches Ok(l) ==> l.len() == 2 + keys.len() - start && l[1] == 0 && (
        keys.len() <= 255 ==> l[0] == keys.len() - start),
{
    lemma_sorted_keys_len(keys);
}

} // verus!
