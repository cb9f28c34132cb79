//! The `heapless` collections this crate is built on, as Verus sees them.
//!
//! Verus does not read `heapless`. Each collection type is declared opaque,
//! what it holds is given a name, and each method that the crate calls gets a
//! small wrapper whose contract restates the method's documented behaviour
//! over that name. Nothing in this file is proved; everything else in the
//! crate is proved against it.
use vstd::prelude::*;
use crate::dispatch::{DispatchFn, DispatchTable, FnPage};
use crate::listing::ascending;

verus! {

/// `heapless::Vec`, a vector with inline storage for at most `N` items.
#[verifier::external_type_specification]
#[verifier::external_body]
#[verifier::reject_recursive_types(T)]
pub struct ExVec<T, const N: usize>(heapless::Vec<T, N>);

/// `hash32::FnvHasher`, the hasher of `heapless::FnvIndexMap`.
#[verifier::external_type_specification]
#[verifier::external_body]
pub struct ExFnvHasher(hash32::FnvHasher);

/// `hash32::BuildHasherDefault`, which makes that hasher.
#[verifier::external_type_specification]
#[verifier::external_body]
#[verifier::reject_recursive_types(H)]
pub struct ExBuildHasherDefault<H>(hash32::BuildHasherDefault<H>);

/// `heapless::IndexMap`, a hash map with inline storage for at most `N` entries.
#[verifier::external_type_specification]
#[verifier::external_body]
#[verifier::reject_recursive_types(K)]
#[verifier::reject_recursive_types(V)]
#[verifier::reject_recursive_types(S)]
pub struct ExIndexMap<K, V, S, const N: usize>(heapless::IndexMap<K, V, S, N>);

/// The bytes held by a report-sized buffer, in order.
pub uninterp spec fn frame_bytes(v: heapless::Vec<u8, 32>) -> Seq<u8>;

/// `heapless::Vec::new`: the result holds nothing.
#[verifier::external_body]
pub(crate) fn frame_new() -> (v: heapless::Vec<u8, 32>)
    ensures
        frame_bytes(v) == Seq::<u8>::empty(),
{
    heapless::Vec::new()
}

/// `heapless::Vec::extend_from_slice`: appends `other` when the total fits in
/// the 32 bytes of capacity; otherwise fails and leaves the buffer as it was.
#[verifier::external_body]
pub(crate) fn frame_extend(v: &mut heapless::Vec<u8, 32>, other: &[u8]) -> (r: Result<(), ()>)
    ensures
        r is Ok <==> frame_bytes(*old(v)).len() + other@.len() <= 32,
        r is Ok ==> frame_bytes(*final(v)) == frame_bytes(*old(v)) + other@,
        r is Err ==> frame_bytes(*final(v)) == frame_bytes(*old(v)),
{
    v.extend_from_slice(other)
}

/// The bytes held by a response-sized buffer, in order.
pub uninterp spec fn response_bytes(v: heapless::Vec<u8, 29>) -> Seq<u8>;

/// `heapless::Vec::new`: the result holds nothing.
#[verifier::external_body]
pub(crate) fn response_new() -> (v: heapless::Vec<u8, 29>)
    ensures
        response_bytes(v) == Seq::<u8>::empty(),
{
    heapless::Vec::new()
}

/// `heapless::Vec::extend_from_slice`: appends `other` when the total fits in
/// the 29 bytes of capacity; otherwise fails and leaves the buffer as it was.
#[verifier::external_body]
pub(crate) fn response_extend(v: &mut heapless::Vec<u8, 29>, other: &[u8]) -> (r: Result<(), ()>)
    ensures
        r is Ok <==> response_bytes(*old(v)).len() + other@.len() <= 29,
        r is Ok ==> response_bytes(*final(v)) == response_bytes(*old(v)) + other@,
        r is Err ==> response_bytes(*final(v)) == response_bytes(*old(v)),
{
    v.extend_from_slice(other)
}

/// `heapless::Vec::resize`: fails, changing nothing, when `new_len` is over
/// the capacity; otherwise cuts the buffer to `new_len` or fills it up to
/// `new_len` with copies of `value`.
#[verifier::external_body]
pub(crate) fn response_resize(v: &mut heapless::Vec<u8, 29>, new_len: usize, value: u8) -> (r:
    Result<(), ()>)
    ensures
        r is Ok <==> new_len <= 29,
        r is Ok && new_len <= response_bytes(*old(v)).len() ==> response_bytes(*final(v))
            == response_bytes(*old(v)).take(new_len as int),
        r is Ok && new_len > response_bytes(*old(v)).len() ==> response_bytes(*final(v))
            == response_bytes(*old(v)) + Seq::new(
            (new_len - response_bytes(*old(v)).len()) as nat,
            |i: int| value,
        ),
        r is Err ==> response_bytes(*final(v)) == response_bytes(*old(v)),
{
    v.resize(new_len, value)
}

/// `heapless::Vec::as_slice`: the bytes held, of which there are at most 29.
#[verifier::external_body]
pub(crate) fn response_as_slice(v: &heapless::Vec<u8, 29>) -> (s: &[u8])
    ensures
        s@ == response_bytes(*v),
        s@.len() <= 29,
{
    v.as_slice()
}

/// The keys held by a list of up to 8 keys, in order.
pub uninterp spec fn key_list(v: heapless::Vec<u8, 8>) -> Seq<u8>;

/// `<[u8]>::sort_unstable`, reached through the `DerefMut` of
/// `heapless::Vec`: the same keys, rearranged so that none is larger than a
/// later one.
#[verifier::external_body]
pub(crate) fn keys_sort(keys: &mut heapless::Vec<u8, 8>)
    ensures
        ascending(key_list(*final(keys))),
        key_list(*final(keys)).to_multiset() == key_list(*old(keys)).to_multiset(),
{
    keys.sort_unstable()
}

/// `heapless::Vec::as_slice`: the keys held, of which there are at most 8.
#[verifier::external_body]
pub(crate) fn keys_as_slice(keys: &heapless::Vec<u8, 8>) -> (s: &[u8])
    ensures
        s@ == key_list(*keys),
        s@.len() <= 8,
{
    keys.as_slice()
}

/// The function registered under each function id of one page.
pub uninterp spec fn page_fns(p: FnPage) -> Map<u8, DispatchFn>;

/// `heapless::IndexMap::new`: the result holds nothing.
#[verifier::external_body]
pub(crate) fn page_new() -> (p: FnPage)
    ensures
        page_fns(p).dom() == Set::<u8>::empty(),
{
    heapless::FnvIndexMap::new()
}

/// `heapless::IndexMap::insert`: registers `f` under `id` and hands back what
/// was registered there before. It fails, handing the pair back and changing
/// nothing, only when `id` is new and the page already holds 8 functions.
#[verifier::external_body]
pub(crate) fn page_insert(p: &mut FnPage, id: u8, f: DispatchFn) -> (r: Result<
    Option<DispatchFn>,
    (u8, DispatchFn),
>)
    ensures
        r is Ok <==> page_fns(*old(p)).contains_key(id) || page_fns(*old(p)).dom().len() < 8,
        r is Ok ==> page_fns(*final(p)) == page_fns(*old(p)).insert(id, f),
        r matches Ok(before) ==> before == (if page_fns(*old(p)).contains_key(id) {
            Some(page_fns(*old(p))[id])
        } else {
            None
        }),
        r matches Err(back) ==> back == (id, f) && page_fns(*final(p)) == page_fns(*old(p)),
{
    p.insert(id, f)
}

/// `heapless::IndexMap::get`: the function registered under `id`, if any.
#[verifier::external_body]
pub(crate) fn page_get<'a>(p: &'a FnPage, id: u8) -> (r: Option<&'a DispatchFn>)
    ensures
        r is Some <==> page_fns(*p).contains_key(id),
        r matches Some(f) ==> *f == page_fns(*p)[id],
{
    p.get(&id)
}

/// `heapless::IndexMap::iter`, collected by `heapless::Vec::from_iter`: each
/// function id of the page once, in an order that is left open.
#[verifier::external_body]
pub(crate) fn page_keys(p: &FnPage) -> (keys: heapless::Vec<u8, 8>)
    ensures
        key_list(keys).no_duplicates(),
        key_list(keys).to_set() == page_fns(*p).dom(),
{
    heapless::Vec::from_iter(p.iter().map(|(&k, _)| k))
}

/// The pages of a table, each as the functions registered on it.
pub uninterp spec fn table_pages(t: DispatchTable) -> Map<u8, Map<u8, DispatchFn>>;

/// `heapless::IndexMap::new`: the result holds nothing.
#[verifier::external_body]
pub(crate) fn table_new() -> (t: DispatchTable)
    ensures
        table_pages(t).dom() == Set::<u8>::empty(),
{
    heapless::FnvIndexMap::new()
}

/// `heapless::IndexMap::insert`: registers `fns` as page `page` and hands
/// back the page that was registered there before. It fails, handing the pair
/// back and changing nothing, only when `page` is new and the table already
/// holds 8 pages.
#[verifier::external_body]
pub(crate) fn table_insert(t: &mut DispatchTable, page: u8, fns: FnPage) -> (r: Result<
    Option<FnPage>,
    (u8, FnPage),
>)
    ensures
        r is Ok <==> table_pages(*old(t)).contains_key(page) || table_pages(*old(t)).dom().len()
            < 8,
        r is Ok ==> table_pages(*final(t)) == table_pages(*old(t)).insert(page, page_fns(fns)),
        r matches Ok(before) ==> before is Some == table_pages(*old(t)).contains_key(page),
        r matches Ok(Some(before)) ==> page_fns(before) == table_pages(*old(t))[page],
        r matches Err(back) ==> back.0 == page && page_fns(back.1) == page_fns(fns)
            && table_pages(*final(t)) == table_pages(*old(t)),
{
    t.insert(page, fns)
}

/// `heapless::IndexMap::get`: the page registered under `page`, if any.
#[verifier::external_body]
pub(crate) fn table_get<'a>(t: &'a DispatchTable, page: u8) -> (r: Option<&'a FnPage>)
    ensures
        r is Some <==> table_pages(*t).contains_key(page),
        r matches Some(p) ==> page_fns(*p) == table_pages(*t)[page],
{
    t.get(&page)
}

/// `heapless::IndexMap::iter`, collected by `heapless::Vec::from_iter`: each
/// page of the table once, in an order that is left open.
#[verifier::external_body]
pub(crate) fn table_keys(t: &DispatchTable) -> (keys: heapless::Vec<u8, 8>)
    ensures
        key_list(keys).no_duplicates(),
        key_list(keys).to_set() == table_pages(*t).dom(),
{
    heapless::Vec::from_iter(t.iter().map(|(&k, _)| k))
}

} // verus!
