//! Kernel entry and attribute writeback: the one-run-per-load sequence the
//! kernel core performs. It loads the image it was handed, replies with the
//! load outcome, zeroes the image's uninitialized-data region, exchanges the
//! logical-time baseline, transfers control to the image's init entry point,
//! persists the advanced time, walks the image's reflection table issuing
//! one asynchronous RPC per live object and tagged attribute, and announces
//! `RunFinished`. Re-use requires a fresh load.
//!
//! The runtime core's part of the dialogue enters as parameters (`now_init`
//! is its `NowInitReply`), and what only the loaded program can do — advance
//! the logical clock while it runs — is summarized by `now_after`.

use vstd::prelude::*;
use vstd::string::StringSliceAdditionalSpecFns;
use crate::loader::{
    api_lookup, apply_relocs, exports_in_range, find_export, first_unresolved, load,
    relocs_in_range, ApiEntry, Library,
};
use crate::msg::{Attr, Image, LoadError, Message, TypeDesc};
use crate::rpc::{args_views, call_bounded, payload_bytes, rpc_send_async};
use crate::rpc_queue::{frame_bytes, RpcQueue};
use crate::wire::{push_u64_le, u64_le_bytes};

verus! {

pub open spec fn bss_start_name() -> Seq<u8> {
    "__bss_start".spec_bytes()
}

pub open spec fn end_name() -> Seq<u8> {
    "_end".spec_bytes()
}

pub open spec fn modinit_name() -> Seq<u8> {
    "__modinit__".spec_bytes()
}

pub open spec fn typeinfo_name() -> Seq<u8> {
    "typeinfo".spec_bytes()
}

/// The asynchronous RPC the writeback walk issues for one tagged attribute
/// of one live object: service 0, the attribute's type tag, and three
/// marshalled arguments — the object address, the attribute's name, and the
/// field address, addresses as their eight little-endian bytes.
pub open spec fn attr_call(obj: u32, a: Attr) -> (u32, Seq<u8>, Seq<Seq<u8>>) {
    (
        0u32,
        a.tag@,
        seq![u64_le_bytes(obj as u64), a.name@, u64_le_bytes((obj + a.offset) as u64)],
    )
}

/// The calls for one object, walking its attributes in order; untagged
/// attributes are skipped.
pub open spec fn calls_for_attrs(obj: u32, attrs: Seq<Attr>) -> Seq<(u32, Seq<u8>, Seq<Seq<u8>>)>
    decreases attrs.len(),
{
    if attrs.len() == 0 {
        Seq::empty()
    } else {
        calls_for_attrs(obj, attrs.drop_last()) + (if attrs.last().tag@.len() > 0 {
            seq![attr_call(obj, attrs.last())]
        } else {
            Seq::<(u32, Seq<u8>, Seq<Seq<u8>>)>::empty()
        })
    }
}

/// The calls for one type: every object, every tagged attribute.
pub open spec fn calls_for_objects(objs: Seq<u32>, attrs: Seq<Attr>) -> Seq<
    (u32, Seq<u8>, Seq<Seq<u8>>),
>
    decreases objs.len(),
{
    if objs.len() == 0 {
        Seq::empty()
    } else {
        calls_for_objects(objs.drop_last(), attrs) + calls_for_attrs(objs.last(), attrs)
    }
}

/// Every writeback call of the whole reflection table, in walk order.
pub open spec fn wb_calls(tys: Seq<TypeDesc>) -> Seq<(u32, Seq<u8>, Seq<Seq<u8>>)>
    decreases tys.len(),
{
    if tys.len() == 0 {
        Seq::empty()
    } else {
        wb_calls(tys.drop_last()) + calls_for_objects(
            tys.last().objects@,
            tys.last().attributes@,
        )
    }
}

/// The call's marshalled form fits one frame slot of `frame_size` bytes.
pub open spec fn call_fits(c: (u32, Seq<u8>, Seq<Seq<u8>>), frame_size: usize) -> bool {
    payload_bytes(c.0, c.1, c.2).len() + 4 <= frame_size
}

/// The frames the calls leave in the queue: one per fitting call, in order.
pub open spec fn wb_queued(calls: Seq<(u32, Seq<u8>, Seq<Seq<u8>>)>, frame_size: usize) -> Seq<
    Seq<u8>,
>
    decreases calls.len(),
{
    if calls.len() == 0 {
        Seq::empty()
    } else {
        wb_queued(calls.drop_last(), frame_size) + (if call_fits(calls.last(), frame_size) {
            seq![frame_bytes(payload_bytes(calls.last().0, calls.last().1, calls.last().2))]
        } else {
            Seq::<Seq<u8>>::empty()
        })
    }
}

/// The calls that overflow a frame and go out on the synchronous mailbox
/// path instead, in order.
pub open spec fn wb_fallbacks(calls: Seq<(u32, Seq<u8>, Seq<Seq<u8>>)>, frame_size: usize) -> Seq<
    (u32, Seq<u8>, Seq<Seq<u8>>),
>
    decreases calls.len(),
{
    if calls.len() == 0 {
        Seq::empty()
    } else {
        wb_fallbacks(calls.drop_last(), frame_size) + (if call_fits(calls.last(), frame_size) {
            Seq::<(u32, Seq<u8>, Seq<Seq<u8>>)>::empty()
        } else {
            seq![calls.last()]
        })
    }
}

/// FIFO delivery of asynchronous calls: when every call of a run fits one
/// frame, the queue receives exactly one frame per call, carrying that
/// call's marshalled bytes, in the order the calls were issued — and none
/// falls back to the synchronous mailbox path.
pub proof fn lemma_fitting_calls_fifo(calls: Seq<(u32, Seq<u8>, Seq<Seq<u8>>)>, frame_size: usize)
    requires
        forall|k: int| 0 <= k < calls.len() ==> call_fits(#[trigger] calls[k], frame_size),
    ensures
        wb_queued(calls, frame_size).len() == calls.len(),
        forall|k: int|
            0 <= k < calls.len() ==> #[trigger] wb_queued(calls, frame_size)[k] == frame_bytes(
                payload_bytes(calls[k].0, calls[k].1, calls[k].2),
            ),
        wb_fallbacks(calls, frame_size) =~= Seq::<(u32, Seq<u8>, Seq<Seq<u8>>)>::empty(),
    decreases calls.len(),
{
    if calls.len() != 0 {
        assert(forall|k: int|
            0 <= k < calls.drop_last().len() ==> call_fits(
                #[trigger] calls.drop_last()[k],
                frame_size,
            ));
        lemma_fitting_calls_fifo(calls.drop_last(), frame_size);
        assert(calls.last() == calls[calls.len() - 1]);
        assert(call_fits(calls.last(), frame_size));
    }
}

/// A run whose image declares exactly one type with one live object and one
/// tagged attribute performs exactly one writeback call: the one for that
/// object/attribute pair.
pub proof fn lemma_single_attribute_writeback(ty: TypeDesc)
    requires
        ty.objects@.len() == 1,
        ty.attributes@.len() == 1,
        ty.attributes@[0].tag@.len() > 0,
    ensures
        wb_calls(seq![ty]) =~= seq![attr_call(ty.objects@[0], ty.attributes@[0])],
{
    let tys = seq![ty];
    assert(tys.drop_last() =~= Seq::<TypeDesc>::empty());
    assert(tys.last() == ty);
    let objs = ty.objects@;
    let attrs = ty.attributes@;
    assert(objs.drop_last() =~= Seq::<u32>::empty());
    assert(objs.last() == objs[0]);
    assert(attrs.drop_last() =~= Seq::<Attr>::empty());
    assert(attrs.last() == attrs[0]);
    assert(calls_for_attrs(objs[0], Seq::<Attr>::empty()) =~= Seq::<(u32, Seq<u8>, Seq<Seq<u8>>)>::empty());
    assert(calls_for_attrs(objs[0], attrs) =~= calls_for_attrs(objs[0], attrs.drop_last())
        + seq![attr_call(objs[0], attrs.last())]);
    assert(calls_for_attrs(objs[0], attrs) =~= seq![attr_call(objs[0], attrs[0])]);
    assert(calls_for_objects(Seq::<u32>::empty(), attrs) =~= Seq::<(u32, Seq<u8>, Seq<Seq<u8>>)>::empty());
    assert(calls_for_objects(objs, attrs) =~= seq![attr_call(objs[0], attrs[0])]);
    assert(wb_calls(Seq::<TypeDesc>::empty()) =~= Seq::<(u32, Seq<u8>, Seq<Seq<u8>>)>::empty());
}

/// Every tag and name of the reflection table is addressable by the frame
/// format's 32-bit length fields.
pub open spec fn attrs_bounded(tys: Seq<TypeDesc>) -> bool {
    forall|i: int, j: int|
        0 <= i < tys.len() && 0 <= j < tys[i].attributes@.len() ==> ((#[trigger] tys[i].attributes@[j].tag@).len()
            <= u32::MAX && tys[i].attributes@[j].name@.len() <= u32::MAX)
}

/// Rendering of the drain-to-empty wait before a synchronous fallback: a
/// call that overflows a frame may only come up when the queue is empty —
/// nothing pending at entry, no fitting call before it.
pub open spec fn wb_sendable(pending: int, calls: Seq<(u32, Seq<u8>, Seq<Seq<u8>>)>,
    frame_size: usize) -> bool {
    forall|i: int|
        0 <= i < calls.len() && !call_fits(#[trigger] calls[i], frame_size) ==> pending
            + wb_queued(calls.take(i), frame_size).len() == 0
}

/// The views of collected calls.
pub open spec fn call_views(calls: Seq<(u32, Vec<u8>, Vec<Vec<u8>>)>) -> Seq<
    (u32, Seq<u8>, Seq<Seq<u8>>),
> {
    calls.map_values(|c: (u32, Vec<u8>, Vec<Vec<u8>>)| (c.0, c.1@, args_views(c.2@)))
}

/// Walk the reflection table — a type, its live objects, their tagged
/// attributes, in that nesting — and collect the RPC each step issues.
fn collect_writeback_calls(typeinfo: &Vec<TypeDesc>) -> (calls: Vec<(u32, Vec<u8>, Vec<Vec<u8>>)>)
    requires
        attrs_bounded(typeinfo@),
    ensures
        call_views(calls@) == wb_calls(typeinfo@),
        forall|k: int|
            0 <= k < calls@.len() ==> (#[trigger] calls@[k]).1@.len() <= u32::MAX
                && calls@[k].2@.len() == 3 && (forall|j: int|
                0 <= j < calls@[k].2@.len() ==> (#[trigger] calls@[k].2@[j])@.len()
                    <= u32::MAX),
{
    let mut calls: Vec<(u32, Vec<u8>, Vec<Vec<u8>>)> = Vec::new();
    let mut t: usize = 0;
    while t < typeinfo.len()
        invariant
            0 <= t <= typeinfo@.len(),
            attrs_bounded(typeinfo@),
            call_views(calls@) == wb_calls(typeinfo@.take(t as int)),
            forall|k: int|
                0 <= k < calls@.len() ==> (#[trigger] calls@[k]).1@.len() <= u32::MAX
                    && calls@[k].2@.len() == 3 && (forall|j: int|
                    0 <= j < calls@[k].2@.len() ==> (#[trigger] calls@[k].2@[j])@.len()
                        <= u32::MAX),
        decreases typeinfo@.len() - t,
    {
        let ty = &typeinfo[t];
        let mut o: usize = 0;
        while o < ty.objects.len()
            invariant
                0 <= t < typeinfo@.len(),
                0 <= o <= ty.objects@.len(),
                attrs_bounded(typeinfo@),
                *ty == typeinfo@[t as int],
                call_views(calls@) == wb_calls(typeinfo@.take(t as int)) + calls_for_objects(
                    ty.objects@.take(o as int),
                    ty.attributes@,
                ),
                forall|k: int|
                    0 <= k < calls@.len() ==> (#[trigger] calls@[k]).1@.len() <= u32::MAX
                        && calls@[k].2@.len() == 3 && (forall|j: int|
                        0 <= j < calls@[k].2@.len() ==> (#[trigger] calls@[k].2@[j])@.len()
                            <= u32::MAX),
            decreases ty.objects@.len() - o,
        {
            let obj = ty.objects[o];
            let mut a: usize = 0;
            while a < ty.attributes.len()
                invariant
                    0 <= t < typeinfo@.len(),
                    0 <= o < ty.objects@.len(),
                    0 <= a <= ty.attributes@.len(),
                    attrs_bounded(typeinfo@),
                    *ty == typeinfo@[t as int],
                    obj == ty.objects@[o as int],
                    call_views(calls@) == wb_calls(typeinfo@.take(t as int)) + calls_for_objects(
                        ty.objects@.take(o as int),
                        ty.attributes@,
                    ) + calls_for_attrs(obj, ty.attributes@.take(a as int)),
                    forall|k: int|
                        0 <= k < calls@.len() ==> (#[trigger] calls@[k]).1@.len() <= u32::MAX
                            && calls@[k].2@.len() == 3 && (forall|j: int|
                            0 <= j < calls@[k].2@.len() ==> (#[trigger] calls@[k].2@[j])@.len()
                                <= u32::MAX),
                decreases ty.attributes@.len() - a,
            {
                let attr = &ty.attributes[a];
                if attr.tag.len() > 0 {
                    let mut obj_word: Vec<u8> = Vec::new();
                    push_u64_le(&mut obj_word, obj as u64);
                    let mut field_word: Vec<u8> = Vec::new();
                    push_u64_le(&mut field_word, (obj as u64) + (attr.offset as u64));
                    let tag = attr.tag.clone();
                    let name = attr.name.clone();
                    let mut data: Vec<Vec<u8>> = Vec::new();
                    data.push(obj_word);
                    data.push(name);
                    data.push(field_word);
                    let ghost prev = calls@;
                    let ghost tagv = tag@;
                    let ghost datav = args_views(data@);
                    proof {
                        assert(tagv.len() <= u32::MAX);
                        assert(datav =~= seq![
                            u64_le_bytes(obj as u64),
                            ty.attributes@[a as int].name@,
                            u64_le_bytes((obj + ty.attributes@[a as int].offset) as u64),
                        ]);
                    }
                    calls.push((0u32, tag, data));
                    proof {
                        assert(call_views(calls@) =~= call_views(prev).push((0u32, tagv, datav)));
                        assert((0u32, tagv, datav) == attr_call(obj, ty.attributes@[a as int]));
                    }
                }
                a = a + 1;
                proof {
                    let attrs = ty.attributes@;
                    assert(attrs.take(a as int).drop_last() =~= attrs.take(a - 1));
                    assert(attrs.take(a as int).last() == attrs[a - 1]);
                    assert(call_views(calls@) =~= wb_calls(typeinfo@.take(t as int))
                        + calls_for_objects(ty.objects@.take(o as int), attrs)
                        + calls_for_attrs(obj, attrs.take(a as int)));
                }
            }
            o = o + 1;
            proof {
                assert(ty.attributes@.take(ty.attributes@.len() as int) =~= ty.attributes@);
                assert(ty.objects@.take(o as int).drop_last() =~= ty.objects@.take(o - 1));
                assert(ty.objects@.take(o as int).last() == ty.objects@[o - 1]);
            }
        }
        t = t + 1;
        proof {
            assert(ty.objects@.take(ty.objects@.len() as int) =~= ty.objects@);
            assert(typeinfo@.take(t as int).drop_last() =~= typeinfo@.take(t - 1));
            assert(typeinfo@.take(t as int).last() == typeinfo@[t - 1]);
        }
    }
    proof {
        assert(typeinfo@.take(typeinfo@.len() as int) =~= typeinfo@);
    }
    calls
}

/// Issue the collected calls in order through the asynchronous RPC path:
/// each call lands in the queue, or — if it overflows a frame — goes out on
/// the mailbox with `is_async` set. No call is lost.
fn issue_writeback_calls(out: &mut Vec<Message>, q: &mut RpcQueue, calls: Vec<
    (u32, Vec<u8>, Vec<Vec<u8>>),
>)
    requires
        old(q).wf(),
        old(q).frames().len() + calls@.len() <= old(q).depth(),
        forall|k: int|
            0 <= k < calls@.len() ==> call_bounded(
                (#[trigger] calls@[k]).1@,
                args_views(calls@[k].2@),
            ),
        wb_sendable(
            old(q).frames().len() as int,
            call_views(calls@),
            old(q).frame_size(),
        ),
    ensures
        final(q).wf(),
        final(q).depth() == old(q).depth(),
        final(q).frame_size() == old(q).frame_size(),
        final(q).frames() == old(q).frames() + wb_queued(
            call_views(calls@),
            old(q).frame_size(),
        ),
        final(out)@.len() == old(out)@.len() + wb_fallbacks(
            call_views(calls@),
            old(q).frame_size(),
        ).len(),
        final(out)@.subrange(0, old(out)@.len() as int) == old(out)@,
        forall|k: int|
            0 <= k < wb_fallbacks(call_views(calls@), old(q).frame_size()).len()
                ==> (#[trigger] final(out)@[old(out)@.len() + k] matches Message::RpcSend {
                is_async: true,
                service,
                tag,
                data,
            } && (service, tag@, args_views(data@)) == wb_fallbacks(
                call_views(calls@),
                old(q).frame_size(),
            )[k]),
{
    let ghost orig = calls@;
    let ghost fs = old(q).frame_size();
    let mut calls = calls;
    let total = calls.len();
    let mut i: usize = 0;
    proof {
        assert(orig.len() == total);
        assert(orig.take(0) =~= Seq::<(u32, Vec<u8>, Vec<Vec<u8>>)>::empty());
        assert(call_views(orig.take(0)) =~= Seq::<(u32, Seq<u8>, Seq<Seq<u8>>)>::empty());
    }
    while calls.len() > 0
        invariant
            q.wf(),
            q.depth() == old(q).depth(),
            q.frame_size() == fs,
            fs == old(q).frame_size(),
            i + calls@.len() == orig.len(),
            orig.len() <= usize::MAX,
            calls@ == orig.skip(i as int),
            forall|k: int|
                0 <= k < orig.len() ==> call_bounded(
                    (#[trigger] orig[k]).1@,
                    args_views(orig[k].2@),
                ),
            wb_sendable(old(q).frames().len() as int, call_views(orig), fs),
            q.frames().len() + calls@.len() <= q.depth(),
            q.frames() == old(q).frames() + wb_queued(call_views(orig.take(i as int)), fs),
            out@.len() == old(out)@.len() + wb_fallbacks(
                call_views(orig.take(i as int)),
                fs,
            ).len(),
            out@.subrange(0, old(out)@.len() as int) == old(out)@,
            forall|k: int|
                0 <= k < wb_fallbacks(call_views(orig.take(i as int)), fs).len()
                    ==> (#[trigger] out@[old(out)@.len() + k] matches Message::RpcSend {
                    is_async: true,
                    service,
                    tag,
                    data,
                } && (service, tag@, args_views(data@)) == wb_fallbacks(
                    call_views(orig.take(i as int)),
                    fs,
                )[k]),
        decreases calls@.len(),
    {
        proof {
            assert(calls@[0] == orig[i as int]);
            let cv = call_views(orig);
            assert(cv[i as int] == (orig[i as int].0, orig[i as int].1@, args_views(
                orig[i as int].2@,
            )));
            assert(call_views(orig.take(i as int)) =~= cv.take(i as int));
            if !call_fits(cv[i as int], fs) {
                assert(old(q).frames().len() + wb_queued(cv.take(i as int), fs).len() == 0);
                assert(q.frames().len() == 0);
            }
        }
        let c = calls.remove(0);
        rpc_send_async(out, q, c.0, c.1, c.2);
        i = i + 1;
        proof {
            assert(calls@ =~= orig.skip(i as int));
            let views = call_views(orig.take(i as int));
            assert(orig.take(i as int).drop_last() =~= orig.take(i - 1));
            assert(orig.take(i as int).last() == orig[i - 1]);
            assert(views =~= call_views(orig.take(i - 1)).push(
                (orig[i - 1].0, orig[i - 1].1@, args_views(orig[i - 1].2@)),
            ));
            assert(views.drop_last() =~= call_views(orig.take(i - 1)));
            assert(q.frames() =~= old(q).frames() + wb_queued(views, fs));
            assert(out@.subrange(0, old(out)@.len() as int) =~= old(out)@);
        }
    }
    proof {
        assert(orig.skip(orig.len() as int) =~= Seq::<(u32, Vec<u8>, Vec<Vec<u8>>)>::empty());
        assert(orig.take(orig.len() as int) =~= orig);
    }
}

/// `mem` with every byte of `[start, end)` zeroed.
pub open spec fn zero_range(mem: Seq<u8>, start: int, end: int) -> Seq<u8> {
    Seq::new(mem.len(), |i: int| if start <= i < end { 0u8 } else { mem[i] })
}

/// Zero the uninitialized-data region of the mapped image.
fn zero_bss(mem: &mut Vec<u8>, start: usize, end: usize)
    requires
        start <= end <= old(mem)@.len(),
    ensures
        final(mem)@ == zero_range(old(mem)@, start as int, end as int),
{
    let mut i: usize = start;
    while i < end
        invariant
            start <= i <= end <= mem@.len(),
            mem@.len() == old(mem)@.len(),
            forall|j: int| start <= j < i ==> mem@[j] == 0u8,
            forall|j: int| 0 <= j < mem@.len() && !(start <= j < i) ==> mem@[j] == old(mem)@[j],
        decreases end - i,
    {
        mem[i] = 0u8;
        i = i + 1;
    }
    assert(mem@ =~= zero_range(old(mem)@, start as int, end as int));
}

/// What one load-and-run of the kernel core leaves behind: every message it
/// sent over the mailbox in order, the mapped image (after bss zeroing), and
/// the entry-point address control was transferred to — `None` when the load
/// failed and the init entry point was never invoked.
pub struct RunOutcome {
    pub sent: Vec<Message>,
    pub library: Option<Library>,
    pub entry: Option<u32>,
}

/// The writeback calls a run will issue: the whole reflection table's, or
/// none when the image does not expose one.
pub open spec fn run_calls(typeinfo: Option<Vec<TypeDesc>>) -> Seq<(u32, Seq<u8>, Seq<Seq<u8>>)> {
    match typeinfo {
        Some(tys) => wb_calls(tys@),
        None => Seq::empty(),
    }
}

/// One full kernel-core run, from `LoadRequest` payload to `RunFinished`:
/// load and map `image` at `base`, reply with the outcome, zero the bss
/// region, exchange the logical-time baseline (`now_init` is the runtime
/// core's `NowInitReply`), transfer control to `__modinit__` (which leaves
/// the clock at `now_after`), persist the time, walk `typeinfo` — the
/// decoded reflection table, present exactly when the image exports the
/// `typeinfo` symbol — and finish. A failed load is reported and nothing
/// runs: no entry point, no writeback, no `RunFinished`.
///
/// The model has no concurrently draining consumer, so the busy-waits of
/// the writeback path become preconditions: the queue must have room for
/// the whole walk, and a call that overflows a frame must find the queue
/// empty.
pub fn kernel_run(q: &mut RpcQueue, image: Image, base: u32, window_size: usize,
    api: &Vec<ApiEntry>, now_init: u64, now_after: u64, typeinfo: Option<Vec<TypeDesc>>) -> (r:
    RunOutcome)
    requires
        old(q).wf(),
        base + window_size <= u32::MAX,
        find_export(image.exports@, bss_start_name()) is Some,
        find_export(image.exports@, end_name()) is Some,
        find_export(image.exports@, modinit_name()) is Some,
        find_export(image.exports@, bss_start_name())->0 <= find_export(
            image.exports@,
            end_name(),
        )->0 <= image.data@.len(),
        typeinfo is Some <==> find_export(image.exports@, typeinfo_name()) is Some,
        typeinfo matches Some(tys) ==> attrs_bounded(tys@),
        old(q).frames().len() + run_calls(typeinfo).len() <= old(q).depth(),
        wb_sendable(old(q).frames().len() as int, run_calls(typeinfo), old(q).frame_size()),
        now_init <= now_after,
    ensures
        final(q).wf(),
        final(q).depth() == old(q).depth(),
        final(q).frame_size() == old(q).frame_size(),
        ({
            let malformed = image.data@.len() > window_size || !exports_in_range(
                image.exports@,
                image.data@.len(),
            );
            let unresolved = first_unresolved(image.imports@, api@);
            let relocs_ok = relocs_in_range(image.relocs@, image.data@.len());
            let calls = run_calls(typeinfo);
            let fb = wb_fallbacks(calls, old(q).frame_size());
            if malformed {
                &&& r.sent@.len() == 1
                &&& r.sent@[0] matches Message::LoadReply(Err(LoadError::InvalidFormat))
                &&& r.library is None
                &&& r.entry is None
                &&& final(q).frames() == old(q).frames()
            } else if unresolved is Some {
                &&& r.sent@.len() == 1
                &&& r.sent@[0] matches Message::LoadReply(Err(LoadError::Unresolved(n))) && n@
                    == unresolved->0
                &&& r.library is None
                &&& r.entry is None
                &&& final(q).frames() == old(q).frames()
            } else if !relocs_ok {
                &&& r.sent@.len() == 1
                &&& r.sent@[0] matches Message::LoadReply(Err(LoadError::RelocationOutOfRange))
                &&& r.library is None
                &&& r.entry is None
                &&& final(q).frames() == old(q).frames()
            } else {
                &&& r.sent@.len() == 4 + fb.len()
                &&& r.sent@[0] matches Message::LoadReply(Ok(u)) && u == ()
                &&& r.sent@[1] == Message::NowInitRequest
                &&& r.sent@[2] == Message::NowSave(now_after)
                &&& forall|k: int|
                    0 <= k < fb.len() ==> (#[trigger] r.sent@[3 + k] matches Message::RpcSend {
                        is_async: true,
                        service,
                        tag,
                        data,
                    } && (service, tag@, args_views(data@)) == fb[k])
                &&& r.sent@.last() == Message::RunFinished
                &&& r.entry == Some(
                    (base + find_export(image.exports@, modinit_name())->0) as u32,
                )
                &&& r.library matches Some(lib) && {
                    &&& lib.wf()
                    &&& lib.base == base
                    &&& lib.exports == image.exports
                    &&& lib.imports@.len() == image.imports@.len()
                    &&& forall|i: int|
                        0 <= i < image.imports@.len() ==> (#[trigger] lib.imports@[i]).name@
                            == image.imports@[i]@ && lib.imports@[i].addr == api_lookup(
                            api@,
                            image.imports@[i]@,
                        )->0
                    &&& lib.memory@ == zero_range(
                        apply_relocs(image.data@, image.relocs@, base),
                        find_export(image.exports@, bss_start_name())->0 as int,
                        find_export(image.exports@, end_name())->0 as int,
                    )
                }
                &&& final(q).frames() == old(q).frames() + wb_queued(
                    calls,
                    old(q).frame_size(),
                )
            }
        }),
{
    let ghost exports = image.exports@;
    let ghost ticalls = run_calls(typeinfo);
    let ghost fs = old(q).frame_size();
    let mut sent: Vec<Message> = Vec::new();
    let mut lib = match load(image, base, window_size, api) {
        Err(e) => {
            sent.push(Message::LoadReply(Err(e)));
            return RunOutcome { sent, library: None, entry: None };
        },
        Ok(lib) => {
            sent.push(Message::LoadReply(Ok(())));
            lib
        },
    };
    let bss_abs = match lib.lookup("__bss_start".as_bytes()) {
        Some(a) => a,
        None => vstd::pervasive::unreached(),
    };
    let end_abs = match lib.lookup("_end".as_bytes()) {
        Some(a) => a,
        None => vstd::pervasive::unreached(),
    };
    let modinit_abs = match lib.lookup("__modinit__".as_bytes()) {
        Some(a) => a,
        None => vstd::pervasive::unreached(),
    };
    proof {
        assert(lib.exports@ == exports);
        assert(bss_abs == base + find_export(exports, bss_start_name())->0);
        assert(end_abs == base + find_export(exports, end_name())->0);
    }
    let start = (bss_abs - base) as usize;
    let stop = (end_abs - base) as usize;
    zero_bss(&mut lib.memory, start, stop);
    sent.push(Message::NowInitRequest);
    sent.push(Message::NowSave(now_after));
    let ghost pre_wb = sent@;
    match typeinfo {
        Some(tys) => {
            proof {
                assert(ticalls == wb_calls(tys@));
            }
            let calls = collect_writeback_calls(&tys);
            proof {
                assert forall|k: int| 0 <= k < calls@.len() implies call_bounded(
                    (#[trigger] calls@[k]).1@,
                    args_views(calls@[k].2@),
                ) by {
                    assert(calls@[k].1@.len() <= u32::MAX);
                    assert(calls@[k].2@.len() == 3);
                    assert(args_views(calls@[k].2@).len() == calls@[k].2@.len());
                    assert(forall|j: int|
                        0 <= j < calls@[k].2@.len() ==> #[trigger] args_views(calls@[k].2@)[j]
                            == calls@[k].2@[j]@);
                }
                assert(call_views(calls@) == ticalls);
            }
            issue_writeback_calls(&mut sent, q, calls);
        },
        None => {
            proof {
                assert(ticalls =~= Seq::<(u32, Seq<u8>, Seq<Seq<u8>>)>::empty());
                assert(wb_queued(ticalls, fs) =~= Seq::<Seq<u8>>::empty());
                assert(wb_fallbacks(ticalls, fs) =~= Seq::<(u32, Seq<u8>, Seq<Seq<u8>>)>::empty());
                assert(sent@.subrange(0, 3) =~= pre_wb);
            }
        },
    }
    let ghost mid = sent@;
    proof {
        let fb = wb_fallbacks(ticalls, fs);
        assert(mid.subrange(0, 3) == pre_wb);
        assert(mid.len() == 3 + fb.len());
        assert(q.frames() == old(q).frames() + wb_queued(ticalls, fs));
    }
    sent.push(Message::RunFinished);
    proof {
        let fb = wb_fallbacks(ticalls, fs);
        assert(sent@.len() == 4 + fb.len());
        assert(sent@[0] == pre_wb[0]) by {
            assert(sent@[0] == mid[0]);
            assert(mid[0] == mid.subrange(0, 3)[0]);
        }
        assert(sent@[1] == pre_wb[1]) by {
            assert(sent@[1] == mid[1]);
            assert(mid[1] == mid.subrange(0, 3)[1]);
        }
        assert(sent@[2] == pre_wb[2]) by {
            assert(sent@[2] == mid[2]);
            assert(mid[2] == mid.subrange(0, 3)[2]);
        }
        assert(forall|k: int| 0 <= k < fb.len() ==> #[trigger] sent@[3 + k] == mid[3 + k]);
        assert(sent@.last() == Message::RunFinished);
    }
    RunOutcome { sent, library: Some(lib), entry: Some(modinit_abs) }
}

} // verus!
