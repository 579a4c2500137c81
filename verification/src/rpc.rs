//! Remote procedure calls issued by the kernel core.
//!
//! An asynchronous call is marshalled into one length-prefixed frame of the
//! RPC queue: service id, tag string, then the argument table, each argument
//! as its own length-prefixed byte string (an address crosses as its eight
//! little-endian bytes, a name as its bytes). If the marshalled arguments
//! overflow a frame's capacity, the call falls back to the synchronous
//! mailbox path with `is_async` set, so overflow never loses the call — only
//! its non-blocking property; the fallback is issued only once the queue has
//! drained, so it is never observed ahead of frames enqueued before it. A
//! synchronous call likewise requires the queue to be drained first, so that
//! outstanding asynchronous calls are observed before a call that expects an
//! immediate reply.

use vstd::prelude::*;
use vstd::string::StringSliceAdditionalSpecFns;
use crate::mailbox::log_unexpected_reply;
use crate::msg::{Fault, Message};
use crate::rpc_queue::{frame_bytes, RpcQueue};
use crate::wire::{push_u32_le, u32_le_bytes};

verus! {

/// The views of an argument table.
pub open spec fn args_views(data: Seq<Vec<u8>>) -> Seq<Seq<u8>> {
    data.map_values(|b: Vec<u8>| b@)
}

/// The marshalled argument table: each argument length-prefixed, in order.
pub open spec fn args_bytes(args: Seq<Seq<u8>>) -> Seq<u8>
    decreases args.len(),
{
    if args.len() == 0 {
        Seq::empty()
    } else {
        args_bytes(args.drop_last()) + u32_le_bytes(args.last().len() as u32) + args.last()
    }
}

/// The marshalled form of one call: service id, length-prefixed tag string,
/// then the argument table with its count.
pub open spec fn payload_bytes(service: u32, tag: Seq<u8>, args: Seq<Seq<u8>>) -> Seq<u8> {
    u32_le_bytes(service) + u32_le_bytes(tag.len() as u32) + tag + u32_le_bytes(
        args.len() as u32,
    ) + args_bytes(args)
}

/// Every string of the call is addressable by the format's 32-bit length
/// fields.
pub open spec fn call_bounded(tag: Seq<u8>, args: Seq<Seq<u8>>) -> bool {
    &&& tag.len() <= u32::MAX
    &&& args.len() <= u32::MAX
    &&& forall|j: int| 0 <= j < args.len() ==> (#[trigger] args[j]).len() <= u32::MAX
}

/// Marshal `(service, tag, data)` into the payload of one RPC frame.
pub fn marshal(service: u32, tag: &Vec<u8>, data: &Vec<Vec<u8>>) -> (r: Vec<u8>)
    requires
        call_bounded(tag@, args_views(data@)),
    ensures
        r@ == payload_bytes(service, tag@, args_views(data@)),
{
    let ghost args = args_views(data@);
    let mut r: Vec<u8> = Vec::new();
    push_u32_le(&mut r, service);
    push_u32_le(&mut r, tag.len() as u32);
    r.extend_from_slice(tag.as_slice());
    push_u32_le(&mut r, data.len() as u32);
    let ghost head: Seq<u8> = r@;
    let mut i: usize = 0;
    while i < data.len()
        invariant
            0 <= i <= data@.len(),
            args == args_views(data@),
            args.len() == data@.len(),
            forall|j: int| 0 <= j < args.len() ==> (#[trigger] args[j]).len() <= u32::MAX,
            forall|j: int| 0 <= j < args.len() ==> args[j] == data@[j]@,
            r@ == head + args_bytes(args.take(i as int)),
        decreases data@.len() - i,
    {
        push_u32_le(&mut r, data[i].len() as u32);
        r.extend_from_slice(data[i].as_slice());
        i = i + 1;
        assert(args.take(i as int).drop_last() =~= args.take(i - 1));
        assert(args.take(i as int).last() == args[i - 1]);
        assert(r@ =~= head + args_bytes(args.take(i as int)));
    }
    assert(args.take(args.len() as int) =~= args);
    r
}

/// An asynchronous (fire-and-forget) call. The completed busy-wait on queue
/// occupancy is the precondition that the queue is not full; the completed
/// drain-to-empty wait before a fallback is the precondition that the call
/// either fits a frame or finds the queue empty. If the marshalled call fits
/// one frame it is enqueued and nothing crosses the mailbox; otherwise the
/// queue is left untouched and the call goes out on the synchronous path,
/// marked asynchronous.
pub fn rpc_send_async(out: &mut Vec<Message>, q: &mut RpcQueue, service: u32, tag: Vec<u8>,
    data: Vec<Vec<u8>>)
    requires
        old(q).wf(),
        !old(q).is_full(),
        call_bounded(tag@, args_views(data@)),
        old(q).fits(payload_bytes(service, tag@, args_views(data@))) || old(q).is_empty(),
    ensures
        final(q).wf(),
        final(q).depth() == old(q).depth(),
        final(q).frame_size() == old(q).frame_size(),
        if old(q).fits(payload_bytes(service, tag@, args_views(data@))) {
            final(q).frames() == old(q).frames().push(
                frame_bytes(payload_bytes(service, tag@, args_views(data@))),
            ) && final(out)@ == old(out)@
        } else {
            final(q).frames() == old(q).frames() && final(out)@ == old(out)@.push(
                (Message::RpcSend { is_async: true, service, tag, data }),
            )
        },
{
    let payload = marshal(service, &tag, &data);
    match q.enqueue(payload) {
        Ok(()) => (),
        Err(()) => {
            out.push(Message::RpcSend { is_async: true, service, tag, data });
        },
    }
}

/// A synchronous call. It is issued only once the queue is empty, so the
/// effects of earlier asynchronous calls are never reordered after it.
pub fn rpc_send(out: &mut Vec<Message>, q: &RpcQueue, service: u32, tag: Vec<u8>,
    data: Vec<Vec<u8>>)
    requires
        q.is_empty(),
    ensures
        final(out)@ == old(out)@.push(
            (Message::RpcSend { is_async: false, service, tag, data }),
        ),
{
    out.push(Message::RpcSend { is_async: false, service, tag, data });
}

/// Ask for the reply to the outstanding RPC; `slot` is the address of the
/// caller-provided storage for the decoded return value.
pub fn rpc_recv_request(out: &mut Vec<Message>, slot: u64)
    ensures
        final(out)@ == old(out)@.push(Message::RpcRecvRequest(slot)),
{
    out.push(Message::RpcRecvRequest(slot));
}

/// Interpret the peer's reply: an allocation size on success, a foreign
/// exception to re-raise locally, or — on any other variant — a protocol
/// violation, logged, after which the core must halt.
pub fn rpc_recv_finish(out: &mut Vec<Message>, reply: Message) -> (r: Result<u64, Fault>)
    ensures
        reply matches Message::RpcRecvReply(Ok(size)) ==> r == Result::<u64, Fault>::Ok(size)
            && final(out)@ == old(out)@,
        reply matches Message::RpcRecvReply(Err(e)) ==> r == Result::<u64, Fault>::Err(
            Fault::Exception(e),
        ) && final(out)@ == old(out)@,
        !(reply matches Message::RpcRecvReply(_)) ==> r == Result::<u64, Fault>::Err(
            Fault::ProtocolViolation,
        ) && final(out)@.len() == old(out)@.len() + 1 && final(out)@.subrange(
            0,
            old(out)@.len() as int,
        ) == old(out)@ && (final(out)@.last() matches Message::Log(m) && m@
            == "unexpected reply\n".spec_bytes()),
{
    match reply {
        Message::RpcRecvReply(Ok(size)) => Ok(size),
        Message::RpcRecvReply(Err(e)) => Err(Fault::Exception(e)),
        _ => {
            log_unexpected_reply(out);
            Err(Fault::ProtocolViolation)
        },
    }
}

} // verus!
