//! The exception channel: constructing structured exceptions, and the
//! top-level fault path that translates a raw return-address backtrace into
//! image-relative offsets and serializes the exception to the runtime core.
//!
//! Raising transfers control to the nearest recovery point; at the library
//! boundary that is a `Result` carrying the `Exception` value. Only the
//! unrecoverable top level (`terminate`) crosses the mailbox.

use vstd::prelude::*;
use crate::msg::{Exception, Message, KERNELCPU_PAYLOAD_ADDRESS};

verus! {

/// Build an exception value at a raise site. The name follows the
/// `"<revision>:artiq.coredevice.exceptions.<Name>"` convention; `message`
/// is a format template whose placeholders refer to the numeric parameters.
pub fn make_exception(name: &str, file: &str, message: &str, p0: i64, p1: i64, p2: i64) -> (e:
    Exception)
    ensures
        e.name@ == name@,
        e.file@ == file@,
        e.line == 0,
        e.column == 0,
        e.function@ == "(Rust function)"@,
        e.message@ == message@,
        e.param[0] == p0,
        e.param[1] == p1,
        e.param[2] == p2,
{
    Exception {
        name: name.to_owned(),
        file: file.to_owned(),
        line: 0,
        column: 0,
        function: "(Rust function)".to_owned(),
        message: message.to_owned(),
        param: [p0, p1, p2],
    }
}

/// `e` is the exception a given raise site constructs: same identity, same
/// provenance, same message template, and exactly these numeric parameters.
pub open spec fn exn_matches(e: Exception, name: Seq<char>, file: Seq<char>, message: Seq<char>,
    p0: i64, p1: i64, p2: i64) -> bool {
    &&& e.name@ == name
    &&& e.file@ == file
    &&& e.function@ == "(Rust function)"@
    &&& e.message@ == message
    &&& e.param[0] == p0
    &&& e.param[1] == p1
    &&& e.param[2] == p2
}

/// The backtrace as reported to the host: entries below the image base are
/// artifacts of the unwinder crossing into runtime-core code and are
/// dropped; the rest — the base itself becomes offset 0 — turn into offsets
/// relative to the base, in their original order.
pub open spec fn translated_backtrace(bt: Seq<u32>, base: u32) -> Seq<u32>
    decreases bt.len(),
{
    if bt.len() == 0 {
        Seq::empty()
    } else {
        translated_backtrace(bt.drop_last(), base) + (if bt.last() >= base {
            seq![(bt.last() - base) as u32]
        } else {
            Seq::<u32>::empty()
        })
    }
}

/// Filter a raw return-address backtrace against the image base.
pub fn filter_backtrace(backtrace: &Vec<u32>, base: u32) -> (r: Vec<u32>)
    ensures
        r@ == translated_backtrace(backtrace@, base),
{
    let mut r: Vec<u32> = Vec::new();
    let mut i: usize = 0;
    while i < backtrace.len()
        invariant
            0 <= i <= backtrace@.len(),
            r@ == translated_backtrace(backtrace@.take(i as int), base),
        decreases backtrace@.len() - i,
    {
        let a = backtrace[i];
        if a >= base {
            r.push(a - base);
        }
        i = i + 1;
        assert(backtrace@.take(i as int).drop_last() =~= backtrace@.take(i - 1));
        assert(backtrace@.take(i as int).last() == backtrace@[i - 1]);
    }
    assert(backtrace@.take(backtrace@.len() as int) =~= backtrace@);
    r
}

/// The unrecoverable-fault path, distinct from a normal `RunFinished`: save
/// the logical time, then report the exception with its backtrace rewritten
/// relative to the image base. The kernel core halts afterwards; the caller
/// must not send anything further.
pub fn terminate(out: &mut Vec<Message>, exception: Exception, backtrace: Vec<u32>, now: u64)
    ensures
        final(out)@.len() == old(out)@.len() + 2,
        final(out)@.subrange(0, old(out)@.len() as int) == old(out)@,
        final(out)@[old(out)@.len() as int] == Message::NowSave(now),
        final(out)@.last() matches Message::RunException { exception: e, backtrace: b }
            && e == exception
            && b@ == translated_backtrace(backtrace@, KERNELCPU_PAYLOAD_ADDRESS),
{
    out.push(Message::NowSave(now));
    let filtered = filter_backtrace(&backtrace, KERNELCPU_PAYLOAD_ADDRESS);
    out.push(Message::RunException { exception, backtrace: filtered });
    assert(out@.subrange(0, old(out)@.len() as int) =~= old(out)@);
}

} // verus!
