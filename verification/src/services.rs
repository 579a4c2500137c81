//! The synchronous-RPC idiom services the kernel core offers a loaded
//! program: watchdogs, the key/value cache, the I2C bus, and the core log.
//! Each remote operation is a request builder (the message appended to the
//! outbox) and, where a reply is expected, a reply handler that either
//! yields the value, raises a structured exception, or reports a protocol
//! violation after which the core must halt.

use vstd::prelude::*;
use vstd::string::StringSliceAdditionalSpecFns;
use crate::eh::{exn_matches, make_exception};
use crate::mailbox::log_unexpected_reply;
use crate::msg::{Exception, Fault, Message};

verus! {

/// Ask the runtime core for a watchdog of `ms` milliseconds. A negative
/// timeout raises a `ValueError` without any message crossing the mailbox.
pub fn watchdog_set_request(out: &mut Vec<Message>, ms: i64) -> (r: Result<(), Exception>)
    ensures
        if ms < 0 {
            r matches Err(e) && exn_matches(
                e,
                "0:artiq.coredevice.exceptions.ValueError"@,
                "services"@,
                "cannot set a watchdog with a negative timeout"@,
                0,
                0,
                0,
            ) && final(out)@ == old(out)@
        } else {
            r is Ok && final(out)@ == old(out)@.push((Message::WatchdogSetRequest { ms: ms as u64 }))
        },
{
    if ms < 0 {
        return Err(
            make_exception(
                "0:artiq.coredevice.exceptions.ValueError",
                "services",
                "cannot set a watchdog with a negative timeout",
                0,
                0,
                0,
            ),
        );
    }
    out.push(Message::WatchdogSetRequest { ms: ms as u64 });
    Ok(())
}

/// Interpret the watchdog reply: the watchdog's id, or a logged protocol
/// violation.
pub fn watchdog_set_finish(out: &mut Vec<Message>, reply: Message) -> (r: Result<i32, Fault>)
    ensures
        reply matches Message::WatchdogSetReply { id } ==> r == Result::<i32, Fault>::Ok(
            id as i32,
        ) && final(out)@ == old(out)@,
        !(reply matches Message::WatchdogSetReply { .. }) ==> r == Result::<i32, Fault>::Err(
            Fault::ProtocolViolation,
        ) && final(out)@.len() == old(out)@.len() + 1 && final(out)@.subrange(
            0,
            old(out)@.len() as int,
        ) == old(out)@ && (final(out)@.last() matches Message::Log(m) && m@
            == "unexpected reply\n".spec_bytes()),
{
    match reply {
        Message::WatchdogSetReply { id } => Ok(id as i32),
        _ => {
            log_unexpected_reply(out);
            Err(Fault::ProtocolViolation)
        },
    }
}

/// Retire a watchdog. No reply is expected.
pub fn watchdog_clear(out: &mut Vec<Message>, id: i32)
    ensures
        final(out)@ == old(out)@.push((Message::WatchdogClear { id: id as u32 })),
{
    out.push(Message::WatchdogClear { id: id as u32 });
}

/// Ask for the cache row under `key`.
pub fn cache_get_request(out: &mut Vec<Message>, key: Vec<u8>)
    ensures
        final(out)@ == old(out)@.push((Message::CacheGetRequest { key })),
{
    out.push(Message::CacheGetRequest { key });
}

/// Interpret the cache-get reply: the row's values (empty when the key is
/// unknown), or a logged protocol violation.
pub fn cache_get_finish(out: &mut Vec<Message>, reply: Message) -> (r: Result<Vec<i32>, Fault>)
    ensures
        reply matches Message::CacheGetReply { value } ==> (r matches Ok(v) && v == value)
            && final(out)@ == old(out)@,
        !(reply matches Message::CacheGetReply { .. }) ==> (r matches Err(f) && f
            == Fault::ProtocolViolation) && final(out)@.len() == old(out)@.len() + 1 && final(out)@.subrange(0, old(out)@.len() as int) == old(out)@ && (final(out)@.last()
            matches Message::Log(m) && m@ == "unexpected reply\n".spec_bytes()),
{
    match reply {
        Message::CacheGetReply { value } => Ok(value),
        _ => {
            log_unexpected_reply(out);
            Err(Fault::ProtocolViolation)
        },
    }
}

/// Ask the runtime core to replace the cache row under `key`.
pub fn cache_put_request(out: &mut Vec<Message>, key: Vec<u8>, value: Vec<i32>)
    ensures
        final(out)@ == old(out)@.push((Message::CachePutRequest { key, value })),
{
    out.push(Message::CachePutRequest { key, value });
}

/// Interpret the cache-put reply: a refused put (the row is still borrowed
/// by a previous get) raises a `CacheError`; an unexpected variant is a
/// logged protocol violation.
pub fn cache_put_finish(out: &mut Vec<Message>, reply: Message) -> (r: Result<(), Fault>)
    ensures
        reply matches Message::CachePutReply { succeeded: true } ==> r is Ok && final(out)@
            == old(out)@,
        reply matches Message::CachePutReply { succeeded: false } ==> (r matches Err(
            Fault::Exception(e),
        ) && exn_matches(
            e,
            "0:artiq.coredevice.exceptions.CacheError"@,
            "services"@,
            "cannot put into a busy cache row"@,
            0,
            0,
            0,
        )) && final(out)@ == old(out)@,
        !(reply matches Message::CachePutReply { .. }) ==> r == Result::<(), Fault>::Err(
            Fault::ProtocolViolation,
        ) && final(out)@.len() == old(out)@.len() + 1 && final(out)@.subrange(
            0,
            old(out)@.len() as int,
        ) == old(out)@ && (final(out)@.last() matches Message::Log(m) && m@
            == "unexpected reply\n".spec_bytes()),
{
    match reply {
        Message::CachePutReply { succeeded } => {
            if succeeded {
                Ok(())
            } else {
                Err(
                    Fault::Exception(
                        make_exception(
                            "0:artiq.coredevice.exceptions.CacheError",
                            "services",
                            "cannot put into a busy cache row",
                            0,
                            0,
                            0,
                        ),
                    ),
                )
            }
        },
        _ => {
            log_unexpected_reply(out);
            Err(Fault::ProtocolViolation)
        },
    }
}

/// Issue an I2C start condition on bus `busno`.
pub fn i2c_start(out: &mut Vec<Message>, busno: i32)
    ensures
        final(out)@ == old(out)@.push((Message::I2cStartRequest { busno: busno as u8 })),
{
    out.push(Message::I2cStartRequest { busno: busno as u8 });
}

/// Issue an I2C stop condition on bus `busno`.
pub fn i2c_stop(out: &mut Vec<Message>, busno: i32)
    ensures
        final(out)@ == old(out)@.push((Message::I2cStopRequest { busno: busno as u8 })),
{
    out.push(Message::I2cStopRequest { busno: busno as u8 });
}

/// Write one byte on the I2C bus.
pub fn i2c_write_request(out: &mut Vec<Message>, busno: i32, data: i32)
    ensures
        final(out)@ == old(out)@.push(
            (Message::I2cWriteRequest { busno: busno as u8, data: data as u8 }),
        ),
{
    out.push(Message::I2cWriteRequest { busno: busno as u8, data: data as u8 });
}

/// The device's acknowledgment bit; a NACK surfaces as `false`, not as an
/// exception. An unexpected variant is a logged protocol violation.
pub fn i2c_write_finish(out: &mut Vec<Message>, reply: Message) -> (r: Result<bool, Fault>)
    ensures
        reply matches Message::I2cWriteReply { ack } ==> r == Result::<bool, Fault>::Ok(ack)
            && final(out)@ == old(out)@,
        !(reply matches Message::I2cWriteReply { .. }) ==> r == Result::<bool, Fault>::Err(
            Fault::ProtocolViolation,
        ) && final(out)@.len() == old(out)@.len() + 1 && final(out)@.subrange(
            0,
            old(out)@.len() as int,
        ) == old(out)@ && (final(out)@.last() matches Message::Log(m) && m@
            == "unexpected reply\n".spec_bytes()),
{
    match reply {
        Message::I2cWriteReply { ack } => Ok(ack),
        _ => {
            log_unexpected_reply(out);
            Err(Fault::ProtocolViolation)
        },
    }
}

/// Read one byte from the I2C bus, acknowledging it when `ack` is set.
pub fn i2c_read_request(out: &mut Vec<Message>, busno: i32, ack: bool)
    ensures
        final(out)@ == old(out)@.push((Message::I2cReadRequest { busno: busno as u8, ack })),
{
    out.push(Message::I2cReadRequest { busno: busno as u8, ack });
}

/// The byte the device answered; an unexpected variant is a logged protocol
/// violation.
pub fn i2c_read_finish(out: &mut Vec<Message>, reply: Message) -> (r: Result<i32, Fault>)
    ensures
        reply matches Message::I2cReadReply { data } ==> r == Result::<i32, Fault>::Ok(
            data as i32,
        ) && final(out)@ == old(out)@,
        !(reply matches Message::I2cReadReply { .. }) ==> r == Result::<i32, Fault>::Err(
            Fault::ProtocolViolation,
        ) && final(out)@.len() == old(out)@.len() + 1 && final(out)@.subrange(
            0,
            old(out)@.len() as int,
        ) == old(out)@ && (final(out)@.last() matches Message::Log(m) && m@
            == "unexpected reply\n".spec_bytes()),
{
    match reply {
        Message::I2cReadReply { data } => Ok(data as i32),
        _ => {
            log_unexpected_reply(out);
            Err(Fault::ProtocolViolation)
        },
    }
}

/// Relies on `core::str::from_utf8`, which accepts exactly valid UTF-8, and
/// on `Utf8Error::valid_up_to`, documented as the maximum index such that
/// `from_utf8(&input[..index])` returns `Ok(_)` — so the prefix of that
/// length is valid and every longer prefix is not.
#[verifier::external_body]
fn utf8_valid_prefix(text: &[u8]) -> (r: usize)
    ensures
        r <= text@.len(),
        vstd::utf8::valid_utf8(text@.subrange(0, r as int)),
        (r == text@.len()) == vstd::utf8::valid_utf8(text@),
        forall|k: int| r < k <= text@.len() ==> !vstd::utf8::valid_utf8(text@.subrange(0, k)),
{
    match core::str::from_utf8(text) {
        Ok(_) => text.len(),
        Err(e) => e.valid_up_to(),
    }
}

/// Forward `text` to the runtime core's log. Valid UTF-8 goes through as
/// one message; otherwise the longest valid prefix is logged, followed by
/// an `(invalid utf-8)` marker, so a corrupt byte never reaches the log
/// consumer.
pub fn send_to_core_log(out: &mut Vec<Message>, text: Vec<u8>)
    ensures
        vstd::utf8::valid_utf8(text@) ==> final(out)@ == old(out)@.push(Message::LogSlice(text)),
        !vstd::utf8::valid_utf8(text@) ==> ({
            &&& final(out)@.len() == old(out)@.len() + 2
            &&& final(out)@.subrange(0, old(out)@.len() as int) == old(out)@
            &&& exists|r: int|
                {
                    &&& 0 <= r < text@.len()
                    &&& vstd::utf8::valid_utf8(text@.subrange(0, r))
                    &&& forall|k: int| r < k <= text@.len() ==> !vstd::utf8::valid_utf8(
                        text@.subrange(0, k),
                    )
                    &&& final(out)@[old(out)@.len() as int] matches Message::LogSlice(p) && p@
                        == text@.subrange(0, r)
                }
            &&& final(out)@.last() matches Message::LogSlice(m) && m@
                == "(invalid utf-8)\n".spec_bytes()
        }),
{
    let n = utf8_valid_prefix(text.as_slice());
    if n == text.len() {
        out.push(Message::LogSlice(text));
    } else {
        let prefix = vstd::slice::slice_to_vec(vstd::slice::slice_subrange(
            text.as_slice(),
            0,
            n,
        ));
        out.push(Message::LogSlice(prefix));
        let marker = vstd::slice::slice_to_vec(("(invalid utf-8)\n").as_bytes());
        out.push(Message::LogSlice(marker));
        assert(out@.subrange(0, old(out)@.len() as int) =~= old(out)@);
    }
}

} // verus!
