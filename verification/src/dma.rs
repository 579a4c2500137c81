//! The RTIO DMA engine: recording timed-I/O sequences into a named trace by
//! intercepting the normal emission path, and replaying a trace under
//! arbitrated ownership of the timed-I/O bus.
//!
//! Recording and playback are mutually exclusive with themselves: starting a
//! recording while one is active, or stopping without one, fails with a
//! `DMAError`. Playback classifies the hardware status register into exactly
//! four mutually exclusive error conditions, in a fixed precedence —
//! underflow, sequence error, collision, busy — resetting only the condition
//! it reports.
//!
//! The hardware CSR block is modelled by [`DmaRegisters`], a plain value the
//! caller owns: programming the trace base hands the trace bytes over,
//! arbitration and error resets bump counters, and the error fields hold
//! whatever the status readout was after the run (a test presets them).

use vstd::prelude::*;
use vstd::string::StringSliceAdditionalSpecFns;
use crate::eh::{exn_matches, make_exception};
use crate::loader::{find_import, lemma_find_import_same_names, rebound, Library};
use crate::mailbox::log_unexpected_reply;
use crate::msg::{Exception, Fault, Message};

verus! {

pub const RTIO_O_STATUS_UNDERFLOW: u32 = 2;
pub const RTIO_O_STATUS_SEQUENCE_ERROR: u32 = 4;
pub const RTIO_O_STATUS_COLLISION: u32 = 8;
pub const RTIO_O_STATUS_BUSY: u32 = 16;

/// Name of the regular timed-output entry point in the import table.
pub open spec fn output_name() -> Seq<u8> {
    "rtio_output".spec_bytes()
}

/// Name of the wide-data timed-output entry point.
pub open spec fn output_wide_name() -> Seq<u8> {
    "rtio_output_wide".spec_bytes()
}

/// Whether the timed-output entry points of `lib` can be rebound: both names
/// are present in its import table.
pub open spec fn output_entries_bound(lib: &Library) -> bool {
    &&& find_import(lib.imports@, output_name()) is Some
    &&& find_import(lib.imports@, output_wide_name()) is Some
}

/// The import table of `lib` was rewritten in two steps: the regular entry
/// point to `out_addr`, then the wide one to `wide_addr`; nothing else moved
/// and no name changed.
pub open spec fn entries_rebound(old_imps: Seq<crate::loader::Import>,
    new_imps: Seq<crate::loader::Import>, out_addr: u32, wide_addr: u32) -> bool {
    exists|mid: Seq<crate::loader::Import>|
        #[trigger] rebound(old_imps, mid, find_import(old_imps, output_name())->0, out_addr)
            && rebound(mid, new_imps, find_import(old_imps, output_wide_name())->0, wide_addr)
}

/// The DMA recording state machine: `Idle <-> Recording`. One trace may be
/// recording at a time per kernel execution.
pub struct DmaRecorder {
    pub recording: bool,
}

impl DmaRecorder {
    pub fn new() -> (r: DmaRecorder)
        ensures
            !r.recording,
    {
        DmaRecorder { recording: false }
    }
}

/// Swing both timed-output entry points of the loaded image to new targets.
/// The two rebinds always succeed because both names are imported.
fn rebind_outputs(lib: &mut Library, out_addr: u32, wide_addr: u32)
    requires
        output_entries_bound(old(lib)),
    ensures
        final(lib).base == old(lib).base,
        final(lib).memory == old(lib).memory,
        final(lib).exports == old(lib).exports,
        entries_rebound(old(lib).imports@, final(lib).imports@, out_addr, wide_addr),
        output_entries_bound(final(lib)),
{
    let r1 = lib.rebind("rtio_output".as_bytes(), out_addr);
    proof {
        assert(r1 is Ok);
        lemma_find_import_same_names(old(lib).imports@, lib.imports@, output_name());
        lemma_find_import_same_names(old(lib).imports@, lib.imports@, output_wide_name());
    }
    let ghost mid = lib.imports@;
    let r2 = lib.rebind("rtio_output_wide".as_bytes(), wide_addr);
    proof {
        assert(r2 is Ok);
        assert(rebound(mid, lib.imports@, find_import(mid, output_wide_name())->0, wide_addr));
        assert(find_import(mid, output_wide_name()) == find_import(
            old(lib).imports@,
            output_wide_name(),
        ));
        lemma_find_import_same_names(mid, lib.imports@, output_name());
        lemma_find_import_same_names(mid, lib.imports@, output_wide_name());
    }
}

/// Start recording: rebind the two timed-output entry points to the
/// recording shims at `record_out_addr`/`record_wide_addr` and announce the
/// append-only sequence to the runtime core. Starting while already
/// recording fails with a `DMAError` and changes nothing.
pub fn dma_record_start(out: &mut Vec<Message>, lib: &mut Library, rec: &mut DmaRecorder,
    record_out_addr: u32, record_wide_addr: u32) -> (r: Result<(), Exception>)
    requires
        output_entries_bound(old(lib)),
    ensures
        final(lib).base == old(lib).base,
        final(lib).memory == old(lib).memory,
        final(lib).exports == old(lib).exports,
        output_entries_bound(final(lib)),
        if old(rec).recording {
            &&& r matches Err(e) && exn_matches(
                e,
                "0:artiq.coredevice.exceptions.DMAError"@,
                "dma"@,
                "DMA is already recording"@,
                0,
                0,
                0,
            )
            &&& *final(lib) == *old(lib)
            &&& *final(rec) == *old(rec)
            &&& final(out)@ == old(out)@
        } else {
            &&& r is Ok
            &&& final(rec).recording
            &&& final(out)@ == old(out)@.push(Message::DmaRecordStart)
            &&& entries_rebound(
                old(lib).imports@,
                final(lib).imports@,
                record_out_addr,
                record_wide_addr,
            )
        },
{
    if rec.recording {
        return Err(
            make_exception(
                "0:artiq.coredevice.exceptions.DMAError",
                "dma",
                "DMA is already recording",
                0,
                0,
                0,
            ),
        );
    }
    rebind_outputs(lib, record_out_addr, record_wide_addr);
    rec.recording = true;
    out.push(Message::DmaRecordStart);
    Ok(())
}

/// Stop recording: rebind the entry points back to direct hardware emission
/// at `direct_out_addr`/`direct_wide_addr` and finalize the trace under
/// `name`. Stopping while not recording fails with a `DMAError` and changes
/// nothing.
pub fn dma_record_stop(out: &mut Vec<Message>, lib: &mut Library, rec: &mut DmaRecorder,
    name: Vec<u8>, direct_out_addr: u32, direct_wide_addr: u32) -> (r: Result<(), Exception>)
    requires
        output_entries_bound(old(lib)),
    ensures
        final(lib).base == old(lib).base,
        final(lib).memory == old(lib).memory,
        final(lib).exports == old(lib).exports,
        output_entries_bound(final(lib)),
        if !old(rec).recording {
            &&& r matches Err(e) && exn_matches(
                e,
                "0:artiq.coredevice.exceptions.DMAError"@,
                "dma"@,
                "DMA is not recording"@,
                0,
                0,
                0,
            )
            &&& *final(lib) == *old(lib)
            &&& *final(rec) == *old(rec)
            &&& final(out)@ == old(out)@
        } else {
            &&& r is Ok
            &&& !final(rec).recording
            &&& final(out)@ == old(out)@.push(Message::DmaRecordStop(name))
            &&& entries_rebound(
                old(lib).imports@,
                final(lib).imports@,
                direct_out_addr,
                direct_wide_addr,
            )
        },
{
    if !rec.recording {
        return Err(
            make_exception(
                "0:artiq.coredevice.exceptions.DMAError",
                "dma",
                "DMA is not recording",
                0,
                0,
                0,
            ),
        );
    }
    rebind_outputs(lib, direct_out_addr, direct_wide_addr);
    rec.recording = false;
    out.push(Message::DmaRecordStop(name));
    Ok(())
}

/// The recording shim for the regular timed-output call: one data word,
/// appended to the active trace owned by the runtime core.
pub fn dma_record_output(out: &mut Vec<Message>, timestamp: i64, channel: i32, address: i32,
    word: i32)
    ensures
        final(out)@.len() == old(out)@.len() + 1,
        final(out)@.subrange(0, old(out)@.len() as int) == old(out)@,
        final(out)@.last() matches Message::DmaRecordAppend {
            timestamp: t,
            channel: c,
            address: a,
            data: d,
        } && t == timestamp as u64 && c == channel as u32 && a == address as u32 && d@ == seq![
            word as u32,
        ],
{
    let mut data: Vec<u32> = Vec::new();
    data.push(word as u32);
    out.push(
        Message::DmaRecordAppend {
            timestamp: timestamp as u64,
            channel: channel as u32,
            address: address as u32,
            data,
        },
    );
    assert(final(out)@.subrange(0, old(out)@.len() as int) =~= old(out)@);
}

/// The recording shim for the wide timed-output call. The hardware takes at
/// most 16 data words per record; a wider request is a programming error the
/// precondition excludes, so it can never reach the record sink.
pub fn dma_record_output_wide(out: &mut Vec<Message>, timestamp: i64, channel: i32, address: i32,
    data: Vec<i32>)
    requires
        data@.len() <= 16,
    ensures
        final(out)@.len() == old(out)@.len() + 1,
        final(out)@.subrange(0, old(out)@.len() as int) == old(out)@,
        final(out)@.last() matches Message::DmaRecordAppend {
            timestamp: t,
            channel: c,
            address: a,
            data: d,
        } && t == timestamp as u64 && c == channel as u32 && a == address as u32 && d@
            == data@.map_values(|w: i32| w as u32),
{
    let mut words: Vec<u32> = Vec::new();
    let mut i: usize = 0;
    while i < data.len()
        invariant
            0 <= i <= data@.len(),
            words@.len() == i,
            forall|j: int| 0 <= j < i ==> words@[j] == data@[j] as u32,
        decreases data@.len() - i,
    {
        words.push(data[i] as u32);
        i = i + 1;
    }
    assert(words@ =~= data@.map_values(|w: i32| w as u32));
    out.push(
        Message::DmaRecordAppend {
            timestamp: timestamp as u64,
            channel: channel as u32,
            address: address as u32,
            data: words,
        },
    );
    assert(final(out)@.subrange(0, old(out)@.len() as int) =~= old(out)@);
}

/// Ask the runtime core to forget the trace named `name`.
pub fn dma_erase(out: &mut Vec<Message>, name: Vec<u8>)
    ensures
        final(out)@ == old(out)@.push(Message::DmaEraseRequest(name)),
{
    out.push(Message::DmaEraseRequest(name));
}

/// The simulated CSR block of the DMA engine plus bus arbitration. The
/// `error_*` fields hold the status readout after a playback run; each
/// `*_resets` counter counts the writes to the corresponding reset register,
/// and `dma_grants` the arbitration handshakes that granted the engine the
/// timed-I/O bus.
pub struct DmaRegisters {
    pub trace: Option<Vec<u8>>,
    pub time_offset: u64,
    pub error_status: u32,
    pub error_timestamp: u64,
    pub error_channel: u32,
    pub underflow_resets: u64,
    pub sequence_error_resets: u64,
    pub collision_resets: u64,
    pub busy_resets: u64,
    pub dma_grants: u64,
}

impl DmaRegisters {
    /// The block as it comes out of reset.
    pub fn new() -> (r: DmaRegisters)
        ensures
            r.trace is None,
            r.time_offset == 0,
            r.error_status == 0,
            r.error_timestamp == 0,
            r.error_channel == 0,
            r.underflow_resets == 0,
            r.sequence_error_resets == 0,
            r.collision_resets == 0,
            r.busy_resets == 0,
            r.dma_grants == 0,
    {
        DmaRegisters {
            trace: None,
            time_offset: 0,
            error_status: 0,
            error_timestamp: 0,
            error_channel: 0,
            underflow_resets: 0,
            sequence_error_resets: 0,
            collision_resets: 0,
            busy_resets: 0,
            dma_grants: 0,
        }
    }
}

/// Replay the trace named `name` at `timestamp`. The request goes out on
/// the mailbox; `reply` is what the runtime core answered. An unknown name
/// is logged and fails with a `DMAError` before any register is touched —
/// no arbitration happens; an unexpected reply variant is a logged protocol
/// violation. Otherwise the trace is programmed, the bus arbitrated to the
/// engine and back, and the status readout is classified in fixed
/// precedence — underflow, sequence error, collision, busy — raising the
/// first condition found, with the failure timestamp and channel as
/// parameters, after resetting that condition exactly once.
pub fn dma_playback(out: &mut Vec<Message>, regs: &mut DmaRegisters, timestamp: i64,
    name: Vec<u8>, reply: Message) -> (r: Result<(), Fault>)
    requires
        old(regs).underflow_resets < u64::MAX,
        old(regs).sequence_error_resets < u64::MAX,
        old(regs).collision_resets < u64::MAX,
        old(regs).busy_resets < u64::MAX,
        old(regs).dma_grants < u64::MAX,
    ensures
        final(out)@.subrange(0, old(out)@.len() as int) == old(out)@,
        final(out)@[old(out)@.len() as int] == Message::DmaPlaybackRequest(name),
        !(reply matches Message::DmaPlaybackReply(_)) ==> r == Result::<(), Fault>::Err(
            Fault::ProtocolViolation,
        ) && *final(regs) == *old(regs) && final(out)@.len() == old(out)@.len() + 2 && (final(out)@.last() matches Message::Log(m) && m@ == "unexpected reply\n".spec_bytes()),
        reply matches Message::DmaPlaybackReply(None) ==> (r matches Err(Fault::Exception(e))
            && exn_matches(
            e,
            "0:artiq.coredevice.exceptions.DMAError"@,
            "dma"@,
            "DMA trace not found"@,
            0,
            0,
            0,
        ) && *final(regs) == *old(regs) && final(out)@.len() == old(out)@.len() + 2 && (final(out)@.last() matches Message::Log(m) && m@ == "DMA trace called ".spec_bytes() + name@
            + " not found\n".spec_bytes())),
        reply matches Message::DmaPlaybackReply(Some(bytes)) ==> final(out)@.len() == old(out)@.len() + 1 && ({
            let st = old(regs).error_status;
            let ts = old(regs).error_timestamp as i64;
            let ch = old(regs).error_channel as i64;
            &&& final(regs).trace == Some(bytes)
            &&& final(regs).time_offset == timestamp as u64
            &&& final(regs).dma_grants == old(regs).dma_grants + 1
            &&& final(regs).error_status == old(regs).error_status
            &&& final(regs).error_timestamp == old(regs).error_timestamp
            &&& final(regs).error_channel == old(regs).error_channel
            &&& if st & RTIO_O_STATUS_UNDERFLOW != 0 {
                &&& r matches Err(Fault::Exception(e)) && exn_matches(
                    e,
                    "0:artiq.coredevice.exceptions.RTIOUnderflow"@,
                    "dma"@,
                    "RTIO underflow at {0} mu, channel {1}"@,
                    ts,
                    ch,
                    0,
                )
                &&& final(regs).underflow_resets == old(regs).underflow_resets + 1
                &&& final(regs).sequence_error_resets == old(regs).sequence_error_resets
                &&& final(regs).collision_resets == old(regs).collision_resets
                &&& final(regs).busy_resets == old(regs).busy_resets
            } else if st & RTIO_O_STATUS_SEQUENCE_ERROR != 0 {
                &&& r matches Err(Fault::Exception(e)) && exn_matches(
                    e,
                    "0:artiq.coredevice.exceptions.RTIOSequenceError"@,
                    "dma"@,
                    "RTIO sequence error at {0} mu, channel {1}"@,
                    ts,
                    ch,
                    0,
                )
                &&& final(regs).sequence_error_resets == old(regs).sequence_error_resets + 1
                &&& final(regs).underflow_resets == old(regs).underflow_resets
                &&& final(regs).collision_resets == old(regs).collision_resets
                &&& final(regs).busy_resets == old(regs).busy_resets
            } else if st & RTIO_O_STATUS_COLLISION != 0 {
                &&& r matches Err(Fault::Exception(e)) && exn_matches(
                    e,
                    "0:artiq.coredevice.exceptions.RTIOCollision"@,
                    "dma"@,
                    "RTIO collision at {0} mu, channel {1}"@,
                    ts,
                    ch,
                    0,
                )
                &&& final(regs).collision_resets == old(regs).collision_resets + 1
                &&& final(regs).underflow_resets == old(regs).underflow_resets
                &&& final(regs).sequence_error_resets == old(regs).sequence_error_resets
                &&& final(regs).busy_resets == old(regs).busy_resets
            } else if st & RTIO_O_STATUS_BUSY != 0 {
                &&& r matches Err(Fault::Exception(e)) && exn_matches(
                    e,
                    "0:artiq.coredevice.exceptions.RTIOBusy"@,
                    "dma"@,
                    "RTIO busy on channel {0}"@,
                    ch,
                    0,
                    0,
                )
                &&& final(regs).busy_resets == old(regs).busy_resets + 1
                &&& final(regs).underflow_resets == old(regs).underflow_resets
                &&& final(regs).sequence_error_resets == old(regs).sequence_error_resets
                &&& final(regs).collision_resets == old(regs).collision_resets
            } else {
                &&& r is Ok
                &&& final(regs).underflow_resets == old(regs).underflow_resets
                &&& final(regs).sequence_error_resets == old(regs).sequence_error_resets
                &&& final(regs).collision_resets == old(regs).collision_resets
                &&& final(regs).busy_resets == old(regs).busy_resets
            }
        }),
{
    let log_name = name.clone();
    out.push(Message::DmaPlaybackRequest(name));
    assert(out@.subrange(0, old(out)@.len() as int) =~= old(out)@);
    let bytes = match reply {
        Message::DmaPlaybackReply(Some(bytes)) => bytes,
        Message::DmaPlaybackReply(None) => {
            let mut text = vstd::slice::slice_to_vec(("DMA trace called ").as_bytes());
            text.extend_from_slice(log_name.as_slice());
            text.extend_from_slice((" not found\n").as_bytes());
            out.push(Message::Log(text));
            assert(out@.subrange(0, old(out)@.len() as int) =~= old(out)@);
            return Err(
                Fault::Exception(
                    make_exception(
                        "0:artiq.coredevice.exceptions.DMAError",
                        "dma",
                        "DMA trace not found",
                        0,
                        0,
                        0,
                    ),
                ),
            );
        },
        _ => {
            let ghost mid = out@;
            log_unexpected_reply(out);
            proof {
                assert(out@.subrange(0, mid.len() as int) == mid);
                assert(out@[old(out)@.len() as int] == mid[old(out)@.len() as int]);
                assert(out@.subrange(0, old(out)@.len() as int) =~= old(out)@);
            }
            return Err(Fault::ProtocolViolation);
        },
    };
    regs.trace = Some(bytes);
    regs.time_offset = timestamp as u64;
    regs.dma_grants = regs.dma_grants + 1;

    let status = regs.error_status;
    let err_timestamp = regs.error_timestamp;
    let err_channel = regs.error_channel;
    if status & RTIO_O_STATUS_UNDERFLOW != 0 {
        regs.underflow_resets = regs.underflow_resets + 1;
        return Err(
            Fault::Exception(
                make_exception(
                    "0:artiq.coredevice.exceptions.RTIOUnderflow",
                    "dma",
                    "RTIO underflow at {0} mu, channel {1}",
                    err_timestamp as i64,
                    err_channel as i64,
                    0,
                ),
            ),
        );
    }
    if status & RTIO_O_STATUS_SEQUENCE_ERROR != 0 {
        regs.sequence_error_resets = regs.sequence_error_resets + 1;
        return Err(
            Fault::Exception(
                make_exception(
                    "0:artiq.coredevice.exceptions.RTIOSequenceError",
                    "dma",
                    "RTIO sequence error at {0} mu, channel {1}",
                    err_timestamp as i64,
                    err_channel as i64,
                    0,
                ),
            ),
        );
    }
    if status & RTIO_O_STATUS_COLLISION != 0 {
        regs.collision_resets = regs.collision_resets + 1;
        return Err(
            Fault::Exception(
                make_exception(
                    "0:artiq.coredevice.exceptions.RTIOCollision",
                    "dma",
                    "RTIO collision at {0} mu, channel {1}",
                    err_timestamp as i64,
                    err_channel as i64,
                    0,
                ),
            ),
        );
    }
    if status & RTIO_O_STATUS_BUSY != 0 {
        regs.busy_resets = regs.busy_resets + 1;
        return Err(
            Fault::Exception(
                make_exception(
                    "0:artiq.coredevice.exceptions.RTIOBusy",
                    "dma",
                    "RTIO busy on channel {0}",
                    err_channel as i64,
                    0,
                    0,
                ),
            ),
        );
    }
    Ok(())
}

} // verus!
