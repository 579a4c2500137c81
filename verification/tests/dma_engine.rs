use ksupport::dma::{
    dma_erase, dma_playback, dma_record_output, dma_record_output_wide, dma_record_start,
    dma_record_stop, DmaRecorder, DmaRegisters, RTIO_O_STATUS_BUSY, RTIO_O_STATUS_COLLISION,
    RTIO_O_STATUS_SEQUENCE_ERROR, RTIO_O_STATUS_UNDERFLOW,
};
use ksupport::loader::{Import, Library};
use ksupport::msg::{Fault, Message};

fn lib_with_outputs() -> Library {
    Library {
        base: 0x1000,
        memory: vec![0; 16],
        exports: vec![],
        imports: vec![
            Import { name: b"rtio_output".to_vec(), addr: 1 },
            Import { name: b"rtio_output_wide".to_vec(), addr: 2 },
        ],
    }
}

#[test]
fn record_start_rebinds_and_announces() {
    let mut out: Vec<Message> = Vec::new();
    let mut lib = lib_with_outputs();
    let mut rec = DmaRecorder::new();
    dma_record_start(&mut out, &mut lib, &mut rec, 100, 200).unwrap();
    assert!(rec.recording);
    assert_eq!(lib.imports[0].addr, 100);
    assert_eq!(lib.imports[1].addr, 200);
    assert_eq!(out.len(), 1);
    assert!(matches!(out[0], Message::DmaRecordStart));
}

#[test]
fn record_start_twice_fails() {
    let mut out: Vec<Message> = Vec::new();
    let mut lib = lib_with_outputs();
    let mut rec = DmaRecorder::new();
    dma_record_start(&mut out, &mut lib, &mut rec, 100, 200).unwrap();
    let e = dma_record_start(&mut out, &mut lib, &mut rec, 100, 200).unwrap_err();
    assert_eq!(e.name, "0:artiq.coredevice.exceptions.DMAError");
    assert_eq!(e.message, "DMA is already recording");
    assert!(rec.recording);
    assert_eq!(out.len(), 1);
}

#[test]
fn record_stop_without_start_fails() {
    let mut out: Vec<Message> = Vec::new();
    let mut lib = lib_with_outputs();
    let mut rec = DmaRecorder::new();
    let e = dma_record_stop(&mut out, &mut lib, &mut rec, b"t".to_vec(), 10, 20).unwrap_err();
    assert_eq!(e.name, "0:artiq.coredevice.exceptions.DMAError");
    assert_eq!(e.message, "DMA is not recording");
    assert!(!rec.recording);
    assert!(out.is_empty());
    assert_eq!(lib.imports[0].addr, 1);
}

#[test]
fn record_stop_restores_direct_emission() {
    let mut out: Vec<Message> = Vec::new();
    let mut lib = lib_with_outputs();
    let mut rec = DmaRecorder::new();
    dma_record_start(&mut out, &mut lib, &mut rec, 100, 200).unwrap();
    dma_record_stop(&mut out, &mut lib, &mut rec, b"pulse".to_vec(), 10, 20).unwrap();
    assert!(!rec.recording);
    assert_eq!(lib.imports[0].addr, 10);
    assert_eq!(lib.imports[1].addr, 20);
    assert_eq!(out.len(), 2);
    match &out[1] {
        Message::DmaRecordStop(name) => assert_eq!(name, &b"pulse".to_vec()),
        other => panic!("wrong variant: {:?}", other),
    }
}

#[test]
fn record_output_appends_one_word() {
    let mut out: Vec<Message> = Vec::new();
    dma_record_output(&mut out, 5000, 2, 8, -1);
    match &out[0] {
        Message::DmaRecordAppend { timestamp, channel, address, data } => {
            assert_eq!(*timestamp, 5000);
            assert_eq!(*channel, 2);
            assert_eq!(*address, 8);
            assert_eq!(data, &vec![0xffffffffu32]);
        },
        other => panic!("wrong variant: {:?}", other),
    }
}

#[test]
fn record_output_wide_sixteen_words() {
    let mut out: Vec<Message> = Vec::new();
    let words: Vec<i32> = (0..16).collect();
    dma_record_output_wide(&mut out, 1, 2, 3, words);
    match &out[0] {
        Message::DmaRecordAppend { data, .. } => {
            assert_eq!(data.len(), 16);
            assert_eq!(data[15], 15);
        },
        other => panic!("wrong variant: {:?}", other),
    }
}

#[test]
fn erase_sends_request() {
    let mut out: Vec<Message> = Vec::new();
    dma_erase(&mut out, b"old-trace".to_vec());
    match &out[0] {
        Message::DmaEraseRequest(name) => assert_eq!(name, &b"old-trace".to_vec()),
        other => panic!("wrong variant: {:?}", other),
    }
}

#[test]
fn playback_unknown_trace_no_arbitration() {
    let mut out: Vec<Message> = Vec::new();
    let mut regs = DmaRegisters::new();
    let r = dma_playback(&mut out, &mut regs, 777, b"nope".to_vec(), Message::DmaPlaybackReply(
        None,
    ));
    match r {
        Err(Fault::Exception(e)) => {
            assert_eq!(e.name, "0:artiq.coredevice.exceptions.DMAError");
            assert_eq!(e.message, "DMA trace not found");
        },
        other => panic!("expected DMAError, got {:?}", other),
    }
    // No hardware was touched: no arbitration, no programming, no resets.
    assert!(regs.trace.is_none());
    assert_eq!(regs.dma_grants, 0);
    assert_eq!(regs.time_offset, 0);
    assert_eq!(regs.underflow_resets, 0);
    assert_eq!(out.len(), 2);
    match &out[0] {
        Message::DmaPlaybackRequest(name) => assert_eq!(name, &b"nope".to_vec()),
        other => panic!("wrong variant: {:?}", other),
    }
    match &out[1] {
        Message::Log(text) => assert_eq!(text, &b"DMA trace called nope not found\n".to_vec()),
        other => panic!("expected log line, got {:?}", other),
    }
}

#[test]
fn playback_underflow_reports_and_resets_once() {
    let mut out: Vec<Message> = Vec::new();
    let mut regs = DmaRegisters::new();
    regs.error_status = RTIO_O_STATUS_UNDERFLOW;
    regs.error_timestamp = 1000;
    regs.error_channel = 3;
    let r = dma_playback(&mut out, &mut regs, 500, b"t".to_vec(), Message::DmaPlaybackReply(
        Some(vec![1, 2, 3, 4]),
    ));
    match r {
        Err(Fault::Exception(e)) => {
            assert_eq!(e.name, "0:artiq.coredevice.exceptions.RTIOUnderflow");
            assert_eq!(e.message, "RTIO underflow at {0} mu, channel {1}");
            assert_eq!(e.param, [1000, 3, 0]);
        },
        other => panic!("expected RTIOUnderflow, got {:?}", other),
    }
    assert_eq!(regs.underflow_resets, 1);
    assert_eq!(regs.sequence_error_resets, 0);
    assert_eq!(regs.collision_resets, 0);
    assert_eq!(regs.busy_resets, 0);
    assert_eq!(regs.trace, Some(vec![1, 2, 3, 4]));
    assert_eq!(regs.time_offset, 500);
    assert_eq!(regs.dma_grants, 1);
}

#[test]
fn playback_precedence_reports_first_condition_only() {
    let mut out: Vec<Message> = Vec::new();
    let mut regs = DmaRegisters::new();
    regs.error_status = RTIO_O_STATUS_UNDERFLOW | RTIO_O_STATUS_SEQUENCE_ERROR
        | RTIO_O_STATUS_COLLISION | RTIO_O_STATUS_BUSY;
    let r = dma_playback(&mut out, &mut regs, 0, b"t".to_vec(), Message::DmaPlaybackReply(Some(
        vec![],
    )));
    match r {
        Err(Fault::Exception(e)) => {
            assert_eq!(e.name, "0:artiq.coredevice.exceptions.RTIOUnderflow");
        },
        other => panic!("expected RTIOUnderflow, got {:?}", other),
    }
    assert_eq!(regs.underflow_resets, 1);
    assert_eq!(regs.sequence_error_resets, 0);
    assert_eq!(regs.collision_resets, 0);
    assert_eq!(regs.busy_resets, 0);
}

#[test]
fn playback_sequence_error() {
    let mut out: Vec<Message> = Vec::new();
    let mut regs = DmaRegisters::new();
    regs.error_status = RTIO_O_STATUS_SEQUENCE_ERROR;
    regs.error_timestamp = 9;
    regs.error_channel = 1;
    let r = dma_playback(&mut out, &mut regs, 0, b"t".to_vec(), Message::DmaPlaybackReply(Some(
        vec![],
    )));
    match r {
        Err(Fault::Exception(e)) => {
            assert_eq!(e.name, "0:artiq.coredevice.exceptions.RTIOSequenceError");
            assert_eq!(e.param, [9, 1, 0]);
        },
        other => panic!("expected RTIOSequenceError, got {:?}", other),
    }
    assert_eq!(regs.sequence_error_resets, 1);
    assert_eq!(regs.underflow_resets, 0);
}

#[test]
fn playback_collision() {
    let mut out: Vec<Message> = Vec::new();
    let mut regs = DmaRegisters::new();
    regs.error_status = RTIO_O_STATUS_COLLISION;
    let r = dma_playback(&mut out, &mut regs, 0, b"t".to_vec(), Message::DmaPlaybackReply(Some(
        vec![],
    )));
    match r {
        Err(Fault::Exception(e)) => {
            assert_eq!(e.name, "0:artiq.coredevice.exceptions.RTIOCollision");
        },
        other => panic!("expected RTIOCollision, got {:?}", other),
    }
    assert_eq!(regs.collision_resets, 1);
}

#[test]
fn playback_busy_carries_channel_only() {
    let mut out: Vec<Message> = Vec::new();
    let mut regs = DmaRegisters::new();
    regs.error_status = RTIO_O_STATUS_BUSY;
    regs.error_channel = 6;
    let r = dma_playback(&mut out, &mut regs, 0, b"t".to_vec(), Message::DmaPlaybackReply(Some(
        vec![],
    )));
    match r {
        Err(Fault::Exception(e)) => {
            assert_eq!(e.name, "0:artiq.coredevice.exceptions.RTIOBusy");
            assert_eq!(e.message, "RTIO busy on channel {0}");
            assert_eq!(e.param, [6, 0, 0]);
        },
        other => panic!("expected RTIOBusy, got {:?}", other),
    }
    assert_eq!(regs.busy_resets, 1);
}

#[test]
fn playback_clean_run_succeeds() {
    let mut out: Vec<Message> = Vec::new();
    let mut regs = DmaRegisters::new();
    let r = dma_playback(&mut out, &mut regs, 123, b"t".to_vec(), Message::DmaPlaybackReply(
        Some(vec![9]),
    ));
    assert!(r.is_ok());
    assert_eq!(regs.dma_grants, 1);
    assert_eq!(regs.underflow_resets, 0);
    assert_eq!(regs.time_offset, 123);
}

#[test]
fn playback_unexpected_reply_is_logged_protocol_violation() {
    let mut out: Vec<Message> = Vec::new();
    let mut regs = DmaRegisters::new();
    let r = dma_playback(&mut out, &mut regs, 0, b"t".to_vec(), Message::RunFinished);
    assert!(matches!(r, Err(Fault::ProtocolViolation)));
    assert_eq!(regs.dma_grants, 0);
    assert_eq!(out.len(), 2);
    match &out[1] {
        Message::Log(text) => assert_eq!(text, &b"unexpected reply\n".to_vec()),
        other => panic!("expected log line, got {:?}", other),
    }
}
