use ksupport::eh::{filter_backtrace, make_exception, terminate};
use ksupport::msg::{Message, KERNELCPU_PAYLOAD_ADDRESS};

#[test]
fn backtrace_entries_below_base_dropped_rest_offset() {
    let raw: Vec<u32> = vec![5, 0x40000100, 3, 0x40000200];
    let translated = filter_backtrace(&raw, 0x40000000);
    assert_eq!(translated, vec![0x100, 0x200]);
}

#[test]
fn backtrace_empty_stays_empty() {
    let translated = filter_backtrace(&Vec::new(), 0x40000000);
    assert!(translated.is_empty());
}

#[test]
fn backtrace_entry_equal_to_base_becomes_offset_zero() {
    let translated = filter_backtrace(&vec![0x40000000, 0x40000001], 0x40000000);
    assert_eq!(translated, vec![0, 1]);
}

#[test]
fn terminate_saves_time_then_reports_exception() {
    let mut out: Vec<Message> = Vec::new();
    let e = make_exception("0:artiq.coredevice.exceptions.ZeroDivisionError", "kernel",
        "cannot divide by zero", 0, 0, 0);
    let raw: Vec<u32> = vec![7, KERNELCPU_PAYLOAD_ADDRESS + 0x40, KERNELCPU_PAYLOAD_ADDRESS + 0x80];
    terminate(&mut out, e, raw, 31337);
    assert_eq!(out.len(), 2);
    assert!(matches!(out[0], Message::NowSave(31337)));
    match &out[1] {
        Message::RunException { exception, backtrace } => {
            assert_eq!(exception.name, "0:artiq.coredevice.exceptions.ZeroDivisionError");
            assert_eq!(exception.function, "(Rust function)");
            assert_eq!(backtrace, &vec![0x40, 0x80]);
        },
        other => panic!("wrong variant: {:?}", other),
    }
}
