use ksupport::mailbox::Mailbox;
use ksupport::msg::{Exception, Fault, Message};
use ksupport::rpc::{marshal, rpc_recv_finish, rpc_recv_request, rpc_send, rpc_send_async};
use ksupport::rpc_queue::RpcQueue;

fn exception(name: &str) -> Exception {
    Exception {
        name: name.to_string(),
        file: "elsewhere".to_string(),
        line: 3,
        column: 7,
        function: "f".to_string(),
        message: "m".to_string(),
        param: [1, 2, 3],
    }
}

#[test]
fn mailbox_round_trip_scalar() {
    let mut mb = Mailbox::new();
    mb.send(Message::NowInitReply(42));
    match mb.recv() {
        Message::NowInitReply(v) => assert_eq!(v, 42),
        other => panic!("wrong variant: {:?}", other),
    }
}

#[test]
fn mailbox_round_trip_structured() {
    let mut mb = Mailbox::new();
    mb.send(Message::RpcSend {
        is_async: true,
        service: 9,
        tag: b"list".to_vec(),
        data: vec![vec![1], vec![2, 3]],
    });
    match mb.recv() {
        Message::RpcSend { is_async, service, tag, data } => {
            assert!(is_async);
            assert_eq!(service, 9);
            assert_eq!(tag, b"list".to_vec());
            assert_eq!(data, vec![vec![1], vec![2, 3]]);
        },
        other => panic!("wrong variant: {:?}", other),
    }
}

#[test]
fn mailbox_reusable_after_recv() {
    let mut mb = Mailbox::new();
    mb.send(Message::RunFinished);
    let _ = mb.recv();
    mb.send(Message::RunAborted);
    assert!(matches!(mb.recv(), Message::RunAborted));
}

#[test]
fn queue_fifo_order() {
    let mut q = RpcQueue::new(4, 64);
    assert!(q.empty());
    q.enqueue(vec![1]).unwrap();
    q.enqueue(vec![2, 2]).unwrap();
    q.enqueue(vec![3, 3, 3]).unwrap();
    assert!(!q.empty());
    assert_eq!(q.dequeue(), vec![1, 0, 0, 0, 1]);
    assert_eq!(q.dequeue(), vec![2, 0, 0, 0, 2, 2]);
    assert_eq!(q.dequeue(), vec![3, 0, 0, 0, 3, 3, 3]);
    assert!(q.empty());
}

#[test]
fn queue_full_after_depth_frames() {
    let mut q = RpcQueue::new(2, 16);
    q.enqueue(vec![1]).unwrap();
    assert!(!q.full());
    q.enqueue(vec![2]).unwrap();
    assert!(q.full());
}

#[test]
fn queue_rejects_oversized_payload() {
    let mut q = RpcQueue::new(2, 8);
    // 5 payload bytes + 4 length-prefix bytes > 8: nothing is written.
    assert!(q.enqueue(vec![0; 5]).is_err());
    assert!(q.empty());
    // 4 + 4 <= 8 still fits.
    assert!(q.enqueue(vec![0; 4]).is_ok());
}

#[test]
fn marshal_exact_bytes() {
    let payload = marshal(7, &b"i".to_vec(), &vec![vec![0xaa], b"ab".to_vec()]);
    let expected: Vec<u8> = vec![
        7, 0, 0, 0, // service
        1, 0, 0, 0, // tag length
        b'i', // tag
        2, 0, 0, 0, // argument count
        1, 0, 0, 0, 0xaa, // first argument, length-prefixed
        2, 0, 0, 0, b'a', b'b', // second argument, length-prefixed
    ];
    assert_eq!(payload, expected);
}

#[test]
fn rpc_async_fitting_call_is_queued() {
    let mut out: Vec<Message> = Vec::new();
    let mut q = RpcQueue::new(4, 64);
    rpc_send_async(&mut out, &mut q, 5, b"i".to_vec(), vec![vec![123]]);
    assert!(out.is_empty());
    assert!(!q.empty());
    let frame = q.dequeue();
    let expected_payload = marshal(5, &b"i".to_vec(), &vec![vec![123]]);
    assert_eq!(frame[0] as usize, expected_payload.len());
    assert_eq!(&frame[4..], &expected_payload[..]);
}

#[test]
fn rpc_async_overflow_falls_back_to_mailbox() {
    let mut out: Vec<Message> = Vec::new();
    // The smallest marshalled call is 12 bytes, so an 8-byte frame always
    // overflows; the call must not be lost.
    let mut q = RpcQueue::new(4, 8);
    rpc_send_async(&mut out, &mut q, 5, b"bigtag".to_vec(), vec![vec![1, 2, 3]]);
    assert!(q.empty());
    assert_eq!(out.len(), 1);
    match &out[0] {
        Message::RpcSend { is_async, service, tag, data } => {
            assert!(*is_async);
            assert_eq!(*service, 5);
            assert_eq!(tag, &b"bigtag".to_vec());
            assert_eq!(data, &vec![vec![1, 2, 3]]);
        },
        other => panic!("wrong variant: {:?}", other),
    }
}

#[test]
fn rpc_sync_send_message() {
    let mut out: Vec<Message> = Vec::new();
    let q = RpcQueue::new(4, 64);
    rpc_send(&mut out, &q, 2, b"s".to_vec(), vec![vec![77]]);
    assert_eq!(out.len(), 1);
    match &out[0] {
        Message::RpcSend { is_async, service, .. } => {
            assert!(!*is_async);
            assert_eq!(*service, 2);
        },
        other => panic!("wrong variant: {:?}", other),
    }
}

#[test]
fn rpc_recv_request_and_ok_reply() {
    let mut out: Vec<Message> = Vec::new();
    rpc_recv_request(&mut out, 0xdead);
    assert!(matches!(out[0], Message::RpcRecvRequest(0xdead)));
    assert_eq!(rpc_recv_finish(&mut out, Message::RpcRecvReply(Ok(16))).unwrap(), 16);
    assert_eq!(out.len(), 1);
}

#[test]
fn rpc_recv_foreign_exception_is_reraised() {
    let mut out: Vec<Message> = Vec::new();
    let reply = Message::RpcRecvReply(Err(exception("remote")));
    match rpc_recv_finish(&mut out, reply) {
        Err(Fault::Exception(e)) => {
            assert_eq!(e.name, "remote");
            assert_eq!(e.param, [1, 2, 3]);
        },
        other => panic!("expected re-raised exception, got {:?}", other),
    }
    assert!(out.is_empty());
}

#[test]
fn rpc_recv_unexpected_variant_is_logged_protocol_violation() {
    let mut out: Vec<Message> = Vec::new();
    match rpc_recv_finish(&mut out, Message::NowInitRequest) {
        Err(Fault::ProtocolViolation) => {},
        other => panic!("expected protocol violation, got {:?}", other),
    }
    assert_eq!(out.len(), 1);
    match &out[0] {
        Message::Log(text) => assert_eq!(text, &b"unexpected reply\n".to_vec()),
        other => panic!("expected log line, got {:?}", other),
    }
}
